//! Batches: many copies of one drawable, each with its own parameters,
//! sent to the GPU together.

use vstd::prelude::*;
use crate::error::GameError;

verus! {

/// A handle to an instance inside a [`MeshBatch`]: its position.
pub type InstanceIdx = usize;

/// `e` is a [`GameError::RenderError`] saying an index is out of bounds.
pub open spec fn is_out_of_bounds(e: GameError) -> bool {
    e matches GameError::RenderError(m) && m@ == "Provided index is out of bounds."@
}

/// The error for an index past the instances of a batch.
fn out_of_bounds() -> (e: GameError)
    ensures
        is_out_of_bounds(e),
{
    GameError::RenderError(String::from_str("Provided index is out of bounds."))
}

/// Copies of the mesh `M`, each drawn with its own instance parameters `P`.
#[derive(Debug)]
pub struct MeshBatch<M, P> {
    mesh: M,
    instances: Vec<P>,
}

impl<M, P> MeshBatch<M, P> {
    /// The mesh.
    pub closed spec fn spec_mesh(&self) -> M {
        self.mesh
    }

    /// The instance parameters, in order.
    pub closed spec fn spec_instances(&self) -> Seq<P> {
        self.instances@
    }

    /// A batch of no instances of `mesh`.
    pub fn new(mesh: M) -> (b: Self)
        ensures
            b.spec_mesh() == mesh,
            b.spec_instances() == Seq::<P>::empty(),
    {
        MeshBatch { mesh, instances: Vec::new() }
    }

    /// Adds an instance; its handle is its position.
    pub fn add(&mut self, param: P) -> (idx: InstanceIdx)
        requires
            old(self).spec_instances().len() < usize::MAX,
        ensures
            final(self).spec_instances() == old(self).spec_instances().push(param),
            final(self).spec_mesh() == old(self).spec_mesh(),
            idx == old(self).spec_instances().len(),
    {
        self.instances.push(param);
        self.instances.len() - 1
    }

    /// Changes the parameters of the instance at `handle`, the value that
    /// [`MeshBatch::add`] returned for it; any other handle is refused and
    /// the batch is left as it was.
    pub fn set(&mut self, handle: InstanceIdx, param: P) -> (r: Result<(), GameError>)
        ensures
            final(self).spec_mesh() == old(self).spec_mesh(),
            r is Ok <==> handle < old(self).spec_instances().len(),
            match r {
                Ok(()) => final(self).spec_instances() == old(self).spec_instances().update(handle as int, param),
                Err(e) => is_out_of_bounds(e) && final(self).spec_instances() == old(self).spec_instances(),
            },
    {
        if handle < self.instances.len() {
            self.instances.set(handle, param);
            Ok(())
        } else {
            Err(out_of_bounds())
        }
    }

    /// Removes every instance.
    pub fn clear(&mut self)
        ensures
            final(self).spec_instances() == Seq::<P>::empty(),
            final(self).spec_mesh() == old(self).spec_mesh(),
    {
        self.instances.clear();
    }

    /// The instance parameters.
    pub fn instances(&self) -> (r: &[P])
        ensures
            r@ == self.spec_instances(),
    {
        self.instances.as_slice()
    }

    /// The mesh.
    pub fn mesh(&self) -> (r: &M)
        ensures
            *r == self.spec_mesh(),
    {
        &self.mesh
    }

    /// Unwraps the mesh.
    pub fn into_inner(self) -> (m: M)
        ensures
            m == self.spec_mesh(),
    {
        self.mesh
    }

    /// Replaces the mesh, returning the old one.
    pub fn set_inner(&mut self, mesh: M) -> (old_mesh: M)
        ensures
            old_mesh == old(self).spec_mesh(),
            final(self).spec_mesh() == mesh,
            final(self).spec_instances() == old(self).spec_instances(),
    {
        let mut m = mesh;
        std::mem::swap(&mut self.mesh, &mut m);
        m
    }
}

/// An index of a particular sprite in a [`SpriteBatch`].
#[derive(Copy, Clone, Debug, PartialEq, Eq, Structural, PartialOrd, Ord, Hash)]
pub struct SpriteIdx(pub usize);

/// Copies of the image `I`, each drawn with its own parameters `P`, with
/// an optional blend mode `B`.
#[derive(Debug, Clone)]
pub struct SpriteBatch<I, P, B> {
    image: I,
    sprites: Vec<P>,
    blend_mode: Option<B>,
}

impl<I, P, B> SpriteBatch<I, P, B> {
    /// The image.
    pub closed spec fn spec_image(&self) -> I {
        self.image
    }

    /// The sprite parameters, in order.
    pub closed spec fn spec_sprites(&self) -> Seq<P> {
        self.sprites@
    }

    /// The blend mode, if set.
    pub closed spec fn spec_blend_mode(&self) -> Option<B> {
        self.blend_mode
    }

    /// A batch of no sprites of `image`, with no blend mode.
    pub fn new(image: I) -> (b: Self)
        ensures
            b.spec_image() == image,
            b.spec_sprites() == Seq::<P>::empty(),
            b.spec_blend_mode() is None,
    {
        SpriteBatch { image, sprites: Vec::new(), blend_mode: None }
    }

    /// Adds a sprite; its handle is its position.
    pub fn add(&mut self, param: P) -> (idx: SpriteIdx)
        requires
            old(self).spec_sprites().len() < usize::MAX,
        ensures
            final(self).spec_sprites() == old(self).spec_sprites().push(param),
            final(self).spec_image() == old(self).spec_image(),
            final(self).spec_blend_mode() == old(self).spec_blend_mode(),
            idx.0 == old(self).spec_sprites().len(),
    {
        self.sprites.push(param);
        SpriteIdx(self.sprites.len() - 1)
    }

    /// Changes the parameters of a sprite; a handle past the sprites is refused.
    pub fn set(&mut self, handle: SpriteIdx, param: P) -> (r: Result<(), GameError>)
        ensures
            final(self).spec_image() == old(self).spec_image(),
            final(self).spec_blend_mode() == old(self).spec_blend_mode(),
            match r {
                Ok(()) => handle.0 < old(self).spec_sprites().len()
                    && final(self).spec_sprites() == old(self).spec_sprites().update(handle.0 as int, param),
                Err(e) => handle.0 >= old(self).spec_sprites().len() && is_out_of_bounds(e)
                    && final(self).spec_sprites() == old(self).spec_sprites(),
            },
    {
        if handle.0 < self.sprites.len() {
            self.sprites.set(handle.0, param);
            Ok(())
        } else {
            Err(out_of_bounds())
        }
    }

    /// Removes every sprite.
    pub fn clear(&mut self)
        ensures
            final(self).spec_sprites() == Seq::<P>::empty(),
            final(self).spec_image() == old(self).spec_image(),
            final(self).spec_blend_mode() == old(self).spec_blend_mode(),
    {
        self.sprites.clear();
    }

    /// The sprite parameters.
    pub fn sprites(&self) -> (r: &[P])
        ensures
            r@ == self.spec_sprites(),
    {
        self.sprites.as_slice()
    }

    /// The image.
    pub fn image(&self) -> (r: &I)
        ensures
            *r == self.spec_image(),
    {
        &self.image
    }

    /// Unwraps the image.
    pub fn into_inner(self) -> (i: I)
        ensures
            i == self.spec_image(),
    {
        self.image
    }

    /// Replaces the image, returning the old one.
    pub fn set_image(&mut self, image: I) -> (old_image: I)
        ensures
            old_image == old(self).spec_image(),
            final(self).spec_image() == image,
            final(self).spec_sprites() == old(self).spec_sprites(),
            final(self).spec_blend_mode() == old(self).spec_blend_mode(),
    {
        let mut i = image;
        std::mem::swap(&mut self.image, &mut i);
        i
    }

    /// Sets the blend mode; `None` draws with the canvas's mode.
    pub fn set_blend_mode(&mut self, mode: Option<B>)
        ensures
            final(self).spec_blend_mode() == mode,
            final(self).spec_image() == old(self).spec_image(),
            final(self).spec_sprites() == old(self).spec_sprites(),
    {
        self.blend_mode = mode;
    }

    /// The blend mode, if set.
    pub fn blend_mode(&self) -> (r: &Option<B>)
        ensures
            *r == self.spec_blend_mode(),
    {
        &self.blend_mode
    }
}

} // verus!
