//! Meshes: a vertex and an index buffer on the GPU, with room that is reused
//! while new contents fit.

use vstd::prelude::*;

verus! {

/// A mesh whose vertex and index buffers have type `B`.
///
/// Each buffer has a capacity, the most elements it was made for, and a
/// count, how many of them are in use.  A mesh has an id; it changes
/// whenever a buffer is made anew, so that whatever was built from the old
/// buffers can tell.
#[derive(Debug)]
pub struct Mesh<B> {
    verts: B,
    inds: B,
    verts_capacity: usize,
    inds_capacity: usize,
    vertex_count: usize,
    index_count: usize,
    id: usize,
}

impl<B> Mesh<B> {
    /// The vertex buffer.
    pub closed spec fn spec_verts(&self) -> B {
        self.verts
    }

    /// The index buffer.
    pub closed spec fn spec_inds(&self) -> B {
        self.inds
    }

    /// How many vertices the vertex buffer has room for.
    pub closed spec fn spec_verts_capacity(&self) -> nat {
        self.verts_capacity as nat
    }

    /// How many indices the index buffer has room for.
    pub closed spec fn spec_inds_capacity(&self) -> nat {
        self.inds_capacity as nat
    }

    /// How many vertices are in use.
    pub closed spec fn spec_vertex_count(&self) -> nat {
        self.vertex_count as nat
    }

    /// How many indices are in use.
    pub closed spec fn spec_index_count(&self) -> nat {
        self.index_count as nat
    }

    /// The id of the mesh.
    pub closed spec fn spec_id(&self) -> usize {
        self.id
    }

    /// Every count fits in its buffer.
    pub open spec fn wf(&self) -> bool {
        &&& self.spec_vertex_count() <= self.spec_verts_capacity()
        &&& self.spec_index_count() <= self.spec_inds_capacity()
    }

    /// A mesh of `vertex_count` vertices in `verts` and `index_count`
    /// indices in `inds`, each buffer made just large enough, with the id
    /// `id`.
    pub fn new(verts: B, inds: B, vertex_count: usize, index_count: usize, id: usize) -> (m: Self)
        ensures
            m.wf(),
            m.spec_verts() == verts,
            m.spec_inds() == inds,
            m.spec_verts_capacity() == vertex_count,
            m.spec_inds_capacity() == index_count,
            m.spec_vertex_count() == vertex_count,
            m.spec_index_count() == index_count,
            m.spec_id() == id,
    {
        Mesh {
            verts,
            inds,
            verts_capacity: vertex_count,
            inds_capacity: index_count,
            vertex_count,
            index_count,
            id,
        }
    }

    /// How many vertices are in use.
    pub fn vertex_count(&self) -> (n: usize)
        ensures
            n == self.spec_vertex_count(),
    {
        self.vertex_count
    }

    /// How many indices are in use.
    pub fn index_count(&self) -> (n: usize)
        ensures
            n == self.spec_index_count(),
    {
        self.index_count
    }

    /// The id of the mesh.
    pub fn id(&self) -> (i: usize)
        ensures
            i == self.spec_id(),
    {
        self.id
    }

    /// The vertex buffer.
    pub fn verts(&self) -> (b: &B)
        ensures
            *b == self.spec_verts(),
    {
        &self.verts
    }

    /// The index buffer.
    pub fn inds(&self) -> (b: &B)
        ensures
            *b == self.spec_inds(),
    {
        &self.inds
    }

    /// Gives the mesh a new id.
    pub fn update_id(&mut self, id: usize)
        ensures
            final(self).spec_id() == id,
            final(self).spec_verts() == old(self).spec_verts(),
            final(self).spec_inds() == old(self).spec_inds(),
            final(self).spec_verts_capacity() == old(self).spec_verts_capacity(),
            final(self).spec_inds_capacity() == old(self).spec_inds_capacity(),
            final(self).spec_vertex_count() == old(self).spec_vertex_count(),
            final(self).spec_index_count() == old(self).spec_index_count(),
    {
        self.id = id;
    }

    /// Sets the vertices to `count` new ones.  Where they fit in the vertex
    /// buffer, the buffer is kept and `true` comes back: the caller writes
    /// them into it.  Else `remake` makes a buffer of the new vertices and
    /// a new id, both of which the mesh takes, and `false` comes back.
    pub fn set_vertices<F: FnOnce() -> (B, usize)>(&mut self, count: usize, remake: F) -> (in_place: bool)
        requires
            old(self).wf(),
            count > old(self).spec_verts_capacity() ==> call_requires(remake, ()),
        ensures
            final(self).wf(),
            in_place == (count <= old(self).spec_verts_capacity()),
            final(self).spec_vertex_count() == count,
            in_place ==> {
                &&& final(self).spec_verts() == old(self).spec_verts()
                &&& final(self).spec_verts_capacity() == old(self).spec_verts_capacity()
                &&& final(self).spec_id() == old(self).spec_id()
            },
            !in_place ==> {
                &&& call_ensures(remake, (), (final(self).spec_verts(), final(self).spec_id()))
                &&& final(self).spec_verts_capacity() == count
            },
            final(self).spec_inds() == old(self).spec_inds(),
            final(self).spec_inds_capacity() == old(self).spec_inds_capacity(),
            final(self).spec_index_count() == old(self).spec_index_count(),
    {
        self.vertex_count = count;
        if count > self.verts_capacity {
            let (buffer, id) = remake();
            self.verts_capacity = count;
            self.verts = buffer;
            self.id = id;
            false
        } else {
            true
        }
    }

    /// Sets the indices to `count` new ones, as [`Mesh::set_vertices`] does
    /// the vertices.
    pub fn set_indices<F: FnOnce() -> (B, usize)>(&mut self, count: usize, remake: F) -> (in_place: bool)
        requires
            old(self).wf(),
            count > old(self).spec_inds_capacity() ==> call_requires(remake, ()),
        ensures
            final(self).wf(),
            in_place == (count <= old(self).spec_inds_capacity()),
            final(self).spec_index_count() == count,
            in_place ==> {
                &&& final(self).spec_inds() == old(self).spec_inds()
                &&& final(self).spec_inds_capacity() == old(self).spec_inds_capacity()
                &&& final(self).spec_id() == old(self).spec_id()
            },
            !in_place ==> {
                &&& call_ensures(remake, (), (final(self).spec_inds(), final(self).spec_id()))
                &&& final(self).spec_inds_capacity() == count
            },
            final(self).spec_verts() == old(self).spec_verts(),
            final(self).spec_verts_capacity() == old(self).spec_verts_capacity(),
            final(self).spec_vertex_count() == old(self).spec_vertex_count(),
    {
        self.index_count = count;
        if count > self.inds_capacity {
            let (buffer, id) = remake();
            self.inds_capacity = count;
            self.inds = buffer;
            self.id = id;
            false
        } else {
            true
        }
    }
}

} // verus!
