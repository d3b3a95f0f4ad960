//! State of the renderer kept between draws: the bind group of the last
//! image and sampler drawn with, reused while they stay the same.

use vstd::prelude::*;

verus! {

/// The bind group `G` made for the last image and sampler drawn with,
/// each named by its id.
#[derive(Debug)]
pub struct LastBindGroup<G> {
    last: Option<((u64, u64), G)>,
}

impl<G: Clone> LastBindGroup<G> {
    /// The ids of the last image and sampler and the bind group made for
    /// them, if any.
    pub closed spec fn spec_last(&self) -> Option<((u64, u64), G)> {
        self.last
    }

    /// Nothing drawn yet.
    pub fn new() -> (b: Self)
        ensures
            b.spec_last() is None,
    {
        LastBindGroup { last: None }
    }

    /// The bind group for the image `image_id` with the sampler
    /// `sampler_id`: the one kept, where it was made for these two, or else
    /// one made now by `make`, which is kept in its place.
    pub fn bind_group<F: FnOnce() -> G>(&mut self, image_id: u64, sampler_id: u64, make: F) -> (r: G)
        requires
            call_requires(make, ()),
        ensures
            match old(self).spec_last() {
                Some((key, g)) if key == (image_id, sampler_id) => cloned(g, r)
                    && final(self).spec_last() == old(self).spec_last(),
                _ => exists|m: G| {
                    &&& #[trigger] call_ensures(make, (), m)
                    &&& final(self).spec_last() == Some(((image_id, sampler_id), m))
                    &&& cloned(m, r)
                },
            },
    {
        if let Some((key, g)) = &self.last {
            if key.0 == image_id && key.1 == sampler_id {
                return g.clone();
            }
        }
        let m = make();
        let r = m.clone();
        self.last = Some(((image_id, sampler_id), m));
        r
    }
}

} // verus!
