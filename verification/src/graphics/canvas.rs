//! The draws queued on a canvas, replayed in order of their Z index: lower
//! first, and draws of one Z index in the order they were queued.

use std::collections::BTreeMap;
use vstd::prelude::*;
use vstd::std_specs::iter::IteratorSpec;

verus! {

broadcast use vstd::std_specs::btree::group_btree_axioms, vstd::laws_cmp::group_laws_cmp;

/// The Z index of a draw; draws with a higher index are drawn on top.
pub type ZIndex = i32;

/// The draws of type `C` queued on a canvas, by Z index.
#[derive(Debug)]
pub struct DrawQueue<C> {
    draws: BTreeMap<ZIndex, Vec<C>>,
}

impl<C> DrawQueue<C> {
    /// The draws queued at each Z index that has any, in order.
    pub closed spec fn spec_draws(&self) -> Map<ZIndex, Seq<C>> {
        self.draws@.map_values(|v: Vec<C>| v@)
    }

    /// The draws queued at the Z index `z`, in order.
    pub open spec fn draws_at(&self, z: ZIndex) -> Seq<C> {
        if self.spec_draws().contains_key(z) {
            self.spec_draws()[z]
        } else {
            Seq::<C>::empty()
        }
    }

    /// No draws.
    pub fn new() -> (q: Self)
        ensures
            q.spec_draws() == Map::<ZIndex, Seq<C>>::empty(),
            forall|z: ZIndex| #[trigger] q.draws_at(z) == Seq::<C>::empty(),
    {
        let q = DrawQueue { draws: BTreeMap::new() };
        assert(q.spec_draws() =~= Map::<ZIndex, Seq<C>>::empty());
        q
    }

    /// Queues `draw` at the Z index `z`, after the draws already there.
    pub fn push_draw(&mut self, z: ZIndex, draw: C)
        ensures
            final(self).spec_draws().dom() == old(self).spec_draws().dom().insert(z),
            final(self).draws_at(z) == old(self).draws_at(z).push(draw),
            forall|other: ZIndex| other != z ==> #[trigger] final(self).draws_at(other) == old(self).draws_at(other),
    {
        let mut cmds = match self.draws.remove(&z) {
            Some(v) => v,
            None => Vec::new(),
        };
        cmds.push(draw);
        self.draws.insert(z, cmds);
        assert(self.spec_draws().dom() =~= old(self).spec_draws().dom().insert(z));
    }

    /// The Z indexes that have draws, in increasing order, each with its
    /// draws in the order they were queued.
    pub fn layers(&self) -> (r: Vec<(ZIndex, &Vec<C>)>)
        ensures
            r@.len() == self.spec_draws().dom().len(),
            forall|i: int, j: int| 0 <= i < j < r@.len() ==> #[trigger] r@[i].0 < #[trigger] r@[j].0,
            forall|i: int| 0 <= i < r@.len() ==> self.spec_draws().contains_key(#[trigger] r@[i].0)
                && r@[i].1@ == self.spec_draws()[r@[i].0],
            forall|z: ZIndex| #[trigger] self.spec_draws().contains_key(z) ==> exists|i: int|
                0 <= i < r@.len() && #[trigger] r@[i].0 == z,
    {
        proof {
            assert(vstd::laws_cmp::obeys_cmp::<ZIndex>());
            assert(vstd::std_specs::btree::key_obeys_cmp_spec::<ZIndex>());
        }
        let iter = self.draws.iter();
        let ghost items = iter.remaining();
        let ghost keys = items.map_values(|kv: (&ZIndex, &Vec<C>)| *kv.0);
        proof {
            assert(items == vstd::std_specs::btree::spec_btree_map_iter(&self.draws).remaining());
            assert(vstd::std_specs::btree::increasing_seq(keys));
        }
        let mut out: Vec<(ZIndex, &Vec<C>)> = Vec::new();
        for kv in it: iter
            invariant
                it.seq() == items,
                out@.len() == it.index(),
                forall|i: int| 0 <= i < it.index() ==> out@[i].0 == *items[i].0 && out@[i].1 == items[i].1,
        {
            out.push((*kv.0, kv.1));
        }
        proof {
            assert(self.spec_draws().dom() =~= self.draws@.dom());
            assert(out@.len() == items.len());
            assert forall|i: int| 0 <= i < out@.len() implies self.spec_draws().contains_key(#[trigger] out@[i].0)
                && out@[i].1@ == self.spec_draws()[out@[i].0] by {
                assert(self.draws@.contains_key(*items[i].0) && self.draws@[*items[i].0] == *items[i].1);
            }
            assert forall|i: int, j: int| 0 <= i < j < out@.len() implies #[trigger] out@[i].0 < #[trigger] out@[j].0 by {
                assert(keys[i] == out@[i].0 && keys[j] == out@[j].0);
                assert(vstd::std_specs::cmp::OrdSpec::cmp_spec(&keys[i], &keys[j]) is Less);
            }
        }
        out
    }

    /// Forgets every draw.
    pub fn clear(&mut self)
        ensures
            final(self).spec_draws() == Map::<ZIndex, Seq<C>>::empty(),
            forall|z: ZIndex| #[trigger] final(self).draws_at(z) == Seq::<C>::empty(),
    {
        self.draws.clear();
        assert(self.spec_draws() =~= Map::<ZIndex, Seq<C>>::empty());
    }
}

} // verus!
