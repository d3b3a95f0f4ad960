//! A bump allocator over a growing list of equally sized GPU buffers.
//!
//! Each buffer has a cursor; an allocation takes the aligned size from the
//! first buffer with room and moves its cursor on.  When no buffer has room
//! the caller creates a fresh buffer and [`GrowingBufferArena::grow`]s the
//! arena with it.  [`GrowingBufferArena::free`] makes every buffer empty
//! again (once a frame).

use vstd::prelude::*;
use vstd::arithmetic::power2::{lemma_pow2_pos, pow2};
use vstd::bits::{lemma_u64_low_bits_mask_is_mod, low_bits_mask};

verus! {

/// `a` is a power of two that fits in 64 bits.
pub open spec fn is_pow2(a: u64) -> bool {
    exists|k: nat| k < 64 && a == #[trigger] pow2(k)
}

/// The smallest multiple of `alignment` that is at least `size`.
pub open spec fn aligned_size(alignment: u64, size: u64) -> int {
    let a = alignment as int;
    ((size as int + a - 1) / a) * a
}

proof fn lemma_pow2_positive(a: u64)
    requires
        is_pow2(a),
    ensures
        a > 0,
{
    let k = choose|k: nat| k < 64 && a == #[trigger] pow2(k);
    lemma_pow2_pos(k);
}

proof fn lemma_zero_is_multiple(a: u64)
    requires
        is_pow2(a),
    ensures
        a > 0,
        0u64 % a == 0,
{
    lemma_pow2_positive(a);
    assert(0u64 % a == 0) by (nonlinear_arith)
        requires a > 0;
}

proof fn lemma_sum_of_multiples(x: u64, y: u64, a: u64)
    requires
        a > 0,
        x % a == 0,
        y % a == 0,
        x + y <= u64::MAX,
    ensures
        ((x + y) as u64) % a == 0,
{
    let p = x / a;
    let q = y / a;
    assert(x == p * a) by (nonlinear_arith)
        requires a > 0, x % a == 0, p == x / a;
    assert(y == q * a) by (nonlinear_arith)
        requires a > 0, y % a == 0, q == y / a;
    assert(x + y == (p + q) * a) by (nonlinear_arith)
        requires x == p * a, y == q * a;
    assert(((p + q) * a) % (a as int) == 0) by (nonlinear_arith)
        requires a > 0;
}

proof fn lemma_clear_bits(x: u64, m: u64)
    ensures
        x & !m == x - (x & m),
{
    assert(x & !m == x - (x & m)) by (bit_vector);
}

/// Rounds `size` up to a multiple of `alignment`, a power of two.
pub fn align(alignment: u64, size: u64) -> (r: u64)
    requires
        is_pow2(alignment),
        size as int + alignment as int - 1 <= u64::MAX,
    ensures
        r as int == aligned_size(alignment, size),
{
    proof {
        lemma_pow2_positive(alignment);
    }
    let x = size + (alignment - 1);
    let m = alignment - 1;
    proof {
        let k = choose|k: nat| k < 64 && alignment == #[trigger] pow2(k);
        assert(m == low_bits_mask(k) as u64);
        lemma_u64_low_bits_mask_is_mod(x, k);
        lemma_clear_bits(x, m);
        let q = x as int / alignment as int;
        assert(x as int == q * alignment + x as int % alignment as int) by (nonlinear_arith)
            requires alignment > 0, q == x as int / alignment as int;
        assert(aligned_size(alignment, size) == q * alignment);
    }
    x & !m
}

/// Facts about rounding up to a multiple of a positive alignment: the result
/// is a multiple, it is at least the size, and less than one alignment more.
pub proof fn lemma_aligned_size(alignment: u64, size: u64)
    requires
        alignment > 0,
    ensures
        aligned_size(alignment, size) % (alignment as int) == 0,
        size <= aligned_size(alignment, size) < size + alignment,
{
    let a = alignment as int;
    let t = size as int + a - 1;
    let q = t / a;
    assert(t == q * a + t % a && 0 <= t % a < a) by (nonlinear_arith)
        requires a > 0, q == t / a;
    assert((q * a) % a == 0) by (nonlinear_arith)
        requires a > 0;
}

/// A part of a buffer handed out by the arena.
#[derive(Debug, Clone)]
pub struct ArenaAllocation<B> {
    /// The buffer the part lies in.
    pub buffer: B,
    /// Where the part starts in the buffer.
    pub offset: u64,
}

/// Buffers of type `B`, each of `capacity` bytes with a cursor, handing out
/// parts aligned to `alignment`.
#[derive(Debug)]
pub struct GrowingBufferArena<B> {
    buffers: Vec<B>,
    cursors: Vec<u64>,
    alignment: u64,
    capacity: u64,
}

/// `k` is the first buffer whose cursor leaves room for `size` more bytes.
pub open spec fn is_first_with_room(cursors: Seq<nat>, k: int, size: int, capacity: int) -> bool {
    &&& 0 <= k < cursors.len()
    &&& cursors[k] + size <= capacity
    &&& forall|j: int| 0 <= j < k ==> #[trigger] cursors[j] + size > capacity
}

/// After every buffer is emptied, an allocation that fits in a buffer comes
/// from the start of the first one.
pub proof fn lemma_allocate_after_free(buffers: nat, size: int, capacity: int)
    requires
        buffers >= 1,
        0 <= size <= capacity,
    ensures
        is_first_with_room(Seq::new(buffers, |i: int| 0nat), 0, size, capacity),
        Seq::new(buffers, |i: int| 0nat)[0] == 0,
{
}

impl<B: Clone> GrowingBufferArena<B> {
    /// The buffers.
    pub closed spec fn spec_buffers(&self) -> Seq<B> {
        self.buffers@
    }

    /// How far into each buffer parts have been handed out.
    pub closed spec fn cursors(&self) -> Seq<nat> {
        self.cursors@.map_values(|c: u64| c as nat)
    }

    /// The alignment of every part.
    pub closed spec fn spec_alignment(&self) -> u64 {
        self.alignment
    }

    /// The size of each buffer.
    pub closed spec fn spec_capacity(&self) -> u64 {
        self.capacity
    }

    /// The alignment is a power of two, there is at least one buffer, each
    /// buffer has a cursor, and every cursor is a multiple of the alignment
    /// within the buffer.
    pub closed spec fn wf(&self) -> bool {
        &&& is_pow2(self.alignment)
        &&& self.buffers@.len() >= 1
        &&& self.cursors@.len() == self.buffers@.len()
        &&& forall|i: int| 0 <= i < self.cursors@.len() ==> {
            &&& #[trigger] self.cursors@[i] <= self.capacity
            &&& self.cursors@[i] % self.alignment == 0
        }
    }

    /// An arena with the one buffer `first`, empty.
    pub fn new(first: B, alignment: u64, capacity: u64) -> (a: Self)
        requires
            is_pow2(alignment),
        ensures
            a.wf(),
            a.spec_buffers() == seq![first],
            a.cursors() == seq![0nat],
            a.spec_alignment() == alignment,
            a.spec_capacity() == capacity,
    {
        let mut buffers = Vec::new();
        buffers.push(first);
        let mut cursors = Vec::new();
        cursors.push(0u64);
        let a = GrowingBufferArena { buffers, cursors, alignment, capacity };
        proof {
            lemma_zero_is_multiple(alignment);
        }
        assert(a.cursors@[0] == 0);
        assert(a.spec_buffers() =~= seq![first]);
        assert(a.cursors() =~= seq![0nat]);
        a
    }

    /// The number of buffers.
    pub fn buffer_count(&self) -> (n: usize)
        requires
            self.wf(),
        ensures
            n == self.spec_buffers().len(),
    {
        self.buffers.len()
    }

    /// Hands out `size` bytes, rounded up to the alignment, from the first
    /// buffer with room, and moves that buffer's cursor past them.  If no
    /// buffer has room, nothing changes and there is no allocation.
    pub fn try_allocate(&mut self, size: u64) -> (r: Option<ArenaAllocation<B>>)
        requires
            old(self).wf(),
            size as int + old(self).spec_alignment() as int - 1 <= u64::MAX,
            aligned_size(old(self).spec_alignment(), size) <= old(self).spec_capacity(),
        ensures
            final(self).wf(),
            final(self).spec_buffers() == old(self).spec_buffers(),
            final(self).spec_alignment() == old(self).spec_alignment(),
            final(self).spec_capacity() == old(self).spec_capacity(),
            match r {
                Some(alloc) => exists|k: int| #[trigger] is_first_with_room(old(self).cursors(), k,
                    aligned_size(old(self).spec_alignment(), size), old(self).spec_capacity() as int) && {
                    &&& alloc.offset == old(self).cursors()[k]
                    &&& cloned::<B>(old(self).spec_buffers()[k], alloc.buffer)
                    &&& final(self).cursors() == old(self).cursors().update(k,
                        (old(self).cursors()[k] + aligned_size(old(self).spec_alignment(), size)) as nat)
                },
                None => final(self).cursors() == old(self).cursors() && forall|k: int|
                    0 <= k < old(self).cursors().len() ==> #[trigger] old(self).cursors()[k]
                        + aligned_size(old(self).spec_alignment(), size) > old(self).spec_capacity(),
            },
    {
        let asz = align(self.alignment, size);
        proof {
            lemma_pow2_positive(self.alignment);
            lemma_aligned_size(self.alignment, size);
        }
        let ghost cs = old(self).cursors();
        let mut i: usize = 0;
        while i < self.cursors.len()
            invariant
                self.buffers@ == old(self).buffers@,
                self.cursors@ == old(self).cursors@,
                self.alignment == old(self).alignment,
                self.capacity == old(self).capacity,
                self.wf(),
                cs == self.cursors(),
                asz as int == aligned_size(self.alignment, size),
                self.alignment > 0,
                asz % self.alignment == 0,
                asz <= self.capacity,
                i <= self.cursors@.len(),
                forall|j: int| 0 <= j < i ==> #[trigger] cs[j] + asz > self.capacity,
            decreases self.cursors@.len() - i,
        {
            let cursor = self.cursors[i];
            assert(cs[i as int] == cursor);
            if asz <= self.capacity - cursor {
                let offset = cursor;
                let buffer = self.buffers[i].clone();
                let next = cursor + asz;
                proof {
                    lemma_sum_of_multiples(cursor, asz, self.alignment);
                }
                self.cursors.set(i, next);
                assert(forall|j: int| 0 <= j < self.cursors@.len() && j != i ==> self.cursors@[j] == old(self).cursors@[j]);
                assert(self.cursors() =~= cs.update(i as int, (cs[i as int] + asz) as nat));
                assert(is_first_with_room(cs, i as int, asz as int, self.capacity as int));
                assert(offset == old(self).cursors()[i as int]);
                assert(cloned::<B>(old(self).spec_buffers()[i as int], buffer));
                assert(self.cursors() == old(self).cursors().update(i as int,
                        (old(self).cursors()[i as int] + aligned_size(old(self).spec_alignment(), size)) as nat));
                return Some(ArenaAllocation { buffer, offset });
            }
            i = i + 1;
        }
        None
    }

    /// Hands out `size` bytes, rounded up to the alignment, from the first
    /// buffer with room, and moves that buffer's cursor past them.  If no
    /// buffer has room, a fresh buffer made by `make_buffer` is added at the
    /// end and the bytes come from its start.
    pub fn allocate<F: FnOnce() -> B>(&mut self, size: u64, make_buffer: F) -> (r: ArenaAllocation<B>)
        requires
            old(self).wf(),
            size as int + old(self).spec_alignment() as int - 1 <= u64::MAX,
            aligned_size(old(self).spec_alignment(), size) <= old(self).spec_capacity(),
            old(self).spec_buffers().len() < usize::MAX,
            call_requires(make_buffer, ()),
        ensures
            final(self).wf(),
            final(self).spec_alignment() == old(self).spec_alignment(),
            final(self).spec_capacity() == old(self).spec_capacity(),
            r.offset % old(self).spec_alignment() == 0,
            r.offset + aligned_size(old(self).spec_alignment(), size) <= old(self).spec_capacity(),
            (exists|k: int| #[trigger] is_first_with_room(old(self).cursors(), k,
                aligned_size(old(self).spec_alignment(), size), old(self).spec_capacity() as int) && {
                &&& r.offset == old(self).cursors()[k]
                &&& cloned::<B>(old(self).spec_buffers()[k], r.buffer)
                &&& final(self).spec_buffers() == old(self).spec_buffers()
                &&& final(self).cursors() == old(self).cursors().update(k,
                    (old(self).cursors()[k] + aligned_size(old(self).spec_alignment(), size)) as nat)
            }) || (exists|fresh: B| #[trigger] call_ensures(make_buffer, (), fresh) && {
                &&& forall|k: int| 0 <= k < old(self).cursors().len() ==> #[trigger] old(self).cursors()[k]
                    + aligned_size(old(self).spec_alignment(), size) > old(self).spec_capacity()
                &&& r.offset == 0
                &&& cloned::<B>(fresh, r.buffer)
                &&& final(self).spec_buffers() == old(self).spec_buffers().push(fresh)
                &&& final(self).cursors() == old(self).cursors().push(
                    aligned_size(old(self).spec_alignment(), size) as nat)
            }),
    {
        proof {
            lemma_pow2_positive(self.alignment);
            lemma_aligned_size(self.alignment, size);
        }
        match self.try_allocate(size) {
            Some(a) => {
                proof {
                    let k = choose|k: int| #[trigger] is_first_with_room(old(self).cursors(), k,
                        aligned_size(old(self).spec_alignment(), size), old(self).spec_capacity() as int)
                        && a.offset == old(self).cursors()[k];
                    assert(old(self).cursors()[k] == old(self).cursors@[k] as nat);
                }
                a
            },
            None => {
                let fresh = make_buffer();
                self.grow(fresh);
                let asz = align(self.alignment, size);
                let last = self.buffers.len() - 1;
                let buffer = self.buffers[last].clone();
                let ghost before = self.cursors();
                proof {
                    lemma_zero_is_multiple(self.alignment);
                    assert(self.cursors@.len() == self.buffers@.len());
                    assert(before == old(self).cursors().push(0nat));
                    assert(before[last as int] == 0);
                    assert(self.cursors@[last as int] == 0);
                }
                self.cursors.set(last, asz);
                assert(forall|j: int| 0 <= j < self.cursors@.len() && j != last ==> self.cursors@[j] == before[j]);
                assert(self.cursors() =~= old(self).cursors().push(asz as nat)) by {
                    assert forall|j: int| 0 <= j < old(self).cursors().len() implies
                        #[trigger] self.cursors()[j] == old(self).cursors()[j] by {
                        assert(before[j] == old(self).cursors()[j]);
                    }
                }
                ArenaAllocation { buffer, offset: 0 }
            },
        }
    }

    /// Adds a fresh, empty buffer at the end.
    pub fn grow(&mut self, buffer: B)
        requires
            old(self).wf(),
        ensures
            final(self).wf(),
            final(self).spec_buffers() == old(self).spec_buffers().push(buffer),
            final(self).cursors() == old(self).cursors().push(0nat),
            final(self).spec_alignment() == old(self).spec_alignment(),
            final(self).spec_capacity() == old(self).spec_capacity(),
    {
        proof {
            lemma_zero_is_multiple(self.alignment);
        }
        self.buffers.push(buffer);
        self.cursors.push(0);
        assert(forall|i: int| 0 <= i < old(self).cursors@.len() ==> self.cursors@[i] == old(self).cursors@[i]);
        assert(self.cursors@[self.cursors@.len() - 1] == 0);
        assert(self.cursors() =~= old(self).cursors().push(0nat));
    }

    /// Makes every buffer empty again.
    pub fn free(&mut self)
        requires
            old(self).wf(),
        ensures
            final(self).wf(),
            final(self).spec_buffers() == old(self).spec_buffers(),
            final(self).cursors() == Seq::new(old(self).cursors().len(), |i: int| 0nat),
            final(self).spec_alignment() == old(self).spec_alignment(),
            final(self).spec_capacity() == old(self).spec_capacity(),
    {
        let n = self.cursors.len();
        let mut i: usize = 0;
        while i < n
            invariant
                n == self.cursors@.len(),
                self.buffers@ == old(self).buffers@,
                self.alignment == old(self).alignment,
                self.capacity == old(self).capacity,
                self.wf(),
                i <= n,
                forall|j: int| 0 <= j < i ==> #[trigger] self.cursors@[j] == 0,
            decreases n - i,
        {
            proof {
                lemma_zero_is_multiple(self.alignment);
            }
            self.cursors.set(i, 0);
            i = i + 1;
        }
        assert(self.cursors() =~= Seq::new(old(self).cursors().len(), |i: int| 0nat));
    }
}

} // verus!
