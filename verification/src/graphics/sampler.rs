//! Sampler states used when sampling images, and a cache of the GPU
//! samplers made for them.

use vstd::prelude::*;
use std::collections::HashMap;

verus! {

broadcast use vstd::std_specs::hash::group_hash_axioms;

/// Describes the clamping mode of a sampler, used when the shader samples
/// outside of the texture boundaries.
#[derive(Debug, Clone, Copy, PartialEq, Eq, Structural, PartialOrd, Ord, Hash)]
pub enum ClampMode {
    /// The corresponding texel at the nearest edge is sampled.
    Clamp,
    /// The sample coordinates wrap, effectively repeating the texture.
    Repeat,
    /// The sample coordinates wrap and mirror, effectively repeating the texture and flipping.
    MirrorRepeat,
}

/// Describes the filter mode of a sampler, used when a texture is magnified
/// or minified.
#[derive(Debug, Clone, Copy, PartialEq, Eq, Structural, PartialOrd, Ord, Hash)]
pub enum FilterMode {
    /// The nearest texel is sampled.
    Nearest,
    /// The neighbouring texels are linearly interpolated.
    Linear,
}

/// Sampler state that is used when sampling images on the GPU.
#[derive(Debug, Clone, Copy, PartialEq, Eq, Structural, PartialOrd, Ord, Hash)]
pub struct Sampler {
    /// Clamping mode in the U (x) direction.
    pub clamp_u: ClampMode,
    /// Clamping mode in the V (y) direction.
    pub clamp_v: ClampMode,
    /// Clamping mode in the W (z) direction.
    pub clamp_w: ClampMode,
    /// Magnification (upscaling) filter.
    pub mag: FilterMode,
    /// Minification (downscaling) filter.
    pub min: FilterMode,
}

impl Sampler {
    /// Sampler state with linear filtering and edge clamping.
    pub fn linear_clamp() -> (s: Sampler)
        ensures
            s == (Sampler {
                clamp_u: ClampMode::Clamp,
                clamp_v: ClampMode::Clamp,
                clamp_w: ClampMode::Clamp,
                mag: FilterMode::Linear,
                min: FilterMode::Linear,
            }),
    {
        Sampler {
            clamp_u: ClampMode::Clamp,
            clamp_v: ClampMode::Clamp,
            clamp_w: ClampMode::Clamp,
            mag: FilterMode::Linear,
            min: FilterMode::Linear,
        }
    }

    /// Sampler state with nearest filtering and edge clamping; ideal for pixel art.
    pub fn nearest_clamp() -> (s: Sampler)
        ensures
            s == (Sampler {
                clamp_u: ClampMode::Clamp,
                clamp_v: ClampMode::Clamp,
                clamp_w: ClampMode::Clamp,
                mag: FilterMode::Nearest,
                min: FilterMode::Nearest,
            }),
    {
        Sampler { mag: FilterMode::Nearest, min: FilterMode::Nearest, ..Self::linear_clamp() }
    }
}

impl Default for Sampler {
    fn default() -> (s: Sampler)
        ensures
            s == (Sampler {
                clamp_u: ClampMode::Clamp,
                clamp_v: ClampMode::Clamp,
                clamp_w: ClampMode::Clamp,
                mag: FilterMode::Linear,
                min: FilterMode::Linear,
            }),
    {
        Self::linear_clamp()
    }
}

/// The sampler a filter mode stands for: that filter with edge clamping.
pub open spec fn sampler_for_filter(filter: FilterMode) -> Sampler {
    Sampler { clamp_u: ClampMode::Clamp, clamp_v: ClampMode::Clamp, clamp_w: ClampMode::Clamp, mag: filter, min: filter }
}

impl From<FilterMode> for Sampler {
    fn from(filter: FilterMode) -> (s: Sampler) {
        match filter {
            FilterMode::Nearest => Self::nearest_clamp(),
            FilterMode::Linear => Self::linear_clamp(),
        }
    }
}

impl vstd::std_specs::convert::FromSpecImpl<FilterMode> for Sampler {
    open spec fn obeys_from_spec() -> bool {
        true
    }

    open spec fn from_spec(filter: FilterMode) -> Sampler {
        sampler_for_filter(filter)
    }
}

/// The number of a clamping mode, from 0.
pub open spec fn clamp_code(c: ClampMode) -> int {
    match c {
        ClampMode::Clamp => 0,
        ClampMode::Repeat => 1,
        ClampMode::MirrorRepeat => 2,
    }
}

/// The number of a filter mode, from 0.
pub open spec fn filter_code(f: FilterMode) -> int {
    match f {
        FilterMode::Nearest => 0,
        FilterMode::Linear => 1,
    }
}

/// The number that stands for a sampler state in the cache: its five modes
/// read as the digits of a mixed-radix number.
pub open spec fn sampler_key(s: Sampler) -> u64 {
    (clamp_code(s.clamp_u) + 3 * clamp_code(s.clamp_v) + 9 * clamp_code(s.clamp_w) + 27 * filter_code(s.mag)
        + 54 * filter_code(s.min)) as u64
}

fn clamp_number(c: ClampMode) -> (n: u64)
    ensures
        n == clamp_code(c),
{
    match c {
        ClampMode::Clamp => 0,
        ClampMode::Repeat => 1,
        ClampMode::MirrorRepeat => 2,
    }
}

fn filter_number(f: FilterMode) -> (n: u64)
    ensures
        n == filter_code(f),
{
    match f {
        FilterMode::Nearest => 0,
        FilterMode::Linear => 1,
    }
}

impl Sampler {
    /// The number that stands for this sampler state in the cache.
    pub fn key(&self) -> (k: u64)
        ensures
            k == sampler_key(*self),
            k < 108,
    {
        clamp_number(self.clamp_u) + 3 * clamp_number(self.clamp_v) + 9 * clamp_number(self.clamp_w) + 27
            * filter_number(self.mag) + 54 * filter_number(self.min)
    }
}

/// Different sampler states have different keys, so the cache never hands
/// out the GPU sampler of one state for another.
pub proof fn lemma_sampler_key_injective(a: Sampler, b: Sampler)
    requires
        sampler_key(a) == sampler_key(b),
    ensures
        a == b,
{
    let ka = clamp_code(a.clamp_u) + 3 * clamp_code(a.clamp_v) + 9 * clamp_code(a.clamp_w) + 27 * filter_code(a.mag)
        + 54 * filter_code(a.min);
    let kb = clamp_code(b.clamp_u) + 3 * clamp_code(b.clamp_v) + 9 * clamp_code(b.clamp_w) + 27 * filter_code(b.mag)
        + 54 * filter_code(b.min);
    assert(ka == kb);
    assert(filter_code(a.min) == filter_code(b.min));
    assert(filter_code(a.mag) == filter_code(b.mag));
    assert(clamp_code(a.clamp_w) == clamp_code(b.clamp_w));
    assert(clamp_code(a.clamp_v) == clamp_code(b.clamp_v));
    assert(clamp_code(a.clamp_u) == clamp_code(b.clamp_u));
}

/// GPU samplers of type `S`, made once for each sampler state and handed
/// out again afterwards.
#[derive(Debug)]
pub struct SamplerCache<S> {
    cache: HashMap<u64, S>,
}

impl<S: Clone> SamplerCache<S> {
    /// The GPU sampler made for a state, if there is one.
    pub closed spec fn cached(&self, sampler: Sampler) -> Option<S> {
        if self.cache@.contains_key(sampler_key(sampler)) {
            Some(self.cache@[sampler_key(sampler)])
        } else {
            None
        }
    }

    /// An empty cache.
    pub fn new() -> (c: SamplerCache<S>)
        ensures
            forall|s: Sampler| #[trigger] c.cached(s) is None,
    {
        SamplerCache { cache: HashMap::new() }
    }

    /// The GPU sampler for `sampler`: the one made before, or one made now
    /// by `make` and kept for later.
    pub fn get<F: Fn(Sampler) -> S>(&mut self, sampler: Sampler, make: F) -> (r: S)
        requires
            call_requires(make, (sampler,)),
        ensures
            match old(self).cached(sampler) {
                Some(s) => cloned(s, r) && final(self).cached(sampler) == Some(s),
                None => exists|m: S| {
                    &&& call_ensures(make, (sampler,), m)
                    &&& final(self).cached(sampler) == Some(m)
                    &&& cloned(m, r)
                },
            },
            forall|t: Sampler| t != sampler ==> #[trigger] final(self).cached(t) == old(self).cached(t),
    {
        let key = sampler.key();
        proof {
            assert forall|t: Sampler| t != sampler implies sampler_key(t) != key by {
                if sampler_key(t) == key {
                    lemma_sampler_key_injective(t, sampler);
                }
            }
        }
        match self.cache.get(&key) {
            Some(s) => {
                assert(self.cache@.contains_key(key) && *s == self.cache@[key]);
                s.clone()
            },
            None => {
                assert(!self.cache@.contains_key(key));
                let made = make(sampler);
                let r = made.clone();
                let ghost m = made;
                self.cache.insert(key, made);
                assert(self.cached(sampler) == Some(m));
                assert(call_ensures(make, (sampler,), m) && cloned(m, r));
                r
            },
        }
    }
}

} // verus!
