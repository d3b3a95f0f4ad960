//! Keyboard state by physical key (where a key sits on the keyboard, as a
//! number) and by logical key (what the key means in the active layout, by
//! name), with the state of the previous frame to tell presses and
//! releases that happened this frame.

use std::collections::HashSet;
use vstd::prelude::*;
use vstd::std_specs::iter::IteratorSpec;
use crate::keyboard::KeyMods;

verus! {

broadcast use vstd::std_specs::hash::group_hash_axioms;

/// `s` with `x` added at the end, unless it holds it already.
pub open spec fn with_key<T>(s: Seq<T>, x: T) -> Seq<T> {
    if s.contains(x) { s } else { s.push(x) }
}

/// `s` without `x`; the others keep their order.
pub open spec fn without_key<T>(s: Seq<T>, x: T) -> Seq<T> {
    s.filter(|y: T| y != x)
}

/// A key pressed is held; a key released is not; either leaves every other
/// key as it was, and pressing never holds a key twice.
pub proof fn lemma_press_and_release<T>(s: Seq<T>, x: T, y: T)
    ensures
        with_key(s, x).contains(x),
        !without_key(s, x).contains(x),
        y != x ==> (with_key(s, x).contains(y) == s.contains(y)),
        y != x ==> (without_key(s, x).contains(y) == s.contains(y)),
        s.no_duplicates() ==> with_key(s, x).no_duplicates(),
{
    let pred = |z: T| z != x;
    s.filter_lemma(pred);
    if !s.contains(x) {
        assert(s.push(x)[s.len() as int] == x);
        if y != x && s.push(x).contains(y) {
            let j = choose|j: int| 0 <= j < s.push(x).len() && s.push(x)[j] == y;
            assert(s[j] == y);
        }
        if s.contains(y) {
            let j = choose|j: int| 0 <= j < s.len() && s[j] == y;
            assert(s.push(x)[j] == y);
        }
    }
    if without_key(s, x).contains(x) {
        let j = choose|j: int| 0 <= j < s.filter(pred).len() && s.filter(pred)[j] == x;
        assert(pred(s.filter(pred)[j]));
    }
    if y != x {
        if without_key(s, x).contains(y) {
            s.lemma_filter_contains_rev(pred, y);
        }
        if s.contains(y) {
            let j = choose|j: int| 0 <= j < s.len() && s[j] == y;
            assert(pred(s[j]));
        }
    }
}

/// Whether `v` holds a string with the text `x`.
fn has_name(v: &Vec<String>, x: &str) -> (b: bool)
    ensures
        b == v@.map_values(|s: String| s@).contains(x@),
{
    let ghost names = v@.map_values(|s: String| s@);
    let mut i: usize = 0;
    while i < v.len()
        invariant
            i <= v@.len(),
            names == v@.map_values(|s: String| s@),
            forall|j: int| 0 <= j < i ==> names[j] != x@,
        decreases v@.len() - i,
    {
        if crate::graphics::shader::same_text(v[i].as_str(), x) {
            assert(names[i as int] == x@);
            return true;
        }
        i = i + 1;
    }
    false
}

/// Makes `dst` hold exactly the keys of `src`.
fn copy_keys(dst: &mut HashSet<u32>, src: &HashSet<u32>)
    ensures
        final(dst)@ == src@,
{
    dst.clear();
    let iter = src.iter();
    let ghost items = iter.remaining();
    proof {
        assert(items == vstd::std_specs::hash::spec_hash_keys_iter(src).remaining());
        assert(items.unref().to_set() == src@);
    }
    for k in it: iter
        invariant
            it.seq() == items,
            forall|x: u32| #[trigger] dst@.contains(x) <==> exists|i: int| 0 <= i < it.index() && *items[i] == x,
    {
        let ghost before = dst@;
        let ghost at: int = it.index();
        let _ = dst.insert(*k);
        proof {
            assert forall|x: u32| #[trigger] dst@.contains(x) <==> exists|i: int| 0 <= i < at + 1 && *items[i] == x by {
                if x == *k {
                    assert(*items[at] == x);
                }
                if exists|i: int| 0 <= i < at + 1 && *items[i] == x {
                    let i = choose|i: int| 0 <= i < at + 1 && *items[i] == x;
                    if i < at {
                        assert(before.contains(x));
                    }
                }
            }
        }
    }
    proof {
        assert forall|x: u32| dst@.contains(x) <==> #[trigger] src@.contains(x) by {
            assert(items.unref().to_set().contains(x) == items.unref().contains(x));
            if dst@.contains(x) {
                let i = choose|i: int| 0 <= i < items.len() && *items[i] == x;
                assert(items.unref()[i] == x);
            }
            if items.unref().contains(x) {
                let i = choose|i: int| 0 <= i < items.unref().len() && items.unref()[i] == x;
                assert(*items[i] == x);
            }
        }
        assert(dst@ =~= src@);
    }
}

/// A copy of the strings `v`, with the same texts.
fn clone_names(v: &Vec<String>) -> (r: Vec<String>)
    ensures
        r@.map_values(|s: String| s@) == v@.map_values(|s: String| s@),
{
    let r = v.clone();
    proof {
        assert forall|i: int| 0 <= i < v@.len() implies r@[i] == v@[i] by {
            assert(cloned::<String>(v[i], r[i]));
        }
        assert(r@ =~= v@);
    }
    r
}

/// `v` without the strings of text `x`.
fn remove_name(v: &mut Vec<String>, x: &str)
    ensures
        final(v)@.map_values(|s: String| s@) == without_key(old(v)@.map_values(|s: String| s@), x@),
{
    let ghost names = old(v)@.map_values(|s: String| s@);
    let mut out: Vec<String> = Vec::new();
    let mut i: usize = 0;
    while i < v.len()
        invariant
            i <= v@.len(),
            v@ == old(v)@,
            names == v@.map_values(|s: String| s@),
            out@.map_values(|s: String| s@) == without_key(names.take(i as int), x@),
        decreases v@.len() - i,
    {
        let ghost before = out@;
        reveal_with_fuel(Seq::filter, 2);
        if !crate::graphics::shader::same_text(v[i].as_str(), x) {
            out.push(v[i].clone());
            assert(out@.map_values(|s: String| s@) =~= before.map_values(|s: String| s@).push(names[i as int]));
        }
        assert(names.take(i + 1).drop_last() =~= names.take(i as int));
        i = i + 1;
    }
    assert(names.take(v@.len() as int) =~= names);
    *v = out;
}

/// Tracks held down keyboard keys, active keyboard modifiers, and figures
/// out if the system is sending repeat keystrokes.
#[derive(Debug)]
pub struct KeyboardContext {
    active_modifiers: KeyMods,
    pressed_physical_keys: HashSet<u32>,
    pressed_logical_keys: Vec<String>,
    last_pressed: Option<u32>,
    current_pressed: Option<u32>,
    previously_pressed_physical_keys: HashSet<u32>,
    previously_pressed_logical_keys: Vec<String>,
}

impl KeyboardContext {
    /// The currently active modifiers.
    pub closed spec fn spec_mods(&self) -> KeyMods {
        self.active_modifiers
    }

    /// The currently active modifiers.
    pub fn active_modifiers(&self) -> (m: KeyMods)
        ensures
            m == self.spec_mods(),
    {
        self.active_modifiers
    }

    /// Sets the active modifiers.
    pub fn set_modifiers(&mut self, mods: KeyMods)
        ensures
            final(self).spec_mods() == mods,
            final(self).physical() == old(self).physical(),
            final(self).logical() == old(self).logical(),
            final(self).previous_physical() == old(self).previous_physical(),
            final(self).previous_logical() == old(self).previous_logical(),
            final(self).spec_last_pressed() == old(self).spec_last_pressed(),
            final(self).spec_current_pressed() == old(self).spec_current_pressed(),
    {
        self.active_modifiers = mods;
    }

    /// The physical keys held down.
    pub closed spec fn physical(&self) -> Set<u32> {
        self.pressed_physical_keys@
    }

    /// The logical keys held down.
    pub closed spec fn logical(&self) -> Seq<Seq<char>> {
        self.pressed_logical_keys@.map_values(|s: String| s@)
    }

    /// The physical keys held down at the end of the previous frame.
    pub closed spec fn previous_physical(&self) -> Set<u32> {
        self.previously_pressed_physical_keys@
    }

    /// The logical keys held down at the end of the previous frame.
    pub closed spec fn previous_logical(&self) -> Seq<Seq<char>> {
        self.previously_pressed_logical_keys@.map_values(|s: String| s@)
    }

    /// The physical key pressed before the current one, if any.
    pub closed spec fn spec_last_pressed(&self) -> Option<u32> {
        self.last_pressed
    }

    /// The physical key being pressed, until a release.
    pub closed spec fn spec_current_pressed(&self) -> Option<u32> {
        self.current_pressed
    }

    /// Nothing pressed, now or before, and no modifier active.
    pub fn new() -> (k: Self)
        ensures
            k.physical() == Set::<u32>::empty(),
            k.logical() == Seq::<Seq<char>>::empty(),
            k.previous_physical() == Set::<u32>::empty(),
            k.previous_logical() == Seq::<Seq<char>>::empty(),
            k.spec_last_pressed() is None,
            k.spec_current_pressed() is None,
            k.spec_mods().spec_bits() == 0,
    {
        let k = KeyboardContext {
            active_modifiers: KeyMods::empty(),
            pressed_physical_keys: HashSet::with_capacity(256),
            pressed_logical_keys: Vec::new(),
            last_pressed: None,
            current_pressed: None,
            previously_pressed_physical_keys: HashSet::with_capacity(256),
            previously_pressed_logical_keys: Vec::new(),
        };
        assert(k.logical() =~= Seq::<Seq<char>>::empty());
        assert(k.previous_logical() =~= Seq::<Seq<char>>::empty());
        k
    }

    /// The physical keys held down.
    pub fn pressed_physical_keys(&self) -> (r: &HashSet<u32>)
        ensures
            r@ == self.physical(),
    {
        &self.pressed_physical_keys
    }

    /// The logical keys held down, in the order they went down.
    pub fn pressed_logical_keys(&self) -> (r: &[String])
        ensures
            r@.map_values(|s: String| s@) == self.logical(),
    {
        self.pressed_logical_keys.as_slice()
    }

    /// Whether the logical key is held down.
    pub fn is_logical_key_pressed(&self, key: &str) -> (b: bool)
        ensures
            b == self.logical().contains(key@),
    {
        has_name(&self.pressed_logical_keys, key)
    }

    /// Whether the logical key went down this frame.
    pub fn is_logical_key_just_pressed(&self, key: &str) -> (b: bool)
        ensures
            b == (self.logical().contains(key@) && !self.previous_logical().contains(key@)),
    {
        has_name(&self.pressed_logical_keys, key) && !has_name(&self.previously_pressed_logical_keys, key)
    }

    /// Whether the logical key went up this frame.
    pub fn is_logical_key_just_released(&self, key: &str) -> (b: bool)
        ensures
            b == (!self.logical().contains(key@) && self.previous_logical().contains(key@)),
    {
        !has_name(&self.pressed_logical_keys, key) && has_name(&self.previously_pressed_logical_keys, key)
    }

    /// Whether the physical key is held down.
    pub fn is_physical_key_pressed(&self, key: u32) -> (b: bool)
        ensures
            b == self.physical().contains(key),
    {
        self.pressed_physical_keys.contains(&key)
    }

    /// Whether the physical key went down this frame.
    pub fn is_physical_key_just_pressed(&self, key: u32) -> (b: bool)
        ensures
            b == (self.physical().contains(key) && !self.previous_physical().contains(key)),
    {
        self.pressed_physical_keys.contains(&key) && !self.previously_pressed_physical_keys.contains(&key)
    }

    /// Whether the physical key went up this frame.
    pub fn is_physical_key_just_released(&self, key: u32) -> (b: bool)
        ensures
            b == (!self.physical().contains(key) && self.previous_physical().contains(key)),
    {
        !self.pressed_physical_keys.contains(&key) && self.previously_pressed_physical_keys.contains(&key)
    }

    /// Whether the last keystroke is a repetition, as when a key is held
    /// down: the key pressed now is the one pressed before it.
    pub fn is_key_repeated(&self) -> (b: bool)
        ensures
            b == (self.spec_last_pressed() is Some && self.spec_last_pressed() == self.spec_current_pressed()),
    {
        match (self.last_pressed, self.current_pressed) {
            (Some(a), Some(b)) => a == b,
            _ => false,
        }
    }

    /// Keeps the keys held down now as those of the previous frame; call it
    /// at the end of every update.
    pub fn save_keyboard_state(&mut self)
        ensures
            final(self).previous_physical() == old(self).physical(),
            final(self).previous_logical() == old(self).logical(),
            final(self).physical() == old(self).physical(),
            final(self).logical() == old(self).logical(),
            final(self).spec_last_pressed() == old(self).spec_last_pressed(),
            final(self).spec_current_pressed() == old(self).spec_current_pressed(),
            final(self).spec_mods() == old(self).spec_mods(),
    {
        copy_keys(&mut self.previously_pressed_physical_keys, &self.pressed_physical_keys);
        self.previously_pressed_logical_keys = clone_names(&self.pressed_logical_keys);
    }

    /// Records that the logical key went down or up.
    pub fn set_logical_key(&mut self, key: &str, pressed: bool)
        ensures
            final(self).logical() == (if pressed {
                with_key(old(self).logical(), key@)
            } else {
                without_key(old(self).logical(), key@)
            }),
            final(self).physical() == old(self).physical(),
            final(self).previous_physical() == old(self).previous_physical(),
            final(self).previous_logical() == old(self).previous_logical(),
            final(self).spec_last_pressed() == old(self).spec_last_pressed(),
            final(self).spec_current_pressed() == old(self).spec_current_pressed(),
            final(self).spec_mods() == old(self).spec_mods(),
    {
        if pressed {
            if !has_name(&self.pressed_logical_keys, key) {
                let ghost before = self.pressed_logical_keys@;
                self.pressed_logical_keys.push(String::from_str(key));
                assert(self.logical() =~= before.map_values(|s: String| s@).push(key@));
            }
        } else {
            remove_name(&mut self.pressed_logical_keys, key);
        }
    }

    /// Records that the physical key went down or up.  A press becomes the
    /// current press, and the one before it the last; a release ends the
    /// current press.
    pub fn set_physical_key(&mut self, key: u32, pressed: bool)
        ensures
            pressed ==> {
                &&& final(self).physical() == old(self).physical().insert(key)
                &&& final(self).spec_last_pressed() == old(self).spec_current_pressed()
                &&& final(self).spec_current_pressed() == Some(key)
            },
            !pressed ==> {
                &&& final(self).physical() == old(self).physical().remove(key)
                &&& final(self).spec_last_pressed() == old(self).spec_last_pressed()
                &&& final(self).spec_current_pressed() is None
            },
            final(self).logical() == old(self).logical(),
            final(self).previous_physical() == old(self).previous_physical(),
            final(self).previous_logical() == old(self).previous_logical(),
            final(self).spec_mods() == old(self).spec_mods(),
    {
        if pressed {
            let _ = self.pressed_physical_keys.insert(key);
            self.last_pressed = self.current_pressed;
            self.current_pressed = Some(key);
        } else {
            let _ = self.pressed_physical_keys.remove(&key);
            self.current_pressed = None;
        }
    }
}

impl Clone for KeyboardContext {
    fn clone(&self) -> (k: Self)
        ensures
            k.spec_mods() == self.spec_mods(),
            k.physical() == self.physical(),
            k.logical() == self.logical(),
            k.previous_physical() == self.previous_physical(),
            k.previous_logical() == self.previous_logical(),
            k.spec_last_pressed() == self.spec_last_pressed(),
            k.spec_current_pressed() == self.spec_current_pressed(),
    {
        let mut pressed: HashSet<u32> = HashSet::new();
        copy_keys(&mut pressed, &self.pressed_physical_keys);
        let mut previous: HashSet<u32> = HashSet::new();
        copy_keys(&mut previous, &self.previously_pressed_physical_keys);
        KeyboardContext {
            active_modifiers: self.active_modifiers,
            pressed_physical_keys: pressed,
            pressed_logical_keys: clone_names(&self.pressed_logical_keys),
            last_pressed: self.last_pressed,
            current_pressed: self.current_pressed,
            previously_pressed_physical_keys: previous,
            previously_pressed_logical_keys: clone_names(&self.previously_pressed_logical_keys),
        }
    }
}

impl Default for KeyboardContext {
    fn default() -> (k: Self)
        ensures
            k.physical() == Set::<u32>::empty(),
            k.logical() == Seq::<Seq<char>>::empty(),
            k.spec_last_pressed() is None,
            k.spec_current_pressed() is None,
    {
        Self::new()
    }
}

} // verus!
