//! Keyboard state: which keys are held down, which modifiers are active,
//! and whether the system is sending repeated keystrokes.

use vstd::prelude::*;
use std::collections::VecDeque;

verus! {

/// The symbolic name of a keyboard key.
#[derive(Debug, Hash, Ord, PartialOrd, PartialEq, Eq, Structural, Clone, Copy)]
pub enum KeyCode {
    Key1,
    Key2,
    Key3,
    Key4,
    Key5,
    Key6,
    Key7,
    Key8,
    Key9,
    Key0,
    A,
    B,
    C,
    D,
    E,
    F,
    G,
    H,
    I,
    J,
    K,
    L,
    M,
    N,
    O,
    P,
    Q,
    R,
    S,
    T,
    U,
    V,
    W,
    X,
    Y,
    Z,
    Escape,
    F1,
    F2,
    F3,
    F4,
    F5,
    F6,
    F7,
    F8,
    F9,
    F10,
    F11,
    F12,
    F13,
    F14,
    F15,
    F16,
    F17,
    F18,
    F19,
    F20,
    F21,
    F22,
    F23,
    F24,
    Snapshot,
    Scroll,
    Pause,
    Insert,
    Home,
    Delete,
    End,
    PageDown,
    PageUp,
    Left,
    Up,
    Right,
    Down,
    Back,
    Return,
    Space,
    Compose,
    Caret,
    Numlock,
    Numpad0,
    Numpad1,
    Numpad2,
    Numpad3,
    Numpad4,
    Numpad5,
    Numpad6,
    Numpad7,
    Numpad8,
    Numpad9,
    NumpadAdd,
    NumpadDivide,
    NumpadDecimal,
    NumpadComma,
    NumpadEnter,
    NumpadEquals,
    NumpadMultiply,
    NumpadSubtract,
    AbntC1,
    AbntC2,
    Apostrophe,
    Apps,
    Asterisk,
    At,
    Ax,
    Backslash,
    Calculator,
    Capital,
    Colon,
    Comma,
    Convert,
    Equals,
    Grave,
    Kana,
    Kanji,
    LAlt,
    LBracket,
    LControl,
    LShift,
    LWin,
    Mail,
    MediaSelect,
    MediaStop,
    Minus,
    Mute,
    MyComputer,
    NavigateForward,
    NavigateBackward,
    NextTrack,
    NoConvert,
    OEM102,
    Period,
    PlayPause,
    Plus,
    Power,
    PrevTrack,
    RAlt,
    RBracket,
    RControl,
    RShift,
    RWin,
    Semicolon,
    Slash,
    Sleep,
    Stop,
    Sysrq,
    Tab,
    Underline,
    Unlabeled,
    VolumeDown,
    VolumeUp,
    Wake,
    WebBack,
    WebFavorites,
    WebForward,
    WebHome,
    WebRefresh,
    WebSearch,
    WebStop,
    Yen,
    Copy,
    Paste,
    Cut,
}

/// Bit flags describing the state of the keyboard modifiers, such as
/// Control or Shift.
#[derive(Debug, Clone, Copy, PartialEq, Eq, Structural, Hash, PartialOrd, Ord)]
pub struct KeyMods(u8);

/// The modifier bits that name a modifier (the low four).
pub open spec fn all_mod_bits() -> u8 {
    0x0f
}

impl KeyMods {
    /// No modifiers; equivalent to `KeyMods::default()` and `KeyMods::empty()`.
    pub fn none() -> (m: KeyMods)
        ensures
            m.spec_bits() == 0,
    {
        KeyMods(0)
    }

    /// Left or right Shift key.
    pub fn shift() -> (m: KeyMods)
        ensures
            m.spec_bits() == 1,
    {
        KeyMods(1)
    }

    /// Left or right Control key.
    pub fn ctrl() -> (m: KeyMods)
        ensures
            m.spec_bits() == 2,
    {
        KeyMods(2)
    }

    /// Left or right Alt key.
    pub fn alt() -> (m: KeyMods)
        ensures
            m.spec_bits() == 4,
    {
        KeyMods(4)
    }

    /// Left or right Win/Cmd/equivalent key.
    pub fn logo() -> (m: KeyMods)
        ensures
            m.spec_bits() == 8,
    {
        KeyMods(8)
    }
    /// The flags, as the bits of a byte.
    pub closed spec fn spec_bits(&self) -> u8 {
        self.0
    }

    /// The flags, as the bits of a byte.
    pub fn bits(&self) -> (b: u8)
        ensures
            b == self.spec_bits(),
    {
        self.0
    }

    /// The flags whose bits are set in `bits`, keeping only the bits that
    /// name a modifier.
    pub fn from_bits_truncate(bits: u8) -> (m: KeyMods)
        ensures
            m.spec_bits() == bits & all_mod_bits(),
    {
        KeyMods(bits & 0x0f)
    }

    /// No modifier.
    pub fn empty() -> (m: KeyMods)
        ensures
            m.spec_bits() == 0,
    {
        KeyMods(0)
    }

    /// Every modifier.
    pub fn all() -> (m: KeyMods)
        ensures
            m.spec_bits() == all_mod_bits(),
    {
        KeyMods(0x0f)
    }

    /// Whether no modifier is set.
    pub fn is_empty(&self) -> (b: bool)
        ensures
            b == (self.spec_bits() == 0),
    {
        self.0 == 0
    }

    /// Whether every modifier of `other` is also set in `self`.
    pub fn contains(&self, other: KeyMods) -> (b: bool)
        ensures
            b == (self.spec_bits() & other.spec_bits() == other.spec_bits()),
    {
        self.0 & other.0 == other.0
    }

    /// Whether `self` and `other` have a modifier in common.
    pub fn intersects(&self, other: KeyMods) -> (b: bool)
        ensures
            b == (self.spec_bits() & other.spec_bits() != 0),
    {
        self.0 & other.0 != 0
    }

    /// The modifiers of either.
    pub fn union(self, other: KeyMods) -> (m: KeyMods)
        ensures
            m.spec_bits() == self.spec_bits() | other.spec_bits(),
    {
        KeyMods(self.0 | other.0)
    }

    /// The modifiers of `self` that are not in `other`.
    pub fn difference(self, other: KeyMods) -> (m: KeyMods)
        ensures
            m.spec_bits() == self.spec_bits() & !other.spec_bits(),
    {
        KeyMods(self.0 & !other.0)
    }

    /// Sets the modifiers of `other` too.
    pub fn insert(&mut self, other: KeyMods)
        ensures
            final(self).spec_bits() == old(self).spec_bits() | other.spec_bits(),
    {
        self.0 = self.0 | other.0;
    }

    /// Clears the modifiers of `other`.
    pub fn remove(&mut self, other: KeyMods)
        ensures
            final(self).spec_bits() == old(self).spec_bits() & !other.spec_bits(),
    {
        self.0 = self.0 & !other.0;
    }
}

/// Modifier flags behave as sets of modifiers: a union contains both of its
/// sides, a difference shares no modifier with what was taken away, taking a
/// set away after adding it is the same as taking it away at once, and
/// keeping only the modifier bits of valid flags gives them back.
pub proof fn lemma_keymods_set_laws(a: KeyMods, b: KeyMods)
    ensures
        (a.spec_bits() | b.spec_bits()) & a.spec_bits() == a.spec_bits(),
        (a.spec_bits() | b.spec_bits()) & b.spec_bits() == b.spec_bits(),
        (a.spec_bits() & !b.spec_bits()) & b.spec_bits() == 0,
        (a.spec_bits() | b.spec_bits()) & !b.spec_bits() == a.spec_bits() & !b.spec_bits(),
        a.spec_bits() <= all_mod_bits() ==> a.spec_bits() & all_mod_bits() == a.spec_bits(),
{
    let x = a.spec_bits();
    let y = b.spec_bits();
    assert((x | y) & x == x) by (bit_vector);
    assert((x | y) & y == y) by (bit_vector);
    assert((x & !y) & y == 0) by (bit_vector);
    assert((x | y) & !y == x & !y) by (bit_vector);
    assert(x <= 0x0f ==> x & 0x0f == x) by (bit_vector);
}

impl Default for KeyMods {
    fn default() -> (m: KeyMods)
        ensures
            m.spec_bits() == 0,
    {
        KeyMods::empty()
    }
}

impl core::ops::BitOr for KeyMods {
    type Output = KeyMods;

    fn bitor(self, rhs: KeyMods) -> (m: KeyMods) {
        self.union(rhs)
    }
}

impl vstd::std_specs::ops::BitOrSpecImpl for KeyMods {
    open spec fn obeys_bitor_spec() -> bool {
        true
    }

    open spec fn bitor_req(self, rhs: KeyMods) -> bool {
        true
    }

    closed spec fn bitor_spec(self, rhs: KeyMods) -> KeyMods {
        KeyMods(self.0 | rhs.0)
    }
}

impl core::ops::Sub for KeyMods {
    type Output = KeyMods;

    fn sub(self, rhs: KeyMods) -> (m: KeyMods) {
        self.difference(rhs)
    }
}

impl vstd::std_specs::ops::SubSpecImpl for KeyMods {
    open spec fn obeys_sub_spec() -> bool {
        true
    }

    open spec fn sub_req(self, rhs: KeyMods) -> bool {
        true
    }

    closed spec fn sub_spec(self, rhs: KeyMods) -> KeyMods {
        KeyMods(self.0 & !rhs.0)
    }
}

/// Which modifier keys are held down, as the windowing system reports it.
#[derive(Debug, Clone, Copy, PartialEq, Eq, Structural, Default)]
pub struct ModifiersState {
    /// A Shift key.
    pub shift: bool,
    /// A Control key.
    pub ctrl: bool,
    /// An Alt key.
    pub alt: bool,
    /// A Win/Cmd key.
    pub logo: bool,
}

/// The modifier bits of a modifier state: Shift is bit 0, Control bit 1,
/// Alt bit 2 and Logo bit 3.
pub open spec fn modifier_bits(s: ModifiersState) -> u8 {
    ((if s.shift { 1int } else { 0 }) + (if s.ctrl { 2int } else { 0 }) + (if s.alt { 4int } else { 0 })
        + (if s.logo { 8int } else { 0 })) as u8
}

proof fn lemma_modifier_bits(s: bool, c: bool, a: bool, l: bool, b0: u8, b1: u8, b2: u8, b3: u8, b4: u8)
    requires
        b0 == 0,
        b1 == (if s { b0 | 1u8 } else { b0 }),
        b2 == (if c { b1 | 2u8 } else { b1 }),
        b3 == (if a { b2 | 4u8 } else { b2 }),
        b4 == (if l { b3 | 8u8 } else { b3 }),
    ensures
        b4 == ((if s { 1int } else { 0 }) + (if c { 2int } else { 0 }) + (if a { 4int } else { 0 }) + (if l { 8int } else { 0 })) as u8,
{
    assert(b4 == ((if s { 1int } else { 0 }) + (if c { 2int } else { 0 }) + (if a { 4int } else { 0 }) + (if l { 8int } else { 0 })) as u8)
        by (bit_vector)
        requires
            b0 == 0,
            b1 == (if s { b0 | 1u8 } else { b0 }),
            b2 == (if c { b1 | 2u8 } else { b1 }),
            b3 == (if a { b2 | 4u8 } else { b2 }),
            b4 == (if l { b3 | 8u8 } else { b3 });
}

/// Each modifier of a state is the bit of its own name, and no other bit
/// is set: Shift is bit 1, Control bit 2, Alt bit 4 and Logo bit 8.
pub proof fn lemma_modifier_bits_name_their_keys(s: ModifiersState)
    ensures
        (modifier_bits(s) & 1 != 0) == s.shift,
        (modifier_bits(s) & 2 != 0) == s.ctrl,
        (modifier_bits(s) & 4 != 0) == s.alt,
        (modifier_bits(s) & 8 != 0) == s.logo,
        modifier_bits(s) & !15u8 == 0,
{
    let (sh, c, a, l) = (s.shift, s.ctrl, s.alt, s.logo);
    let b: u8 = ((if sh { 1int } else { 0 }) + (if c { 2int } else { 0 }) + (if a { 4int } else { 0 })
        + (if l { 8int } else { 0 })) as u8;
    assert((b & 1 != 0) == sh && (b & 2 != 0) == c && (b & 4 != 0) == a && (b & 8 != 0) == l && b & !15u8 == 0)
        by (bit_vector)
        requires
            b == ((if sh { 1int } else { 0 }) + (if c { 2int } else { 0 }) + (if a { 4int } else { 0 })
                + (if l { 8int } else { 0 })) as u8;
}

impl From<ModifiersState> for KeyMods {
    fn from(state: ModifiersState) -> (m: KeyMods) {
        let mut keymod = KeyMods::empty();
        let ghost b0 = keymod.0;
        if state.shift {
            keymod.insert(KeyMods::shift());
        }
        let ghost b1 = keymod.0;
        if state.ctrl {
            keymod.insert(KeyMods::ctrl());
        }
        let ghost b2 = keymod.0;
        if state.alt {
            keymod.insert(KeyMods::alt());
        }
        let ghost b3 = keymod.0;
        if state.logo {
            keymod.insert(KeyMods::logo());
        }
        proof {
            lemma_modifier_bits(state.shift, state.ctrl, state.alt, state.logo, b0, b1, b2, b3, keymod.0);
        }
        keymod
    }
}

impl vstd::std_specs::convert::FromSpecImpl<ModifiersState> for KeyMods {
    open spec fn obeys_from_spec() -> bool {
        true
    }

    closed spec fn from_spec(state: ModifiersState) -> KeyMods {
        KeyMods(modifier_bits(state))
    }
}

/// The modifier that releasing `key` clears: a Shift, Control, Alt or Win
/// key clears its modifier, any other key none.
pub open spec fn released_modifier(key: KeyCode) -> u8 {
    match key {
        KeyCode::LShift | KeyCode::RShift => 1,
        KeyCode::LControl | KeyCode::RControl => 2,
        KeyCode::LAlt | KeyCode::RAlt => 4,
        KeyCode::LWin | KeyCode::RWin => 8,
        _ => 0,
    }
}

/// Releasing a modifier key clears its own modifier and leaves the other
/// three as they were: a Shift key clears SHIFT (bit 1), a Control key CTRL
/// (bit 2), an Alt key ALT (bit 4), a Win key LOGO (bit 8); releasing any
/// other key changes no modifier.
pub proof fn lemma_release_clears_its_own_modifier(bits: u8, key: KeyCode)
    ensures
        (key == KeyCode::LShift || key == KeyCode::RShift) ==> {
            let after = bits & !released_modifier(key);
            &&& after & 1 == 0
            &&& after & 2 == bits & 2 && after & 4 == bits & 4 && after & 8 == bits & 8
        },
        (key == KeyCode::LControl || key == KeyCode::RControl) ==> {
            let after = bits & !released_modifier(key);
            &&& after & 2 == 0
            &&& after & 1 == bits & 1 && after & 4 == bits & 4 && after & 8 == bits & 8
        },
        (key == KeyCode::LAlt || key == KeyCode::RAlt) ==> {
            let after = bits & !released_modifier(key);
            &&& after & 4 == 0
            &&& after & 1 == bits & 1 && after & 2 == bits & 2 && after & 8 == bits & 8
        },
        (key == KeyCode::LWin || key == KeyCode::RWin) ==> {
            let after = bits & !released_modifier(key);
            &&& after & 8 == 0
            &&& after & 1 == bits & 1 && after & 2 == bits & 2 && after & 4 == bits & 4
        },
        !(key == KeyCode::LShift || key == KeyCode::RShift || key == KeyCode::LControl || key == KeyCode::RControl
            || key == KeyCode::LAlt || key == KeyCode::RAlt || key == KeyCode::LWin || key == KeyCode::RWin)
            ==> bits & !released_modifier(key) == bits,
{
    assert((bits & !1u8) & 1 == 0 && (bits & !1u8) & 2 == bits & 2 && (bits & !1u8) & 4 == bits & 4
        && (bits & !1u8) & 8 == bits & 8) by (bit_vector);
    assert((bits & !2u8) & 2 == 0 && (bits & !2u8) & 1 == bits & 1 && (bits & !2u8) & 4 == bits & 4
        && (bits & !2u8) & 8 == bits & 8) by (bit_vector);
    assert((bits & !4u8) & 4 == 0 && (bits & !4u8) & 1 == bits & 1 && (bits & !4u8) & 2 == bits & 2
        && (bits & !4u8) & 8 == bits & 8) by (bit_vector);
    assert((bits & !8u8) & 8 == 0 && (bits & !8u8) & 1 == bits & 1 && (bits & !8u8) & 2 == bits & 2
        && (bits & !8u8) & 4 == bits & 4) by (bit_vector);
    assert(bits & !0u8 == bits) by (bit_vector);
}

/// `s` with its element at `i` replaced by its last one and shortened by
/// one, as `Vec::swap_remove` leaves it.
pub open spec fn swap_removed<T>(s: Seq<T>, i: int) -> Seq<T> {
    s.update(i, s.last()).drop_last()
}

/// The keys held down after `key` is released: `key` leaves, swapped out
/// for the last key, and the others keep their places.
pub open spec fn keys_after_release(keys: Seq<KeyCode>, key: KeyCode) -> Seq<KeyCode> {
    if keys.contains(key) {
        swap_removed(keys, keys.index_of(key))
    } else {
        keys
    }
}

/// The last two keys pressed, after one more press of `key`.
pub open spec fn recent_after_press(recent: Seq<KeyCode>, key: KeyCode) -> Seq<KeyCode> {
    if recent.len() + 1 > 2 {
        recent.push(key).drop_first()
    } else {
        recent.push(key)
    }
}

/// Pressing a key holds it down; releasing it lets it go and keeps every
/// other held key, with no key held twice.  Two presses of one key with no
/// release between them make a repeat; presses of two different keys do not.
pub proof fn lemma_press_release_repeat(keys: Seq<KeyCode>, recent: Seq<KeyCode>, key: KeyCode, other: KeyCode)
    requires
        keys.no_duplicates(),
        recent.len() <= 2,
    ensures
        (if keys.contains(key) { keys } else { keys.push(key) }).contains(key),
        !keys_after_release(keys, key).contains(key),
        other != key ==> (keys_after_release(keys, key).contains(other) == keys.contains(other)),
        keys_after_release(keys, key).no_duplicates(),
        ({
            let r = recent_after_press(recent_after_press(recent, key), key);
            r.len() >= 2 && r[0] == r[1]
        }),
        ({
            let r = recent_after_press(recent_after_press(recent, key), other);
            other != key ==> !(r.len() >= 2 && r[0] == r[1])
        }),
{
    let pressed = if keys.contains(key) { keys } else { keys.push(key) };
    if !keys.contains(key) {
        assert(pressed[keys.len() as int] == key);
    }
    if keys.contains(key) {
        let i = keys.index_of(key);
        let n = keys.len();
        let r = swap_removed(keys, i);
        assert(keys[i] == key);
        assert(r.len() == n - 1);
        assert forall|j: int| 0 <= j < r.len() implies r[j] == (if j == i { keys[n - 1] } else { keys[j] }) by {}
        assert(!r.contains(key)) by {
            if r.contains(key) {
                let j = choose|j: int| 0 <= j < r.len() && r[j] == key;
                if j == i {
                    assert(keys[n - 1] == key);
                } else {
                    assert(keys[j] == key);
                }
            }
        }
        if other != key {
            if keys.contains(other) {
                let m = choose|m: int| 0 <= m < n && keys[m] == other;
                if m == n - 1 {
                    assert(r[i] == other);
                } else {
                    assert(r[m] == other);
                }
            }
            if r.contains(other) {
                let j = choose|j: int| 0 <= j < r.len() && r[j] == other;
                if j == i {
                    assert(keys[n - 1] == other);
                } else {
                    assert(keys[j] == other);
                }
            }
        }
        assert forall|a: int, b: int| 0 <= a < r.len() && 0 <= b < r.len() && a != b implies r[a] != r[b] by {
            if a == i {
                assert(keys[n - 1] != keys[b]);
            } else if b == i {
                assert(keys[n - 1] != keys[a]);
            } else {
                assert(keys[a] != keys[b]);
            }
        }
    }
    let r1 = recent_after_press(recent, key);
    assert(1 <= r1.len() <= 2 && r1.last() == key);
    let r2 = recent_after_press(r1, key);
    assert(r2.len() == 2 && r2[0] == key && r2[1] == key);
    let r3 = recent_after_press(r1, other);
    assert(r3.len() == 2 && r3[0] == key && r3[1] == other);
}

/// Tracks held down keyboard keys, active keyboard modifiers, and figures
/// out if the system is sending repeat keystrokes.
#[derive(Clone, Debug)]
pub struct KeyboardContext {
    active_modifiers: KeyMods,
    pressed_keys: Vec<KeyCode>,
    last_pressed: VecDeque<KeyCode>,
}

impl KeyboardContext {
    /// The active modifiers.
    pub closed spec fn spec_mods(&self) -> KeyMods {
        self.active_modifiers
    }

    /// The keys held down, in the order the context keeps them.
    pub closed spec fn spec_pressed(&self) -> Seq<KeyCode> {
        self.pressed_keys@
    }

    /// The keys pressed since the last release, at most the last two.
    pub closed spec fn spec_recent(&self) -> Seq<KeyCode> {
        self.last_pressed@
    }

    /// No key is held down twice, and at most two recent presses are kept.
    pub open spec fn wf(&self) -> bool {
        &&& self.spec_pressed().no_duplicates()
        &&& self.spec_recent().len() <= 2
    }

    /// No key held down, no modifier active, no recent press.
    pub fn new() -> (k: Self)
        ensures
            k.wf(),
            k.spec_mods().spec_bits() == 0,
            k.spec_pressed() == Seq::<KeyCode>::empty(),
            k.spec_recent() == Seq::<KeyCode>::empty(),
    {
        KeyboardContext {
            active_modifiers: KeyMods::empty(),
            pressed_keys: Vec::with_capacity(16),
            last_pressed: VecDeque::with_capacity(3),
        }
    }

    /// Records that `key` was pressed or released.
    ///
    /// A press adds the key to the held keys (once) and to the recent
    /// presses.  A release removes it, forgets the recent presses, and
    /// clears the modifier of a Shift, Control, Alt or Win key.
    pub fn set_key(&mut self, key: KeyCode, pressed: bool)
        requires
            old(self).wf(),
        ensures
            final(self).wf(),
            pressed ==> {
                &&& final(self).spec_pressed() == (if old(self).spec_pressed().contains(key) {
                    old(self).spec_pressed()
                } else {
                    old(self).spec_pressed().push(key)
                })
                &&& final(self).spec_recent() == recent_after_press(old(self).spec_recent(), key)
                &&& final(self).spec_mods() == old(self).spec_mods()
            },
            !pressed ==> {
                &&& final(self).spec_pressed() == keys_after_release(old(self).spec_pressed(), key)
                &&& final(self).spec_recent() == Seq::<KeyCode>::empty()
                &&& final(self).spec_mods().spec_bits() == old(self).spec_mods().spec_bits() & !released_modifier(key)
                &&& (key == KeyCode::LShift || key == KeyCode::RShift) ==> final(self).spec_mods().spec_bits() & 1 == 0
                &&& (key == KeyCode::LControl || key == KeyCode::RControl) ==> final(self).spec_mods().spec_bits() & 2 == 0
                &&& (key == KeyCode::LAlt || key == KeyCode::RAlt) ==> final(self).spec_mods().spec_bits() & 4 == 0
                    && final(self).spec_mods().spec_bits() & 8 == old(self).spec_mods().spec_bits() & 8
                &&& (key == KeyCode::LWin || key == KeyCode::RWin) ==> final(self).spec_mods().spec_bits() & 8 == 0
                    && final(self).spec_mods().spec_bits() & 4 == old(self).spec_mods().spec_bits() & 4
            },
    {
        if pressed {
            if !self.is_key_pressed(key) {
                self.pressed_keys.push(key);
                proof {
                    assert forall|i: int, j: int| 0 <= i < j < self.pressed_keys@.len()
                        implies self.pressed_keys@[i] != self.pressed_keys@[j] by {
                        if j == self.pressed_keys@.len() - 1 {
                            assert(old(self).pressed_keys@[i] == self.pressed_keys@[i]);
                        } else {
                            assert(old(self).pressed_keys@[i] == self.pressed_keys@[i]);
                            assert(old(self).pressed_keys@[j] == self.pressed_keys@[j]);
                        }
                    }
                }
            }
            self.last_pressed.push_back(key);
            if self.last_pressed.len() > 2 {
                self.last_pressed.pop_front();
            }
        } else {
            let n = self.pressed_keys.len();
            let mut i: usize = 0;
            while i < n && self.pressed_keys[i] != key
                invariant
                    n == self.pressed_keys@.len(),
                    self.pressed_keys@ == old(self).pressed_keys@,
                    self.last_pressed@ == old(self).last_pressed@,
                    self.active_modifiers == old(self).active_modifiers,
                    i <= n,
                    forall|j: int| 0 <= j < i ==> self.pressed_keys@[j] != key,
                decreases n - i,
            {
                i = i + 1;
            }
            let ghost keys = old(self).pressed_keys@;
            if i < n {
                proof {
                    assert(keys.contains(key));
                    assert(keys.index_of(key) == i) by {
                        let k = keys.index_of(key);
                        assert(keys[k] == key);
                        assert(keys[i as int] == key);
                        if k != i {
                            assert(keys.no_duplicates());
                        }
                    }
                }
                self.pressed_keys.swap_remove(i);
                proof {
                    let r = swap_removed(keys, i as int);
                    assert(self.pressed_keys@ =~= r);
                    assert forall|a: int, b: int| 0 <= a < b < r.len() implies r[a] != r[b] by {
                        if a == i {
                            assert(r[a] == keys[keys.len() - 1]);
                            assert(r[b] == keys[b]);
                        } else if b == i {
                            assert(r[b] == keys[keys.len() - 1]);
                            assert(r[a] == keys[a]);
                        } else {
                            assert(r[a] == keys[a]);
                            assert(r[b] == keys[b]);
                        }
                    }
                }
            } else {
                assert(!keys.contains(key));
            }
            self.last_pressed.clear();
            let released = match key {
                KeyCode::LShift | KeyCode::RShift => KeyMods::shift(),
                KeyCode::LControl | KeyCode::RControl => KeyMods::ctrl(),
                KeyCode::LAlt | KeyCode::RAlt => KeyMods::alt(),
                KeyCode::LWin | KeyCode::RWin => KeyMods::logo(),
                _ => KeyMods::empty(),
            };
            self.active_modifiers.remove(released);
            proof {
                lemma_release_clears_its_own_modifier(old(self).spec_mods().spec_bits(), key);
            }
        }
    }

    /// Sets the active modifiers.
    pub fn set_modifiers(&mut self, keymods: KeyMods)
        ensures
            final(self).spec_mods() == keymods,
            final(self).spec_pressed() == old(self).spec_pressed(),
            final(self).spec_recent() == old(self).spec_recent(),
    {
        self.active_modifiers = keymods;
    }

    /// Whether `key` is held down.
    pub fn is_key_pressed(&self, key: KeyCode) -> (b: bool)
        ensures
            b == self.spec_pressed().contains(key),
    {
        let mut i: usize = 0;
        while i < self.pressed_keys.len()
            invariant
                i <= self.pressed_keys@.len(),
                forall|j: int| 0 <= j < i ==> self.pressed_keys@[j] != key,
            decreases self.pressed_keys@.len() - i,
        {
            if self.pressed_keys[i] == key {
                assert(self.pressed_keys@[i as int] == key);
                return true;
            }
            i = i + 1;
        }
        false
    }

    /// Whether the last keystroke sent by the system is repeated, as when a
    /// key is held down for a while: the last two presses, with no release
    /// since, were of the same key.
    pub fn is_key_repeated(&self) -> (b: bool)
        ensures
            b == (self.spec_recent().len() >= 2 && self.spec_recent()[0] == self.spec_recent()[1]),
    {
        if self.last_pressed.len() >= 2 {
            self.last_pressed[0] == self.last_pressed[1]
        } else {
            false
        }
    }

    /// The keys held down.
    pub fn get_pressed_keys(&self) -> (r: &[KeyCode])
        ensures
            r@ == self.spec_pressed(),
    {
        self.pressed_keys.as_slice()
    }

    /// The active modifiers.
    pub fn get_active_mods(&self) -> (m: KeyMods)
        ensures
            m == self.spec_mods(),
    {
        self.active_modifiers
    }
}

impl Default for KeyboardContext {
    fn default() -> (k: Self)
        ensures
            k.wf(),
            k.spec_mods().spec_bits() == 0,
            k.spec_pressed() == Seq::<KeyCode>::empty(),
            k.spec_recent() == Seq::<KeyCode>::empty(),
    {
        Self::new()
    }
}

} // verus!
