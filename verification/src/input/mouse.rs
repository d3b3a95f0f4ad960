//! Which mouse buttons are held down, now and at the end of the previous
//! frame, and whether the cursor is grabbed or hidden.

use vstd::prelude::*;

verus! {

/// A mouse button.
#[derive(Debug, Clone, Copy, PartialEq, Eq, Structural, Hash)]
pub enum MouseButton {
    /// The left button.
    Left,
    /// The right button.
    Right,
    /// The middle button.
    Middle,
    /// The back button.
    Back,
    /// The forward button.
    Forward,
    /// Any other button, by number.
    Other(u16),
}

/// `s` with `x` added at the end, unless it holds it already.
pub open spec fn with_button(s: Seq<MouseButton>, x: MouseButton) -> Seq<MouseButton> {
    if s.contains(x) { s } else { s.push(x) }
}

/// `s` without `x`; the others keep their order.
pub open spec fn without_button(s: Seq<MouseButton>, x: MouseButton) -> Seq<MouseButton> {
    s.filter(|y: MouseButton| y != x)
}

/// A button pressed is held; a button released is not; either leaves every
/// other button as it was.
pub proof fn lemma_button_press_and_release(s: Seq<MouseButton>, x: MouseButton, y: MouseButton)
    ensures
        with_button(s, x).contains(x),
        !without_button(s, x).contains(x),
        y != x ==> (with_button(s, x).contains(y) == s.contains(y)),
        y != x ==> (without_button(s, x).contains(y) == s.contains(y)),
{
    crate::input::keyboard::lemma_press_and_release(s, x, y);
    assert(with_button(s, x) == crate::input::keyboard::with_key(s, x));
    assert(without_button(s, x) =~= crate::input::keyboard::without_key(s, x)) by {
        assert((|z: MouseButton| z != x) =~= (|z: MouseButton| z != x));
    }
}

fn has_button(v: &Vec<MouseButton>, x: MouseButton) -> (b: bool)
    ensures
        b == v@.contains(x),
{
    let mut i: usize = 0;
    while i < v.len()
        invariant
            i <= v@.len(),
            forall|j: int| 0 <= j < i ==> v@[j] != x,
        decreases v@.len() - i,
    {
        if v[i] == x {
            assert(v@[i as int] == x);
            return true;
        }
        i = i + 1;
    }
    false
}

/// The button part of the mouse state.
#[derive(Clone, Debug)]
pub struct MouseButtons {
    buttons_pressed: Vec<MouseButton>,
    previous_buttons_pressed: Vec<MouseButton>,
    cursor_grabbed: bool,
    cursor_hidden: bool,
}

impl MouseButtons {
    /// The buttons held down.
    pub closed spec fn pressed(&self) -> Seq<MouseButton> {
        self.buttons_pressed@
    }

    /// The buttons held down at the end of the previous frame.
    pub closed spec fn previous(&self) -> Seq<MouseButton> {
        self.previous_buttons_pressed@
    }

    /// Whether the cursor is grabbed (confined to the window).
    pub closed spec fn spec_grabbed(&self) -> bool {
        self.cursor_grabbed
    }

    /// Whether the cursor is hidden.
    pub closed spec fn spec_hidden(&self) -> bool {
        self.cursor_hidden
    }

    /// Whether the cursor is grabbed (confined to the window).
    pub fn cursor_grabbed(&self) -> (b: bool)
        ensures
            b == self.spec_grabbed(),
    {
        self.cursor_grabbed
    }

    /// Whether the cursor is hidden.
    pub fn cursor_hidden(&self) -> (b: bool)
        ensures
            b == self.spec_hidden(),
    {
        self.cursor_hidden
    }

    /// Records whether the cursor is grabbed.
    pub fn set_cursor_grabbed(&mut self, grabbed: bool)
        ensures
            final(self).spec_grabbed() == grabbed,
            final(self).spec_hidden() == old(self).spec_hidden(),
            final(self).pressed() == old(self).pressed(),
            final(self).previous() == old(self).previous(),
    {
        self.cursor_grabbed = grabbed;
    }

    /// Records whether the cursor is hidden.
    pub fn set_cursor_hidden(&mut self, hidden: bool)
        ensures
            final(self).spec_hidden() == hidden,
            final(self).spec_grabbed() == old(self).spec_grabbed(),
            final(self).pressed() == old(self).pressed(),
            final(self).previous() == old(self).previous(),
    {
        self.cursor_hidden = hidden;
    }

    /// No button held down, now or before; the cursor neither grabbed nor hidden.
    pub fn new() -> (m: Self)
        ensures
            m.pressed() == Seq::<MouseButton>::empty(),
            m.previous() == Seq::<MouseButton>::empty(),
            !m.spec_grabbed(),
            !m.spec_hidden(),
    {
        MouseButtons {
            buttons_pressed: Vec::new(),
            previous_buttons_pressed: Vec::new(),
            cursor_grabbed: false,
            cursor_hidden: false,
        }
    }

    /// Whether the button is held down.
    pub fn button_pressed(&self, button: MouseButton) -> (b: bool)
        ensures
            b == self.pressed().contains(button),
    {
        has_button(&self.buttons_pressed, button)
    }

    /// Whether the button went down this frame.
    pub fn button_just_pressed(&self, button: MouseButton) -> (b: bool)
        ensures
            b == (self.pressed().contains(button) && !self.previous().contains(button)),
    {
        has_button(&self.buttons_pressed, button) && !has_button(&self.previous_buttons_pressed, button)
    }

    /// Whether the button went up this frame.
    pub fn button_just_released(&self, button: MouseButton) -> (b: bool)
        ensures
            b == (!self.pressed().contains(button) && self.previous().contains(button)),
    {
        !has_button(&self.buttons_pressed, button) && has_button(&self.previous_buttons_pressed, button)
    }

    /// Keeps the buttons held down now as those of the previous frame.
    pub fn save_mouse_state(&mut self)
        ensures
            final(self).previous() == old(self).pressed(),
            final(self).pressed() == old(self).pressed(),
            final(self).spec_grabbed() == old(self).spec_grabbed(),
            final(self).spec_hidden() == old(self).spec_hidden(),
    {
        self.previous_buttons_pressed = self.buttons_pressed.clone();
        assert(self.previous_buttons_pressed@ =~= self.buttons_pressed@);
    }

    /// Records that the button went down or up.
    pub fn set_button(&mut self, button: MouseButton, pressed: bool)
        ensures
            final(self).pressed() == (if pressed {
                with_button(old(self).pressed(), button)
            } else {
                without_button(old(self).pressed(), button)
            }),
            final(self).previous() == old(self).previous(),
            final(self).spec_grabbed() == old(self).spec_grabbed(),
            final(self).spec_hidden() == old(self).spec_hidden(),
    {
        if pressed {
            if !has_button(&self.buttons_pressed, button) {
                self.buttons_pressed.push(button);
            }
        } else {
            let mut out: Vec<MouseButton> = Vec::new();
            let mut i: usize = 0;
            let ghost v = self.buttons_pressed@;
            while i < self.buttons_pressed.len()
                invariant
                    i <= self.buttons_pressed@.len(),
                    self.buttons_pressed@ == v,
                    out@ == without_button(v.take(i as int), button),
                decreases self.buttons_pressed@.len() - i,
            {
                reveal_with_fuel(Seq::filter, 2);
                if self.buttons_pressed[i] != button {
                    out.push(self.buttons_pressed[i]);
                }
                assert(v.take(i + 1).drop_last() =~= v.take(i as int));
                i = i + 1;
            }
            assert(v.take(v.len() as int) =~= v);
            self.buttons_pressed = out;
        }
    }
}

impl Default for MouseButtons {
    fn default() -> (m: Self)
        ensures
            m.pressed() == Seq::<MouseButton>::empty(),
            m.previous() == Seq::<MouseButton>::empty(),
    {
        Self::new()
    }
}

} // verus!
