//! Input state: keyboard keys and mouse buttons held down, now and in the
//! previous frame.

pub mod keyboard;
pub mod mouse;
