use ggez::input::keyboard::KeyboardContext;
use ggez::input::mouse::{MouseButton, MouseButtons};
use ggez::keyboard::KeyMods;

const KEY_A: u32 = 30;
const KEY_B: u32 = 48;

fn logical(keyboard: &KeyboardContext) -> Vec<&str> {
    keyboard.pressed_logical_keys().iter().map(|s| s.as_str()).collect()
}

#[test]
fn pressed_logical_keys_tracking() {
    let a = "a";
    let b = "b";
    let empty: Vec<&str> = Vec::new();
    let mut keyboard = KeyboardContext::new();
    assert_eq!(logical(&keyboard), empty);
    assert!(!keyboard.is_logical_key_pressed(a));
    keyboard.set_logical_key(a, true);
    assert_eq!(logical(&keyboard), vec![a]);
    assert!(keyboard.is_logical_key_pressed(a));
    keyboard.set_logical_key(a, false);
    assert_eq!(logical(&keyboard), empty);
    assert!(!keyboard.is_logical_key_pressed(a));
    keyboard.set_logical_key(a, true);
    assert_eq!(logical(&keyboard), vec![a]);
    assert!(keyboard.is_logical_key_pressed(a));
    keyboard.set_logical_key(a, true);
    assert_eq!(logical(&keyboard), vec![a]);
    keyboard.set_logical_key(b, true);
    assert_eq!(logical(&keyboard), vec![a, b]);
    keyboard.set_logical_key(b, true);
    assert_eq!(logical(&keyboard), vec![a, b]);
    keyboard.set_logical_key(a, false);
    assert_eq!(logical(&keyboard), vec![b]);
    keyboard.set_logical_key(a, false);
    assert_eq!(logical(&keyboard), vec![b]);
    keyboard.set_logical_key(b, false);
    assert_eq!(logical(&keyboard), empty);
}

#[test]
fn pressed_scancodes_tracking() {
    let mut keyboard = KeyboardContext::new();
    let a = KEY_A;
    let b = KEY_B;
    assert_eq!(*keyboard.pressed_physical_keys(), [].iter().copied().collect());
    assert!(!keyboard.is_physical_key_pressed(a));
    keyboard.set_physical_key(a, true);
    assert_eq!(*keyboard.pressed_physical_keys(), [a].iter().copied().collect());
    assert!(keyboard.is_physical_key_pressed(a));
    keyboard.set_physical_key(a, false);
    assert_eq!(*keyboard.pressed_physical_keys(), [].iter().copied().collect());
    assert!(!keyboard.is_physical_key_pressed(a));
    keyboard.set_physical_key(a, true);
    assert_eq!(*keyboard.pressed_physical_keys(), [a].iter().copied().collect());
    assert!(keyboard.is_physical_key_pressed(a));
    keyboard.set_physical_key(a, true);
    assert_eq!(*keyboard.pressed_physical_keys(), [a].iter().copied().collect());
    keyboard.set_physical_key(b, true);
    assert_eq!(*keyboard.pressed_physical_keys(), [a, b].iter().copied().collect());
    keyboard.set_physical_key(b, true);
    assert_eq!(*keyboard.pressed_physical_keys(), [a, b].iter().copied().collect());
    keyboard.set_physical_key(a, false);
    assert_eq!(*keyboard.pressed_physical_keys(), [b].iter().copied().collect());
    keyboard.set_physical_key(a, false);
    assert_eq!(*keyboard.pressed_physical_keys(), [b].iter().copied().collect());
    keyboard.set_physical_key(b, false);
    assert_eq!(*keyboard.pressed_physical_keys(), [].iter().copied().collect());
}

#[test]
fn repeated_keys_tracking() {
    let a = KEY_A;
    let b = KEY_B;
    let mut keyboard = KeyboardContext::new();
    assert!(!keyboard.is_key_repeated());
    keyboard.set_physical_key(a, true);
    assert!(!keyboard.is_key_repeated());
    keyboard.set_physical_key(a, false);
    assert!(!keyboard.is_key_repeated());
    keyboard.set_physical_key(a, true);
    assert!(!keyboard.is_key_repeated());
    keyboard.set_physical_key(a, true);
    assert!(keyboard.is_key_repeated());
    keyboard.set_physical_key(a, false);
    assert!(!keyboard.is_key_repeated());
    keyboard.set_physical_key(a, true);
    assert!(!keyboard.is_key_repeated());
    keyboard.set_physical_key(b, true);
    assert!(!keyboard.is_key_repeated());
    keyboard.set_physical_key(a, true);
    assert!(!keyboard.is_key_repeated());
    keyboard.set_physical_key(a, true);
    assert!(keyboard.is_key_repeated());
    keyboard.set_physical_key(b, true);
    assert!(!keyboard.is_key_repeated());
    keyboard.set_physical_key(b, true);
    assert!(keyboard.is_key_repeated());
}

#[test]
fn just_pressed_and_released_compare_with_the_last_frame() {
    let mut keyboard = KeyboardContext::default();
    keyboard.set_physical_key(KEY_A, true);
    keyboard.set_logical_key("a", true);
    assert!(keyboard.is_physical_key_just_pressed(KEY_A));
    assert!(keyboard.is_logical_key_just_pressed("a"));
    keyboard.save_keyboard_state();
    assert!(!keyboard.is_physical_key_just_pressed(KEY_A));
    assert!(!keyboard.is_logical_key_just_pressed("a"));
    assert!(keyboard.is_physical_key_pressed(KEY_A));
    keyboard.set_physical_key(KEY_A, false);
    keyboard.set_logical_key("a", false);
    assert!(keyboard.is_physical_key_just_released(KEY_A));
    assert!(keyboard.is_logical_key_just_released("a"));
    keyboard.save_keyboard_state();
    assert!(!keyboard.is_physical_key_just_released(KEY_A));
    assert!(!keyboard.is_logical_key_just_released("a"));
}

#[test]
fn keyboard_modifiers_are_kept() {
    let mut keyboard = KeyboardContext::new();
    assert!(keyboard.active_modifiers().is_empty());
    keyboard.set_modifiers(KeyMods::ctrl() | KeyMods::logo());
    assert_eq!(keyboard.active_modifiers(), KeyMods::ctrl() | KeyMods::logo());
}

#[test]
fn mouse_buttons_tracking() {
    let mut mouse = MouseButtons::new();
    assert!(!mouse.button_pressed(MouseButton::Left));
    mouse.set_button(MouseButton::Left, true);
    mouse.set_button(MouseButton::Other(9), true);
    assert!(mouse.button_pressed(MouseButton::Left));
    assert!(mouse.button_just_pressed(MouseButton::Left));
    assert!(mouse.button_pressed(MouseButton::Other(9)));
    assert!(!mouse.button_pressed(MouseButton::Other(8)));
    mouse.save_mouse_state();
    assert!(!mouse.button_just_pressed(MouseButton::Left));
    mouse.set_button(MouseButton::Left, false);
    assert!(!mouse.button_pressed(MouseButton::Left));
    assert!(mouse.button_just_released(MouseButton::Left));
    assert!(mouse.button_pressed(MouseButton::Other(9)));
    mouse.set_button(MouseButton::Left, false);
    assert!(mouse.button_just_released(MouseButton::Left));
    mouse.save_mouse_state();
    assert!(!mouse.button_just_released(MouseButton::Left));
}

#[test]
fn mouse_cursor_flags() {
    let mut mouse = MouseButtons::default();
    assert!(!mouse.cursor_grabbed());
    assert!(!mouse.cursor_hidden());
    mouse.set_cursor_grabbed(true);
    assert!(mouse.cursor_grabbed());
    assert!(!mouse.cursor_hidden());
    mouse.set_cursor_hidden(true);
    assert!(mouse.cursor_hidden());
    mouse.set_cursor_grabbed(false);
    assert!(!mouse.cursor_grabbed());
    assert!(mouse.cursor_hidden());
}

#[test]
fn keyboard_clone_keeps_the_held_keys() {
    let mut keyboard = KeyboardContext::new();
    keyboard.set_physical_key(KEY_A, true);
    keyboard.save_keyboard_state();
    keyboard.set_physical_key(KEY_B, true);
    keyboard.set_logical_key("b", true);
    let copy = keyboard.clone();
    assert_eq!(*copy.pressed_physical_keys(), [KEY_A, KEY_B].iter().copied().collect());
    assert!(copy.is_physical_key_just_pressed(KEY_B));
    assert!(!copy.is_physical_key_just_pressed(KEY_A));
    assert!(copy.is_logical_key_pressed("b"));
    assert!(copy.is_key_repeated() == keyboard.is_key_repeated());
}
