use ggez::keyboard::{KeyCode, KeyMods, KeyboardContext, ModifiersState};

#[test]
fn key_mod_conversions() {
    assert_eq!(
        KeyMods::empty(),
        KeyMods::from(ModifiersState {
            shift: false,
            ctrl: false,
            alt: false,
            logo: false,
        })
    );
    assert_eq!(
        KeyMods::shift(),
        KeyMods::from(ModifiersState {
            shift: true,
            ctrl: false,
            alt: false,
            logo: false,
        })
    );
    assert_eq!(
        KeyMods::shift() | KeyMods::alt(),
        KeyMods::from(ModifiersState {
            shift: true,
            ctrl: false,
            alt: true,
            logo: false,
        })
    );
    assert_eq!(
        KeyMods::shift() | KeyMods::alt() | KeyMods::ctrl(),
        KeyMods::from(ModifiersState {
            shift: true,
            ctrl: true,
            alt: true,
            logo: false,
        })
    );
    assert_eq!(
        KeyMods::shift() - KeyMods::alt(),
        KeyMods::from(ModifiersState {
            shift: true,
            ctrl: false,
            alt: false,
            logo: false,
        })
    );
    assert_eq!(
        (KeyMods::shift() | KeyMods::alt()) - KeyMods::alt(),
        KeyMods::from(ModifiersState {
            shift: true,
            ctrl: false,
            alt: false,
            logo: false,
        })
    );
    assert_eq!(
        KeyMods::shift() - (KeyMods::alt() | KeyMods::shift()),
        KeyMods::from(ModifiersState {
            shift: false,
            ctrl: false,
            alt: false,
            logo: false,
        })
    );
}

#[test]
fn pressed_keys_tracking() {
    let mut keyboard = KeyboardContext::new();
    assert_eq!(keyboard.get_pressed_keys(), &[]);
    assert!(!keyboard.is_key_pressed(KeyCode::A));
    keyboard.set_key(KeyCode::A, true);
    assert_eq!(keyboard.get_pressed_keys(), &[KeyCode::A]);
    assert!(keyboard.is_key_pressed(KeyCode::A));
    keyboard.set_key(KeyCode::A, false);
    assert_eq!(keyboard.get_pressed_keys(), &[]);
    assert!(!keyboard.is_key_pressed(KeyCode::A));
    keyboard.set_key(KeyCode::A, true);
    assert_eq!(keyboard.get_pressed_keys(), &[KeyCode::A]);
    assert!(keyboard.is_key_pressed(KeyCode::A));
    keyboard.set_key(KeyCode::A, true);
    assert_eq!(keyboard.get_pressed_keys(), &[KeyCode::A]);
    keyboard.set_key(KeyCode::B, true);
    assert_eq!(keyboard.get_pressed_keys(), &[KeyCode::A, KeyCode::B]);
    keyboard.set_key(KeyCode::B, true);
    assert_eq!(keyboard.get_pressed_keys(), &[KeyCode::A, KeyCode::B]);
    keyboard.set_key(KeyCode::A, false);
    assert_eq!(keyboard.get_pressed_keys(), &[KeyCode::B]);
    keyboard.set_key(KeyCode::A, false);
    assert_eq!(keyboard.get_pressed_keys(), &[KeyCode::B]);
    keyboard.set_key(KeyCode::B, false);
    assert_eq!(keyboard.get_pressed_keys(), &[]);
}

#[test]
fn keyboard_repeated_keys_tracking() {
    let mut keyboard = KeyboardContext::new();
    assert_eq!(keyboard.is_key_repeated(), false);
    keyboard.set_key(KeyCode::A, true);
    assert_eq!(keyboard.is_key_repeated(), false);
    keyboard.set_key(KeyCode::A, false);
    assert_eq!(keyboard.is_key_repeated(), false);
    keyboard.set_key(KeyCode::A, true);
    assert_eq!(keyboard.is_key_repeated(), false);
    keyboard.set_key(KeyCode::A, true);
    assert_eq!(keyboard.is_key_repeated(), true);
    keyboard.set_key(KeyCode::A, false);
    assert_eq!(keyboard.is_key_repeated(), false);
    keyboard.set_key(KeyCode::A, true);
    assert_eq!(keyboard.is_key_repeated(), false);
    keyboard.set_key(KeyCode::B, true);
    assert_eq!(keyboard.is_key_repeated(), false);
    keyboard.set_key(KeyCode::A, true);
    assert_eq!(keyboard.is_key_repeated(), false);
    keyboard.set_key(KeyCode::A, true);
    assert_eq!(keyboard.is_key_repeated(), true);
    keyboard.set_key(KeyCode::B, true);
    assert_eq!(keyboard.is_key_repeated(), false);
    keyboard.set_key(KeyCode::B, true);
    assert_eq!(keyboard.is_key_repeated(), true);
}

#[test]
fn key_mods_as_sets() {
    let sa = KeyMods::shift() | KeyMods::alt();
    assert_eq!(sa.bits(), 5);
    assert!(sa.contains(KeyMods::shift()));
    assert!(sa.contains(KeyMods::alt()));
    assert!(!sa.contains(KeyMods::ctrl()));
    assert!(sa.intersects(KeyMods::alt() | KeyMods::logo()));
    assert!(!sa.intersects(KeyMods::ctrl() | KeyMods::logo()));
    assert_eq!(sa.union(KeyMods::ctrl()).bits(), 7);
    assert_eq!(sa.difference(KeyMods::shift()), KeyMods::alt());
    assert!((sa - KeyMods::alt()).contains(KeyMods::shift()));
    assert!(!(sa - KeyMods::alt()).intersects(KeyMods::alt()));
    assert!(KeyMods::empty().is_empty());
    assert!(KeyMods::none().is_empty());
    assert_eq!(KeyMods::default(), KeyMods::empty());
    assert_eq!(KeyMods::all().bits(), 0x0f);
    assert_eq!(KeyMods::from_bits_truncate(0xff), KeyMods::all());
    assert_eq!(KeyMods::from_bits_truncate(sa.bits()), sa);
    let mut m = KeyMods::empty();
    m.insert(KeyMods::logo());
    assert!(m.contains(KeyMods::logo()));
    m.insert(KeyMods::ctrl());
    m.remove(KeyMods::logo());
    assert_eq!(m, KeyMods::ctrl());
    assert_eq!(
        KeyMods::from(ModifiersState { shift: true, ctrl: true, alt: true, logo: true }),
        KeyMods::all()
    );
}

#[test]
fn releasing_a_modifier_key_clears_its_modifier() {
    let mut keyboard = KeyboardContext::default();
    keyboard.set_modifiers(KeyMods::shift() | KeyMods::ctrl());
    keyboard.set_key(KeyCode::LShift, true);
    assert_eq!(keyboard.get_active_mods(), KeyMods::shift() | KeyMods::ctrl());
    keyboard.set_key(KeyCode::LShift, false);
    assert_eq!(keyboard.get_active_mods(), KeyMods::ctrl());
    keyboard.set_key(KeyCode::A, false);
    assert_eq!(keyboard.get_active_mods(), KeyMods::ctrl());
    keyboard.set_key(KeyCode::RControl, false);
    assert!(keyboard.get_active_mods().is_empty());
}

#[test]
fn release_swaps_in_the_last_key() {
    let mut keyboard = KeyboardContext::new();
    keyboard.set_key(KeyCode::A, true);
    keyboard.set_key(KeyCode::B, true);
    keyboard.set_key(KeyCode::C, true);
    keyboard.set_key(KeyCode::A, false);
    assert_eq!(keyboard.get_pressed_keys(), &[KeyCode::C, KeyCode::B]);
    assert!(!keyboard.is_key_pressed(KeyCode::A));
    assert!(keyboard.is_key_pressed(KeyCode::B));
    assert!(keyboard.is_key_pressed(KeyCode::C));
}
