use ggez::conf::{Backend, Conf, FullscreenType, NumSamples, WindowSetup};
use ggez::context::{ContextBuilder, Has, HasMut, HasTwo};
use ggez::error::GameError;

#[derive(Debug, Default, Clone, PartialEq)]
struct Mode {
    width: u32,
    height: u32,
}

#[test]
fn num_samples_conversions() {
    assert_eq!(NumSamples::try_from_u8(1).unwrap(), NumSamples::One);
    assert_eq!(NumSamples::try_from_u8(4).unwrap(), NumSamples::Four);
    for bad in [0u8, 2, 3, 8, 16, 255] {
        match NumSamples::try_from_u8(bad) {
            Err(GameError::ConfigError(m)) => assert_eq!(m, "Invalid number of samples"),
            other => panic!("unexpected {:?}", other),
        }
    }
    assert_eq!(NumSamples::One.to_u8(), 1);
    assert_eq!(NumSamples::Four.to_u8(), 4);
    assert_eq!(u8::from(NumSamples::Four), 4);
    for n in [NumSamples::One, NumSamples::Four] {
        assert_eq!(NumSamples::try_from_u8(n.to_u8()).unwrap(), n);
    }
}

#[test]
fn window_setup_defaults_and_builders() {
    let d = WindowSetup::default();
    assert_eq!(d.title, "An easy, good game");
    assert_eq!(d.samples, NumSamples::One);
    assert!(d.vsync);
    assert_eq!(d.icon, "");
    assert!(d.srgb);
    let s = WindowSetup::default()
        .title("Astroblasto!")
        .samples(NumSamples::Four)
        .vsync(false)
        .icon("/icon.png")
        .srgb(false);
    assert_eq!(s.title, "Astroblasto!");
    assert_eq!(s.samples, NumSamples::Four);
    assert!(!s.vsync);
    assert_eq!(s.icon, "/icon.png");
    assert!(!s.srgb);
    assert!(s.same_as(&s.clone()));
    assert!(!s.same_as(&d));
    assert!(d.same_as(&WindowSetup::default().title("An easy, good game")));
    assert_ne!(FullscreenType::Windowed, FullscreenType::Desktop);
}

#[test]
fn conf_defaults_and_builders() {
    let c: Conf<Mode> = Conf::new();
    assert_eq!(c.window_mode, Mode::default());
    assert_eq!(c.backend, Backend::All);
    assert!(c.window_setup.same_as(&WindowSetup::default()));
    let c = c.window_mode(Mode { width: 640, height: 480 }).backend(Backend::Vulkan);
    assert_eq!(c.window_mode, Mode { width: 640, height: 480 });
    assert_eq!(c.backend, Backend::Vulkan);
    assert_eq!(Backend::default(), Backend::All);
    let d: Conf<Mode> = Conf::default();
    assert_eq!(d.backend, Backend::All);
}

#[test]
fn context_builder_defaults_and_builders() {
    let b: ContextBuilder<Mode> = ContextBuilder::new("super_game", "Iceman");
    assert_eq!(b.game_id, "super_game");
    assert_eq!(b.author, "Iceman");
    assert_eq!(b.resources_dir_name, "resources");
    assert_eq!(b.resources_zip_name, "resources.zip");
    assert!(b.paths.is_empty());
    assert!(b.memory_zip_files.is_empty());
    assert!(b.load_conf_file);
    let b = b
        .window_setup(WindowSetup::default().title("Hi"))
        .window_mode(Mode { width: 1, height: 2 })
        .backend(Backend::Gl)
        .resources_dir_name("assets")
        .resources_zip_name("assets.zip")
        .add_resource_path("/extra")
        .add_resource_path("/more")
        .add_zipfile_bytes(vec![1, 2, 3])
        .with_conf_file(false);
    assert_eq!(b.conf.window_setup.title, "Hi");
    assert_eq!(b.conf.window_mode, Mode { width: 1, height: 2 });
    assert_eq!(b.conf.backend, Backend::Gl);
    assert_eq!(b.resources_dir_name, "assets");
    assert_eq!(b.resources_zip_name, "assets.zip");
    assert_eq!(b.paths, vec![String::from("/extra"), String::from("/more")]);
    assert_eq!(b.memory_zip_files, vec![vec![1u8, 2, 3]]);
    assert!(!b.load_conf_file);
    let c = b.clone().default_conf(Conf::new().backend(Backend::Metal));
    assert_eq!(c.conf.backend, Backend::Metal);
    assert_eq!(c.paths, b.paths);
}

#[test]
fn context_builder_chooses_the_config_file_only_when_asked() {
    let from_file: Conf<Mode> = Conf::new().backend(Backend::Dx12);
    let b: ContextBuilder<Mode> = ContextBuilder::new("g", "a");
    assert_eq!(b.clone().chosen_conf::<()>(Ok(from_file.clone())).backend, Backend::Dx12);
    assert_eq!(b.clone().chosen_conf::<()>(Err(())).backend, Backend::All);
    let b = b.with_conf_file(false);
    assert_eq!(b.chosen_conf::<()>(Ok(from_file)).backend, Backend::All);
}

#[test]
fn has_traits_hand_out_what_they_hold() {
    let x: u32 = 5;
    assert_eq!(*Has::<u32>::get(&x), 5);
    let mut y: u32 = 6;
    *HasMut::<u32>::get_mut(&mut y) += 1;
    assert_eq!(y, 7);
    let a = String::from("first");
    let b = 2u8;
    let pair = (&a, &b);
    assert_eq!(pair.get_first(), "first");
    assert_eq!(*pair.get_second(), 2);
}
