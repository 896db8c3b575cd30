use starfield::fixed::ONE;
use starfield::nightsky::pipeline::SurfaceCapabilities;
use starfield::nightsky::utils::{ColorParseError, Rgba8};
use starfield::star_render::{DrawIndexed, Frame, StarRender};
use starfield::star_system::{InitOutcome, Sky, StarSystem};
use starfield::system_options::StarSystemOptions;
use starfield::utils::{RandomSource, ReplaySource};

fn source() -> ReplaySource {
    ReplaySource::new((1..131u32).map(|i| i.wrapping_mul(0x85EB_CA6B)).collect())
}

fn capabilities() -> SurfaceCapabilities {
    SurfaceCapabilities { srgb_formats: vec![true], present_modes: 1, alpha_modes: 1 }
}

fn options(star_count: u32, use_advanced: bool) -> StarSystemOptions {
    StarSystemOptions { star_count, use_advanced, ..StarSystemOptions::default() }
}

fn stars_of(system: &StarSystem) -> usize {
    match system.sky() {
        Sky::Empty(_) => 0,
        Sky::Basic(sky) => sky.get_num_stars() as usize,
        Sky::Night(sky) => sky.get_num_stars() as usize,
    }
}

#[test]
fn a_new_system_has_no_renderer() {
    let mut system = StarSystem::new(options(10, true));
    let mut rng = source();
    assert!(!system.is_advanced());
    assert!(system.wants_advanced());
    assert!(matches!(system.sky(), Sky::Empty(_)));
    assert!(matches!(system.update_and_render(16_667, &mut rng), Frame::Blank));
    system.add_stars(5, &mut rng);
    system.remove_stars(2);
    system.resize(10, 10);
    assert!(matches!(system.sky(), Sky::Empty(_)));
    assert_eq!(system.options().star_count, 10);
    assert_eq!(rng.next_draw(), 0x85EB_CA6B);
}

#[test]
fn a_missing_device_falls_back_to_the_canvas() {
    let mut system = StarSystem::new(options(10, true));
    let mut rng = source();
    let outcome = system.init(Err("no adapter".to_string()), 800, 600, &mut rng);
    assert_eq!(outcome, Ok(InitOutcome::FellBack("no adapter".to_string())));
    assert!(!system.is_advanced());
    assert!(matches!(system.sky(), Sky::Basic(_)));
    assert_eq!(stars_of(&system), 10);
    for _ in 0..50 {
        match system.update_and_render(16_667, &mut rng) {
            Frame::Canvas { width, height, discs } => {
                assert_eq!((width, height), (800, 600));
                assert!(discs.len() <= 10);
            }
            _ => panic!("a canvas frame was expected"),
        }
    }
    assert!(!system.is_advanced());
    assert_eq!(stars_of(&system), 10);
}

#[test]
fn an_acquired_device_is_used() {
    let mut system = StarSystem::new(options(10, true));
    let mut rng = source();
    let outcome = system.init(Ok(capabilities()), 800, 600, &mut rng);
    assert_eq!(outcome, Ok(InitOutcome::Advanced));
    assert!(system.is_advanced());
    match system.sky() {
        Sky::Night(sky) => {
            assert_eq!(sky.get_num_stars(), 10);
            assert_eq!(sky.clear_color(), Rgba8 { r: 0, g: 0, b: 0, a: 255 });
            assert_eq!(sky.surface_config().width, 800);
            assert_eq!(sky.surface_config().height, 600);
        }
        _ => panic!("the instanced renderer was expected"),
    }
    match system.update_and_render(16_667, &mut rng) {
        Frame::Instanced { draw, .. } => {
            assert_eq!(draw, Some(DrawIndexed { index_count: 192, instances: 10 }))
        }
        _ => panic!("an instanced frame was expected"),
    }
}

#[test]
fn the_canvas_is_used_where_the_options_ask_for_it() {
    let mut system = StarSystem::new(options(3000, false));
    let mut rng = source();
    assert!(!system.wants_advanced());
    let outcome = system.init(Ok(capabilities()), 640, 480, &mut rng);
    assert_eq!(outcome, Ok(InitOutcome::Basic));
    assert!(!system.is_advanced());
    assert_eq!(stars_of(&system), 2000);
    let outcome = system.init(Err("not asked for".to_string()), 640, 480, &mut rng);
    assert_eq!(outcome, Ok(InitOutcome::Basic));
}

#[test]
fn a_surface_without_formats_falls_back_to_the_canvas() {
    let mut system = StarSystem::new(options(10, true));
    let mut rng = source();
    let bare = SurfaceCapabilities { srgb_formats: Vec::new(), present_modes: 1, alpha_modes: 1 };
    let outcome = system.init(Ok(bare), 800, 600, &mut rng);
    assert_eq!(outcome, Ok(InitOutcome::FellBack("Surface offers no configuration".to_string())));
    assert!(!system.is_advanced());
    assert!(matches!(system.sky(), Sky::Basic(_)));
}

#[test]
fn a_bad_clear_colour_stops_the_instanced_renderer() {
    let mut bad = options(10, true);
    bad.clear_color = "#12".to_string();
    let mut system = StarSystem::new(bad);
    let mut rng = source();
    let outcome = system.init(Ok(capabilities()), 800, 600, &mut rng);
    assert_eq!(outcome, Err(ColorParseError::Length));
    assert!(!system.is_advanced());
    assert!(matches!(system.sky(), Sky::Empty(_)));
}

#[test]
fn a_bad_clear_colour_does_not_matter_to_the_canvas() {
    let mut bad = options(10, true);
    bad.clear_color = "red".to_string();
    let mut system = StarSystem::new(bad);
    let mut rng = source();
    let outcome = system.init(Err("no device".to_string()), 800, 600, &mut rng);
    assert_eq!(outcome, Ok(InitOutcome::FellBack("no device".to_string())));
    assert!(matches!(system.sky(), Sky::Basic(_)));
}

#[test]
fn stars_are_added_and_removed_through_the_system() {
    for advanced in [true, false] {
        let mut system = StarSystem::new(options(10, advanced));
        let mut rng = source();
        system.init(Ok(capabilities()), 800, 600, &mut rng).unwrap();
        assert_eq!(system.is_advanced(), advanced);
        system.add_stars(5, &mut rng);
        assert_eq!(stars_of(&system), 15);
        system.remove_stars(12);
        assert_eq!(stars_of(&system), 3);
        system.remove_stars(12);
        assert_eq!(stars_of(&system), 0);
        system.add_stars(2, &mut rng);
        assert_eq!(stars_of(&system), 2);
    }
}

#[test]
fn resizing_reaches_the_renderer_in_use() {
    let mut system = StarSystem::new(options(10, true));
    let mut rng = source();
    system.init(Ok(capabilities()), 800, 600, &mut rng).unwrap();
    system.resize(1920, 1080);
    system.resize(1920, 1080);
    match system.sky() {
        Sky::Night(sky) => {
            assert_eq!(sky.surface_config().width, 1920);
            assert_eq!(sky.surface_config().height, 1080);
            assert_eq!(sky.multisampled_frame().width, 1920);
            assert_eq!(sky.multisampled_frame().height, 1080);
        }
        _ => panic!("the instanced renderer was expected"),
    }
    let mut system = StarSystem::new(options(10, false));
    system.init(Err(String::new()), 800, 600, &mut rng).unwrap();
    system.resize(1920, 1080);
    match system.sky() {
        Sky::Basic(sky) => assert_eq!(sky.size(), (1920, 1080)),
        _ => panic!("the canvas renderer was expected"),
    }
}

#[test]
fn the_star_size_of_the_options_scales_the_stars() {
    let mut big = options(50, true);
    big.star_size = 4 * ONE;
    let mut system = StarSystem::new(big);
    let mut rng = source();
    system.init(Ok(capabilities()), 800, 600, &mut rng).unwrap();
    match system.sky() {
        Sky::Night(sky) => {
            assert!(sky.stars().iter().all(|s| 4_000 <= s.size && s.size <= 12_000));
        }
        _ => panic!("the instanced renderer was expected"),
    }
}
