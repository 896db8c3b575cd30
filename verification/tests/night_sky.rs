use starfield::fixed::ONE;
use starfield::nightsky::pipeline::{
    MultisampledFrame, StarBuffer, SurfaceCapabilities, SurfaceConfiguration,
};
use starfield::nightsky::screen::ScreenSize;
use starfield::nightsky::sky::NightSky;
use starfield::nightsky::utils::{ColorParseError, Rgba8};
use starfield::star_render::{DrawIndexed, Frame, StarRender};
use starfield::utils::{RandomSource, ReplaySource};

fn capabilities() -> SurfaceCapabilities {
    SurfaceCapabilities { srgb_formats: vec![false, true], present_modes: 2, alpha_modes: 1 }
}

fn source() -> ReplaySource {
    ReplaySource::new((0..97u32).map(|i| i.wrapping_mul(0x9E37_79B9)).collect())
}

fn sky_of(stars: u32) -> NightSky {
    NightSky::new(&capabilities(), 800, 600, "#102030", stars, ONE, &mut source()).unwrap()
}

#[test]
fn a_new_sky_is_in_step_with_its_surface() {
    let sky = sky_of(10);
    assert_eq!(sky.get_num_stars(), 10);
    assert_eq!(sky.stars().len(), 10);
    assert_eq!(sky.star_buffer(), StarBuffer { instances: 10 });
    assert_eq!(sky.clear_color(), Rgba8 { r: 0x10, g: 0x20, b: 0x30, a: 255 });
    assert_eq!(sky.screen_size(), ScreenSize { width: 800, height: 600 });
    assert_eq!(
        sky.surface_config(),
        SurfaceConfiguration { format: 1, width: 800, height: 600, desired_maximum_frame_latency: 2 }
    );
    assert_eq!(
        sky.multisampled_frame(),
        MultisampledFrame { width: 800, height: 600, sample_count: 4, format: 1 }
    );
    let first = sky.stars()[0].brightness;
    assert!(200_000 <= first && first < ONE);
    assert!(sky.stars().iter().all(|s| s.brightness == first));
}

#[test]
fn a_bad_clear_colour_stops_the_set_up() {
    let mut rng = source();
    let made = NightSky::new(&capabilities(), 800, 600, "#12345", 10, ONE, &mut rng);
    assert!(matches!(made, Err(ColorParseError::Length)));
    let made = NightSky::new(&capabilities(), 800, 600, "#12345G", 10, ONE, &mut rng);
    assert!(matches!(made, Err(ColorParseError::Blue)));
    assert_eq!(rng.next_draw(), 0);
}

#[test]
fn adding_stars_lengthens_the_sky_by_their_number() {
    let mut sky = sky_of(5);
    let before = sky.stars().clone();
    let mut rng = source();
    sky.add_stars(7, &mut rng);
    assert_eq!(sky.get_num_stars(), 12);
    assert_eq!(&sky.stars()[..5], &before[..]);
    assert!(sky.stars()[5..].iter().all(|s| s.brightness == 0));
    assert_eq!(sky.star_buffer(), StarBuffer { instances: 12 });
    sky.add_stars(0, &mut rng);
    assert_eq!(sky.get_num_stars(), 12);
}

#[test]
fn removing_stars_shortens_the_sky_from_its_end() {
    let mut sky = sky_of(10);
    let before = sky.stars().clone();
    sky.remove_stars(3);
    assert_eq!(sky.get_num_stars(), 7);
    assert_eq!(&sky.stars()[..], &before[..7]);
    assert_eq!(sky.star_buffer(), StarBuffer { instances: 7 });
    sky.remove_stars(0);
    assert_eq!(sky.get_num_stars(), 7);
    sky.remove_stars(7);
    assert_eq!(sky.get_num_stars(), 0);
}

#[test]
fn removing_more_stars_than_there_are_leaves_none() {
    let mut sky = sky_of(10);
    sky.remove_stars(11);
    assert_eq!(sky.get_num_stars(), 0);
    assert_eq!(sky.star_buffer(), StarBuffer { instances: 0 });
    sky.remove_stars(u32::MAX);
    assert_eq!(sky.get_num_stars(), 0);
    let mut sky = sky_of(10);
    sky.remove_stars(u32::MAX);
    assert_eq!(sky.get_num_stars(), 0);
}

#[test]
fn resizing_twice_is_resizing_once() {
    let mut once = sky_of(4);
    let mut twice = sky_of(4);
    once.resize(1024, 768);
    twice.resize(1024, 768);
    twice.resize(1024, 768);
    assert_eq!(once.surface_config(), twice.surface_config());
    assert_eq!(once.multisampled_frame(), twice.multisampled_frame());
    assert_eq!(once.stars(), twice.stars());
    assert_eq!(
        once.surface_config(),
        SurfaceConfiguration { format: 1, width: 1024, height: 768, desired_maximum_frame_latency: 2 }
    );
    assert_eq!(
        once.multisampled_frame(),
        MultisampledFrame { width: 1024, height: 768, sample_count: 4, format: 1 }
    );
}

#[test]
fn resizing_leaves_the_stars_and_the_screen_size_alone() {
    let mut sky = sky_of(4);
    let before = sky.stars().clone();
    sky.resize(10, 20);
    assert_eq!(sky.stars(), &before);
    assert_eq!(sky.screen_size(), ScreenSize { width: 800, height: 600 });
    assert_eq!(sky.star_buffer(), StarBuffer { instances: 4 });
}

#[test]
fn a_frame_draws_the_mesh_once_per_star() {
    let mut sky = sky_of(3);
    let mut rng = source();
    let frame = sky.update_and_render(16_667, &mut rng);
    match frame {
        Frame::Instanced { clear_color, draw } => {
            assert_eq!(clear_color, Rgba8 { r: 0x10, g: 0x20, b: 0x30, a: 255 });
            assert_eq!(draw, Some(DrawIndexed { index_count: 192, instances: 3 }));
        }
        _ => panic!("an instanced frame was expected"),
    }
}

#[test]
fn a_sky_without_stars_makes_no_draw_call() {
    let mut sky = sky_of(0);
    let mut rng = source();
    match sky.update_and_render(16_667, &mut rng) {
        Frame::Instanced { draw, .. } => assert_eq!(draw, None),
        _ => panic!("an instanced frame was expected"),
    }
    match sky.render() {
        Frame::Instanced { draw, .. } => assert_eq!(draw, None),
        _ => panic!("an instanced frame was expected"),
    }
}

#[test]
fn an_update_moves_every_star() {
    let mut sky = sky_of(20);
    let before = sky.stars().clone();
    let mut rng = source();
    sky.update(100_000, &mut rng);
    assert_eq!(sky.get_num_stars(), 20);
    for (old, new) in before.iter().zip(sky.stars().iter()) {
        let mut expected = *old;
        expected.update(100_000, &mut source());
        assert_eq!(new.brightness, expected.brightness);
        assert_eq!(new.fade_speed, expected.fade_speed);
        assert_eq!(new.size, old.size);
        assert_eq!(new.color, old.color);
        assert_eq!(new.velocity, old.velocity);
        assert!(0 <= new.brightness && new.brightness <= ONE);
    }
}

#[test]
fn added_stars_fade_in() {
    let mut sky = sky_of(0);
    let mut rng = source();
    sky.add_stars(5, &mut rng);
    assert!(sky.stars().iter().all(|s| s.brightness == 0));
    sky.update(ONE, &mut rng);
    for star in sky.stars() {
        assert!(80_000 <= star.brightness && star.brightness < 300_000);
    }
}
