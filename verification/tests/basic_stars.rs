use starfield::basic_stars::{Particle, ParticleDraws, ParticleSystem, LAYER_STEP};
use starfield::fixed::ONE;
use starfield::utils::{RandomSource, ReplaySource};

const HALF: u32 = 0x8000_0000;

fn source() -> ReplaySource {
    ReplaySource::new((1..61u32).map(|i| i.wrapping_mul(0xC2B2_AE35)).collect())
}

#[test]
fn draws_shape_a_particle() {
    let draws = ParticleDraws {
        x: HALF,
        y: 0x4000_0000,
        size: HALF,
        fade_speed: 0,
        velocity_x: 0,
        velocity_y: HALF,
    };
    let p = Particle::spawn(&draws, 800 * ONE, 600 * ONE, 2_000, 300_000, "#FFFFFF".to_string());
    assert_eq!((p.x, p.y), (400 * ONE, 150 * ONE));
    assert_eq!(p.size, 3 * ONE);
    assert_eq!(p.opacity, 300_000);
    assert_eq!(p.fade_speed, 1_000);
    assert!(p.active);
    assert_eq!((p.velocity_x, p.velocity_y), (-50_000, 0));
    assert_eq!(p.color, "#FFFFFF");
}

#[test]
fn a_particle_turns_at_one_and_goes_out_below_zero() {
    let mut rng = ReplaySource::new(vec![0, 0, 0, HALF, HALF, HALF]);
    let mut p = Particle::new(ONE, ONE, 400_000, 500_000, "#FFFFFF".to_string(), &mut rng);
    assert_eq!(p.fade_speed, 400_000);
    assert_eq!(p.size, 2 * ONE);
    p.update();
    assert_eq!((p.opacity, p.fade_speed, p.active), (900_000, 400_000, true));
    p.update();
    assert_eq!((p.opacity, p.fade_speed, p.active), (ONE, -400_000, true));
    p.update();
    p.update();
    assert_eq!((p.opacity, p.fade_speed, p.active), (200_000, -400_000, true));
    assert!(p.draw().is_some());
    p.update();
    assert_eq!((p.opacity, p.fade_speed, p.active), (0, -400_000, false));
    assert!(p.draw().is_none());
    p.update();
    assert_eq!((p.opacity, p.fade_speed, p.active), (0, -400_000, false));
}

#[test]
fn deeper_layers_fade_faster() {
    assert_eq!(LAYER_STEP, 200_000);
    let mut rng = ReplaySource::new(vec![HALF]);
    let system = ParticleSystem::new(800, 600, 10_000, 4, 3, &mut rng);
    let layers = system.layers();
    assert_eq!(layers.len(), 4);
    for (index, layer) in layers.iter().enumerate() {
        assert_eq!(layer.len(), 3);
        for p in layer {
            assert_eq!(p.fade_speed, 10_000 + 2_000 * index as i64);
            assert_eq!(p.opacity, 500_000);
            assert_eq!((p.x, p.y), (400 * ONE, 300 * ONE));
            assert_eq!(p.size, 3 * ONE);
            assert!(p.active);
            assert_eq!(p.color, "#FFFFFF");
        }
    }
}

#[test]
fn a_system_may_be_empty() {
    let mut rng = source();
    let mut none = ParticleSystem::new(800, 600, 10_000, 0, 5, &mut rng);
    assert!(none.layers().is_empty());
    assert!(none.update_and_render(&mut rng).is_empty());
    let mut hollow = ParticleSystem::new(800, 600, 10_000, 3, 0, &mut rng);
    assert_eq!(hollow.layers().len(), 3);
    assert!(hollow.update_and_render(&mut rng).is_empty());
}

#[test]
fn a_frame_paints_every_layer_in_turn() {
    let mut rng = source();
    let mut system = ParticleSystem::new(800, 600, 1_000, 2, 3, &mut rng);
    let discs = system.update_and_render(&mut rng);
    assert_eq!(discs.len(), 6);
    let all: Vec<&Particle> = system.layers().iter().flatten().collect();
    for (p, disc) in all.iter().zip(&discs) {
        assert_eq!((disc.x, disc.y, disc.radius, disc.alpha), (p.x, p.y, p.size, p.opacity));
    }
}

#[test]
fn a_particle_that_goes_out_is_replaced_at_the_speed_of_the_system() {
    let mut rng = source();
    let mut system = ParticleSystem::new(800, 600, -3 * ONE, 2, 2, &mut rng);
    let mut rng = ReplaySource::new(vec![HALF]);
    assert!(system.update_and_render(&mut rng).is_empty());
    for p in system.layers().iter().flatten() {
        assert!(p.active);
        assert_eq!(p.opacity, 0);
        assert_eq!(p.fade_speed, -3 * ONE);
        assert_eq!((p.x, p.y), (400 * ONE, 300 * ONE));
        assert_eq!(p.color, "#FFFFFF");
    }
    assert_eq!(rng.next_draw(), HALF);
}

#[test]
fn every_particle_shines_after_a_frame() {
    let mut rng = source();
    let mut system = ParticleSystem::new(800, 600, 200_000, 3, 10, &mut rng);
    let mut replaced = 0;
    for _ in 0..40 {
        let before: Vec<bool> = system
            .layers()
            .iter()
            .flatten()
            .map(|p| {
                let mut moved = p.clone_particle();
                moved.update();
                moved.active
            })
            .collect();
        let discs = system.update_and_render(&mut rng);
        assert_eq!(discs.len(), before.iter().filter(|shown| **shown).count());
        for (shown, p) in before.iter().zip(system.layers().iter().flatten()) {
            assert!(p.active);
            assert!(0 <= p.opacity && p.opacity <= ONE);
            if !shown {
                replaced += 1;
                assert_eq!(p.opacity, 0);
            }
        }
    }
    assert!(replaced > 0);
}
