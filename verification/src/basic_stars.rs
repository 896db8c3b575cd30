//! Particles in layers: a canvas of stars whose deeper layers fade faster.

use vstd::prelude::*;
use crate::fixed::{clamp, clamped, negation, product, sat_add, sat_mul, sat_neg, sum, ONE};
use crate::star_render::Disc;
use crate::utils::{lemma_lerp_bounds, lerp, range_from_draw, RandomSource};

verus! {

/// How much faster each layer fades than the one before it: a fifth of the
/// fade speed of the system.
pub const LAYER_STEP: i64 = 200_000;

/// One particle.
#[derive(Clone, Debug)]
pub struct Particle {
    /// The centre, in pixels.
    pub x: i64,
    pub y: i64,
    /// The radius, in pixels.
    pub size: i64,
    /// The opacity, from zero to one.
    pub opacity: i64,
    /// How much more opaque it gets per frame; negative while it fades.
    pub fade_speed: i64,
    /// Whether it still shines.
    pub active: bool,
    /// The fill style.
    pub color: String,
    /// Its drift per frame, in pixels.
    pub velocity_x: i64,
    pub velocity_y: i64,
}

/// The draws that shape one new particle, in the order in which they are
/// taken.
#[derive(Clone, Copy, Debug, PartialEq, Eq, Structural)]
pub struct ParticleDraws {
    pub x: u32,
    pub y: u32,
    pub size: u32,
    pub fade_speed: u32,
    pub velocity_x: u32,
    pub velocity_y: u32,
}

/// The particle that the draws shape on a canvas of `width` by `height`:
/// at a drawn place, two to four pixels in radius, fading by half to one and
/// a half times `fade_speed`, and drifting by up to a twentieth of a pixel.
pub open spec fn spawned(
    draws: ParticleDraws,
    width: int,
    height: int,
    fade_speed: int,
    opacity: int,
    color: String,
) -> Particle {
    Particle {
        x: lerp(draws.x as int, 0, width) as i64,
        y: lerp(draws.y as int, 0, height) as i64,
        size: lerp(draws.size as int, 2 * ONE, 4 * ONE) as i64,
        opacity: opacity as i64,
        fade_speed: crate::basic::star::fade_drawn(fade_speed, draws.fade_speed as int) as i64,
        active: true,
        color,
        velocity_x: lerp(draws.velocity_x as int, -50_000, 50_000) as i64,
        velocity_y: lerp(draws.velocity_y as int, -50_000, 50_000) as i64,
    }
}

/// Whether a particle is one that some draws shape, with the opacity and the
/// colour that it has.
pub open spec fn is_spawn(particle: Particle, width: int, height: int, fade_speed: int) -> bool {
    exists|draws: ParticleDraws|
        particle == spawned(
            draws,
            width,
            height,
            fade_speed,
            particle.opacity as int,
            particle.color,
        )
}

/// The disc that shows a particle.
pub open spec fn disc_of(particle: Particle) -> Disc {
    Disc {
        x: particle.x,
        y: particle.y,
        radius: particle.size,
        alpha: particle.opacity,
        color: particle.color,
    }
}

/// The fade speed of the layer with the given index.
pub open spec fn layer_fade(fade_speed: int, layer: int) -> int {
    product(fade_speed, ONE + layer * LAYER_STEP)
}

impl Particle {
    /// The opacity after one frame, before it is held between zero and one.
    pub open spec fn faded(self) -> int {
        sum(self.opacity as int, self.fade_speed as int)
    }

    /// The particle after one frame. A particle that is out stays as it is.
    pub open spec fn updated(self) -> Particle {
        if !self.active {
            self
        } else {
            Particle {
                x: sum(self.x as int, self.velocity_x as int) as i64,
                y: sum(self.y as int, self.velocity_y as int) as i64,
                size: self.size,
                opacity: clamped(self.faded(), 0, ONE as int) as i64,
                fade_speed: if self.faded() > ONE {
                    negation(self.fade_speed as int) as i64
                } else {
                    self.fade_speed
                },
                active: self.faded() >= 0,
                color: self.color,
                velocity_x: self.velocity_x,
                velocity_y: self.velocity_y,
            }
        }
    }

    /// Whether the opacity lies between zero and one.
    pub open spec fn lit(self) -> bool {
        0 <= self.opacity <= ONE
    }

    /// The particle that the draws shape on a canvas of `width` by `height`
    /// pixels, both as scalars.
    pub fn spawn(
        draws: &ParticleDraws,
        width: i64,
        height: i64,
        fade_speed: i64,
        opacity: i64,
        color: String,
    ) -> (particle: Particle)
        ensures
            particle == spawned(
                *draws,
                width as int,
                height as int,
                fade_speed as int,
                opacity as int,
                color,
            ),
    {
        proof {
            lemma_lerp_bounds(draws.size as int, 2 * ONE, 4 * ONE);
        }
        Particle {
            x: range_from_draw(draws.x, 0, width),
            y: range_from_draw(draws.y, 0, height),
            size: range_from_draw(draws.size, 2 * ONE, 4 * ONE),
            opacity,
            fade_speed: crate::basic::star::fade_from_draw(fade_speed, draws.fade_speed),
            active: true,
            color,
            velocity_x: range_from_draw(draws.velocity_x, -50_000, 50_000),
            velocity_y: range_from_draw(draws.velocity_y, -50_000, 50_000),
        }
    }

    /// A new particle at a drawn place of a canvas of `width` by `height`.
    pub fn new<R: RandomSource>(
        width: i64,
        height: i64,
        fade_speed: i64,
        opacity: i64,
        color: String,
        rng: &mut R,
    ) -> (particle: Particle)
        ensures
            is_spawn(particle, width as int, height as int, fade_speed as int),
            particle.opacity == opacity,
            particle.color == color,
            particle.active,
    {
        let x = rng.next_draw();
        let y = rng.next_draw();
        let size = rng.next_draw();
        let fade = rng.next_draw();
        let velocity_x = rng.next_draw();
        let velocity_y = rng.next_draw();
        let draws = ParticleDraws { x, y, size, fade_speed: fade, velocity_x, velocity_y };
        let particle = Particle::spawn(&draws, width, height, fade_speed, opacity, color);
        assert(particle == spawned(
            draws,
            width as int,
            height as int,
            fade_speed as int,
            particle.opacity as int,
            particle.color,
        ));
        particle
    }

    /// Lets one frame pass: the particle drifts and its opacity moves by its
    /// fade speed. Past one the opacity is held at one and the particle
    /// starts to fade; below zero it is held at zero and the particle goes
    /// out.
    pub fn update(&mut self)
        ensures
            *final(self) == old(self).updated(),
    {
        if !self.active {
            return ;
        }
        self.x = sat_add(self.x, self.velocity_x);
        self.y = sat_add(self.y, self.velocity_y);
        let faded = sat_add(self.opacity, self.fade_speed);
        self.opacity = clamp(faded, 0, ONE);
        if faded > ONE {
            self.fade_speed = sat_neg(self.fade_speed);
        } else if faded < 0 {
            self.active = false;
        }
    }

    /// The disc to fill for this particle, if it still shines.
    pub fn draw(&self) -> (disc: Option<Disc>)
        ensures
            disc == if self.active {
                Some(disc_of(*self))
            } else {
                None
            },
    {
        if !self.active {
            return None;
        }
        Some(
            Disc {
                x: self.x,
                y: self.y,
                radius: self.size,
                alpha: self.opacity,
                color: self.color.clone(),
            },
        )
    }
}

/// Whether a particle is painted in a frame: it shines before the frame and
/// still does after it.
pub open spec fn shows(particle: Particle) -> bool {
    particle.active && particle.updated().active
}

/// The discs of a frame for the particles of one layer, as they are before
/// it.
pub open spec fn discs_of(layer: Seq<Particle>) -> Seq<Disc>
    decreases layer.len(),
{
    if layer.len() == 0 {
        Seq::empty()
    } else if shows(layer.last()) {
        discs_of(layer.drop_last()).push(disc_of(layer.last().updated()))
    } else {
        discs_of(layer.drop_last())
    }
}

/// The discs of a frame for all layers, the first layer first.
pub open spec fn discs_of_layers(layers: Seq<Seq<Particle>>) -> Seq<Disc>
    decreases layers.len(),
{
    if layers.len() == 0 {
        Seq::empty()
    } else {
        discs_of_layers(layers.drop_last()) + discs_of(layers.last())
    }
}

/// Whether `after` is what a frame makes of the layer `before`, on a canvas
/// of `width` by `height` and with `fade_speed` for the particles that take
/// the place of others. Every particle shines in it. A particle that shone
/// through the frame has moved on. A particle that was out, or went out in
/// the frame, has been replaced in its place by a new one of its colour at
/// no opacity.
pub open spec fn layer_advanced(
    before: Seq<Particle>,
    after: Seq<Particle>,
    width: int,
    height: int,
    fade_speed: int,
) -> bool {
    &&& after.len() == before.len()
    &&& forall|i: int| 0 <= i < after.len() ==> (#[trigger] after[i]).active
    &&& forall|i: int| 0 <= i < after.len() ==> (#[trigger] after[i]).lit()
    &&& forall|i: int|
        0 <= i < before.len() && shows(#[trigger] before[i]) ==> after[i] == before[i].updated()
    &&& forall|i: int|
        0 <= i < before.len() && !shows(#[trigger] before[i]) ==> {
            let particle = after[i];
            &&& is_spawn(particle, width, height, fade_speed)
            &&& particle.active
            &&& particle.opacity == 0
            &&& particle.color == before[i].color
        }
}

/// The layers of particles of a canvas.
pub struct ParticleSystem {
    layers: Vec<Vec<Particle>>,
    width: u32,
    height: u32,
    fade_speed: i64,
}

/// A particle system as a value.
pub struct ParticleSystemView {
    /// The layers, each with its particles in their order.
    pub layers: Seq<Seq<Particle>>,
    /// The size of the canvas, in pixels.
    pub width: u32,
    pub height: u32,
    /// The fade speed of the first layer, and of every particle that takes
    /// the place of one that is out.
    pub fade_speed: i64,
}

impl View for ParticleSystem {
    type V = ParticleSystemView;

    closed spec fn view(&self) -> ParticleSystemView {
        ParticleSystemView {
            layers: Seq::new(self.layers@.len(), |i: int| self.layers@[i]@),
            width: self.width,
            height: self.height,
            fade_speed: self.fade_speed,
        }
    }
}

/// A length in pixels as a scalar.
pub open spec fn pixels(length: u32) -> int {
    length * ONE
}

impl ParticleSystem {
    /// A system of `layer_count` layers of `particles_per_layer` white
    /// particles each, at drawn opacities below one. Each layer fades a
    /// fifth of `fade_speed` faster than the one before it.
    pub fn new<R: RandomSource>(
        width: u32,
        height: u32,
        fade_speed: i64,
        layer_count: u32,
        particles_per_layer: u32,
        rng: &mut R,
    ) -> (system: ParticleSystem)
        ensures
            system@.width == width,
            system@.height == height,
            system@.fade_speed == fade_speed,
            system@.layers.len() == layer_count,
            forall|l: int|
                0 <= l < layer_count ==> (#[trigger] system@.layers[l]).len()
                    == particles_per_layer,
            forall|l: int, i: int|
                0 <= l < layer_count && 0 <= i < particles_per_layer ==> {
                    let particle = #[trigger] system@.layers[l][i];
                    &&& is_spawn(
                        particle,
                        pixels(width),
                        pixels(height),
                        layer_fade(fade_speed as int, l),
                    )
                    &&& particle.active
                    &&& 0 <= particle.opacity < ONE
                    &&& particle.color@ == "#FFFFFF"@
                },
    {
        let mut layers: Vec<Vec<Particle>> = Vec::new();
        let mut layer_index: u32 = 0;
        while layer_index < layer_count
            invariant
                layer_index <= layer_count,
                layers@.len() == layer_index,
                forall|l: int|
                    0 <= l < layer_index ==> (#[trigger] layers@[l])@.len() == particles_per_layer,
                forall|l: int, i: int|
                    0 <= l < layer_index && 0 <= i < particles_per_layer ==> {
                        let particle = #[trigger] layers@[l]@[i];
                        &&& is_spawn(
                            particle,
                            pixels(width),
                            pixels(height),
                            layer_fade(fade_speed as int, l),
                        )
                        &&& particle.active
                        &&& 0 <= particle.opacity < ONE
                        &&& particle.color@ == "#FFFFFF"@
                    },
            decreases layer_count - layer_index,
        {
            let fade = sat_mul(fade_speed, ONE + layer_index as i64 * LAYER_STEP);
            let mut layer: Vec<Particle> = Vec::new();
            let mut made: u32 = 0;
            while made < particles_per_layer
                invariant
                    made <= particles_per_layer,
                    layer@.len() == made,
                    fade == layer_fade(fade_speed as int, layer_index as int),
                    forall|i: int|
                        0 <= i < made ==> {
                            let particle = #[trigger] layer@[i];
                            &&& is_spawn(particle, pixels(width), pixels(height), fade as int)
                            &&& particle.active
                            &&& 0 <= particle.opacity < ONE
                            &&& particle.color@ == "#FFFFFF"@
                        },
                decreases particles_per_layer - made,
            {
                let draw = rng.next_draw();
                proof {
                    lemma_lerp_bounds(draw as int, 0, ONE as int);
                }
                let particle = Particle::new(
                    width as i64 * ONE,
                    height as i64 * ONE,
                    fade,
                    range_from_draw(draw, 0, ONE),
                    "#FFFFFF".to_owned(),
                    rng,
                );
                layer.push(particle);
                made += 1;
            }
            layers.push(layer);
            layer_index += 1;
        }
        ParticleSystem { layers, width, height, fade_speed }
    }

    /// The layers.
    pub fn layers(&self) -> (layers: &Vec<Vec<Particle>>)
        ensures
            layers@.len() == self@.layers.len(),
            forall|l: int| 0 <= l < layers@.len() ==> (#[trigger] layers@[l])@ == self@.layers[l],
    {
        &self.layers
    }

    /// Lets one frame pass and gives the discs to fill on the cleared
    /// canvas, layer by layer. A particle that shines is moved on and, if it
    /// still shines then, painted. A particle that is out, or goes out in
    /// this frame, is replaced by a new one of its colour that starts at no
    /// opacity and fades at the speed of the system. So every particle
    /// shines afterwards.
    pub fn update_and_render<R: RandomSource>(&mut self, rng: &mut R) -> (discs: Vec<Disc>)
        ensures
            final(self)@.width == old(self)@.width,
            final(self)@.height == old(self)@.height,
            final(self)@.fade_speed == old(self)@.fade_speed,
            final(self)@.layers.len() == old(self)@.layers.len(),
            forall|l: int|
                0 <= l < old(self)@.layers.len() ==> layer_advanced(
                    old(self)@.layers[l],
                    #[trigger] final(self)@.layers[l],
                    pixels(old(self)@.width),
                    pixels(old(self)@.height),
                    old(self)@.fade_speed as int,
                ),
            discs@ == discs_of_layers(old(self)@.layers),
    {
        let mut discs: Vec<Disc> = Vec::new();
        let width = self.width as i64 * ONE;
        let height = self.height as i64 * ONE;
        let mut l: usize = 0;
        while l < self.layers.len()
            invariant
                l <= self@.layers.len(),
                width == pixels(self.width),
                height == pixels(self.height),
                self@.width == old(self)@.width,
                self@.height == old(self)@.height,
                self@.fade_speed == old(self)@.fade_speed,
                self@.layers.len() == old(self)@.layers.len(),
                forall|k: int| l <= k < self@.layers.len() ==> self@.layers[k] == old(self)@.layers[k],
                forall|k: int|
                    0 <= k < l ==> layer_advanced(
                        old(self)@.layers[k],
                        #[trigger] self@.layers[k],
                        width as int,
                        height as int,
                        self.fade_speed as int,
                    ),
                discs@ == discs_of_layers(old(self)@.layers.take(l as int)),
            decreases self@.layers.len() - l,
        {
            proof {
                let before = old(self)@.layers;
                assert(before.take(l + 1).drop_last() == before.take(l as int));
            }
            let ghost all = self@.layers;
            let layer = advance_layer(
                &self.layers[l],
                width,
                height,
                self.fade_speed,
                &mut discs,
                rng,
            );
            self.layers.set(l, layer);
            proof {
                assert forall|k: int| 0 <= k < l implies layer_advanced(
                    old(self)@.layers[k],
                    #[trigger] self@.layers[k],
                    width as int,
                    height as int,
                    self.fade_speed as int,
                ) by {
                    assert(self@.layers[k] == all[k]);
                }
            }
            l += 1;
        }
        assert(old(self)@.layers.take(l as int) == old(self)@.layers);
        discs
    }
}

/// Lets one frame pass for the particles of a layer: gives the layer after
/// it, and appends its discs.
fn advance_layer<R: RandomSource>(
    layer: &Vec<Particle>,
    width: i64,
    height: i64,
    fade_speed: i64,
    discs: &mut Vec<Disc>,
    rng: &mut R,
) -> (after: Vec<Particle>)
    ensures
        layer_advanced(layer@, after@, width as int, height as int, fade_speed as int),
        final(discs)@ == old(discs)@ + discs_of(layer@),
{
    let mut after: Vec<Particle> = Vec::new();
    let mut i: usize = 0;
    while i < layer.len()
        invariant
            i <= layer@.len(),
            layer_advanced(layer@.take(i as int), after@, width as int, height as int, fade_speed as int),
            discs@ == old(discs)@ + discs_of(layer@.take(i as int)),
        decreases layer@.len() - i,
    {
        proof {
            assert(layer@.take(i + 1).drop_last() == layer@.take(i as int));
        }
        let mut particle = layer[i].clone_particle();
        particle.update();
        match particle.draw() {
            Some(disc) => {
                discs.push(disc);
                after.push(particle);
            },
            None => {
                let fresh = Particle::new(width, height, fade_speed, 0, particle.color, rng);
                after.push(fresh);
            },
        }
        proof {
            let before = layer@.take(i + 1);
            assert forall|k: int| 0 <= k < before.len() && !shows(#[trigger] before[k]) implies {
                let particle = after@[k];
                &&& is_spawn(particle, width as int, height as int, fade_speed as int)
                &&& particle.active
                &&& particle.opacity == 0
                &&& particle.color == before[k].color
            } by {}
        }
        i += 1;
    }
    assert(layer@.take(i as int) == layer@);
    after
}

impl Particle {
    /// A copy of the particle.
    pub fn clone_particle(&self) -> (particle: Particle)
        ensures
            particle == *self,
    {
        Particle {
            x: self.x,
            y: self.y,
            size: self.size,
            opacity: self.opacity,
            fade_speed: self.fade_speed,
            active: self.active,
            color: self.color.clone(),
            velocity_x: self.velocity_x,
            velocity_y: self.velocity_y,
        }
    }
}

} // verus!
