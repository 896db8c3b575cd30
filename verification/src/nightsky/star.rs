//! The stars of the instanced renderer.
//!
//! A star lives in normalized device coordinates, the square from -1 to 1
//! in both directions. It never dies: its brightness climbs to one, turns,
//! falls to zero, turns again, and at the bottom the star moves to a fresh
//! place.

use vstd::prelude::*;
use crate::fixed::{clamp, clamped, negation, product, sat_add, sat_mul, sat_neg, sum, Vec2, ONE};
use crate::fixed::lemma_product_bounds;
use crate::layout::{attr_array, packed, packed_size, VertexAttribute, VertexBufferLayout, VertexFormat, VertexStepMode};
use crate::utils::{lemma_lerp_bounds, lerp, range_from_draw, RandomSource};

verus! {

/// The largest drift along one axis, per unit of time.
pub const VEL_MOD: i64 = 5_000;

/// The number of bytes of one instance record: ten 32-bit numbers, the
/// fields of a star in their order.
pub const INSTANCE_STRIDE: u64 = 40;

/// The number of base colours.
pub const STAR_COLORS: u32 = 5;

/// The least and the greatest size scale.
pub const MIN_SCALE: i64 = 100_000;

pub const MAX_SCALE: i64 = 4_000_000;

/// A colour, each channel a scalar from zero to one.
#[derive(Clone, Copy, Debug, PartialEq, Eq, Structural)]
pub struct Rgb {
    pub r: i64,
    pub g: i64,
    pub b: i64,
}

/// One star. The fields stand in the order in which an instance record
/// holds them.
#[derive(Clone, Copy, Debug, PartialEq, Eq, Structural)]
pub struct Star {
    /// Where the star is.
    pub position: Vec2,
    /// Its radius.
    pub size: i64,
    /// Its brightness, from zero to one.
    pub brightness: i64,
    /// Its colour.
    pub color: Rgb,
    /// How much brighter it gets per unit of time; negative while it dims.
    pub fade_speed: i64,
    /// Its drift per unit of time.
    pub velocity: Vec2,
}

/// The draws that shape one new star, in the order in which they are taken.
#[derive(Clone, Copy, Debug, PartialEq, Eq, Structural)]
pub struct StarDraws {
    pub palette: u32,
    pub red: u32,
    pub green: u32,
    pub blue: u32,
    pub x: u32,
    pub y: u32,
    pub size: u32,
    pub fade_speed: u32,
    pub velocity_x: u32,
    pub velocity_y: u32,
}

/// The base colours: blue-white, white, yellow-white, light orange and
/// reddish orange.
pub open spec fn base_color(index: int) -> Rgb {
    if index == 0 {
        Rgb { r: 800_000, g: 900_000, b: 1_000_000 }
    } else if index == 1 {
        Rgb { r: 1_000_000, g: 1_000_000, b: 1_000_000 }
    } else if index == 2 {
        Rgb { r: 1_000_000, g: 900_000, b: 800_000 }
    } else if index == 3 {
        Rgb { r: 1_000_000, g: 800_000, b: 600_000 }
    } else {
        Rgb { r: 1_000_000, g: 600_000, b: 400_000 }
    }
}

/// A channel moved by up to a tenth either way, and kept between zero and one.
pub open spec fn varied(channel: int, draw: int) -> int {
    clamped(channel + lerp(draw, -100_000, 100_000), 0, ONE as int)
}

/// The place that two draws select in the square of the display.
pub open spec fn placed(x: int, y: int) -> Vec2 {
    Vec2 { x: lerp(x, -ONE, ONE as int) as i64, y: lerp(y, -ONE, ONE as int) as i64 }
}

/// Whether a point lies in the square of the display.
pub open spec fn in_view(p: Vec2) -> bool {
    -ONE <= p.x < ONE && -ONE <= p.y < ONE
}

/// The size scale that is used for a requested one.
pub open spec fn scale_used(size: int) -> int {
    clamped(size, MIN_SCALE as int, MAX_SCALE as int)
}

/// The brightness that a batch of new stars shares: none for a dim batch,
/// else between a fifth and one, as the draw selects.
pub open spec fn batch_brightness(dim: bool, draw: int) -> int {
    if dim {
        0
    } else {
        lerp(draw, 200_000, ONE as int)
    }
}

/// The star that the draws shape, for a size scale and a brightness.
pub open spec fn spawned(draws: StarDraws, scale: int, brightness: int) -> Star {
    let base = base_color(lerp(draws.palette as int, 0, STAR_COLORS as int));
    Star {
        position: placed(draws.x as int, draws.y as int),
        size: product(lerp(draws.size as int, 1_000, 3_000), scale) as i64,
        brightness: brightness as i64,
        color: Rgb {
            r: varied(base.r as int, draws.red as int) as i64,
            g: varied(base.g as int, draws.green as int) as i64,
            b: varied(base.b as int, draws.blue as int) as i64,
        },
        fade_speed: lerp(draws.fade_speed as int, 80_000, 300_000) as i64,
        velocity: Vec2 {
            x: product(lerp(draws.velocity_x as int, -ONE, ONE as int), VEL_MOD as int) as i64,
            y: product(lerp(draws.velocity_y as int, -ONE, ONE as int), VEL_MOD as int) as i64,
        },
    }
}

/// The attributes that the vertex shader reads from an instance record:
/// position, size, brightness and colour, under the locations 1 to 4. The
/// fade speed and the drift follow them in the record and are not read.
pub open spec fn instance_entries() -> Seq<(u32, VertexFormat)> {
    seq![
        (1u32, VertexFormat::Float32x2),
        (2u32, VertexFormat::Float32),
        (3u32, VertexFormat::Float32),
        (4u32, VertexFormat::Float32x3),
    ]
}

/// The fields of an instance record in their order, each with the location
/// that it has or would have: position, size, brightness, colour, fade speed
/// and drift.
pub open spec fn record_entries() -> Seq<(u32, VertexFormat)> {
    seq![
        (1u32, VertexFormat::Float32x2),
        (2u32, VertexFormat::Float32),
        (3u32, VertexFormat::Float32),
        (4u32, VertexFormat::Float32x3),
        (5u32, VertexFormat::Float32),
        (6u32, VertexFormat::Float32x2),
    ]
}

/// The fields of an instance record fill it exactly, and the attributes
/// that the vertex shader reads are the first four of them, each where the
/// field lies.
pub proof fn lemma_instance_record()
    ensures
        packed_size(record_entries()) == INSTANCE_STRIDE,
        record_entries().take(4) == instance_entries(),
        packed(record_entries()).take(4) == packed(instance_entries()),
{
    reveal_with_fuel(packed, 7);
    reveal_with_fuel(packed_size, 7);
}

/// Whether a star is one that some draws shape, for a size scale and a
/// brightness.
pub open spec fn is_spawn(star: Star, scale: int, brightness: int) -> bool {
    exists|draws: StarDraws| star == spawned(draws, scale, brightness)
}

/// Whether every star of a batch is one that some draws shape, for one
/// size scale and one brightness.
pub open spec fn is_batch(stars: Seq<Star>, scale: int, brightness: int) -> bool {
    forall|i: int| 0 <= i < stars.len() ==> is_spawn(#[trigger] stars[i], scale, brightness)
}

impl Star {
    /// The brightness after `delta_time`, before it is held between zero and one.
    pub open spec fn faded(self, delta_time: int) -> int {
        sum(self.brightness as int, product(self.fade_speed as int, delta_time))
    }

    /// Whether the star reaches full brightness within `delta_time`.
    pub open spec fn peaks(self, delta_time: int) -> bool {
        self.faded(delta_time) >= ONE
    }

    /// Whether the star goes dark within `delta_time`.
    pub open spec fn fades_out(self, delta_time: int) -> bool {
        self.faded(delta_time) <= 0
    }

    /// The star after `delta_time`. `fresh` is the place it jumps to if it
    /// goes dark.
    pub open spec fn updated(self, delta_time: int, fresh: Vec2) -> Star {
        let turns = self.peaks(delta_time) || self.fades_out(delta_time);
        let from = if self.fades_out(delta_time) {
            fresh
        } else {
            self.position
        };
        Star {
            position: Vec2 {
                x: sum(from.x as int, product(self.velocity.x as int, delta_time)) as i64,
                y: sum(from.y as int, product(self.velocity.y as int, delta_time)) as i64,
            },
            size: self.size,
            brightness: clamped(self.faded(delta_time), 0, ONE as int) as i64,
            color: self.color,
            fade_speed: if turns {
                negation(self.fade_speed as int) as i64
            } else {
                self.fade_speed
            },
            velocity: self.velocity,
        }
    }

    /// Whether the brightness lies between zero and one.
    pub open spec fn lit(self) -> bool {
        0 <= self.brightness <= ONE
    }

    /// A star from its parts.
    pub fn new(
        x: i64,
        y: i64,
        size: i64,
        brightness: i64,
        fade_speed: i64,
        x_vel: i64,
        y_vel: i64,
        color: Rgb,
    ) -> (star: Star)
        ensures
            star == (Star {
                position: Vec2 { x, y },
                size,
                brightness,
                color,
                fade_speed,
                velocity: Vec2 { x: x_vel, y: y_vel },
            }),
    {
        Star {
            position: Vec2 { x, y },
            size,
            brightness,
            color,
            fade_speed,
            velocity: Vec2 { x: x_vel, y: y_vel },
        }
    }

    /// The star that the draws shape. `scale` multiplies its size as it is.
    pub fn spawn(draws: &StarDraws, scale: i64, brightness: i64) -> (star: Star)
        ensures
            star == spawned(*draws, scale as int, brightness as int),
    {
        let base = palette(range_from_draw(draws.palette, 0, 5));
        let color = Rgb {
            r: color_variation(base.r, draws.red),
            g: color_variation(base.g, draws.green),
            b: color_variation(base.b, draws.blue),
        };
        Star::new(
            range_from_draw(draws.x, -ONE, ONE),
            range_from_draw(draws.y, -ONE, ONE),
            sat_mul(range_from_draw(draws.size, 1_000, 3_000), scale),
            brightness,
            range_from_draw(draws.fade_speed, 80_000, 300_000),
            sat_mul(range_from_draw(draws.velocity_x, -ONE, ONE), VEL_MOD),
            sat_mul(range_from_draw(draws.velocity_y, -ONE, ONE), VEL_MOD),
            color,
        )
    }

    /// Makes `count` stars. The size scale is held between 0.1 and 4. A dim
    /// batch starts dark, so that stars added to a running sky fade in; any
    /// other batch shares one drawn brightness.
    pub fn generate<R: RandomSource>(count: usize, size: i64, dim: bool, rng: &mut R) -> (stars:
        Vec<Star>)
        ensures
            stars@.len() == count,
            exists|draw: u32|
                is_batch(
                    stars@,
                    scale_used(size as int),
                    #[trigger] batch_brightness(dim, draw as int),
                ),
            dim ==> forall|i: int| 0 <= i < count ==> (#[trigger] stars@[i]).brightness == 0,
            !dim ==> forall|i: int|
                0 <= i < count ==> 200_000 <= (#[trigger] stars@[i]).brightness < ONE,
    {
        let scale = clamp(size, MIN_SCALE, MAX_SCALE);
        let first: u32 = if dim {
            0
        } else {
            rng.next_draw()
        };
        let brightness = if dim {
            0
        } else {
            range_from_draw(first, 200_000, ONE)
        };
        proof {
            lemma_lerp_bounds(first as int, 200_000, ONE as int);
        }
        let mut stars: Vec<Star> = Vec::new();
        while stars.len() < count
            invariant
                stars@.len() <= count,
                scale == scale_used(size as int),
                brightness == batch_brightness(dim, first as int),
                forall|i: int|
                    0 <= i < stars@.len() ==> is_spawn(
                        #[trigger] stars@[i],
                        scale as int,
                        brightness as int,
                    ),
                forall|i: int|
                    0 <= i < stars@.len() ==> (#[trigger] stars@[i]).brightness == brightness,
                dim ==> brightness == 0,
                !dim ==> 200_000 <= brightness < ONE,
            decreases count - stars@.len(),
        {
            let draws = take_draws(rng);
            let star = Star::spawn(&draws, scale, brightness);
            stars.push(star);
        }
        stars
    }

    /// The layout of the instance buffer: one record per star, and in it
    /// the position at byte 0, the size at 8, the brightness at 12 and the
    /// colour at 16.
    pub fn desc() -> (layout: VertexBufferLayout)
        ensures
            layout@.array_stride == INSTANCE_STRIDE,
            layout@.step_mode == VertexStepMode::Instance,
            layout@.attributes == packed(instance_entries()),
            layout@.attributes == seq![
                VertexAttribute { format: VertexFormat::Float32x2, offset: 0, shader_location: 1 },
                VertexAttribute { format: VertexFormat::Float32, offset: 8, shader_location: 2 },
                VertexAttribute { format: VertexFormat::Float32, offset: 12, shader_location: 3 },
                VertexAttribute { format: VertexFormat::Float32x3, offset: 16, shader_location: 4 },
            ],
            layout@.well_formed(),
    {
        let entries = vec![
            (1u32, VertexFormat::Float32x2),
            (2u32, VertexFormat::Float32),
            (3u32, VertexFormat::Float32),
            (4u32, VertexFormat::Float32x3),
        ];
        proof {
            reveal_with_fuel(packed, 5);
            reveal_with_fuel(packed_size, 5);
        }
        let attributes = attr_array(entries.as_slice());
        VertexBufferLayout {
            array_stride: INSTANCE_STRIDE,
            step_mode: VertexStepMode::Instance,
            attributes,
        }
    }

    /// Whether the star goes dark within `delta_time`.
    pub fn goes_dark(&self, delta_time: i64) -> (dark: bool)
        ensures
            dark == self.fades_out(delta_time as int),
    {
        sat_add(self.brightness, sat_mul(self.fade_speed, delta_time)) <= 0
    }

    /// The place that two draws select in the square of the display.
    pub fn place(x: u32, y: u32) -> (place: Vec2)
        ensures
            place == placed(x as int, y as int),
            in_view(place),
    {
        proof {
            lemma_lerp_bounds(x as int, -ONE as int, ONE as int);
            lemma_lerp_bounds(y as int, -ONE as int, ONE as int);
        }
        Vec2 { x: range_from_draw(x, -ONE, ONE), y: range_from_draw(y, -ONE, ONE) }
    }

    /// Lets `delta_time` pass: the star drifts and its brightness moves by
    /// its fade speed. At full brightness it starts to dim; at zero it
    /// starts to brighten again and jumps to `fresh`, from where it drifts.
    pub fn step(&mut self, delta_time: i64, fresh: Vec2)
        ensures
            *final(self) == old(self).updated(delta_time as int, fresh),
            final(self).lit(),
    {
        let faded = sat_add(self.brightness, sat_mul(self.fade_speed, delta_time));
        if faded >= ONE {
            self.brightness = ONE;
            self.fade_speed = sat_neg(self.fade_speed);
        } else if faded <= 0 {
            self.brightness = 0;
            self.fade_speed = sat_neg(self.fade_speed);
            self.position = fresh;
        } else {
            self.brightness = faded;
        }
        self.position.x = sat_add(self.position.x, sat_mul(self.velocity.x, delta_time));
        self.position.y = sat_add(self.position.y, sat_mul(self.velocity.y, delta_time));
    }

    /// Lets `delta_time` pass, as `step` does. The place that a star jumps
    /// to when it goes dark is drawn, and nothing is drawn for a star that
    /// stays alight.
    pub fn update<R: RandomSource>(&mut self, delta_time: i64, rng: &mut R)
        ensures
            exists|x: u32, y: u32|
                *final(self) == old(self).updated(
                    delta_time as int,
                    #[trigger] placed(x as int, y as int),
                ),
            !old(self).fades_out(delta_time as int) ==> *final(self) == old(self).updated(
                delta_time as int,
                old(self).position,
            ),
            final(self).lit(),
    {
        if self.goes_dark(delta_time) {
            let x = rng.next_draw();
            let y = rng.next_draw();
            self.step(delta_time, Star::place(x, y));
        } else {
            self.step(delta_time, self.position);
            assert(*self == old(self).updated(delta_time as int, placed(0, 0)));
        }
    }
}

/// The star after a run of updates, each with its time step and the place
/// to jump to if the star goes dark in it.
pub open spec fn after(star: Star, frames: Seq<(int, Vec2)>) -> Star
    decreases frames.len(),
{
    if frames.len() == 0 {
        star
    } else {
        after(star, frames.drop_last()).updated(frames.last().0, frames.last().1)
    }
}

/// However many updates a star goes through, and whatever their time steps,
/// its brightness stays between zero and one: from the first update on in
/// any case, and from the start where it began there.
pub proof fn lemma_brightness_stays_in_range(star: Star, frames: Seq<(int, Vec2)>)
    requires
        star.lit() || frames.len() > 0,
    ensures
        after(star, frames).lit(),
{
}

/// The fade speed is negated in exactly those updates in which the
/// brightness reaches zero or one, and is left alone in all others. Where it
/// is not zero, its sign therefore changes at the two bounds and nowhere else.
pub proof fn lemma_fade_turns_only_at_bounds(star: Star, delta_time: int, fresh: Vec2)
    ensures
        ({
            let next = star.updated(delta_time, fresh);
            let at_bound = star.faded(delta_time) <= 0 || star.faded(delta_time) >= ONE;
            &&& at_bound ==> next.fade_speed == negation(star.fade_speed as int)
            &&& at_bound ==> (next.brightness == 0 || next.brightness == ONE)
            &&& !at_bound ==> next.fade_speed == star.fade_speed
            &&& !at_bound ==> 0 < next.brightness < ONE
            &&& star.fade_speed != 0 ==> (at_bound <==> (next.fade_speed > 0) != (star.fade_speed
                > 0))
        }),
{
}

/// What holds of every new star, whatever was drawn: it lies in the square
/// of the display, its channels lie between zero and one, it brightens by
/// 0.08 to 0.3 per unit of time, and it drifts by at most `VEL_MOD`.
pub proof fn lemma_spawned_ranges(draws: StarDraws, scale: int, brightness: int)
    ensures
        ({
            let star = spawned(draws, scale, brightness);
            &&& in_view(star.position)
            &&& 0 <= star.color.r <= ONE
            &&& 0 <= star.color.g <= ONE
            &&& 0 <= star.color.b <= ONE
            &&& 80_000 <= star.fade_speed < 300_000
            &&& -VEL_MOD <= star.velocity.x <= VEL_MOD
            &&& -VEL_MOD <= star.velocity.y <= VEL_MOD
        }),
{
    lemma_lerp_bounds(draws.x as int, -ONE as int, ONE as int);
    lemma_lerp_bounds(draws.y as int, -ONE as int, ONE as int);
    lemma_lerp_bounds(draws.fade_speed as int, 80_000, 300_000);
    lemma_drift_bounds(draws.velocity_x as int);
    lemma_drift_bounds(draws.velocity_y as int);
}

/// A drift along one axis is at most `VEL_MOD` either way.
proof fn lemma_drift_bounds(draw: int)
    requires
        0 <= draw < crate::utils::DRAW_SPAN,
    ensures
        -VEL_MOD <= product(lerp(draw, -ONE, ONE as int), VEL_MOD as int) <= VEL_MOD,
{
    lemma_lerp_bounds(draw, -ONE as int, ONE as int);
}

/// The radius of a new star is a thousandth to three thousandths of the
/// size scale in use, so it lies between 0.0001 and 0.012 for every size
/// that is asked for. A size between 0.1 and 4 is used as it is.
pub proof fn lemma_spawned_size(draws: StarDraws, size: int, brightness: int)
    ensures
        ({
            let scale = scale_used(size);
            let star = spawned(draws, scale, brightness);
            &&& MIN_SCALE <= size <= MAX_SCALE ==> scale == size
            &&& scale / 1_000 <= star.size <= 3 * scale / 1_000
            &&& 100 <= star.size <= 12_000
        }),
{
    let scale = scale_used(size);
    let unit = lerp(draws.size as int, 1_000, 3_000);
    lemma_lerp_bounds(draws.size as int, 1_000, 3_000);
    lemma_product_bounds(unit, scale, 1_000, 3_000, scale, scale);
    lemma_product_bounds(unit, scale, 1_000, 3_000, MIN_SCALE as int, MAX_SCALE as int);
}

/// The base colour with the given index; the last one for any index past it.
fn palette(index: i64) -> (color: Rgb)
    ensures
        color == base_color(index as int),
{
    if index == 0 {
        Rgb { r: 800_000, g: 900_000, b: 1_000_000 }
    } else if index == 1 {
        Rgb { r: 1_000_000, g: 1_000_000, b: 1_000_000 }
    } else if index == 2 {
        Rgb { r: 1_000_000, g: 900_000, b: 800_000 }
    } else if index == 3 {
        Rgb { r: 1_000_000, g: 800_000, b: 600_000 }
    } else {
        Rgb { r: 1_000_000, g: 600_000, b: 400_000 }
    }
}

/// Moves a channel by up to a tenth and keeps it between zero and one.
fn color_variation(channel: i64, draw: u32) -> (r: i64)
    requires
        0 <= channel <= ONE,
    ensures
        r == varied(channel as int, draw as int),
{
    proof {
        lemma_lerp_bounds(draw as int, -100_000, 100_000);
    }
    clamp(channel + range_from_draw(draw, -100_000, 100_000), 0, ONE)
}

/// Takes the draws for one star.
fn take_draws<R: RandomSource>(rng: &mut R) -> StarDraws {
    let palette = rng.next_draw();
    let red = rng.next_draw();
    let green = rng.next_draw();
    let blue = rng.next_draw();
    let x = rng.next_draw();
    let y = rng.next_draw();
    let size = rng.next_draw();
    let fade_speed = rng.next_draw();
    let velocity_x = rng.next_draw();
    let velocity_y = rng.next_draw();
    StarDraws { palette, red, green, blue, x, y, size, fade_speed, velocity_x, velocity_y }
}

} // verus!
