//! The stars of the canvas renderer.
//!
//! A star lives in pixel space and moves once per frame. Its opacity climbs
//! to one, turns, and falls; when it falls below zero the star goes out and
//! stays out until its sky replaces it.

use vstd::prelude::*;
use crate::fixed::{clamp, clamped, negation, product, sat_add, sat_mul, sat_neg, sum, trunc_div, ONE};
use crate::nightsky::star::{scale_used, MAX_SCALE, MIN_SCALE};
use crate::star_render::Disc;
use crate::utils::{lerp, range_from_draw, RandomSource};

verus! {

/// One star of the canvas renderer.
#[derive(Clone, Debug)]
pub struct BasicStar {
    /// The centre, in pixels.
    pub x: i64,
    pub y: i64,
    /// The radius, in pixels.
    pub size: i64,
    /// The opacity, from zero to one.
    pub opacity: i64,
    /// How much more opaque it gets per frame; negative while it fades.
    pub fade_speed: i64,
    /// Whether it still shines.
    pub active: bool,
    /// The fill style.
    pub color: String,
    /// Its drift per frame, in pixels.
    pub velocity_x: i64,
    pub velocity_y: i64,
}

/// The draws that shape one new star, in the order in which they are taken.
#[derive(Clone, Copy, Debug, PartialEq, Eq, Structural)]
pub struct BasicDraws {
    pub x: u32,
    pub y: u32,
    pub size: u32,
    pub fade_speed: u32,
    pub velocity_x: u32,
    pub velocity_y: u32,
}

/// Half of a scalar, rounded toward zero.
pub open spec fn halved(a: int) -> int {
    trunc_div(a, 2)
}

/// The fade speed of a new star: from half of the sky's to one and a half
/// times as much, as the draw selects.
pub open spec fn fade_drawn(fade_speed: int, draw: int) -> int {
    sum(halved(fade_speed), lerp(draw, 0, fade_speed))
}

/// The star that the draws shape on a canvas of `width` by `height`.
pub open spec fn spawned(
    draws: BasicDraws,
    width: int,
    height: int,
    fade_speed: int,
    opacity: int,
    color: String,
    size: int,
) -> BasicStar {
    BasicStar {
        x: lerp(draws.x as int, 0, width) as i64,
        y: lerp(draws.y as int, 0, height) as i64,
        size: product(lerp(draws.size as int, 500_000, 2_000_000), scale_used(size)) as i64,
        opacity: opacity as i64,
        fade_speed: fade_drawn(fade_speed, draws.fade_speed as int) as i64,
        active: true,
        color,
        velocity_x: lerp(draws.velocity_x as int, -40_000, 40_000) as i64,
        velocity_y: lerp(draws.velocity_y as int, -40_000, 40_000) as i64,
    }
}

/// Whether a star is one that some draws shape, with the opacity and the
/// colour that it has.
pub open spec fn is_spawn(star: BasicStar, width: int, height: int, fade_speed: int, size: int)
    -> bool {
    exists|draws: BasicDraws|
        star == spawned(draws, width, height, fade_speed, star.opacity as int, star.color, size)
}

/// The disc that shows a star.
pub open spec fn disc_of(star: BasicStar) -> Disc {
    Disc { x: star.x, y: star.y, radius: star.size, alpha: star.opacity, color: star.color }
}

impl BasicStar {
    /// The opacity after one frame, before it is held between zero and one.
    pub open spec fn faded(self) -> int {
        sum(self.opacity as int, self.fade_speed as int)
    }

    /// The star after one frame. A star that is out stays as it is.
    pub open spec fn updated(self) -> BasicStar {
        if !self.active {
            self
        } else {
            BasicStar {
                x: sum(self.x as int, self.velocity_x as int) as i64,
                y: sum(self.y as int, self.velocity_y as int) as i64,
                size: self.size,
                opacity: clamped(self.faded(), 0, ONE as int) as i64,
                fade_speed: if self.faded() > ONE {
                    negation(self.fade_speed as int) as i64
                } else {
                    self.fade_speed
                },
                active: self.faded() >= 0,
                color: self.color,
                velocity_x: self.velocity_x,
                velocity_y: self.velocity_y,
            }
        }
    }

    /// Whether the opacity lies between zero and one.
    pub open spec fn lit(self) -> bool {
        0 <= self.opacity <= ONE
    }

    /// The star that the draws shape on a canvas of `width` by `height`
    /// pixels, both as scalars. The size scale is held between 0.1 and 4.
    pub fn spawn(
        draws: &BasicDraws,
        width: i64,
        height: i64,
        fade_speed: i64,
        opacity: i64,
        color: String,
        size: i64,
    ) -> (star: BasicStar)
        ensures
            star == spawned(
                *draws,
                width as int,
                height as int,
                fade_speed as int,
                opacity as int,
                color,
                size as int,
            ),
    {
        let scale = clamp(size, MIN_SCALE, MAX_SCALE);
        BasicStar {
            x: range_from_draw(draws.x, 0, width),
            y: range_from_draw(draws.y, 0, height),
            size: sat_mul(range_from_draw(draws.size, 500_000, 2_000_000), scale),
            opacity,
            fade_speed: fade_from_draw(fade_speed, draws.fade_speed),
            active: true,
            color,
            velocity_x: range_from_draw(draws.velocity_x, -40_000, 40_000),
            velocity_y: range_from_draw(draws.velocity_y, -40_000, 40_000),
        }
    }

    /// A new star at a drawn place of a canvas of `width` by `height`, with
    /// a drawn radius, fade speed and drift.
    pub fn new<R: RandomSource>(
        width: i64,
        height: i64,
        fade_speed: i64,
        opacity: i64,
        color: String,
        size: i64,
        rng: &mut R,
    ) -> (star: BasicStar)
        ensures
            is_spawn(star, width as int, height as int, fade_speed as int, size as int),
            star.opacity == opacity,
            star.color == color,
            star.active,
    {
        let draws = take_draws(rng);
        let star = BasicStar::spawn(&draws, width, height, fade_speed, opacity, color, size);
        assert(star == spawned(
            draws,
            width as int,
            height as int,
            fade_speed as int,
            star.opacity as int,
            star.color,
            size as int,
        ));
        star
    }

    /// Lets one frame pass: the star drifts and its opacity moves by its
    /// fade speed. Past one the opacity is held at one and the star starts to
    /// fade; below zero it is held at zero and the star goes out.
    pub fn update(&mut self)
        ensures
            *final(self) == old(self).updated(),
    {
        if !self.active {
            return ;
        }
        self.x = sat_add(self.x, self.velocity_x);
        self.y = sat_add(self.y, self.velocity_y);
        let faded = sat_add(self.opacity, self.fade_speed);
        self.opacity = clamp(faded, 0, ONE);
        if faded > ONE {
            self.fade_speed = sat_neg(self.fade_speed);
        } else if faded < 0 {
            self.active = false;
        }
    }

    /// A copy of the star.
    pub fn clone_star(&self) -> (star: BasicStar)
        ensures
            star == *self,
    {
        BasicStar {
            x: self.x,
            y: self.y,
            size: self.size,
            opacity: self.opacity,
            fade_speed: self.fade_speed,
            active: self.active,
            color: self.color.clone(),
            velocity_x: self.velocity_x,
            velocity_y: self.velocity_y,
        }
    }

    /// The disc to fill for this star, if it still shines.
    pub fn draw(&self) -> (disc: Option<Disc>)
        ensures
            disc == if self.active {
                Some(disc_of(*self))
            } else {
                None
            },
    {
        if !self.active {
            return None;
        }
        Some(
            Disc {
                x: self.x,
                y: self.y,
                radius: self.size,
                alpha: self.opacity,
                color: self.color.clone(),
            },
        )
    }
}

/// The star after a number of frames.
pub open spec fn after(star: BasicStar, frames: nat) -> BasicStar
    decreases frames,
{
    if frames == 0 {
        star
    } else {
        after(star, (frames - 1) as nat).updated()
    }
}

/// A star whose opacity lies between zero and one keeps it there, however
/// many frames pass.
pub proof fn lemma_opacity_stays_in_range(star: BasicStar, frames: nat)
    requires
        star.lit(),
    ensures
        after(star, frames).lit(),
    decreases frames,
{
    if frames > 0 {
        lemma_opacity_stays_in_range(star, (frames - 1) as nat);
    }
}

/// The fade speed of a star that shines is negated in exactly those frames
/// in which the opacity would pass one, and is left alone in all others; a
/// star goes out in exactly those in which it would pass zero.
pub proof fn lemma_fade_turns_only_at_the_top(star: BasicStar)
    requires
        star.active,
    ensures
        ({
            let next = star.updated();
            &&& star.faded() > ONE ==> next.fade_speed == negation(star.fade_speed as int)
                && next.opacity == ONE && next.active
            &&& star.faded() < 0 ==> next.fade_speed == star.fade_speed && next.opacity == 0
                && !next.active
            &&& 0 <= star.faded() <= ONE ==> next.fade_speed == star.fade_speed && next.opacity
                == star.faded() && next.active
        }),
{
}

/// The fade speed of a new star: from half of `fade_speed` to one and a half
/// times as much, as the draw selects.
pub fn fade_from_draw(fade_speed: i64, draw: u32) -> (r: i64)
    ensures
        r == fade_drawn(fade_speed as int, draw as int),
{
    sat_add(half(fade_speed), range_from_draw(draw, 0, fade_speed))
}

/// Half of a scalar, rounded toward zero.
fn half(a: i64) -> (r: i64)
    ensures
        r == halved(a as int),
{
    if a >= 0 {
        a / 2
    } else if a == i64::MIN {
        -0x4000_0000_0000_0000
    } else {
        -((-a) / 2)
    }
}

/// Takes the draws for one star.
fn take_draws<R: RandomSource>(rng: &mut R) -> BasicDraws {
    let x = rng.next_draw();
    let y = rng.next_draw();
    let size = rng.next_draw();
    let fade_speed = rng.next_draw();
    let velocity_x = rng.next_draw();
    let velocity_y = rng.next_draw();
    BasicDraws { x, y, size, fade_speed, velocity_x, velocity_y }
}

} // verus!
