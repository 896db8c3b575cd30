//! Log levels, randomness as a capability, and the empty renderer.

use vstd::prelude::*;
use vstd::string::StringSliceAdditionalSpecFns;
use crate::star_render::{Frame, StarRender};

verus! {

/// How much is logged.
#[derive(Clone, Copy, Debug, PartialEq, Eq, Structural)]
pub enum LogLevel {
    Debug,
    Info,
    Warn,
    Error,
}

/// The level that a name stands for.
pub open spec fn level_named(name: Seq<char>) -> LogLevel {
    if name == "debug"@ {
        LogLevel::Debug
    } else if name == "info"@ {
        LogLevel::Info
    } else if name == "error"@ {
        LogLevel::Error
    } else {
        LogLevel::Warn
    }
}

/// Reads a log level. Any name but `debug`, `info` and `error` means `warn`.
pub fn parse_log_level(level: &str) -> (parsed: LogLevel)
    ensures
        parsed == level_named(level@),
{
    if same_text(level, "debug") {
        LogLevel::Debug
    } else if same_text(level, "info") {
        LogLevel::Info
    } else if same_text(level, "error") {
        LogLevel::Error
    } else {
        LogLevel::Warn
    }
}

/// Whether two texts are the same.
pub fn same_text(a: &str, b: &str) -> (same: bool)
    ensures
        same == (a@ == b@),
{
    let left = a.as_bytes();
    let right = b.as_bytes();
    proof {
        // a text is what its bytes decode to
        vstd::utf8::encode_utf8_decode_utf8(a@);
        vstd::utf8::encode_utf8_decode_utf8(b@);
    }
    if left.len() != right.len() {
        return false;
    }
    let mut i: usize = 0;
    while i < left.len()
        invariant
            i <= left@.len(),
            left@.len() == right@.len(),
            left@ == a.spec_bytes(),
            right@ == b.spec_bytes(),
            forall|k: int| 0 <= k < i ==> left@[k] == right@[k],
        decreases left@.len() - i,
    {
        if left[i] != right[i] {
            return false;
        }
        i += 1;
    }
    assert(left@ =~= right@);
    true
}

/// A source that hands out a given list of draws, again and again. With no
/// draws given, every draw is zero.
#[derive(Debug)]
pub struct ReplaySource {
    draws: Vec<u32>,
    next: usize,
}

impl ReplaySource {
    #[verifier::type_invariant]
    spec fn in_range(self) -> bool {
        if self.draws@.len() == 0 {
            self.next == 0
        } else {
            self.next < self.draws@.len()
        }
    }

    /// The draws that are handed out, in their order.
    pub closed spec fn script(&self) -> Seq<u32> {
        self.draws@
    }

    /// The place in the script of the draw that comes next.
    pub closed spec fn position(&self) -> int {
        self.next as int
    }

    /// The draw that comes next.
    pub open spec fn upcoming(&self) -> u32 {
        if self.script().len() == 0 {
            0
        } else {
            self.script()[self.position()]
        }
    }

    /// The place that follows `position` in a script of `len` draws: the
    /// first place after the last.
    pub open spec fn following(position: int, len: int) -> int {
        if len == 0 {
            0
        } else {
            (position + 1) % len
        }
    }

    /// A source that starts at the first of the given draws.
    pub fn new(draws: Vec<u32>) -> (source: ReplaySource)
        ensures
            source.script() == draws@,
            source.position() == 0,
    {
        ReplaySource { draws, next: 0 }
    }
}

impl RandomSource for ReplaySource {
    fn next_draw(&mut self) -> (draw: u32)
        ensures
            draw == old(self).upcoming(),
            final(self).script() == old(self).script(),
            final(self).position() == ReplaySource::following(
                old(self).position(),
                old(self).script().len() as int,
            ),
    {
        proof {
            use_type_invariant(&*self);
        }
        let n = self.draws.len();
        if n == 0 {
            0
        } else {
            let draw = self.draws[self.next];
            self.next = (self.next + 1) % n;
            draw
        }
    }
}

/// The renderer of a system that has not been set up: it holds no stars and
/// paints nothing.
#[derive(Clone, Copy, Debug, PartialEq, Eq, Structural)]
pub struct EmptySky {}

impl StarRender for EmptySky {
    fn update_and_render<R: RandomSource>(&mut self, _delta_time: i64, _rng: &mut R) -> (frame:
        Frame)
        ensures
            frame == Frame::Blank,
    {
        Frame::Blank
    }

    fn resize(&mut self, _width: u32, _height: u32) {
    }

    fn add_stars<R: RandomSource>(&mut self, _count: u32, _rng: &mut R) {
    }

    fn remove_stars(&mut self, _count: u32) {
    }

    fn get_num_stars(&self) -> (count: u32)
        ensures
            count == 0,
    {
        0
    }
}

/// The number of values a draw can take: a draw `d` stands for the
/// fraction `d / DRAW_SPAN` of the unit interval.
pub const DRAW_SPAN: u64 = 0x1_0000_0000;

/// A source of uniformly distributed draws.
///
/// Nothing is promised of what a source hands out, so whatever is proved of
/// code that draws from one holds for every sequence of draws.
pub trait RandomSource {
    /// The next draw.
    fn next_draw(&mut self) -> u32;
}

/// The point of the interval from `min` to `max` that the draw selects:
/// `min` for the draw 0, and just short of `max` for the largest draw.
pub open spec fn lerp(draw: int, min: int, max: int) -> int {
    min + ((max - min) * draw) / (DRAW_SPAN as int)
}

/// The selected point lies in the interval, whichever end is the larger.
pub proof fn lemma_lerp_bounds(draw: int, min: int, max: int)
    requires
        0 <= draw < DRAW_SPAN,
    ensures
        min <= max ==> min <= lerp(draw, min, max) <= max,
        min < max ==> lerp(draw, min, max) < max,
        max <= min ==> max <= lerp(draw, min, max) <= min,
        lerp(0, min, max) == min,
{
    let span = max - min;
    let d = DRAW_SPAN as int;
    assert(min <= max ==> 0 <= span * draw <= span * d - span) by (nonlinear_arith)
        requires
            0 <= draw <= d - 1,
            span == max - min,
    ;
    assert(max <= min ==> span * d - span <= span * draw <= 0) by (nonlinear_arith)
        requires
            0 <= draw <= d - 1,
            span == max - min,
    ;
}

/// Maps a draw onto the interval from `min` to `max`.
pub fn range_from_draw(draw: u32, min: i64, max: i64) -> (r: i64)
    ensures
        r == lerp(draw as int, min as int, max as int),
{
    let span: i128 = max as i128 - min as i128;
    assert(-0x1_0000_0000_0000_0000_0000_0000 <= span * draw <= 0x1_0000_0000_0000_0000_0000_0000)
        by (nonlinear_arith)
        requires
            -0x1_0000_0000_0000_0000 <= span <= 0x1_0000_0000_0000_0000,
            0 <= draw <= 0x1_0000_0000,
    ;
    let scaled: i128 = span * (draw as i128);
    let step: i128 = if scaled >= 0 {
        scaled / 0x1_0000_0000
    } else {
        // the floor of a negative quotient
        let up: i128 = (-scaled + 0xffff_ffff) / 0x1_0000_0000;
        proof {
            lemma_floor_of_negative(scaled as int, DRAW_SPAN as int);
        }
        -up
    };
    proof {
        lemma_lerp_bounds(draw as int, min as int, max as int);
    }
    (min as i128 + step) as i64
}

/// For a negative `x`, the floor of `x / d` is minus the ceiling of `-x / d`.
proof fn lemma_floor_of_negative(x: int, d: int)
    requires
        x < 0,
        d > 0,
    ensures
        x / d == -((-x + d - 1) / d),
{
    let q = (-x + d - 1) / d;
    let r = (-x + d - 1) % d;
    vstd::arithmetic::div_mod::lemma_fundamental_div_mod(-x + d - 1, d);
    // -x + d - 1 == d * q + r, 0 <= r < d, so x == d * (-q) + (d - 1 - r)
    assert(x == d * (-q) + (d - 1 - r)) by (nonlinear_arith)
        requires
            -x + d - 1 == d * q + r,
    ;
    vstd::arithmetic::div_mod::lemma_fundamental_div_mod_converse(x, d, -q, d - 1 - r);
}

/// Draws a point of the interval from `min` to `max`.
pub fn random_range<R: RandomSource>(rng: &mut R, min: i64, max: i64) -> (r: i64)
    ensures
        exists|draw: u32| r == lerp(draw as int, min as int, max as int),
        min <= max ==> min <= r <= max,
        min < max ==> r < max,
        max <= min ==> max <= r <= min,
{
    let draw = rng.next_draw();
    proof {
        lemma_lerp_bounds(draw as int, min as int, max as int);
    }
    range_from_draw(draw, min, max)
}

} // verus!
