//! What every renderer can do, and what a frame asks the caller to paint.

use vstd::prelude::*;
use crate::nightsky::utils::Rgba8;
use crate::utils::RandomSource;

verus! {

/// A filled circle on a canvas.
#[derive(Clone, Debug)]
pub struct Disc {
    /// The centre, in pixels.
    pub x: i64,
    pub y: i64,
    /// The radius, in pixels.
    pub radius: i64,
    /// The opacity, from zero to one.
    pub alpha: i64,
    /// The fill style.
    pub color: String,
}

/// What one frame asks for.
#[derive(Clone, Debug)]
pub enum Frame {
    /// Nothing.
    Blank,
    /// Clear the canvas from its origin to `width` by `height`, then fill
    /// the discs in their order.
    Canvas { width: u32, height: u32, discs: Vec<Disc> },
    /// Write every star to the instance buffer, then run one pass that
    /// clears to `clear_color` and makes the draw call, if there is one.
    Instanced { clear_color: Rgba8, draw: Option<DrawIndexed> },
}

/// One indexed draw call: the first `index_count` indices of the mesh, once
/// for each of the first `instances` records of the instance buffer.
#[derive(Clone, Copy, Debug, PartialEq, Eq, Structural)]
pub struct DrawIndexed {
    pub index_count: u32,
    pub instances: u32,
}

/// The number of stars that is left of `len` when `count` are removed.
pub open spec fn remaining(len: int, count: int) -> int {
    if count >= len {
        0
    } else {
        len - count
    }
}

/// A renderer of stars.
pub trait StarRender {
    /// Lets `delta_time` pass and says what to paint.
    fn update_and_render<R: RandomSource>(&mut self, delta_time: i64, rng: &mut R) -> Frame;

    /// Takes note of a new size of the display, in pixels.
    fn resize(&mut self, width: u32, height: u32);

    /// Adds `count` stars.
    fn add_stars<R: RandomSource>(&mut self, count: u32, rng: &mut R);

    /// Removes the last `count` stars, or all of them if there are fewer.
    fn remove_stars(&mut self, count: u32);

    /// The number of stars, as far as a `u32` can count them.
    fn get_num_stars(&self) -> u32;
}

} // verus!
