//! A plain coloured star: a place, a colour with its opacity, and a size.

use vstd::prelude::*;
use crate::fixed::Vec2;
use crate::layout::{VertexAttribute, VertexBufferLayout, VertexFormat, VertexStepMode};

verus! {

/// The number of bytes of one record: seven 32-bit numbers.
pub const STAR_STRIDE: u64 = 28;

/// A colour with its opacity, each channel a scalar from zero to one.
#[derive(Clone, Copy, Debug, PartialEq, Eq, Structural)]
pub struct Rgba {
    pub r: i64,
    pub g: i64,
    pub b: i64,
    pub a: i64,
}

/// One star. The fields stand in the order in which a record holds them.
#[derive(Clone, Copy, Debug, PartialEq, Eq, Structural)]
pub struct Star {
    pub position: Vec2,
    pub color: Rgba,
    pub size: i64,
}

impl Star {
    /// The layout of a buffer with one record per star: the position at
    /// byte 0, the colour at 8 and the size at 24, under the locations 0 to 2.
    pub fn desc() -> (layout: VertexBufferLayout)
        ensures
            layout@.array_stride == STAR_STRIDE,
            layout@.step_mode == VertexStepMode::Instance,
            layout@.attributes == seq![
                VertexAttribute { format: VertexFormat::Float32x2, offset: 0, shader_location: 0 },
                VertexAttribute { format: VertexFormat::Float32x4, offset: 8, shader_location: 1 },
                VertexAttribute { format: VertexFormat::Float32, offset: 24, shader_location: 2 },
            ],
            layout@.well_formed(),
    {
        let mut attributes: Vec<VertexAttribute> = Vec::new();
        attributes.push(
            VertexAttribute { format: VertexFormat::Float32x2, offset: 0, shader_location: 0 },
        );
        attributes.push(
            VertexAttribute { format: VertexFormat::Float32x4, offset: 8, shader_location: 1 },
        );
        attributes.push(
            VertexAttribute { format: VertexFormat::Float32, offset: 24, shader_location: 2 },
        );
        VertexBufferLayout {
            array_stride: STAR_STRIDE,
            step_mode: VertexStepMode::Instance,
            attributes,
        }
    }
}

} // verus!
