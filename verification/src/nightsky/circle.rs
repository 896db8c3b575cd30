//! The mesh that every star is drawn with: a disc of triangles round a
//! centre.

use vstd::prelude::*;
use crate::layout::{VertexAttribute, VertexBufferLayout, VertexFormat, VertexStepMode};

verus! {

/// The number of triangles of the disc.
pub const CIRCLE_SEGMENTS: u32 = 64;

/// The disc. Vertex 0 is the centre; vertex `i`, from 1 to
/// `CIRCLE_SEGMENTS`, lies on the unit circle, `i - 1` steps of a full turn
/// divided by `CIRCLE_SEGMENTS` from the first.
#[derive(Clone, Debug, PartialEq, Eq)]
pub struct Circle {
    /// The number of vertices.
    pub vertices: u32,
    /// Three indices for each triangle.
    pub indices: Vec<u16>,
}

/// The vertex that follows vertex `i` round the rim.
pub open spec fn next_on_rim(i: int) -> int {
    if i == CIRCLE_SEGMENTS {
        1
    } else {
        i + 1
    }
}

/// The indices of the disc: for each rim vertex the centre, the vertex and
/// the one that follows it.
pub open spec fn disc_indices() -> Seq<u16> {
    Seq::new(
        3 * CIRCLE_SEGMENTS as nat,
        |k: int|
            if k % 3 == 0 {
                0u16
            } else if k % 3 == 1 {
                (k / 3 + 1) as u16
            } else {
                next_on_rim(k / 3 + 1) as u16
            },
    )
}

impl Circle {
    /// Whether every index names a vertex.
    pub open spec fn well_formed(self) -> bool {
        &&& self.indices@.len() % 3 == 0
        &&& forall|k: int| 0 <= k < self.indices@.len() ==> (#[trigger] self.indices@[k]) < self.vertices
    }

    /// The disc of `CIRCLE_SEGMENTS` triangles.
    pub fn new() -> (circle: Circle)
        ensures
            circle.vertices == CIRCLE_SEGMENTS + 1,
            circle.indices@ == disc_indices(),
            circle.well_formed(),
    {
        let mut indices: Vec<u16> = Vec::new();
        let mut i: u32 = 1;
        while i <= CIRCLE_SEGMENTS
            invariant
                1 <= i <= CIRCLE_SEGMENTS + 1,
                indices@.len() == 3 * (i - 1),
                forall|k: int| 0 <= k < indices@.len() ==> indices@[k] == disc_indices()[k],
            decreases CIRCLE_SEGMENTS + 1 - i,
        {
            let next: u32 = if i == CIRCLE_SEGMENTS {
                1
            } else {
                i + 1
            };
            indices.push(0);
            indices.push(i as u16);
            indices.push(next as u16);
            i += 1;
        }
        Circle { vertices: CIRCLE_SEGMENTS + 1, indices }
    }

    /// The layout of the vertex buffer of the mesh: one position of two
    /// numbers per vertex, under the location 0.
    pub fn desc() -> (layout: VertexBufferLayout)
        ensures
            layout@.array_stride == 8,
            layout@.step_mode == VertexStepMode::Vertex,
            layout@.attributes == seq![
                VertexAttribute { format: VertexFormat::Float32x2, offset: 0, shader_location: 0 },
            ],
            layout@.well_formed(),
    {
        let mut attributes: Vec<VertexAttribute> = Vec::new();
        attributes.push(
            VertexAttribute { format: VertexFormat::Float32x2, offset: 0, shader_location: 0 },
        );
        VertexBufferLayout { array_stride: 8, step_mode: VertexStepMode::Vertex, attributes }
    }
}

} // verus!
