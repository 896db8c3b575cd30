//! What the instanced renderer asks of the graphics device, as plain data:
//! the configuration of the surface, the multisampled target, the contents
//! of the buffers and the layouts of the pipeline.

use vstd::prelude::*;
use crate::layout::{VertexAttribute, VertexBufferLayout, VertexFormat, VertexStepMode};
use crate::nightsky::circle::{disc_indices, Circle, CIRCLE_SEGMENTS};
use crate::nightsky::star::{Star, INSTANCE_STRIDE};

verus! {

/// The number of samples per pixel of the multisampled target and of the
/// pipeline that draws into it.
pub const SAMPLE_COUNT: u32 = 4;

/// How many frames the surface may queue up.
pub const FRAME_LATENCY: u32 = 2;

/// What a surface offers on an adapter.
#[derive(Clone, Debug, PartialEq, Eq)]
pub struct SurfaceCapabilities {
    /// For each texture format that is offered, the preferred one first,
    /// whether it is an sRGB format.
    pub srgb_formats: Vec<bool>,
    /// The number of present modes that are offered.
    pub present_modes: usize,
    /// The number of alpha modes that are offered.
    pub alpha_modes: usize,
}

/// How a surface is configured. The present mode and the alpha mode are the
/// first that the surface offers.
#[derive(Clone, Copy, Debug, PartialEq, Eq, Structural)]
pub struct SurfaceConfiguration {
    /// The place of the texture format among those offered.
    pub format: usize,
    /// The size of the surface, in pixels.
    pub width: u32,
    pub height: u32,
    pub desired_maximum_frame_latency: u32,
}

/// The texture that frames are drawn into before they are resolved onto the
/// surface.
#[derive(Clone, Copy, Debug, PartialEq, Eq, Structural)]
pub struct MultisampledFrame {
    pub width: u32,
    pub height: u32,
    pub sample_count: u32,
    /// The place of its format among those offered: that of the surface.
    pub format: usize,
}

/// The instance buffer. Its size is fixed when it is made.
#[derive(Clone, Copy, Debug, PartialEq, Eq, Structural)]
pub struct StarBuffer {
    /// The number of instance records that it holds.
    pub instances: usize,
}

/// The buffers of the mesh.
#[derive(Clone, Debug, PartialEq, Eq)]
pub struct CircleBuffers {
    /// The number of positions in the vertex buffer.
    pub vertices: u32,
    /// The contents of the index buffer.
    pub index_bytes: Vec<u8>,
    /// The number of indices in it.
    pub index_count: u32,
}

/// Whether `at` is the place of the first sRGB format, or of the first
/// format where none is sRGB.
pub open spec fn is_preferred(srgb_formats: Seq<bool>, at: int) -> bool {
    &&& 0 <= at < srgb_formats.len()
    &&& forall|i: int| 0 <= i < at ==> !srgb_formats[i]
    &&& srgb_formats[at] || (at == 0 && forall|i: int|
        0 <= i < srgb_formats.len() ==> !srgb_formats[i])
}

/// Configures a surface of `width` by `height` pixels with the first sRGB
/// format that it offers, or with its first format if it offers none. The
/// surface has to offer a format, a present mode and an alpha mode.
pub fn configure_surface(capabilities: &SurfaceCapabilities, height: u32, width: u32) -> (config:
    SurfaceConfiguration)
    requires
        capabilities.srgb_formats@.len() > 0,
        capabilities.present_modes > 0,
        capabilities.alpha_modes > 0,
    ensures
        is_preferred(capabilities.srgb_formats@, config.format as int),
        config.width == width,
        config.height == height,
        config.desired_maximum_frame_latency == FRAME_LATENCY,
{
    let formats = &capabilities.srgb_formats;
    let mut i: usize = 0;
    while i < formats.len() && !formats[i]
        invariant
            i <= formats@.len(),
            forall|k: int| 0 <= k < i ==> !formats@[k],
        decreases formats@.len() - i,
    {
        i += 1;
    }
    let format = if i < formats.len() {
        i
    } else {
        0
    };
    SurfaceConfiguration { format, width, height, desired_maximum_frame_latency: FRAME_LATENCY }
}

/// The multisampled target for a surface: as large as the surface, in its
/// format, with `SAMPLE_COUNT` samples per pixel.
pub fn create_multisampled_frame(config: &SurfaceConfiguration) -> (frame: MultisampledFrame)
    ensures
        frame == (MultisampledFrame {
            width: config.width,
            height: config.height,
            sample_count: SAMPLE_COUNT,
            format: config.format,
        }),
{
    MultisampledFrame {
        width: config.width,
        height: config.height,
        sample_count: SAMPLE_COUNT,
        format: config.format,
    }
}

/// The instance buffer for the given stars: one record for each.
pub fn create_star_buffer(stars: &[Star]) -> (buffer: StarBuffer)
    ensures
        buffer.instances == stars@.len(),
{
    StarBuffer { instances: stars.len() }
}

impl StarBuffer {
    /// The size of the buffer in bytes, where a `u64` can hold it.
    pub fn size(&self) -> (bytes: Option<u64>)
        ensures
            bytes == if self.instances * INSTANCE_STRIDE <= u64::MAX {
                Some((self.instances * INSTANCE_STRIDE) as u64)
            } else {
                None
            },
    {
        (self.instances as u64).checked_mul(INSTANCE_STRIDE)
    }
}

/// Whether the bytes hold the numbers two by two, each with its low byte
/// first if `low_first` and with its high byte first if not.
pub open spec fn holds(bytes: Seq<u8>, numbers: Seq<u16>, low_first: bool) -> bool {
    &&& bytes.len() == 2 * numbers.len()
    &&& forall|i: int|
        0 <= i < numbers.len() ==> (#[trigger] numbers[i]) == if low_first {
            bytes[2 * i] + 256 * bytes[2 * i + 1]
        } else {
            256 * bytes[2 * i] + bytes[2 * i + 1]
        }
}

/// The bytes of the given numbers as they lie in memory.
///
/// Calls `bytemuck::cast_slice` from `u16` to `u8`, which views the memory
/// of the numbers as bytes: two for each number, in the byte order of the
/// machine. It cannot fail, as a byte needs no alignment and two bytes are
/// a whole number of bytes.
#[verifier::external_body]
fn bytes_of_indices(indices: &[u16]) -> (bytes: Vec<u8>)
    ensures
        holds(bytes@, indices@, true) || holds(bytes@, indices@, false),
{
    bytemuck::cast_slice::<u16, u8>(indices).to_vec()
}

/// The buffers of the mesh of a star: what the index buffer holds, and how
/// many vertices and indices there are.
pub fn create_circle_buffer() -> (buffers: CircleBuffers)
    ensures
        buffers.vertices == CIRCLE_SEGMENTS + 1,
        buffers.index_count == 3 * CIRCLE_SEGMENTS,
        holds(buffers.index_bytes@, disc_indices(), true) || holds(
            buffers.index_bytes@,
            disc_indices(),
            false,
        ),
{
    let circle_mesh = Circle::new();
    let index_bytes = bytes_of_indices(circle_mesh.indices.as_slice());
    let index_count = circle_mesh.indices.len() as u32;
    CircleBuffers { vertices: circle_mesh.vertices, index_bytes, index_count }
}

/// The layouts of the two vertex buffers of the pipeline: the mesh in slot
/// 0, stepped per vertex, and the stars in slot 1, stepped per instance. No
/// shader location is bound twice.
pub fn vertex_buffers() -> (buffers: Vec<VertexBufferLayout>)
    ensures
        buffers@.len() == 2,
        buffers@[0]@.step_mode == VertexStepMode::Vertex,
        buffers@[0]@.array_stride == 8,
        buffers@[0]@.attributes == seq![
            VertexAttribute { format: VertexFormat::Float32x2, offset: 0, shader_location: 0 },
        ],
        buffers@[1]@.step_mode == VertexStepMode::Instance,
        buffers@[1]@.array_stride == INSTANCE_STRIDE,
        buffers@[1]@.attributes == seq![
            VertexAttribute { format: VertexFormat::Float32x2, offset: 0, shader_location: 1 },
            VertexAttribute { format: VertexFormat::Float32, offset: 8, shader_location: 2 },
            VertexAttribute { format: VertexFormat::Float32, offset: 12, shader_location: 3 },
            VertexAttribute { format: VertexFormat::Float32x3, offset: 16, shader_location: 4 },
        ],
        buffers@[0]@.well_formed(),
        buffers@[1]@.well_formed(),
        forall|location: u32| !(buffers@[0]@.binds(location) && buffers@[1]@.binds(location)),
{
    let mut buffers: Vec<VertexBufferLayout> = Vec::new();
    buffers.push(Circle::desc());
    buffers.push(Star::desc());
    buffers
}

/// How far the set-up of the renderer has come. Each stage is reached from
/// the one before it by one step that can fail.
#[derive(Clone, Copy, Debug, PartialEq, Eq, Structural)]
pub enum InitStage {
    Uninitialized,
    InstanceAcquired,
    SurfaceCreated,
    AdapterRequested,
    DeviceReady,
    BuffersReady,
    PipelineReady,
    Running,
}

/// A step of the set-up that failed. Nothing of what was set up before it
/// is kept.
#[derive(Clone, Debug, PartialEq, Eq)]
pub struct InitFailure {
    /// The stage from which the step was taken.
    pub stage: InitStage,
    /// What went wrong.
    pub reason: String,
}

impl InitStage {
    /// The number of steps that lead to the stage.
    pub open spec fn rank(self) -> nat {
        match self {
            InitStage::Uninitialized => 0,
            InitStage::InstanceAcquired => 1,
            InitStage::SurfaceCreated => 2,
            InitStage::AdapterRequested => 3,
            InitStage::DeviceReady => 4,
            InitStage::BuffersReady => 5,
            InitStage::PipelineReady => 6,
            InitStage::Running => 7,
        }
    }

    /// The stage that a step leads to. Nothing follows `Running`.
    pub open spec fn following(self) -> InitStage {
        match self {
            InitStage::Uninitialized => InitStage::InstanceAcquired,
            InitStage::InstanceAcquired => InitStage::SurfaceCreated,
            InitStage::SurfaceCreated => InitStage::AdapterRequested,
            InitStage::AdapterRequested => InitStage::DeviceReady,
            InitStage::DeviceReady => InitStage::BuffersReady,
            InitStage::BuffersReady => InitStage::PipelineReady,
            InitStage::PipelineReady => InitStage::Running,
            InitStage::Running => InitStage::Running,
        }
    }

    /// The stage after a number of steps.
    pub open spec fn after(self, steps: nat) -> InitStage
        decreases steps,
    {
        if steps == 0 {
            self
        } else {
            self.after((steps - 1) as nat).following()
        }
    }

    /// Takes note of how the step from this stage went: the next stage if it
    /// went well, and else a failure that names this stage and the reason.
    pub fn advance(self, step: Result<(), String>) -> (next: Result<InitStage, InitFailure>)
        ensures
            next == match step {
                Ok(_) => Ok::<InitStage, InitFailure>(self.following()),
                Err(reason) => Err(InitFailure { stage: self, reason }),
            },
    {
        match step {
            Ok(_) => Ok(
                match self {
                    InitStage::Uninitialized => InitStage::InstanceAcquired,
                    InitStage::InstanceAcquired => InitStage::SurfaceCreated,
                    InitStage::SurfaceCreated => InitStage::AdapterRequested,
                    InitStage::AdapterRequested => InitStage::DeviceReady,
                    InitStage::DeviceReady => InitStage::BuffersReady,
                    InitStage::BuffersReady => InitStage::PipelineReady,
                    InitStage::PipelineReady => InitStage::Running,
                    InitStage::Running => InitStage::Running,
                },
            ),
            Err(reason) => Err(InitFailure { stage: self, reason }),
        }
    }
}

/// What the request for an adapter came to: a failure with its reason where
/// none was found.
pub fn adapter_found(found: bool) -> (step: Result<(), String>)
    ensures
        found ==> step is Ok,
        !found ==> step is Err && step->Err_0@ == "No adapter found"@,
{
    if found {
        Ok(())
    } else {
        Err("No adapter found".to_owned())
    }
}

/// Every step on the way leads one stage further, and the renderer runs
/// after exactly seven of them.
pub proof fn lemma_seven_steps_to_running(stage: InitStage, steps: nat)
    ensures
        stage.rank() + steps <= 7 ==> stage.after(steps).rank() == stage.rank() + steps,
        stage.rank() + steps >= 7 ==> stage.after(steps) == InitStage::Running,
        stage.after(steps) == InitStage::Running ==> stage.rank() + steps >= 7,
    decreases steps,
{
    if steps > 0 {
        lemma_seven_steps_to_running(stage, (steps - 1) as nat);
    }
}

} // verus!
