use starfield::layout::{attr_array, VertexAttribute, VertexFormat, VertexStepMode};
use starfield::nightsky::circle::{Circle, CIRCLE_SEGMENTS};
use starfield::nightsky::pipeline::{
    adapter_found, configure_surface, create_circle_buffer, create_multisampled_frame,
    create_star_buffer, vertex_buffers, InitFailure, InitStage, MultisampledFrame, StarBuffer,
    SurfaceCapabilities, SurfaceConfiguration, FRAME_LATENCY, SAMPLE_COUNT,
};
use starfield::nightsky::screen::{create_screen_size_buffer, ScreenSize, SCREEN_SIZE_BYTES};
use starfield::nightsky::star::Star as NightStar;
use starfield::star::{Star, STAR_STRIDE};

#[test]
fn formats_have_their_sizes() {
    assert_eq!(VertexFormat::Float32.size(), 4);
    assert_eq!(VertexFormat::Float32x2.size(), 8);
    assert_eq!(VertexFormat::Float32x3.size(), 12);
    assert_eq!(VertexFormat::Float32x4.size(), 16);
}

#[test]
fn attributes_are_laid_one_after_another() {
    let attributes = attr_array(&[
        (7, VertexFormat::Float32x3),
        (2, VertexFormat::Float32),
        (5, VertexFormat::Float32x4),
        (0, VertexFormat::Float32x2),
    ]);
    assert_eq!(
        attributes,
        vec![
            VertexAttribute { format: VertexFormat::Float32x3, offset: 0, shader_location: 7 },
            VertexAttribute { format: VertexFormat::Float32, offset: 12, shader_location: 2 },
            VertexAttribute { format: VertexFormat::Float32x4, offset: 16, shader_location: 5 },
            VertexAttribute { format: VertexFormat::Float32x2, offset: 32, shader_location: 0 },
        ]
    );
    assert!(attr_array(&[]).is_empty());
}

#[test]
fn the_plain_star_layout_has_three_attributes() {
    let layout = Star::desc();
    assert_eq!(STAR_STRIDE, 28);
    assert_eq!(layout.array_stride, 28);
    assert_eq!(layout.step_mode, VertexStepMode::Instance);
    assert_eq!(
        layout.attributes,
        vec![
            VertexAttribute { format: VertexFormat::Float32x2, offset: 0, shader_location: 0 },
            VertexAttribute { format: VertexFormat::Float32x4, offset: 8, shader_location: 1 },
            VertexAttribute { format: VertexFormat::Float32, offset: 24, shader_location: 2 },
        ]
    );
}

#[test]
fn the_mesh_is_a_fan_of_triangles() {
    let circle = Circle::new();
    assert_eq!(CIRCLE_SEGMENTS, 64);
    assert_eq!(circle.vertices, 65);
    assert_eq!(circle.indices.len(), 192);
    assert_eq!(&circle.indices[0..6], &[0, 1, 2, 0, 2, 3]);
    assert_eq!(&circle.indices[186..192], &[0, 63, 64, 0, 64, 1]);
    for k in 0..64usize {
        assert_eq!(circle.indices[3 * k], 0);
        assert_eq!(circle.indices[3 * k + 1] as usize, k + 1);
        assert_eq!(circle.indices[3 * k + 2] as usize, (k + 1) % 64 + 1);
    }
    assert!(circle.indices.iter().all(|&i| (i as u32) < circle.vertices));
}

#[test]
fn the_mesh_layout_is_one_position_per_vertex() {
    let layout = Circle::desc();
    assert_eq!(layout.array_stride, 8);
    assert_eq!(layout.step_mode, VertexStepMode::Vertex);
    assert_eq!(
        layout.attributes,
        vec![VertexAttribute { format: VertexFormat::Float32x2, offset: 0, shader_location: 0 }]
    );
}

#[test]
fn the_index_buffer_holds_the_indices_as_they_lie_in_memory() {
    let buffers = create_circle_buffer();
    let circle = Circle::new();
    assert_eq!(buffers.vertices, 65);
    assert_eq!(buffers.index_count, 192);
    assert_eq!(buffers.index_bytes.len(), 384);
    let read: Vec<u16> = buffers
        .index_bytes
        .chunks(2)
        .map(|pair| u16::from_ne_bytes([pair[0], pair[1]]))
        .collect();
    assert_eq!(read, circle.indices);
    let low_first: Vec<u16> = buffers
        .index_bytes
        .chunks(2)
        .map(|pair| u16::from_le_bytes([pair[0], pair[1]]))
        .collect();
    let high_first: Vec<u16> = buffers
        .index_bytes
        .chunks(2)
        .map(|pair| u16::from_be_bytes([pair[0], pair[1]]))
        .collect();
    assert!(low_first == circle.indices || high_first == circle.indices);
}

#[test]
fn the_pipeline_reads_the_mesh_and_the_stars() {
    let buffers = vertex_buffers();
    assert_eq!(buffers.len(), 2);
    assert_eq!(buffers[0], Circle::desc());
    assert_eq!(buffers[1], NightStar::desc());
    let mut locations: Vec<u32> = buffers
        .iter()
        .flat_map(|b| b.attributes.iter().map(|a| a.shader_location))
        .collect();
    locations.sort();
    assert_eq!(locations, vec![0, 1, 2, 3, 4]);
    for buffer in &buffers {
        for a in &buffer.attributes {
            assert!(a.offset + a.format.size() <= buffer.array_stride);
        }
    }
}

fn capabilities(srgb: &[bool]) -> SurfaceCapabilities {
    SurfaceCapabilities { srgb_formats: srgb.to_vec(), present_modes: 1, alpha_modes: 1 }
}

#[test]
fn the_first_srgb_format_is_taken() {
    assert_eq!(configure_surface(&capabilities(&[false, true, true]), 600, 800).format, 1);
    assert_eq!(configure_surface(&capabilities(&[true, false]), 600, 800).format, 0);
    assert_eq!(configure_surface(&capabilities(&[false, false, false, true]), 1, 1).format, 3);
}

#[test]
fn without_an_srgb_format_the_first_is_taken() {
    assert_eq!(configure_surface(&capabilities(&[false, false, false]), 600, 800).format, 0);
    assert_eq!(configure_surface(&capabilities(&[false]), 600, 800).format, 0);
}

#[test]
fn the_height_comes_before_the_width() {
    let config = configure_surface(&capabilities(&[true]), 600, 800);
    assert_eq!(
        config,
        SurfaceConfiguration { format: 0, width: 800, height: 600, desired_maximum_frame_latency: 2 }
    );
    assert_eq!(FRAME_LATENCY, 2);
}

#[test]
fn the_multisampled_target_is_as_large_as_the_surface() {
    let config = SurfaceConfiguration {
        format: 3,
        width: 1280,
        height: 720,
        desired_maximum_frame_latency: 2,
    };
    assert_eq!(
        create_multisampled_frame(&config),
        MultisampledFrame { width: 1280, height: 720, sample_count: 4, format: 3 }
    );
    assert_eq!(SAMPLE_COUNT, 4);
}

#[test]
fn the_instance_buffer_has_forty_bytes_a_star() {
    let star = NightStar::new(0, 0, 0, 0, 0, 0, 0, starfield::nightsky::star::Rgb { r: 0, g: 0, b: 0 });
    let stars = vec![star; 3];
    let buffer = create_star_buffer(&stars);
    assert_eq!(buffer, StarBuffer { instances: 3 });
    assert_eq!(buffer.size(), Some(120));
    assert_eq!(create_star_buffer(&[]).size(), Some(0));
    assert_eq!(StarBuffer { instances: usize::MAX }.size(), None);
}

#[test]
fn the_screen_size_is_kept_as_given() {
    assert_eq!(create_screen_size_buffer(800, 600), ScreenSize { width: 800, height: 600 });
    assert_eq!(SCREEN_SIZE_BYTES, 16);
}

#[test]
fn seven_steps_lead_to_a_running_renderer() {
    let mut stage = InitStage::Uninitialized;
    let order = [
        InitStage::InstanceAcquired,
        InitStage::SurfaceCreated,
        InitStage::AdapterRequested,
        InitStage::DeviceReady,
        InitStage::BuffersReady,
        InitStage::PipelineReady,
        InitStage::Running,
    ];
    for expected in order {
        stage = stage.advance(Ok(())).unwrap();
        assert_eq!(stage, expected);
    }
    assert_eq!(stage.advance(Ok(())), Ok(InitStage::Running));
}

#[test]
fn a_failed_step_ends_the_set_up() {
    let failed = InitStage::SurfaceCreated.advance(adapter_found(false));
    assert_eq!(
        failed,
        Err(InitFailure { stage: InitStage::SurfaceCreated, reason: "No adapter found".to_string() })
    );
    assert_eq!(
        InitStage::SurfaceCreated.advance(adapter_found(true)),
        Ok(InitStage::AdapterRequested)
    );
    assert_eq!(
        InitStage::Uninitialized.advance(Err("no canvas".to_string())),
        Err(InitFailure { stage: InitStage::Uninitialized, reason: "no canvas".to_string() })
    );
}
