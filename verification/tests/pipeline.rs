use realtime_shaders::geometry::{VERTEX_BUFFER_SIZE, VERTEX_STRIDE};
use realtime_shaders::parameters::{Parameters, PARAMETER_BLOCK_SIZE};
use realtime_shaders::pipeline::{build_pipeline, BindingKind, BindingLayout, VertexFormat};
use realtime_shaders::pipeline::{MINUS_ONE_BITS, PARAMETER_SLOT, QUAD_SLOT, TEXTURE_SLOT};

#[test]
fn slots_of_the_bind_groups_and_the_vertex_buffer() {
    assert_eq!(TEXTURE_SLOT, 0);
    assert_eq!(PARAMETER_SLOT, 1);
    assert_eq!(QUAD_SLOT, 0);
    assert_eq!(MINUS_ONE_BITS, (-1.0f32).to_bits());
}

#[test]
fn entry_points_of_the_stages() {
    let pipeline = build_pipeline();
    assert_eq!(pipeline.vertex_entry_point, "vert_main");
    assert_eq!(pipeline.fragment_entry_point, "frag_main");
}

#[test]
fn vertex_layout_has_position_then_texcoord() {
    let layout = build_pipeline().vertex_layout;
    assert_eq!(layout.array_stride, VERTEX_STRIDE as u64);
    assert_eq!(layout.attributes[0].offset, 0);
    assert_eq!(layout.attributes[0].shader_location, 0);
    assert_eq!(layout.attributes[0].format, VertexFormat::Float32x2);
    assert_eq!(layout.attributes[1].offset, 8);
    assert_eq!(layout.attributes[1].shader_location, 1);
    assert_eq!(layout.attributes[1].format, VertexFormat::Float32x2);
}

#[test]
fn bind_group_layouts_are_listed_by_slot() {
    let pipeline = build_pipeline();
    assert_eq!(pipeline.bind_group_layouts.len(), 2);
}

#[test]
fn texture_group_binds_texture_then_sampler() {
    let pipeline = build_pipeline();
    assert_eq!(
        pipeline.bind_group_layouts[TEXTURE_SLOT as usize],
        vec![
            BindingLayout { binding: 0, kind: BindingKind::Texture },
            BindingLayout { binding: 1, kind: BindingKind::Sampler },
        ]
    );
}

#[test]
fn parameter_group_binds_one_uniform_buffer() {
    let pipeline = build_pipeline();
    assert_eq!(
        pipeline.bind_group_layouts[PARAMETER_SLOT as usize],
        vec![BindingLayout { binding: 0, kind: BindingKind::UniformBuffer }]
    );
}

#[test]
fn vertex_buffer_starts_as_the_full_target_quad() {
    let pipeline = build_pipeline();
    assert_eq!(pipeline.vertex_data.len(), VERTEX_BUFFER_SIZE);
    let reals: Vec<f32> = pipeline
        .vertex_data
        .chunks(4)
        .map(|word| f32::from_le_bytes([word[0], word[1], word[2], word[3]]))
        .collect();
    let expected: Vec<f32> = vec![
        -1.0, -1.0, 0.0, 1.0,
         1.0,  1.0, 1.0, 0.0,
        -1.0,  1.0, 0.0, 0.0,
         1.0,  1.0, 1.0, 0.0,
        -1.0, -1.0, 0.0, 1.0,
         1.0, -1.0, 1.0, 1.0,
    ];
    assert_eq!(reals, expected);
}

#[test]
fn uniform_buffer_starts_with_the_initial_parameters() {
    let pipeline = build_pipeline();
    assert_eq!(pipeline.parameter_data.len(), PARAMETER_BLOCK_SIZE);
    let block = Parameters::from_bytes(&pipeline.parameter_data).expect("a whole block");
    assert_eq!(f32::from_bits(block.sigma1.bits), 4.75);
    assert_eq!(f32::from_bits(block.tau.bits), 0.075);
    assert_eq!(f32::from_bits(block.gfact.bits), 8.0);
    assert_eq!(f32::from_bits(block.epsilon.bits), 0.0001);
    assert_eq!(block.num_gvf_iterations, 30);
    assert_eq!(block.enable_xdog, 1);
    assert_eq!(block.shader_index, 0);
    assert_eq!(f32::from_bits(block.colors.bits), 32.0);
}

#[test]
fn building_twice_gives_the_same_pipeline() {
    assert_eq!(build_pipeline(), build_pipeline());
}

#[test]
fn attributes_read_back_what_the_vertices_hold() {
    let pipeline = build_pipeline();
    let layout = pipeline.vertex_layout;
    let stride = layout.array_stride as usize;
    let read = |vertex: usize, attribute: usize| -> (f32, f32) {
        let at = vertex * stride + layout.attributes[attribute].offset as usize;
        let data = &pipeline.vertex_data;
        (
            f32::from_le_bytes([data[at], data[at + 1], data[at + 2], data[at + 3]]),
            f32::from_le_bytes([data[at + 4], data[at + 5], data[at + 6], data[at + 7]]),
        )
    };
    assert_eq!(read(0, 0), (-1.0, -1.0));
    assert_eq!(read(0, 1), (0.0, 1.0));
    assert_eq!(read(1, 0), (1.0, 1.0));
    assert_eq!(read(1, 1), (1.0, 0.0));
    assert_eq!(read(5, 0), (1.0, -1.0));
    assert_eq!(read(5, 1), (1.0, 1.0));
}
