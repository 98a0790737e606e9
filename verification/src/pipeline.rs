//! The render pipeline: what is built once, before the first frame.
//!
//! One pipeline serves every effect. The fragment stage branches on the effect code in
//! the parameter block, so choosing another effect changes a buffer and rebuilds nothing.

use vstd::prelude::*;
use crate::geometry::{update_vertex_data, vertex_bytes, vertices_layout, vertices_words};
use crate::geometry::{QuadBounds, Vertex, VERTEX_BUFFER_SIZE, VERTEX_STRIDE};
use crate::layout::{le_word, lemma_word_at, Scalar, ONE_BITS};
use crate::parameters::{Parameters, PARAMETER_BLOCK_SIZE};

verus! {

/// Bind group slot of the image and its sampler.
pub const TEXTURE_SLOT: u32 = 0;

/// Bind group slot of the parameter block.
pub const PARAMETER_SLOT: u32 = 1;

/// Vertex buffer slot of the quad.
pub const QUAD_SLOT: u32 = 0;

/// Bit pattern of the real number minus one.
pub const MINUS_ONE_BITS: u32 = 0xBF80_0000;

/// How the words of a vertex attribute are read.
#[derive(Debug, Clone, Copy, PartialEq, Eq, Structural)]
pub enum VertexFormat {
    /// Two single-precision scalars.
    Float32x2,
}

/// One input of the vertex stage.
#[derive(Debug, Clone, Copy, PartialEq, Eq, Structural)]
pub struct VertexAttribute {
    pub offset: u64,
    pub shader_location: u32,
    pub format: VertexFormat,
}

/// How the vertex buffer is cut into vertices, and a vertex into attributes.
#[derive(Debug, Clone, Copy, PartialEq, Eq)]
pub struct VertexBufferLayout {
    pub array_stride: u64,
    pub attributes: [VertexAttribute; 2],
}

/// What a binding shows to the fragment stage, the only stage that reads bindings.
#[derive(Debug, Clone, Copy, PartialEq, Eq, Structural)]
pub enum BindingKind {
    /// A two-dimensional texture of filterable colour, not multisampled.
    Texture,
    /// A filtering sampler.
    Sampler,
    /// A uniform buffer, bound whole and at a fixed offset.
    UniformBuffer,
}

/// One entry of a bind group layout.
#[derive(Debug, Clone, Copy, PartialEq, Eq, Structural)]
pub struct BindingLayout {
    pub binding: u32,
    pub kind: BindingKind,
}

/// What the host builds once: the stages' entry points, the layouts of the vertex buffer
/// and of the two bind groups, and the first contents of the two buffers.
///
/// The vertex buffer is used as vertex input and as a copy destination, the uniform
/// buffer as uniform input and as a copy destination. The pipeline draws triangle lists,
/// culls nothing, replaces what the target holds and writes every colour channel.
#[derive(Debug, PartialEq, Eq)]
pub struct PipelineDescriptor {
    pub vertex_entry_point: &'static str,
    pub fragment_entry_point: &'static str,
    pub vertex_layout: VertexBufferLayout,
    /// The layouts of the bind groups: the layout at index `i` is that of slot `i`.
    pub bind_group_layouts: Vec<Vec<BindingLayout>>,
    pub vertex_data: Vec<u8>,
    pub parameter_data: Vec<u8>,
}

/// The layout of the bind group with the image: the texture, then its sampler.
pub open spec fn texture_bindings() -> Seq<BindingLayout> {
    seq![
        BindingLayout { binding: 0, kind: BindingKind::Texture },
        BindingLayout { binding: 1, kind: BindingKind::Sampler },
    ]
}

/// The layout of the bind group with the parameter block: one uniform buffer.
pub open spec fn parameter_bindings() -> Seq<BindingLayout> {
    seq![BindingLayout { binding: 0, kind: BindingKind::UniformBuffer }]
}

/// The attribute that carries the position of a vertex.
pub open spec fn position_attribute() -> VertexAttribute {
    VertexAttribute { offset: 0, shader_location: 0, format: VertexFormat::Float32x2 }
}

/// The attribute that carries the texture coordinate of a vertex.
pub open spec fn texcoord_attribute() -> VertexAttribute {
    VertexAttribute { offset: 8, shader_location: 1, format: VertexFormat::Float32x2 }
}

/// The layout of the quad's vertex buffer.
pub open spec fn quad_layout() -> VertexBufferLayout {
    VertexBufferLayout {
        array_stride: VERTEX_STRIDE as u64,
        attributes: [position_attribute(), texcoord_attribute()],
    }
}

/// The quad that fills the whole target.
pub open spec fn full_quad() -> QuadBounds {
    QuadBounds {
        left: Scalar { bits: MINUS_ONE_BITS },
        right: Scalar { bits: ONE_BITS },
        bottom: Scalar { bits: MINUS_ONE_BITS },
        top: Scalar { bits: ONE_BITS },
    }
}

/// The parameter block the uniform buffer is created with.
pub open spec fn initial_parameters() -> Parameters {
    Parameters {
        sigma1: Scalar { bits: 0x4098_0000 },
        tau: Scalar { bits: 0x3D99_999A },
        gfact: Scalar { bits: 0x4100_0000 },
        epsilon: Scalar { bits: 0x38D1_B717 },
        num_gvf_iterations: 30,
        enable_xdog: 1,
        shader_index: 0,
        colors: Scalar { bits: 0x4200_0000 },
    }
}

/// The two words the vertex stage reads for `attribute` of vertex `index`.
pub open spec fn fetch(
    buffer: Seq<u8>,
    layout: VertexBufferLayout,
    index: int,
    attribute: VertexAttribute,
) -> Seq<u32> {
    let at = index * layout.array_stride + attribute.offset;
    seq![le_word(buffer, at), le_word(buffer, at + 4)]
}

/// The vertex stage reads from the vertex buffer what was written there: with the
/// quad's layout, attribute zero of a vertex is its position and attribute one its
/// texture coordinate.
pub proof fn lemma_vertex_fetch(vertices: Seq<Vertex>, index: int)
    requires
        0 <= index < vertices.len(),
    ensures
        fetch(vertices_layout(vertices), quad_layout(), index, quad_layout().attributes[0])
            == seq![vertices[index].position[0].bits, vertices[index].position[1].bits],
        fetch(vertices_layout(vertices), quad_layout(), index, quad_layout().attributes[1])
            == seq![vertices[index].texcoord[0].bits, vertices[index].texcoord[1].bits],
{
    let words = vertices_words(vertices);
    let buffer = vertices_layout(vertices);
    let vertex = vertices[index];
    let position = quad_layout().attributes[0];
    let texcoord = quad_layout().attributes[1];
    assert(position == position_attribute() && texcoord == texcoord_attribute());
    assert(quad_layout().array_stride == 16);
    assert(index * quad_layout().array_stride + position.offset == 4 * (4 * index));
    assert(index * quad_layout().array_stride + texcoord.offset == 4 * (4 * index + 2));
    assert(le_word(buffer, 4 * (4 * index)) == vertex.position[0].bits) by {
        lemma_word_at(words, 4 * index);
        assert((4 * index) / 4 == index && (4 * index) % 4 == 0);
    }
    assert(le_word(buffer, 4 * (4 * index) + 4) == vertex.position[1].bits) by {
        lemma_word_at(words, 4 * index + 1);
        assert((4 * index + 1) / 4 == index && (4 * index + 1) % 4 == 1);
    }
    assert(le_word(buffer, 4 * (4 * index + 2)) == vertex.texcoord[0].bits) by {
        lemma_word_at(words, 4 * index + 2);
        assert((4 * index + 2) / 4 == index && (4 * index + 2) % 4 == 2);
    }
    assert(le_word(buffer, 4 * (4 * index + 2) + 4) == vertex.texcoord[1].bits) by {
        lemma_word_at(words, 4 * index + 3);
        assert((4 * index + 3) / 4 == index && (4 * index + 3) % 4 == 3);
    }
    assert(fetch(buffer, quad_layout(), index, position) =~= seq![
        vertex.position[0].bits,
        vertex.position[1].bits,
    ]);
    assert(fetch(buffer, quad_layout(), index, texcoord) =~= seq![
        vertex.texcoord[0].bits,
        vertex.texcoord[1].bits,
    ]);
}

/// Describes the pipeline that the host builds before the first frame.
pub fn build_pipeline() -> (pipeline: PipelineDescriptor)
    ensures
        pipeline.vertex_entry_point@ == "vert_main"@,
        pipeline.fragment_entry_point@ == "frag_main"@,
        pipeline.vertex_layout == quad_layout(),
        pipeline.bind_group_layouts@.len() == 2,
        pipeline.bind_group_layouts@[TEXTURE_SLOT as int]@ == texture_bindings(),
        pipeline.bind_group_layouts@[PARAMETER_SLOT as int]@ == parameter_bindings(),
        pipeline.vertex_data@ == vertices_layout(full_quad().vertices()),
        pipeline.vertex_data@.len() == VERTEX_BUFFER_SIZE,
        pipeline.parameter_data@ == initial_parameters().layout(),
        pipeline.parameter_data@.len() == PARAMETER_BLOCK_SIZE,
{
    let minus_one = Scalar::from_bits(MINUS_ONE_BITS);
    let one = Scalar::one();
    let quad = QuadBounds { left: minus_one, right: one, bottom: minus_one, top: one };
    let vertices = update_vertex_data(&quad);
    let parameters = Parameters {
        sigma1: Scalar::from_bits(0x4098_0000),
        tau: Scalar::from_bits(0x3D99_999A),
        gfact: Scalar::from_bits(0x4100_0000),
        epsilon: Scalar::from_bits(0x38D1_B717),
        num_gvf_iterations: 30,
        enable_xdog: 1,
        shader_index: 0,
        colors: Scalar::from_bits(0x4200_0000),
    };
    let mut texture_group: Vec<BindingLayout> = Vec::new();
    texture_group.push(BindingLayout { binding: 0, kind: BindingKind::Texture });
    texture_group.push(BindingLayout { binding: 1, kind: BindingKind::Sampler });
    assert(texture_group@ =~= texture_bindings());
    let mut parameter_group: Vec<BindingLayout> = Vec::new();
    parameter_group.push(BindingLayout { binding: 0, kind: BindingKind::UniformBuffer });
    assert(parameter_group@ =~= parameter_bindings());
    let mut bind_group_layouts: Vec<Vec<BindingLayout>> = Vec::new();
    bind_group_layouts.push(texture_group);
    bind_group_layouts.push(parameter_group);
    PipelineDescriptor {
        vertex_entry_point: "vert_main",
        fragment_entry_point: "frag_main",
        vertex_layout: VertexBufferLayout {
            array_stride: VERTEX_STRIDE as u64,
            attributes: [
                VertexAttribute { offset: 0, shader_location: 0, format: VertexFormat::Float32x2 },
                VertexAttribute { offset: 8, shader_location: 1, format: VertexFormat::Float32x2 },
            ],
        },
        bind_group_layouts,
        vertex_data: vertex_bytes(vertices.as_slice()),
        parameter_data: parameters.to_bytes(),
    }
}

} // verus!
