//! The textured quad: its six vertices and their layout in the vertex buffer.

use vstd::prelude::*;
use crate::layout::{encode_words, words_bytes, Scalar, ONE_BITS, ZERO_BITS};

verus! {

/// Number of vertices of the quad: two triangles of three.
pub const QUAD_VERTEX_COUNT: usize = 6;

/// Number of bytes one vertex occupies in the vertex buffer.
pub const VERTEX_STRIDE: usize = 16;

/// Size in bytes of the vertex buffer.
pub const VERTEX_BUFFER_SIZE: usize = 96;

/// A corner as the vertex stage reads it: where it lies on screen, and which point of
/// the image is shown there.
#[derive(Debug, Clone, Copy, PartialEq, Eq)]
pub struct Vertex {
    pub position: [Scalar; 2],
    pub texcoord: [Scalar; 2],
}

/// The edges of the quad in normalized device coordinates, `x` growing to the right and
/// `y` growing upwards.
#[derive(Debug, Clone, Copy, PartialEq, Eq, Structural)]
pub struct QuadBounds {
    pub left: Scalar,
    pub right: Scalar,
    pub bottom: Scalar,
    pub top: Scalar,
}

impl Vertex {
    /// The four words of the vertex: position, then texture coordinate.
    pub open spec fn words(self) -> Seq<u32> {
        seq![
            self.position[0].bits,
            self.position[1].bits,
            self.texcoord[0].bits,
            self.texcoord[1].bits,
        ]
    }

    /// The vertex at (`x`, `y`) that shows the image point (`u`, `v`).
    pub open spec fn at(x: Scalar, y: Scalar, u: u32, v: u32) -> Vertex {
        Vertex { position: [x, y], texcoord: [Scalar { bits: u }, Scalar { bits: v }] }
    }
}

impl QuadBounds {
    /// The two triangles that cover the quad.
    ///
    /// Both share the diagonal from the bottom left to the top right corner and run
    /// counter-clockwise where `left` lies left of `right` and `bottom` below `top`.
    /// The texture coordinates are the same for every quad: row zero of the image is
    /// at the top.
    pub open spec fn vertices(self) -> Seq<Vertex> {
        seq![
            Vertex::at(self.left, self.bottom, ZERO_BITS, ONE_BITS),
            Vertex::at(self.right, self.top, ONE_BITS, ZERO_BITS),
            Vertex::at(self.left, self.top, ZERO_BITS, ZERO_BITS),
            Vertex::at(self.right, self.top, ONE_BITS, ZERO_BITS),
            Vertex::at(self.left, self.bottom, ZERO_BITS, ONE_BITS),
            Vertex::at(self.right, self.bottom, ONE_BITS, ONE_BITS),
        ]
    }
}

/// Every vertex of a quad lies on a corner of its bounds and shows the matching corner
/// of the image: the left edge shows column zero, the top edge row zero. The texture
/// coordinates depend on the corner alone, not on where the bounds lie.
pub proof fn lemma_quad_corners(bounds: QuadBounds, index: int)
    requires
        0 <= index < QUAD_VERTEX_COUNT,
    ensures
        bounds.vertices().len() == QUAD_VERTEX_COUNT,
        ({
            let vertex = bounds.vertices()[index];
            let on_left = index == 0 || index == 2 || index == 4;
            let on_top = index == 1 || index == 2 || index == 3;
            &&& vertex.position[0] == if on_left { bounds.left } else { bounds.right }
            &&& vertex.position[1] == if on_top { bounds.top } else { bounds.bottom }
            &&& vertex.texcoord[0].bits == if on_left { ZERO_BITS } else { ONE_BITS }
            &&& vertex.texcoord[1].bits == if on_top { ZERO_BITS } else { ONE_BITS }
        }),
{
}

/// The words of a run of vertices: vertex `i` occupies words `4 * i` to `4 * i + 3`.
pub open spec fn vertices_words(vertices: Seq<Vertex>) -> Seq<u32> {
    Seq::new(4 * vertices.len(), |k: int| vertices[k / 4].words()[k % 4])
}

/// The bytes of a run of vertices in the vertex buffer.
pub open spec fn vertices_layout(vertices: Seq<Vertex>) -> Seq<u8> {
    words_bytes(vertices_words(vertices))
}

/// Builds the six vertices of the quad with the given edges.
pub fn update_vertex_data(bounds: &QuadBounds) -> (vertices: Vec<Vertex>)
    ensures
        vertices@ == bounds.vertices(),
        vertices@.len() == QUAD_VERTEX_COUNT,
{
    let zero = Scalar::zero();
    let one = Scalar::one();
    let bottom_left = Vertex { position: [bounds.left, bounds.bottom], texcoord: [zero, one] };
    let top_left = Vertex { position: [bounds.left, bounds.top], texcoord: [zero, zero] };
    let top_right = Vertex { position: [bounds.right, bounds.top], texcoord: [one, zero] };
    let bottom_right = Vertex { position: [bounds.right, bounds.bottom], texcoord: [one, one] };
    let mut vertices: Vec<Vertex> = Vec::new();
    vertices.push(bottom_left);
    vertices.push(top_right);
    vertices.push(top_left);
    vertices.push(top_right);
    vertices.push(bottom_left);
    vertices.push(bottom_right);
    assert(vertices@ =~= bounds.vertices());
    vertices
}

/// Serializes vertices for upload to the vertex buffer.
pub fn vertex_bytes(vertices: &[Vertex]) -> (bytes: Vec<u8>)
    ensures
        bytes@ == vertices_layout(vertices@),
        bytes@.len() == VERTEX_STRIDE * vertices@.len(),
{
    let mut words: Vec<u32> = Vec::new();
    let mut i: usize = 0;
    while i < vertices.len()
        invariant
            i <= vertices.len(),
            words@ == vertices_words(vertices@.take(i as int)),
        decreases vertices.len() - i,
    {
        let vertex = &vertices[i];
        words.push(vertex.position[0].bits);
        words.push(vertex.position[1].bits);
        words.push(vertex.texcoord[0].bits);
        words.push(vertex.texcoord[1].bits);
        assert(words@ =~= vertices_words(vertices@.take(i + 1))) by {
            let longer = vertices_words(vertices@.take(i + 1));
            assert forall|k: int| 0 <= k < longer.len() implies words@[k] == longer[k] by {
                if k < 4 * i {
                    assert(vertices@.take(i as int)[k / 4] == vertices@.take(i + 1)[k / 4]);
                } else {
                    assert(k / 4 == i);
                }
            }
        }
        i += 1;
    }
    assert(vertices@.take(i as int) =~= vertices@);
    encode_words(words.as_slice())
}

} // verus!
