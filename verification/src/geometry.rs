//! The static geometry: one full-screen quad.
//!
//! Four vertices span normalized device coordinates `(-1, -1)` to `(1, 1)`;
//! six 16-bit indices describe two counter-clockwise triangles covering the
//! quad. Every coordinate of this quad is `-1`, `0` or `1` and every texture
//! coordinate `0` or `1`, so the geometry is held exactly in integers; the
//! shell converts it to the 32-bit floats the vertex buffer stores. Both
//! buffers are uploaded once and never rewritten.

use vstd::prelude::*;

verus! {

/// The quad has exactly this many vertices.
pub const VERTEX_COUNT: u32 = 4;

/// The quad has exactly this many indices: two triangles.
pub const INDEX_COUNT: u32 = 6;

/// Byte stride of one vertex in the GPU buffer: three 32-bit floats of
/// position and two of texture coordinates.
pub const VERTEX_STRIDE: u64 = 20;

/// Byte offset of the texture coordinates within a vertex: past the three
/// 32-bit floats of position.
pub const TEX_COORDS_OFFSET: u64 = 12;

/// One vertex: a position in normalized device coordinates and texture
/// coordinates, with texture `(0, 0)` at the top-left.
#[derive(Clone, Copy, Debug, PartialEq, Eq)]
pub struct Vertex {
    pub position: (i32, i32, i32),
    pub tex_coords: (u32, u32),
}

/// The quad's vertices, counter-clockwise from the bottom-left corner.
pub open spec fn quad_vertex_seq() -> Seq<Vertex> {
    seq![
        Vertex { position: (-1i32, -1i32, 0i32), tex_coords: (0u32, 1u32) },
        Vertex { position: (1i32, -1i32, 0i32), tex_coords: (1u32, 1u32) },
        Vertex { position: (1i32, 1i32, 0i32), tex_coords: (1u32, 0u32) },
        Vertex { position: (-1i32, 1i32, 0i32), tex_coords: (0u32, 0u32) },
    ]
}

/// The quad's index list: two triangles sharing the diagonal `0`-`2`.
pub open spec fn quad_index_seq() -> Seq<u16> {
    seq![0u16, 1u16, 2u16, 0u16, 2u16, 3u16]
}

/// Build the vertex list the shell uploads to the vertex buffer.
pub fn quad_vertices() -> (r: Vec<Vertex>)
    ensures
        r@ == quad_vertex_seq(),
        r@.len() == VERTEX_COUNT,
{
    let mut r: Vec<Vertex> = Vec::new();
    r.push(Vertex { position: (-1, -1, 0), tex_coords: (0, 1) });
    r.push(Vertex { position: (1, -1, 0), tex_coords: (1, 1) });
    r.push(Vertex { position: (1, 1, 0), tex_coords: (1, 0) });
    r.push(Vertex { position: (-1, 1, 0), tex_coords: (0, 0) });
    proof {
        assert(r@ =~= quad_vertex_seq());
    }
    r
}

/// Build the index list the shell uploads to the index buffer.
pub fn quad_indices() -> (r: Vec<u16>)
    ensures
        r@ == quad_index_seq(),
        r@.len() == INDEX_COUNT,
{
    let mut r: Vec<u16> = Vec::new();
    r.push(0);
    r.push(1);
    r.push(2);
    r.push(0);
    r.push(2);
    r.push(3);
    proof {
        assert(r@ =~= quad_index_seq());
    }
    r
}

/// Twice the signed area of the triangle `(a, b, c)` projected on the NDC
/// plane; a positive value means counter-clockwise winding.
pub open spec fn winding(a: Vertex, b: Vertex, c: Vertex) -> int {
    (b.position.0 - a.position.0) * (c.position.1 - a.position.1) - (b.position.1 - a.position.1)
        * (c.position.0 - a.position.0)
}

/// Whether triangle number `t` of an indexed mesh winds counter-clockwise.
pub open spec fn triangle_ccw(vertices: Seq<Vertex>, indices: Seq<u16>, t: int) -> bool {
    winding(
        vertices[indices[3 * t] as int],
        vertices[indices[3 * t + 1] as int],
        vertices[indices[3 * t + 2] as int],
    ) > 0
}

/// Geometry law: the quad is exactly 4 vertices and 6 indices, every index
/// is in range, and both triangles wind counter-clockwise.
pub proof fn lemma_quad_geometry()
    ensures
        quad_vertex_seq().len() == VERTEX_COUNT,
        quad_index_seq().len() == INDEX_COUNT,
        forall|i: int|
            0 <= i < quad_index_seq().len() ==> quad_index_seq()[i] < VERTEX_COUNT,
        triangle_ccw(quad_vertex_seq(), quad_index_seq(), 0),
        triangle_ccw(quad_vertex_seq(), quad_index_seq(), 1),
{
    assert forall|i: int| 0 <= i < quad_index_seq().len() implies quad_index_seq()[i]
        < VERTEX_COUNT by {
        assert(quad_index_seq()[i] == 0 || quad_index_seq()[i] == 1 || quad_index_seq()[i] == 2
            || quad_index_seq()[i] == 3);
    }
    let a = quad_vertex_seq()[0];
    let b = quad_vertex_seq()[1];
    let c = quad_vertex_seq()[2];
    let d = quad_vertex_seq()[3];
    assert(a.position == (-1i32, -1i32, 0i32));
    assert(b.position == (1i32, -1i32, 0i32));
    assert(c.position == (1i32, 1i32, 0i32));
    assert(d.position == (-1i32, 1i32, 0i32));
    assert(winding(a, b, c) == 4) by (nonlinear_arith)
        requires
            a.position.0 == -1,
            a.position.1 == -1,
            b.position.0 == 1,
            b.position.1 == -1,
            c.position.0 == 1,
            c.position.1 == 1,
    ;
    assert(winding(a, c, d) == 4) by (nonlinear_arith)
        requires
            a.position.0 == -1,
            a.position.1 == -1,
            c.position.0 == 1,
            c.position.1 == 1,
            d.position.0 == -1,
            d.position.1 == 1,
    ;
}

/// A GPU vertex attribute format, as far as this pipeline uses them.
#[derive(Clone, Copy, Debug, PartialEq, Eq, Structural)]
pub enum VertexFormat {
    Float32x2,
    Float32x3,
}

/// One attribute of the vertex buffer layout.
#[derive(Clone, Copy, Debug, PartialEq, Eq, Structural)]
pub struct VertexAttribute {
    pub offset: u64,
    pub shader_location: u32,
    pub format: VertexFormat,
}

/// The vertex buffer layout: stride, stepping, and the attribute list.
#[derive(Debug, PartialEq, Eq)]
pub struct VertexBufferLayout {
    pub array_stride: u64,
    pub step_per_vertex: bool,
    pub attributes: Vec<VertexAttribute>,
}

impl Vertex {
    /// The layout of the vertex buffer: per-vertex stepping with a stride
    /// of one vertex, attribute 0 the position (three 32-bit floats at
    /// offset 0) and attribute 1 the texture coordinates (two 32-bit floats
    /// following it).
    pub fn desc() -> (r: VertexBufferLayout)
        ensures
            r.array_stride == VERTEX_STRIDE,
            r.step_per_vertex,
            r.attributes@.len() == 2,
            r.attributes@[0] == (VertexAttribute {
                offset: 0,
                shader_location: 0,
                format: VertexFormat::Float32x3,
            }),
            r.attributes@[1] == (VertexAttribute {
                offset: TEX_COORDS_OFFSET,
                shader_location: 1,
                format: VertexFormat::Float32x2,
            }),
    {
        let mut attributes: Vec<VertexAttribute> = Vec::new();
        attributes.push(
            VertexAttribute { offset: 0, shader_location: 0, format: VertexFormat::Float32x3 },
        );
        attributes.push(
            VertexAttribute {
                offset: TEX_COORDS_OFFSET,
                shader_location: 1,
                format: VertexFormat::Float32x2,
            },
        );
        VertexBufferLayout { array_stride: VERTEX_STRIDE, step_per_vertex: true, attributes }
    }
}

} // verus!
