//! Geometry of the textured quad: the vertex format and the fixed mesh.
//!
//! Coordinates are fixed-point numbers with sixteen fractional bits, so that the
//! flip of a texture coordinate and the orientation of a triangle are exact
//! integer statements. A coordinate `c` stands for the real number `c / ONE`.

use vstd::prelude::*;
use crate::gpu::{VertexAttribute, VertexFormat, VertexStepMode};

verus! {

/// The fixed-point representation of `1`.
pub const ONE: i32 = 65536;

/// The fixed-point representation of `1/2`.
pub const HALF: i32 = 32768;

/// Number of bytes of one vertex in a vertex buffer: five 32-bit components.
pub const VERTEX_STRIDE: u64 = 20;

/// Number of vertices of the quad.
pub const QUAD_VERTEX_COUNT: usize = 4;

/// Number of indices of the quad: two triangles.
pub const QUAD_INDEX_COUNT: usize = 6;

/// A point in model space.
#[derive(Clone, Copy, Debug, PartialEq, Eq, Structural)]
pub struct Position {
    pub x: i32,
    pub y: i32,
    pub z: i32,
}

/// A point of an image, with `v` running upward as the Y axis of model space does.
#[derive(Clone, Copy, Debug, PartialEq, Eq, Structural)]
pub struct TexCoords {
    pub u: i32,
    pub v: i32,
}

/// A point in texture space, where `v` runs downward. `v` is wider than the `v`
/// of `TexCoords`, so that the flip of every `TexCoords` has a place.
#[derive(Clone, Copy, Debug, PartialEq, Eq, Structural)]
pub struct FlippedTexCoords {
    pub u: i32,
    pub v: i64,
}

/// One vertex of a mesh. `tex_coords.v` is stored flipped: texture space has its
/// origin at the top, model space at the bottom.
#[derive(Clone, Copy, Debug, PartialEq, Eq, Structural)]
pub struct Vertex {
    pub position: Position,
    pub tex_coords: FlippedTexCoords,
}

/// How the vertex shader reads a vertex buffer.
#[derive(Clone, Debug, PartialEq, Eq)]
pub struct VertexBufferLayout {
    pub array_stride: u64,
    pub step_mode: VertexStepMode,
    pub attributes: Vec<VertexAttribute>,
}

/// The attributes follow one another without a gap, the first at offset 0, each at
/// the shader location of its place in the list, and `stride` is the end of the last.
pub open spec fn tightly_packed(attributes: Seq<VertexAttribute>, stride: int) -> bool
    decreases attributes.len(),
{
    if attributes.len() == 0 {
        stride == 0
    } else {
        let last = attributes.last();
        &&& last.shader_location == attributes.len() - 1
        &&& last.offset + last.format.spec_size() == stride
        &&& tightly_packed(attributes.drop_last(), last.offset as int)
    }
}

impl Vertex {
    /// The vertex at `position` that samples the texture at `tex_coords`, `v` flipped.
    pub open spec fn spec_new(position: Position, tex_coords: TexCoords) -> Vertex {
        Vertex {
            position,
            tex_coords: FlippedTexCoords { u: tex_coords.u, v: (ONE - tex_coords.v) as i64 },
        }
    }

    /// Builds a vertex. The texture `v` coordinate is replaced by `1 - v`, for
    /// every `v`; nothing else is changed.
    pub fn new(position: Position, tex_coords: TexCoords) -> (r: Vertex)
        ensures
            r == Self::spec_new(position, tex_coords),
            r.position == position,
            r.tex_coords.u == tex_coords.u,
            r.tex_coords.v == ONE - tex_coords.v,
    {
        let one: i64 = ONE.into();
        let v: i64 = tex_coords.v.into();
        Vertex { position, tex_coords: FlippedTexCoords { u: tex_coords.u, v: one - v } }
    }

    /// The attributes of a vertex: the position as three floats at offset 0, then
    /// the texture coordinates as two floats.
    pub open spec fn spec_attributes() -> Seq<VertexAttribute> {
        seq![
            VertexAttribute { format: VertexFormat::Float32x3, offset: 0, shader_location: 0 },
            VertexAttribute { format: VertexFormat::Float32x2, offset: 12, shader_location: 1 },
        ]
    }

    /// `layout` is the layout of a buffer of vertices: one vertex every
    /// `VERTEX_STRIDE` bytes, stepped per vertex, with the attributes of
    /// `spec_attributes`.
    pub open spec fn is_layout(layout: VertexBufferLayout) -> bool {
        &&& layout.array_stride == VERTEX_STRIDE
        &&& layout.step_mode == VertexStepMode::Vertex
        &&& layout.attributes@ == Self::spec_attributes()
    }

    /// The layout of a buffer of vertices.
    pub fn layout() -> (r: VertexBufferLayout)
        ensures
            Self::is_layout(r),
            tightly_packed(r.attributes@, r.array_stride as int),
    {
        let position = VertexAttribute {
            format: VertexFormat::Float32x3,
            offset: 0,
            shader_location: 0,
        };
        let tex_coords = VertexAttribute {
            format: VertexFormat::Float32x2,
            offset: position.format.size(),
            shader_location: 1,
        };
        let mut attributes: Vec<VertexAttribute> = Vec::new();
        attributes.push(position);
        attributes.push(tex_coords);
        proof {
            assert(attributes@ =~= Self::spec_attributes());
            lemma_attributes_tightly_packed();
        }
        VertexBufferLayout {
            array_stride: tex_coords.offset + tex_coords.format.size(),
            step_mode: VertexStepMode::Vertex,
            attributes,
        }
    }
}

/// The attributes of a vertex fill its `VERTEX_STRIDE` bytes without padding.
pub proof fn lemma_attributes_tightly_packed()
    ensures
        tightly_packed(Vertex::spec_attributes(), VERTEX_STRIDE as int),
{
    let attributes = Vertex::spec_attributes();
    let first = attributes.drop_last();
    assert(first.len() == 1);
    assert(first.last() == attributes[0]);
    assert(first.drop_last().len() == 0);
    assert(tightly_packed(first.drop_last(), 0));
    assert(tightly_packed(first, 12));
}

/// Twice the signed area of the triangle `a`, `b`, `c` projected on the XY plane.
/// It is positive exactly when the corners run counter-clockwise for a viewer on
/// the positive Z axis, which is where the camera stands.
pub open spec fn signed_area2(a: Position, b: Position, c: Position) -> int {
    (b.x - a.x) * (c.y - a.y) - (b.y - a.y) * (c.x - a.x)
}

/// The corners of the quad, counter-clockwise from the top right, as handed to `Vertex::new`.
pub open spec fn spec_quad_corners() -> Seq<(Position, TexCoords)> {
    seq![
        (Position { x: HALF, y: HALF, z: 0 }, TexCoords { u: ONE, v: ONE }),
        (Position { x: (-HALF) as i32, y: HALF, z: 0 }, TexCoords { u: 0, v: ONE }),
        (Position { x: (-HALF) as i32, y: (-HALF) as i32, z: 0 }, TexCoords { u: 0, v: 0 }),
        (Position { x: HALF, y: (-HALF) as i32, z: 0 }, TexCoords { u: ONE, v: 0 }),
    ]
}

/// The vertices of the quad: a square of side 1 about the origin of the XY plane.
pub open spec fn spec_quad_vertices() -> Seq<Vertex> {
    Seq::new(
        QUAD_VERTEX_COUNT as nat,
        |i: int| Vertex::spec_new(spec_quad_corners()[i].0, spec_quad_corners()[i].1),
    )
}

/// The indices of the quad: the triangles (0, 1, 2) and (0, 2, 3).
pub open spec fn spec_quad_indices() -> Seq<u16> {
    seq![0u16, 1, 2, 0, 2, 3]
}

/// The four vertices of the quad.
pub fn quad_vertices() -> (r: Vec<Vertex>)
    ensures
        r@ == spec_quad_vertices(),
{
    let mut vertices: Vec<Vertex> = Vec::new();
    vertices.push(
        Vertex::new(Position { x: HALF, y: HALF, z: 0 }, TexCoords { u: ONE, v: ONE }),
    );
    vertices.push(
        Vertex::new(Position { x: -HALF, y: HALF, z: 0 }, TexCoords { u: 0, v: ONE }),
    );
    vertices.push(
        Vertex::new(Position { x: -HALF, y: -HALF, z: 0 }, TexCoords { u: 0, v: 0 }),
    );
    vertices.push(
        Vertex::new(Position { x: HALF, y: -HALF, z: 0 }, TexCoords { u: ONE, v: 0 }),
    );
    vertices
}

/// The six indices of the quad.
pub fn quad_indices() -> (r: Vec<u16>)
    ensures
        r@ == spec_quad_indices(),
{
    let mut indices: Vec<u16> = Vec::new();
    indices.push(0);
    indices.push(1);
    indices.push(2);
    indices.push(0);
    indices.push(2);
    indices.push(3);
    indices
}

/// The bytes of `values`, two for each, the low byte first.
pub open spec fn le_bytes(values: Seq<u16>) -> Seq<u8> {
    Seq::new(
        2 * values.len(),
        |i: int|
            if i % 2 == 0 {
                (values[i / 2] % 256) as u8
            } else {
                (values[i / 2] / 256) as u8
            },
    )
}

/// The bytes of `values`, two for each, the high byte first.
pub open spec fn be_bytes(values: Seq<u16>) -> Seq<u8> {
    Seq::new(
        2 * values.len(),
        |i: int|
            if i % 2 == 0 {
                (values[i / 2] / 256) as u8
            } else {
                (values[i / 2] % 256) as u8
            },
    )
}

/// `bytes` holds `indices` as the machine lays 16-bit integers out in memory: all
/// of them low byte first, or all of them high byte first.
pub open spec fn encodes_indices(bytes: Seq<u8>, indices: Seq<u16>) -> bool {
    bytes == le_bytes(indices) || bytes == be_bytes(indices)
}

/// Calls `bytemuck::cast_slice` from `u16` to `u8`, which hands out the memory of
/// the integers as bytes: the same address, twice the length, in the byte order
/// of the machine. For these two types the cast has no failure case.
#[verifier::external_body]
fn cast_indices<'a>(indices: &'a [u16]) -> (r: &'a [u8])
    ensures
        encodes_indices(r@, indices@),
{
    bytemuck::cast_slice(indices)
}

/// The contents of an index buffer that holds `indices`.
pub fn index_bytes(indices: &[u16]) -> (r: Vec<u8>)
    ensures
        encodes_indices(r@, indices@),
        r@.len() == 2 * indices@.len(),
{
    vstd::slice::slice_to_vec(cast_indices(indices))
}

/// Every index of the quad names one of its vertices.
pub proof fn lemma_quad_indices_in_range()
    ensures
        spec_quad_indices().len() == QUAD_INDEX_COUNT,
        spec_quad_vertices().len() == QUAD_VERTEX_COUNT,
        forall|i: int|
            0 <= i < spec_quad_indices().len() ==> (#[trigger] spec_quad_indices()[i])
                < spec_quad_vertices().len(),
{
}

/// Twice the signed area of the `t`-th triangle of the quad, `t` being 0 or 1.
pub open spec fn quad_triangle_area2(t: int) -> int {
    let vertices = spec_quad_vertices();
    let indices = spec_quad_indices();
    signed_area2(
        vertices[indices[3 * t] as int].position,
        vertices[indices[3 * t + 1] as int].position,
        vertices[indices[3 * t + 2] as int].position,
    )
}

/// Both triangles of the quad wind counter-clockwise as the camera sees them, and
/// together they have the area of the unit square.
pub proof fn lemma_quad_winding()
    ensures
        quad_triangle_area2(0) > 0,
        quad_triangle_area2(1) > 0,
        quad_triangle_area2(0) + quad_triangle_area2(1) == 2 * (ONE * ONE),
{
    let vertices = spec_quad_vertices();
    let indices = spec_quad_indices();
    let a = vertices[0].position;
    let b = vertices[1].position;
    let c = vertices[2].position;
    let d = vertices[3].position;
    assert(a == Position { x: HALF, y: HALF, z: 0 });
    assert(b == Position { x: (-HALF) as i32, y: HALF, z: 0 });
    assert(c == Position { x: (-HALF) as i32, y: (-HALF) as i32, z: 0 });
    assert(d == Position { x: HALF, y: (-HALF) as i32, z: 0 });
    assert(indices[0] == 0 && indices[1] == 1 && indices[2] == 2);
    assert(indices[3] == 0 && indices[4] == 2 && indices[5] == 3);
    assert(signed_area2(a, b, c) == ONE * ONE) by (nonlinear_arith)
        requires
            a.x == HALF && a.y == HALF,
            b.x == -HALF && b.y == HALF,
            c.x == -HALF && c.y == -HALF,
    ;
    assert(signed_area2(a, c, d) == ONE * ONE) by (nonlinear_arith)
        requires
            a.x == HALF && a.y == HALF,
            c.x == -HALF && c.y == -HALF,
            d.x == HALF && d.y == -HALF,
    ;
    assert(ONE * ONE > 0) by (nonlinear_arith);
}

} // verus!
