use quad_renderer::geo::{
    index_bytes, quad_indices, quad_vertices, FlippedTexCoords, Position, TexCoords, Vertex, HALF,
    ONE, QUAD_INDEX_COUNT, QUAD_VERTEX_COUNT, VERTEX_STRIDE,
};
use quad_renderer::gpu::{VertexAttribute, VertexFormat, VertexStepMode};

fn to_float(coordinate: i32) -> f32 {
    coordinate as f32 / ONE as f32
}

fn area2(a: Position, b: Position, c: Position) -> i64 {
    let (ax, ay) = (a.x as i64, a.y as i64);
    let (bx, by) = (b.x as i64, b.y as i64);
    let (cx, cy) = (c.x as i64, c.y as i64);
    (bx - ax) * (cy - ay) - (by - ay) * (cx - ax)
}

#[test]
fn vertex_new_flips_v_and_keeps_u() {
    let position = Position { x: 7, y: -9, z: 11 };
    let vertex = Vertex::new(position, TexCoords { u: 16384, v: 49152 });
    assert_eq!(vertex.position, position);
    assert_eq!(vertex.tex_coords, FlippedTexCoords { u: 16384, v: 16384 });
}

#[test]
fn vertex_new_flips_the_ends_of_the_range() {
    let origin = Position { x: 0, y: 0, z: 0 };
    assert_eq!(Vertex::new(origin, TexCoords { u: 0, v: 0 }).tex_coords.v, i64::from(ONE));
    assert_eq!(Vertex::new(origin, TexCoords { u: 0, v: ONE }).tex_coords.v, 0);
}

#[test]
fn vertex_new_flips_outside_the_unit_range() {
    let origin = Position { x: 0, y: 0, z: 0 };
    assert_eq!(
        Vertex::new(origin, TexCoords { u: -5, v: -ONE }).tex_coords,
        FlippedTexCoords { u: -5, v: 2 * 65536 }
    );
    assert_eq!(
        Vertex::new(origin, TexCoords { u: 3 * ONE, v: 3 * ONE }).tex_coords.v,
        -2 * 65536
    );
    assert_eq!(
        Vertex::new(origin, TexCoords { u: 0, v: ONE - i32::MAX }).tex_coords.v,
        2147483647
    );
}

#[test]
fn vertex_new_flips_the_least_and_the_greatest_v() {
    let origin = Position { x: 0, y: 0, z: 0 };
    assert_eq!(
        Vertex::new(origin, TexCoords { u: i32::MIN, v: i32::MIN }).tex_coords,
        FlippedTexCoords { u: i32::MIN, v: 2147549184 }
    );
    assert_eq!(
        Vertex::new(origin, TexCoords { u: i32::MAX, v: i32::MAX }).tex_coords,
        FlippedTexCoords { u: i32::MAX, v: -2147418111 }
    );
}

#[test]
fn vertex_flip_agrees_with_float_arithmetic() {
    for v in [0, 1, 16384, HALF, 49152, ONE - 1, ONE] {
        let vertex = Vertex::new(Position { x: 0, y: 0, z: 0 }, TexCoords { u: v, v });
        assert_eq!(vertex.tex_coords.v as f32 / ONE as f32, 1.0 - to_float(v));
        assert_eq!(to_float(vertex.tex_coords.u), to_float(v));
    }
}

#[test]
fn fixed_point_constants_stand_for_one_and_a_half() {
    assert_eq!(to_float(ONE), 1.0);
    assert_eq!(to_float(HALF), 0.5);
    assert_eq!(to_float(-HALF), -0.5);
}

#[test]
fn quad_has_the_four_corners_of_the_unit_square() {
    let vertices = quad_vertices();
    assert_eq!(vertices.len(), QUAD_VERTEX_COUNT);
    assert_eq!(
        vertices,
        vec![
            Vertex {
                position: Position { x: HALF, y: HALF, z: 0 },
                tex_coords: FlippedTexCoords { u: ONE, v: 0 },
            },
            Vertex {
                position: Position { x: -HALF, y: HALF, z: 0 },
                tex_coords: FlippedTexCoords { u: 0, v: 0 },
            },
            Vertex {
                position: Position { x: -HALF, y: -HALF, z: 0 },
                tex_coords: FlippedTexCoords { u: 0, v: 65536 },
            },
            Vertex {
                position: Position { x: HALF, y: -HALF, z: 0 },
                tex_coords: FlippedTexCoords { u: ONE, v: 65536 },
            },
        ]
    );
}

#[test]
fn quad_indices_form_two_triangles_inside_the_vertex_list() {
    let indices = quad_indices();
    assert_eq!(indices, vec![0, 1, 2, 0, 2, 3]);
    assert_eq!(indices.len(), QUAD_INDEX_COUNT);
    assert!(indices.iter().all(|index| (*index as usize) < QUAD_VERTEX_COUNT));
}

#[test]
fn quad_triangles_wind_counter_clockwise() {
    let vertices = quad_vertices();
    let indices = quad_indices();
    let one = ONE as i64;
    for triangle in indices.chunks(3) {
        let a = vertices[triangle[0] as usize].position;
        let b = vertices[triangle[1] as usize].position;
        let c = vertices[triangle[2] as usize].position;
        assert_eq!(area2(a, b, c), one * one);
    }
}

#[test]
fn vertex_layout_is_position_then_tex_coords() {
    let layout = Vertex::layout();
    assert_eq!(layout.array_stride, 20);
    assert_eq!(layout.array_stride, VERTEX_STRIDE);
    assert_eq!(layout.step_mode, VertexStepMode::Vertex);
    assert_eq!(
        layout.attributes,
        vec![
            VertexAttribute { format: VertexFormat::Float32x3, offset: 0, shader_location: 0 },
            VertexAttribute { format: VertexFormat::Float32x2, offset: 12, shader_location: 1 },
        ]
    );
}

#[test]
fn vertex_layout_has_no_padding() {
    let layout = Vertex::layout();
    let mut end = 0;
    for attribute in &layout.attributes {
        assert_eq!(attribute.offset, end);
        end += attribute.format.size();
    }
    assert_eq!(end, layout.array_stride);
    assert_eq!(layout.array_stride as usize, 5 * std::mem::size_of::<f32>());
}

#[test]
fn vertex_format_sizes() {
    assert_eq!(VertexFormat::Float32.size(), 4);
    assert_eq!(VertexFormat::Float32x2.size(), 8);
    assert_eq!(VertexFormat::Float32x3.size(), 12);
    assert_eq!(VertexFormat::Float32x4.size(), 16);
}

#[test]
fn index_bytes_hold_the_indices_in_machine_order() {
    let indices = quad_indices();
    let bytes = index_bytes(&indices);
    assert_eq!(bytes.len(), 12);
    let decoded: Vec<u16> =
        bytes.chunks(2).map(|pair| u16::from_ne_bytes([pair[0], pair[1]])).collect();
    assert_eq!(decoded, indices);
}

#[test]
fn index_bytes_of_wide_values_keep_both_bytes() {
    let bytes = index_bytes(&[0x1234, 0xFFFE]);
    assert_eq!(bytes.len(), 4);
    let little = vec![0x34, 0x12, 0xFE, 0xFF];
    let big = vec![0x12, 0x34, 0xFF, 0xFE];
    assert!(bytes == little || bytes == big);
    assert_eq!(bytes == little, 1u16.to_ne_bytes() == [1, 0]);
}

#[test]
fn index_bytes_of_nothing_are_empty() {
    assert_eq!(index_bytes(&[]), Vec::<u8>::new());
}
