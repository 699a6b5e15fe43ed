use render_core::error::Error;
use render_core::geometry::{Drawable, MeshAssembly, TriangleMesh};
use render_core::gl::{
    GlCall, GlReply, ReplyKind, ARRAY_BUFFER, ELEMENT_ARRAY_BUFFER, FLOAT, STATIC_DRAW,
    TRIANGLES, UNSIGNED_INT,
};

fn geometry_bits(values: &[f32]) -> Vec<u32> {
    values.iter().map(|value| value.to_bits()).collect()
}

fn geometry_triangle_points() -> Vec<f32> {
    vec![0.0, 0.0, 0.0, 1.0, 0.0, 0.0, 0.0, 1.0, 0.0]
}

fn geometry_triangle_normals() -> Vec<f32> {
    vec![0.0, 0.0, 1.0, 0.0, 0.0, 1.0, 0.0, 0.0, 1.0]
}

fn geometry_triangle() -> MeshAssembly {
    TriangleMesh::new(
        vec![0, 1, 2],
        geometry_bits(&geometry_triangle_points()),
        geometry_bits(&geometry_triangle_normals()),
        None,
        None,
    )
    .unwrap()
}

fn geometry_built_triangle() -> TriangleMesh {
    let mut assembly = geometry_triangle();
    for handle in [11, 12, 13, 20] {
        assert_eq!(assembly.awaits(), ReplyKind::Created);
        assembly.resume(GlReply::Created(Ok(handle)));
    }
    assert_eq!(assembly.awaits(), ReplyKind::Nothing);
    assembly.resume(GlReply::Nothing);
    assert!(assembly.is_finished());
    assembly.finish().unwrap()
}

fn geometry_plain_pointer(index: u32, size: i32) -> GlCall {
    GlCall::VertexAttribPointerF32 {
        index,
        size,
        data_type: FLOAT,
        normalized: false,
        stride: 0,
        offset: 0,
    }
}

#[test]
fn mesh_assembly_issues_the_calls_in_slot_order() {
    let indices: Vec<u32> = vec![0, 1, 2, 2, 1, 0];
    let points = geometry_triangle_points();
    let normals = geometry_triangle_normals();
    let tex: Vec<f32> = vec![0.0, 0.0, 1.0, 0.0, 0.0, 1.0];
    let tangents: Vec<f32> = vec![1.0, 0.0, 0.0, 1.0, 1.0, 0.0, 0.0, 1.0, 1.0, 0.0, 0.0, -1.0];
    let mut assembly = TriangleMesh::new(
        indices.clone(),
        geometry_bits(&points),
        geometry_bits(&normals),
        Some(geometry_bits(&tex)),
        Some(geometry_bits(&tangents)),
    )
    .unwrap();

    assert!(!assembly.is_finished());
    assert_eq!(assembly.awaits(), ReplyKind::Created);
    assert_eq!(assembly.pending(), vec![GlCall::CreateBuffer]);

    assembly.resume(GlReply::Created(Ok(11)));
    assert_eq!(
        assembly.pending(),
        vec![
            GlCall::BindBuffer { target: ELEMENT_ARRAY_BUFFER, buffer: 11 },
            GlCall::BufferData {
                target: ELEMENT_ARRAY_BUFFER,
                data: bytemuck::cast_slice::<u32, u8>(&indices).to_vec(),
                usage: STATIC_DRAW,
            },
            GlCall::CreateBuffer,
        ]
    );

    assembly.resume(GlReply::Created(Ok(12)));
    assert_eq!(
        assembly.pending(),
        vec![
            GlCall::BindBuffer { target: ARRAY_BUFFER, buffer: 12 },
            GlCall::BufferData {
                target: ARRAY_BUFFER,
                data: bytemuck::cast_slice::<f32, u8>(&points).to_vec(),
                usage: STATIC_DRAW,
            },
            GlCall::CreateBuffer,
        ]
    );

    assembly.resume(GlReply::Created(Ok(13)));
    assert_eq!(
        assembly.pending(),
        vec![
            GlCall::BindBuffer { target: ARRAY_BUFFER, buffer: 13 },
            GlCall::BufferData {
                target: ARRAY_BUFFER,
                data: bytemuck::cast_slice::<f32, u8>(&normals).to_vec(),
                usage: STATIC_DRAW,
            },
            GlCall::CreateBuffer,
        ]
    );

    assembly.resume(GlReply::Created(Ok(14)));
    assert_eq!(
        assembly.pending(),
        vec![
            GlCall::BindBuffer { target: ARRAY_BUFFER, buffer: 14 },
            GlCall::BufferData {
                target: ARRAY_BUFFER,
                data: bytemuck::cast_slice::<f32, u8>(&tex).to_vec(),
                usage: STATIC_DRAW,
            },
            GlCall::CreateBuffer,
        ]
    );

    assembly.resume(GlReply::Created(Ok(15)));
    assert_eq!(
        assembly.pending(),
        vec![
            GlCall::BindBuffer { target: ARRAY_BUFFER, buffer: 15 },
            GlCall::BufferData {
                target: ARRAY_BUFFER,
                data: bytemuck::cast_slice::<f32, u8>(&tangents).to_vec(),
                usage: STATIC_DRAW,
            },
            GlCall::CreateVertexArray,
        ]
    );

    assembly.resume(GlReply::Created(Ok(20)));
    assert_eq!(assembly.awaits(), ReplyKind::Nothing);
    assert_eq!(
        assembly.pending(),
        vec![
            GlCall::BindVertexArray { vertex_array: 20 },
            GlCall::BindBuffer { target: ELEMENT_ARRAY_BUFFER, buffer: 11 },
            GlCall::BindBuffer { target: ARRAY_BUFFER, buffer: 12 },
            geometry_plain_pointer(0, 3),
            GlCall::EnableVertexAttribArray { index: 0 },
            GlCall::BindBuffer { target: ARRAY_BUFFER, buffer: 13 },
            geometry_plain_pointer(1, 3),
            GlCall::EnableVertexAttribArray { index: 1 },
            GlCall::BindBuffer { target: ARRAY_BUFFER, buffer: 14 },
            geometry_plain_pointer(2, 2),
            GlCall::EnableVertexAttribArray { index: 2 },
            GlCall::BindBuffer { target: ARRAY_BUFFER, buffer: 15 },
            geometry_plain_pointer(3, 4),
            GlCall::EnableVertexAttribArray { index: 3 },
        ]
    );

    assembly.resume(GlReply::Nothing);
    assert!(assembly.is_finished());
    assert_eq!(assembly.pending(), vec![]);
    let mesh = assembly.finish().unwrap();
    assert_eq!(mesh.vertex_count(), 6);
    assert_eq!(mesh.get_vertex_array(), 20);
    assert_eq!(mesh.buffers(), &vec![11, 12, 13, 14, 15]);
}

#[test]
fn mesh_tangents_keep_slot_three_without_texture_coordinates() {
    let tangents: Vec<f32> = vec![1.0; 12];
    let mut assembly = TriangleMesh::new(
        vec![0, 1, 2],
        geometry_bits(&geometry_triangle_points()),
        geometry_bits(&geometry_triangle_normals()),
        None,
        Some(geometry_bits(&tangents)),
    )
    .unwrap();
    for handle in [1, 2, 3, 4, 9] {
        assembly.resume(GlReply::Created(Ok(handle)));
    }
    let wiring = assembly.pending();
    assert_eq!(wiring.len(), 11);
    assert_eq!(wiring[8], GlCall::BindBuffer { target: ARRAY_BUFFER, buffer: 4 });
    assert_eq!(wiring[9], geometry_plain_pointer(3, 4));
    assert_eq!(wiring[10], GlCall::EnableVertexAttribArray { index: 3 });
}

#[test]
fn mesh_upload_holds_the_bytes_of_the_words_in_memory_order() {
    let points: Vec<u32> = vec![
        0x0403_0201, 0x0807_0605, 0x0C0B_0A09, 0x100F_0E0D, 0, 1, 0xFFFF_FFFF, 0x8000_0000, 0x7F,
    ];
    let mut assembly =
        TriangleMesh::new(vec![2, 1], points.clone(), vec![0; 9], None, None).unwrap();
    assembly.resume(GlReply::Created(Ok(1)));
    let mut index_bytes: Vec<u8> = Vec::new();
    index_bytes.extend_from_slice(&2u32.to_ne_bytes());
    index_bytes.extend_from_slice(&1u32.to_ne_bytes());
    assert_eq!(
        assembly.pending()[1],
        GlCall::BufferData { target: ELEMENT_ARRAY_BUFFER, data: index_bytes, usage: STATIC_DRAW }
    );
    assembly.resume(GlReply::Created(Ok(2)));
    let mut point_bytes: Vec<u8> = Vec::new();
    for word in points.iter() {
        point_bytes.extend_from_slice(&word.to_ne_bytes());
    }
    assert_eq!(point_bytes.len(), 36);
    assert_eq!(
        assembly.pending()[1],
        GlCall::BufferData { target: ARRAY_BUFFER, data: point_bytes, usage: STATIC_DRAW }
    );
}

#[test]
fn mesh_first_creation_failure_leaves_nothing_to_release() {
    let mut assembly = geometry_triangle();
    assembly.resume(GlReply::Created(Err("no buffer".to_string())));
    assert!(assembly.is_finished());
    assert_eq!(assembly.pending(), vec![]);
    assert_eq!(assembly.finish().unwrap_err(), Error::GpuResource("no buffer".to_string()));
}

#[test]
fn mesh_later_creation_failure_releases_the_buffers_made_so_far() {
    let mut assembly = geometry_triangle();
    assembly.resume(GlReply::Created(Ok(11)));
    assembly.resume(GlReply::Created(Ok(12)));
    assembly.resume(GlReply::Created(Err("out of memory".to_string())));
    assert!(!assembly.is_finished());
    assert_eq!(assembly.awaits(), ReplyKind::Nothing);
    assert_eq!(
        assembly.pending(),
        vec![GlCall::DeleteBuffer { buffer: 11 }, GlCall::DeleteBuffer { buffer: 12 }]
    );
    assembly.resume(GlReply::Nothing);
    assert!(assembly.is_finished());
    assert_eq!(assembly.pending(), vec![]);
    assert_eq!(assembly.finish().unwrap_err(), Error::GpuResource("out of memory".to_string()));
}

#[test]
fn mesh_vertex_array_failure_releases_every_buffer() {
    let mut assembly = geometry_triangle();
    for handle in [11, 12, 13] {
        assembly.resume(GlReply::Created(Ok(handle)));
    }
    assembly.resume(GlReply::Created(Err("no vertex array".to_string())));
    assert_eq!(
        assembly.pending(),
        vec![
            GlCall::DeleteBuffer { buffer: 11 },
            GlCall::DeleteBuffer { buffer: 12 },
            GlCall::DeleteBuffer { buffer: 13 },
        ]
    );
    assembly.resume(GlReply::Nothing);
    assert_eq!(assembly.finish().unwrap_err(), Error::GpuResource("no vertex array".to_string()));
}

#[test]
fn mesh_rejects_points_that_are_no_triples() {
    let outcome = TriangleMesh::new(vec![0], vec![0; 4], vec![0; 4], None, None);
    assert_eq!(outcome.unwrap_err(), Error::InvalidGeometry);
}

#[test]
fn mesh_rejects_normals_of_another_length() {
    let outcome = TriangleMesh::new(vec![0], vec![0; 9], vec![0; 6], None, None);
    assert_eq!(outcome.unwrap_err(), Error::InvalidGeometry);
}

#[test]
fn mesh_rejects_an_index_beyond_the_vertices() {
    let outcome = TriangleMesh::new(vec![0, 1, 3], vec![0; 9], vec![0; 9], None, None);
    assert_eq!(outcome.unwrap_err(), Error::InvalidGeometry);
    assert!(TriangleMesh::new(vec![0, 1, 2], vec![0; 9], vec![0; 9], None, None).is_ok());
}

#[test]
fn mesh_rejects_texture_coordinates_that_are_no_pairs_per_vertex() {
    let outcome = TriangleMesh::new(vec![0], vec![0; 9], vec![0; 9], Some(vec![0; 9]), None);
    assert_eq!(outcome.unwrap_err(), Error::InvalidGeometry);
    assert!(TriangleMesh::new(vec![0], vec![0; 9], vec![0; 9], Some(vec![0; 6]), None).is_ok());
}

#[test]
fn mesh_rejects_tangents_that_are_no_quadruples_per_vertex() {
    let outcome = TriangleMesh::new(vec![0], vec![0; 9], vec![0; 9], None, Some(vec![0; 9]));
    assert_eq!(outcome.unwrap_err(), Error::InvalidGeometry);
    assert!(TriangleMesh::new(vec![0], vec![0; 9], vec![0; 9], None, Some(vec![0; 12])).is_ok());
}

#[test]
fn mesh_without_vertices_takes_no_index() {
    assert!(TriangleMesh::new(vec![], vec![], vec![], None, None).is_ok());
    let outcome = TriangleMesh::new(vec![0], vec![], vec![], None, None);
    assert_eq!(outcome.unwrap_err(), Error::InvalidGeometry);
}

#[test]
fn mesh_render_binds_then_draws_all_indices() {
    let mesh = geometry_built_triangle();
    assert_eq!(
        mesh.render(),
        vec![
            GlCall::BindVertexArray { vertex_array: 20 },
            GlCall::DrawElements { mode: TRIANGLES, count: 3, element_type: UNSIGNED_INT, offset: 0 },
        ]
    );
}

#[test]
fn mesh_release_deletes_each_buffer_once() {
    let mut mesh = geometry_built_triangle();
    assert_eq!(
        mesh.delete_buffers(),
        vec![
            GlCall::DeleteBuffer { buffer: 11 },
            GlCall::DeleteBuffer { buffer: 12 },
            GlCall::DeleteBuffer { buffer: 13 },
        ]
    );
    assert_eq!(mesh.buffers(), &Vec::<u32>::new());
    assert_eq!(mesh.get_vertex_array(), 20);
    // A second release is a no-op, and a released mesh draws nothing.
    assert_eq!(mesh.delete_buffers(), vec![]);
    assert_eq!(mesh.render(), vec![]);
}

#[test]
fn torus_mesh_takes_the_torus_index_list() {
    let vertices = 4 * 5;
    let mut assembly = TriangleMesh::new_torus(
        4,
        4,
        vec![0; 3 * vertices],
        vec![0; 3 * vertices],
        vec![0; 2 * vertices],
    )
    .unwrap();
    assembly.resume(GlReply::Created(Ok(1)));
    let calls = assembly.pending();
    let indices = render_core::torus::torus_indices(4, 4).unwrap();
    assert_eq!(
        calls[1],
        GlCall::BufferData {
            target: ELEMENT_ARRAY_BUFFER,
            data: bytemuck::cast_slice::<u32, u8>(&indices).to_vec(),
            usage: STATIC_DRAW,
        }
    );
    for handle in [2, 3, 4, 9] {
        assembly.resume(GlReply::Created(Ok(handle)));
    }
    // Positions, normals and texture coordinates, no tangents.
    assert_eq!(assembly.pending().len(), 11);
    assembly.resume(GlReply::Nothing);
    let mesh = assembly.finish().unwrap();
    assert_eq!(mesh.vertex_count(), 96);
    assert_eq!(mesh.buffers().len(), 4);
}

#[test]
fn torus_mesh_rejects_arrays_of_another_grid() {
    let outcome = TriangleMesh::new_torus(4, 4, vec![0; 60], vec![0; 60], vec![0; 38]);
    assert_eq!(outcome.unwrap_err(), Error::InvalidGeometry);
    let outcome = TriangleMesh::new_torus(4, 4, vec![0; 57], vec![0; 57], vec![0; 38]);
    assert_eq!(outcome.unwrap_err(), Error::InvalidGeometry);
    let outcome = TriangleMesh::new_torus(4, 4, vec![0; 60], vec![0; 57], vec![0; 40]);
    assert_eq!(outcome.unwrap_err(), Error::InvalidGeometry);
    let outcome = TriangleMesh::new_torus(20_000, 20_000, vec![], vec![], vec![]);
    assert_eq!(outcome.unwrap_err(), Error::InvalidGeometry);
}
