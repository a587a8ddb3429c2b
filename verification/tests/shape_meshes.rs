use render_core::mesh::Mesh;
use render_core::mesh::Vertex;
use render_core::matrix::Vec3I;
use render_core::model::ModelMesh;
use render_core::shapes::Cube;
use render_core::shapes::Plane;
use render_core::shapes::UVSphere;
use render_core::shapes::UV_UNIT;

#[test]
fn cube_mesh_has_a_quad_per_face() {
    let cube = Cube::new(2, 2, 2);
    assert_eq!(cube.max_x, 1);
    assert_eq!(cube.min_x, -1);
    let mesh = cube.mesh();
    assert_eq!(mesh.vertices.len(), 24);
    let indices = mesh.indices.as_ref().unwrap();
    assert_eq!(indices.len(), 36);
    assert!(indices.iter().all(|i| (*i as usize) < mesh.vertices.len()));
    // The first face's triangles.
    assert_eq!(&indices[0..6], &[0, 1, 2, 2, 3, 0]);
    // The first vertex sits at the face's corner with its outward
    // normal.
    assert_eq!(
        mesh.vertices[0],
        Vertex {
            position: Vec3I { x: -1, y: -1, z: 1 },
            normal: Vec3I { x: 0, y: 0, z: 1 },
            uv_u: 0,
            uv_v: 0,
        }
    );
    // One vertex of the face looking along negative y.
    assert_eq!(mesh.vertices[20].normal, Vec3I { x: 0, y: -1, z: 0 });
}

#[test]
fn plane_with_one_cell_is_two_triangles() {
    let plane = Plane { resolution: 1, size: 5 };
    let mesh = plane.mesh();
    assert_eq!(mesh.vertices.len(), 4);
    let positions: Vec<(i64, i64, i64)> = mesh
        .vertices
        .iter()
        .map(|v| (v.position.x, v.position.y, v.position.z))
        .collect();
    assert_eq!(positions, vec![(0, 0, 0), (5, 0, 0), (0, 0, 5), (5, 0, 5)]);
    assert!(mesh.vertices.iter().all(|v| v.normal == Vec3I { x: 0, y: 1, z: 0 }));
    assert_eq!(mesh.vertices[3].uv_u, UV_UNIT);
    assert_eq!(mesh.vertices[3].uv_v, UV_UNIT);
    let indices = mesh.indices.as_ref().unwrap();
    assert_eq!(indices, &vec![0, 2, 1, 1, 2, 3]);
}

#[test]
fn plane_grid_positions_interpolate() {
    let plane = Plane { resolution: 2, size: 10 };
    let mesh = plane.mesh();
    assert_eq!(mesh.vertices.len(), 9);
    let indices = mesh.indices.as_ref().unwrap();
    assert_eq!(indices.len(), 24);
    assert!(indices.iter().all(|i| (*i as usize) < 9));
    // The grid's center vertex: halfway along both axes.
    assert_eq!(mesh.vertices[4].position, Vec3I { x: 5, y: 0, z: 5 });
    assert_eq!(mesh.vertices[4].uv_u, UV_UNIT / 2);
    // The second cell of the first row.
    assert_eq!(&indices[6..12], &[1, 4, 2, 2, 4, 5]);
}

#[test]
fn sphere_topology_matches_its_grid() {
    let sphere = UVSphere { radius: 1, sectors: 3, stacks: 2 };
    let indices = sphere.indices();
    // Six triangles: one fan triangle per sector at each pole.
    assert_eq!(
        indices,
        vec![1, 4, 5, 2, 5, 6, 3, 6, 7, 4, 8, 5, 5, 9, 6, 6, 10, 7]
    );
    let vertex_count = (sphere.stacks + 1) * (sphere.sectors + 1);
    assert!(indices.iter().all(|i| (*i as usize) < vertex_count));
}

#[test]
fn sphere_index_count_follows_the_closed_form() {
    let sphere = UVSphere { radius: 1, sectors: 36, stacks: 18 };
    let indices = sphere.indices();
    assert_eq!(indices.len(), 6 * 36 * (18 - 1));
    let vertex_count = (sphere.stacks + 1) * (sphere.sectors + 1);
    assert!(indices.iter().all(|i| (*i as usize) < vertex_count));
}

#[test]
fn single_stack_sphere_has_no_triangles() {
    let sphere = UVSphere { radius: 1, sectors: 8, stacks: 1 };
    assert_eq!(sphere.indices().len(), 0);
}

/// The index buffer payload is four bytes per index; handing back the
/// index words unchanged would have a quarter of this length.
#[test]
fn index_buffer_bytes_are_four_per_index() {
    let mesh = Cube::new(2, 2, 2).mesh();
    let bytes = mesh.get_index_buffer();
    assert_eq!(bytes.len(), 4 * 36);
}

#[test]
fn model_mesh_counts_its_elements() {
    let mesh = Cube::new(2, 2, 2).mesh();
    let model_mesh = ModelMesh::from_mesh(&mesh, 3);
    assert_eq!(model_mesh.num_elements, 36);
    assert_eq!(model_mesh.material_id, 3);

    let bare = Mesh { vertices: vec![], indices: None };
    assert_eq!(ModelMesh::from_mesh(&bare, 0).num_elements, 1);
}
