use midori_core::mesh::{tri_materials, MaterialType, Mesh, Submesh};

type Position = [f32; 3];

#[test]
fn test_mesh_new() {
    let mesh: Mesh<Position> = Mesh::new();
    assert!(mesh.vertices.is_empty());
    assert!(mesh.indices.is_empty());
    assert!(mesh.submeshes.is_empty());
    assert!(mesh.is_empty());
}

#[test]
fn test_mesh_counts() {
    let mut mesh: Mesh<Position> = Mesh::new();
    mesh.vertices.push([0.0; 3]);
    mesh.vertices.push([0.0; 3]);
    mesh.vertices.push([0.0; 3]);
    mesh.indices.extend_from_slice(&[0, 1, 2]);

    assert_eq!(mesh.vertex_count(), 3);
    assert_eq!(mesh.triangle_count(), 1);
    assert!(!mesh.is_empty());
}

#[test]
fn test_mesh_merge() {
    let mut mesh1: Mesh<Position> = Mesh::new();
    mesh1.vertices.push([0.0, 0.0, 0.0]);
    mesh1.vertices.push([1.0, 0.0, 0.0]);
    mesh1.vertices.push([0.0, 1.0, 0.0]);
    mesh1.indices.extend_from_slice(&[0, 1, 2]);

    let mut mesh2: Mesh<Position> = Mesh::new();
    mesh2.vertices.push([0.0, 0.0, 1.0]);
    mesh2.vertices.push([1.0, 1.0, 1.0]);
    mesh2.vertices.push([1.0, 1.0, 0.0]);
    mesh2.indices.extend_from_slice(&[0, 1, 2]);

    mesh1.merge(&mesh2, MaterialType::Bark);

    assert_eq!(mesh1.vertex_count(), 6);
    assert_eq!(mesh1.triangle_count(), 2);
    assert_eq!(mesh1.submeshes.len(), 1);

    // Check that indices were offset correctly
    assert_eq!(mesh1.indices[3], 3);
    assert_eq!(mesh1.indices[4], 4);
    assert_eq!(mesh1.indices[5], 5);
}

#[test]
fn test_mesh_clear() {
    let mut mesh: Mesh<Position> = Mesh::new();
    mesh.vertices.push([0.0; 3]);
    mesh.indices.push(0);
    mesh.submeshes.push(Submesh {
        index_start: 0,
        index_count: 1,
        material: MaterialType::Bark,
    });

    mesh.clear();

    assert!(mesh.vertices.is_empty());
    assert!(mesh.indices.is_empty());
    assert!(mesh.submeshes.is_empty());
}

#[test]
fn test_material_type_equality() {
    assert_eq!(MaterialType::Bark, MaterialType::Bark);
    assert_eq!(MaterialType::Leaves, MaterialType::Leaves);
    assert_ne!(MaterialType::Bark, MaterialType::Leaves);
}

#[test]
fn merge_records_the_appended_index_range() {
    let mut base: Mesh<u8> = Mesh::new();
    base.vertices.extend_from_slice(&[1, 2, 3, 4]);
    base.indices.extend_from_slice(&[0, 1, 2, 1, 2, 3]);
    let mut part: Mesh<u8> = Mesh::new();
    part.vertices.extend_from_slice(&[9, 9, 9]);
    part.indices.extend_from_slice(&[2, 1, 0]);

    base.merge(&part, MaterialType::Leaves);

    assert_eq!(base.vertices, vec![1, 2, 3, 4, 9, 9, 9]);
    assert_eq!(base.indices, vec![0, 1, 2, 1, 2, 3, 6, 5, 4]);
    assert_eq!(
        base.submeshes,
        vec![Submesh { index_start: 6, index_count: 3, material: MaterialType::Leaves }]
    );
}

#[test]
fn mesh_without_indices_is_empty() {
    let mut mesh: Mesh<u8> = Mesh::new();
    mesh.vertices.push(0);
    assert!(mesh.is_empty());
    assert_eq!(mesh.triangle_count(), 0);
}

#[test]
fn triangles_take_the_material_of_the_last_submesh_drawing_them() {
    let mut mesh: Mesh<Position> = Mesh::new();
    mesh.vertices.extend_from_slice(&[[0.0; 3]; 9]);
    mesh.indices.extend_from_slice(&[0, 1, 2, 3, 4, 5, 6, 7, 8, 0, 1, 2]);
    assert_eq!(tri_materials(&mesh), vec![MaterialType::Bark; 4]);
    mesh.submeshes = vec![
        Submesh { index_start: 3, index_count: 6, material: MaterialType::Leaves },
        Submesh { index_start: 6, index_count: 6, material: MaterialType::Impostor },
    ];
    assert_eq!(
        tri_materials(&mesh),
        vec![MaterialType::Bark, MaterialType::Leaves, MaterialType::Impostor, MaterialType::Impostor]
    );
    // A range that starts inside a triangle marks the triangles its steps land in.
    mesh.submeshes = vec![Submesh { index_start: 1, index_count: 4, material: MaterialType::Leaves }];
    assert_eq!(
        tri_materials(&mesh),
        vec![MaterialType::Leaves, MaterialType::Leaves, MaterialType::Bark, MaterialType::Bark]
    );
}
