use midori_core::prototype_glb::{check_prototype_glb, PrimitiveFacts, PrototypeGlbError};

fn primitive(material: usize, vertices: usize, indices: usize) -> PrimitiveFacts {
    PrimitiveFacts {
        triangles_mode: true,
        material: Some(material),
        position_count: Some(vertices),
        positions_finite: true,
        normal_count: Some(vertices),
        normals_valid: true,
        tangent_count: Some(vertices),
        tangents_valid: true,
        texcoord0_count: Some(vertices),
        texcoord1_count: Some(vertices),
        color0_count: Some(vertices),
        index_count: Some(indices),
    }
}

#[test]
fn complete_prototype_passes_with_summary() {
    let prims = [primitive(2, 12, 18), primitive(0, 12, 6), primitive(2, 12, 3)];
    let summary = check_prototype_glb(&prims, 12, 9, true, 2).unwrap();
    assert_eq!(summary.primitive_count, 3);
    assert_eq!(summary.vertex_count, 12);
    assert_eq!(summary.triangle_count, 9);
    assert_eq!(summary.used_material_indices, vec![0, 2]);
}

#[test]
fn primitive_faults_are_reported_in_order() {
    let mut p = primitive(0, 4, 6);
    p.triangles_mode = false;
    p.material = None;
    assert_eq!(check_prototype_glb(&[p], 4, 2, true, 1), Err(PrototypeGlbError::NotTriangles));
    let mut p = primitive(0, 4, 6);
    p.material = None;
    assert_eq!(check_prototype_glb(&[p], 4, 2, true, 1), Err(PrototypeGlbError::NoMaterial));
    let mut p = primitive(0, 4, 6);
    p.position_count = None;
    assert_eq!(check_prototype_glb(&[p], 4, 2, true, 1), Err(PrototypeGlbError::NoPositions));
    let p = primitive(0, 0, 6);
    assert_eq!(check_prototype_glb(&[p], 0, 2, true, 1), Err(PrototypeGlbError::EmptyPositions));
    assert_eq!(
        check_prototype_glb(&[primitive(0, 4, 6), primitive(0, 5, 6)], 4, 4, true, 1),
        Err(PrototypeGlbError::VertexCountDisagrees { existing: 4, found: 5 })
    );
    let mut p = primitive(0, 4, 6);
    p.positions_finite = false;
    assert_eq!(check_prototype_glb(&[p], 4, 2, true, 1), Err(PrototypeGlbError::NonFinitePosition));
    let mut p = primitive(0, 4, 6);
    p.index_count = None;
    assert_eq!(check_prototype_glb(&[p], 4, 2, true, 1), Err(PrototypeGlbError::NoIndices));
    assert_eq!(
        check_prototype_glb(&[primitive(0, 4, 7)], 4, 2, true, 1),
        Err(PrototypeGlbError::BadIndexCount { count: 7 })
    );
}

#[test]
fn totals_streams_bounds_and_budget() {
    assert_eq!(check_prototype_glb(&[], 0, 0, true, 1), Err(PrototypeGlbError::MissingAttributes));
    let mut p = primitive(0, 4, 6);
    p.texcoord1_count = Some(3);
    assert_eq!(check_prototype_glb(&[p], 4, 2, true, 1), Err(PrototypeGlbError::MissingAttributes));
    assert_eq!(
        check_prototype_glb(&[primitive(0, 4, 6)], 5, 2, true, 1),
        Err(PrototypeGlbError::VertexCountMismatch { found: 4, declared: 5 })
    );
    assert_eq!(
        check_prototype_glb(&[primitive(0, 4, 6)], 4, 3, true, 1),
        Err(PrototypeGlbError::TriangleCountMismatch { found: 2, declared: 3 })
    );
    assert_eq!(check_prototype_glb(&[primitive(0, 4, 6)], 4, 2, false, 1), Err(PrototypeGlbError::Bounds));
    assert_eq!(
        check_prototype_glb(&[primitive(0, 4, 6), primitive(1, 4, 6)], 4, 4, true, 1),
        Err(PrototypeGlbError::TooManyMaterials { used: 2, limit: 1 })
    );
}
