use midori_core::species::{
    default_branch_count, default_leaf_geometry, default_lod_preset, default_platform,
    default_segments, default_texture_resolution, effective_leaf_resolution, LeafGeometry, LeafShape, SpeciesInfo,
};

#[test]
fn leaf_shapes_recommend_outline_resolutions() {
    assert_eq!(LeafShape::Oval.recommended_resolution(), 12);
    assert_eq!(LeafShape::Pointed.recommended_resolution(), 12);
    assert_eq!(LeafShape::Heart.recommended_resolution(), 12);
    assert_eq!(LeafShape::Needle.recommended_resolution(), 8);
    assert_eq!(LeafShape::Willow.recommended_resolution(), 8);
    assert_eq!(LeafShape::Serrated.recommended_resolution(), 24);
    assert_eq!(LeafShape::OakLobed.recommended_resolution(), 20);
    assert_eq!(LeafShape::Maple.recommended_resolution(), 30);
    assert_eq!(LeafShape::Palmate.recommended_resolution(), 36);
    assert_eq!(LeafShape::default(), LeafShape::Pointed);
}

#[test]
fn latin_name_prefers_the_latin_alias() {
    let mut info = SpeciesInfo {
        name: "Oak".to_string(),
        scientific: "Quercus robur".to_string(),
        latin: String::new(),
        biome: "temperate".to_string(),
        tags: vec![],
    };
    assert_eq!(info.latin_name(), "Quercus robur");
    info.latin = "Quercus pedunculata".to_string();
    assert_eq!(info.latin_name(), "Quercus pedunculata");
}

#[test]
fn species_defaults() {
    assert_eq!(default_leaf_geometry(), LeafGeometry::CrossBillboard);
    assert_eq!(LeafGeometry::default(), LeafGeometry::CrossBillboard);
    assert_eq!(default_segments(), 8);
    assert_eq!(default_branch_count(), 5);
    assert_eq!(default_texture_resolution(), 512);
    let _ = default_lod_preset();
    let _ = default_platform();
}

#[test]
fn leaf_resolution_override_wins_when_positive() {
    assert_eq!(effective_leaf_resolution(0, LeafShape::Maple), 30);
    assert_eq!(effective_leaf_resolution(7, LeafShape::Maple), 7);
}
