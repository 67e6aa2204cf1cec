use midori_core::species_checks::{validate_species, BranchLevelFacts, LodLevelFacts, SpeciesFacts};

fn valid_level() -> BranchLevelFacts {
    BranchLevelFacts {
        length_positive: true,
        length_variance_in_unit: true,
        radius_ratio_positive: true,
        pipe_exponent_positive: true,
        taper_nonnegative: true,
        angle_finite: true,
        angle_variance_finite: true,
        rotation_finite: true,
        gravity_in_signed_unit: true,
        curve_finite: true,
        curve_variance_finite: true,
        count: 5,
        count_variance: 0,
        segments: 4,
    }
}

fn valid_species() -> SpeciesFacts {
    SpeciesFacts {
        name: "Test Tree".to_string(),
        trunk_height_positive: true,
        trunk_height_variance_in_unit: true,
        trunk_radius_positive: true,
        trunk_taper_nonnegative: true,
        trunk_curve_finite: true,
        trunk_curve_variance_finite: true,
        trunk_curve_back_finite: true,
        trunk_segments: 8,
        level1: Some(valid_level()),
        level2: None,
        level3: None,
        crown_offset_in_unit: true,
        crown_density_positive: true,
        crown_width_ratio_positive: true,
        leaf_size_positive: true,
        leaf_size_variance_in_unit: true,
        leaf_up_influence_in_signed_unit: true,
        leaf_min_level: 2,
        texture_resolution: 512,
        bark_color_in_unit: None,
        leaf_color_in_unit: None,
        lod_count: None,
        lod_levels: vec![],
    }
}

fn fields(s: &SpeciesFacts) -> Vec<String> {
    validate_species(s).unwrap_err().into_iter().map(|e| e.field).collect()
}

#[test]
fn valid_species_passes() {
    assert!(validate_species(&valid_species()).is_ok());
}

#[test]
fn nonpositive_dimensions_are_reported() {
    let mut s = valid_species();
    s.trunk_height_positive = false;
    s.trunk_radius_positive = false;
    assert_eq!(fields(&s), vec!["trunk.height", "trunk.radius"]);
}

#[test]
fn out_of_range_and_nonfinite_values_are_reported() {
    let mut s = valid_species();
    s.trunk_height_variance_in_unit = false;
    s.crown_offset_in_unit = false;
    s.leaf_size_positive = false;
    s.leaf_up_influence_in_signed_unit = false;
    assert_eq!(
        fields(&s),
        vec!["trunk.height_variance", "crown.offset", "leaves.size", "leaves.up_influence"]
    );
}

#[test]
fn zero_segments_and_lod_violations_are_reported() {
    let mut s = valid_species();
    s.trunk_segments = 0;
    let mut level = valid_level();
    level.count = 0;
    s.level1 = Some(level);
    s.lod_levels = vec![LodLevelFacts {
        leaf_reduction_in_unit: false,
        screen_height_nonnegative: true,
        branch_levels: 4,
        ring_resolution: None,
    }];
    let errors = validate_species(&s).unwrap_err();
    let paths: Vec<&str> = errors.iter().map(|e| e.field.as_str()).collect();
    assert_eq!(
        paths,
        vec!["trunk.segments", "branches.level1.count", "lod.levels[0].leaf_reduction"]
    );
    assert_eq!(
        errors[1].message,
        "level with count 0 contributes nothing; remove it or raise the count"
    );
    assert_eq!(errors[0].message, "must be at least 1");
}

#[test]
fn count_variance_keeps_an_empty_level() {
    let mut s = valid_species();
    let mut level = valid_level();
    level.count = 0;
    level.count_variance = 2;
    s.level3 = Some(level);
    assert!(validate_species(&s).is_ok());
}

#[test]
fn blank_name_colors_and_integer_limits_are_reported() {
    let mut s = valid_species();
    s.name = " \t".to_string();
    s.leaf_min_level = 5;
    s.texture_resolution = 0;
    s.leaf_color_in_unit = Some([true, false, true]);
    s.lod_count = Some(0);
    s.lod_levels = vec![
        LodLevelFacts {
            leaf_reduction_in_unit: true,
            screen_height_nonnegative: true,
            branch_levels: 4,
            ring_resolution: Some([8, 6, 4, 3]),
        },
        LodLevelFacts {
            leaf_reduction_in_unit: true,
            screen_height_nonnegative: false,
            branch_levels: 0,
            ring_resolution: Some([4, 0, 3, 3]),
        },
    ];
    let mut level = valid_level();
    level.gravity_in_signed_unit = false;
    s.level2 = Some(level);
    assert_eq!(
        fields(&s),
        vec![
            "species.name",
            "branches.level2.gravity",
            "leaves.min_level",
            "textures.resolution",
            "textures.leaf_color[1]",
            "lod.count",
            "lod.levels[1].screen_height",
            "lod.levels[1].branch_levels",
            "lod.levels[1].ring_resolution",
        ]
    );
}
