use midori_core::budget::{ProfileBudget, ProfileFacts, ProfileFault};
use midori_core::patch::{
    check_nature_patch, LayerFacts, LayerSetting, PatchFacts, PatchFault, SoilFacts, SoilSetting,
};

fn profile(material_slots: u32) -> ProfileFacts {
    ProfileFacts {
        tile_size_positive: true,
        terrain_resolution: 64,
        budget: ProfileBudget {
            lod0_max_triangles: 120,
            lod1_max_triangles: 40,
            lod2_max_triangles: 8,
            material_slots,
            max_instances_per_tile: 512,
            max_instances_per_chunk: 96,
        },
        lod0_distance_positive: true,
        lod1_distance_positive: true,
        lod2_distance_positive: true,
        distances_ordered: true,
        density_scale_nonnegative: true,
        cull_start_nonnegative: true,
        cull_end_nonnegative: true,
        cull_ordered: true,
        lod2_within_cull: true,
    }
}

fn soil() -> SoilFacts {
    SoilFacts {
        mound_scale: true,
        mound_height: true,
        mound_coverage: true,
        relief_scale: true,
        relief_strength: true,
        wetness_coverage: true,
        wetness_scale: true,
        cracks_amount: true,
        cracks_plate_density: true,
        cracks_channel_width: true,
        cracks_depth: true,
    }
}

fn layer() -> LayerFacts {
    LayerFacts {
        density: true,
        coverage: true,
        patch_scale: true,
        patch_softness: true,
        height: true,
        width: true,
        relief_scale: true,
        relief_strength: true,
    }
}

fn patch(kind: &str, name: &str) -> PatchFacts {
    PatchFacts {
        kind: kind.to_string(),
        name: name.to_string(),
        size_positive: true,
        soil: soil(),
        layers: vec![layer(), layer()],
        mobile: profile(1),
        console: profile(2),
    }
}

#[test]
fn representative_patch_passes() {
    assert_eq!(check_nature_patch(&patch("nature_patch", "Temperate Forest Floor")), Ok(()));
}

#[test]
fn invalid_nature_patch_kind_fails() {
    assert_eq!(check_nature_patch(&patch("tree", "Wrong")), Err(PatchFault::Kind));
}

#[test]
fn negative_patch_size_fails() {
    let mut p = patch("nature_patch", "Bad");
    p.size_positive = false;
    assert_eq!(check_nature_patch(&p), Err(PatchFault::Size));
}

#[test]
fn blank_patch_name_fails() {
    assert_eq!(check_nature_patch(&patch("nature_patch", " \t")), Err(PatchFault::Name));
    // The kind is checked first.
    assert_eq!(check_nature_patch(&patch("Nature_patch", "")), Err(PatchFault::Kind));
}

#[test]
fn first_soil_setting_out_of_range_is_named() {
    let mut p = patch("nature_patch", "Soil");
    p.soil.wetness_coverage = false;
    p.soil.cracks_depth = false;
    assert_eq!(
        check_nature_patch(&p),
        Err(PatchFault::Soil { setting: SoilSetting::WetnessCoverage })
    );
}

#[test]
fn layer_faults_name_the_layer_index() {
    let mut p = patch("nature_patch", "Layers");
    p.layers[1].patch_scale = false;
    p.mobile = profile(0);
    assert_eq!(
        check_nature_patch(&p),
        Err(PatchFault::Layer { index: 1, setting: LayerSetting::PatchScale })
    );
}

#[test]
fn profiles_are_checked_mobile_first() {
    let mut p = patch("nature_patch", "Profiles");
    p.console = profile(0);
    assert_eq!(
        check_nature_patch(&p),
        Err(PatchFault::Console { fault: ProfileFault::MaterialSlots })
    );
    p.mobile = profile(0);
    assert_eq!(
        check_nature_patch(&p),
        Err(PatchFault::Mobile { fault: ProfileFault::MaterialSlots })
    );
}
