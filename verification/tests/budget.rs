use midori_core::budget::{check_profile, ProfileFault};
use midori_core::budget::{
    profile_budget_summary, validate_profile_budgets, ProfileBudget, PrototypeLodUsage,
};

fn mobile() -> ProfileBudget {
    ProfileBudget {
        lod0_max_triangles: 600,
        lod1_max_triangles: 300,
        lod2_max_triangles: 100,
        material_slots: 1,
        max_instances_per_tile: 1000,
        max_instances_per_chunk: 200,
    }
}

fn console() -> ProfileBudget {
    ProfileBudget {
        lod0_max_triangles: 2000,
        lod1_max_triangles: 900,
        lod2_max_triangles: 300,
        material_slots: 2,
        max_instances_per_tile: 5000,
        max_instances_per_chunk: 800,
    }
}

fn lod(lod_index: u32, triangle_count: usize, used_material_count: usize) -> PrototypeLodUsage {
    PrototypeLodUsage { lod_index, triangle_count, used_material_count }
}

#[test]
fn summary_reports_maxima_per_lod_band() {
    let lods = [lod(0, 500, 1), lod(1, 250, 1), lod(2, 80, 1), lod(3, 90, 1), lod(0, 550, 1)];
    let s = profile_budget_summary("mobile", &mobile(), &lods, 700, &[100, 150, 50]);
    assert_eq!(s.profile, "mobile");
    assert_eq!(s.prototype_lod_count, 5);
    assert_eq!(s.max_lod0_triangles, 550);
    assert_eq!(s.max_lod1_triangles, 250);
    assert_eq!(s.max_lod2_triangles, 90);
    assert_eq!(s.max_used_material_count, 1);
    assert_eq!(s.max_chunk_instance_count, 150);
    assert_eq!(s.triangle_budget_violation_count, 0);
    assert_eq!(s.material_slot_violation_count, 0);
    assert_eq!(s.instance_budget_violation_count, 0);
    assert!(s.passed);
}

#[test]
fn triangle_budget_violation_fails_the_profile() {
    let lods = [lod(0, 601, 1), lod(1, 301, 1)];
    let s = profile_budget_summary("mobile", &mobile(), &lods, 10, &[10]);
    assert_eq!(s.triangle_budget_violation_count, 2);
    assert!(!s.passed);
}

#[test]
fn instance_budget_counts_tile_and_chunk() {
    let s = profile_budget_summary("mobile", &mobile(), &[], 1001, &[201, 3]);
    assert_eq!(s.instance_budget_violation_count, 2);
    assert!(!s.passed);
}

#[test]
fn material_slot_violation_is_counted() {
    let s = profile_budget_summary("mobile", &mobile(), &[lod(0, 10, 2)], 0, &[]);
    assert_eq!(s.material_slot_violation_count, 1);
    assert!(!s.passed);
}

#[test]
fn validation_checks_mobile_then_console() {
    let ok = validate_profile_budgets(&mobile(), &console(), &[lod(0, 100, 1)], 10, &[10]);
    let summaries = ok.unwrap();
    assert_eq!(summaries.len(), 2);
    assert_eq!(summaries[0].profile, "mobile");
    assert_eq!(summaries[1].profile, "console");

    let failing = validate_profile_budgets(&mobile(), &console(), &[lod(0, 1000, 1)], 10, &[10]);
    let first = failing.unwrap_err();
    assert_eq!(first.profile, "mobile");
    assert!(!first.passed);

    let console_only = validate_profile_budgets(&mobile(), &console(), &[], 2000, &[10]);
    assert_eq!(console_only.unwrap_err().profile, "mobile");
    let console_fail = validate_profile_budgets(&console(), &mobile(), &[], 2000, &[10]);
    assert_eq!(console_fail.unwrap_err().profile, "console");
}

fn default_mobile_facts() -> midori_core::budget::ProfileFacts {
    midori_core::budget::ProfileFacts {
        tile_size_positive: true,
        terrain_resolution: 64,
        budget: midori_core::budget::ProfileBudget {
            lod0_max_triangles: 120,
            lod1_max_triangles: 40,
            lod2_max_triangles: 8,
            material_slots: 1,
            max_instances_per_tile: 512,
            max_instances_per_chunk: 96,
        },
        lod0_distance_positive: true,
        lod1_distance_positive: true,
        lod2_distance_positive: true,
        distances_ordered: true,
        density_scale_nonnegative: true,
        cull_start_nonnegative: true,
        cull_end_nonnegative: true,
        cull_ordered: true,
        lod2_within_cull: true,
    }
}

#[test]
fn profile_check_reports_the_first_fault() {
    let good = default_mobile_facts();
    assert_eq!(check_profile(&good), Ok(()));
    let mut f = good;
    f.terrain_resolution = 1;
    f.budget.material_slots = 0;
    assert_eq!(check_profile(&f), Err(ProfileFault::TerrainResolution));
    let mut f = good;
    f.budget.lod1_max_triangles = 0;
    assert_eq!(check_profile(&f), Err(ProfileFault::TriangleBudgets));
    let mut f = good;
    f.distances_ordered = false;
    f.cull_ordered = false;
    assert_eq!(check_profile(&f), Err(ProfileFault::DistanceOrder));
    let mut f = good;
    f.budget.max_instances_per_chunk = 0;
    assert_eq!(check_profile(&f), Err(ProfileFault::InstanceBudgets));
    let mut f = good;
    f.lod2_within_cull = false;
    assert_eq!(check_profile(&f), Err(ProfileFault::Lod2BeyondCull));
    let mut f = good;
    f.tile_size_positive = false;
    f.lod2_within_cull = false;
    assert_eq!(check_profile(&f), Err(ProfileFault::TileSize));
}
