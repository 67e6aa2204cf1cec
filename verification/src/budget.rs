//! Mobile and console budgets for exported prototypes and scatter.

use vstd::prelude::*;

verus! {

/// The integer budgets of a platform profile.
#[derive(Debug, Clone, Copy, PartialEq, Eq, Structural)]
pub struct ProfileBudget {
    /// LOD0 triangle budget per prototype.
    pub lod0_max_triangles: u32,
    /// LOD1 triangle budget per prototype.
    pub lod1_max_triangles: u32,
    /// LOD2-or-farther triangle budget per prototype.
    pub lod2_max_triangles: u32,
    /// Maximum material slots for generated groundcover.
    pub material_slots: u32,
    /// Maximum authored instances per tile.
    pub max_instances_per_tile: u32,
    /// Maximum authored instances per culling chunk.
    pub max_instances_per_chunk: u32,
}

/// What a decoded prototype LOD uses.
#[derive(Debug, Clone, Copy, PartialEq, Eq, Structural)]
pub struct PrototypeLodUsage {
    /// LOD index declared in the manifest.
    pub lod_index: u32,
    /// Decoded indexed triangle count.
    pub triangle_count: usize,
    /// Count of materials referenced by primitives.
    pub used_material_count: usize,
}

/// Validation summary of prototype LODs and scatter against one profile.
#[derive(Debug, Clone)]
pub struct ProfileBudgetValidationSummary {
    /// Profile name, such as `mobile` or `console`.
    pub profile: String,
    /// Count of prototype LODs checked.
    pub prototype_lod_count: usize,
    /// Observed maximum LOD0 triangle count.
    pub max_lod0_triangles: usize,
    /// Observed maximum LOD1 triangle count.
    pub max_lod1_triangles: usize,
    /// Observed maximum LOD2-or-farther triangle count.
    pub max_lod2_triangles: usize,
    /// Profile LOD0 triangle budget.
    pub lod0_triangle_budget: u32,
    /// Profile LOD1 triangle budget.
    pub lod1_triangle_budget: u32,
    /// Profile LOD2-or-farther triangle budget.
    pub lod2_triangle_budget: u32,
    /// Observed maximum used material count per prototype.
    pub max_used_material_count: usize,
    /// Profile material slot budget.
    pub material_slot_budget: u32,
    /// Observed authored scatter instances in the tile.
    pub scatter_instance_count: usize,
    /// Observed maximum authored instances in one chunk.
    pub max_chunk_instance_count: usize,
    /// Profile instance budget per tile.
    pub max_instances_per_tile_budget: u32,
    /// Profile instance budget per chunk.
    pub max_instances_per_chunk_budget: u32,
    /// Prototype LODs over their triangle budget.
    pub triangle_budget_violation_count: usize,
    /// Prototype LODs over the material slot budget.
    pub material_slot_violation_count: usize,
    /// Scatter instance budget violations.
    pub instance_budget_violation_count: usize,
    /// Whether all budget checks passed.
    pub passed: bool,
}

/// Triangle budget that applies to a LOD index.
pub open spec fn lod_budget(b: ProfileBudget, lod_index: u32) -> u32 {
    if lod_index == 0 {
        b.lod0_max_triangles
    } else if lod_index == 1 {
        b.lod1_max_triangles
    } else {
        b.lod2_max_triangles
    }
}

/// Largest triangle count among the first `n` LODs whose index falls in
/// the given band (0, 1, or 2 for "2 or farther"); 0 when none.
pub open spec fn max_band_triangles(ps: Seq<PrototypeLodUsage>, band: u32, n: nat) -> nat
    decreases n,
{
    if n == 0 {
        0
    } else {
        let prev = max_band_triangles(ps, band, (n - 1) as nat);
        let p = ps[n - 1];
        let in_band = if band < 2 {
            p.lod_index == band
        } else {
            p.lod_index >= 2
        };
        if in_band && p.triangle_count > prev {
            p.triangle_count as nat
        } else {
            prev
        }
    }
}

/// Largest used material count among the first `n` LODs.
pub open spec fn max_materials(ps: Seq<PrototypeLodUsage>, n: nat) -> nat
    decreases n,
{
    if n == 0 {
        0
    } else {
        let prev = max_materials(ps, (n - 1) as nat);
        if ps[n - 1].used_material_count > prev {
            ps[n - 1].used_material_count as nat
        } else {
            prev
        }
    }
}

/// LODs among the first `n` over their triangle budget.
pub open spec fn triangle_violations(ps: Seq<PrototypeLodUsage>, b: ProfileBudget, n: nat) -> nat
    decreases n,
{
    if n == 0 {
        0
    } else {
        triangle_violations(ps, b, (n - 1) as nat) + if ps[n - 1].triangle_count > lod_budget(
            b,
            ps[n - 1].lod_index,
        ) {
            1nat
        } else {
            0nat
        }
    }
}

/// LODs among the first `n` over the material slot budget.
pub open spec fn material_violations(ps: Seq<PrototypeLodUsage>, b: ProfileBudget, n: nat) -> nat
    decreases n,
{
    if n == 0 {
        0
    } else {
        material_violations(ps, b, (n - 1) as nat) + if ps[n - 1].used_material_count
            > b.material_slots {
            1nat
        } else {
            0nat
        }
    }
}

/// Largest of the first `n` chunk instance counts; 0 when none.
pub open spec fn max_count(cs: Seq<usize>, n: nat) -> nat
    decreases n,
{
    if n == 0 {
        0
    } else {
        let prev = max_count(cs, (n - 1) as nat);
        if cs[n - 1] > prev {
            cs[n - 1] as nat
        } else {
            prev
        }
    }
}

/// Instance budget violations: one for the tile, one for the fullest chunk.
pub open spec fn instance_violations(
    b: ProfileBudget,
    scatter_instance_count: usize,
    chunk_counts: Seq<usize>,
) -> nat {
    (if scatter_instance_count > b.max_instances_per_tile {
        1nat
    } else {
        0nat
    }) + (if max_count(chunk_counts, chunk_counts.len()) > b.max_instances_per_chunk {
        1nat
    } else {
        0nat
    })
}

/// `s` is the summary of `ps` and the scatter counts against budget `b`
/// under the profile name `name`.
pub open spec fn is_budget_summary(
    s: ProfileBudgetValidationSummary,
    name: Seq<char>,
    b: ProfileBudget,
    ps: Seq<PrototypeLodUsage>,
    scatter_instance_count: usize,
    chunk_counts: Seq<usize>,
) -> bool {
    let n = ps.len();
    &&& s.profile@ == name
    &&& s.prototype_lod_count == n
    &&& s.max_lod0_triangles == max_band_triangles(ps, 0, n)
    &&& s.max_lod1_triangles == max_band_triangles(ps, 1, n)
    &&& s.max_lod2_triangles == max_band_triangles(ps, 2, n)
    &&& s.lod0_triangle_budget == b.lod0_max_triangles
    &&& s.lod1_triangle_budget == b.lod1_max_triangles
    &&& s.lod2_triangle_budget == b.lod2_max_triangles
    &&& s.max_used_material_count == max_materials(ps, n)
    &&& s.material_slot_budget == b.material_slots
    &&& s.scatter_instance_count == scatter_instance_count
    &&& s.max_chunk_instance_count == max_count(chunk_counts, chunk_counts.len())
    &&& s.max_instances_per_tile_budget == b.max_instances_per_tile
    &&& s.max_instances_per_chunk_budget == b.max_instances_per_chunk
    &&& s.triangle_budget_violation_count == triangle_violations(ps, b, n)
    &&& s.material_slot_violation_count == material_violations(ps, b, n)
    &&& s.instance_budget_violation_count == instance_violations(
        b,
        scatter_instance_count,
        chunk_counts,
    )
    &&& s.passed == (triangle_violations(ps, b, n) == 0 && material_violations(ps, b, n) == 0
        && instance_violations(b, scatter_instance_count, chunk_counts) == 0)
}

proof fn lemma_budget_counts_bounded(ps: Seq<PrototypeLodUsage>, b: ProfileBudget, n: nat)
    ensures
        triangle_violations(ps, b, n) <= n,
        material_violations(ps, b, n) <= n,
    decreases n,
{
    if n > 0 {
        lemma_budget_counts_bounded(ps, b, (n - 1) as nat);
    }
}

/// Summarises prototype LOD usage and scatter counts against one profile.
pub fn profile_budget_summary(
    profile_name: &str,
    budget: &ProfileBudget,
    prototypes: &[PrototypeLodUsage],
    scatter_instance_count: usize,
    chunk_instance_counts: &[usize],
) -> (s: ProfileBudgetValidationSummary)
    ensures
        is_budget_summary(
            s,
            profile_name@,
            *budget,
            prototypes@,
            scatter_instance_count,
            chunk_instance_counts@,
        ),
{
    let mut max_chunk: usize = 0;
    let mut c: usize = 0;
    while c < chunk_instance_counts.len()
        invariant
            c <= chunk_instance_counts@.len(),
            max_chunk == max_count(chunk_instance_counts@, c as nat),
        decreases chunk_instance_counts@.len() - c,
    {
        if chunk_instance_counts[c] > max_chunk {
            max_chunk = chunk_instance_counts[c];
        }
        c = c + 1;
    }
    let mut max0: usize = 0;
    let mut max1: usize = 0;
    let mut max2: usize = 0;
    let mut max_mat: usize = 0;
    let mut tri_viol: usize = 0;
    let mut mat_viol: usize = 0;
    let mut i: usize = 0;
    while i < prototypes.len()
        invariant
            i <= prototypes@.len(),
            max0 == max_band_triangles(prototypes@, 0, i as nat),
            max1 == max_band_triangles(prototypes@, 1, i as nat),
            max2 == max_band_triangles(prototypes@, 2, i as nat),
            max_mat == max_materials(prototypes@, i as nat),
            tri_viol == triangle_violations(prototypes@, *budget, i as nat),
            mat_viol == material_violations(prototypes@, *budget, i as nat),
        decreases prototypes@.len() - i,
    {
        proof {
            lemma_budget_counts_bounded(prototypes@, *budget, i as nat);
        }
        let p = prototypes[i];
        let limit = if p.lod_index == 0 {
            budget.lod0_max_triangles
        } else if p.lod_index == 1 {
            budget.lod1_max_triangles
        } else {
            budget.lod2_max_triangles
        };
        if p.triangle_count > limit as usize {
            tri_viol = tri_viol + 1;
        }
        if p.lod_index == 0 {
            if p.triangle_count > max0 {
                max0 = p.triangle_count;
            }
        } else if p.lod_index == 1 {
            if p.triangle_count > max1 {
                max1 = p.triangle_count;
            }
        } else {
            if p.triangle_count > max2 {
                max2 = p.triangle_count;
            }
        }
        if p.used_material_count > max_mat {
            max_mat = p.used_material_count;
        }
        if p.used_material_count > budget.material_slots as usize {
            mat_viol = mat_viol + 1;
        }
        i = i + 1;
    }
    let mut inst_viol: usize = 0;
    if scatter_instance_count > budget.max_instances_per_tile as usize {
        inst_viol = inst_viol + 1;
    }
    if max_chunk > budget.max_instances_per_chunk as usize {
        inst_viol = inst_viol + 1;
    }
    ProfileBudgetValidationSummary {
        profile: crate::text::owned(profile_name),
        prototype_lod_count: prototypes.len(),
        max_lod0_triangles: max0,
        max_lod1_triangles: max1,
        max_lod2_triangles: max2,
        lod0_triangle_budget: budget.lod0_max_triangles,
        lod1_triangle_budget: budget.lod1_max_triangles,
        lod2_triangle_budget: budget.lod2_max_triangles,
        max_used_material_count: max_mat,
        material_slot_budget: budget.material_slots,
        scatter_instance_count,
        max_chunk_instance_count: max_chunk,
        max_instances_per_tile_budget: budget.max_instances_per_tile,
        max_instances_per_chunk_budget: budget.max_instances_per_chunk,
        triangle_budget_violation_count: tri_viol,
        material_slot_violation_count: mat_viol,
        instance_budget_violation_count: inst_viol,
        passed: tri_viol == 0 && mat_viol == 0 && inst_viol == 0,
    }
}

/// Checks prototype LODs and scatter counts against the mobile and then
/// the console profile; on success returns both summaries in that order,
/// else the first summary that did not pass.
pub fn validate_profile_budgets(
    mobile: &ProfileBudget,
    console: &ProfileBudget,
    prototypes: &[PrototypeLodUsage],
    scatter_instance_count: usize,
    chunk_instance_counts: &[usize],
) -> (r: Result<Vec<ProfileBudgetValidationSummary>, ProfileBudgetValidationSummary>)
    ensures
        match r {
            Ok(v) => v@.len() == 2 && is_budget_summary(
                v@[0],
                "mobile"@,
                *mobile,
                prototypes@,
                scatter_instance_count,
                chunk_instance_counts@,
            ) && is_budget_summary(
                v@[1],
                "console"@,
                *console,
                prototypes@,
                scatter_instance_count,
                chunk_instance_counts@,
            ) && v@[0].passed && v@[1].passed,
            Err(s) => !s.passed && (is_budget_summary(
                s,
                "mobile"@,
                *mobile,
                prototypes@,
                scatter_instance_count,
                chunk_instance_counts@,
            ) || (is_budget_summary(
                s,
                "console"@,
                *console,
                prototypes@,
                scatter_instance_count,
                chunk_instance_counts@,
            ) && (triangle_violations(prototypes@, *mobile, prototypes@.len()) == 0
                && material_violations(prototypes@, *mobile, prototypes@.len()) == 0
                && instance_violations(*mobile, scatter_instance_count, chunk_instance_counts@)
                == 0))),
        },
{
    let m = profile_budget_summary(
        "mobile",
        mobile,
        prototypes,
        scatter_instance_count,
        chunk_instance_counts,
    );
    let c = profile_budget_summary(
        "console",
        console,
        prototypes,
        scatter_instance_count,
        chunk_instance_counts,
    );
    if !m.passed {
        return Err(m);
    }
    if !c.passed {
        return Err(c);
    }
    let mut v: Vec<ProfileBudgetValidationSummary> = Vec::new();
    v.push(m);
    v.push(c);
    Ok(v)
}

/// Why a platform profile is unusable, in the order it is checked.
#[derive(Debug, Clone, Copy, PartialEq, Eq, Structural)]
pub enum ProfileFault {
    /// The tile size is not positive and finite.
    TileSize,
    /// The terrain resolution is below 2.
    TerrainResolution,
    /// A LOD triangle budget is zero.
    TriangleBudgets,
    /// The LOD0 distance is not positive and finite.
    Lod0Distance,
    /// The LOD1 distance is not positive and finite.
    Lod1Distance,
    /// The LOD2 distance is not positive and finite.
    Lod2Distance,
    /// The LOD distances are not ordered LOD0 <= LOD1 <= LOD2.
    DistanceOrder,
    /// The material slot budget is zero.
    MaterialSlots,
    /// An instance budget is zero.
    InstanceBudgets,
    /// The density scale is not non-negative and finite.
    DensityScale,
    /// The cull start is not non-negative and finite.
    CullStart,
    /// The cull end is not non-negative and finite.
    CullEnd,
    /// The cull end lies before the cull start.
    CullOrder,
    /// The LOD2 distance lies beyond the cull end.
    Lod2BeyondCull,
}

/// What checking a platform profile reads: its integer budgets, and its
/// single-precision settings as the outcomes of their comparisons.
#[derive(Debug, Clone, Copy)]
pub struct ProfileFacts {
    /// The tile size is positive and finite.
    pub tile_size_positive: bool,
    /// Terrain heightfield resolution.
    pub terrain_resolution: u32,
    /// The integer budgets.
    pub budget: ProfileBudget,
    /// The LOD0 distance is positive and finite.
    pub lod0_distance_positive: bool,
    /// The LOD1 distance is positive and finite.
    pub lod1_distance_positive: bool,
    /// The LOD2 distance is positive and finite.
    pub lod2_distance_positive: bool,
    /// Neither LOD0 > LOD1 nor LOD1 > LOD2 holds of the distances.
    pub distances_ordered: bool,
    /// The density scale is non-negative and finite.
    pub density_scale_nonnegative: bool,
    /// The cull start is non-negative and finite.
    pub cull_start_nonnegative: bool,
    /// The cull end is non-negative and finite.
    pub cull_end_nonnegative: bool,
    /// The cull end is not below the cull start.
    pub cull_ordered: bool,
    /// The LOD2 distance is not beyond the cull end.
    pub lod2_within_cull: bool,
}

/// The first thing wrong with a platform profile, if anything.
pub open spec fn profile_fault(f: ProfileFacts) -> Option<ProfileFault> {
    let b = f.budget;
    if !f.tile_size_positive {
        Some(ProfileFault::TileSize)
    } else if f.terrain_resolution < 2 {
        Some(ProfileFault::TerrainResolution)
    } else if b.lod0_max_triangles == 0 || b.lod1_max_triangles == 0 || b.lod2_max_triangles == 0 {
        Some(ProfileFault::TriangleBudgets)
    } else if !f.lod0_distance_positive {
        Some(ProfileFault::Lod0Distance)
    } else if !f.lod1_distance_positive {
        Some(ProfileFault::Lod1Distance)
    } else if !f.lod2_distance_positive {
        Some(ProfileFault::Lod2Distance)
    } else if !f.distances_ordered {
        Some(ProfileFault::DistanceOrder)
    } else if b.material_slots == 0 {
        Some(ProfileFault::MaterialSlots)
    } else if b.max_instances_per_tile == 0 || b.max_instances_per_chunk == 0 {
        Some(ProfileFault::InstanceBudgets)
    } else if !f.density_scale_nonnegative {
        Some(ProfileFault::DensityScale)
    } else if !f.cull_start_nonnegative {
        Some(ProfileFault::CullStart)
    } else if !f.cull_end_nonnegative {
        Some(ProfileFault::CullEnd)
    } else if !f.cull_ordered {
        Some(ProfileFault::CullOrder)
    } else if !f.lod2_within_cull {
        Some(ProfileFault::Lod2BeyondCull)
    } else {
        None
    }
}

/// Checks a platform profile, reporting its first fault.
pub fn check_profile(f: &ProfileFacts) -> (r: Result<(), ProfileFault>)
    ensures
        r == match profile_fault(*f) {
            Some(e) => Err(e),
            None => Ok::<(), ProfileFault>(()),
        },
{
    let b = f.budget;
    if !f.tile_size_positive {
        Err(ProfileFault::TileSize)
    } else if f.terrain_resolution < 2 {
        Err(ProfileFault::TerrainResolution)
    } else if b.lod0_max_triangles == 0 || b.lod1_max_triangles == 0 || b.lod2_max_triangles == 0 {
        Err(ProfileFault::TriangleBudgets)
    } else if !f.lod0_distance_positive {
        Err(ProfileFault::Lod0Distance)
    } else if !f.lod1_distance_positive {
        Err(ProfileFault::Lod1Distance)
    } else if !f.lod2_distance_positive {
        Err(ProfileFault::Lod2Distance)
    } else if !f.distances_ordered {
        Err(ProfileFault::DistanceOrder)
    } else if b.material_slots == 0 {
        Err(ProfileFault::MaterialSlots)
    } else if b.max_instances_per_tile == 0 || b.max_instances_per_chunk == 0 {
        Err(ProfileFault::InstanceBudgets)
    } else if !f.density_scale_nonnegative {
        Err(ProfileFault::DensityScale)
    } else if !f.cull_start_nonnegative {
        Err(ProfileFault::CullStart)
    } else if !f.cull_end_nonnegative {
        Err(ProfileFault::CullEnd)
    } else if !f.cull_ordered {
        Err(ProfileFault::CullOrder)
    } else if !f.lod2_within_cull {
        Err(ProfileFault::Lod2BeyondCull)
    } else {
        Ok(())
    }
}

} // verus!
