//! Semantic validation of a species document: which fields are reported,
//! with which rule, in which order. The single-precision range tests
//! (positive, finite, within 0..=1) are measured on the document and arrive
//! here as flags; the integer limits are checked here.

use crate::species::SpeciesFieldError;
use crate::text::{blank, decimal_digits, is_blank, owned, push_decimal, push_str};
use vstd::prelude::*;

verus! {

/// The deepest branch level leaves may start on.
pub const MAX_BRANCH_LEVELS: u32 = 4;

/// What validation reads of one branch level.
#[derive(Debug, Clone, Copy)]
pub struct BranchLevelFacts {
    /// `length` is positive and finite.
    pub length_positive: bool,
    /// `length_variance` is finite and in 0..=1.
    pub length_variance_in_unit: bool,
    /// `radius_ratio` is positive and finite.
    pub radius_ratio_positive: bool,
    /// `pipe_exponent` is positive and finite.
    pub pipe_exponent_positive: bool,
    /// `taper` is non-negative and finite.
    pub taper_nonnegative: bool,
    /// `angle` is finite.
    pub angle_finite: bool,
    /// `angle_variance` is finite.
    pub angle_variance_finite: bool,
    /// `rotation` is finite.
    pub rotation_finite: bool,
    /// `gravity` is finite and in -1..=1.
    pub gravity_in_signed_unit: bool,
    /// `curve` is finite.
    pub curve_finite: bool,
    /// `curve_variance` is finite.
    pub curve_variance_finite: bool,
    /// Branch count.
    pub count: u32,
    /// Branch count variance.
    pub count_variance: u32,
    /// Segments per branch.
    pub segments: u32,
}

/// What validation reads of one custom LOD level.
#[derive(Debug, Clone, Copy)]
pub struct LodLevelFacts {
    /// `leaf_reduction` is finite and in 0..=1.
    pub leaf_reduction_in_unit: bool,
    /// `screen_height` is non-negative and finite.
    pub screen_height_nonnegative: bool,
    /// Branch levels drawn by this LOD.
    pub branch_levels: u32,
    /// Ring resolution per branch level, if set.
    pub ring_resolution: Option<[u32; 4]>,
}

/// What validation reads of a species document.
#[derive(Debug, Clone)]
pub struct SpeciesFacts {
    /// Species name.
    pub name: String,
    /// `trunk.height` is positive and finite.
    pub trunk_height_positive: bool,
    /// `trunk.height_variance` is finite and in 0..=1.
    pub trunk_height_variance_in_unit: bool,
    /// `trunk.radius` is positive and finite.
    pub trunk_radius_positive: bool,
    /// `trunk.taper` is non-negative and finite.
    pub trunk_taper_nonnegative: bool,
    /// `trunk.curve` is finite.
    pub trunk_curve_finite: bool,
    /// `trunk.curve_variance` is finite.
    pub trunk_curve_variance_finite: bool,
    /// `trunk.curve_back` is finite.
    pub trunk_curve_back_finite: bool,
    /// Trunk segments.
    pub trunk_segments: u32,
    /// Branch level 1, if defined.
    pub level1: Option<BranchLevelFacts>,
    /// Branch level 2, if defined.
    pub level2: Option<BranchLevelFacts>,
    /// Branch level 3, if defined.
    pub level3: Option<BranchLevelFacts>,
    /// `crown.offset` is finite and in 0..=1.
    pub crown_offset_in_unit: bool,
    /// `crown.density` is positive and finite.
    pub crown_density_positive: bool,
    /// `crown.width_ratio` is positive and finite.
    pub crown_width_ratio_positive: bool,
    /// `leaves.size` is positive and finite.
    pub leaf_size_positive: bool,
    /// `leaves.size_variance` is finite and in 0..=1.
    pub leaf_size_variance_in_unit: bool,
    /// `leaves.up_influence` is finite and in -1..=1.
    pub leaf_up_influence_in_signed_unit: bool,
    /// `leaves.min_level`.
    pub leaf_min_level: u32,
    /// `textures.resolution`.
    pub texture_resolution: u32,
    /// Whether each bark color component is finite and in 0..=1, if a
    /// bark color is set.
    pub bark_color_in_unit: Option<[bool; 3]>,
    /// Whether each leaf color component is finite and in 0..=1, if a
    /// leaf color is set.
    pub leaf_color_in_unit: Option<[bool; 3]>,
    /// `lod.count`, if set.
    pub lod_count: Option<u32>,
    /// Custom LOD levels.
    pub lod_levels: Vec<LodLevelFacts>,
}

/// A reported field and rule.
pub type FieldRule = (Seq<char>, Seq<char>);

/// A check: field, rule, and whether it holds.
pub type FieldCheck = (Seq<char>, Seq<char>, bool);

/// The report of one check: nothing when it holds.
pub open spec fn entry(field: Seq<char>, message: Seq<char>, ok: bool) -> Seq<FieldRule> {
    if ok {
        Seq::empty()
    } else {
        seq![(field, message)]
    }
}

/// The reports of a list of checks: the failed ones, in order.
#[verifier::opaque]
pub open spec fn failures(cs: Seq<FieldCheck>) -> Seq<FieldRule>
    decreases cs.len(),
{
    if cs.len() == 0 {
        Seq::empty()
    } else {
        failures(cs.drop_last()) + entry(cs.last().0, cs.last().1, cs.last().2)
    }
}

/// Rule text for positive values.
pub open spec fn positive_rule() -> Seq<char> {
    "must be positive and finite"@
}

/// Rule text for values in 0..=1.
pub open spec fn unit_rule() -> Seq<char> {
    "must be in 0..=1"@
}

/// Rule text for non-negative values.
pub open spec fn nonnegative_rule() -> Seq<char> {
    "must be non-negative and finite"@
}

/// Rule text for finite values.
pub open spec fn finite_rule() -> Seq<char> {
    "must be finite"@
}

/// Rule text for values in -1..=1.
pub open spec fn signed_unit_rule() -> Seq<char> {
    "must be in -1..=1"@
}

/// Rule text for counts of at least one.
pub open spec fn at_least_one_rule() -> Seq<char> {
    "must be at least 1"@
}

/// Rule text for a branch level that adds no branches.
pub open spec fn empty_level_rule() -> Seq<char> {
    "level with count 0 contributes nothing; remove it or raise the count"@
}

/// The checks of the species name and the trunk.
pub open spec fn trunk_checks(s: SpeciesFacts) -> Seq<FieldCheck> {
    seq![
        ("species.name"@, "must not be empty"@, !is_blank(s.name@)),
        ("trunk.height"@, positive_rule(), s.trunk_height_positive),
        ("trunk.height_variance"@, unit_rule(), s.trunk_height_variance_in_unit),
        ("trunk.radius"@, positive_rule(), s.trunk_radius_positive),
        ("trunk.taper"@, nonnegative_rule(), s.trunk_taper_nonnegative),
        ("trunk.curve"@, finite_rule(), s.trunk_curve_finite),
        ("trunk.curve_variance"@, finite_rule(), s.trunk_curve_variance_finite),
        ("trunk.curve_back"@, finite_rule(), s.trunk_curve_back_finite),
        ("trunk.segments"@, at_least_one_rule(), s.trunk_segments > 0),
    ]
}

/// The field path of a branch level parameter.
pub open spec fn level_field(level: nat, name: Seq<char>) -> Seq<char> {
    "branches.level"@ + decimal_digits(level) + name
}

/// The checks of a defined branch level.
pub open spec fn branch_level_checks(level: nat, p: BranchLevelFacts) -> Seq<FieldCheck> {
    seq![
        (level_field(level, ".length"@), positive_rule(), p.length_positive),
        (level_field(level, ".length_variance"@), unit_rule(), p.length_variance_in_unit),
        (level_field(level, ".radius_ratio"@), positive_rule(), p.radius_ratio_positive),
        (level_field(level, ".pipe_exponent"@), positive_rule(), p.pipe_exponent_positive),
        (level_field(level, ".taper"@), nonnegative_rule(), p.taper_nonnegative),
        (level_field(level, ".angle"@), finite_rule(), p.angle_finite),
        (level_field(level, ".angle_variance"@), finite_rule(), p.angle_variance_finite),
        (level_field(level, ".rotation"@), finite_rule(), p.rotation_finite),
        (level_field(level, ".gravity"@), signed_unit_rule(), p.gravity_in_signed_unit),
        (level_field(level, ".curve"@), finite_rule(), p.curve_finite),
        (level_field(level, ".curve_variance"@), finite_rule(), p.curve_variance_finite),
        (level_field(level, ".count"@), empty_level_rule(), p.count > 0 || p.count_variance > 0),
        (level_field(level, ".segments"@), at_least_one_rule(), p.segments > 0),
    ]
}

/// The checks of a branch level, if it is defined.
pub open spec fn optional_level_checks(level: nat, p: Option<BranchLevelFacts>) -> Seq<
    FieldCheck,
> {
    match p {
        Some(p) => branch_level_checks(level, p),
        None => Seq::empty(),
    }
}

/// The checks of the crown, the leaves and the texture resolution.
pub open spec fn crown_leaf_checks(s: SpeciesFacts) -> Seq<FieldCheck> {
    seq![
        ("crown.offset"@, unit_rule(), s.crown_offset_in_unit),
        ("crown.density"@, positive_rule(), s.crown_density_positive),
        ("crown.width_ratio"@, positive_rule(), s.crown_width_ratio_positive),
        ("leaves.size"@, positive_rule(), s.leaf_size_positive),
        ("leaves.size_variance"@, unit_rule(), s.leaf_size_variance_in_unit),
        ("leaves.up_influence"@, signed_unit_rule(), s.leaf_up_influence_in_signed_unit),
        ("leaves.min_level"@, "out of supported range"@, s.leaf_min_level <= MAX_BRANCH_LEVELS),
        ("textures.resolution"@, "must be in 1..=8192"@, 1 <= s.texture_resolution <= 8192),
    ]
}

/// The field path of a color component.
pub open spec fn color_field(field: Seq<char>, i: nat) -> Seq<char> {
    field + "["@ + decimal_digits(i) + "]"@
}

/// The checks of a color, if it is set.
pub open spec fn color_checks(field: Seq<char>, c: Option<[bool; 3]>) -> Seq<FieldCheck> {
    match c {
        Some(ok) => seq![
            (color_field(field, 0), unit_rule(), ok@[0]),
            (color_field(field, 1), unit_rule(), ok@[1]),
            (color_field(field, 2), unit_rule(), ok@[2]),
        ],
        None => Seq::empty(),
    }
}

/// The field path of a custom LOD level parameter; `rest` starts with the
/// closing bracket.
pub open spec fn lod_field(i: nat, rest: Seq<char>) -> Seq<char> {
    "lod.levels["@ + decimal_digits(i) + rest
}

/// The checks of custom LOD level `i`.
pub open spec fn lod_level_checks(i: nat, l: LodLevelFacts) -> Seq<FieldCheck> {
    seq![
        (lod_field(i, "].leaf_reduction"@), unit_rule(), l.leaf_reduction_in_unit),
        (lod_field(i, "].screen_height"@), nonnegative_rule(), l.screen_height_nonnegative),
        (lod_field(i, "].branch_levels"@), at_least_one_rule(), l.branch_levels > 0),
    ] + match l.ring_resolution {
        Some(r) => seq![
            (
                lod_field(i, "].ring_resolution"@),
                "entries must be at least 1"@,
                r@[0] > 0 && r@[1] > 0 && r@[2] > 0 && r@[3] > 0,
            ),
        ],
        None => Seq::empty(),
    }
}

/// The checks of the first `n` custom LOD levels.
pub open spec fn lod_levels_checks(levels: Seq<LodLevelFacts>, n: nat) -> Seq<FieldCheck>
    decreases n,
{
    if n == 0 {
        Seq::empty()
    } else {
        lod_levels_checks(levels, (n - 1) as nat) + lod_level_checks((n - 1) as nat, levels[n - 1])
    }
}

/// The checks of the LOD configuration.
pub open spec fn lod_checks(s: SpeciesFacts) -> Seq<FieldCheck> {
    let count = match s.lod_count {
        Some(c) => seq![("lod.count"@, at_least_one_rule(), c > 0)],
        None => Seq::empty(),
    };
    count + lod_levels_checks(s.lod_levels@, s.lod_levels@.len())
}

/// Every check of a species document, in order: name and trunk, the branch
/// levels, crown, leaves and texture resolution, the colors, then the LOD
/// configuration.
pub open spec fn species_checks(s: SpeciesFacts) -> Seq<FieldCheck> {
    trunk_checks(s) + optional_level_checks(1, s.level1) + optional_level_checks(2, s.level2)
        + optional_level_checks(3, s.level3) + crown_leaf_checks(s) + color_checks(
        "textures.bark_color"@,
        s.bark_color_in_unit,
    ) + color_checks("textures.leaf_color"@, s.leaf_color_in_unit) + lod_checks(s)
}

/// Every report of a species document: its failed checks, in order.
pub open spec fn species_errors(s: SpeciesFacts) -> Seq<FieldRule> {
    failures(species_checks(s))
}

/// The field and rule of each report.
pub open spec fn reported(v: Seq<SpeciesFieldError>) -> Seq<FieldRule> {
    v.map_values(|e: SpeciesFieldError| (e.field@, e.message@))
}

/// Reports `field` with `message` unless `ok`; `done` are the checks run
/// so far.
fn check(
    errors: &mut Vec<SpeciesFieldError>,
    Ghost(done): Ghost<Seq<FieldCheck>>,
    field: String,
    message: &str,
    ok: bool,
)
    requires
        reported(old(errors)@) == failures(done),
    ensures
        reported(final(errors)@) == failures(done.push((field@, message@, ok))),
{
    if !ok {
        errors.push(SpeciesFieldError { field, message: owned(message) });
    }
    reveal(failures);
    assert(done.push((field@, message@, ok)).drop_last() =~= done);
    assert(reported(final(errors)@) =~= reported(old(errors)@) + entry(field@, message@, ok));
}

fn color_field_of(field: &str, i: u64) -> (r: String)
    ensures
        r@ == color_field(field@, i as nat),
{
    let mut s = owned(field);
    push_str(&mut s, "[");
    push_decimal(&mut s, i);
    push_str(&mut s, "]");
    s
}

fn field_of(a: &str, n: u64, b: &str) -> (r: String)
    ensures
        r@ == a@ + decimal_digits(n as nat) + b@,
{
    let mut s = owned(a);
    push_decimal(&mut s, n);
    push_str(&mut s, b);
    s
}

#[verifier::rlimit(50)]
fn check_trunk(errors: &mut Vec<SpeciesFieldError>, Ghost(done): Ghost<Seq<FieldCheck>>, s: &SpeciesFacts)
    requires
        reported(old(errors)@) == failures(done),
    ensures
        reported(final(errors)@) == failures(done + trunk_checks(*s)),
{
    let ghost mut d = done;
    check(errors, Ghost(d), owned("species.name"), "must not be empty", !blank(s.name.as_str()));
    proof { d = d.push(("species.name"@, "must not be empty"@, !is_blank(s.name@))); }
    check(errors, Ghost(d), owned("trunk.height"), "must be positive and finite", s.trunk_height_positive);
    proof { d = d.push(("trunk.height"@, positive_rule(), s.trunk_height_positive)); }
    check(errors, Ghost(d), owned("trunk.height_variance"), "must be in 0..=1", s.trunk_height_variance_in_unit);
    proof { d = d.push(("trunk.height_variance"@, unit_rule(), s.trunk_height_variance_in_unit)); }
    check(errors, Ghost(d), owned("trunk.radius"), "must be positive and finite", s.trunk_radius_positive);
    proof { d = d.push(("trunk.radius"@, positive_rule(), s.trunk_radius_positive)); }
    check(errors, Ghost(d), owned("trunk.taper"), "must be non-negative and finite", s.trunk_taper_nonnegative);
    proof { d = d.push(("trunk.taper"@, nonnegative_rule(), s.trunk_taper_nonnegative)); }
    check(errors, Ghost(d), owned("trunk.curve"), "must be finite", s.trunk_curve_finite);
    proof { d = d.push(("trunk.curve"@, finite_rule(), s.trunk_curve_finite)); }
    check(errors, Ghost(d), owned("trunk.curve_variance"), "must be finite", s.trunk_curve_variance_finite);
    proof { d = d.push(("trunk.curve_variance"@, finite_rule(), s.trunk_curve_variance_finite)); }
    check(errors, Ghost(d), owned("trunk.curve_back"), "must be finite", s.trunk_curve_back_finite);
    proof { d = d.push(("trunk.curve_back"@, finite_rule(), s.trunk_curve_back_finite)); }
    check(errors, Ghost(d), owned("trunk.segments"), "must be at least 1", s.trunk_segments > 0);
    proof {
        d = d.push(("trunk.segments"@, at_least_one_rule(), s.trunk_segments > 0));
        assert(d =~= done + trunk_checks(*s));
    }
}

#[verifier::rlimit(50)]
fn check_branch_level(
    errors: &mut Vec<SpeciesFieldError>,
    Ghost(done): Ghost<Seq<FieldCheck>>,
    level: u64,
    p: &BranchLevelFacts,
)
    requires
        reported(old(errors)@) == failures(done),
    ensures
        reported(final(errors)@) == failures(done + branch_level_checks(level as nat, *p)),
{
    let ghost mut d = done;
    let ghost l = level as nat;
    let pre = "branches.level";
    check(errors, Ghost(d), field_of(pre, level, ".length"), "must be positive and finite", p.length_positive);
    proof { d = d.push((level_field(l, ".length"@), positive_rule(), p.length_positive)); }
    check(errors, Ghost(d), field_of(pre, level, ".length_variance"), "must be in 0..=1", p.length_variance_in_unit);
    proof { d = d.push((level_field(l, ".length_variance"@), unit_rule(), p.length_variance_in_unit)); }
    check(errors, Ghost(d), field_of(pre, level, ".radius_ratio"), "must be positive and finite", p.radius_ratio_positive);
    proof { d = d.push((level_field(l, ".radius_ratio"@), positive_rule(), p.radius_ratio_positive)); }
    check(errors, Ghost(d), field_of(pre, level, ".pipe_exponent"), "must be positive and finite", p.pipe_exponent_positive);
    proof { d = d.push((level_field(l, ".pipe_exponent"@), positive_rule(), p.pipe_exponent_positive)); }
    check(errors, Ghost(d), field_of(pre, level, ".taper"), "must be non-negative and finite", p.taper_nonnegative);
    proof { d = d.push((level_field(l, ".taper"@), nonnegative_rule(), p.taper_nonnegative)); }
    check(errors, Ghost(d), field_of(pre, level, ".angle"), "must be finite", p.angle_finite);
    proof { d = d.push((level_field(l, ".angle"@), finite_rule(), p.angle_finite)); }
    check(errors, Ghost(d), field_of(pre, level, ".angle_variance"), "must be finite", p.angle_variance_finite);
    proof { d = d.push((level_field(l, ".angle_variance"@), finite_rule(), p.angle_variance_finite)); }
    check(errors, Ghost(d), field_of(pre, level, ".rotation"), "must be finite", p.rotation_finite);
    proof { d = d.push((level_field(l, ".rotation"@), finite_rule(), p.rotation_finite)); }
    check(errors, Ghost(d), field_of(pre, level, ".gravity"), "must be in -1..=1", p.gravity_in_signed_unit);
    proof { d = d.push((level_field(l, ".gravity"@), signed_unit_rule(), p.gravity_in_signed_unit)); }
    check(errors, Ghost(d), field_of(pre, level, ".curve"), "must be finite", p.curve_finite);
    proof { d = d.push((level_field(l, ".curve"@), finite_rule(), p.curve_finite)); }
    check(errors, Ghost(d), field_of(pre, level, ".curve_variance"), "must be finite", p.curve_variance_finite);
    proof { d = d.push((level_field(l, ".curve_variance"@), finite_rule(), p.curve_variance_finite)); }
    check(
        errors,
        Ghost(d),
        field_of(pre, level, ".count"),
        "level with count 0 contributes nothing; remove it or raise the count",
        p.count > 0 || p.count_variance > 0,
    );
    proof { d = d.push((level_field(l, ".count"@), empty_level_rule(), p.count > 0 || p.count_variance > 0)); }
    check(errors, Ghost(d), field_of(pre, level, ".segments"), "must be at least 1", p.segments > 0);
    proof {
        d = d.push((level_field(l, ".segments"@), at_least_one_rule(), p.segments > 0));
        assert(d =~= done + branch_level_checks(l, *p));
    }
}

fn check_optional_level(
    errors: &mut Vec<SpeciesFieldError>,
    Ghost(done): Ghost<Seq<FieldCheck>>,
    level: u64,
    p: &Option<BranchLevelFacts>,
)
    requires
        reported(old(errors)@) == failures(done),
    ensures
        reported(final(errors)@) == failures(done + optional_level_checks(level as nat, *p)),
{
    match p {
        Some(p) => check_branch_level(errors, Ghost(done), level, p),
        None => {
            assert(done + Seq::<FieldCheck>::empty() =~= done);
        },
    }
}

fn check_crown_leaves(
    errors: &mut Vec<SpeciesFieldError>,
    Ghost(done): Ghost<Seq<FieldCheck>>,
    s: &SpeciesFacts,
)
    requires
        reported(old(errors)@) == failures(done),
    ensures
        reported(final(errors)@) == failures(done + crown_leaf_checks(*s)),
{
    let ghost mut d = done;
    check(errors, Ghost(d), owned("crown.offset"), "must be in 0..=1", s.crown_offset_in_unit);
    proof { d = d.push(("crown.offset"@, unit_rule(), s.crown_offset_in_unit)); }
    check(errors, Ghost(d), owned("crown.density"), "must be positive and finite", s.crown_density_positive);
    proof { d = d.push(("crown.density"@, positive_rule(), s.crown_density_positive)); }
    check(errors, Ghost(d), owned("crown.width_ratio"), "must be positive and finite", s.crown_width_ratio_positive);
    proof { d = d.push(("crown.width_ratio"@, positive_rule(), s.crown_width_ratio_positive)); }
    check(errors, Ghost(d), owned("leaves.size"), "must be positive and finite", s.leaf_size_positive);
    proof { d = d.push(("leaves.size"@, positive_rule(), s.leaf_size_positive)); }
    check(errors, Ghost(d), owned("leaves.size_variance"), "must be in 0..=1", s.leaf_size_variance_in_unit);
    proof { d = d.push(("leaves.size_variance"@, unit_rule(), s.leaf_size_variance_in_unit)); }
    check(errors, Ghost(d), owned("leaves.up_influence"), "must be in -1..=1", s.leaf_up_influence_in_signed_unit);
    proof { d = d.push(("leaves.up_influence"@, signed_unit_rule(), s.leaf_up_influence_in_signed_unit)); }
    check(errors, Ghost(d), owned("leaves.min_level"), "out of supported range", s.leaf_min_level <= MAX_BRANCH_LEVELS);
    proof { d = d.push(("leaves.min_level"@, "out of supported range"@, s.leaf_min_level <= MAX_BRANCH_LEVELS)); }
    let resolution_ok = 1 <= s.texture_resolution && s.texture_resolution <= 8192;
    check(errors, Ghost(d), owned("textures.resolution"), "must be in 1..=8192", resolution_ok);
    proof {
        d = d.push(("textures.resolution"@, "must be in 1..=8192"@, resolution_ok));
        assert(d =~= done + crown_leaf_checks(*s));
    }
}

fn check_color(
    errors: &mut Vec<SpeciesFieldError>,
    Ghost(done): Ghost<Seq<FieldCheck>>,
    field: &str,
    c: &Option<[bool; 3]>,
)
    requires
        reported(old(errors)@) == failures(done),
    ensures
        reported(final(errors)@) == failures(done + color_checks(field@, *c)),
{
    let ghost mut d = done;
    match c {
        Some(ok) => {
            check(errors, Ghost(d), color_field_of(field, 0), "must be in 0..=1", ok[0]);
            proof { d = d.push((color_field(field@, 0), unit_rule(), ok@[0])); }
            check(errors, Ghost(d), color_field_of(field, 1), "must be in 0..=1", ok[1]);
            proof { d = d.push((color_field(field@, 1), unit_rule(), ok@[1])); }
            check(errors, Ghost(d), color_field_of(field, 2), "must be in 0..=1", ok[2]);
            proof { d = d.push((color_field(field@, 2), unit_rule(), ok@[2])); }
        },
        None => {},
    }
    assert(d =~= done + color_checks(field@, *c));
}

fn check_lod_level(
    errors: &mut Vec<SpeciesFieldError>,
    Ghost(done): Ghost<Seq<FieldCheck>>,
    i: u64,
    l: &LodLevelFacts,
)
    requires
        reported(old(errors)@) == failures(done),
    ensures
        reported(final(errors)@) == failures(done + lod_level_checks(i as nat, *l)),
{
    let ghost mut d = done;
    let ghost n = i as nat;
    let pre = "lod.levels[";
    check(errors, Ghost(d), field_of(pre, i, "].leaf_reduction"), "must be in 0..=1", l.leaf_reduction_in_unit);
    proof { d = d.push((lod_field(n, "].leaf_reduction"@), unit_rule(), l.leaf_reduction_in_unit)); }
    check(errors, Ghost(d), field_of(pre, i, "].screen_height"), "must be non-negative and finite", l.screen_height_nonnegative);
    proof { d = d.push((lod_field(n, "].screen_height"@), nonnegative_rule(), l.screen_height_nonnegative)); }
    check(errors, Ghost(d), field_of(pre, i, "].branch_levels"), "must be at least 1", l.branch_levels > 0);
    proof { d = d.push((lod_field(n, "].branch_levels"@), at_least_one_rule(), l.branch_levels > 0)); }
    match l.ring_resolution {
        Some(r) => {
            let ok = r[0] > 0 && r[1] > 0 && r[2] > 0 && r[3] > 0;
            check(errors, Ghost(d), field_of(pre, i, "].ring_resolution"), "entries must be at least 1", ok);
            proof { d = d.push((lod_field(n, "].ring_resolution"@), "entries must be at least 1"@, ok)); }
        },
        None => {},
    }
    assert(d =~= done + lod_level_checks(n, *l));
}

/// Validates a species document: every violated rule is reported with its
/// dotted field path, in the order of `species_checks`; the document is
/// accepted exactly when no rule is violated.
pub fn validate_species(s: &SpeciesFacts) -> (r: Result<(), Vec<SpeciesFieldError>>)
    ensures
        match r {
            Ok(()) => species_errors(*s).len() == 0,
            Err(errors) => errors@.len() > 0 && reported(errors@) == species_errors(*s),
        },
{
    let mut errors: Vec<SpeciesFieldError> = Vec::new();
    let ghost mut d: Seq<FieldCheck> = Seq::empty();
    assert(reported(errors@) =~= failures(d)) by {
        reveal(failures);
    }
    check_trunk(&mut errors, Ghost(d), s);
    proof { d = d + trunk_checks(*s); }
    check_optional_level(&mut errors, Ghost(d), 1, &s.level1);
    proof { d = d + optional_level_checks(1, s.level1); }
    check_optional_level(&mut errors, Ghost(d), 2, &s.level2);
    proof { d = d + optional_level_checks(2, s.level2); }
    check_optional_level(&mut errors, Ghost(d), 3, &s.level3);
    proof { d = d + optional_level_checks(3, s.level3); }
    check_crown_leaves(&mut errors, Ghost(d), s);
    proof { d = d + crown_leaf_checks(*s); }
    check_color(&mut errors, Ghost(d), "textures.bark_color", &s.bark_color_in_unit);
    proof { d = d + color_checks("textures.bark_color"@, s.bark_color_in_unit); }
    check_color(&mut errors, Ghost(d), "textures.leaf_color", &s.leaf_color_in_unit);
    proof { d = d + color_checks("textures.leaf_color"@, s.leaf_color_in_unit); }
    let ghost before_lod = d;
    match s.lod_count {
        Some(c) => {
            check(&mut errors, Ghost(d), owned("lod.count"), "must be at least 1", c > 0);
            proof { d = d.push(("lod.count"@, at_least_one_rule(), c > 0)); }
        },
        None => {},
    }
    let ghost after_count = d;
    let mut i: usize = 0;
    while i < s.lod_levels.len()
        invariant
            i <= s.lod_levels@.len(),
            reported(errors@) == failures(after_count + lod_levels_checks(s.lod_levels@, i as nat)),
        decreases s.lod_levels@.len() - i,
    {
        check_lod_level(&mut errors, Ghost(after_count + lod_levels_checks(s.lod_levels@, i as nat)), i as u64, &s.lod_levels[i]);
        proof {
            assert(lod_levels_checks(s.lod_levels@, (i + 1) as nat) == lod_levels_checks(s.lod_levels@, i as nat)
                + lod_level_checks(i as nat, s.lod_levels@[i as int]));
            assert(after_count + lod_levels_checks(s.lod_levels@, i as nat) + lod_level_checks(i as nat, s.lod_levels@[i as int])
                =~= after_count + lod_levels_checks(s.lod_levels@, (i + 1) as nat));
        }
        i = i + 1;
    }
    proof {
        let count = match s.lod_count {
            Some(c) => seq![("lod.count"@, at_least_one_rule(), c > 0)],
            None => Seq::<FieldCheck>::empty(),
        };
        assert(after_count =~= before_lod + count);
        assert(after_count + lod_levels_checks(s.lod_levels@, s.lod_levels@.len()) =~= species_checks(*s));
    }
    if errors.len() == 0 {
        Ok(())
    } else {
        Err(errors)
    }
}

/// A field path that cannot be `textures.resolution`: shorter than ten
/// characters, or without `t`, `x` and `r` at characters 0, 2 and 9.
pub open spec fn not_resolution_path(f: Seq<char>) -> bool {
    f.len() < 10 || f[0] != 't' || f[2] != 'x' || f[9] != 'r'
}

/// No check of the list is on a path that could be `textures.resolution`.
pub open spec fn paths_not_resolution(cs: Seq<FieldCheck>) -> bool {
    forall|j: int| 0 <= j < cs.len() ==> not_resolution_path(#[trigger] cs[j].0)
}

proof fn lemma_resolution_path()
    ensures
        !not_resolution_path("textures.resolution"@),
        "textures.resolution"@.len() == 19,
{
    reveal_strlit("textures.resolution");
}

proof fn lemma_paths_concat(a: Seq<FieldCheck>, b: Seq<FieldCheck>)
    requires
        paths_not_resolution(a),
        paths_not_resolution(b),
    ensures
        paths_not_resolution(a + b),
{
    assert forall|j: int| 0 <= j < (a + b).len() implies not_resolution_path(
        #[trigger] (a + b)[j].0,
    ) by {
        if j < a.len() {
            assert((a + b)[j] == a[j]);
        } else {
            assert((a + b)[j] == b[j - a.len()]);
        }
    }
}

/// A path that starts with a character other than `t` is not the
/// resolution path.
proof fn lemma_prefixed_path(prefix: Seq<char>, rest: Seq<char>)
    requires
        prefix.len() > 0,
        prefix[0] != 't',
    ensures
        not_resolution_path(prefix + rest),
{
    if (prefix + rest).len() >= 10 {
        assert((prefix + rest)[0] == prefix[0]);
    }
}

proof fn lemma_trunk_paths(s: SpeciesFacts)
    ensures
        paths_not_resolution(trunk_checks(s)),
{
    reveal_strlit("species.name");
    reveal_strlit("trunk.height");
    reveal_strlit("trunk.height_variance");
    reveal_strlit("trunk.radius");
    reveal_strlit("trunk.taper");
    reveal_strlit("trunk.curve");
    reveal_strlit("trunk.curve_variance");
    reveal_strlit("trunk.curve_back");
    reveal_strlit("trunk.segments");
    let cs = trunk_checks(s);
    assert forall|j: int| 0 <= j < cs.len() implies not_resolution_path(#[trigger] cs[j].0) by {
        if j == 0 {
            assert(cs[j].0 == "species.name"@);
        } else {
            assert(cs[j].0[2] == 'u');
        }
    }
}

proof fn lemma_level_paths(level: nat, p: Option<BranchLevelFacts>)
    ensures
        paths_not_resolution(optional_level_checks(level, p)),
{
    reveal_strlit("branches.level");
    let head = "branches.level"@;
    assert(head[0] == 'b');
    match p {
        Some(f) => {
            let cs = branch_level_checks(level, f);
            assert forall|j: int| 0 <= j < cs.len() implies not_resolution_path(
                #[trigger] cs[j].0,
            ) by {
                let name = cs[j].0.subrange(head.len() as int, cs[j].0.len() as int);
                assert(cs[j].0 =~= head + name);
                lemma_prefixed_path(head, name);
            }
        },
        None => {},
    }
}

proof fn lemma_crown_paths(s: SpeciesFacts)
    ensures
        crown_leaf_checks(s).len() == 8,
        paths_not_resolution(crown_leaf_checks(s).take(7)),
        crown_leaf_checks(s)[7].0 == "textures.resolution"@,
        crown_leaf_checks(s)[7].2 == (1 <= s.texture_resolution <= 8192),
{
    reveal_strlit("crown.offset");
    reveal_strlit("crown.density");
    reveal_strlit("crown.width_ratio");
    reveal_strlit("leaves.size");
    reveal_strlit("leaves.size_variance");
    reveal_strlit("leaves.up_influence");
    reveal_strlit("leaves.min_level");
    let cs = crown_leaf_checks(s).take(7);
    assert forall|j: int| 0 <= j < cs.len() implies not_resolution_path(#[trigger] cs[j].0) by {
        assert(cs[j].0[0] == 'c' || cs[j].0[0] == 'l');
    }
}

proof fn lemma_color_paths(field: Seq<char>, c: Option<[bool; 3]>)
    requires
        field.len() >= 10,
        field[9] != 'r',
    ensures
        paths_not_resolution(color_checks(field, c)),
{
    match c {
        Some(ok) => {
            let cs = color_checks(field, c);
            assert forall|j: int| 0 <= j < cs.len() implies not_resolution_path(
                #[trigger] cs[j].0,
            ) by {
                assert(cs[j].0[9] == field[9]);
            }
        },
        None => {},
    }
}

proof fn lemma_lod_paths(s: SpeciesFacts)
    ensures
        paths_not_resolution(lod_checks(s)),
{
    reveal_strlit("lod.count");
    reveal_strlit("lod.levels[");
    let count = match s.lod_count {
        Some(c) => seq![("lod.count"@, at_least_one_rule(), c > 0)],
        None => Seq::<FieldCheck>::empty(),
    };
    assert(paths_not_resolution(count)) by {
        if count.len() > 0 {
            assert(count[0].0[0] == 'l');
        }
    }
    lemma_lod_levels_paths(s.lod_levels@, s.lod_levels@.len());
    lemma_paths_concat(count, lod_levels_checks(s.lod_levels@, s.lod_levels@.len()));
}

proof fn lemma_lod_levels_paths(levels: Seq<LodLevelFacts>, n: nat)
    requires
        n <= levels.len(),
    ensures
        paths_not_resolution(lod_levels_checks(levels, n)),
    decreases n,
{
    reveal_strlit("lod.levels[");
    let head = "lod.levels["@;
    assert(head[0] == 'l');
    if n > 0 {
        lemma_lod_levels_paths(levels, (n - 1) as nat);
        let i = (n - 1) as nat;
        let cs = lod_level_checks(i, levels[n - 1]);
        assert forall|j: int| 0 <= j < cs.len() implies not_resolution_path(#[trigger] cs[j].0) by {
            let rest = cs[j].0.subrange(head.len() as int, cs[j].0.len() as int);
            assert(cs[j].0 =~= head + rest);
            lemma_prefixed_path(head, rest);
        }
        lemma_paths_concat(lod_levels_checks(levels, i), cs);
    }
}

/// A field is reported exactly when one of its checks fails.
proof fn lemma_failures_fields(cs: Seq<FieldCheck>, f: Seq<char>)
    ensures
        (exists|k: int| 0 <= k < failures(cs).len() && #[trigger] failures(cs)[k].0 == f) <==> (
        exists|j: int| 0 <= j < cs.len() && #[trigger] cs[j].0 == f && !cs[j].2),
    decreases cs.len(),
{
    reveal(failures);
    if cs.len() == 0 {
        assert(failures(cs).len() == 0);
    } else {
        let init = cs.drop_last();
        lemma_failures_fields(init, f);
        let fi = failures(init);
        let last = cs[cs.len() - 1];
        let e = entry(last.0, last.1, last.2);
        assert(failures(cs) == fi + e);
        let fc = failures(cs);
        if exists|k: int| 0 <= k < fc.len() && #[trigger] fc[k].0 == f {
            let k = choose|k: int| 0 <= k < fc.len() && #[trigger] fc[k].0 == f;
            if k < fi.len() {
                assert(fc[k] == fi[k]);
                assert(exists|k2: int| 0 <= k2 < fi.len() && #[trigger] fi[k2].0 == f);
                let j = choose|j: int| 0 <= j < init.len() && #[trigger] init[j].0 == f && !init[j].2;
                assert(cs[j] == init[j]);
                assert(exists|j2: int| 0 <= j2 < cs.len() && #[trigger] cs[j2].0 == f && !cs[j2].2);
            } else {
                assert(!last.2);
                assert(fc[k] == (last.0, last.1));
                assert(cs[cs.len() - 1].0 == f);
                assert(exists|j2: int| 0 <= j2 < cs.len() && #[trigger] cs[j2].0 == f && !cs[j2].2);
            }
        }
        if exists|j: int| 0 <= j < cs.len() && #[trigger] cs[j].0 == f && !cs[j].2 {
            let j = choose|j: int| 0 <= j < cs.len() && #[trigger] cs[j].0 == f && !cs[j].2;
            if j < init.len() {
                assert(init[j] == cs[j]);
                assert(exists|j2: int| 0 <= j2 < init.len() && #[trigger] init[j2].0 == f && !init[j2].2);
                let k = choose|k: int| 0 <= k < fi.len() && #[trigger] fi[k].0 == f;
                assert(fc[k] == fi[k]);
                assert(exists|k2: int| 0 <= k2 < fc.len() && #[trigger] fc[k2].0 == f);
            } else {
                assert(j == cs.len() - 1);
                assert(e == seq![(last.0, last.1)]);
                assert(fc[fi.len() as int] == (last.0, last.1));
                assert(fc[fi.len() as int].0 == f);
                assert(exists|k2: int| 0 <= k2 < fc.len() && #[trigger] fc[k2].0 == f);
            }
        }
    }
}

/// `textures.resolution` is reported exactly when the texture resolution
/// lies outside `1..=8192`, whatever else the document holds.
#[verifier::rlimit(40)]
pub proof fn lemma_texture_resolution_reported(s: SpeciesFacts)
    ensures
        (exists|k: int|
            0 <= k < species_errors(s).len() && #[trigger] species_errors(s)[k].0
                == "textures.resolution"@) <==> !(1 <= s.texture_resolution <= 8192),
{
    let res = "textures.resolution"@;
    lemma_resolution_path();
    lemma_trunk_paths(s);
    lemma_level_paths(1, s.level1);
    lemma_level_paths(2, s.level2);
    lemma_level_paths(3, s.level3);
    lemma_crown_paths(s);
    reveal_strlit("textures.bark_color");
    reveal_strlit("textures.leaf_color");
    lemma_color_paths("textures.bark_color"@, s.bark_color_in_unit);
    lemma_color_paths("textures.leaf_color"@, s.leaf_color_in_unit);
    lemma_lod_paths(s);
    let pre = trunk_checks(s) + optional_level_checks(1, s.level1) + optional_level_checks(
        2,
        s.level2,
    ) + optional_level_checks(3, s.level3);
    lemma_paths_concat(trunk_checks(s), optional_level_checks(1, s.level1));
    lemma_paths_concat(
        trunk_checks(s) + optional_level_checks(1, s.level1),
        optional_level_checks(2, s.level2),
    );
    lemma_paths_concat(
        trunk_checks(s) + optional_level_checks(1, s.level1) + optional_level_checks(2, s.level2),
        optional_level_checks(3, s.level3),
    );
    let post = color_checks("textures.bark_color"@, s.bark_color_in_unit) + color_checks(
        "textures.leaf_color"@,
        s.leaf_color_in_unit,
    ) + lod_checks(s);
    lemma_paths_concat(
        color_checks("textures.bark_color"@, s.bark_color_in_unit),
        color_checks("textures.leaf_color"@, s.leaf_color_in_unit),
    );
    lemma_paths_concat(
        color_checks("textures.bark_color"@, s.bark_color_in_unit) + color_checks(
            "textures.leaf_color"@,
            s.leaf_color_in_unit,
        ),
        lod_checks(s),
    );
    let crown = crown_leaf_checks(s);
    let cs = species_checks(s);
    assert(cs =~= pre + crown + post);
    let at: int = pre.len() as int + 7;
    assert(cs[at] == crown[7]);
    lemma_failures_fields(cs, res);
    assert(species_errors(s) == failures(cs));
    if exists|j: int| 0 <= j < cs.len() && #[trigger] cs[j].0 == res && !cs[j].2 {
        let j = choose|j: int| 0 <= j < cs.len() && #[trigger] cs[j].0 == res && !cs[j].2;
        if j < pre.len() {
            assert(cs[j] == pre[j]);
            assert(not_resolution_path(pre[j].0));
        } else if j < at {
            assert(cs[j] == crown.take(7)[j - pre.len()]);
            assert(not_resolution_path(crown.take(7)[j - pre.len()].0));
        } else if j > at {
            assert(cs[j] == post[j - pre.len() - 8]);
            assert(not_resolution_path(post[j - pre.len() - 8].0));
        }
    }
    if !(1 <= s.texture_resolution <= 8192) {
        assert(cs[at].0 == res && !cs[at].2);
        assert(exists|j: int| 0 <= j < cs.len() && #[trigger] cs[j].0 == res && !cs[j].2);
    } else {
        assert(!exists|j: int| 0 <= j < cs.len() && #[trigger] cs[j].0 == res && !cs[j].2);
    }
}

} // verus!
