//! Species metadata and the enumerations that species documents select
//! from, with their documented defaults.

use vstd::prelude::*;

verus! {

/// Basic species identification information.
#[derive(Debug, Clone)]
pub struct SpeciesInfo {
    /// Common name of the tree species (e.g. "Oak").
    pub name: String,
    /// Scientific name (e.g. "Quercus robur").
    pub scientific: String,
    /// Latin/binomial name alias for workflows that prefer `latin`.
    pub latin: String,
    /// Broad biome label such as `temperate`, `desert`, or `tropical`.
    pub biome: String,
    /// Search/classification tags.
    pub tags: Vec<String>,
}

impl SpeciesInfo {
    /// The effective Latin/binomial name: `latin` when set, else `scientific`.
    pub fn latin_name(&self) -> (r: &str)
        ensures
            r@ == if self.latin@.len() == 0 {
                self.scientific@
            } else {
                self.latin@
            },
    {
        if self.latin.as_str().unicode_len() == 0 {
            self.scientific.as_str()
        } else {
            self.latin.as_str()
        }
    }
}

/// Generator family selector.
#[derive(Debug, Clone, Copy, PartialEq, Eq, Structural)]
pub enum GeneratorFamily {
    /// Current branch/trunk/leaf tree path.
    WeberPenn,
    /// Fork grammar path for rosette plants and other dichotomous forms.
    Dichotomous,
    /// Reserved for explicit cactus/ribbed-column implementations.
    Cactus,
    /// Reserved for pad/segment chain plants.
    PadChain,
    /// Explicit custom family marker for external tooling.
    Custom,
}

impl Default for GeneratorFamily {
    fn default() -> (r: Self)
        ensures
            r == GeneratorFamily::WeberPenn,
    {
        default_generator_family()
    }
}

/// Generator routing metadata.
#[derive(Debug, Clone)]
pub struct GeneratorConfig {
    /// Family of generator used for this species.
    pub family: GeneratorFamily,
    /// Optional note explaining why this family was selected.
    pub notes: String,
}

impl Default for GeneratorConfig {
    fn default() -> (r: Self)
        ensures
            r.family == GeneratorFamily::WeberPenn,
            r.notes@ == Seq::<char>::empty(),
    {
        GeneratorConfig { family: default_generator_family(), notes: String::new() }
    }
}

/// Placeholder material identifiers (metadata only).
#[derive(Debug, Clone)]
pub struct MaterialPlaceholders {
    /// Bark/stem material placeholder name.
    pub bark: String,
    /// Leaf/foliage material placeholder name.
    pub foliage: String,
    /// Human notes for future material work.
    pub notes: String,
}

impl Default for MaterialPlaceholders {
    fn default() -> (r: Self)
        ensures
            r.bark@ == Seq::<char>::empty(),
            r.foliage@ == Seq::<char>::empty(),
            r.notes@ == Seq::<char>::empty(),
    {
        MaterialPlaceholders { bark: String::new(), foliage: String::new(), notes: String::new() }
    }
}

/// Child branch radius calculation model.
#[derive(Debug, Clone, Copy, PartialEq, Eq, Structural)]
pub enum BranchRadiusModel {
    /// Child radius is parent radius multiplied by `radius_ratio`.
    Ratio,
    /// Child radii are split across siblings using a pipe-model exponent.
    Pipe,
}

impl Default for BranchRadiusModel {
    fn default() -> (r: Self)
        ensures
            r == BranchRadiusModel::Ratio,
    {
        BranchRadiusModel::Ratio
    }
}

/// Radius taper curve along a trunk or branch.
#[derive(Debug, Clone, Copy, PartialEq, Eq, Structural)]
pub enum TaperProfile {
    /// Interpolate directly from base to tip radius.
    Linear,
    /// Smoothstep curve.
    Smooth,
    /// Exponential curve.
    Exponential,
    /// Legacy per-segment multiplicative taper.
    Compound,
}

impl Default for TaperProfile {
    fn default() -> (r: Self)
        ensures
            r == TaperProfile::Linear,
    {
        TaperProfile::Linear
    }
}

/// Crown shape.
#[derive(Debug, Clone, Copy, PartialEq, Eq, Structural)]
pub enum CrownShape {
    /// Round, ball-shaped crown (oak, maple).
    Spherical,
    /// Cone-shaped crown (pine, spruce).
    Conical,
    /// Half-sphere crown.
    Hemispherical,
    /// Flame or teardrop shape (cypress, poplar).
    Flame,
    /// Tall, narrow column shape.
    Columnar,
}

/// Leaf distribution pattern.
#[derive(Debug, Clone, Copy, PartialEq, Eq, Structural)]
pub enum LeafDistribution {
    /// Leaves only at branch endpoints.
    Endpoint,
    /// Leaves distributed along branches.
    AlongBranch,
    /// Both endpoint and along branches.
    Both,
}

/// Leaf rendering geometry type.
#[derive(Debug, Clone, Copy, PartialEq, Eq, Structural)]
pub enum LeafGeometry {
    /// Full polygon mesh leaves.
    Polygon,
    /// Two crossed billboard quads.
    CrossBillboard,
    /// Single camera-facing billboard.
    Billboard,
    /// No leaves rendered (`none` in species documents).
    NoLeaves,
}

impl Default for LeafGeometry {
    fn default() -> (r: Self)
        ensures
            r == LeafGeometry::CrossBillboard,
    {
        LeafGeometry::CrossBillboard
    }
}

/// Leaf shape for polygon generation.
#[derive(Debug, Clone, Copy, PartialEq, Eq, Structural)]
pub enum LeafShape {
    /// Elliptical leaf shape.
    Oval,
    /// Egg-shaped leaf, narrower at tip (default).
    Pointed,
    /// Long thin needle (pine, spruce, fir).
    Needle,
    /// Oak-style with rounded lobes.
    OakLobed,
    /// Five-point maple leaf.
    Maple,
    /// Serrated oval (birch, elm).
    Serrated,
    /// Long narrow willow-style leaf.
    Willow,
    /// Heart-shaped leaf (linden, redbud).
    Heart,
    /// Compound palmate (horse chestnut style).
    Palmate,
}

impl Default for LeafShape {
    fn default() -> (r: Self)
        ensures
            r == LeafShape::Pointed,
    {
        LeafShape::Pointed
    }
}

/// Recommended outline resolution of each leaf shape.
pub open spec fn leaf_shape_resolution(shape: LeafShape) -> u32 {
    match shape {
        LeafShape::Oval | LeafShape::Pointed | LeafShape::Heart => 12,
        LeafShape::Needle | LeafShape::Willow => 8,
        LeafShape::Serrated => 24,
        LeafShape::OakLobed => 20,
        LeafShape::Maple => 30,
        LeafShape::Palmate => 36,
    }
}

impl LeafShape {
    /// The recommended polygon resolution for this shape.
    pub fn recommended_resolution(&self) -> (r: u32)
        ensures
            r == leaf_shape_resolution(*self),
    {
        match self {
            LeafShape::Oval | LeafShape::Pointed | LeafShape::Heart => 12,
            LeafShape::Needle | LeafShape::Willow => 8,
            LeafShape::Serrated => 24,
            LeafShape::OakLobed => 20,
            LeafShape::Maple => 30,
            LeafShape::Palmate => 36,
        }
    }
}

/// The outline resolution leaf polygons are built with: the override when
/// it is positive, else the shape's recommended resolution.
pub fn effective_leaf_resolution(polygon_resolution: u32, shape: LeafShape) -> (r: u32)
    ensures
        r == if polygon_resolution > 0 {
            polygon_resolution
        } else {
            leaf_shape_resolution(shape)
        },
{
    if polygon_resolution > 0 {
        polygon_resolution
    } else {
        shape.recommended_resolution()
    }
}

/// Bark relief style for generated bark maps.
#[derive(Debug, Clone, Copy, PartialEq, Eq, Structural)]
pub enum BarkStyle {
    /// Deep vertical furrows and ridges (oak, ash).
    Furrowed,
    /// Scaly plated bark (pine, spruce).
    Plated,
    /// Smooth bark with lenticel dashes (beech, birch, palm).
    Smooth,
}

impl Default for BarkStyle {
    fn default() -> (r: Self)
        ensures
            r == BarkStyle::Furrowed,
    {
        BarkStyle::Furrowed
    }
}

/// How leaf silhouettes are arranged on the card texture.
#[derive(Debug, Clone, Copy, PartialEq, Eq, Structural)]
pub enum LeafCardLayout {
    /// A single leaf filling the card.
    Single,
    /// A spray of several leaves.
    Cluster,
}

impl Default for LeafCardLayout {
    fn default() -> (r: Self)
        ensures
            r == LeafCardLayout::Cluster,
    {
        LeafCardLayout::Cluster
    }
}

/// LOD preset.
#[derive(Debug, Clone, Copy, PartialEq, Eq, Structural)]
pub enum LodPreset {
    /// Maximum quality, many LOD levels.
    Ultra,
    /// High quality for modern PCs.
    HighQuality,
    /// Balanced quality and performance.
    Balanced,
    /// Optimized for mobile devices.
    Mobile,
    /// Minimal LOD for low-end devices.
    Minimal,
    /// Optimized for open-world forests.
    OpenWorld,
    /// High detail for single prominent trees.
    HeroTree,
    /// Custom LOD configuration.
    Custom,
}

/// Target platform.
#[derive(Debug, Clone, Copy, PartialEq, Eq, Structural)]
pub enum PlatformTarget {
    /// Modern PC with high-end GPU.
    ModernPc,
    /// Mobile phones and tablets.
    Mobile,
    /// Nintendo Switch.
    Switch,
    /// Meta Quest VR headsets.
    Quest,
    /// WebGL/WebGPU browsers.
    Web,
    /// Universal compatibility.
    Universal,
}

/// Platform-specific optimization configuration.
#[derive(Debug, Clone)]
pub struct PlatformConfig {
    /// Target platform.
    pub target: PlatformTarget,
}

impl Default for PlatformConfig {
    fn default() -> (r: Self)
        ensures
            r.target == PlatformTarget::ModernPc,
    {
        PlatformConfig { target: default_platform() }
    }
}

/// A single field-level validation failure on a species document.
#[derive(Debug, Clone)]
pub struct SpeciesFieldError {
    /// Dotted path to the offending parameter.
    pub field: String,
    /// Human-readable description of what is wrong.
    pub message: String,
}

/// Default trunk taper profile.
pub fn default_trunk_taper_profile() -> (r: TaperProfile)
    ensures
        r == TaperProfile::Linear,
{
    TaperProfile::Linear
}

/// Default number of trunk segments.
pub fn default_segments() -> (r: u32)
    ensures
        r == 8,
{
    8
}

/// Default branch count per level.
pub fn default_branch_count() -> (r: u32)
    ensures
        r == 5,
{
    5
}

/// Default branch taper profile.
pub fn default_branch_taper_profile() -> (r: TaperProfile)
    ensures
        r == TaperProfile::Compound,
{
    TaperProfile::Compound
}

/// Default number of branch segments.
pub fn default_branch_segments() -> (r: u32)
    ensures
        r == 4,
{
    4
}

/// Default crown shape.
pub fn default_crown_shape() -> (r: CrownShape)
    ensures
        r == CrownShape::Spherical,
{
    CrownShape::Spherical
}

/// Default leaf count.
pub fn default_leaf_count() -> (r: u32)
    ensures
        r == 2000,
{
    2000
}

/// Default minimum branch level for leaves.
pub fn default_min_level() -> (r: u32)
    ensures
        r == 2,
{
    2
}

/// Default leaf distribution.
pub fn default_distribution() -> (r: LeafDistribution)
    ensures
        r == LeafDistribution::Both,
{
    LeafDistribution::Both
}

/// Default leaf geometry.
pub fn default_leaf_geometry() -> (r: LeafGeometry)
    ensures
        r == LeafGeometry::CrossBillboard,
{
    LeafGeometry::CrossBillboard
}

/// Default LOD preset.
pub fn default_lod_preset() -> (r: LodPreset)
    ensures
        r == LodPreset::Balanced,
{
    LodPreset::Balanced
}

/// Default number of branch levels per LOD.
pub fn default_branch_levels() -> (r: u32)
    ensures
        r == 4,
{
    4
}

/// Default target platform.
pub fn default_platform() -> (r: PlatformTarget)
    ensures
        r == PlatformTarget::ModernPc,
{
    PlatformTarget::ModernPc
}

/// Default generator family.
pub fn default_generator_family() -> (r: GeneratorFamily)
    ensures
        r == GeneratorFamily::WeberPenn,
{
    GeneratorFamily::WeberPenn
}

/// Default generated texture resolution in pixels.
pub fn default_texture_resolution() -> (r: u32)
    ensures
        r == 512,
{
    512
}

} // verus!
