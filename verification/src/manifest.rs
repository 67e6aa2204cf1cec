//! Nature package manifest records, the fixed tables the exporter writes
//! into them, and the contract checks an importer applies to them.

use crate::package::GroundcoverKind;
use crate::text::owned;
use vstd::prelude::*;

verus! {

#[verifier::external_type_specification]
#[verifier::external_body]
pub struct ExPathBuf(std::path::PathBuf);

/// Asset-level metadata.
#[derive(Debug, Clone)]
pub struct NatureAssetInfo {
    /// Must be `nature_patch` for this schema.
    pub kind: String,
    /// User-facing asset name.
    pub name: String,
    /// Unit label for dimensions.
    pub units: String,
}

/// One exported map channel description.
#[derive(Debug, Clone)]
pub struct MapChannel {
    /// File name.
    pub file: String,
    /// Channel meaning.
    pub channels: String,
}

/// Normal map convention outputs for common engines.
#[derive(Debug, Clone)]
pub struct NormalConventions {
    /// Unity/OpenGL-style normal map file.
    pub unity_yplus_file: String,
    /// Unreal/DirectX-style normal map file.
    pub unreal_yminus_file: String,
}

/// Material slot metadata for package importers.
#[derive(Debug, Clone)]
pub struct MaterialSlotManifest {
    /// Stable slot name.
    pub name: String,
    /// Slot purpose.
    pub purpose: String,
    /// Suggested alpha mode.
    pub alpha_mode: String,
    /// Whether generated geometry expects two-sided shading.
    pub double_sided: bool,
    /// Whether shadows are enabled by default.
    pub shadows: bool,
}

/// Material parameter set metadata for engine-native material setup.
#[derive(Debug, Clone)]
pub struct MaterialParameterSetManifest {
    /// Material slot this parameter set configures.
    pub material_slot: String,
    /// Stable parameter set identifier.
    pub parameter_set: String,
    /// Runtime policy for the default mobile/console package.
    pub runtime_policy: String,
    /// Named material parameter bindings.
    pub parameters: Vec<MaterialParameterBindingManifest>,
}

/// One engine material parameter binding.
#[derive(Debug, Clone)]
pub struct MaterialParameterBindingManifest {
    /// Stable engine parameter name.
    pub name: String,
    /// Cross-engine semantic for validators and tools.
    pub semantic: String,
    /// Parameter value type.
    pub value_type: String,
    /// Source data or profile field.
    pub source: String,
    /// Default value encoded for lightweight importer reports.
    pub default_value: String,
}

/// Static material recipe file metadata for engine importers.
#[derive(Debug, Clone)]
pub struct MaterialRecipeManifest {
    /// Material slot configured by this recipe.
    pub material_slot: String,
    /// Relative recipe JSON file path.
    pub file: String,
    /// Runtime policy for the default mobile/console package.
    pub runtime_policy: String,
    /// Engine systems this recipe is intended to help configure.
    pub engine_targets: Vec<String>,
}

/// File-backed static material recipe consumed by engine importers/tools.
#[derive(Debug, Clone)]
pub struct MaterialRecipeFile {
    /// Recipe schema identifier.
    pub schema: String,
    /// Material slot configured by this recipe.
    pub material_slot: String,
    /// Stable parameter set identifier.
    pub parameter_set: String,
    /// Runtime policy for the default mobile/console package.
    pub runtime_policy: String,
    /// Shader/runtime policy inherited from the package.
    pub shader_policy: String,
    /// Texture/PBR pipeline state inherited from the package.
    pub texture_pipeline: String,
    /// Engine systems this recipe is intended to help configure.
    pub engine_targets: Vec<String>,
    /// Named material parameter bindings copied from the manifest contract.
    pub parameters: Vec<MaterialParameterBindingManifest>,
    /// Package textures required by this static recipe.
    pub required_textures: Vec<String>,
    /// Mesh vertex streams required by this static recipe.
    pub required_vertex_streams: Vec<String>,
    /// Surface overlays consumed by this recipe.
    pub surface_overlays: Vec<String>,
    /// Human-readable implementation notes for engine material authors.
    pub notes: Vec<String>,
}

/// Static engine import recipe file metadata for engine importers.
#[derive(Debug, Clone)]
pub struct EngineImportRecipeManifest {
    /// Engine configured by this recipe.
    pub engine: String,
    /// Relative recipe JSON file path.
    pub file: String,
    /// Export profile this recipe should use by default.
    pub profile: String,
    /// Runtime policy for the default mobile/console package.
    pub runtime_policy: String,
    /// Engine-native systems this recipe configures.
    pub expected_systems: Vec<String>,
}

/// Groundcover/detail/foliage import inputs for one engine.
#[derive(Debug, Clone)]
pub struct EngineGroundcoverImportRecipe {
    /// Engine-native target system.
    pub target_system: String,
    /// Prototype source policy.
    pub prototype_source: String,
    /// Groundcover material slot used by generated prototypes.
    pub material_slot: String,
    /// Static material recipe file for groundcover.
    pub material_recipe_file: String,
    /// Number of prototype families declared by the manifest.
    pub prototype_family_count: usize,
    /// Number of LOD0 prototype assets expected for foliage/detail setup.
    pub lod0_prototype_count: usize,
    /// Whether default groundcover shading is two-sided.
    pub double_sided: bool,
    /// Alpha mode expected by the groundcover material.
    pub alpha_mode: String,
}

/// Surface overlay channel metadata for engine importers.
#[derive(Debug, Clone)]
pub struct SurfaceOverlayManifest {
    /// Stable overlay name.
    pub name: String,
    /// Relative mask file containing the overlay channel.
    pub source_file: String,
    /// Channel in `source_file` used by this overlay.
    pub channel: String,
    /// Import targets that should consume this overlay.
    pub targets: Vec<String>,
    /// How engines should apply the overlay by default.
    pub application: String,
    /// Runtime policy for the default mobile/console package.
    pub runtime_policy: String,
}

/// Binary scatter buffer layout metadata.
#[derive(Debug, Clone)]
pub struct ScatterBinaryFormatManifest {
    /// Format identifier.
    pub format: String,
    /// Header byte size.
    pub header_bytes: u32,
    /// Record stride in bytes.
    pub record_stride_bytes: u32,
    /// Endianness.
    pub endian: String,
    /// Header field order.
    pub header: Vec<String>,
    /// Record field order.
    pub record: Vec<String>,
}

/// Packed vertex attribute contract for wind and per-instance variation.
#[derive(Debug, Clone)]
pub struct WindPackingManifest {
    /// Phase channel.
    pub phase: String,
    /// Stiffness channel.
    pub stiffness: String,
    /// Height channel.
    pub height: String,
    /// Color variation channel.
    pub color_variation: String,
    /// Normalized blade/card progress channel.
    pub normalized_progress: String,
}

/// Unity import hints for the default package path.
#[derive(Debug, Clone)]
pub struct UnityImportHints {
    /// Suggested terrain heightmap file.
    pub terrain_heightmap: String,
    /// Suggested terrain/detail density map.
    pub detail_density_map: String,
    /// Suggested normal map file.
    pub normal_map: String,
    /// Suggested detail rendering path.
    pub detail_mode: String,
    /// Maximum instances per instanced batch noted by Unity terrain details.
    pub detail_batch_max_instances: u32,
}

/// Unreal import hints for the default package path.
#[derive(Debug, Clone)]
pub struct UnrealImportHints {
    /// Suggested landscape heightmap file.
    pub landscape_heightmap: String,
    /// Suggested landscape weightmap file.
    pub landscape_weightmap: String,
    /// Suggested normal map file.
    pub normal_map: String,
    /// Suggested foliage import path.
    pub foliage_mode: String,
    /// Suggested static mesh import path.
    pub static_mesh_pipeline: String,
}

/// Summary returned after writing a nature package.
#[derive(Debug)]
pub struct NaturePackageSummary {
    /// Path to `midori_nature.json`.
    pub manifest_path: std::path::PathBuf,
    /// Path to the `maps/` directory.
    pub maps_directory: std::path::PathBuf,
    /// Optional preview mesh path.
    pub preview_mesh_path: Option<std::path::PathBuf>,
    /// Prototype mesh paths written to disk.
    pub prototype_meshes: Vec<std::path::PathBuf>,
    /// Optional scatter JSON path.
    pub scatter_path: Option<std::path::PathBuf>,
    /// Binary scatter buffer paths written to disk.
    pub scatter_binary_paths: Vec<std::path::PathBuf>,
    /// Static material recipe JSON paths written to disk.
    pub material_recipe_paths: Vec<std::path::PathBuf>,
    /// Static engine import recipe JSON paths written to disk.
    pub engine_import_recipe_paths: Vec<std::path::PathBuf>,
    /// Stable checksum of the baked map set.
    pub map_checksum: u64,
    /// Total scatter instances written.
    pub scatter_instance_count: usize,
}

/// Validation summary for one baked map artifact.
#[derive(Debug)]
pub struct MapValidationSummary {
    /// Validated map file path.
    pub file: std::path::PathBuf,
    /// Decoded pixel width.
    pub width: u32,
    /// Decoded pixel height.
    pub height: u32,
    /// Decoded image color type.
    pub color_type: String,
    /// Number of decoded channels.
    pub channels: usize,
    /// Minimum decoded value per channel.
    pub channel_min: Vec<u32>,
    /// Maximum decoded value per channel.
    pub channel_max: Vec<u32>,
    /// FNV-1a checksum of the encoded PNG file bytes.
    pub file_checksum: u64,
}

/// Validation summary for one static material recipe JSON artifact.
#[derive(Debug)]
pub struct MaterialRecipeValidationSummary {
    /// Validated recipe file path.
    pub file: std::path::PathBuf,
    /// Material slot configured by this recipe.
    pub material_slot: String,
    /// Stable parameter set identifier.
    pub parameter_set: String,
    /// Runtime policy for the default mobile/console package.
    pub runtime_policy: String,
    /// Shader/runtime policy declared by the recipe.
    pub shader_policy: String,
    /// Texture/PBR pipeline state declared by the recipe.
    pub texture_pipeline: String,
    /// Count of material parameters bound by the recipe.
    pub parameter_count: usize,
    /// Engine systems this recipe targets.
    pub engine_targets: Vec<String>,
    /// Required package textures.
    pub required_textures: Vec<String>,
    /// Required mesh vertex streams.
    pub required_vertex_streams: Vec<String>,
    /// Surface overlays consumed by this recipe.
    pub surface_overlays: Vec<String>,
    /// FNV-1a checksum of the encoded recipe file bytes.
    pub file_checksum: u64,
}

/// Validation summary for one static engine import recipe JSON artifact.
#[derive(Debug)]
pub struct EngineImportRecipeValidationSummary {
    /// Validated recipe file path.
    pub file: std::path::PathBuf,
    /// Engine configured by this recipe.
    pub engine: String,
    /// Profile configured by this recipe.
    pub profile: String,
    /// Runtime policy for the default mobile/console package.
    pub runtime_policy: String,
    /// Number of source files fingerprinted by this recipe.
    pub source_file_count: usize,
    /// Static material recipes consumed by this recipe.
    pub material_recipe_files: Vec<String>,
    /// Engine-native systems configured by this recipe.
    pub expected_systems: Vec<String>,
    /// Scatter instances expected by this recipe.
    pub scatter_instances: usize,
    /// Scatter binary chunks expected by this recipe.
    pub scatter_binary_chunks: usize,
    /// FNV-1a checksum of the encoded recipe file bytes.
    pub file_checksum: u64,
}

/// Summary proving JSON debug scatter and binary scatter buffers agree.
#[derive(Debug, Clone, Copy, PartialEq, Eq, Structural)]
pub struct ScatterParitySummary {
    /// JSON chunk count.
    pub json_chunk_count: usize,
    /// Binary chunk count.
    pub binary_chunk_count: usize,
    /// Matching JSON/binary chunks.
    pub matching_chunk_count: usize,
    /// JSON chunks missing from binary output.
    pub missing_binary_chunk_count: usize,
    /// Binary chunks missing from JSON output.
    pub extra_binary_chunk_count: usize,
    /// Chunks with mismatched instance counts.
    pub instance_count_mismatch_count: usize,
    /// Chunks with mismatched bounds.
    pub bounds_mismatch_count: usize,
    /// Chunks with mismatched logical record checksums.
    pub record_checksum_mismatch_count: usize,
}

/// The views of a list of strings.
pub open spec fn texts(v: Seq<String>) -> Seq<Seq<char>> {
    v.map_values(|s: String| s@)
}

/// The canonical baked maps: file name and channel meaning.
pub open spec fn map_channel_table() -> Seq<(Seq<char>, Seq<char>)> {
    seq![
        ("height_u16.png"@, "16-bit normalized terrain height"@),
        ("normal_yplus.png"@, "RGB terrain normal, green channel Y+"@),
        ("normal_yminus.png"@, "RGB terrain normal, green channel Y-"@),
        ("masks_rgba.png"@, "R grass density, G moss, B wetness, A cracks"@),
        ("grass_density.png"@, "single-channel grass density"@),
    ]
}

fn map_channel(file: &str, channels: &str) -> (c: MapChannel)
    ensures
        c.file@ == file@,
        c.channels@ == channels@,
{
    MapChannel { file: owned(file), channels: owned(channels) }
}

/// The canonical map channel list of every package.
pub fn nature_map_channels() -> (r: Vec<MapChannel>)
    ensures
        r@.map_values(|c: MapChannel| (c.file@, c.channels@)) == map_channel_table(),
{
    let mut r: Vec<MapChannel> = Vec::new();
    r.push(map_channel("height_u16.png", "16-bit normalized terrain height"));
    r.push(map_channel("normal_yplus.png", "RGB terrain normal, green channel Y+"));
    r.push(map_channel("normal_yminus.png", "RGB terrain normal, green channel Y-"));
    r.push(map_channel("masks_rgba.png", "R grass density, G moss, B wetness, A cracks"));
    r.push(map_channel("grass_density.png", "single-channel grass density"));
    assert(r@.map_values(|c: MapChannel| (c.file@, c.channels@)) =~= map_channel_table());
    r
}

/// Record field order of the binary scatter format.
pub open spec fn scatter_field_table() -> Seq<Seq<char>> {
    seq![
        "position.x:f32"@,
        "position.y:f32"@,
        "position.z:f32"@,
        "yaw_radians:f32"@,
        "height_multiplier:f32"@,
        "width_multiplier:f32"@,
        "phase_radians:f32"@,
        "color_variation:f32"@,
    ]
}

/// Header field order of the binary scatter format.
pub open spec fn scatter_header_table() -> Seq<Seq<char>> {
    seq![
        "magic:u8[4]=MDSI"@,
        "version:u32"@,
        "record_stride_bytes:u32"@,
        "instance_count:u32"@,
    ]
}

/// The record field names of the binary scatter format.
pub fn scatter_instance_fields() -> (r: Vec<String>)
    ensures
        texts(r@) == scatter_field_table(),
{
    let mut r: Vec<String> = Vec::new();
    r.push(owned("position.x:f32"));
    r.push(owned("position.y:f32"));
    r.push(owned("position.z:f32"));
    r.push(owned("yaw_radians:f32"));
    r.push(owned("height_multiplier:f32"));
    r.push(owned("width_multiplier:f32"));
    r.push(owned("phase_radians:f32"));
    r.push(owned("color_variation:f32"));
    assert(texts(r@) =~= scatter_field_table());
    r
}

/// The layout description of the binary scatter format.
pub fn scatter_binary_format_manifest() -> (m: ScatterBinaryFormatManifest)
    ensures
        m.format@ == "midori.scatter.bin.v1"@,
        m.header_bytes == 16,
        m.record_stride_bytes == 32,
        m.endian@ == "little"@,
        texts(m.header@) == scatter_header_table(),
        texts(m.record@) == scatter_field_table(),
{
    let mut header: Vec<String> = Vec::new();
    header.push(owned("magic:u8[4]=MDSI"));
    header.push(owned("version:u32"));
    header.push(owned("record_stride_bytes:u32"));
    header.push(owned("instance_count:u32"));
    assert(texts(header@) =~= scatter_header_table());
    ScatterBinaryFormatManifest {
        format: owned("midori.scatter.bin.v1"),
        header_bytes: crate::scatter_binary::SCATTER_BINARY_HEADER_BYTES,
        record_stride_bytes: crate::scatter_binary::SCATTER_BINARY_RECORD_STRIDE_BYTES,
        endian: owned("little"),
        header,
        record: scatter_instance_fields(),
    }
}

/// One material parameter binding.
pub fn material_parameter(
    name: &str,
    semantic: &str,
    value_type: &str,
    source: &str,
    default_value: &str,
) -> (b: MaterialParameterBindingManifest)
    ensures
        b.name@ == name@,
        b.semantic@ == semantic@,
        b.value_type@ == value_type@,
        b.source@ == source@,
        b.default_value@ == default_value@,
{
    MaterialParameterBindingManifest {
        name: owned(name),
        semantic: owned(semantic),
        value_type: owned(value_type),
        source: owned(source),
        default_value: owned(default_value),
    }
}

/// A parameter binding as its five texts.
pub open spec fn binding_texts(b: MaterialParameterBindingManifest) -> (
    Seq<char>,
    Seq<char>,
    Seq<char>,
    Seq<char>,
    Seq<char>,
) {
    (b.name@, b.semantic@, b.value_type@, b.source@, b.default_value@)
}

/// The terrain parameter bindings: name, semantic, type, source, default.
pub open spec fn terrain_parameter_table() -> Seq<
    (Seq<char>, Seq<char>, Seq<char>, Seq<char>, Seq<char>),
> {
    seq![
        (
            "Midori_MaskTexture"@,
            "overlay_mask_texture"@,
            "texture2d"@,
            "maps/masks_rgba.png"@,
            "maps/masks_rgba.png"@,
        ),
        (
            "Midori_MossMaskChannel"@,
            "moss_mask_channel"@,
            "channel"@,
            "surface_overlays.moss.channel"@,
            "G"@,
        ),
        (
            "Midori_WetnessMaskChannel"@,
            "wetness_mask_channel"@,
            "channel"@,
            "surface_overlays.wetness.channel"@,
            "B"@,
        ),
        (
            "Midori_CrackMaskChannel"@,
            "crack_mask_channel"@,
            "channel"@,
            "surface_overlays.cracks.channel"@,
            "A"@,
        ),
    ]
}

/// The groundcover parameter bindings, with the defaults the package's
/// wind and mobile profile settings are written as.
pub open spec fn groundcover_parameter_table(
    wind_strength: Seq<char>,
    wind_speed: Seq<char>,
    wind_direction_degrees: Seq<char>,
    wind_gust_scale: Seq<char>,
    fade_start: Seq<char>,
    fade_end: Seq<char>,
) -> Seq<(Seq<char>, Seq<char>, Seq<char>, Seq<char>, Seq<char>)> {
    seq![
        (
            "Midori_AlphaCutoff"@,
            "alpha_cutoff"@,
            "float"@,
            "material_slots.groundcover_foliage.alpha_mode"@,
            "0.5"@,
        ),
        ("Midori_WindStrength"@, "wind_strength"@, "float"@, "wind.strength"@, wind_strength),
        ("Midori_WindSpeed"@, "wind_speed"@, "float"@, "wind.speed"@, wind_speed),
        (
            "Midori_WindDirectionDegrees"@,
            "wind_direction_degrees"@,
            "float"@,
            "wind.direction_degrees"@,
            wind_direction_degrees,
        ),
        ("Midori_WindGustScale"@, "wind_gust_scale"@, "float"@, "wind.gust_scale"@, wind_gust_scale),
        (
            "Midori_FadeStartMeters"@,
            "fade_start_meters"@,
            "float"@,
            "profiles.mobile.cull_start"@,
            fade_start,
        ),
        (
            "Midori_FadeEndMeters"@,
            "fade_end_meters"@,
            "float"@,
            "profiles.mobile.cull_end"@,
            fade_end,
        ),
        (
            "Midori_ColorVariationScale"@,
            "color_variation_scale"@,
            "float"@,
            "COLOR_0.y"@,
            "1.0"@,
        ),
    ]
}

/// The material parameter sets of every package. The six defaults are the
/// package's wind strength, speed, direction and gust scale and its mobile
/// fade start and end, already written as text.
pub fn nature_material_parameters(
    wind_strength: &str,
    wind_speed: &str,
    wind_direction_degrees: &str,
    wind_gust_scale: &str,
    fade_start: &str,
    fade_end: &str,
) -> (r: Vec<MaterialParameterSetManifest>)
    ensures
        r@.len() == 2,
        r@[0].material_slot@ == "terrain_surface"@,
        r@[0].parameter_set@ == "midori_terrain_static_v1"@,
        r@[0].runtime_policy@ == "engine_native_static"@,
        r@[0].parameters@.map_values(|b: MaterialParameterBindingManifest| binding_texts(b))
            == terrain_parameter_table(),
        r@[1].material_slot@ == "groundcover_foliage"@,
        r@[1].parameter_set@ == "midori_groundcover_foliage_static_v1"@,
        r@[1].runtime_policy@ == "engine_native_static"@,
        r@[1].parameters@.map_values(|b: MaterialParameterBindingManifest| binding_texts(b))
            == groundcover_parameter_table(
            wind_strength@,
            wind_speed@,
            wind_direction_degrees@,
            wind_gust_scale@,
            fade_start@,
            fade_end@,
        ),
{
    let mut terrain: Vec<MaterialParameterBindingManifest> = Vec::new();
    terrain.push(
        material_parameter(
            "Midori_MaskTexture",
            "overlay_mask_texture",
            "texture2d",
            "maps/masks_rgba.png",
            "maps/masks_rgba.png",
        ),
    );
    terrain.push(
        material_parameter(
            "Midori_MossMaskChannel",
            "moss_mask_channel",
            "channel",
            "surface_overlays.moss.channel",
            "G",
        ),
    );
    terrain.push(
        material_parameter(
            "Midori_WetnessMaskChannel",
            "wetness_mask_channel",
            "channel",
            "surface_overlays.wetness.channel",
            "B",
        ),
    );
    terrain.push(
        material_parameter(
            "Midori_CrackMaskChannel",
            "crack_mask_channel",
            "channel",
            "surface_overlays.cracks.channel",
            "A",
        ),
    );
    assert(terrain@.map_values(|b: MaterialParameterBindingManifest| binding_texts(b))
        =~= terrain_parameter_table());
    let mut foliage: Vec<MaterialParameterBindingManifest> = Vec::new();
    foliage.push(
        material_parameter(
            "Midori_AlphaCutoff",
            "alpha_cutoff",
            "float",
            "material_slots.groundcover_foliage.alpha_mode",
            "0.5",
        ),
    );
    foliage.push(
        material_parameter(
            "Midori_WindStrength",
            "wind_strength",
            "float",
            "wind.strength",
            wind_strength,
        ),
    );
    foliage.push(
        material_parameter("Midori_WindSpeed", "wind_speed", "float", "wind.speed", wind_speed),
    );
    foliage.push(
        material_parameter(
            "Midori_WindDirectionDegrees",
            "wind_direction_degrees",
            "float",
            "wind.direction_degrees",
            wind_direction_degrees,
        ),
    );
    foliage.push(
        material_parameter(
            "Midori_WindGustScale",
            "wind_gust_scale",
            "float",
            "wind.gust_scale",
            wind_gust_scale,
        ),
    );
    foliage.push(
        material_parameter(
            "Midori_FadeStartMeters",
            "fade_start_meters",
            "float",
            "profiles.mobile.cull_start",
            fade_start,
        ),
    );
    foliage.push(
        material_parameter(
            "Midori_FadeEndMeters",
            "fade_end_meters",
            "float",
            "profiles.mobile.cull_end",
            fade_end,
        ),
    );
    foliage.push(
        material_parameter(
            "Midori_ColorVariationScale",
            "color_variation_scale",
            "float",
            "COLOR_0.y",
            "1.0",
        ),
    );
    assert(foliage@.map_values(|b: MaterialParameterBindingManifest| binding_texts(b))
        =~= groundcover_parameter_table(
        wind_strength@,
        wind_speed@,
        wind_direction_degrees@,
        wind_gust_scale@,
        fade_start@,
        fade_end@,
    ));
    let mut r: Vec<MaterialParameterSetManifest> = Vec::new();
    r.push(
        MaterialParameterSetManifest {
            material_slot: owned("terrain_surface"),
            parameter_set: owned("midori_terrain_static_v1"),
            runtime_policy: owned("engine_native_static"),
            parameters: terrain,
        },
    );
    r.push(
        MaterialParameterSetManifest {
            material_slot: owned("groundcover_foliage"),
            parameter_set: owned("midori_groundcover_foliage_static_v1"),
            runtime_policy: owned("engine_native_static"),
            parameters: foliage,
        },
    );
    r
}

/// The material slots of every package; groundcover casts shadows when
/// either profile enables them.
pub fn nature_material_slots(shadows: bool) -> (r: Vec<MaterialSlotManifest>)
    ensures
        r@.len() == 2,
        r@[0].name@ == "terrain_surface"@,
        r@[0].purpose@ == "preview terrain and baked soil surface"@,
        r@[0].alpha_mode@ == "opaque"@,
        !r@[0].double_sided,
        r@[0].shadows,
        r@[1].name@ == "groundcover_foliage"@,
        r@[1].purpose@ == "grass, moss, and low groundcover prototype meshes"@,
        r@[1].alpha_mode@ == "masked"@,
        r@[1].double_sided,
        r@[1].shadows == shadows,
{
    let mut r: Vec<MaterialSlotManifest> = Vec::new();
    r.push(
        MaterialSlotManifest {
            name: owned("terrain_surface"),
            purpose: owned("preview terrain and baked soil surface"),
            alpha_mode: owned("opaque"),
            double_sided: false,
            shadows: true,
        },
    );
    r.push(
        MaterialSlotManifest {
            name: owned("groundcover_foliage"),
            purpose: owned("grass, moss, and low groundcover prototype meshes"),
            alpha_mode: owned("masked"),
            double_sided: true,
            shadows,
        },
    );
    r
}

/// The material recipes of every package: slot, file, policy, targets.
pub open spec fn material_recipe_table() -> Seq<
    (Seq<char>, Seq<char>, Seq<char>, Seq<Seq<char>>),
> {
    seq![
        (
            "terrain_surface"@,
            "materials/terrain_surface.recipe.json"@,
            "engine_native_static"@,
            seq!["unity_terrain_material"@, "unreal_landscape_material"@],
        ),
        (
            "groundcover_foliage"@,
            "materials/groundcover_foliage.recipe.json"@,
            "engine_native_static"@,
            seq!["unity_detail_mesh_material"@, "unreal_static_mesh_foliage_material"@],
        ),
    ]
}

fn string_pair(a: &str, b: &str) -> (r: Vec<String>)
    ensures
        texts(r@) == seq![a@, b@],
{
    let mut r: Vec<String> = Vec::new();
    r.push(owned(a));
    r.push(owned(b));
    assert(texts(r@) =~= seq![a@, b@]);
    r
}

fn string_triple(a: &str, b: &str, c: &str) -> (r: Vec<String>)
    ensures
        texts(r@) == seq![a@, b@, c@],
{
    let mut r: Vec<String> = Vec::new();
    r.push(owned(a));
    r.push(owned(b));
    r.push(owned(c));
    assert(texts(r@) =~= seq![a@, b@, c@]);
    r
}

/// The static material recipes of every package.
pub fn nature_material_recipes() -> (r: Vec<MaterialRecipeManifest>)
    ensures
        r@.map_values(
            |m: MaterialRecipeManifest|
                (m.material_slot@, m.file@, m.runtime_policy@, texts(m.engine_targets@)),
        ) == material_recipe_table(),
{
    let mut r: Vec<MaterialRecipeManifest> = Vec::new();
    r.push(
        MaterialRecipeManifest {
            material_slot: owned("terrain_surface"),
            file: owned("materials/terrain_surface.recipe.json"),
            runtime_policy: owned("engine_native_static"),
            engine_targets: string_pair("unity_terrain_material", "unreal_landscape_material"),
        },
    );
    r.push(
        MaterialRecipeManifest {
            material_slot: owned("groundcover_foliage"),
            file: owned("materials/groundcover_foliage.recipe.json"),
            runtime_policy: owned("engine_native_static"),
            engine_targets: string_pair(
                "unity_detail_mesh_material",
                "unreal_static_mesh_foliage_material",
            ),
        },
    );
    assert(r@.map_values(
        |m: MaterialRecipeManifest|
            (m.material_slot@, m.file@, m.runtime_policy@, texts(m.engine_targets@)),
    ) =~= material_recipe_table());
    r
}

/// The engine import recipes of every package: engine, file, profile,
/// policy, expected systems.
pub open spec fn engine_recipe_table() -> Seq<
    (Seq<char>, Seq<char>, Seq<char>, Seq<char>, Seq<Seq<char>>),
> {
    seq![
        (
            "unity"@,
            "engines/unity_import.recipe.json"@,
            "mobile"@,
            "engine_native_static"@,
            seq![
                "Unity TerrainData"@,
                "GPU-instanced terrain detail mesh prefabs"@,
                "Midori scatter ScriptableObject"@,
            ],
        ),
        (
            "unreal"@,
            "engines/unreal_import.recipe.json"@,
            "console"@,
            "engine_native_static"@,
            seq![
                "Unreal Landscape"@,
                "Static Mesh Foliage"@,
                "Midori binary scatter importer"@,
            ],
        ),
    ]
}

/// The static engine import recipes of every package.
pub fn nature_engine_import_recipes() -> (r: Vec<EngineImportRecipeManifest>)
    ensures
        r@.map_values(
            |m: EngineImportRecipeManifest|
                (m.engine@, m.file@, m.profile@, m.runtime_policy@, texts(m.expected_systems@)),
        ) == engine_recipe_table(),
{
    let mut r: Vec<EngineImportRecipeManifest> = Vec::new();
    r.push(
        EngineImportRecipeManifest {
            engine: owned("unity"),
            file: owned("engines/unity_import.recipe.json"),
            profile: owned("mobile"),
            runtime_policy: owned("engine_native_static"),
            expected_systems: string_triple(
                "Unity TerrainData",
                "GPU-instanced terrain detail mesh prefabs",
                "Midori scatter ScriptableObject",
            ),
        },
    );
    r.push(
        EngineImportRecipeManifest {
            engine: owned("unreal"),
            file: owned("engines/unreal_import.recipe.json"),
            profile: owned("console"),
            runtime_policy: owned("engine_native_static"),
            expected_systems: string_triple(
                "Unreal Landscape",
                "Static Mesh Foliage",
                "Midori binary scatter importer",
            ),
        },
    );
    assert(r@.map_values(
        |m: EngineImportRecipeManifest|
            (m.engine@, m.file@, m.profile@, m.runtime_policy@, texts(m.expected_systems@)),
    ) =~= engine_recipe_table());
    r
}

/// The surface overlays of every package: name, source file, channel,
/// targets, application, policy.
pub open spec fn surface_overlay_table() -> Seq<
    (Seq<char>, Seq<char>, Seq<char>, Seq<Seq<char>>, Seq<char>, Seq<char>),
> {
    seq![
        (
            "moss"@,
            "maps/masks_rgba.png"@,
            "G"@,
            seq![
                "terrain_surface"@,
                "rock"@,
                "log"@,
                "shrub_base"@,
                "trunk_base"@,
                "roots"@,
            ],
            "static material overlay mask; authored prototypes may include geometry moss cards"@,
            "baked_static"@,
        ),
        (
            "wetness"@,
            "maps/masks_rgba.png"@,
            "B"@,
            seq!["terrain_surface"@, "rock"@, "log"@],
            "static material overlay mask for externally supplied roughness/darkening inputs"@,
            "baked_static"@,
        ),
        (
            "cracks"@,
            "maps/masks_rgba.png"@,
            "A"@,
            seq!["terrain_surface"@, "dry_soil"@, "scatter_exclusion"@],
            "static soil crack and optional scatter-exclusion mask"@,
            "baked_static"@,
        ),
    ]
}

/// The surface overlays of every package.
pub fn nature_surface_overlays() -> (r: Vec<SurfaceOverlayManifest>)
    ensures
        r@.map_values(
            |o: SurfaceOverlayManifest|
                (
                    o.name@,
                    o.source_file@,
                    o.channel@,
                    texts(o.targets@),
                    o.application@,
                    o.runtime_policy@,
                ),
        ) == surface_overlay_table(),
{
    let mut moss_targets = string_triple("terrain_surface", "rock", "log");
    let ghost t0 = texts(moss_targets@);
    moss_targets.push(owned("shrub_base"));
    assert(texts(moss_targets@) =~= t0.push("shrub_base"@));
    let ghost t1 = texts(moss_targets@);
    moss_targets.push(owned("trunk_base"));
    assert(texts(moss_targets@) =~= t1.push("trunk_base"@));
    let ghost t2 = texts(moss_targets@);
    moss_targets.push(owned("roots"));
    assert(texts(moss_targets@) =~= t2.push("roots"@));
    assert(texts(moss_targets@) =~= seq![
        "terrain_surface"@,
        "rock"@,
        "log"@,
        "shrub_base"@,
        "trunk_base"@,
        "roots"@,
    ]);
    let mut r: Vec<SurfaceOverlayManifest> = Vec::new();
    r.push(
        SurfaceOverlayManifest {
            name: owned("moss"),
            source_file: owned("maps/masks_rgba.png"),
            channel: owned("G"),
            targets: moss_targets,
            application: owned(
                "static material overlay mask; authored prototypes may include geometry moss cards",
            ),
            runtime_policy: owned("baked_static"),
        },
    );
    r.push(
        SurfaceOverlayManifest {
            name: owned("wetness"),
            source_file: owned("maps/masks_rgba.png"),
            channel: owned("B"),
            targets: string_triple("terrain_surface", "rock", "log"),
            application: owned(
                "static material overlay mask for externally supplied roughness/darkening inputs",
            ),
            runtime_policy: owned("baked_static"),
        },
    );
    r.push(
        SurfaceOverlayManifest {
            name: owned("cracks"),
            source_file: owned("maps/masks_rgba.png"),
            channel: owned("A"),
            targets: string_triple("terrain_surface", "dry_soil", "scatter_exclusion"),
            application: owned("static soil crack and optional scatter-exclusion mask"),
            runtime_policy: owned("baked_static"),
        },
    );
    assert(r@.map_values(
        |o: SurfaceOverlayManifest|
            (
                o.name@,
                o.source_file@,
                o.channel@,
                texts(o.targets@),
                o.application@,
                o.runtime_policy@,
            ),
    ) =~= surface_overlay_table());
    r
}

/// Surface targets every prototype of a kind must declare.
pub open spec fn required_targets(kind: GroundcoverKind) -> Seq<Seq<char>> {
    match kind {
        GroundcoverKind::Grass => seq!["groundcover_foliage"@],
        GroundcoverKind::Moss => seq!["groundcover_foliage"@, "moss_tuft"@],
        GroundcoverKind::Flower | GroundcoverKind::Weed | GroundcoverKind::Litter => seq![
            "groundcover_foliage"@,
        ],
        GroundcoverKind::Shrub => seq!["groundcover_foliage"@, "shrub_base"@],
        GroundcoverKind::Rock => seq!["static_surface"@, "rock"@],
        GroundcoverKind::Log => seq!["static_surface"@, "log"@],
    }
}

/// The surface targets a prototype of `kind` declares.
pub fn prototype_surface_targets(kind: GroundcoverKind) -> (r: Vec<String>)
    ensures
        texts(r@) == required_targets(kind),
{
    let mut r: Vec<String> = Vec::new();
    match kind {
        GroundcoverKind::Grass | GroundcoverKind::Flower | GroundcoverKind::Weed
        | GroundcoverKind::Litter => {
            r.push(owned("groundcover_foliage"));
        },
        GroundcoverKind::Moss => {
            r.push(owned("groundcover_foliage"));
            r.push(owned("moss_tuft"));
        },
        GroundcoverKind::Shrub => {
            r.push(owned("groundcover_foliage"));
            r.push(owned("shrub_base"));
        },
        GroundcoverKind::Rock => {
            r.push(owned("static_surface"));
            r.push(owned("rock"));
        },
        GroundcoverKind::Log => {
            r.push(owned("static_surface"));
            r.push(owned("log"));
        },
    }
    assert(texts(r@) =~= required_targets(kind));
    r
}

/// Default units label.
pub fn default_units() -> (r: String)
    ensures
        r@ == "meters"@,
{
    owned("meters")
}

/// Default soil profile label.
pub fn default_soil_profile() -> (r: String)
    ensures
        r@ == "loam"@,
{
    owned("loam")
}

/// Default grass base color.
pub fn default_grass_base_color() -> (r: String)
    ensures
        r@ == "#33421b"@,
{
    owned("#33421b")
}

/// Default grass tip color.
pub fn default_grass_tip_color() -> (r: String)
    ensures
        r@ == "#9bc24a"@,
{
    owned("#9bc24a")
}

} // verus!
