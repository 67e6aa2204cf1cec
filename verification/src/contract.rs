//! The importer contract of a nature package manifest: every check on its
//! text fields, lists and counts, each returning the first violation in
//! the order the manifest is read.

use crate::footprint::FootprintMismatch;
use crate::manifest::{texts, MapChannel, MaterialSlotManifest};
use crate::text::{blank, has_prefix, is_blank, starts_with, str_eq};
use vstd::prelude::*;

verus! {

/// The smallest `i < n` with `p(i)`, if any.
pub open spec fn first_where(n: nat, p: spec_fn(int) -> bool) -> Option<int>
    decreases n,
{
    if n == 0 {
        None
    } else {
        match first_where((n - 1) as nat, p) {
            Some(i) => Some(i),
            None => if p(n - 1) {
                Some(n - 1)
            } else {
                None
            },
        }
    }
}

/// `first_where` finds the least witness, and `None` means there is none.
pub proof fn lemma_first_where(n: nat, p: spec_fn(int) -> bool)
    ensures
        match first_where(n, p) {
            Some(i) => 0 <= i < n && p(i) && forall|j: int| 0 <= j < i ==> !#[trigger] p(j),
            None => forall|j: int| 0 <= j < n ==> !#[trigger] p(j),
        },
    decreases n,
{
    if n > 0 {
        lemma_first_where((n - 1) as nat, p);
    }
}

/// Shows `first_where(n, p) == Some(i)` from the least witness `i`.
pub proof fn lemma_first_where_is(n: nat, p: spec_fn(int) -> bool, i: int)
    requires
        0 <= i < n,
        p(i),
        forall|j: int| 0 <= j < i ==> !#[trigger] p(j),
    ensures
        first_where(n, p) == Some(i),
{
    lemma_first_where(n, p);
    match first_where(n, p) {
        Some(k) => {
            if k < i {
            } else if k > i {
            }
        },
        None => {},
    }
}

/// Shows `first_where(n, p) is None` when no index satisfies `p`.
pub proof fn lemma_first_where_none(n: nat, p: spec_fn(int) -> bool)
    requires
        forall|j: int| 0 <= j < n ==> !#[trigger] p(j),
    ensures
        first_where(n, p) is None,
{
    lemma_first_where(n, p);
}

/// The list of strings holds `t`.
pub fn contains_text(v: &Vec<String>, t: &str) -> (r: bool)
    ensures
        r == texts(v@).contains(t@),
{
    let mut i: usize = 0;
    while i < v.len()
        invariant
            i <= v@.len(),
            forall|j: int| 0 <= j < i ==> v@[j]@ != t@,
        decreases v@.len() - i,
    {
        if str_eq(v[i].as_str(), t) {
            assert(texts(v@)[i as int] == t@);
            return true;
        }
        i = i + 1;
    }
    assert(!texts(v@).contains(t@)) by {
        if texts(v@).contains(t@) {
            let k = choose|k: int| 0 <= k < texts(v@).len() && texts(v@)[k] == t@;
            assert(v@[k]@ == t@);
        }
    }
    false
}

/// Some string of the list is blank.
pub open spec fn any_blank(v: Seq<Seq<char>>) -> bool {
    exists|i: int| 0 <= i < v.len() && is_blank(#[trigger] v[i])
}

/// Whether some string of the list is blank.
pub fn has_blank(v: &Vec<String>) -> (r: bool)
    ensures
        r == any_blank(texts(v@)),
{
    let mut i: usize = 0;
    while i < v.len()
        invariant
            i <= v@.len(),
            forall|j: int| 0 <= j < i ==> !is_blank(#[trigger] texts(v@)[j]),
        decreases v@.len() - i,
    {
        if blank(v[i].as_str()) {
            assert(is_blank(texts(v@)[i as int]));
            return true;
        }
        i = i + 1;
    }
    false
}

/// Some string of the list begins with `prefix`.
pub open spec fn any_with_prefix(v: Seq<Seq<char>>, prefix: Seq<char>) -> bool {
    exists|i: int| 0 <= i < v.len() && has_prefix(#[trigger] v[i], prefix)
}

/// Whether some string of the list begins with `prefix`.
pub fn has_with_prefix(v: &Vec<String>, prefix: &str) -> (r: bool)
    ensures
        r == any_with_prefix(texts(v@), prefix@),
{
    let mut i: usize = 0;
    while i < v.len()
        invariant
            i <= v@.len(),
            forall|j: int| 0 <= j < i ==> !has_prefix(#[trigger] texts(v@)[j], prefix@),
        decreases v@.len() - i,
    {
        if starts_with(v[i].as_str(), prefix) {
            assert(has_prefix(texts(v@)[i as int], prefix@));
            return true;
        }
        i = i + 1;
    }
    false
}

/// A file-name field of the manifest that must not be blank.
#[derive(Debug, Clone, Copy, PartialEq, Eq, Structural)]
pub enum ManifestFileField {
    /// `terrain.heightmap_file`.
    TerrainHeightmap,
    /// `terrain.masks_file`.
    TerrainMasks,
    /// `terrain.grass_density_file`.
    TerrainGrassDensity,
    /// `normal_conventions.unity_yplus_file`.
    UnityYPlusNormal,
    /// `normal_conventions.unreal_yminus_file`.
    UnrealYMinusNormal,
    /// `prototypes[].lods[].file`.
    PrototypeLodFile,
    /// `scatter.binary_files[].file`.
    ScatterBinaryFile,
    /// `unity.normal_map`.
    UnityNormalMap,
    /// `unreal.normal_map`.
    UnrealNormalMap,
}

/// What is wrong with one material parameter set.
#[derive(Debug, Clone, Copy, PartialEq, Eq, Structural)]
pub enum ParameterSetFault {
    /// Slot, set name or runtime policy is blank.
    Incomplete,
    /// The slot is not a declared material slot.
    UnknownSlot,
    /// The runtime policy is not `engine_native_static`.
    NotStatic,
    /// The set has no parameters.
    NoParameters,
    /// A parameter has a blank field.
    IncompleteParameter,
}

/// What is wrong with one material recipe.
#[derive(Debug, Clone, Copy, PartialEq, Eq, Structural)]
pub enum RecipeFault {
    /// Slot, file or runtime policy is blank.
    Incomplete,
    /// The slot is not a declared material slot.
    UnknownSlot,
    /// No parameter set configures the slot.
    NoParameterSet,
    /// The runtime policy is not `engine_native_static`.
    NotStatic,
    /// The file is not `materials/*.recipe.json`.
    Location,
    /// There are no engine targets, or a blank one.
    NoTargets,
    /// The targets do not name both a `unity_` and an `unreal_` system.
    MissingEngine,
}

/// What is wrong with one engine import recipe.
#[derive(Debug, Clone, Copy, PartialEq, Eq, Structural)]
pub enum EngineRecipeFault {
    /// Engine, file, profile or runtime policy is blank.
    Incomplete,
    /// The file is not `engines/*.recipe.json`.
    Location,
    /// The runtime policy is not `engine_native_static`.
    NotStatic,
    /// There are no expected systems, or a blank one.
    NoSystems,
}

/// What is wrong with one surface overlay.
#[derive(Debug, Clone, Copy, PartialEq, Eq, Structural)]
pub enum OverlayFault {
    /// The name is blank.
    EmptyName,
    /// The source is not `maps/masks_rgba.png`.
    Source,
    /// The channel is not one of `R`, `G`, `B`, `A`.
    Channel,
    /// There are no targets, or a blank one.
    NoTargets,
    /// Application or runtime policy is blank.
    Incomplete,
    /// The runtime policy is neither `baked_static` nor
    /// `baked_optional_runtime`.
    Policy,
}

/// A violation of the manifest contract.
#[derive(Debug, Clone, Copy, PartialEq, Eq, Structural)]
pub enum ManifestError {
    /// `schema_version` is not 3.
    SchemaVersion { found: u32 },
    /// `generator` is blank.
    EmptyGenerator,
    /// `asset_name` is blank.
    EmptyAssetName,
    /// `tile_size` is not a positive finite number.
    TileSize,
    /// `map_resolution` is below 2.
    MapResolutionTooSmall,
    /// The declared memory footprint disagrees with the manifest.
    Footprint { mismatch: FootprintMismatch },
    /// The terrain bounds are not finite and ordered.
    TerrainBounds,
    /// The terrain height range is not finite, ordered and inside the bounds.
    HeightRange,
    /// `axis.unit_scale` is not a positive finite number.
    UnitScale,
    /// A file-name field is blank.
    EmptyFile { field: ManifestFileField },
    /// `axis.up_axis` is not `Y`.
    UpAxis,
    /// `map_channels` lacks a canonical map file.
    MissingCanonicalMaps,
    /// `material_slots` lacks `groundcover_foliage`.
    MissingGroundcoverSlot,
    /// A material parameter set is faulty.
    ParameterSet { index: usize, fault: ParameterSetFault },
    /// No parameter set configures a required slot (0 terrain, 1 groundcover).
    MissingParameterSlot { slot: usize },
    /// A required slot lacks a required semantic.
    MissingParameterSemantic { slot: usize, semantic: usize },
    /// A material recipe is faulty.
    Recipe { index: usize, fault: RecipeFault },
    /// No recipe configures a required slot (0 terrain, 1 groundcover).
    MissingRecipeSlot { slot: usize },
    /// An engine import recipe is faulty.
    EngineRecipe { index: usize, fault: EngineRecipeFault },
    /// No recipe for a required engine (0 unity, 1 unreal).
    MissingEngineRecipe { engine: usize },
    /// The recipe that counts for an engine targets the wrong profile.
    EngineRecipeProfile { index: usize },
    /// A required overlay (0 moss, 1 wetness, 2 cracks) is missing.
    MissingOverlay { overlay: usize },
    /// A surface overlay is faulty.
    Overlay { index: usize, fault: OverlayFault },
    /// The moss overlay lacks a target (0 terrain_surface, 1 rock, 2 log).
    MossTarget { target: usize },
    /// A prototype name is blank.
    EmptyPrototypeName { index: usize },
    /// A prototype has no surface targets, or a blank one.
    PrototypeTargets { index: usize },
    /// A prototype lacks a surface target required for its kind.
    PrototypeMissingTarget { index: usize, target: usize },
    /// A prototype has no LODs.
    PrototypeNoLods { index: usize },
    /// A prototype LOD (by its LOD index) has no vertices or no triangles.
    PrototypeLodGeometry { index: usize, lod: u32 },
    /// A prototype LOD (by its LOD index) has inverted bounds.
    PrototypeLodBounds { index: usize, lod: u32 },
    /// `scatter.chunk_size` is not a positive finite number.
    ChunkSize,
    /// Scatter output is enabled but neither JSON nor binary is written.
    ScatterNoOutputs,
    /// The binary format name is not `midori.scatter.bin.v1`.
    ScatterFormatName,
    /// The binary header or stride size is not 16/32.
    ScatterFormatSizes,
    /// The binary endianness is not `little`.
    ScatterEndian,
    /// The binary header or record field lists differ from v1.
    ScatterFieldLayout,
    /// A binary scatter file declares no instances.
    ScatterBinaryEmpty { index: usize },
    /// A binary scatter file has invalid bounds.
    ScatterBinaryBounds { index: usize },
    /// `shader_policy` is not `preview_only`.
    ShaderPolicy,
    /// `texture_pipeline` is not `parked`.
    TexturePipeline,
}

/// Identity fields: schema version 3, then a non-blank generator and asset
/// name.
pub open spec fn header_check(schema_version: u32, generator: Seq<char>, asset_name: Seq<char>) -> Result<(), ManifestError> {
    if schema_version != 3 {
        Err(ManifestError::SchemaVersion { found: schema_version })
    } else if is_blank(generator) {
        Err(ManifestError::EmptyGenerator)
    } else if is_blank(asset_name) {
        Err(ManifestError::EmptyAssetName)
    } else {
        Ok(())
    }
}

/// Checks the manifest's identity fields.
pub fn check_manifest_header(schema_version: u32, generator: &str, asset_name: &str) -> (r: Result<(), ManifestError>)
    ensures
        r == header_check(schema_version, generator@, asset_name@),
{
    if schema_version != 3 {
        return Err(ManifestError::SchemaVersion { found: schema_version });
    }
    if blank(generator) {
        return Err(ManifestError::EmptyGenerator);
    }
    if blank(asset_name) {
        return Err(ManifestError::EmptyAssetName);
    }
    Ok(())
}

/// Checks that the baked maps are at least 2x2.
pub fn check_map_resolution(map_resolution: u32) -> (r: Result<(), ManifestError>)
    ensures
        r == if map_resolution < 2 {
            Err(ManifestError::MapResolutionTooSmall)
        } else {
            Ok::<(), ManifestError>(())
        },
{
    if map_resolution < 2 {
        Err(ManifestError::MapResolutionTooSmall)
    } else {
        Ok(())
    }
}

/// Checks that a file-name field is not blank.
pub fn check_file_field(field: ManifestFileField, value: &str) -> (r: Result<(), ManifestError>)
    ensures
        r == if is_blank(value@) {
            Err(ManifestError::EmptyFile { field })
        } else {
            Ok::<(), ManifestError>(())
        },
{
    if blank(value) {
        Err(ManifestError::EmptyFile { field })
    } else {
        Ok(())
    }
}

/// The map channels list the file.
pub open spec fn has_map_file(channels: Seq<MapChannel>, file: Seq<char>) -> bool {
    exists|i: int| 0 <= i < channels.len() && #[trigger] channels[i].file@ == file
}

pub(crate) fn lists_map_file(channels: &Vec<MapChannel>, file: &str) -> (r: bool)
    ensures
        r == has_map_file(channels@, file@),
{
    let mut i: usize = 0;
    while i < channels.len()
        invariant
            i <= channels@.len(),
            forall|j: int| 0 <= j < i ==> channels@[j].file@ != file@,
        decreases channels@.len() - i,
    {
        if str_eq(channels[i].file.as_str(), file) {
            return true;
        }
        i = i + 1;
    }
    false
}

/// Some material slot is named `name`.
pub open spec fn has_slot(slots: Seq<MaterialSlotManifest>, name: Seq<char>) -> bool {
    exists|i: int| 0 <= i < slots.len() && #[trigger] slots[i].name@ == name
}

pub(crate) fn lists_slot(slots: &Vec<MaterialSlotManifest>, name: &str) -> (r: bool)
    ensures
        r == has_slot(slots@, name@),
{
    let mut i: usize = 0;
    while i < slots.len()
        invariant
            i <= slots@.len(),
            forall|j: int| 0 <= j < i ==> slots@[j].name@ != name@,
        decreases slots@.len() - i,
    {
        if str_eq(slots[i].name.as_str(), name) {
            return true;
        }
        i = i + 1;
    }
    false
}

/// Up axis `Y`; all five canonical maps listed; both normal conventions
/// named; a `groundcover_foliage` material slot.
pub open spec fn conventions_check(
    up_axis: Seq<char>,
    channels: Seq<MapChannel>,
    unity_yplus_file: Seq<char>,
    unreal_yminus_file: Seq<char>,
    slots: Seq<MaterialSlotManifest>,
) -> Result<(), ManifestError> {
    if up_axis != "Y"@ {
        Err(ManifestError::UpAxis)
    } else if !has_map_file(channels, "height_u16.png"@) || !has_map_file(
        channels,
        "normal_yplus.png"@,
    ) || !has_map_file(channels, "normal_yminus.png"@) || !has_map_file(channels, "masks_rgba.png"@)
        || !has_map_file(channels, "grass_density.png"@) {
        Err(ManifestError::MissingCanonicalMaps)
    } else if is_blank(unity_yplus_file) {
        Err(ManifestError::EmptyFile { field: ManifestFileField::UnityYPlusNormal })
    } else if is_blank(unreal_yminus_file) {
        Err(ManifestError::EmptyFile { field: ManifestFileField::UnrealYMinusNormal })
    } else if !has_slot(slots, "groundcover_foliage"@) {
        Err(ManifestError::MissingGroundcoverSlot)
    } else {
        Ok(())
    }
}

/// Checks axis, canonical maps, normal conventions and the groundcover slot.
pub fn check_conventions(
    up_axis: &str,
    channels: &Vec<MapChannel>,
    unity_yplus_file: &str,
    unreal_yminus_file: &str,
    slots: &Vec<MaterialSlotManifest>,
) -> (r: Result<(), ManifestError>)
    ensures
        r == conventions_check(up_axis@, channels@, unity_yplus_file@, unreal_yminus_file@, slots@),
{
    if !str_eq(up_axis, "Y") {
        return Err(ManifestError::UpAxis);
    }
    if !lists_map_file(channels, "height_u16.png") || !lists_map_file(channels, "normal_yplus.png")
        || !lists_map_file(channels, "normal_yminus.png") || !lists_map_file(
        channels,
        "masks_rgba.png",
    ) || !lists_map_file(channels, "grass_density.png") {
        return Err(ManifestError::MissingCanonicalMaps);
    }
    if blank(unity_yplus_file) {
        return Err(ManifestError::EmptyFile { field: ManifestFileField::UnityYPlusNormal });
    }
    if blank(unreal_yminus_file) {
        return Err(ManifestError::EmptyFile { field: ManifestFileField::UnrealYMinusNormal });
    }
    if !lists_slot(slots, "groundcover_foliage") {
        return Err(ManifestError::MissingGroundcoverSlot);
    }
    Ok(())
}

/// Shader policy `preview_only`, texture pipeline `parked`, and both
/// engine normal maps named.
pub open spec fn policies_check(
    shader_policy: Seq<char>,
    texture_pipeline: Seq<char>,
    unity_normal_map: Seq<char>,
    unreal_normal_map: Seq<char>,
) -> Result<(), ManifestError> {
    if shader_policy != "preview_only"@ {
        Err(ManifestError::ShaderPolicy)
    } else if texture_pipeline != "parked"@ {
        Err(ManifestError::TexturePipeline)
    } else if is_blank(unity_normal_map) {
        Err(ManifestError::EmptyFile { field: ManifestFileField::UnityNormalMap })
    } else if is_blank(unreal_normal_map) {
        Err(ManifestError::EmptyFile { field: ManifestFileField::UnrealNormalMap })
    } else {
        Ok(())
    }
}

/// Checks the runtime policies and engine normal maps.
pub fn check_policies(
    shader_policy: &str,
    texture_pipeline: &str,
    unity_normal_map: &str,
    unreal_normal_map: &str,
) -> (r: Result<(), ManifestError>)
    ensures
        r == policies_check(shader_policy@, texture_pipeline@, unity_normal_map@, unreal_normal_map@),
{
    if !str_eq(shader_policy, "preview_only") {
        return Err(ManifestError::ShaderPolicy);
    }
    if !str_eq(texture_pipeline, "parked") {
        return Err(ManifestError::TexturePipeline);
    }
    if blank(unity_normal_map) {
        return Err(ManifestError::EmptyFile { field: ManifestFileField::UnityNormalMap });
    }
    if blank(unreal_normal_map) {
        return Err(ManifestError::EmptyFile { field: ManifestFileField::UnrealNormalMap });
    }
    Ok(())
}

} // verus!
