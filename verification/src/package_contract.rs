//! The manifest contract on surface overlays, prototypes and scatter
//! outputs, and the whole contract in the order an importer reads it.

use crate::contract::{
    any_blank, check_conventions, check_file_field, check_manifest_header, check_map_resolution,
    check_policies, contains_text, conventions_check, first_where, has_blank, header_check,
    lemma_first_where_is, lemma_first_where_none, policies_check, ManifestError,
    ManifestFileField, OverlayFault,
};
use crate::footprint::{
    declared_record_bytes, footprint_check, validate_memory_footprint, MemoryFootprintManifest,
};
use crate::manifest::{
    prototype_surface_targets, required_targets, scatter_binary_format_manifest,
    scatter_field_table, scatter_header_table, texts, EngineImportRecipeManifest, MapChannel,
    MaterialParameterSetManifest, MaterialRecipeManifest, MaterialSlotManifest, NormalConventions,
    ScatterBinaryFormatManifest, SurfaceOverlayManifest,
};
use crate::material_contract::{
    check_engine_import_recipes, check_material_parameters, check_material_recipes,
    engine_recipes_check, material_parameters_check, material_recipes_check,
};
use crate::package::GroundcoverKind;
use crate::text::{blank, is_blank, str_eq};
use vstd::prelude::*;

verus! {

/// A surface overlay is named `name`.
pub open spec fn has_overlay(overlays: Seq<SurfaceOverlayManifest>, name: Seq<char>) -> bool {
    exists|i: int| 0 <= i < overlays.len() && #[trigger] overlays[i].name@ == name
}

/// The overlays every package declares: 0 moss, 1 wetness, 2 cracks.
pub open spec fn required_overlay(overlay: nat) -> Seq<char> {
    if overlay == 0 {
        "moss"@
    } else if overlay == 1 {
        "wetness"@
    } else {
        "cracks"@
    }
}

/// The channel names of an RGBA mask.
pub open spec fn is_rgba_channel(c: Seq<char>) -> bool {
    c == "R"@ || c == "G"@ || c == "B"@ || c == "A"@
}

/// The runtime policies an overlay may use.
pub open spec fn is_overlay_policy(p: Seq<char>) -> bool {
    p == "baked_static"@ || p == "baked_optional_runtime"@
}

/// The first thing wrong with a surface overlay, if anything.
pub open spec fn overlay_fault(o: SurfaceOverlayManifest) -> Option<OverlayFault> {
    if is_blank(o.name@) {
        Some(OverlayFault::EmptyName)
    } else if o.source_file@ != "maps/masks_rgba.png"@ {
        Some(OverlayFault::Source)
    } else if !is_rgba_channel(o.channel@) {
        Some(OverlayFault::Channel)
    } else if o.targets@.len() == 0 || any_blank(texts(o.targets@)) {
        Some(OverlayFault::NoTargets)
    } else if is_blank(o.application@) || is_blank(o.runtime_policy@) {
        Some(OverlayFault::Incomplete)
    } else if !is_overlay_policy(o.runtime_policy@) {
        Some(OverlayFault::Policy)
    } else {
        None
    }
}

/// Whether the `i`-th overlay is faulty.
pub open spec fn overlay_faulty(overlays: Seq<SurfaceOverlayManifest>) -> spec_fn(int) -> bool {
    |i: int| overlay_fault(overlays[i]) is Some
}

/// Whether the `i`-th overlay is named `name`.
pub open spec fn overlay_named(overlays: Seq<SurfaceOverlayManifest>, name: Seq<char>) -> spec_fn(
    int,
) -> bool {
    |i: int| overlays[i].name@ == name
}

/// The targets the moss overlay must reach: 0 terrain_surface, 1 rock, 2 log.
pub open spec fn moss_target(target: nat) -> Seq<char> {
    if target == 0 {
        "terrain_surface"@
    } else if target == 1 {
        "rock"@
    } else {
        "log"@
    }
}

/// The surface overlay contract: the three required overlays, each overlay
/// in order, then the targets of the first overlay named moss.
pub open spec fn surface_overlays_check(overlays: Seq<SurfaceOverlayManifest>) -> Result<
    (),
    ManifestError,
> {
    if !has_overlay(overlays, required_overlay(0)) {
        Err(ManifestError::MissingOverlay { overlay: 0 })
    } else if !has_overlay(overlays, required_overlay(1)) {
        Err(ManifestError::MissingOverlay { overlay: 1 })
    } else if !has_overlay(overlays, required_overlay(2)) {
        Err(ManifestError::MissingOverlay { overlay: 2 })
    } else {
        match first_where(overlays.len(), overlay_faulty(overlays)) {
            Some(i) => match overlay_fault(overlays[i]) {
                Some(fault) => Err(ManifestError::Overlay { index: i as usize, fault }),
                None => Ok(()),
            },
            None => match first_where(overlays.len(), overlay_named(overlays, "moss"@)) {
                Some(m) => {
                    let targets = texts(overlays[m].targets@);
                    if !targets.contains(moss_target(0)) {
                        Err(ManifestError::MossTarget { target: 0 })
                    } else if !targets.contains(moss_target(1)) {
                        Err(ManifestError::MossTarget { target: 1 })
                    } else if !targets.contains(moss_target(2)) {
                        Err(ManifestError::MossTarget { target: 2 })
                    } else {
                        Ok(())
                    }
                },
                None => Ok(()),
            },
        }
    }
}

fn lists_overlay(overlays: &Vec<SurfaceOverlayManifest>, name: &str) -> (r: Option<usize>)
    ensures
        match first_where(overlays@.len(), overlay_named(overlays@, name@)) {
            Some(k) => 0 <= k < overlays@.len() && r == Some(k as usize),
            None => r is None,
        },
        r is None <==> !has_overlay(overlays@, name@),
        r matches Some(k) ==> k < overlays@.len(),
{
    let ghost p = overlay_named(overlays@, name@);
    let mut i: usize = 0;
    while i < overlays.len()
        invariant
            i <= overlays@.len(),
            p == overlay_named(overlays@, name@),
            forall|j: int| 0 <= j < i ==> !#[trigger] p(j),
        decreases overlays@.len() - i,
    {
        if str_eq(overlays[i].name.as_str(), name) {
            proof {
                lemma_first_where_is(overlays@.len(), p, i as int);
            }
            return Some(i);
        }
        i = i + 1;
    }
    proof {
        lemma_first_where_none(overlays@.len(), p);
        assert(!has_overlay(overlays@, name@)) by {
            if has_overlay(overlays@, name@) {
                let k = choose|k: int| 0 <= k < overlays@.len() && #[trigger] overlays@[k].name@ == name@;
                assert(p(k));
            }
        }
    }
    None
}

fn find_overlay_fault(o: &SurfaceOverlayManifest) -> (r: Option<OverlayFault>)
    ensures
        r == overlay_fault(*o),
{
    if blank(o.name.as_str()) {
        return Some(OverlayFault::EmptyName);
    }
    if !str_eq(o.source_file.as_str(), "maps/masks_rgba.png") {
        return Some(OverlayFault::Source);
    }
    let c = o.channel.as_str();
    if !(str_eq(c, "R") || str_eq(c, "G") || str_eq(c, "B") || str_eq(c, "A")) {
        return Some(OverlayFault::Channel);
    }
    if o.targets.len() == 0 || has_blank(&o.targets) {
        return Some(OverlayFault::NoTargets);
    }
    if blank(o.application.as_str()) || blank(o.runtime_policy.as_str()) {
        return Some(OverlayFault::Incomplete);
    }
    let p = o.runtime_policy.as_str();
    if !(str_eq(p, "baked_static") || str_eq(p, "baked_optional_runtime")) {
        return Some(OverlayFault::Policy);
    }
    None
}

/// Checks the surface overlays of a manifest.
pub fn check_surface_overlays(overlays: &Vec<SurfaceOverlayManifest>) -> (r: Result<
    (),
    ManifestError,
>)
    ensures
        r == surface_overlays_check(overlays@),
{
    let moss = lists_overlay(overlays, "moss");
    if moss.is_none() {
        return Err(ManifestError::MissingOverlay { overlay: 0 });
    }
    let wetness = lists_overlay(overlays, "wetness");
    if wetness.is_none() {
        return Err(ManifestError::MissingOverlay { overlay: 1 });
    }
    let cracks = lists_overlay(overlays, "cracks");
    if cracks.is_none() {
        return Err(ManifestError::MissingOverlay { overlay: 2 });
    }
    let ghost p = overlay_faulty(overlays@);
    let mut i: usize = 0;
    while i < overlays.len()
        invariant
            i <= overlays@.len(),
            p == overlay_faulty(overlays@),
            forall|j: int| 0 <= j < i ==> !#[trigger] p(j),
            has_overlay(overlays@, "moss"@),
            has_overlay(overlays@, "wetness"@),
            has_overlay(overlays@, "cracks"@),
            match first_where(overlays@.len(), overlay_named(overlays@, "moss"@)) {
                Some(k) => 0 <= k < overlays@.len() && moss == Some(k as usize),
                None => moss is None,
            },
        decreases overlays@.len() - i,
    {
        match find_overlay_fault(&overlays[i]) {
            Some(fault) => {
                proof {
                    lemma_first_where_is(overlays@.len(), p, i as int);
                }
                return Err(ManifestError::Overlay { index: i, fault });
            },
            None => {},
        }
        i = i + 1;
    }
    proof {
        lemma_first_where_none(overlays@.len(), p);
    }
    let m = match moss {
        Some(m) => m,
        None => {
            return Ok(());
        },
    };
    let targets = &overlays[m].targets;
    if !contains_text(targets, "terrain_surface") {
        return Err(ManifestError::MossTarget { target: 0 });
    }
    if !contains_text(targets, "rock") {
        return Err(ManifestError::MossTarget { target: 1 });
    }
    if !contains_text(targets, "log") {
        return Err(ManifestError::MossTarget { target: 2 });
    }
    Ok(())
}

/// One LOD of a prototype as the contract reads it; whether its bounds are
/// ordered on every axis is measured by the caller.
#[derive(Debug, Clone)]
pub struct PrototypeLodEntry {
    /// LOD index.
    pub index: u32,
    /// Relative GLB path.
    pub file: String,
    /// Vertex count.
    pub vertex_count: usize,
    /// Triangle count.
    pub triangle_count: usize,
    /// `bounds_min <= bounds_max` on every axis.
    pub bounds_ordered: bool,
}

/// One prototype as the contract reads it.
#[derive(Debug, Clone)]
pub struct PrototypeEntry {
    /// Prototype display/import name.
    pub name: String,
    /// Source groundcover kind.
    pub kind: GroundcoverKind,
    /// Surface target labels.
    pub surface_targets: Vec<String>,
    /// LOD metadata.
    pub lods: Vec<PrototypeLodEntry>,
}

/// One binary scatter file as the contract reads it.
#[derive(Debug, Clone)]
pub struct ScatterBinaryFileEntry {
    /// Relative binary file path.
    pub file: String,
    /// Number of records in the binary file.
    pub instance_count: usize,
    /// The chunk bounds are finite and ordered.
    pub bounds_valid: bool,
}

/// The scatter section as the contract reads it.
#[derive(Debug, Clone)]
pub struct ScatterEntry {
    /// Whether scatter output is written.
    pub enabled: bool,
    /// The chunk size is positive and finite.
    pub chunk_size_positive: bool,
    /// The JSON scatter file, if one is written.
    pub json_file: Option<String>,
    /// The binary scatter files.
    pub binary_files: Vec<ScatterBinaryFileEntry>,
    /// The binary scatter format.
    pub binary_format: ScatterBinaryFormatManifest,
}

/// A LOD's file, geometry and bounds; `prototype` is the prototype's index.
pub open spec fn lod_check(lod: PrototypeLodEntry, prototype: usize) -> Result<(), ManifestError> {
    if is_blank(lod.file@) {
        Err(ManifestError::EmptyFile { field: ManifestFileField::PrototypeLodFile })
    } else if lod.vertex_count == 0 || lod.triangle_count == 0 {
        Err(ManifestError::PrototypeLodGeometry { index: prototype, lod: lod.index })
    } else if !lod.bounds_ordered {
        Err(ManifestError::PrototypeLodBounds { index: prototype, lod: lod.index })
    } else {
        Ok(())
    }
}

/// Whether the `j`-th LOD fails its check.
pub open spec fn lod_faulty(lods: Seq<PrototypeLodEntry>, prototype: usize) -> spec_fn(int) -> bool {
    |j: int| lod_check(lods[j], prototype) is Err
}

/// Whether the `k`-th target required for the prototype's kind is missing.
pub open spec fn target_missing(p: PrototypeEntry) -> spec_fn(int) -> bool {
    |k: int| !texts(p.surface_targets@).contains(required_targets(p.kind)[k])
}

/// A prototype's name, targets and LODs; `index` is its position.
pub open spec fn prototype_check(p: PrototypeEntry, index: usize) -> Result<(), ManifestError> {
    if is_blank(p.name@) {
        Err(ManifestError::EmptyPrototypeName { index })
    } else if p.surface_targets@.len() == 0 || any_blank(texts(p.surface_targets@)) {
        Err(ManifestError::PrototypeTargets { index })
    } else {
        match first_where(required_targets(p.kind).len(), target_missing(p)) {
            Some(k) => Err(ManifestError::PrototypeMissingTarget { index, target: k as usize }),
            None => if p.lods@.len() == 0 {
                Err(ManifestError::PrototypeNoLods { index })
            } else {
                match first_where(p.lods@.len(), lod_faulty(p.lods@, index)) {
                    Some(j) => lod_check(p.lods@[j], index),
                    None => Ok(()),
                }
            },
        }
    }
}

/// Whether the `i`-th prototype fails its check.
pub open spec fn prototype_faulty(ps: Seq<PrototypeEntry>) -> spec_fn(int) -> bool {
    |i: int| prototype_check(ps[i], i as usize) is Err
}

/// The prototype contract: the first prototype that fails, with its error.
pub open spec fn prototypes_check(ps: Seq<PrototypeEntry>) -> Result<(), ManifestError> {
    match first_where(ps.len(), prototype_faulty(ps)) {
        Some(i) => prototype_check(ps[i], i as usize),
        None => Ok(()),
    }
}

fn check_lod(lod: &PrototypeLodEntry, prototype: usize) -> (r: Result<(), ManifestError>)
    ensures
        r == lod_check(*lod, prototype),
{
    if blank(lod.file.as_str()) {
        return Err(ManifestError::EmptyFile { field: ManifestFileField::PrototypeLodFile });
    }
    if lod.vertex_count == 0 || lod.triangle_count == 0 {
        return Err(ManifestError::PrototypeLodGeometry { index: prototype, lod: lod.index });
    }
    if !lod.bounds_ordered {
        return Err(ManifestError::PrototypeLodBounds { index: prototype, lod: lod.index });
    }
    Ok(())
}

fn check_lods(lods: &Vec<PrototypeLodEntry>, prototype: usize) -> (r: Result<(), ManifestError>)
    ensures
        r == match first_where(lods@.len(), lod_faulty(lods@, prototype)) {
            Some(j) => lod_check(lods@[j], prototype),
            None => Ok(()),
        },
{
    let ghost p = lod_faulty(lods@, prototype);
    let mut j: usize = 0;
    while j < lods.len()
        invariant
            j <= lods@.len(),
            p == lod_faulty(lods@, prototype),
            forall|q: int| 0 <= q < j ==> !#[trigger] p(q),
        decreases lods@.len() - j,
    {
        let r = check_lod(&lods[j], prototype);
        if r.is_err() {
            proof {
                lemma_first_where_is(lods@.len(), p, j as int);
            }
            return r;
        }
        j = j + 1;
    }
    proof {
        lemma_first_where_none(lods@.len(), p);
    }
    Ok(())
}

fn check_prototype(p: &PrototypeEntry, index: usize) -> (r: Result<(), ManifestError>)
    ensures
        r == prototype_check(*p, index),
{
    if blank(p.name.as_str()) {
        return Err(ManifestError::EmptyPrototypeName { index });
    }
    if p.surface_targets.len() == 0 || has_blank(&p.surface_targets) {
        return Err(ManifestError::PrototypeTargets { index });
    }
    let required = prototype_surface_targets(p.kind);
    let ghost m = target_missing(*p);
    let mut k: usize = 0;
    while k < required.len()
        invariant
            k <= required@.len(),
            texts(required@) == required_targets(p.kind),
            m == target_missing(*p),
            forall|q: int| 0 <= q < k ==> !#[trigger] m(q),
            !is_blank(p.name@),
            p.surface_targets@.len() > 0,
            !any_blank(texts(p.surface_targets@)),
        decreases required@.len() - k,
    {
        if !contains_text(&p.surface_targets, required[k].as_str()) {
            proof {
                assert(texts(required@)[k as int] == required@[k as int]@);
                lemma_first_where_is(required_targets(p.kind).len(), m, k as int);
            }
            return Err(ManifestError::PrototypeMissingTarget { index, target: k });
        }
        proof {
            assert(texts(required@)[k as int] == required@[k as int]@);
        }
        k = k + 1;
    }
    proof {
        lemma_first_where_none(required_targets(p.kind).len(), m);
    }
    if p.lods.len() == 0 {
        return Err(ManifestError::PrototypeNoLods { index });
    }
    check_lods(&p.lods, index)
}

/// Checks the prototypes of a manifest.
pub fn check_prototypes(ps: &Vec<PrototypeEntry>) -> (r: Result<(), ManifestError>)
    ensures
        r == prototypes_check(ps@),
{
    let ghost p = prototype_faulty(ps@);
    let mut i: usize = 0;
    while i < ps.len()
        invariant
            i <= ps@.len(),
            p == prototype_faulty(ps@),
            forall|j: int| 0 <= j < i ==> !#[trigger] p(j),
        decreases ps@.len() - i,
    {
        let r = check_prototype(&ps[i], i);
        if r.is_err() {
            proof {
                lemma_first_where_is(ps@.len(), p, i as int);
            }
            return r;
        }
        i = i + 1;
    }
    proof {
        lemma_first_where_none(ps@.len(), p);
    }
    Ok(())
}

/// The binary format names v1, its sizes, its endianness and its field
/// lists.
pub open spec fn binary_format_check(f: ScatterBinaryFormatManifest) -> Result<(), ManifestError> {
    if f.format@ != "midori.scatter.bin.v1"@ {
        Err(ManifestError::ScatterFormatName)
    } else if f.header_bytes != 16 || f.record_stride_bytes != 32 {
        Err(ManifestError::ScatterFormatSizes)
    } else if f.endian@ != "little"@ {
        Err(ManifestError::ScatterEndian)
    } else if texts(f.header@) != scatter_header_table() || texts(f.record@)
        != scatter_field_table() {
        Err(ManifestError::ScatterFieldLayout)
    } else {
        Ok(())
    }
}

/// A binary scatter file's name, instance count and bounds; `index` is its
/// position.
pub open spec fn binary_file_check(f: ScatterBinaryFileEntry, index: usize) -> Result<
    (),
    ManifestError,
> {
    if is_blank(f.file@) {
        Err(ManifestError::EmptyFile { field: ManifestFileField::ScatterBinaryFile })
    } else if f.instance_count == 0 {
        Err(ManifestError::ScatterBinaryEmpty { index })
    } else if !f.bounds_valid {
        Err(ManifestError::ScatterBinaryBounds { index })
    } else {
        Ok(())
    }
}

/// Whether the `i`-th binary file fails its check.
pub open spec fn binary_file_faulty(files: Seq<ScatterBinaryFileEntry>) -> spec_fn(int) -> bool {
    |i: int| binary_file_check(files[i], i as usize) is Err
}

/// The scatter contract, which holds trivially when scatter is disabled.
pub open spec fn scatter_check(s: ScatterEntry) -> Result<(), ManifestError> {
    if !s.enabled {
        Ok(())
    } else if !s.chunk_size_positive {
        Err(ManifestError::ChunkSize)
    } else if s.json_file is None && s.binary_files@.len() == 0 {
        Err(ManifestError::ScatterNoOutputs)
    } else if s.binary_files@.len() != 0 && binary_format_check(s.binary_format) is Err {
        binary_format_check(s.binary_format)
    } else {
        match first_where(s.binary_files@.len(), binary_file_faulty(s.binary_files@)) {
            Some(i) => binary_file_check(s.binary_files@[i], i as usize),
            None => Ok(()),
        }
    }
}

fn same_texts(a: &Vec<String>, b: &Vec<String>) -> (r: bool)
    ensures
        r == (texts(a@) == texts(b@)),
{
    if a.len() != b.len() {
        assert(texts(a@).len() != texts(b@).len());
        return false;
    }
    let mut i: usize = 0;
    while i < a.len()
        invariant
            a@.len() == b@.len(),
            i <= a@.len(),
            forall|j: int| 0 <= j < i ==> a@[j]@ == b@[j]@,
        decreases a@.len() - i,
    {
        if !str_eq(a[i].as_str(), b[i].as_str()) {
            assert(texts(a@)[i as int] != texts(b@)[i as int]);
            return false;
        }
        i = i + 1;
    }
    assert(texts(a@) =~= texts(b@));
    true
}

fn check_binary_format(f: &ScatterBinaryFormatManifest) -> (r: Result<(), ManifestError>)
    ensures
        r == binary_format_check(*f),
{
    if !str_eq(f.format.as_str(), "midori.scatter.bin.v1") {
        return Err(ManifestError::ScatterFormatName);
    }
    if f.header_bytes != 16 || f.record_stride_bytes != 32 {
        return Err(ManifestError::ScatterFormatSizes);
    }
    if !str_eq(f.endian.as_str(), "little") {
        return Err(ManifestError::ScatterEndian);
    }
    let expected = scatter_binary_format_manifest();
    if !same_texts(&f.header, &expected.header) || !same_texts(&f.record, &expected.record) {
        return Err(ManifestError::ScatterFieldLayout);
    }
    Ok(())
}

fn check_binary_file(f: &ScatterBinaryFileEntry, index: usize) -> (r: Result<(), ManifestError>)
    ensures
        r == binary_file_check(*f, index),
{
    if blank(f.file.as_str()) {
        return Err(ManifestError::EmptyFile { field: ManifestFileField::ScatterBinaryFile });
    }
    if f.instance_count == 0 {
        return Err(ManifestError::ScatterBinaryEmpty { index });
    }
    if !f.bounds_valid {
        return Err(ManifestError::ScatterBinaryBounds { index });
    }
    Ok(())
}

fn check_binary_files(files: &Vec<ScatterBinaryFileEntry>) -> (r: Result<(), ManifestError>)
    ensures
        r == match first_where(files@.len(), binary_file_faulty(files@)) {
            Some(i) => binary_file_check(files@[i], i as usize),
            None => Ok(()),
        },
{
    let ghost p = binary_file_faulty(files@);
    let mut i: usize = 0;
    while i < files.len()
        invariant
            i <= files@.len(),
            p == binary_file_faulty(files@),
            forall|j: int| 0 <= j < i ==> !#[trigger] p(j),
        decreases files@.len() - i,
    {
        let r = check_binary_file(&files[i], i);
        if r.is_err() {
            proof {
                lemma_first_where_is(files@.len(), p, i as int);
            }
            return r;
        }
        i = i + 1;
    }
    proof {
        lemma_first_where_none(files@.len(), p);
    }
    Ok(())
}

/// Checks the scatter section of a manifest.
pub fn check_scatter(s: &ScatterEntry) -> (r: Result<(), ManifestError>)
    ensures
        r == scatter_check(*s),
{
    if !s.enabled {
        return Ok(());
    }
    if !s.chunk_size_positive {
        return Err(ManifestError::ChunkSize);
    }
    if s.json_file.is_none() && s.binary_files.len() == 0 {
        return Err(ManifestError::ScatterNoOutputs);
    }
    if s.binary_files.len() != 0 {
        let f = check_binary_format(&s.binary_format);
        if f.is_err() {
            return f;
        }
    }
    check_binary_files(&s.binary_files)
}

/// A nature package manifest as its contract reads it. The floating-point
/// facts (tile size, terrain bounds and height range, unit scale, chunk
/// size, per-file bounds) are measured by the caller and held as flags.
#[derive(Debug, Clone)]
pub struct ManifestContract {
    /// Manifest schema version.
    pub schema_version: u32,
    /// Generator identity.
    pub generator: String,
    /// Asset name.
    pub asset_name: String,
    /// The tile size is positive and finite.
    pub tile_size_positive: bool,
    /// Baked map resolution.
    pub map_resolution: u32,
    /// Declared memory footprint.
    pub memory_footprint: MemoryFootprintManifest,
    /// Terrain heightmap file.
    pub heightmap_file: String,
    /// Terrain mask file.
    pub masks_file: String,
    /// Terrain grass density file.
    pub grass_density_file: String,
    /// The terrain bounds are finite and ordered.
    pub terrain_bounds_valid: bool,
    /// The height range is finite, ordered and inside the bounds.
    pub height_range_valid: bool,
    /// The axis unit scale is positive and finite.
    pub unit_scale_positive: bool,
    /// Up axis.
    pub up_axis: String,
    /// Map channel descriptions.
    pub map_channels: Vec<MapChannel>,
    /// Normal map convention outputs.
    pub normal_conventions: NormalConventions,
    /// Material slots.
    pub material_slots: Vec<MaterialSlotManifest>,
    /// Material parameter sets.
    pub material_parameters: Vec<MaterialParameterSetManifest>,
    /// Material recipes.
    pub material_recipes: Vec<MaterialRecipeManifest>,
    /// Engine import recipes.
    pub engine_import_recipes: Vec<EngineImportRecipeManifest>,
    /// Surface overlays.
    pub surface_overlays: Vec<SurfaceOverlayManifest>,
    /// Prototypes.
    pub prototypes: Vec<PrototypeEntry>,
    /// Scatter section.
    pub scatter: ScatterEntry,
    /// Shader/runtime policy.
    pub shader_policy: String,
    /// Texture/PBR pipeline state.
    pub texture_pipeline: String,
    /// Unity normal map.
    pub unity_normal_map: String,
    /// Unreal normal map.
    pub unreal_normal_map: String,
}

/// The first failure of two checks run one after the other.
pub open spec fn then_check(
    a: Result<(), ManifestError>,
    b: Result<(), ManifestError>,
) -> Result<(), ManifestError> {
    match a {
        Err(e) => Err(e),
        Ok(()) => b,
    }
}

/// The instance counts of the binary scatter files.
pub open spec fn binary_instance_counts(files: Seq<ScatterBinaryFileEntry>) -> Seq<usize> {
    files.map_values(|f: ScatterBinaryFileEntry| f.instance_count)
}

/// The footprint part of the contract.
pub open spec fn manifest_footprint_check(m: ManifestContract) -> Result<(), ManifestError> {
    match footprint_check(
        m.memory_footprint,
        m.map_resolution,
        binary_instance_counts(m.scatter.binary_files@),
    ) {
        Err(mismatch) => Err(ManifestError::Footprint { mismatch }),
        Ok(()) => Ok(()),
    }
}

/// A file field that must not be blank.
pub open spec fn file_check(field: ManifestFileField, value: Seq<char>) -> Result<(), ManifestError> {
    if is_blank(value) {
        Err(ManifestError::EmptyFile { field })
    } else {
        Ok(())
    }
}

/// A flag that must hold.
pub open spec fn flag_check(ok: bool, e: ManifestError) -> Result<(), ManifestError> {
    if ok {
        Ok(())
    } else {
        Err(e)
    }
}

/// The terrain and axis part of the contract, in the order it is read.
pub open spec fn terrain_check(m: ManifestContract) -> Result<(), ManifestError> {
    then_check(
        file_check(ManifestFileField::TerrainHeightmap, m.heightmap_file@),
        then_check(
            file_check(ManifestFileField::TerrainMasks, m.masks_file@),
            then_check(
                file_check(ManifestFileField::TerrainGrassDensity, m.grass_density_file@),
                then_check(
                    flag_check(m.terrain_bounds_valid, ManifestError::TerrainBounds),
                    then_check(
                        flag_check(m.height_range_valid, ManifestError::HeightRange),
                        flag_check(m.unit_scale_positive, ManifestError::UnitScale),
                    ),
                ),
            ),
        ),
    )
}

/// The whole manifest contract: the first violation in the order an
/// importer reads the manifest.
pub open spec fn contract_check(m: ManifestContract) -> Result<(), ManifestError> {
    then_check(
        header_check(m.schema_version, m.generator@, m.asset_name@),
        then_check(
            flag_check(m.tile_size_positive, ManifestError::TileSize),
            then_check(
                flag_check(m.map_resolution >= 2, ManifestError::MapResolutionTooSmall),
                then_check(
                    manifest_footprint_check(m),
                    then_check(
                        terrain_check(m),
                        then_check(
                            conventions_check(
                                m.up_axis@,
                                m.map_channels@,
                                m.normal_conventions.unity_yplus_file@,
                                m.normal_conventions.unreal_yminus_file@,
                                m.material_slots@,
                            ),
                            then_check(
                                material_parameters_check(
                                    m.material_parameters@,
                                    m.material_slots@,
                                ),
                                then_check(
                                    material_recipes_check(
                                        m.material_recipes@,
                                        m.material_slots@,
                                        m.material_parameters@,
                                    ),
                                    then_check(
                                        engine_recipes_check(m.engine_import_recipes@),
                                        then_check(
                                            surface_overlays_check(m.surface_overlays@),
                                            then_check(
                                                prototypes_check(m.prototypes@),
                                                then_check(
                                                    scatter_check(m.scatter),
                                                    policies_check(
                                                        m.shader_policy@,
                                                        m.texture_pipeline@,
                                                        m.unity_normal_map@,
                                                        m.unreal_normal_map@,
                                                    ),
                                                ),
                                            ),
                                        ),
                                    ),
                                ),
                            ),
                        ),
                    ),
                ),
            ),
        ),
    )
}

/// The manifest's sizes that the footprint check computes with fit in
/// `u64`.
pub open spec fn footprint_in_range(m: ManifestContract) -> bool {
    &&& m.map_resolution as nat * m.map_resolution as nat * 13 <= u64::MAX
    &&& m.scatter.binary_files@.len() * 16 + declared_record_bytes(
        binary_instance_counts(m.scatter.binary_files@),
    ) <= u64::MAX
}

fn instance_counts(files: &Vec<ScatterBinaryFileEntry>) -> (r: Vec<usize>)
    ensures
        r@ == binary_instance_counts(files@),
{
    let mut r: Vec<usize> = Vec::new();
    let mut i: usize = 0;
    while i < files.len()
        invariant
            i <= files@.len(),
            r@ == binary_instance_counts(files@.take(i as int)),
        decreases files@.len() - i,
    {
        r.push(files[i].instance_count);
        proof {
            assert(binary_instance_counts(files@.take(i + 1)) =~= binary_instance_counts(
                files@.take(i as int),
            ).push(files@[i as int].instance_count));
        }
        i = i + 1;
    }
    assert(files@.take(i as int) =~= files@);
    r
}

impl ManifestContract {
    /// Validates the package manifest contract before it is written or
    /// imported.
    pub fn validate(&self) -> (r: Result<(), ManifestError>)
        requires
            footprint_in_range(*self),
        ensures
            r == contract_check(*self),
    {
        let r = check_manifest_header(self.schema_version, self.generator.as_str(), self.asset_name.as_str());
        if r.is_err() {
            return r;
        }
        if !self.tile_size_positive {
            return Err(ManifestError::TileSize);
        }
        let r = check_map_resolution(self.map_resolution);
        if r.is_err() {
            return r;
        }
        let counts = instance_counts(&self.scatter.binary_files);
        match validate_memory_footprint(&self.memory_footprint, self.map_resolution, counts.as_slice()) {
            Err(mismatch) => {
                return Err(ManifestError::Footprint { mismatch });
            },
            Ok(()) => {},
        }
        let r = check_file_field(ManifestFileField::TerrainHeightmap, self.heightmap_file.as_str());
        if r.is_err() {
            return r;
        }
        let r = check_file_field(ManifestFileField::TerrainMasks, self.masks_file.as_str());
        if r.is_err() {
            return r;
        }
        let r = check_file_field(
            ManifestFileField::TerrainGrassDensity,
            self.grass_density_file.as_str(),
        );
        if r.is_err() {
            return r;
        }
        if !self.terrain_bounds_valid {
            return Err(ManifestError::TerrainBounds);
        }
        if !self.height_range_valid {
            return Err(ManifestError::HeightRange);
        }
        if !self.unit_scale_positive {
            return Err(ManifestError::UnitScale);
        }
        let r = check_conventions(
            self.up_axis.as_str(),
            &self.map_channels,
            self.normal_conventions.unity_yplus_file.as_str(),
            self.normal_conventions.unreal_yminus_file.as_str(),
            &self.material_slots,
        );
        if r.is_err() {
            return r;
        }
        let r = check_material_parameters(&self.material_parameters, &self.material_slots);
        if r.is_err() {
            return r;
        }
        let r = check_material_recipes(
            &self.material_recipes,
            &self.material_slots,
            &self.material_parameters,
        );
        if r.is_err() {
            return r;
        }
        let r = check_engine_import_recipes(&self.engine_import_recipes);
        if r.is_err() {
            return r;
        }
        let r = check_surface_overlays(&self.surface_overlays);
        if r.is_err() {
            return r;
        }
        let r = check_prototypes(&self.prototypes);
        if r.is_err() {
            return r;
        }
        let r = check_scatter(&self.scatter);
        if r.is_err() {
            return r;
        }
        check_policies(
            self.shader_policy.as_str(),
            self.texture_pipeline.as_str(),
            self.unity_normal_map.as_str(),
            self.unreal_normal_map.as_str(),
        )
    }
}

/// Scatter settings that pass their contract and write binary files name
/// the v1 binary format: `midori.scatter.bin.v1`, a 16-byte header,
/// 32-byte records, little-endian.
pub proof fn lemma_accepted_binary_scatter_is_v1(s: ScatterEntry)
    requires
        scatter_check(s) is Ok,
        s.enabled,
        s.binary_files@.len() > 0,
    ensures
        s.binary_format.format@ == "midori.scatter.bin.v1"@,
        s.binary_format.header_bytes == 16,
        s.binary_format.record_stride_bytes == 32,
        s.binary_format.endian@ == "little"@,
{
}

/// A manifest that passes its contract and writes binary scatter files
/// declares the v1 binary format, with its 16-byte header and 32-byte
/// records.
pub proof fn lemma_accepted_manifest_binary_scatter_is_v1(m: ManifestContract)
    requires
        contract_check(m) is Ok,
        m.scatter.enabled,
        m.scatter.binary_files@.len() > 0,
    ensures
        m.scatter.binary_format.format@ == "midori.scatter.bin.v1"@,
        m.scatter.binary_format.header_bytes == 16,
        m.scatter.binary_format.record_stride_bytes == 32,
        m.scatter.binary_format.endian@ == "little"@,
{
    assert(scatter_check(m.scatter) is Ok);
    lemma_accepted_binary_scatter_is_v1(m.scatter);
}

} // verus!
