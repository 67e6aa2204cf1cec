//! Byte footprint of a nature package: estimated before writing, measured
//! from the written files, and checked against what the manifest declares.

use vstd::prelude::*;

verus! {

/// Byte footprint of a nature package.
#[derive(Debug, Clone, Copy, PartialEq, Eq, Structural)]
pub struct MemoryFootprintManifest {
    /// Baked map pixel count per map.
    pub map_pixel_count: u64,
    /// Estimated decoded bytes of the canonical map buffers.
    pub decoded_map_bytes: u64,
    /// Encoded PNG bytes under `maps/`.
    pub encoded_map_bytes: u64,
    /// Static material recipe JSON bytes.
    pub material_recipe_bytes: u64,
    /// Static engine import recipe JSON bytes.
    pub engine_import_recipe_bytes: u64,
    /// Encoded preview mesh GLB bytes.
    pub preview_mesh_bytes: u64,
    /// Encoded prototype GLB bytes.
    pub prototype_mesh_bytes: u64,
    /// Scatter JSON bytes.
    pub scatter_json_bytes: u64,
    /// Binary scatter buffer bytes.
    pub scatter_binary_bytes: u64,
    /// Binary scatter header bytes.
    pub scatter_binary_header_bytes: u64,
    /// Binary scatter record payload bytes.
    pub scatter_binary_record_bytes: u64,
    /// Total generated payload bytes, excluding the manifest itself.
    pub total_payload_bytes: u64,
}

impl Default for MemoryFootprintManifest {
    fn default() -> (r: Self)
        ensures
            r == zero_footprint(),
    {
        MemoryFootprintManifest {
            map_pixel_count: 0,
            decoded_map_bytes: 0,
            encoded_map_bytes: 0,
            material_recipe_bytes: 0,
            engine_import_recipe_bytes: 0,
            preview_mesh_bytes: 0,
            prototype_mesh_bytes: 0,
            scatter_json_bytes: 0,
            scatter_binary_bytes: 0,
            scatter_binary_header_bytes: 0,
            scatter_binary_record_bytes: 0,
            total_payload_bytes: 0,
        }
    }
}

/// The footprint with every count zero.
pub open spec fn zero_footprint() -> MemoryFootprintManifest {
    MemoryFootprintManifest {
        map_pixel_count: 0,
        decoded_map_bytes: 0,
        encoded_map_bytes: 0,
        material_recipe_bytes: 0,
        engine_import_recipe_bytes: 0,
        preview_mesh_bytes: 0,
        prototype_mesh_bytes: 0,
        scatter_json_bytes: 0,
        scatter_binary_bytes: 0,
        scatter_binary_header_bytes: 0,
        scatter_binary_record_bytes: 0,
        total_payload_bytes: 0,
    }
}

/// Decoded bytes per baked-map pixel: L16 height, two RGB8 normals, RGBA8
/// masks and L8 grass density.
pub const DECODED_BYTES_PER_MAP_PIXEL: u64 = 13;

/// Pixels in one square map of the given resolution.
pub fn map_pixel_count(map_resolution: u32) -> (r: u64)
    ensures
        r == map_resolution as nat * map_resolution as nat,
{
    assert(map_resolution as nat * map_resolution as nat <= u64::MAX) by (nonlinear_arith)
        requires
            map_resolution <= u32::MAX,
    ;
    let resolution = map_resolution as u64;
    resolution * resolution
}

/// Decoded bytes of the canonical maps for a pixel count.
pub fn decoded_map_bytes(map_pixel_count: u64) -> (r: u64)
    requires
        map_pixel_count * 13 <= u64::MAX,
    ensures
        r == map_pixel_count * 13,
{
    map_pixel_count * 13
}

/// Sum of a sequence of byte counts.
pub open spec fn total_of(xs: Seq<u64>) -> nat
    decreases xs.len(),
{
    if xs.len() == 0 {
        0
    } else {
        total_of(xs.drop_last()) + xs.last() as nat
    }
}

proof fn lemma_total_of_prefix_le(xs: Seq<u64>, k: int)
    requires
        0 <= k <= xs.len(),
    ensures
        total_of(xs.take(k)) <= total_of(xs),
    decreases xs.len() - k,
{
    if k < xs.len() {
        lemma_total_of_prefix_le(xs, k + 1);
        assert(xs.take(k + 1).drop_last() =~= xs.take(k));
    } else {
        assert(xs.take(k) =~= xs);
    }
}

/// Why a footprint could not be measured.
#[derive(Debug, Clone, Copy, PartialEq, Eq, Structural)]
pub enum FootprintError {
    /// The byte count of a group of package files overflowed `u64`.
    FileBytesOverflow,
    /// Binary scatter files are smaller than their declared headers.
    BinaryBytesBelowHeaders,
    /// The total payload overflowed `u64`.
    PayloadOverflow,
}

/// Sums file lengths, failing when the sum overflows `u64`.
pub fn sum_file_lengths(lengths: &[u64]) -> (r: Result<u64, FootprintError>)
    ensures
        match r {
            Ok(t) => t == total_of(lengths@),
            Err(e) => e == FootprintError::FileBytesOverflow && total_of(lengths@) > u64::MAX,
        },
{
    let mut total: u64 = 0;
    let mut i: usize = 0;
    while i < lengths.len()
        invariant
            i <= lengths.len(),
            total == total_of(lengths@.take(i as int)),
        decreases lengths.len() - i,
    {
        assert(lengths@.take(i + 1).drop_last() =~= lengths@.take(i as int));
        match total.checked_add(lengths[i]) {
            Some(t) => {
                total = t;
            },
            None => {
                proof {
                    lemma_total_of_prefix_le(lengths@, i + 1);
                }
                return Err(FootprintError::FileBytesOverflow);
            },
        }
        i = i + 1;
    }
    assert(lengths@.take(i as int) =~= lengths@);
    Ok(total)
}

/// Length of an optional file, zero when absent.
pub fn optional_file_length(length: Option<u64>) -> (r: u64)
    ensures
        r == match length {
            Some(n) => n,
            None => 0,
        },
{
    match length {
        Some(n) => n,
        None => 0,
    }
}

/// Header bytes of the binary scatter files.
pub const SCATTER_HEADER_BYTES: u64 = 16;

/// Record bytes of the binary scatter files.
pub const SCATTER_RECORD_BYTES: u64 = 32;

/// Footprint estimated before writing a package: map sizes from the
/// resolution and, when binary scatter is written, 16 header bytes per
/// chunk and 32 bytes per instance; encoded sizes are not known yet.
pub open spec fn estimated_footprint(
    map_resolution: u32,
    write_scatter_binary: bool,
    chunk_count: u64,
    instance_count: u64,
) -> MemoryFootprintManifest {
    let pixels = (map_resolution * map_resolution) as u64;
    let header = if write_scatter_binary {
        (chunk_count * 16) as u64
    } else {
        0
    };
    let record = if write_scatter_binary {
        (instance_count * 32) as u64
    } else {
        0
    };
    MemoryFootprintManifest {
        map_pixel_count: pixels,
        decoded_map_bytes: (pixels * 13) as u64,
        encoded_map_bytes: 0,
        material_recipe_bytes: 0,
        engine_import_recipe_bytes: 0,
        preview_mesh_bytes: 0,
        prototype_mesh_bytes: 0,
        scatter_json_bytes: 0,
        scatter_binary_bytes: (header + record) as u64,
        scatter_binary_header_bytes: header,
        scatter_binary_record_bytes: record,
        total_payload_bytes: (header + record) as u64,
    }
}

/// The footprint estimated before writing a package.
pub fn estimated_memory_footprint(
    map_resolution: u32,
    write_scatter_binary: bool,
    chunk_count: u64,
    instance_count: u64,
) -> (r: MemoryFootprintManifest)
    requires
        map_resolution as nat * map_resolution as nat * 13 <= u64::MAX,
        write_scatter_binary ==> chunk_count * 16 + instance_count * 32 <= u64::MAX,
    ensures
        r == estimated_footprint(map_resolution, write_scatter_binary, chunk_count, instance_count),
{
    let pixels = map_pixel_count(map_resolution);
    let header: u64 = if write_scatter_binary {
        chunk_count * SCATTER_HEADER_BYTES
    } else {
        0
    };
    let record: u64 = if write_scatter_binary {
        instance_count * SCATTER_RECORD_BYTES
    } else {
        0
    };
    let binary = header + record;
    MemoryFootprintManifest {
        map_pixel_count: pixels,
        decoded_map_bytes: decoded_map_bytes(pixels),
        encoded_map_bytes: 0,
        material_recipe_bytes: 0,
        engine_import_recipe_bytes: 0,
        preview_mesh_bytes: 0,
        prototype_mesh_bytes: 0,
        scatter_json_bytes: 0,
        scatter_binary_bytes: binary,
        scatter_binary_header_bytes: header,
        scatter_binary_record_bytes: record,
        total_payload_bytes: binary,
    }
}

/// The footprint measured from the lengths of a package's files, or the
/// first failure in the order the groups are summed: maps, material
/// recipes, engine recipes, prototypes, binary scatter; then binary bytes
/// below the declared headers; then a total over `u64`.
pub open spec fn measured_footprint(
    map_resolution: u32,
    map_files: Seq<u64>,
    material_recipes: Seq<u64>,
    engine_import_recipes: Seq<u64>,
    preview_mesh: Option<u64>,
    prototype_meshes: Seq<u64>,
    scatter_json: Option<u64>,
    scatter_binaries: Seq<u64>,
) -> Result<MemoryFootprintManifest, FootprintError> {
    let preview = match preview_mesh {
        Some(n) => n as nat,
        None => 0,
    };
    let json = match scatter_json {
        Some(n) => n as nat,
        None => 0,
    };
    let header = scatter_binaries.len() * 16;
    if total_of(map_files) > u64::MAX || total_of(material_recipes) > u64::MAX || total_of(
        engine_import_recipes,
    ) > u64::MAX || total_of(prototype_meshes) > u64::MAX || total_of(scatter_binaries)
        > u64::MAX {
        Err(FootprintError::FileBytesOverflow)
    } else if total_of(scatter_binaries) < header {
        Err(FootprintError::BinaryBytesBelowHeaders)
    } else if total_of(map_files) + total_of(material_recipes) + total_of(engine_import_recipes)
        + preview + total_of(prototype_meshes) + json + total_of(scatter_binaries) > u64::MAX {
        Err(FootprintError::PayloadOverflow)
    } else {
        let pixels = map_resolution as nat * map_resolution as nat;
        Ok(
            MemoryFootprintManifest {
                map_pixel_count: pixels as u64,
                decoded_map_bytes: (pixels * 13) as u64,
                encoded_map_bytes: total_of(map_files) as u64,
                material_recipe_bytes: total_of(material_recipes) as u64,
                engine_import_recipe_bytes: total_of(engine_import_recipes) as u64,
                preview_mesh_bytes: preview as u64,
                prototype_mesh_bytes: total_of(prototype_meshes) as u64,
                scatter_json_bytes: json as u64,
                scatter_binary_bytes: total_of(scatter_binaries) as u64,
                scatter_binary_header_bytes: header as u64,
                scatter_binary_record_bytes: (total_of(scatter_binaries) - header) as u64,
                total_payload_bytes: (total_of(map_files) + total_of(material_recipes) + total_of(
                    engine_import_recipes,
                ) + preview + total_of(prototype_meshes) + json + total_of(
                    scatter_binaries,
                )) as u64,
            },
        )
    }
}

/// Measures a package's footprint from the lengths of its files.
pub fn package_memory_footprint(
    map_resolution: u32,
    map_files: &[u64],
    material_recipes: &[u64],
    engine_import_recipes: &[u64],
    preview_mesh: Option<u64>,
    prototype_meshes: &[u64],
    scatter_json: Option<u64>,
    scatter_binaries: &[u64],
) -> (r: Result<MemoryFootprintManifest, FootprintError>)
    requires
        map_resolution as nat * map_resolution as nat * 13 <= u64::MAX,
        scatter_binaries@.len() * 16 <= u64::MAX,
    ensures
        r == measured_footprint(
            map_resolution,
            map_files@,
            material_recipes@,
            engine_import_recipes@,
            preview_mesh,
            prototype_meshes@,
            scatter_json,
            scatter_binaries@,
        ),
{
    let encoded = sum_file_lengths(map_files)?;
    let material = sum_file_lengths(material_recipes)?;
    let engine = sum_file_lengths(engine_import_recipes)?;
    let preview = optional_file_length(preview_mesh);
    let prototypes = sum_file_lengths(prototype_meshes)?;
    let json = optional_file_length(scatter_json);
    let binary = sum_file_lengths(scatter_binaries)?;
    let header = scatter_binaries.len() as u64 * SCATTER_HEADER_BYTES;
    let record = match binary.checked_sub(header) {
        Some(v) => v,
        None => {
            return Err(FootprintError::BinaryBytesBelowHeaders);
        },
    };
    let pixels = map_pixel_count(map_resolution);
    let total = match encoded.checked_add(material) {
        Some(v) => match v.checked_add(engine) {
            Some(v) => match v.checked_add(preview) {
                Some(v) => match v.checked_add(prototypes) {
                    Some(v) => match v.checked_add(json) {
                        Some(v) => v.checked_add(binary),
                        None => None,
                    },
                    None => None,
                },
                None => None,
            },
            None => None,
        },
        None => None,
    };
    match total {
        Some(total) => Ok(
            MemoryFootprintManifest {
                map_pixel_count: pixels,
                decoded_map_bytes: decoded_map_bytes(pixels),
                encoded_map_bytes: encoded,
                material_recipe_bytes: material,
                engine_import_recipe_bytes: engine,
                preview_mesh_bytes: preview,
                prototype_mesh_bytes: prototypes,
                scatter_json_bytes: json,
                scatter_binary_bytes: binary,
                scatter_binary_header_bytes: header,
                scatter_binary_record_bytes: record,
                total_payload_bytes: total,
            },
        ),
        None => Err(FootprintError::PayloadOverflow),
    }
}

/// Record bytes declared by a list of binary scatter instance counts.
pub open spec fn declared_record_bytes(counts: Seq<usize>) -> nat
    decreases counts.len(),
{
    if counts.len() == 0 {
        0
    } else {
        (declared_record_bytes(counts.drop_last()) + counts.last() * 32) as nat
    }
}

/// Which footprint field disagrees with the manifest.
#[derive(Debug, Clone, Copy, PartialEq, Eq, Structural)]
pub enum FootprintMismatch {
    /// `map_pixel_count` is not `map_resolution^2`.
    MapPixelCount,
    /// `decoded_map_bytes` is not 13 bytes per pixel.
    DecodedMapBytes,
    /// `scatter_binary_header_bytes` is not 16 per binary file.
    ScatterBinaryHeaderBytes,
    /// `scatter_binary_record_bytes` is not 32 per declared instance.
    ScatterBinaryRecordBytes,
    /// `scatter_binary_bytes` is not header plus record bytes.
    ScatterBinaryBytes,
    /// The declared total overflows `u64`.
    TotalOverflow,
    /// `total_payload_bytes` is not the sum of the payload fields.
    TotalPayloadBytes,
}

/// Sum of the payload fields of a footprint.
pub open spec fn payload_total(f: MemoryFootprintManifest) -> nat {
    (f.encoded_map_bytes + f.material_recipe_bytes + f.engine_import_recipe_bytes
        + f.preview_mesh_bytes + f.prototype_mesh_bytes + f.scatter_json_bytes
        + f.scatter_binary_bytes) as nat
}

/// The manifest's footprint checked against its map resolution and the
/// instance counts of its binary scatter files, one field after another.
pub open spec fn footprint_check(
    f: MemoryFootprintManifest,
    map_resolution: u32,
    binary_instance_counts: Seq<usize>,
) -> Result<(), FootprintMismatch> {
    if f.map_pixel_count != map_resolution as nat * map_resolution as nat {
        Err(FootprintMismatch::MapPixelCount)
    } else if f.decoded_map_bytes != f.map_pixel_count * 13 {
        Err(FootprintMismatch::DecodedMapBytes)
    } else if f.scatter_binary_header_bytes != binary_instance_counts.len() * 16 {
        Err(FootprintMismatch::ScatterBinaryHeaderBytes)
    } else if f.scatter_binary_record_bytes != declared_record_bytes(binary_instance_counts) {
        Err(FootprintMismatch::ScatterBinaryRecordBytes)
    } else if f.scatter_binary_bytes != f.scatter_binary_header_bytes
        + f.scatter_binary_record_bytes {
        Err(FootprintMismatch::ScatterBinaryBytes)
    } else if payload_total(f) > u64::MAX {
        Err(FootprintMismatch::TotalOverflow)
    } else if f.total_payload_bytes != payload_total(f) {
        Err(FootprintMismatch::TotalPayloadBytes)
    } else {
        Ok(())
    }
}

/// Checks a manifest's declared footprint.
pub fn validate_memory_footprint(
    f: &MemoryFootprintManifest,
    map_resolution: u32,
    binary_instance_counts: &[usize],
) -> (r: Result<(), FootprintMismatch>)
    requires
        map_resolution as nat * map_resolution as nat * 13 <= u64::MAX,
        binary_instance_counts@.len() * 16 + declared_record_bytes(binary_instance_counts@)
            <= u64::MAX,
    ensures
        r == footprint_check(*f, map_resolution, binary_instance_counts@),
{
    if f.map_pixel_count != map_pixel_count(map_resolution) {
        return Err(FootprintMismatch::MapPixelCount);
    }
    if f.decoded_map_bytes != decoded_map_bytes(f.map_pixel_count) {
        return Err(FootprintMismatch::DecodedMapBytes);
    }
    let expected_header = binary_instance_counts.len() as u64 * SCATTER_HEADER_BYTES;
    if f.scatter_binary_header_bytes != expected_header {
        return Err(FootprintMismatch::ScatterBinaryHeaderBytes);
    }
    let mut expected_record: u64 = 0;
    let mut i: usize = 0;
    while i < binary_instance_counts.len()
        invariant
            i <= binary_instance_counts@.len(),
            expected_record == declared_record_bytes(binary_instance_counts@.take(i as int)),
            binary_instance_counts@.len() * 16 + declared_record_bytes(binary_instance_counts@)
                <= u64::MAX,
        decreases binary_instance_counts@.len() - i,
    {
        proof {
            assert(binary_instance_counts@.take(i + 1).drop_last() =~= binary_instance_counts@.take(
                i as int,
            ));
            lemma_declared_prefix_le(binary_instance_counts@, i + 1);
        }
        expected_record = expected_record + binary_instance_counts[i] as u64 * SCATTER_RECORD_BYTES;
        i = i + 1;
    }
    assert(binary_instance_counts@.take(i as int) =~= binary_instance_counts@);
    if f.scatter_binary_record_bytes != expected_record {
        return Err(FootprintMismatch::ScatterBinaryRecordBytes);
    }
    if f.scatter_binary_bytes != f.scatter_binary_header_bytes + f.scatter_binary_record_bytes {
        return Err(FootprintMismatch::ScatterBinaryBytes);
    }
    let total = match f.encoded_map_bytes.checked_add(f.material_recipe_bytes) {
        Some(v) => match v.checked_add(f.engine_import_recipe_bytes) {
            Some(v) => match v.checked_add(f.preview_mesh_bytes) {
                Some(v) => match v.checked_add(f.prototype_mesh_bytes) {
                    Some(v) => match v.checked_add(f.scatter_json_bytes) {
                        Some(v) => v.checked_add(f.scatter_binary_bytes),
                        None => None,
                    },
                    None => None,
                },
                None => None,
            },
            None => None,
        },
        None => None,
    };
    match total {
        None => Err(FootprintMismatch::TotalOverflow),
        Some(t) => {
            if f.total_payload_bytes != t {
                Err(FootprintMismatch::TotalPayloadBytes)
            } else {
                Ok(())
            }
        },
    }
}

proof fn lemma_declared_prefix_le(counts: Seq<usize>, k: int)
    requires
        0 <= k <= counts.len(),
    ensures
        declared_record_bytes(counts.take(k)) <= declared_record_bytes(counts),
    decreases counts.len() - k,
{
    if k < counts.len() {
        lemma_declared_prefix_le(counts, k + 1);
        assert(counts.take(k + 1).drop_last() =~= counts.take(k));
    } else {
        assert(counts.take(k) =~= counts);
    }
}

/// Binary scatter files of `16 + 32 * count` bytes sum to the declared
/// header and record bytes.
proof fn lemma_binary_lengths_total(lengths: Seq<u64>, counts: Seq<usize>)
    requires
        lengths.len() == counts.len(),
        forall|i: int| 0 <= i < lengths.len() ==> lengths[i] == 16 + 32 * counts[i],
    ensures
        total_of(lengths) == lengths.len() * 16 + declared_record_bytes(counts),
    decreases lengths.len(),
{
    if lengths.len() > 0 {
        lemma_binary_lengths_total(lengths.drop_last(), counts.drop_last());
    }
}

/// A footprint measured from package files validates against the
/// manifest when every binary scatter file is `16 + 32 * count` bytes for
/// the instance count its manifest entry declares.
pub proof fn lemma_measured_footprint_validates(
    map_resolution: u32,
    map_files: Seq<u64>,
    material_recipes: Seq<u64>,
    engine_import_recipes: Seq<u64>,
    preview_mesh: Option<u64>,
    prototype_meshes: Seq<u64>,
    scatter_json: Option<u64>,
    scatter_binaries: Seq<u64>,
    binary_instance_counts: Seq<usize>,
)
    requires
        map_resolution as nat * map_resolution as nat * 13 <= u64::MAX,
        scatter_binaries.len() == binary_instance_counts.len(),
        forall|i: int|
            0 <= i < scatter_binaries.len() ==> scatter_binaries[i] == 16 + 32
                * binary_instance_counts[i],
        measured_footprint(
            map_resolution,
            map_files,
            material_recipes,
            engine_import_recipes,
            preview_mesh,
            prototype_meshes,
            scatter_json,
            scatter_binaries,
        ) is Ok,
    ensures
        footprint_check(
            measured_footprint(
                map_resolution,
                map_files,
                material_recipes,
                engine_import_recipes,
                preview_mesh,
                prototype_meshes,
                scatter_json,
                scatter_binaries,
            )->Ok_0,
            map_resolution,
            binary_instance_counts,
        ) is Ok,
{
    lemma_binary_lengths_total(scatter_binaries, binary_instance_counts);
    assert(map_resolution as nat * map_resolution as nat <= u64::MAX) by (nonlinear_arith)
        requires
            map_resolution as nat * map_resolution as nat * 13 <= u64::MAX,
    ;
}

/// The footprint estimated before writing validates against a manifest
/// whose binary files declare the same chunks and instances.
pub proof fn lemma_estimated_footprint_validates(map_resolution: u32, binary_instance_counts: Seq<
    usize,
>)
    requires
        map_resolution as nat * map_resolution as nat * 13 <= u64::MAX,
        binary_instance_counts.len() * 16 + declared_record_bytes(binary_instance_counts)
            <= u64::MAX,
    ensures
        footprint_check(
            estimated_footprint(
                map_resolution,
                true,
                binary_instance_counts.len() as u64,
                (declared_record_bytes(binary_instance_counts) / 32) as u64,
            ),
            map_resolution,
            binary_instance_counts,
        ) is Ok,
{
    lemma_declared_multiple_of_32(binary_instance_counts);
    assert(map_resolution as nat * map_resolution as nat <= u64::MAX) by (nonlinear_arith)
        requires
            map_resolution as nat * map_resolution as nat * 13 <= u64::MAX,
    ;
}

proof fn lemma_declared_multiple_of_32(counts: Seq<usize>)
    ensures
        declared_record_bytes(counts) % 32 == 0,
        declared_record_bytes(counts) / 32 * 32 == declared_record_bytes(counts),
    decreases counts.len(),
{
    if counts.len() > 0 {
        lemma_declared_multiple_of_32(counts.drop_last());
    }
}

/// Whether the footprint measured from a package's files is the one its
/// manifest declares, field for field.
pub fn footprint_matches(declared: &MemoryFootprintManifest, measured: &MemoryFootprintManifest) -> (r:
    bool)
    ensures
        r == (*declared == *measured),
{
    *declared == *measured
}

} // verus!
