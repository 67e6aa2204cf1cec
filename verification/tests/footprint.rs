use midori_core::footprint::{
    decoded_map_bytes, estimated_memory_footprint, footprint_matches, map_pixel_count, optional_file_length,
    package_memory_footprint, sum_file_lengths, validate_memory_footprint, FootprintError,
    FootprintMismatch, MemoryFootprintManifest,
};

#[test]
fn map_sizes_follow_the_resolution() {
    assert_eq!(map_pixel_count(64), 4096);
    assert_eq!(decoded_map_bytes(4096), 53248);
    assert_eq!(map_pixel_count(u32::MAX), (u32::MAX as u64) * (u32::MAX as u64));
}

#[test]
fn estimated_footprint_counts_binary_scatter_only_when_written() {
    let with = estimated_memory_footprint(64, true, 3, 10);
    assert_eq!(with.map_pixel_count, 4096);
    assert_eq!(with.decoded_map_bytes, 53248);
    assert_eq!(with.scatter_binary_header_bytes, 48);
    assert_eq!(with.scatter_binary_record_bytes, 320);
    assert_eq!(with.scatter_binary_bytes, 368);
    assert_eq!(with.total_payload_bytes, 368);
    let without = estimated_memory_footprint(64, false, 3, 10);
    assert_eq!(without.scatter_binary_bytes, 0);
    assert_eq!(without.total_payload_bytes, 0);
}

#[test]
fn measured_footprint_sums_every_group() {
    let f = package_memory_footprint(
        8,
        &[100, 200],
        &[10],
        &[20, 30],
        Some(40),
        &[50, 60],
        None,
        &[16 + 64, 16 + 32],
    )
    .unwrap();
    assert_eq!(f.map_pixel_count, 64);
    assert_eq!(f.decoded_map_bytes, 832);
    assert_eq!(f.encoded_map_bytes, 300);
    assert_eq!(f.material_recipe_bytes, 10);
    assert_eq!(f.engine_import_recipe_bytes, 50);
    assert_eq!(f.preview_mesh_bytes, 40);
    assert_eq!(f.prototype_mesh_bytes, 110);
    assert_eq!(f.scatter_json_bytes, 0);
    assert_eq!(f.scatter_binary_bytes, 128);
    assert_eq!(f.scatter_binary_header_bytes, 32);
    assert_eq!(f.scatter_binary_record_bytes, 96);
    assert_eq!(f.total_payload_bytes, 300 + 10 + 50 + 40 + 110 + 128);
    assert_eq!(validate_memory_footprint(&f, 8, &[2, 1]), Ok(()));
}

#[test]
fn measured_footprint_errors() {
    assert_eq!(
        package_memory_footprint(8, &[u64::MAX, 1], &[], &[], None, &[], None, &[]),
        Err(FootprintError::FileBytesOverflow)
    );
    assert_eq!(
        package_memory_footprint(8, &[], &[], &[], None, &[], None, &[10]),
        Err(FootprintError::BinaryBytesBelowHeaders)
    );
    assert_eq!(
        package_memory_footprint(8, &[u64::MAX], &[], &[], Some(1), &[], None, &[]),
        Err(FootprintError::PayloadOverflow)
    );
}

#[test]
fn file_length_sums_and_optional_lengths() {
    assert_eq!(sum_file_lengths(&[1, 2, 3]), Ok(6));
    assert_eq!(sum_file_lengths(&[]), Ok(0));
    assert_eq!(sum_file_lengths(&[u64::MAX, 1]), Err(FootprintError::FileBytesOverflow));
    assert_eq!(optional_file_length(Some(7)), 7);
    assert_eq!(optional_file_length(None), 0);
}

#[test]
fn declared_footprint_mismatches_are_reported_in_order() {
    let good = estimated_memory_footprint(4, true, 2, 5);
    assert_eq!(validate_memory_footprint(&good, 4, &[2, 3]), Ok(()));
    assert_eq!(
        validate_memory_footprint(&good, 5, &[2, 3]),
        Err(FootprintMismatch::MapPixelCount)
    );
    let mut bad = good;
    bad.decoded_map_bytes += 1;
    assert_eq!(validate_memory_footprint(&bad, 4, &[2, 3]), Err(FootprintMismatch::DecodedMapBytes));
    assert_eq!(
        validate_memory_footprint(&good, 4, &[5]),
        Err(FootprintMismatch::ScatterBinaryHeaderBytes)
    );
    assert_eq!(
        validate_memory_footprint(&good, 4, &[2, 4]),
        Err(FootprintMismatch::ScatterBinaryRecordBytes)
    );
    let mut bad = good;
    bad.scatter_binary_bytes += 1;
    assert_eq!(validate_memory_footprint(&bad, 4, &[2, 3]), Err(FootprintMismatch::ScatterBinaryBytes));
    let mut bad = good;
    bad.encoded_map_bytes = u64::MAX;
    assert_eq!(validate_memory_footprint(&bad, 4, &[2, 3]), Err(FootprintMismatch::TotalOverflow));
    let mut bad = good;
    bad.total_payload_bytes += 1;
    assert_eq!(
        validate_memory_footprint(&bad, 4, &[2, 3]),
        Err(FootprintMismatch::TotalPayloadBytes)
    );
}

#[test]
fn default_footprint_is_all_zero() {
    let f = MemoryFootprintManifest::default();
    assert_eq!(f.total_payload_bytes, 0);
    assert_eq!(f.map_pixel_count, 0);
}

#[test]
fn measured_footprint_must_equal_the_declared_one() {
    let declared = MemoryFootprintManifest::default();
    let mut measured = declared;
    assert!(footprint_matches(&declared, &measured));
    measured.preview_mesh_bytes = 1;
    assert!(!footprint_matches(&declared, &measured));
}
