use midori_core::checksum::fnv1a_checksum;
use midori_core::scatter_binary::{
    decode_scatter_binary, read_u32_le, scatter_binary_chunk_bytes, scatter_records_checksum,
    scatter_instance_totals, ScatterBinaryError, ScatterRecordBits, ScatterTotalsError,
};

fn record(seed: f32) -> ScatterRecordBits {
    ScatterRecordBits {
        position_x: seed.to_bits(),
        position_y: (seed * 0.5).to_bits(),
        position_z: (-seed).to_bits(),
        yaw: 1.25f32.to_bits(),
        height: 1.0f32.to_bits(),
        width: 0.9f32.to_bits(),
        phase: 3.0f32.to_bits(),
        color_variation: 0.25f32.to_bits(),
    }
}

#[test]
fn chunk_layout_is_header_then_records() {
    let records = [record(1.0), record(2.5)];
    let bytes = scatter_binary_chunk_bytes(&records);
    assert_eq!(bytes.len(), 16 + 2 * 32);
    assert_eq!(&bytes[0..4], b"MDSI");
    assert_eq!(read_u32_le(&bytes, 4), 1);
    assert_eq!(read_u32_le(&bytes, 8), 32);
    assert_eq!(read_u32_le(&bytes, 12), 2);
    assert_eq!(f32::from_bits(read_u32_le(&bytes, 16)), 1.0);
    assert_eq!(f32::from_bits(read_u32_le(&bytes, 16 + 32 + 8)), -2.5);
}

#[test]
fn encoded_chunks_decode_to_the_same_records() {
    let records = vec![record(1.0), record(-7.5), record(1e-3)];
    let bytes = scatter_binary_chunk_bytes(&records);
    assert_eq!(decode_scatter_binary(&bytes, 3), Ok(records));
    let empty = scatter_binary_chunk_bytes(&[]);
    assert_eq!(decode_scatter_binary(&empty, 0), Ok(vec![]));
}

#[test]
fn decoding_rejects_each_kind_of_corruption() {
    let bytes = scatter_binary_chunk_bytes(&[record(1.0)]);
    assert_eq!(decode_scatter_binary(&bytes[..10], 1), Err(ScatterBinaryError::ShorterThanHeader));

    let mut bad_magic = bytes.clone();
    bad_magic[0] = b'X';
    assert_eq!(decode_scatter_binary(&bad_magic, 1), Err(ScatterBinaryError::InvalidMagic));

    let mut bad_version = bytes.clone();
    bad_version[4] = 2;
    assert_eq!(
        decode_scatter_binary(&bad_version, 1),
        Err(ScatterBinaryError::UnsupportedVersion { found: 2 })
    );

    let mut bad_stride = bytes.clone();
    bad_stride[8] = 28;
    assert_eq!(
        decode_scatter_binary(&bad_stride, 1),
        Err(ScatterBinaryError::UnsupportedStride { found: 28 })
    );

    assert_eq!(
        decode_scatter_binary(&bytes, 2),
        Err(ScatterBinaryError::CountMismatch { header: 1, manifest: 2 })
    );

    let mut truncated = bytes.clone();
    truncated.pop();
    assert_eq!(
        decode_scatter_binary(&truncated, 1),
        Err(ScatterBinaryError::LengthMismatch { expected: 48, actual: 47 })
    );
}

#[test]
fn record_checksum_hashes_the_record_bytes() {
    let records = [record(1.0), record(2.0)];
    let bytes = scatter_binary_chunk_bytes(&records);
    assert_eq!(scatter_records_checksum(&records), fnv1a_checksum(&bytes[16..]));
    assert_eq!(scatter_records_checksum(&[]), fnv1a_checksum(&[]));
}

#[test]
fn scatter_totals_compare_json_with_binary() {
    assert_eq!(scatter_instance_totals(true, 7, &[3, 4]), Ok(7));
    assert_eq!(
        scatter_instance_totals(true, 8, &[3, 4]),
        Err(ScatterTotalsError::JsonBinaryMismatch { json: 8, binary: 7 })
    );
    // Without a JSON file, or without binary files, nothing is compared.
    assert_eq!(scatter_instance_totals(false, 8, &[3, 4]), Ok(7));
    assert_eq!(scatter_instance_totals(true, 8, &[]), Ok(0));
    assert_eq!(
        scatter_instance_totals(false, 0, &[usize::MAX, 1]),
        Err(ScatterTotalsError::BinaryCountOverflow)
    );
}
