use midori_core::glb::{build_glb_bytes, pad_binary, ExportFormat};

fn u32_at(bytes: &[u8], offset: usize) -> u32 {
    u32::from_le_bytes(bytes[offset..offset + 4].try_into().unwrap())
}

#[test]
fn glb_framing_pads_json_with_spaces_and_binary_with_zeros() {
    let json = br#"{"asset":{}}"#; // 12 bytes, already aligned
    let json5 = br#"{"a":1}"#; // 7 bytes
    let bin = [1u8, 2, 3, 4, 5];

    let glb = build_glb_bytes(json5, &bin);
    assert_eq!(&glb[0..4], b"glTF");
    assert_eq!(u32_at(&glb, 4), 2);
    assert_eq!(u32_at(&glb, 8) as usize, glb.len());
    assert_eq!(glb.len(), 12 + 8 + 8 + 8 + 8);
    assert_eq!(u32_at(&glb, 12), 8);
    assert_eq!(u32_at(&glb, 16), 0x4E4F534A);
    assert_eq!(&glb[20..27], json5);
    assert_eq!(glb[27], b' ');
    assert_eq!(u32_at(&glb, 28), 8);
    assert_eq!(u32_at(&glb, 32), 0x004E4942);
    assert_eq!(&glb[36..41], &bin);
    assert_eq!(&glb[41..44], &[0, 0, 0]);

    let aligned = build_glb_bytes(json, &[]);
    assert_eq!(aligned.len(), 12 + 8 + 12 + 8);
    assert_eq!(aligned.len() % 4, 0);
}

#[test]
fn binary_padding_reaches_a_multiple_of_four() {
    let mut b = vec![7u8; 6];
    pad_binary(&mut b);
    assert_eq!(b, vec![7, 7, 7, 7, 7, 7, 0, 0]);
    let mut c = vec![1u8; 8];
    pad_binary(&mut c);
    assert_eq!(c.len(), 8);
}

#[test]
fn glb_is_the_default_export_format() {
    assert_eq!(ExportFormat::default_format(), ExportFormat::Glb);
}
