use midori_core::checksum::{fnv1a, fnv1a_checksum, fnv1a_extend, map_set_checksum};

#[test]
fn fnv1a_of_known_strings() {
    assert_eq!(fnv1a_checksum(b""), 0xcbf29ce484222325);
    assert_eq!(fnv1a_checksum(b"a"), 0xaf63dc4c8601ec8c);
    assert_eq!(fnv1a_checksum(b"B"), 0xaf63ff4c86022805);
}

#[test]
fn fnv1a_extends_byte_by_byte() {
    let whole = fnv1a_checksum(b"Texture Test");
    let head = fnv1a_checksum(b"Texture");
    assert_eq!(fnv1a_extend(head, b" Test"), whole);
    assert_eq!(fnv1a(0xcbf29ce484222325, b'a'), 0xaf63dc4c8601ec8c);
}

#[test]
fn map_checksum_hashes_heights_then_normals_then_masks() {
    let heights = [0x0102u16, 0xfffe];
    let normals = [[1u8, 2, 3]];
    let masks = [[4u8, 5, 6, 7]];
    let expected = fnv1a_checksum(&[0x02, 0x01, 0xfe, 0xff, 1, 2, 3, 4, 5, 6, 7]);
    assert_eq!(map_set_checksum(&heights, &normals, &masks), expected);
}
