use midori_core::checksum::species_texture_seed;
use midori_core::texture::{RgbaTexture, TextureError};

fn sample_texture() -> RgbaTexture {
    let mut t = RgbaTexture::new(4, 3);
    for y in 0..3u32 {
        for x in 0..4u32 {
            t.set(x, y, [(x * 60) as u8, (y * 80) as u8, 200, (x + y * 4) as u8 * 16]);
        }
    }
    t
}

#[test]
fn png_roundtrip_preserves_pixels() {
    let texture = sample_texture();
    let png = texture.to_png().unwrap();
    let decoded = RgbaTexture::from_image_bytes(&png).unwrap();
    assert_eq!(decoded, texture);
}

#[test]
fn texture_seed_prefers_explicit_value() {
    assert_eq!(species_texture_seed(Some(99), "Texture Test"), 99);
    // Name-derived seeds differ across names.
    assert_ne!(
        species_texture_seed(None, "Texture Test"),
        species_texture_seed(None, "B")
    );
}

#[test]
fn name_seed_is_fnv1a_of_the_name() {
    assert_eq!(species_texture_seed(None, "Texture Test"), 0x8d6dbe10b9112758);
    assert_eq!(species_texture_seed(None, ""), 0xcbf29ce484222325);
}

#[test]
fn new_texture_is_transparent_black() {
    let t = RgbaTexture::new(2, 2);
    assert_eq!(t.pixels, vec![0u8; 16]);
    assert_eq!(t.get(1, 1), [0, 0, 0, 0]);
}

#[test]
fn set_then_get_reads_the_written_texel() {
    let mut t = RgbaTexture::new(3, 2);
    t.set(2, 1, [1, 2, 3, 4]);
    assert_eq!(t.get(2, 1), [1, 2, 3, 4]);
    assert_eq!(t.get(1, 1), [0, 0, 0, 0]);
}

#[test]
fn get_clamps_coordinates_to_the_edge() {
    let t = sample_texture();
    assert_eq!(t.get(100, 100), t.get(3, 2));
    assert_eq!(t.get(7, 0), t.get(3, 0));
}

#[test]
fn garbage_bytes_are_a_decode_error() {
    match RgbaTexture::from_image_bytes(&[1, 2, 3, 4, 5]) {
        Err(TextureError::Decode(_)) => {}
        other => panic!("expected a decode error, got {other:?}"),
    }
}

#[test]
fn encoding_succeeds_exactly_for_non_empty_textures() {
    let one = RgbaTexture::new(1, 1);
    let png = one.to_png().unwrap();
    assert_eq!(RgbaTexture::from_image_bytes(&png).unwrap(), one);
    assert!(matches!(RgbaTexture::new(0, 3).to_png(), Err(TextureError::Encode(_))));
    assert!(matches!(RgbaTexture::new(3, 0).to_png(), Err(TextureError::Encode(_))));
}
