use image::ImageEncoder;
use midori_core::map_checks::{map_relationships_from_files, BakedMap, MapRelationshipError};
use midori_core::map_files::{
    check_png_map, color_type_label, expected_map_color_type, map_color_type, png_map_summary, validate_png_map_bytes,
    MapColorType, MapFileError,
};

#[test]
fn canonical_maps_have_fixed_formats() {
    assert_eq!(expected_map_color_type("maps/height_u16.png"), Some(MapColorType::L16));
    assert_eq!(expected_map_color_type("maps/normal_yplus.png"), Some(MapColorType::Rgb8));
    assert_eq!(expected_map_color_type("normal_yminus.png"), Some(MapColorType::Rgb8));
    assert_eq!(expected_map_color_type("a/b/masks_rgba.png"), Some(MapColorType::Rgba8));
    assert_eq!(expected_map_color_type("maps/grass_density.png"), Some(MapColorType::L8));
    assert_eq!(expected_map_color_type("maps/preview.png"), None);
}

#[test]
fn file_names_follow_path_components() {
    assert_eq!(expected_map_color_type("maps/height_u16.png/"), Some(MapColorType::L16));
    assert_eq!(expected_map_color_type("maps/grass_density.png/."), Some(MapColorType::L8));
    assert_eq!(expected_map_color_type("height_u16.png/.."), None);
    assert_eq!(expected_map_color_type(""), None);
    assert_eq!(expected_map_color_type("/"), None);
    assert_eq!(expected_map_color_type("."), None);
    assert_eq!(expected_map_color_type("maps/Height_u16.png"), None);
}

#[test]
fn decoded_maps_must_match_resolution_and_format() {
    assert_eq!(check_png_map(64, 64, MapColorType::L16, 64, "maps/height_u16.png"), Ok(()));
    assert_eq!(
        check_png_map(64, 32, MapColorType::L16, 64, "maps/height_u16.png"),
        Err(MapFileError::Dimensions { expected: 64, width: 64, height: 32 })
    );
    assert_eq!(
        check_png_map(64, 64, MapColorType::Rgba8, 64, "maps/height_u16.png"),
        Err(MapFileError::ColorType { expected: MapColorType::L16, actual: MapColorType::Rgba8 })
    );
    assert_eq!(check_png_map(8, 8, MapColorType::La16, 8, "maps/other.png"), Ok(()));
}

#[test]
fn color_type_labels() {
    assert_eq!(color_type_label(MapColorType::Rgba8), "RGBA8");
    assert_eq!(color_type_label(MapColorType::L16), "L16");
    assert_eq!(color_type_label(MapColorType::Other), "unsupported");
}

fn encode_png(width: u32, height: u32, color: image::ExtendedColorType, data: &[u8]) -> Vec<u8> {
    let mut buf = Vec::new();
    image::codecs::png::PngEncoder::new(&mut buf).write_image(data, width, height, color).unwrap();
    buf
}

fn l16_png(width: u32, height: u32, values: &[u16]) -> Vec<u8> {
    let bytes: Vec<u8> = values.iter().flat_map(|v| v.to_ne_bytes()).collect();
    encode_png(width, height, image::ExtendedColorType::L16, &bytes)
}

fn uniform(n: usize, pixel: &[u8]) -> Vec<u8> {
    pixel.iter().copied().cycle().take(n * pixel.len()).collect()
}

#[test]
fn package_validation_rejects_wrong_map_color_type() {
    let png = encode_png(8, 8, image::ExtendedColorType::L8, &[128u8; 64]);
    let err = validate_png_map_bytes(&png, 8, "maps/height_u16.png").unwrap_err();
    assert_eq!(err, MapFileError::ColorType { expected: MapColorType::L16, actual: MapColorType::L8 });
    assert_eq!(color_type_label(MapColorType::L16), "L16");
}

#[test]
fn height_map_reports_its_sixteen_bit_range() {
    let values: Vec<u16> = (0..16u16).map(|i| 1000 + i * 3000).collect();
    let png = l16_png(4, 4, &values);
    let s = validate_png_map_bytes(&png, 4, "maps/height_u16.png").unwrap();
    assert_eq!((s.width, s.height, s.color, s.channels), (4, 4, MapColorType::L16, 1));
    assert_eq!(s.channel_min, vec![1000]);
    assert_eq!(s.channel_max, vec![46000]);
}

#[test]
fn rgba_map_reports_each_channel_range() {
    let mut data = uniform(4, &[10, 20, 30, 40]);
    data[4..8].copy_from_slice(&[5, 200, 31, 0]);
    let png = encode_png(2, 2, image::ExtendedColorType::Rgba8, &data);
    let s = validate_png_map_bytes(&png, 2, "maps/masks_rgba.png").unwrap();
    assert_eq!((s.color, s.channels), (MapColorType::Rgba8, 4));
    assert_eq!(s.channel_min, vec![5, 20, 30, 0]);
    assert_eq!(s.channel_max, vec![10, 200, 31, 40]);
}

#[test]
fn map_of_wrong_size_is_rejected_before_its_format() {
    let png = encode_png(4, 2, image::ExtendedColorType::L8, &[0u8; 8]);
    assert_eq!(
        validate_png_map_bytes(&png, 4, "maps/height_u16.png"),
        Err(MapFileError::Dimensions { expected: 4, width: 4, height: 2 })
    );
}

#[test]
fn unsupported_map_format_is_rejected() {
    let png = encode_png(2, 2, image::ExtendedColorType::La8, &[1u8; 8]);
    assert_eq!(
        validate_png_map_bytes(&png, 2, "maps/extra.png"),
        Err(MapFileError::UnsupportedColorType { actual: MapColorType::La8 })
    );
}

#[test]
fn undecodable_map_is_rejected() {
    assert_eq!(validate_png_map_bytes(b"not a png", 2, "maps/extra.png"), Err(MapFileError::Decode));
}

#[test]
fn color_types_are_told_apart_by_channels_and_bytes_per_pixel() {
    assert_eq!(map_color_type(1, 1), MapColorType::L8);
    assert_eq!(map_color_type(1, 2), MapColorType::L16);
    assert_eq!(map_color_type(2, 4), MapColorType::La16);
    assert_eq!(map_color_type(4, 16), MapColorType::Rgba32F);
    assert_eq!(map_color_type(2, 3), MapColorType::Other);
}

fn paired_normals() -> (Vec<u8>, Vec<u8>) {
    let plus = uniform(64, &[120, 200, 250]);
    let minus = uniform(64, &[120, 55, 250]);
    (
        encode_png(8, 8, image::ExtendedColorType::Rgb8, &plus),
        encode_png(8, 8, image::ExtendedColorType::Rgb8, &minus),
    )
}

fn masks_and_density(density_value: u8) -> (Vec<u8>, Vec<u8>) {
    let masks = uniform(64, &[90, 1, 2, 3]);
    (
        encode_png(8, 8, image::ExtendedColorType::Rgba8, &masks),
        encode_png(8, 8, image::ExtendedColorType::L8, &[density_value; 64]),
    )
}

#[test]
fn baked_map_files_that_agree_pass() {
    let (plus, minus) = paired_normals();
    let (masks, density) = masks_and_density(90);
    let s = map_relationships_from_files(("maps/normal_yplus.png", &plus[..]), ("maps/normal_yminus.png", &minus[..]), ("maps/masks_rgba.png", &masks[..]), ("maps/grass_density.png", &density[..])).unwrap();
    assert_eq!(s.normal_pair_pixels, 64);
    assert_eq!(s.normal_green_flip_max_error, 0);
    assert_eq!(s.grass_density_pixels, 64);
    assert_eq!(s.grass_density_mask_r_mismatches, 0);
}

#[test]
fn package_validation_rejects_mismatched_normal_convention_maps() {
    let (plus, _) = paired_normals();
    let (masks, density) = masks_and_density(90);
    assert_eq!(
        map_relationships_from_files(("maps/normal_yplus.png", &plus[..]), ("maps/normal_yminus.png", &plus[..]), ("maps/masks_rgba.png", &masks[..]), ("maps/grass_density.png", &density[..])),
        Err(MapRelationshipError::NormalConvention {
            red_blue_mismatches: 0,
            green_flip_mismatches: 64,
            max_green_error: 145,
        })
    );
}

#[test]
fn package_validation_rejects_mismatched_grass_density_map() {
    let (plus, minus) = paired_normals();
    let (masks, density) = masks_and_density(91);
    assert_eq!(
        map_relationships_from_files(("maps/normal_yplus.png", &plus[..]), ("maps/normal_yminus.png", &minus[..]), ("maps/masks_rgba.png", &masks[..]), ("maps/grass_density.png", &density[..])),
        Err(MapRelationshipError::GrassDensityMismatch { mismatches: 64 })
    );
}

#[test]
fn undecodable_baked_maps_are_named() {
    let (plus, minus) = paired_normals();
    let (masks, density) = masks_and_density(90);
    assert_eq!(
        map_relationships_from_files(("maps/normal_yplus.png", &b"x"[..]), ("maps/normal_yminus.png", &minus[..]), ("maps/masks_rgba.png", &masks[..]), ("maps/grass_density.png", &density[..])),
        Err(MapRelationshipError::Decode { map: BakedMap::NormalYPlus })
    );
    assert_eq!(
        map_relationships_from_files(("maps/normal_yplus.png", &plus[..]), ("maps/normal_yminus.png", &minus[..]), ("maps/masks_rgba.png", &masks[..]), ("maps/grass_density.png", &b"x"[..])),
        Err(MapRelationshipError::Decode { map: BakedMap::GrassDensity })
    );
    // The normal pair is compared before the masks are decoded.
    assert!(matches!(
        map_relationships_from_files(("maps/normal_yplus.png", &plus[..]), ("maps/normal_yminus.png", &plus[..]), ("maps/masks_rgba.png", &b"x"[..]), ("maps/grass_density.png", &b"x"[..])),
        Err(MapRelationshipError::NormalConvention { .. })
    ));
}

#[test]
fn baked_maps_are_converted_before_comparison() {
    // A grey density map stored as RGB8 still reads as its luma.
    let (plus, minus) = paired_normals();
    let (masks, _) = masks_and_density(90);
    let density = encode_png(8, 8, image::ExtendedColorType::Rgb8, &uniform(64, &[90, 90, 90]));
    let s = map_relationships_from_files(("maps/normal_yplus.png", &plus[..]), ("maps/normal_yminus.png", &minus[..]), ("maps/masks_rgba.png", &masks[..]), ("maps/grass_density.png", &density[..])).unwrap();
    assert_eq!(s.grass_density_pixels, 64);
}

#[test]
fn map_format_follows_the_file_extension() {
    let png = encode_png(2, 2, image::ExtendedColorType::L8, &[7u8; 4]);
    assert!(validate_png_map_bytes(&png, 2, "maps/extra.PNG").is_ok());
    assert_eq!(validate_png_map_bytes(&png, 2, "maps/extra.bmp"), Err(MapFileError::Decode));
    assert_eq!(validate_png_map_bytes(&png, 2, "maps/extra"), Err(MapFileError::Decode));
    let (plus, minus) = paired_normals();
    let (masks, density) = masks_and_density(90);
    assert_eq!(
        map_relationships_from_files(
            ("maps/normal_yplus.png", &plus[..]),
            ("maps/normal_yminus.jpg", &minus[..]),
            ("maps/masks_rgba.png", &masks[..]),
            ("maps/grass_density.png", &density[..]),
        ),
        Err(MapRelationshipError::Decode { map: BakedMap::NormalYMinus })
    );
}

#[test]
fn decoded_map_summary_reports_ranges() {
    let samples = [3u32, 9, 200, 4, 1, 250];
    let s = png_map_summary(2, 1, 3, 3, &samples, 2, "maps/other.png");
    assert_eq!(
        s,
        Err(MapFileError::Dimensions { expected: 2, width: 2, height: 1 })
    );
    let s = png_map_summary(1, 1, 3, 3, &samples[..3], 1, "maps/normal_yplus.png").unwrap();
    assert_eq!((s.color, s.channels), (MapColorType::Rgb8, 3));
    assert_eq!(s.channel_min, vec![3, 9, 200]);
    assert_eq!(s.channel_max, vec![3, 9, 200]);
    assert_eq!(
        png_map_summary(1, 1, 1, 2, &[60000], 1, "maps/normal_yplus.png"),
        Err(MapFileError::ColorType { expected: MapColorType::Rgb8, actual: MapColorType::L16 })
    );
    assert_eq!(
        png_map_summary(1, 1, 4, 8, &[0; 8], 1, "maps/other.png"),
        Err(MapFileError::UnsupportedColorType { actual: MapColorType::Rgba16 })
    );
}
