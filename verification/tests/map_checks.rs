use midori_core::map_checks::{
    channel_ranges, map_relationships, update_channel_range, MapRelationshipError,
};

#[test]
fn paired_maps_pass_with_summary() {
    let plus = [10u8, 200, 30, 40, 0, 60];
    let minus = [10u8, 55, 30, 40, 254, 60];
    let masks = [7u8, 1, 2, 3, 9, 4, 5, 6];
    let density = [7u8, 9];
    let s = map_relationships((2, 1, &plus), (2, 1, &minus), (2, 1, &masks), (2, 1, &density))
        .unwrap();
    assert_eq!(s.normal_pair_pixels, 2);
    assert_eq!(s.normal_red_blue_mismatches, 0);
    assert_eq!(s.normal_green_flip_mismatches, 0);
    assert_eq!(s.normal_green_flip_max_error, 1);
    assert_eq!(s.grass_density_pixels, 2);
    assert_eq!(s.grass_density_mask_r_mismatches, 0);
}

#[test]
fn mismatched_normal_conventions_are_reported() {
    let plus = [10u8, 200, 30];
    let minus = [11u8, 200, 30];
    let masks = [0u8; 4];
    let density = [0u8];
    assert_eq!(
        map_relationships((1, 1, &plus), (1, 1, &minus), (1, 1, &masks), (1, 1, &density)),
        Err(MapRelationshipError::NormalConvention {
            red_blue_mismatches: 1,
            green_flip_mismatches: 1,
            max_green_error: 145,
        })
    );
}

#[test]
fn map_dimension_mismatches_are_reported() {
    let plus = [0u8; 6];
    let minus = [0u8; 3];
    let masks = [0u8; 4];
    let density = [0u8; 2];
    assert_eq!(
        map_relationships((2, 1, &plus), (1, 1, &minus), (1, 1, &masks), (1, 1, &density[..1])),
        Err(MapRelationshipError::NormalDimensions {
            plus_width: 2,
            plus_height: 1,
            minus_width: 1,
            minus_height: 1,
        })
    );
    let paired = [0u8, 255, 0];
    assert_eq!(
        map_relationships((1, 1, &paired), (1, 1, &[0, 0, 0]), (1, 1, &masks), (2, 1, &density)),
        Err(MapRelationshipError::GrassDensityDimensions {
            density_width: 2,
            density_height: 1,
            mask_width: 1,
            mask_height: 1,
        })
    );
}

#[test]
fn grass_density_must_repeat_mask_red() {
    let paired = [0u8, 128, 0];
    let paired_minus = [0u8, 127, 0];
    let masks = [5u8, 0, 0, 0];
    assert_eq!(
        map_relationships((1, 1, &paired), (1, 1, &paired_minus), (1, 1, &masks), (1, 1, &[6])),
        Err(MapRelationshipError::GrassDensityMismatch { mismatches: 1 })
    );
}

#[test]
fn channel_ranges_track_each_channel() {
    let values = [5u32, 100, 7, 50, 3, 9];
    let (min, max) = channel_ranges(&values, 2);
    assert_eq!(min, vec![3, 9]);
    assert_eq!(max, vec![7, 100]);
    let (min, max) = channel_ranges(&[], 3);
    assert_eq!(min, vec![u32::MAX; 3]);
    assert_eq!(max, vec![0; 3]);
}

#[test]
fn update_channel_range_folds_one_pixel() {
    let mut min = vec![10u32, 10];
    let mut max = vec![10u32, 10];
    update_channel_range(&mut min, &mut max, &[4, 20]);
    assert_eq!(min, vec![4, 10]);
    assert_eq!(max, vec![10, 20]);
}
