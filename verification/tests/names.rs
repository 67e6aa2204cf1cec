use midori_core::glb::{lod_node_name, sanitize_name, scene_name};
use midori_core::package::{
    groundcover_kind_filename, layer_seed, prototype_lod_filename, sanitize_filename,
    scatter_binary_relative_path, splitmix64, validate_package_relative_path, GroundcoverKind,
    PackagePathError,
};

#[test]
fn filenames_are_lowercase_with_single_underscores() {
    assert_eq!(sanitize_filename("Tall Grass!"), "tall_grass");
    assert_eq!(sanitize_filename("  Moss -- Tuft 2 "), "moss_tuft_2");
    assert_eq!(sanitize_filename("ABC"), "abc");
}

#[test]
fn filenames_without_letters_fall_back_to_asset() {
    assert_eq!(sanitize_filename(""), "asset");
    assert_eq!(sanitize_filename("__ --"), "asset");
    assert_eq!(sanitize_filename("éü"), "asset");
}

#[test]
fn prototype_lod_files_carry_the_lod_index() {
    assert_eq!(prototype_lod_filename("Meadow Grass", 0), "meadow_grass_lod0.glb");
    assert_eq!(prototype_lod_filename("Rock", 12), "rock_lod12.glb");
}

#[test]
fn binary_scatter_paths_name_layer_kind_and_chunk() {
    assert_eq!(
        scatter_binary_relative_path("Meadow Grass", GroundcoverKind::Grass, -1, 2),
        "instances/binary/meadow_grass_grass_-1_2.bin"
    );
    assert_eq!(
        scatter_binary_relative_path("", GroundcoverKind::Log, 0, -30),
        "instances/binary/asset_log_0_-30.bin"
    );
}

#[test]
fn every_kind_has_its_file_stem() {
    let kinds = [
        (GroundcoverKind::Grass, "grass"),
        (GroundcoverKind::Moss, "moss"),
        (GroundcoverKind::Flower, "flower"),
        (GroundcoverKind::Weed, "weed"),
        (GroundcoverKind::Litter, "litter"),
        (GroundcoverKind::Shrub, "shrub"),
        (GroundcoverKind::Rock, "rock"),
        (GroundcoverKind::Log, "log"),
    ];
    for (kind, stem) in kinds {
        assert_eq!(groundcover_kind_filename(kind), stem);
    }
}

#[test]
fn layer_seeds_are_distinct_per_kind() {
    assert_eq!(layer_seed(GroundcoverKind::Grass), 0x100);
    assert_eq!(layer_seed(GroundcoverKind::Log), 0x800);
    assert_ne!(layer_seed(GroundcoverKind::Moss), layer_seed(GroundcoverKind::Rock));
}

#[test]
fn package_splitmix_matches_reference() {
    assert_eq!(splitmix64(0), 0xe220a8397b1dcdaf);
}

#[test]
fn package_paths_must_stay_inside_the_package() {
    assert_eq!(validate_package_relative_path("maps/height_u16.png"), Ok(()));
    assert_eq!(validate_package_relative_path("./a/b.bin"), Ok(()));
    assert_eq!(validate_package_relative_path("a/..b/c"), Ok(()));
    assert_eq!(validate_package_relative_path(""), Err(PackagePathError::Empty));
    assert_eq!(validate_package_relative_path("/etc/passwd"), Err(PackagePathError::Absolute));
    assert_eq!(validate_package_relative_path("../x"), Err(PackagePathError::EscapesPackage));
    assert_eq!(validate_package_relative_path("a/../b"), Err(PackagePathError::EscapesPackage));
    assert_eq!(validate_package_relative_path("a/.."), Err(PackagePathError::EscapesPackage));
}

#[test]
fn scene_names_default_to_tree() {
    assert_eq!(scene_name(None), "Tree");
    assert_eq!(scene_name(Some("")), "Tree");
    assert_eq!(scene_name(Some("Quercus robur")), "Quercus robur");
}

#[test]
fn node_names_keep_case_and_collapse_separators() {
    assert_eq!(sanitize_name("Quercus  robur (Oak)"), "Quercus_robur_Oak");
    assert_eq!(sanitize_name("!!"), "Tree");
    assert_eq!(lod_node_name(Some("English Oak"), 2), "English_Oak_LOD2");
    assert_eq!(lod_node_name(None, 0), "Tree_LOD0");
}
