use midori_core::contract::{
    EngineRecipeFault, ManifestError, ManifestFileField, OverlayFault, ParameterSetFault,
    RecipeFault,
};
use midori_core::footprint::{estimated_memory_footprint, FootprintMismatch};
use midori_core::manifest::{
    nature_engine_import_recipes, nature_map_channels, nature_material_parameters,
    nature_material_recipes, nature_material_slots, nature_surface_overlays,
    prototype_surface_targets, scatter_binary_format_manifest, NormalConventions,
};
use midori_core::package::{prototype_lod_filename, GroundcoverKind};
use midori_core::package_contract::{
    ManifestContract, PrototypeEntry, PrototypeLodEntry, ScatterBinaryFileEntry, ScatterEntry,
};

fn prototype(name: &str, kind: GroundcoverKind) -> PrototypeEntry {
    let lods = (0..3u32)
        .map(|index| PrototypeLodEntry {
            index,
            file: format!("prototypes/{}", prototype_lod_filename(name, index)),
            vertex_count: 48 >> index,
            triangle_count: 32 >> index,
            bounds_ordered: true,
        })
        .collect();
    PrototypeEntry {
        name: name.to_string(),
        kind,
        surface_targets: prototype_surface_targets(kind),
        lods,
    }
}

fn binary_file(file: &str, instance_count: usize) -> ScatterBinaryFileEntry {
    ScatterBinaryFileEntry { file: file.to_string(), instance_count, bounds_valid: true }
}

/// A manifest laid out as the exporter writes it for a 64x64 patch with
/// grass, moss, rock and log layers.
fn exported_manifest() -> ManifestContract {
    let binary_files = vec![
        binary_file("instances/binary/meadow_grass_grass_0_0.bin", 40),
        binary_file("instances/binary/meadow_grass_grass_1_0.bin", 35),
        binary_file("instances/binary/moss_moss_0_0.bin", 12),
        binary_file("instances/binary/stones_rock_0_0.bin", 3),
    ];
    ManifestContract {
        schema_version: 3,
        generator: "midori".to_string(),
        asset_name: "Meadow Patch".to_string(),
        tile_size_positive: true,
        map_resolution: 64,
        memory_footprint: estimated_memory_footprint(64, true, 4, 90),
        heightmap_file: "maps/height_u16.png".to_string(),
        masks_file: "maps/masks_rgba.png".to_string(),
        grass_density_file: "maps/grass_density.png".to_string(),
        terrain_bounds_valid: true,
        height_range_valid: true,
        unit_scale_positive: true,
        up_axis: "Y".to_string(),
        map_channels: nature_map_channels(),
        normal_conventions: NormalConventions {
            unity_yplus_file: "maps/normal_yplus.png".to_string(),
            unreal_yminus_file: "maps/normal_yminus.png".to_string(),
        },
        material_slots: nature_material_slots(false),
        material_parameters: nature_material_parameters("0.35", "1.2", "45", "0.5", "40", "60"),
        material_recipes: nature_material_recipes(),
        engine_import_recipes: nature_engine_import_recipes(),
        surface_overlays: nature_surface_overlays(),
        prototypes: vec![
            prototype("Meadow Grass", GroundcoverKind::Grass),
            prototype("Moss", GroundcoverKind::Moss),
            prototype("Stones", GroundcoverKind::Rock),
            prototype("Fallen Log", GroundcoverKind::Log),
        ],
        scatter: ScatterEntry {
            enabled: true,
            chunk_size_positive: true,
            json_file: Some("instances/scatter.json".to_string()),
            binary_files,
            binary_format: scatter_binary_format_manifest(),
        },
        shader_policy: "preview_only".to_string(),
        texture_pipeline: "parked".to_string(),
        unity_normal_map: "maps/normal_yplus.png".to_string(),
        unreal_normal_map: "maps/normal_yminus.png".to_string(),
    }
}

#[test]
fn exported_manifest_validates() {
    assert_eq!(exported_manifest().validate(), Ok(()));
}

#[test]
fn manifest_validation_rejects_missing_required_map_channel() {
    let mut manifest = exported_manifest();
    manifest.map_channels.retain(|channel| channel.file != "masks_rgba.png");

    let err = manifest.validate().unwrap_err();
    assert_eq!(err, ManifestError::MissingCanonicalMaps);
}

#[test]
fn manifest_validation_rejects_missing_surface_overlay() {
    let mut manifest = exported_manifest();
    manifest.surface_overlays.retain(|overlay| overlay.name != "moss");

    let err = manifest.validate().unwrap_err();
    assert_eq!(err, ManifestError::MissingOverlay { overlay: 0 });
}

#[test]
fn manifest_validation_rejects_missing_material_parameter() {
    let mut manifest = exported_manifest();
    let groundcover = manifest
        .material_parameters
        .iter_mut()
        .find(|set| set.material_slot == "groundcover_foliage")
        .unwrap();
    groundcover.parameters.retain(|parameter| parameter.semantic != "wind_strength");

    let err = manifest.validate().unwrap_err();
    // slot 1 is groundcover_foliage, semantic 1 is wind_strength
    assert_eq!(err, ManifestError::MissingParameterSemantic { slot: 1, semantic: 1 });
}

#[test]
fn manifest_validation_rejects_missing_material_recipe() {
    let mut manifest = exported_manifest();
    manifest.material_recipes.retain(|recipe| recipe.material_slot != "groundcover_foliage");

    let err = manifest.validate().unwrap_err();
    assert_eq!(err, ManifestError::MissingRecipeSlot { slot: 1 });
}

#[test]
fn manifest_validation_rejects_missing_engine_import_recipe() {
    let mut manifest = exported_manifest();
    manifest.engine_import_recipes.retain(|recipe| recipe.engine != "unreal");

    let err = manifest.validate().unwrap_err();
    assert_eq!(err, ManifestError::MissingEngineRecipe { engine: 1 });
}

#[test]
fn manifest_validation_rejects_missing_prototype_surface_target() {
    let mut manifest = exported_manifest();
    let rock = manifest
        .prototypes
        .iter_mut()
        .find(|prototype| prototype.kind == GroundcoverKind::Rock)
        .unwrap();
    rock.surface_targets.retain(|target| target != "rock");

    let err = manifest.validate().unwrap_err();
    assert_eq!(err, ManifestError::PrototypeMissingTarget { index: 2, target: 1 });
}

#[test]
fn identity_fields_are_checked_first() {
    let mut m = exported_manifest();
    m.schema_version = 2;
    m.generator = String::new();
    assert_eq!(m.validate(), Err(ManifestError::SchemaVersion { found: 2 }));
    let mut m = exported_manifest();
    m.generator = " \t".to_string();
    assert_eq!(m.validate(), Err(ManifestError::EmptyGenerator));
    let mut m = exported_manifest();
    m.asset_name = String::new();
    assert_eq!(m.validate(), Err(ManifestError::EmptyAssetName));
    let mut m = exported_manifest();
    m.tile_size_positive = false;
    assert_eq!(m.validate(), Err(ManifestError::TileSize));
    let mut m = exported_manifest();
    m.map_resolution = 1;
    assert_eq!(m.validate(), Err(ManifestError::MapResolutionTooSmall));
}

#[test]
fn footprint_and_terrain_violations() {
    let mut m = exported_manifest();
    m.memory_footprint.total_payload_bytes += 1;
    assert_eq!(
        m.validate(),
        Err(ManifestError::Footprint { mismatch: FootprintMismatch::TotalPayloadBytes })
    );
    let mut m = exported_manifest();
    m.scatter.binary_files.pop();
    assert_eq!(
        m.validate(),
        Err(ManifestError::Footprint { mismatch: FootprintMismatch::ScatterBinaryHeaderBytes })
    );
    let mut m = exported_manifest();
    m.masks_file = String::new();
    assert_eq!(
        m.validate(),
        Err(ManifestError::EmptyFile { field: ManifestFileField::TerrainMasks })
    );
    let mut m = exported_manifest();
    m.height_range_valid = false;
    assert_eq!(m.validate(), Err(ManifestError::HeightRange));
    let mut m = exported_manifest();
    m.up_axis = "Z".to_string();
    assert_eq!(m.validate(), Err(ManifestError::UpAxis));
    let mut m = exported_manifest();
    m.material_slots.retain(|slot| slot.name != "groundcover_foliage");
    assert_eq!(m.validate(), Err(ManifestError::MissingGroundcoverSlot));
}

#[test]
fn material_parameter_set_faults() {
    let mut m = exported_manifest();
    m.material_parameters[1].runtime_policy = "dynamic".to_string();
    assert_eq!(
        m.validate(),
        Err(ManifestError::ParameterSet { index: 1, fault: ParameterSetFault::NotStatic })
    );
    let mut m = exported_manifest();
    m.material_parameters[0].material_slot = "water".to_string();
    assert_eq!(
        m.validate(),
        Err(ManifestError::ParameterSet { index: 0, fault: ParameterSetFault::UnknownSlot })
    );
    let mut m = exported_manifest();
    m.material_parameters[0].parameters[2].source = " ".to_string();
    assert_eq!(
        m.validate(),
        Err(ManifestError::ParameterSet { index: 0, fault: ParameterSetFault::IncompleteParameter })
    );
    let mut m = exported_manifest();
    m.material_parameters.remove(0);
    assert_eq!(m.validate(), Err(ManifestError::MissingParameterSlot { slot: 0 }));
}

#[test]
fn material_recipe_faults() {
    let mut m = exported_manifest();
    m.material_recipes[0].file = "recipes/terrain.json".to_string();
    assert_eq!(m.validate(), Err(ManifestError::Recipe { index: 0, fault: RecipeFault::Location }));
    let mut m = exported_manifest();
    m.material_recipes[1].engine_targets.retain(|t| !t.starts_with("unreal_"));
    assert_eq!(
        m.validate(),
        Err(ManifestError::Recipe { index: 1, fault: RecipeFault::MissingEngine })
    );
}

#[test]
fn the_last_recipe_for_an_engine_counts() {
    let mut m = exported_manifest();
    let mut extra = m.engine_import_recipes[0].clone();
    extra.profile = "console".to_string();
    m.engine_import_recipes.push(extra);
    assert_eq!(m.validate(), Err(ManifestError::EngineRecipeProfile { index: 2 }));
    let mut m = exported_manifest();
    m.engine_import_recipes[1].file = "engines/unreal.json".to_string();
    assert_eq!(
        m.validate(),
        Err(ManifestError::EngineRecipe { index: 1, fault: EngineRecipeFault::Location })
    );
}

#[test]
fn surface_overlay_faults() {
    let mut m = exported_manifest();
    m.surface_overlays[1].channel = "X".to_string();
    assert_eq!(m.validate(), Err(ManifestError::Overlay { index: 1, fault: OverlayFault::Channel }));
    let mut m = exported_manifest();
    m.surface_overlays[2].runtime_policy = "runtime".to_string();
    assert_eq!(m.validate(), Err(ManifestError::Overlay { index: 2, fault: OverlayFault::Policy }));
    let mut m = exported_manifest();
    m.surface_overlays[0].targets.retain(|t| t != "log");
    assert_eq!(m.validate(), Err(ManifestError::MossTarget { target: 2 }));
}

#[test]
fn prototype_lod_faults() {
    let mut m = exported_manifest();
    m.prototypes[3].lods[1].triangle_count = 0;
    assert_eq!(m.validate(), Err(ManifestError::PrototypeLodGeometry { index: 3, lod: 1 }));
    let mut m = exported_manifest();
    m.prototypes[0].lods[2].bounds_ordered = false;
    assert_eq!(m.validate(), Err(ManifestError::PrototypeLodBounds { index: 0, lod: 2 }));
    let mut m = exported_manifest();
    m.prototypes[1].lods.clear();
    assert_eq!(m.validate(), Err(ManifestError::PrototypeNoLods { index: 1 }));
    let mut m = exported_manifest();
    m.prototypes[1].name = String::new();
    assert_eq!(m.validate(), Err(ManifestError::EmptyPrototypeName { index: 1 }));
}

#[test]
fn scatter_faults() {
    let mut m = exported_manifest();
    m.scatter.binary_format.endian = "big".to_string();
    assert_eq!(m.validate(), Err(ManifestError::ScatterEndian));
    let mut m = exported_manifest();
    m.scatter.binary_format.record.swap(0, 1);
    assert_eq!(m.validate(), Err(ManifestError::ScatterFieldLayout));
    let mut m = exported_manifest();
    m.scatter.binary_files[2].bounds_valid = false;
    assert_eq!(m.validate(), Err(ManifestError::ScatterBinaryBounds { index: 2 }));
    let mut m = exported_manifest();
    m.scatter.enabled = false;
    m.scatter.binary_format.endian = "big".to_string();
    assert_eq!(m.validate(), Ok(()));
}

#[test]
fn runtime_policies_are_checked_last() {
    let mut m = exported_manifest();
    m.shader_policy = "lit".to_string();
    assert_eq!(m.validate(), Err(ManifestError::ShaderPolicy));
    let mut m = exported_manifest();
    m.unreal_normal_map = String::new();
    assert_eq!(
        m.validate(),
        Err(ManifestError::EmptyFile { field: ManifestFileField::UnrealNormalMap })
    );
}
