use midori_core::manifest::{
    nature_engine_import_recipes, nature_map_channels, nature_material_parameters,
    nature_material_recipes, nature_material_slots, nature_surface_overlays,
    scatter_binary_format_manifest, EngineGroundcoverImportRecipe, MaterialRecipeFile,
    NormalConventions,
};
use midori_core::footprint::estimated_memory_footprint;
use midori_core::package::GroundcoverKind;
use midori_core::package_contract::{
    ManifestContract, PrototypeEntry, PrototypeLodEntry, ScatterBinaryFileEntry, ScatterEntry,
};
use midori_core::recipe_files::{
    check_engine_recipe_settings, check_engine_recipe_sources, check_recipe_contents,
    check_recipe_requirements, expected_engine_import_source_files, find_set_for_slot,
    lod0_prototype_count, manifest_scatter_instance_count, material_recipe_file_for_slot,
    material_recipe_files, same_strings, EngineRecipeFileEntry, EngineRecipeFileError,
    RecipeFileError,
};

use midori_core::manifest::{UnityImportHints, UnrealImportHints};
use midori_core::recipe_writer::{
    engine_import_recipe_file, material_recipe_file, EngineRecipeBuildError,
    MaterialRecipeBuildError,
};

fn strings(items: &[&str]) -> Vec<String> {
    items.iter().map(|s| s.to_string()).collect()
}

fn terrain_recipe_file() -> MaterialRecipeFile {
    let sets = nature_material_parameters("0.35", "1.2", "45", "0.5", "40", "60");
    MaterialRecipeFile {
        schema: "midori.material_recipe.v1".to_string(),
        material_slot: "terrain_surface".to_string(),
        parameter_set: "midori_terrain_static_v1".to_string(),
        runtime_policy: "engine_native_static".to_string(),
        shader_policy: "preview_only".to_string(),
        texture_pipeline: "parked".to_string(),
        engine_targets: strings(&["unity_terrain_material", "unreal_landscape_material"]),
        parameters: sets[0].parameters.iter().rev().cloned().collect(),
        required_textures: strings(&["maps/height_u16.png", "maps/masks_rgba.png"]),
        required_vertex_streams: vec![],
        surface_overlays: strings(&["moss", "wetness", "cracks"]),
        notes: vec![],
    }
}

fn groundcover_recipe_file() -> MaterialRecipeFile {
    let sets = nature_material_parameters("0.35", "1.2", "45", "0.5", "40", "60");
    MaterialRecipeFile {
        schema: "midori.material_recipe.v1".to_string(),
        material_slot: "groundcover_foliage".to_string(),
        parameter_set: "midori_groundcover_foliage_static_v1".to_string(),
        runtime_policy: "engine_native_static".to_string(),
        shader_policy: "preview_only".to_string(),
        texture_pipeline: "parked".to_string(),
        engine_targets: strings(&["unity_detail_mesh_material", "unreal_static_mesh_foliage_material"]),
        parameters: sets[1].parameters.clone(),
        required_textures: vec![],
        required_vertex_streams: strings(&["TEXCOORD_1.xy wind", "COLOR_0.y variation"]),
        surface_overlays: vec![],
        notes: vec![],
    }
}

#[test]
fn material_recipe_files_agree_with_the_manifest() {
    let sets = nature_material_parameters("0.35", "1.2", "45", "0.5", "40", "60");
    let recipes = nature_material_recipes();
    let terrain = terrain_recipe_file();
    assert_eq!(check_recipe_contents(&terrain, &recipes[0], &sets), Ok(()));
    assert_eq!(check_recipe_requirements(&terrain), Ok(()));
    let groundcover = groundcover_recipe_file();
    assert_eq!(check_recipe_contents(&groundcover, &recipes[1], &sets), Ok(()));
    assert_eq!(check_recipe_requirements(&groundcover), Ok(()));
}

#[test]
fn material_recipe_file_mismatches() {
    let sets = nature_material_parameters("0.35", "1.2", "45", "0.5", "40", "60");
    let recipes = nature_material_recipes();
    let mut r = terrain_recipe_file();
    r.schema = "midori.material_recipe.v2".to_string();
    assert_eq!(check_recipe_contents(&r, &recipes[0], &sets), Err(RecipeFileError::Schema));
    assert_eq!(
        check_recipe_contents(&terrain_recipe_file(), &recipes[1], &sets),
        Err(RecipeFileError::SlotMismatch)
    );
    let mut r = terrain_recipe_file();
    r.engine_targets.reverse();
    assert_eq!(check_recipe_contents(&r, &recipes[0], &sets), Err(RecipeFileError::EngineTargets));
    let mut r = terrain_recipe_file();
    r.parameter_set = "other".to_string();
    assert_eq!(
        check_recipe_contents(&r, &recipes[0], &sets),
        Err(RecipeFileError::ParameterSetMismatch)
    );
    let mut r = terrain_recipe_file();
    r.parameters.pop();
    assert_eq!(check_recipe_contents(&r, &recipes[0], &sets), Err(RecipeFileError::ParameterNames));
    let r = terrain_recipe_file();
    assert_eq!(check_recipe_contents(&r, &recipes[0], &sets[1..].to_vec()), Err(RecipeFileError::NoParameterSet));
}

#[test]
fn material_recipe_requirements_per_slot() {
    let mut r = terrain_recipe_file();
    r.required_textures.retain(|t| t != "maps/masks_rgba.png");
    assert_eq!(check_recipe_requirements(&r), Err(RecipeFileError::MissingMasksTexture));
    let mut r = terrain_recipe_file();
    r.surface_overlays.retain(|o| o != "wetness");
    assert_eq!(check_recipe_requirements(&r), Err(RecipeFileError::MissingOverlay { overlay: 1 }));
    let mut r = groundcover_recipe_file();
    r.required_vertex_streams = strings(&["TEXCOORD_1.xy wind"]);
    assert_eq!(check_recipe_requirements(&r), Err(RecipeFileError::MissingVertexStream { stream: 1 }));
    let mut r = groundcover_recipe_file();
    r.material_slot = "water".to_string();
    r.required_vertex_streams.clear();
    assert_eq!(check_recipe_requirements(&r), Ok(()));
}

#[test]
fn first_parameter_set_for_a_slot() {
    let sets = nature_material_parameters("a", "b", "c", "d", "e", "f");
    assert_eq!(find_set_for_slot(&sets, "groundcover_foliage"), Some(1));
    assert_eq!(find_set_for_slot(&sets, "terrain_surface"), Some(0));
    assert_eq!(find_set_for_slot(&sets, "water"), None);
}

fn small_manifest() -> ManifestContract {
    let lod = |index: u32, file: &str| PrototypeLodEntry {
        index,
        file: file.to_string(),
        vertex_count: 8,
        triangle_count: 4,
        bounds_ordered: true,
    };
    ManifestContract {
        schema_version: 3,
        generator: "midori".to_string(),
        asset_name: "Patch".to_string(),
        tile_size_positive: true,
        map_resolution: 16,
        memory_footprint: estimated_memory_footprint(16, true, 2, 7),
        heightmap_file: "maps/height_u16.png".to_string(),
        masks_file: "maps/masks_rgba.png".to_string(),
        grass_density_file: "maps/grass_density.png".to_string(),
        terrain_bounds_valid: true,
        height_range_valid: true,
        unit_scale_positive: true,
        up_axis: "Y".to_string(),
        map_channels: nature_map_channels(),
        normal_conventions: NormalConventions {
            unity_yplus_file: "maps/normal_yplus.png".to_string(),
            unreal_yminus_file: "maps/normal_yminus.png".to_string(),
        },
        material_slots: nature_material_slots(true),
        material_parameters: nature_material_parameters("1", "1", "0", "1", "10", "20"),
        material_recipes: nature_material_recipes(),
        engine_import_recipes: nature_engine_import_recipes(),
        surface_overlays: nature_surface_overlays(),
        prototypes: vec![
            PrototypeEntry {
                name: "Grass".to_string(),
                kind: GroundcoverKind::Grass,
                surface_targets: strings(&["groundcover_foliage"]),
                lods: vec![lod(0, "prototypes/grass_lod0.glb"), lod(1, "prototypes/grass_lod1.glb")],
            },
            PrototypeEntry {
                name: "Pebble".to_string(),
                kind: GroundcoverKind::Rock,
                surface_targets: strings(&["static_surface", "rock"]),
                lods: vec![lod(1, "prototypes/pebble_lod1.glb")],
            },
        ],
        scatter: ScatterEntry {
            enabled: true,
            chunk_size_positive: true,
            json_file: None,
            binary_files: vec![
                ScatterBinaryFileEntry {
                    file: "instances/binary/grass_grass_0_0.bin".to_string(),
                    instance_count: 5,
                    bounds_valid: true,
                },
                ScatterBinaryFileEntry {
                    file: "instances/binary/grass_grass_0_0.bin".to_string(),
                    instance_count: 2,
                    bounds_valid: true,
                },
            ],
            binary_format: scatter_binary_format_manifest(),
        },
        shader_policy: "preview_only".to_string(),
        texture_pipeline: "parked".to_string(),
        unity_normal_map: "maps/normal_yplus.png".to_string(),
        unreal_normal_map: "maps/normal_yminus.png".to_string(),
    }
}

#[test]
fn engine_source_files_are_sorted_and_distinct() {
    let m = small_manifest();
    let unity = expected_engine_import_source_files(&m, "unity");
    assert_eq!(
        unity,
        strings(&[
            "engines/unity_import.recipe.json",
            "engines/unreal_import.recipe.json",
            "instances/binary/grass_grass_0_0.bin",
            "maps/grass_density.png",
            "maps/height_u16.png",
            "maps/masks_rgba.png",
            "maps/normal_yplus.png",
            "materials/groundcover_foliage.recipe.json",
            "materials/terrain_surface.recipe.json",
            "midori_nature.json",
            "preview_tile.glb",
            "prototypes/grass_lod0.glb",
            "prototypes/grass_lod1.glb",
            "prototypes/pebble_lod1.glb",
        ])
    );
    let unreal = expected_engine_import_source_files(&m, "unreal");
    assert!(unreal.contains(&"maps/normal_yminus.png".to_string()));
    assert!(!unreal.contains(&"maps/normal_yplus.png".to_string()));
    let mut sorted = unreal.clone();
    sorted.sort();
    sorted.dedup();
    assert_eq!(sorted, unreal);
}

#[test]
fn manifest_counts_for_engine_recipes() {
    let m = small_manifest();
    assert_eq!(lod0_prototype_count(&m), 1);
    assert_eq!(manifest_scatter_instance_count(&m), 7);
    assert_eq!(
        material_recipe_files(&m),
        strings(&["materials/terrain_surface.recipe.json", "materials/groundcover_foliage.recipe.json"])
    );
    assert_eq!(
        material_recipe_file_for_slot(&m, "groundcover_foliage"),
        Some("materials/groundcover_foliage.recipe.json".to_string())
    );
    assert_eq!(material_recipe_file_for_slot(&m, "water"), None);
    assert!(same_strings(&strings(&["a", "b"]), &strings(&["a", "b"])));
    assert!(!same_strings(&strings(&["a", "b"]), &strings(&["b", "a"])));
}

fn unity_recipe(m: &ManifestContract) -> EngineRecipeFileEntry {
    EngineRecipeFileEntry {
        schema: "midori.engine_import_recipe.v1".to_string(),
        engine: "unity".to_string(),
        profile: "mobile".to_string(),
        runtime_policy: "engine_native_static".to_string(),
        expected_systems: m.engine_import_recipes[0].expected_systems.clone(),
        source_files: expected_engine_import_source_files(m, "unity"),
        material_recipe_files: material_recipe_files(m),
        terrain_heightmap_file: "maps/height_u16.png".to_string(),
        terrain_mask_file: "maps/masks_rgba.png".to_string(),
        terrain_normal_map_file: "maps/normal_yplus.png".to_string(),
        groundcover: EngineGroundcoverImportRecipe {
            target_system: "Unity terrain details".to_string(),
            prototype_source: "prototypes".to_string(),
            material_slot: "groundcover_foliage".to_string(),
            material_recipe_file: "materials/groundcover_foliage.recipe.json".to_string(),
            prototype_family_count: 2,
            lod0_prototype_count: 1,
            double_sided: true,
            alpha_mode: "masked".to_string(),
        },
        scatter_binary_chunk_count: 2,
        scatter_instance_count: 7,
    }
}

#[test]
fn engine_recipe_files_agree_with_the_manifest() {
    let m = small_manifest();
    let r = unity_recipe(&m);
    assert_eq!(check_engine_recipe_sources(&r, &m.engine_import_recipes[0], &m), Ok(()));
    assert_eq!(check_engine_recipe_settings(&r, &m, true, true, true), Ok(()));
}

#[test]
fn engine_recipe_file_mismatches() {
    let m = small_manifest();
    let manifest_recipe = &m.engine_import_recipes[0];
    let mut r = unity_recipe(&m);
    r.source_files.reverse();
    assert_eq!(
        check_engine_recipe_sources(&r, manifest_recipe, &m),
        Err(EngineRecipeFileError::SourceFiles)
    );
    let mut r = unity_recipe(&m);
    r.profile = "console".to_string();
    assert_eq!(
        check_engine_recipe_sources(&r, manifest_recipe, &m),
        Err(EngineRecipeFileError::ProfileMismatch)
    );
    let r = unity_recipe(&m);
    assert_eq!(
        check_engine_recipe_settings(&r, &m, false, true, true),
        Err(EngineRecipeFileError::ProfileSettings)
    );
    let mut r = unity_recipe(&m);
    r.terrain_normal_map_file = "maps/normal_yminus.png".to_string();
    assert_eq!(
        check_engine_recipe_settings(&r, &m, true, true, true),
        Err(EngineRecipeFileError::TerrainFiles)
    );
    let mut r = unity_recipe(&m);
    r.groundcover.lod0_prototype_count = 2;
    assert_eq!(
        check_engine_recipe_settings(&r, &m, true, true, true),
        Err(EngineRecipeFileError::Groundcover)
    );
    let mut r = unity_recipe(&m);
    r.scatter_instance_count = 8;
    assert_eq!(
        check_engine_recipe_settings(&r, &m, true, true, true),
        Err(EngineRecipeFileError::Scatter)
    );
    let mut r = unity_recipe(&m);
    r.engine = "godot".to_string();
    assert_eq!(
        check_engine_recipe_settings(&r, &m, true, true, true),
        Err(EngineRecipeFileError::UnsupportedEngine)
    );
}

fn unity_hints() -> UnityImportHints {
    UnityImportHints {
        terrain_heightmap: "maps/height_u16.png".to_string(),
        detail_density_map: "maps/grass_density.png".to_string(),
        normal_map: "maps/normal_yplus.png".to_string(),
        detail_mode: "instanced_mesh".to_string(),
        detail_batch_max_instances: 1023,
    }
}

fn unreal_hints() -> UnrealImportHints {
    UnrealImportHints {
        landscape_heightmap: "maps/height_u16.png".to_string(),
        landscape_weightmap: "maps/masks_rgba.png".to_string(),
        normal_map: "maps/normal_yminus.png".to_string(),
        foliage_mode: "static_mesh_foliage".to_string(),
        static_mesh_pipeline: "glb".to_string(),
    }
}

#[test]
fn written_engine_recipes_pass_the_importer_checks() {
    let m = small_manifest();
    for recipe in &m.engine_import_recipes {
        let draft = engine_import_recipe_file(&m, recipe, &unity_hints(), &unreal_hints()).unwrap();
        assert_eq!(check_engine_recipe_sources(&draft.entry, recipe, &m), Ok(()));
        assert_eq!(check_engine_recipe_settings(&draft.entry, &m, true, true, true), Ok(()));
        assert_eq!(draft.entry.groundcover.material_slot, "groundcover_foliage");
        assert_eq!(draft.entry.groundcover.prototype_family_count, 2);
        assert_eq!(draft.entry.groundcover.lod0_prototype_count, 1);
        assert_eq!(draft.entry.scatter_instance_count, 7);
        assert_eq!(draft.notes.len(), 2);
        assert_eq!(draft.scatter_json_file, "");
    }
    let unity = engine_import_recipe_file(&m, &m.engine_import_recipes[0], &unity_hints(), &unreal_hints())
        .unwrap();
    assert_eq!(unity.terrain_target_system, "Unity TerrainData");
    assert_eq!(unity.density_map_file, "maps/grass_density.png");
    assert_eq!(unity.profile_name, "mobile");
    assert_eq!(unity.entry.groundcover.target_system, "Unity Terrain detail mesh prefabs");
    let unreal = engine_import_recipe_file(&m, &m.engine_import_recipes[1], &unity_hints(), &unreal_hints())
        .unwrap();
    assert_eq!(unreal.terrain_target_system, "Unreal Landscape");
    assert_eq!(unreal.entry.terrain_normal_map_file, "maps/normal_yminus.png");
    assert_eq!(unreal.profile_name, "console");
    assert_eq!(unreal.placement_source, "midori.scatter.bin.v1 foliage placement buffers");
}

#[test]
fn engine_recipe_writer_errors() {
    let mut m = small_manifest();
    let mut recipe = m.engine_import_recipes[0].clone();
    recipe.engine = "godot".to_string();
    assert_eq!(
        engine_import_recipe_file(&m, &recipe, &unity_hints(), &unreal_hints()).unwrap_err(),
        EngineRecipeBuildError::UnsupportedEngine
    );
    let recipe = m.engine_import_recipes[0].clone();
    m.material_recipes.retain(|r| r.material_slot != "groundcover_foliage");
    assert_eq!(
        engine_import_recipe_file(&m, &recipe, &unity_hints(), &unreal_hints()).unwrap_err(),
        EngineRecipeBuildError::MissingGroundcoverRecipe
    );
    m.material_slots.retain(|s| s.name != "groundcover_foliage");
    assert_eq!(
        engine_import_recipe_file(&m, &recipe, &unity_hints(), &unreal_hints()).unwrap_err(),
        EngineRecipeBuildError::MissingGroundcoverSlot
    );
}

#[test]
fn written_material_recipes_pass_the_importer_checks() {
    let m = small_manifest();
    for recipe in &m.material_recipes {
        let file = material_recipe_file(&m, recipe).unwrap();
        assert_eq!(check_recipe_contents(&file, recipe, &m.material_parameters), Ok(()));
        assert_eq!(check_recipe_requirements(&file), Ok(()));
    }
    let terrain = material_recipe_file(&m, &m.material_recipes[0]).unwrap();
    assert_eq!(terrain.required_textures, strings(&["maps/masks_rgba.png"]));
    assert_eq!(terrain.surface_overlays, strings(&["moss", "wetness", "cracks"]));
    assert_eq!(terrain.parameter_set, "midori_terrain_static_v1");
    assert_eq!(terrain.notes.len(), 2);
    let groundcover = material_recipe_file(&m, &m.material_recipes[1]).unwrap();
    assert_eq!(groundcover.required_vertex_streams.len(), 6);
    assert_eq!(groundcover.required_vertex_streams[0], "TEXCOORD_1.x phase_radians");
    assert!(groundcover.surface_overlays.is_empty());
    assert_eq!(groundcover.notes.len(), 3);
}

#[test]
fn material_recipe_writer_needs_a_parameter_set() {
    let mut m = small_manifest();
    let recipe = m.material_recipes[0].clone();
    m.material_parameters.clear();
    assert_eq!(
        material_recipe_file(&m, &recipe).unwrap_err(),
        MaterialRecipeBuildError::NoParameterSet
    );
}
