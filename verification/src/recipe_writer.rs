//! Writing the static engine import recipe of a package from its manifest,
//! and why what is written passes the importer's checks.

use crate::contract::{first_where, lemma_first_where};
use crate::contract::any_with_prefix;
use crate::manifest::{
    texts, EngineGroundcoverImportRecipe, EngineImportRecipeManifest,
    MaterialParameterBindingManifest, MaterialRecipeFile,
    MaterialRecipeManifest, MaterialSlotManifest, SurfaceOverlayManifest, UnityImportHints,
    UnrealImportHints,
};
use crate::package_contract::{has_overlay, required_overlay, surface_overlays_check};
use crate::material_contract::static_policy;
use crate::package_contract::ManifestContract;
use crate::recipe_files::{
    engine_normal_map, engine_recipe_settings_check, engine_recipe_sources_check,
    expected_engine_import_source_files, expected_source_set, instance_total, lod0_count,
    lod0_prototype_count, manifest_scatter_instance_count, material_recipe_file_for_slot,
    material_recipe_files, recipe_file_for, recipe_files_of, EngineRecipeFileEntry,
    find_set_for_slot, parameter_names, recipe_contents_check, recipe_requirements_check,
    set_for_slot,
};
use crate::sorted_text::strictly_sorted;
use crate::text::{owned, str_eq};
use vstd::prelude::*;

verus! {

/// Why an engine import recipe cannot be written for a manifest.
#[derive(Debug, Clone, Copy, PartialEq, Eq, Structural)]
pub enum EngineRecipeBuildError {
    /// The manifest has no `groundcover_foliage` material slot.
    MissingGroundcoverSlot,
    /// No material recipe configures `groundcover_foliage`.
    MissingGroundcoverRecipe,
    /// The engine is neither unity nor unreal.
    UnsupportedEngine,
}

/// An engine import recipe file as written, but for its single-precision
/// settings (terrain size and height range, scatter chunk size, profile
/// distances), which are copied from the manifest and its profile.
#[derive(Debug, Clone)]
pub struct EngineRecipeDraft {
    /// What the importer checks of the file.
    pub entry: EngineRecipeFileEntry,
    /// Engine-native terrain system.
    pub terrain_target_system: String,
    /// Density map the terrain import uses.
    pub density_map_file: String,
    /// Where scatter placements come from.
    pub placement_source: String,
    /// The scatter JSON file (empty when none is written).
    pub scatter_json_file: String,
    /// Name of the profile whose settings the file carries.
    pub profile_name: String,
    /// Import notes.
    pub notes: Vec<String>,
}

/// Whether the `i`-th slot is named `name`.
pub open spec fn slot_named(slots: Seq<MaterialSlotManifest>, name: Seq<char>) -> spec_fn(
    int,
) -> bool {
    |i: int| slots[i].name@ == name
}

/// Index of the first `groundcover_foliage` material slot.
pub open spec fn groundcover_slot(m: ManifestContract) -> Option<int> {
    first_where(
        m.material_slots@.len(),
        slot_named(m.material_slots@, "groundcover_foliage"@),
    )
}

/// The engine is one an import recipe can be written for.
pub open spec fn supported_engine(engine: Seq<char>) -> bool {
    engine == "unity"@ || engine == "unreal"@
}

/// The error writing a recipe gives, if any, checked in order.
pub open spec fn engine_recipe_build_error(
    m: ManifestContract,
    recipe: EngineImportRecipeManifest,
) -> Option<EngineRecipeBuildError> {
    if groundcover_slot(m) is None {
        Some(EngineRecipeBuildError::MissingGroundcoverSlot)
    } else if recipe_file_for(m, "groundcover_foliage"@) is None {
        Some(EngineRecipeBuildError::MissingGroundcoverRecipe)
    } else if !supported_engine(recipe.engine@) {
        Some(EngineRecipeBuildError::UnsupportedEngine)
    } else {
        None
    }
}

/// Whether `d` is the recipe written for `recipe` of manifest `m`, with
/// the given engine hints.
pub open spec fn engine_recipe_written(
    m: ManifestContract,
    recipe: EngineImportRecipeManifest,
    unity: UnityImportHints,
    unreal: UnrealImportHints,
    d: EngineRecipeDraft,
) -> bool {
    let unity_engine = recipe.engine@ == "unity"@;
    let slot = m.material_slots@[groundcover_slot(m)->0];
    let e = d.entry;
    &&& e.schema@ == "midori.engine_import_recipe.v1"@
    &&& e.engine@ == recipe.engine@
    &&& e.profile@ == recipe.profile@
    &&& e.runtime_policy@ == recipe.runtime_policy@
    &&& texts(e.expected_systems@) == texts(recipe.expected_systems@)
    &&& strictly_sorted(texts(e.source_files@))
    &&& texts(e.source_files@).to_set() == expected_source_set(m, recipe.engine@)
    &&& texts(e.material_recipe_files@) == recipe_files_of(m)
    &&& e.terrain_heightmap_file@ == if unity_engine {
        unity.terrain_heightmap@
    } else {
        unreal.landscape_heightmap@
    }
    &&& e.terrain_mask_file@ == if unity_engine {
        m.masks_file@
    } else {
        unreal.landscape_weightmap@
    }
    &&& e.terrain_normal_map_file@ == if unity_engine {
        unity.normal_map@
    } else {
        unreal.normal_map@
    }
    &&& d.density_map_file@ == if unity_engine {
        unity.detail_density_map@
    } else {
        m.grass_density_file@
    }
    &&& d.terrain_target_system@ == if unity_engine {
        "Unity TerrainData"@
    } else {
        "Unreal Landscape"@
    }
    &&& e.groundcover.target_system@ == if unity_engine {
        "Unity Terrain detail mesh prefabs"@
    } else {
        "Unreal Static Mesh Foliage"@
    }
    &&& e.groundcover.prototype_source@ == if unity_engine {
        "LOD0 GLB detail mesh prefabs with native GLB fallback"@
    } else {
        "LOD0 GLB Static Mesh assets"@
    }
    &&& e.groundcover.material_slot@ == slot.name@
    &&& Some(e.groundcover.material_recipe_file@) == recipe_file_for(m, "groundcover_foliage"@)
    &&& e.groundcover.prototype_family_count == m.prototypes@.len()
    &&& e.groundcover.lod0_prototype_count == lod0_count(m.prototypes@)
    &&& e.groundcover.double_sided == slot.double_sided
    &&& e.groundcover.alpha_mode@ == slot.alpha_mode@
    &&& d.placement_source@ == if unity_engine {
        "grass_density/masks plus midori.scatter.bin.v1 ScriptableObject"@
    } else {
        "midori.scatter.bin.v1 foliage placement buffers"@
    }
    &&& d.scatter_json_file@ == match m.scatter.json_file {
        Some(f) => f@,
        None => Seq::empty(),
    }
    &&& e.scatter_binary_chunk_count == m.scatter.binary_files@.len()
    &&& e.scatter_instance_count == instance_total(m.scatter.binary_files@)
    &&& d.profile_name@ == if unity_engine {
        "mobile"@
    } else {
        "console"@
    }
    &&& texts(d.notes@) == if unity_engine {
        seq![
            "Use Unity TerrainData plus GPU-instanced detail mesh prefabs; no custom runtime renderer is required."@,
            "Validate mobile density, cull range, material slot count, and scatter source fingerprints in the Unity import report."@,
        ]
    } else {
        seq![
            "Use Unreal Landscape plus Static Mesh Foliage; no custom runtime renderer is required."@,
            "Convert console cull distances from meters to centimeters when creating foliage type assets."@,
        ]
    }
}

/// Index of the first slot named `name`.
fn find_slot(slots: &Vec<MaterialSlotManifest>, name: &str) -> (r: Option<usize>)
    ensures
        match r {
            Some(i) => i < slots@.len() && first_where(slots@.len(), slot_named(slots@, name@))
                == Some(i as int),
            None => first_where(slots@.len(), slot_named(slots@, name@)) is None,
        },
{
    let ghost p = slot_named(slots@, name@);
    proof {
        lemma_first_where(slots@.len(), p);
    }
    let mut i: usize = 0;
    while i < slots.len()
        invariant
            i <= slots@.len(),
            p == slot_named(slots@, name@),
            forall|j: int| 0 <= j < i ==> !#[trigger] p(j),
            match first_where(slots@.len(), p) {
                Some(k) => 0 <= k < slots@.len() && p(k) && forall|j: int|
                    0 <= j < k ==> !#[trigger] p(j),
                None => forall|j: int| 0 <= j < slots@.len() ==> !#[trigger] p(j),
            },
        decreases slots@.len() - i,
    {
        if str_eq(slots[i].name.as_str(), name) {
            assert(p(i as int));
            return Some(i);
        }
        i = i + 1;
    }
    None
}

/// Writes the engine import recipe of `recipe` for manifest `m`: the
/// groundcover slot and its material recipe must exist and the engine must
/// be unity or unreal; then the terrain files come from the engine's import
/// hints, the source files are the package's files sorted, and the counts
/// are the manifest's.
pub fn engine_import_recipe_file(
    m: &ManifestContract,
    recipe: &EngineImportRecipeManifest,
    unity: &UnityImportHints,
    unreal: &UnrealImportHints,
) -> (r: Result<EngineRecipeDraft, EngineRecipeBuildError>)
    requires
        instance_total(m.scatter.binary_files@) <= usize::MAX,
    ensures
        match r {
            Ok(d) => engine_recipe_build_error(*m, *recipe) is None && engine_recipe_written(
                *m,
                *recipe,
                *unity,
                *unreal,
                d,
            ),
            Err(e) => engine_recipe_build_error(*m, *recipe) == Some(e),
        },
{
    let slot_index = match find_slot(&m.material_slots, "groundcover_foliage") {
        Some(i) => i,
        None => {
            return Err(EngineRecipeBuildError::MissingGroundcoverSlot);
        },
    };
    let recipe_file = match material_recipe_file_for_slot(m, "groundcover_foliage") {
        Some(f) => f,
        None => {
            return Err(EngineRecipeBuildError::MissingGroundcoverRecipe);
        },
    };
    let unity_engine = str_eq(recipe.engine.as_str(), "unity");
    if !unity_engine && !str_eq(recipe.engine.as_str(), "unreal") {
        return Err(EngineRecipeBuildError::UnsupportedEngine);
    }
    let slot = &m.material_slots[slot_index];
    let groundcover = EngineGroundcoverImportRecipe {
        target_system: if unity_engine {
            owned("Unity Terrain detail mesh prefabs")
        } else {
            owned("Unreal Static Mesh Foliage")
        },
        prototype_source: if unity_engine {
            owned("LOD0 GLB detail mesh prefabs with native GLB fallback")
        } else {
            owned("LOD0 GLB Static Mesh assets")
        },
        material_slot: owned(slot.name.as_str()),
        material_recipe_file: recipe_file,
        prototype_family_count: m.prototypes.len(),
        lod0_prototype_count: lod0_prototype_count(m),
        double_sided: slot.double_sided,
        alpha_mode: owned(slot.alpha_mode.as_str()),
    };
    let mut expected_systems: Vec<String> = Vec::new();
    let mut k: usize = 0;
    while k < recipe.expected_systems.len()
        invariant
            k <= recipe.expected_systems@.len(),
            expected_systems@.len() == k,
            forall|j: int|
                0 <= j < k ==> #[trigger] expected_systems@[j]@ == recipe.expected_systems@[j]@,
        decreases recipe.expected_systems@.len() - k,
    {
        expected_systems.push(owned(recipe.expected_systems[k].as_str()));
        k = k + 1;
    }
    assert(texts(expected_systems@) =~= texts(recipe.expected_systems@));
    let entry = EngineRecipeFileEntry {
        schema: owned("midori.engine_import_recipe.v1"),
        engine: owned(recipe.engine.as_str()),
        profile: owned(recipe.profile.as_str()),
        runtime_policy: owned(recipe.runtime_policy.as_str()),
        expected_systems,
        source_files: expected_engine_import_source_files(m, recipe.engine.as_str()),
        material_recipe_files: material_recipe_files(m),
        terrain_heightmap_file: if unity_engine {
            owned(unity.terrain_heightmap.as_str())
        } else {
            owned(unreal.landscape_heightmap.as_str())
        },
        terrain_mask_file: if unity_engine {
            owned(m.masks_file.as_str())
        } else {
            owned(unreal.landscape_weightmap.as_str())
        },
        terrain_normal_map_file: if unity_engine {
            owned(unity.normal_map.as_str())
        } else {
            owned(unreal.normal_map.as_str())
        },
        groundcover,
        scatter_binary_chunk_count: m.scatter.binary_files.len(),
        scatter_instance_count: manifest_scatter_instance_count(m),
    };
    let scatter_json_file = match &m.scatter.json_file {
        Some(f) => owned(f.as_str()),
        None => String::new(),
    };
    let mut notes: Vec<String> = Vec::new();
    if unity_engine {
        notes.push(
            owned(
                "Use Unity TerrainData plus GPU-instanced detail mesh prefabs; no custom runtime renderer is required.",
            ),
        );
        notes.push(
            owned(
                "Validate mobile density, cull range, material slot count, and scatter source fingerprints in the Unity import report.",
            ),
        );
    } else {
        notes.push(
            owned(
                "Use Unreal Landscape plus Static Mesh Foliage; no custom runtime renderer is required.",
            ),
        );
        notes.push(
            owned(
                "Convert console cull distances from meters to centimeters when creating foliage type assets.",
            ),
        );
    }
    let d = EngineRecipeDraft {
        entry,
        terrain_target_system: if unity_engine {
            owned("Unity TerrainData")
        } else {
            owned("Unreal Landscape")
        },
        density_map_file: if unity_engine {
            owned(unity.detail_density_map.as_str())
        } else {
            owned(m.grass_density_file.as_str())
        },
        placement_source: if unity_engine {
            owned("grass_density/masks plus midori.scatter.bin.v1 ScriptableObject")
        } else {
            owned("midori.scatter.bin.v1 foliage placement buffers")
        },
        scatter_json_file,
        profile_name: if unity_engine {
            owned("mobile")
        } else {
            owned("console")
        },
        notes,
    };
    proof {
        assert(texts(d.notes@) =~= if unity_engine {
            seq![
                "Use Unity TerrainData plus GPU-instanced detail mesh prefabs; no custom runtime renderer is required."@,
                "Validate mobile density, cull range, material slot count, and scatter source fingerprints in the Unity import report."@,
            ]
        } else {
            seq![
                "Use Unreal Landscape plus Static Mesh Foliage; no custom runtime renderer is required."@,
                "Convert console cull distances from meters to centimeters when creating foliage type assets."@,
            ]
        });
    }
    Ok(d)
}

/// Why a material recipe cannot be written for a manifest.
#[derive(Debug, Clone, Copy, PartialEq, Eq, Structural)]
pub enum MaterialRecipeBuildError {
    /// No parameter set configures the recipe's slot.
    NoParameterSet,
}

/// The same binding, field by field.
pub open spec fn same_binding(
    a: MaterialParameterBindingManifest,
    b: MaterialParameterBindingManifest,
) -> bool {
    &&& a.name@ == b.name@
    &&& a.semantic@ == b.semantic@
    &&& a.value_type@ == b.value_type@
    &&& a.source@ == b.source@
    &&& a.default_value@ == b.default_value@
}

/// The names of a list of overlays, in order.
pub open spec fn overlay_names(overlays: Seq<SurfaceOverlayManifest>) -> Seq<Seq<char>> {
    overlays.map_values(|o: SurfaceOverlayManifest| o.name@)
}

/// What a recipe for `slot` requires and notes: textures, vertex streams,
/// and notes (the terrain recipe also consumes every overlay).
pub open spec fn slot_requirements(slot: Seq<char>) -> (Seq<Seq<char>>, Seq<Seq<char>>, Seq<
    Seq<char>,
>) {
    if slot == "terrain_surface"@ {
        (
            seq!["maps/masks_rgba.png"@],
            Seq::empty(),
            seq![
                "Use the packed mask texture channels for static moss, wetness, and crack overlays."@,
                "Create engine-native terrain or landscape materials; do not inject runtime shaders."@,
            ],
        )
    } else if slot == "groundcover_foliage"@ {
        (
            Seq::empty(),
            seq![
                "TEXCOORD_1.x phase_radians"@,
                "TEXCOORD_1.y bend_stiffness"@,
                "COLOR_0.x normalized_height"@,
                "COLOR_0.y color_variation"@,
                "COLOR_0.z normalized_progress"@,
                "COLOR_0.w bend_stiffness"@,
            ],
            seq![
                "Use masked alpha and engine-native foliage/detail instancing."@,
                "Drive lightweight vertex-stage wind from packed TEXCOORD_1 and COLOR_0 channels."@,
                "Use cull/fade parameters from the active mobile or console profile."@,
            ],
        )
    } else {
        (Seq::empty(), Seq::empty(), Seq::empty())
    }
}

/// Whether `f` is the material recipe file written for `recipe` of
/// manifest `m`, whose first parameter set for the slot is set `k`.
pub open spec fn material_recipe_written(
    m: ManifestContract,
    recipe: MaterialRecipeManifest,
    k: int,
    f: MaterialRecipeFile,
) -> bool {
    let set = m.material_parameters@[k];
    let (textures, streams, notes) = slot_requirements(recipe.material_slot@);
    &&& f.schema@ == "midori.material_recipe.v1"@
    &&& f.material_slot@ == recipe.material_slot@
    &&& f.parameter_set@ == set.parameter_set@
    &&& f.runtime_policy@ == recipe.runtime_policy@
    &&& f.shader_policy@ == m.shader_policy@
    &&& f.texture_pipeline@ == m.texture_pipeline@
    &&& texts(f.engine_targets@) == texts(recipe.engine_targets@)
    &&& f.parameters@.len() == set.parameters@.len()
    &&& forall|j: int|
        0 <= j < f.parameters@.len() ==> same_binding(
            #[trigger] f.parameters@[j],
            set.parameters@[j],
        )
    &&& texts(f.required_textures@) == textures
    &&& texts(f.required_vertex_streams@) == streams
    &&& texts(f.surface_overlays@) == if recipe.material_slot@ == "terrain_surface"@ {
        overlay_names(m.surface_overlays@)
    } else {
        Seq::empty()
    }
    &&& texts(f.notes@) == notes
}

fn copy_strings(v: &Vec<String>) -> (r: Vec<String>)
    ensures
        texts(r@) == texts(v@),
{
    let mut r: Vec<String> = Vec::new();
    let mut i: usize = 0;
    while i < v.len()
        invariant
            i <= v@.len(),
            r@.len() == i,
            forall|j: int| 0 <= j < i ==> #[trigger] r@[j]@ == v@[j]@,
        decreases v@.len() - i,
    {
        r.push(owned(v[i].as_str()));
        i = i + 1;
    }
    assert(texts(r@) =~= texts(v@));
    r
}

fn strings_of(items: &[&str]) -> (r: Vec<String>)
    ensures
        r@.len() == items@.len(),
        forall|j: int| 0 <= j < items@.len() ==> #[trigger] r@[j]@ == items@[j]@,
{
    let mut r: Vec<String> = Vec::new();
    let mut i: usize = 0;
    while i < items.len()
        invariant
            i <= items@.len(),
            r@.len() == i,
            forall|j: int| 0 <= j < i ==> #[trigger] r@[j]@ == items@[j]@,
        decreases items@.len() - i,
    {
        r.push(owned(items[i]));
        i = i + 1;
    }
    r
}

/// Writes the material recipe file of `recipe` for manifest `m`: the
/// parameters of the first parameter set of its slot, the package's shader
/// and texture policies, and what its slot requires.
pub fn material_recipe_file(m: &ManifestContract, recipe: &MaterialRecipeManifest) -> (r: Result<
    MaterialRecipeFile,
    MaterialRecipeBuildError,
>)
    ensures
        match first_where(
            m.material_parameters@.len(),
            set_for_slot(m.material_parameters@, recipe.material_slot@),
        ) {
            None => r == Err::<MaterialRecipeFile, _>(MaterialRecipeBuildError::NoParameterSet),
            Some(k) => r is Ok && material_recipe_written(*m, *recipe, k, r->Ok_0),
        },
{
    let k = match find_set_for_slot(&m.material_parameters, recipe.material_slot.as_str()) {
        Some(k) => k,
        None => {
            return Err(MaterialRecipeBuildError::NoParameterSet);
        },
    };
    let set = &m.material_parameters[k];
    let mut parameters: Vec<MaterialParameterBindingManifest> = Vec::new();
    let mut j: usize = 0;
    while j < set.parameters.len()
        invariant
            j <= set.parameters@.len(),
            parameters@.len() == j,
            forall|t: int|
                0 <= t < j ==> same_binding(#[trigger] parameters@[t], set.parameters@[t]),
        decreases set.parameters@.len() - j,
    {
        let b = &set.parameters[j];
        parameters.push(
            MaterialParameterBindingManifest {
                name: owned(b.name.as_str()),
                semantic: owned(b.semantic.as_str()),
                value_type: owned(b.value_type.as_str()),
                source: owned(b.source.as_str()),
                default_value: owned(b.default_value.as_str()),
            },
        );
        j = j + 1;
    }
    let slot = recipe.material_slot.as_str();
    let terrain = str_eq(slot, "terrain_surface");
    let groundcover = !terrain && str_eq(slot, "groundcover_foliage");
    let required_textures = if terrain {
        strings_of(&["maps/masks_rgba.png"])
    } else {
        Vec::new()
    };
    let required_vertex_streams = if groundcover {
        strings_of(
            &[
                "TEXCOORD_1.x phase_radians",
                "TEXCOORD_1.y bend_stiffness",
                "COLOR_0.x normalized_height",
                "COLOR_0.y color_variation",
                "COLOR_0.z normalized_progress",
                "COLOR_0.w bend_stiffness",
            ],
        )
    } else {
        Vec::new()
    };
    let mut surface_overlays: Vec<String> = Vec::new();
    if terrain {
        let mut i: usize = 0;
        while i < m.surface_overlays.len()
            invariant
                i <= m.surface_overlays@.len(),
                surface_overlays@.len() == i,
                forall|t: int|
                    0 <= t < i ==> #[trigger] surface_overlays@[t]@ == m.surface_overlays@[t].name@,
            decreases m.surface_overlays@.len() - i,
        {
            surface_overlays.push(owned(m.surface_overlays[i].name.as_str()));
            i = i + 1;
        }
        assert(texts(surface_overlays@) =~= overlay_names(m.surface_overlays@));
    }
    let notes = if terrain {
        strings_of(
            &[
                "Use the packed mask texture channels for static moss, wetness, and crack overlays.",
                "Create engine-native terrain or landscape materials; do not inject runtime shaders.",
            ],
        )
    } else if groundcover {
        strings_of(
            &[
                "Use masked alpha and engine-native foliage/detail instancing.",
                "Drive lightweight vertex-stage wind from packed TEXCOORD_1 and COLOR_0 channels.",
                "Use cull/fade parameters from the active mobile or console profile.",
            ],
        )
    } else {
        Vec::new()
    };
    let f = MaterialRecipeFile {
        schema: owned("midori.material_recipe.v1"),
        material_slot: owned(slot),
        parameter_set: owned(set.parameter_set.as_str()),
        runtime_policy: owned(recipe.runtime_policy.as_str()),
        shader_policy: owned(m.shader_policy.as_str()),
        texture_pipeline: owned(m.texture_pipeline.as_str()),
        engine_targets: copy_strings(&recipe.engine_targets),
        parameters,
        required_textures,
        required_vertex_streams,
        surface_overlays,
        notes,
    };
    proof {
        let (textures, streams, ns) = slot_requirements(recipe.material_slot@);
        assert(texts(f.required_textures@) =~= textures);
        assert(texts(f.required_vertex_streams@) =~= streams);
        assert(texts(f.notes@) =~= ns);
        assert(texts(f.surface_overlays@) =~= if recipe.material_slot@ == "terrain_surface"@ {
            overlay_names(m.surface_overlays@)
        } else {
            Seq::empty()
        });
    }
    Ok(f)
}

/// A material recipe file written for a manifest passes the importer's
/// checks against that manifest, provided the manifest's entry asks for the
/// static runtime policy, the package keeps its shader policy
/// `preview_only` and its texture pipeline `parked`, and its surface
/// overlays meet their contract.
pub proof fn lemma_written_material_recipe_passes(
    m: ManifestContract,
    recipe: MaterialRecipeManifest,
    k: int,
    f: MaterialRecipeFile,
)
    requires
        first_where(
            m.material_parameters@.len(),
            set_for_slot(m.material_parameters@, recipe.material_slot@),
        ) == Some(k),
        material_recipe_written(m, recipe, k, f),
        recipe.runtime_policy@ == static_policy(),
        m.shader_policy@ == "preview_only"@,
        m.texture_pipeline@ == "parked"@,
        surface_overlays_check(m.surface_overlays@) is Ok,
    ensures
        recipe_contents_check(f, recipe, m.material_parameters@) is Ok,
        recipe_requirements_check(f) is Ok,
{
    let sets = m.material_parameters@;
    lemma_first_where(sets.len(), set_for_slot(sets, recipe.material_slot@));
    let set = sets[k];
    assert(parameter_names(f.parameters@) =~= parameter_names(set.parameters@)) by {
        assert forall|n: Seq<char>| parameter_names(f.parameters@).contains(n) implies parameter_names(
            set.parameters@,
        ).contains(n) by {
            let i = choose|i: int| 0 <= i < f.parameters@.len() && #[trigger] f.parameters@[i].name@ == n;
            assert(same_binding(f.parameters@[i], set.parameters@[i]));
        }
        assert forall|n: Seq<char>| parameter_names(set.parameters@).contains(n) implies parameter_names(
            f.parameters@,
        ).contains(n) by {
            let i = choose|i: int| 0 <= i < set.parameters@.len() && #[trigger] set.parameters@[i].name@ == n;
            assert(same_binding(f.parameters@[i], set.parameters@[i]));
        }
    }
    if recipe.material_slot@ == "terrain_surface"@ {
        assert(texts(f.required_textures@)[0] == "maps/masks_rgba.png"@);
        let names = texts(f.surface_overlays@);
        assert forall|o: nat| o < 3 implies names.contains(#[trigger] required_overlay(o)) by {
            assert(has_overlay(m.surface_overlays@, required_overlay(o)));
            let i = choose|i: int|
                0 <= i < m.surface_overlays@.len() && #[trigger] m.surface_overlays@[i].name@
                    == required_overlay(o);
            assert(names[i] == required_overlay(o));
        }
        assert(names.contains(required_overlay(0)));
        assert(names.contains(required_overlay(1)));
        assert(names.contains(required_overlay(2)));
    } else if recipe.material_slot@ == "groundcover_foliage"@ {
        reveal_strlit("TEXCOORD_1.x phase_radians");
        reveal_strlit("TEXCOORD_1.x");
        reveal_strlit("COLOR_0.y color_variation");
        reveal_strlit("COLOR_0.y");
        let streams = texts(f.required_vertex_streams@);
        assert(streams[0] == "TEXCOORD_1.x phase_radians"@);
        assert(streams[3] == "COLOR_0.y color_variation"@);
        assert("TEXCOORD_1.x phase_radians"@.subrange(0, 12) =~= "TEXCOORD_1.x"@);
        assert("COLOR_0.y color_variation"@.subrange(0, 9) =~= "COLOR_0.y"@);
        assert(any_with_prefix(streams, "TEXCOORD_1.x"@));
        assert(any_with_prefix(streams, "COLOR_0.y"@));
    }
}

/// An engine import recipe written for a manifest passes the importer's
/// checks against that manifest (its single-precision settings are copies
/// of the manifest's and compare equal), provided the manifest's entry asks
/// for the static runtime policy and the engine's import hints name the
/// manifest's own terrain heightmap, mask and normal map.
pub proof fn lemma_written_engine_recipe_passes(
    m: ManifestContract,
    recipe: EngineImportRecipeManifest,
    unity: UnityImportHints,
    unreal: UnrealImportHints,
    d: EngineRecipeDraft,
)
    requires
        engine_recipe_build_error(m, recipe) is None,
        engine_recipe_written(m, recipe, unity, unreal, d),
        recipe.runtime_policy@ == static_policy(),
        recipe.engine@ == "unity"@ ==> unity.terrain_heightmap@ == m.heightmap_file@
            && unity.normal_map@ == m.normal_conventions.unity_yplus_file@,
        recipe.engine@ == "unreal"@ ==> unreal.landscape_heightmap@ == m.heightmap_file@
            && unreal.landscape_weightmap@ == m.masks_file@ && unreal.normal_map@
            == m.normal_conventions.unreal_yminus_file@,
    ensures
        engine_recipe_sources_check(d.entry, recipe, m) is Ok,
        engine_recipe_settings_check(d.entry, m, true, true, true) is Ok,
{
    reveal_strlit("unity");
    reveal_strlit("unreal");
    let p = slot_named(m.material_slots@, "groundcover_foliage"@);
    lemma_first_where(m.material_slots@.len(), p);
    let i = groundcover_slot(m)->0;
    assert(p(i));
    assert("unity"@ != "unreal"@) by {
        assert("unity"@.len() != "unreal"@.len());
    }
    if recipe.engine@ == "unity"@ {
        assert(d.entry.terrain_normal_map_file@ == engine_normal_map(m, d.entry.engine@));
    } else {
        assert(recipe.engine@ == "unreal"@);
        assert(d.entry.terrain_normal_map_file@ == engine_normal_map(m, d.entry.engine@));
    }
}

} // verus!
