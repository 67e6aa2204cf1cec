//! Laws tying what the exporter writes to what the importer's contract
//! accepts.

use crate::contract::{
    any_blank, has_slot, lemma_first_where_is, lemma_first_where_none, ManifestError,
};
use crate::manifest::{
    binding_texts, engine_recipe_table, groundcover_parameter_table, material_recipe_table,
    surface_overlay_table, terrain_parameter_table, texts, EngineImportRecipeManifest,
    MaterialParameterBindingManifest, MaterialParameterSetManifest, MaterialRecipeManifest,
    MaterialSlotManifest, SurfaceOverlayManifest,
};
use crate::material_contract::{
    engine_profile_check, engine_recipe_fault, engine_recipe_faulty, engine_recipes_check,
    last_where, material_parameters_check, material_recipes_check, parameter_incomplete,
    parameter_set_fault, recipe_fault, recipe_faulty, recipe_is_for, required_engine,
    required_semantics, required_slot_name, semantic_missing, set_faulty, slot_configured,
    slot_has_semantic, slot_semantics_check,
};
use crate::package_contract::{
    has_overlay, moss_target, overlay_fault, overlay_faulty, overlay_named, required_overlay,
    surface_overlays_check,
};
use crate::text::{has_prefix, has_suffix, is_blank, is_unicode_whitespace};
use vstd::prelude::*;

verus! {

/// A text whose first char is not whitespace is not blank.
pub proof fn lemma_text_not_blank(s: Seq<char>)
    requires
        s.len() > 0,
        !is_unicode_whitespace(s[0]),
    ensures
        !is_blank(s),
{
}

/// The two slots every package declares, terrain first.
pub open spec fn package_slots(slots: Seq<MaterialSlotManifest>) -> bool {
    &&& slots.len() == 2
    &&& slots[0].name@ == "terrain_surface"@
    &&& slots[1].name@ == "groundcover_foliage"@
}

/// The two parameter sets every package writes, with the given defaults.
pub open spec fn package_parameter_sets(
    sets: Seq<MaterialParameterSetManifest>,
    defaults: Seq<Seq<char>>,
) -> bool {
    &&& defaults.len() == 6
    &&& sets.len() == 2
    &&& sets[0].material_slot@ == "terrain_surface"@
    &&& sets[0].parameter_set@ == "midori_terrain_static_v1"@
    &&& sets[0].runtime_policy@ == "engine_native_static"@
    &&& sets[0].parameters@.map_values(|b: MaterialParameterBindingManifest| binding_texts(b))
        == terrain_parameter_table()
    &&& sets[1].material_slot@ == "groundcover_foliage"@
    &&& sets[1].parameter_set@ == "midori_groundcover_foliage_static_v1"@
    &&& sets[1].runtime_policy@ == "engine_native_static"@
    &&& sets[1].parameters@.map_values(|b: MaterialParameterBindingManifest| binding_texts(b))
        == groundcover_parameter_table(
        defaults[0],
        defaults[1],
        defaults[2],
        defaults[3],
        defaults[4],
        defaults[5],
    )
}

proof fn lemma_parameter_literals()
    ensures
        !is_blank("Midori_MaskTexture"@),
        !is_blank("overlay_mask_texture"@),
        !is_blank("texture2d"@),
        !is_blank("maps/masks_rgba.png"@),
        !is_blank("Midori_MossMaskChannel"@),
        !is_blank("moss_mask_channel"@),
        !is_blank("channel"@),
        !is_blank("surface_overlays.moss.channel"@),
        !is_blank("G"@),
        !is_blank("Midori_WetnessMaskChannel"@),
        !is_blank("wetness_mask_channel"@),
        !is_blank("surface_overlays.wetness.channel"@),
        !is_blank("B"@),
        !is_blank("Midori_CrackMaskChannel"@),
        !is_blank("crack_mask_channel"@),
        !is_blank("surface_overlays.cracks.channel"@),
        !is_blank("A"@),
        !is_blank("Midori_AlphaCutoff"@),
        !is_blank("alpha_cutoff"@),
        !is_blank("float"@),
        !is_blank("material_slots.groundcover_foliage.alpha_mode"@),
        !is_blank("0.5"@),
        !is_blank("Midori_WindStrength"@),
        !is_blank("wind_strength"@),
        !is_blank("wind.strength"@),
        !is_blank("Midori_WindSpeed"@),
        !is_blank("wind_speed"@),
        !is_blank("wind.speed"@),
        !is_blank("Midori_WindDirectionDegrees"@),
        !is_blank("wind_direction_degrees"@),
        !is_blank("wind.direction_degrees"@),
        !is_blank("Midori_WindGustScale"@),
        !is_blank("wind_gust_scale"@),
        !is_blank("wind.gust_scale"@),
        !is_blank("Midori_FadeStartMeters"@),
        !is_blank("fade_start_meters"@),
        !is_blank("profiles.mobile.cull_start"@),
        !is_blank("Midori_FadeEndMeters"@),
        !is_blank("fade_end_meters"@),
        !is_blank("profiles.mobile.cull_end"@),
        !is_blank("Midori_ColorVariationScale"@),
        !is_blank("color_variation_scale"@),
        !is_blank("COLOR_0.y"@),
        !is_blank("1.0"@),
        !is_blank("terrain_surface"@),
        !is_blank("midori_terrain_static_v1"@),
        !is_blank("engine_native_static"@),
        !is_blank("groundcover_foliage"@),
        !is_blank("midori_groundcover_foliage_static_v1"@),
{
    reveal_strlit("Midori_MaskTexture");
    lemma_text_not_blank("Midori_MaskTexture"@);
    reveal_strlit("overlay_mask_texture");
    lemma_text_not_blank("overlay_mask_texture"@);
    reveal_strlit("texture2d");
    lemma_text_not_blank("texture2d"@);
    reveal_strlit("maps/masks_rgba.png");
    lemma_text_not_blank("maps/masks_rgba.png"@);
    reveal_strlit("Midori_MossMaskChannel");
    lemma_text_not_blank("Midori_MossMaskChannel"@);
    reveal_strlit("moss_mask_channel");
    lemma_text_not_blank("moss_mask_channel"@);
    reveal_strlit("channel");
    lemma_text_not_blank("channel"@);
    reveal_strlit("surface_overlays.moss.channel");
    lemma_text_not_blank("surface_overlays.moss.channel"@);
    reveal_strlit("G");
    lemma_text_not_blank("G"@);
    reveal_strlit("Midori_WetnessMaskChannel");
    lemma_text_not_blank("Midori_WetnessMaskChannel"@);
    reveal_strlit("wetness_mask_channel");
    lemma_text_not_blank("wetness_mask_channel"@);
    reveal_strlit("surface_overlays.wetness.channel");
    lemma_text_not_blank("surface_overlays.wetness.channel"@);
    reveal_strlit("B");
    lemma_text_not_blank("B"@);
    reveal_strlit("Midori_CrackMaskChannel");
    lemma_text_not_blank("Midori_CrackMaskChannel"@);
    reveal_strlit("crack_mask_channel");
    lemma_text_not_blank("crack_mask_channel"@);
    reveal_strlit("surface_overlays.cracks.channel");
    lemma_text_not_blank("surface_overlays.cracks.channel"@);
    reveal_strlit("A");
    lemma_text_not_blank("A"@);
    reveal_strlit("Midori_AlphaCutoff");
    lemma_text_not_blank("Midori_AlphaCutoff"@);
    reveal_strlit("alpha_cutoff");
    lemma_text_not_blank("alpha_cutoff"@);
    reveal_strlit("float");
    lemma_text_not_blank("float"@);
    reveal_strlit("material_slots.groundcover_foliage.alpha_mode");
    lemma_text_not_blank("material_slots.groundcover_foliage.alpha_mode"@);
    reveal_strlit("0.5");
    lemma_text_not_blank("0.5"@);
    reveal_strlit("Midori_WindStrength");
    lemma_text_not_blank("Midori_WindStrength"@);
    reveal_strlit("wind_strength");
    lemma_text_not_blank("wind_strength"@);
    reveal_strlit("wind.strength");
    lemma_text_not_blank("wind.strength"@);
    reveal_strlit("Midori_WindSpeed");
    lemma_text_not_blank("Midori_WindSpeed"@);
    reveal_strlit("wind_speed");
    lemma_text_not_blank("wind_speed"@);
    reveal_strlit("wind.speed");
    lemma_text_not_blank("wind.speed"@);
    reveal_strlit("Midori_WindDirectionDegrees");
    lemma_text_not_blank("Midori_WindDirectionDegrees"@);
    reveal_strlit("wind_direction_degrees");
    lemma_text_not_blank("wind_direction_degrees"@);
    reveal_strlit("wind.direction_degrees");
    lemma_text_not_blank("wind.direction_degrees"@);
    reveal_strlit("Midori_WindGustScale");
    lemma_text_not_blank("Midori_WindGustScale"@);
    reveal_strlit("wind_gust_scale");
    lemma_text_not_blank("wind_gust_scale"@);
    reveal_strlit("wind.gust_scale");
    lemma_text_not_blank("wind.gust_scale"@);
    reveal_strlit("Midori_FadeStartMeters");
    lemma_text_not_blank("Midori_FadeStartMeters"@);
    reveal_strlit("fade_start_meters");
    lemma_text_not_blank("fade_start_meters"@);
    reveal_strlit("profiles.mobile.cull_start");
    lemma_text_not_blank("profiles.mobile.cull_start"@);
    reveal_strlit("Midori_FadeEndMeters");
    lemma_text_not_blank("Midori_FadeEndMeters"@);
    reveal_strlit("fade_end_meters");
    lemma_text_not_blank("fade_end_meters"@);
    reveal_strlit("profiles.mobile.cull_end");
    lemma_text_not_blank("profiles.mobile.cull_end"@);
    reveal_strlit("Midori_ColorVariationScale");
    lemma_text_not_blank("Midori_ColorVariationScale"@);
    reveal_strlit("color_variation_scale");
    lemma_text_not_blank("color_variation_scale"@);
    reveal_strlit("COLOR_0.y");
    lemma_text_not_blank("COLOR_0.y"@);
    reveal_strlit("1.0");
    lemma_text_not_blank("1.0"@);
    reveal_strlit("terrain_surface");
    lemma_text_not_blank("terrain_surface"@);
    reveal_strlit("midori_terrain_static_v1");
    lemma_text_not_blank("midori_terrain_static_v1"@);
    reveal_strlit("engine_native_static");
    lemma_text_not_blank("engine_native_static"@);
    reveal_strlit("groundcover_foliage");
    lemma_text_not_blank("groundcover_foliage"@);
    reveal_strlit("midori_groundcover_foliage_static_v1");
    lemma_text_not_blank("midori_groundcover_foliage_static_v1"@);
}

/// The parameter sets the exporter writes, for any non-blank defaults,
/// pass the material parameter contract against the package's slots.
pub proof fn lemma_exported_parameters_pass(
    sets: Seq<MaterialParameterSetManifest>,
    slots: Seq<MaterialSlotManifest>,
    defaults: Seq<Seq<char>>,
)
    requires
        package_parameter_sets(sets, defaults),
        package_slots(slots),
        forall|i: int| 0 <= i < defaults.len() ==> !is_blank(#[trigger] defaults[i]),
    ensures
        material_parameters_check(sets, slots) == Ok::<(), ManifestError>(()),
{
    lemma_parameter_literals();
    let t = sets[0].parameters@;
    let g = sets[1].parameters@;
    assert(t.len() == 4) by {
        assert(t.map_values(|b: MaterialParameterBindingManifest| binding_texts(b)).len() == 4);
    }
    assert(g.len() == 8) by {
        assert(g.map_values(|b: MaterialParameterBindingManifest| binding_texts(b)).len() == 8);
    }
    assert forall|j: int| 0 <= j < t.len() implies !parameter_incomplete(#[trigger] t[j]) by {
        assert(binding_texts(t[j]) == terrain_parameter_table()[j]);
    }
    assert forall|j: int| 0 <= j < g.len() implies !parameter_incomplete(#[trigger] g[j]) by {
        assert(binding_texts(g[j]) == groundcover_parameter_table(
            defaults[0],
            defaults[1],
            defaults[2],
            defaults[3],
            defaults[4],
            defaults[5],
        )[j]);
        if 1 <= j <= 6 {
            assert(!is_blank(defaults[j - 1]));
        }
    }
    assert(has_slot(slots, sets[0].material_slot@)) by {
        assert(slots[0].name@ == sets[0].material_slot@);
    }
    assert(has_slot(slots, sets[1].material_slot@)) by {
        assert(slots[1].name@ == sets[1].material_slot@);
    }
    assert(parameter_set_fault(sets[0], slots) is None);
    assert(parameter_set_fault(sets[1], slots) is None);
    let p = set_faulty(sets, slots);
    assert forall|j: int| 0 <= j < sets.len() implies !#[trigger] p(j) by {
        if j == 0 {
        } else {
        }
    }
    lemma_first_where_none(sets.len(), p);
    assert(slot_configured(sets, required_slot_name(0))) by {
        assert(sets[0].material_slot@ == required_slot_name(0));
    }
    assert(slot_configured(sets, required_slot_name(1))) by {
        assert(sets[1].material_slot@ == required_slot_name(1));
    }
    let m0 = semantic_missing(sets, 0);
    assert forall|k: int| 0 <= k < required_semantics(0).len() implies !#[trigger] m0(k) by {
        assert(binding_texts(t[k]) == terrain_parameter_table()[k]);
        assert(t[k].semantic@ == required_semantics(0)[k]);
        assert(slot_has_semantic(sets, required_slot_name(0), t[k].semantic@)) by {
            assert(sets[0].parameters@[k].semantic@ == t[k].semantic@);
        }
    }
    lemma_first_where_none(required_semantics(0).len(), m0);
    let m1 = semantic_missing(sets, 1);
    assert forall|k: int| 0 <= k < required_semantics(1).len() implies !#[trigger] m1(k) by {
        assert(binding_texts(g[k]) == groundcover_parameter_table(
            defaults[0],
            defaults[1],
            defaults[2],
            defaults[3],
            defaults[4],
            defaults[5],
        )[k]);
        assert(g[k].semantic@ == required_semantics(1)[k]);
        assert(slot_has_semantic(sets, required_slot_name(1), g[k].semantic@)) by {
            assert(sets[1].parameters@[k].semantic@ == g[k].semantic@);
        }
    }
    lemma_first_where_none(required_semantics(1).len(), m1);
    assert(slot_semantics_check(sets, 0) == Ok::<(), ManifestError>(()));
    assert(slot_semantics_check(sets, 1) == Ok::<(), ManifestError>(()));
}

proof fn lemma_recipe_literals()
    ensures
        !is_blank("terrain_surface"@),
        !is_blank("groundcover_foliage"@),
        !is_blank("materials/terrain_surface.recipe.json"@),
        !is_blank("materials/groundcover_foliage.recipe.json"@),
        !is_blank("engine_native_static"@),
        !is_blank("unity_terrain_material"@),
        !is_blank("unreal_landscape_material"@),
        !is_blank("unity_detail_mesh_material"@),
        !is_blank("unreal_static_mesh_foliage_material"@),
        has_prefix("materials/terrain_surface.recipe.json"@, "materials/"@),
        has_suffix("materials/terrain_surface.recipe.json"@, ".recipe.json"@),
        has_prefix("materials/groundcover_foliage.recipe.json"@, "materials/"@),
        has_suffix("materials/groundcover_foliage.recipe.json"@, ".recipe.json"@),
        has_prefix("unity_terrain_material"@, "unity_"@),
        has_prefix("unreal_landscape_material"@, "unreal_"@),
        has_prefix("unity_detail_mesh_material"@, "unity_"@),
        has_prefix("unreal_static_mesh_foliage_material"@, "unreal_"@),
{
    reveal_strlit("terrain_surface");
    lemma_text_not_blank("terrain_surface"@);
    reveal_strlit("groundcover_foliage");
    lemma_text_not_blank("groundcover_foliage"@);
    reveal_strlit("materials/terrain_surface.recipe.json");
    lemma_text_not_blank("materials/terrain_surface.recipe.json"@);
    reveal_strlit("materials/groundcover_foliage.recipe.json");
    lemma_text_not_blank("materials/groundcover_foliage.recipe.json"@);
    reveal_strlit("engine_native_static");
    lemma_text_not_blank("engine_native_static"@);
    reveal_strlit("unity_terrain_material");
    lemma_text_not_blank("unity_terrain_material"@);
    reveal_strlit("unreal_landscape_material");
    lemma_text_not_blank("unreal_landscape_material"@);
    reveal_strlit("unity_detail_mesh_material");
    lemma_text_not_blank("unity_detail_mesh_material"@);
    reveal_strlit("unreal_static_mesh_foliage_material");
    lemma_text_not_blank("unreal_static_mesh_foliage_material"@);
    reveal_strlit("materials/");
    reveal_strlit(".recipe.json");
    reveal_strlit("unity_");
    reveal_strlit("unreal_");
    assert("materials/terrain_surface.recipe.json"@.subrange(0, 10) =~= "materials/"@);
    assert("materials/terrain_surface.recipe.json"@.subrange(25, 37) =~= ".recipe.json"@);
    assert("materials/groundcover_foliage.recipe.json"@.subrange(0, 10) =~= "materials/"@);
    assert("materials/groundcover_foliage.recipe.json"@.subrange(29, 41) =~= ".recipe.json"@);
    assert("unity_terrain_material"@.subrange(0, 6) =~= "unity_"@);
    assert("unreal_landscape_material"@.subrange(0, 7) =~= "unreal_"@);
    assert("unity_detail_mesh_material"@.subrange(0, 6) =~= "unity_"@);
    assert("unreal_static_mesh_foliage_material"@.subrange(0, 7) =~= "unreal_"@);
}

/// The material recipes the exporter writes pass the material recipe
/// contract against the package's slots and parameter sets.
pub proof fn lemma_exported_recipes_pass(
    recipes: Seq<MaterialRecipeManifest>,
    slots: Seq<MaterialSlotManifest>,
    sets: Seq<MaterialParameterSetManifest>,
    defaults: Seq<Seq<char>>,
)
    requires
        recipes.map_values(
            |m: MaterialRecipeManifest|
                (m.material_slot@, m.file@, m.runtime_policy@, texts(m.engine_targets@)),
        ) == material_recipe_table(),
        package_slots(slots),
        package_parameter_sets(sets, defaults),
    ensures
        material_recipes_check(recipes, slots, sets) == Ok::<(), ManifestError>(()),
{
    lemma_recipe_literals();
    let view = |m: MaterialRecipeManifest|
        (m.material_slot@, m.file@, m.runtime_policy@, texts(m.engine_targets@));
    assert(recipes.len() == 2) by {
        assert(recipes.map_values(view).len() == 2);
    }
    assert(view(recipes[0]) == material_recipe_table()[0]);
    assert(view(recipes[1]) == material_recipe_table()[1]);
    assert forall|i: int| 0 <= i < 2 implies recipe_fault(#[trigger] recipes[i], slots, sets) is None by {
        let r = recipes[i];
        let ts = texts(r.engine_targets@);
        assert(ts.len() == 2);
        assert(has_slot(slots, r.material_slot@)) by {
            assert(slots[i].name@ == r.material_slot@);
        }
        assert(slot_configured(sets, r.material_slot@)) by {
            assert(sets[i].material_slot@ == r.material_slot@);
        }
        assert(!any_blank(ts)) by {
            if any_blank(ts) {
                let k = choose|k: int| 0 <= k < ts.len() && is_blank(#[trigger] ts[k]);
                if k == 0 {
                } else {
                }
            }
        }
        assert(has_prefix(ts[0], "unity_"@));
        assert(has_prefix(ts[1], "unreal_"@));
    }
    let p = recipe_faulty(recipes, slots, sets);
    assert forall|j: int| 0 <= j < recipes.len() implies !#[trigger] p(j) by {
        assert(recipe_fault(recipes[j], slots, sets) is None);
    }
    lemma_first_where_none(recipes.len(), p);
    assert(recipes[0].material_slot@ == "terrain_surface"@);
    assert(recipes[1].material_slot@ == "groundcover_foliage"@);
}

proof fn lemma_engine_literals()
    ensures
        !is_blank("unity"@),
        !is_blank("unreal"@),
        !is_blank("engines/unity_import.recipe.json"@),
        !is_blank("engines/unreal_import.recipe.json"@),
        !is_blank("mobile"@),
        !is_blank("console"@),
        !is_blank("engine_native_static"@),
        !is_blank("Unity TerrainData"@),
        !is_blank("GPU-instanced terrain detail mesh prefabs"@),
        !is_blank("Midori scatter ScriptableObject"@),
        !is_blank("Unreal Landscape"@),
        !is_blank("Static Mesh Foliage"@),
        !is_blank("Midori binary scatter importer"@),
        "unity"@ != "unreal"@,
        has_prefix("engines/unity_import.recipe.json"@, "engines/"@),
        has_suffix("engines/unity_import.recipe.json"@, ".recipe.json"@),
        has_prefix("engines/unreal_import.recipe.json"@, "engines/"@),
        has_suffix("engines/unreal_import.recipe.json"@, ".recipe.json"@),
{
    reveal_strlit("unity");
    lemma_text_not_blank("unity"@);
    reveal_strlit("unreal");
    lemma_text_not_blank("unreal"@);
    reveal_strlit("engines/unity_import.recipe.json");
    lemma_text_not_blank("engines/unity_import.recipe.json"@);
    reveal_strlit("engines/unreal_import.recipe.json");
    lemma_text_not_blank("engines/unreal_import.recipe.json"@);
    reveal_strlit("mobile");
    lemma_text_not_blank("mobile"@);
    reveal_strlit("console");
    lemma_text_not_blank("console"@);
    reveal_strlit("engine_native_static");
    lemma_text_not_blank("engine_native_static"@);
    reveal_strlit("Unity TerrainData");
    lemma_text_not_blank("Unity TerrainData"@);
    reveal_strlit("GPU-instanced terrain detail mesh prefabs");
    lemma_text_not_blank("GPU-instanced terrain detail mesh prefabs"@);
    reveal_strlit("Midori scatter ScriptableObject");
    lemma_text_not_blank("Midori scatter ScriptableObject"@);
    reveal_strlit("Unreal Landscape");
    lemma_text_not_blank("Unreal Landscape"@);
    reveal_strlit("Static Mesh Foliage");
    lemma_text_not_blank("Static Mesh Foliage"@);
    reveal_strlit("Midori binary scatter importer");
    lemma_text_not_blank("Midori binary scatter importer"@);
    reveal_strlit("engines/");
    reveal_strlit(".recipe.json");
    assert("unity"@[2] != "unreal"@[2]);
    assert("engines/unity_import.recipe.json"@.subrange(0, 8) =~= "engines/"@);
    assert("engines/unity_import.recipe.json"@.subrange(20, 32) =~= ".recipe.json"@);
    assert("engines/unreal_import.recipe.json"@.subrange(0, 8) =~= "engines/"@);
    assert("engines/unreal_import.recipe.json"@.subrange(21, 33) =~= ".recipe.json"@);
}

/// The engine import recipes the exporter writes pass the engine recipe
/// contract: unity targets mobile and unreal targets console.
pub proof fn lemma_exported_engine_recipes_pass(recipes: Seq<EngineImportRecipeManifest>)
    requires
        recipes.map_values(
            |m: EngineImportRecipeManifest|
                (m.engine@, m.file@, m.profile@, m.runtime_policy@, texts(m.expected_systems@)),
        ) == engine_recipe_table(),
    ensures
        engine_recipes_check(recipes) == Ok::<(), ManifestError>(()),
{
    lemma_engine_literals();
    let view = |m: EngineImportRecipeManifest|
        (m.engine@, m.file@, m.profile@, m.runtime_policy@, texts(m.expected_systems@));
    assert(recipes.len() == 2) by {
        assert(recipes.map_values(view).len() == 2);
    }
    assert(view(recipes[0]) == engine_recipe_table()[0]);
    assert(view(recipes[1]) == engine_recipe_table()[1]);
    assert forall|i: int| 0 <= i < 2 implies engine_recipe_fault(#[trigger] recipes[i]) is None by {
        let ts = texts(recipes[i].expected_systems@);
        assert(ts.len() == 3);
        assert(!any_blank(ts)) by {
            if any_blank(ts) {
                let k = choose|k: int| 0 <= k < ts.len() && is_blank(#[trigger] ts[k]);
                if k == 0 {
                } else if k == 1 {
                } else {
                }
            }
        }
    }
    let p = engine_recipe_faulty(recipes);
    assert forall|j: int| 0 <= j < recipes.len() implies !#[trigger] p(j) by {
        assert(engine_recipe_fault(recipes[j]) is None);
    }
    lemma_first_where_none(recipes.len(), p);
    let u = recipe_is_for(recipes, required_engine(0).0);
    assert(!u(1));
    assert(u(0));
    assert(last_where(1, u) == Some(0int));
    assert(last_where(2, u) == Some(0int));
    let w = recipe_is_for(recipes, required_engine(1).0);
    assert(w(1));
    assert(last_where(2, w) == Some(1int));
    assert(engine_profile_check(recipes, 0) == Ok::<(), ManifestError>(()));
    assert(engine_profile_check(recipes, 1) == Ok::<(), ManifestError>(()));
}

proof fn lemma_overlay_literals()
    ensures
        !is_blank("moss"@),
        !is_blank("wetness"@),
        !is_blank("cracks"@),
        !is_blank("maps/masks_rgba.png"@),
        !is_blank("terrain_surface"@),
        !is_blank("rock"@),
        !is_blank("log"@),
        !is_blank("shrub_base"@),
        !is_blank("trunk_base"@),
        !is_blank("roots"@),
        !is_blank("dry_soil"@),
        !is_blank("scatter_exclusion"@),
        !is_blank("static material overlay mask; authored prototypes may include geometry moss cards"@),
        !is_blank("static material overlay mask for externally supplied roughness/darkening inputs"@),
        !is_blank("static soil crack and optional scatter-exclusion mask"@),
        !is_blank("baked_static"@),
{
    reveal_strlit("moss");
    lemma_text_not_blank("moss"@);
    reveal_strlit("wetness");
    lemma_text_not_blank("wetness"@);
    reveal_strlit("cracks");
    lemma_text_not_blank("cracks"@);
    reveal_strlit("maps/masks_rgba.png");
    lemma_text_not_blank("maps/masks_rgba.png"@);
    reveal_strlit("terrain_surface");
    lemma_text_not_blank("terrain_surface"@);
    reveal_strlit("rock");
    lemma_text_not_blank("rock"@);
    reveal_strlit("log");
    lemma_text_not_blank("log"@);
    reveal_strlit("shrub_base");
    lemma_text_not_blank("shrub_base"@);
    reveal_strlit("trunk_base");
    lemma_text_not_blank("trunk_base"@);
    reveal_strlit("roots");
    lemma_text_not_blank("roots"@);
    reveal_strlit("dry_soil");
    lemma_text_not_blank("dry_soil"@);
    reveal_strlit("scatter_exclusion");
    lemma_text_not_blank("scatter_exclusion"@);
    reveal_strlit("static material overlay mask; authored prototypes may include geometry moss cards");
    lemma_text_not_blank("static material overlay mask; authored prototypes may include geometry moss cards"@);
    reveal_strlit("static material overlay mask for externally supplied roughness/darkening inputs");
    lemma_text_not_blank("static material overlay mask for externally supplied roughness/darkening inputs"@);
    reveal_strlit("static soil crack and optional scatter-exclusion mask");
    lemma_text_not_blank("static soil crack and optional scatter-exclusion mask"@);
    reveal_strlit("baked_static");
    lemma_text_not_blank("baked_static"@);
}

/// The surface overlays the exporter writes pass the overlay contract.
pub proof fn lemma_exported_overlays_pass(overlays: Seq<SurfaceOverlayManifest>)
    requires
        overlays.map_values(
            |o: SurfaceOverlayManifest|
                (
                    o.name@,
                    o.source_file@,
                    o.channel@,
                    texts(o.targets@),
                    o.application@,
                    o.runtime_policy@,
                ),
        ) == surface_overlay_table(),
    ensures
        surface_overlays_check(overlays) == Ok::<(), ManifestError>(()),
{
    lemma_overlay_literals();
    let view = |o: SurfaceOverlayManifest|
        (o.name@, o.source_file@, o.channel@, texts(o.targets@), o.application@, o.runtime_policy@);
    assert(overlays.len() == 3) by {
        assert(overlays.map_values(view).len() == 3);
    }
    assert(view(overlays[0]) == surface_overlay_table()[0]);
    assert(view(overlays[1]) == surface_overlay_table()[1]);
    assert(view(overlays[2]) == surface_overlay_table()[2]);
    assert(has_overlay(overlays, required_overlay(0))) by {
        assert(overlays[0].name@ == required_overlay(0));
    }
    assert(has_overlay(overlays, required_overlay(1))) by {
        assert(overlays[1].name@ == required_overlay(1));
    }
    assert(has_overlay(overlays, required_overlay(2))) by {
        assert(overlays[2].name@ == required_overlay(2));
    }
    assert forall|i: int| 0 <= i < 3 implies overlay_fault(#[trigger] overlays[i]) is None by {
        let ts = texts(overlays[i].targets@);
        assert(!any_blank(ts)) by {
            if any_blank(ts) {
                let k = choose|k: int| 0 <= k < ts.len() && is_blank(#[trigger] ts[k]);
                if i == 0 {
                    assert(0 <= k < 6);
                    if k == 0 {
                    } else if k == 1 {
                    } else if k == 2 {
                    } else if k == 3 {
                    } else if k == 4 {
                    } else {
                    }
                } else if i == 1 {
                    if k == 0 {
                    } else if k == 1 {
                    } else {
                    }
                } else {
                    if k == 0 {
                    } else if k == 1 {
                    } else {
                    }
                }
            }
        }
    }
    let p = overlay_faulty(overlays);
    assert forall|j: int| 0 <= j < overlays.len() implies !#[trigger] p(j) by {
        assert(overlay_fault(overlays[j]) is None);
    }
    lemma_first_where_none(overlays.len(), p);
    let moss = overlay_named(overlays, "moss"@);
    assert(moss(0));
    lemma_first_where_is(overlays.len(), moss, 0);
    let targets = texts(overlays[0].targets@);
    assert(targets[0] == moss_target(0));
    assert(targets[1] == moss_target(1));
    assert(targets[2] == moss_target(2));
}

} // verus!
