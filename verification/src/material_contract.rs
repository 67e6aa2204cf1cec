//! The manifest contract on material parameter sets, material recipes and
//! engine import recipes.

use crate::contract::{
    any_blank, any_with_prefix, first_where, has_blank, has_slot, has_with_prefix,
    lemma_first_where_is, lemma_first_where_none, lists_slot, EngineRecipeFault, ManifestError,
    ParameterSetFault, RecipeFault,
};
use crate::manifest::{
    texts, EngineImportRecipeManifest, MaterialParameterBindingManifest,
    MaterialParameterSetManifest, MaterialRecipeManifest, MaterialSlotManifest,
};
use crate::text::{blank, ends_with, has_prefix, has_suffix, is_blank, starts_with, str_eq};
use vstd::prelude::*;

verus! {

/// The runtime policy every material and engine recipe must use.
pub open spec fn static_policy() -> Seq<char> {
    "engine_native_static"@
}

/// A parameter binding with a blank field.
pub open spec fn parameter_incomplete(p: MaterialParameterBindingManifest) -> bool {
    is_blank(p.name@) || is_blank(p.semantic@) || is_blank(p.value_type@) || is_blank(p.source@)
        || is_blank(p.default_value@)
}

/// The first thing wrong with a parameter set, if anything.
pub open spec fn parameter_set_fault(
    set: MaterialParameterSetManifest,
    slots: Seq<MaterialSlotManifest>,
) -> Option<ParameterSetFault> {
    if is_blank(set.material_slot@) || is_blank(set.parameter_set@) || is_blank(
        set.runtime_policy@,
    ) {
        Some(ParameterSetFault::Incomplete)
    } else if !has_slot(slots, set.material_slot@) {
        Some(ParameterSetFault::UnknownSlot)
    } else if set.runtime_policy@ != static_policy() {
        Some(ParameterSetFault::NotStatic)
    } else if set.parameters@.len() == 0 {
        Some(ParameterSetFault::NoParameters)
    } else if exists|j: int|
        0 <= j < set.parameters@.len() && parameter_incomplete(#[trigger] set.parameters@[j]) {
        Some(ParameterSetFault::IncompleteParameter)
    } else {
        None
    }
}

/// Some parameter set configures the slot.
pub open spec fn slot_configured(sets: Seq<MaterialParameterSetManifest>, slot: Seq<char>) -> bool {
    exists|i: int| 0 <= i < sets.len() && #[trigger] sets[i].material_slot@ == slot
}

/// Some parameter set of the slot binds the semantic.
pub open spec fn slot_has_semantic(
    sets: Seq<MaterialParameterSetManifest>,
    slot: Seq<char>,
    semantic: Seq<char>,
) -> bool {
    exists|i: int, j: int|
        0 <= i < sets.len() && sets[i].material_slot@ == slot && 0 <= j
            < sets[i].parameters@.len() && #[trigger] sets[i].parameters@[j].semantic@ == semantic
}

/// The slots whose parameters are required: 0 terrain, 1 groundcover.
pub open spec fn required_slot_name(slot: nat) -> Seq<char> {
    if slot == 0 {
        "terrain_surface"@
    } else {
        "groundcover_foliage"@
    }
}

/// The semantics each required slot must bind, in the order they are checked.
pub open spec fn required_semantics(slot: nat) -> Seq<Seq<char>> {
    if slot == 0 {
        seq![
            "overlay_mask_texture"@,
            "moss_mask_channel"@,
            "wetness_mask_channel"@,
            "crack_mask_channel"@,
        ]
    } else {
        seq![
            "alpha_cutoff"@,
            "wind_strength"@,
            "wind_speed"@,
            "wind_direction_degrees"@,
            "wind_gust_scale"@,
            "fade_start_meters"@,
            "fade_end_meters"@,
            "color_variation_scale"@,
        ]
    }
}

/// Whether the `k`-th required semantic of the slot is unbound.
pub open spec fn semantic_missing(
    sets: Seq<MaterialParameterSetManifest>,
    slot: nat,
) -> spec_fn(int) -> bool {
    |k: int| !slot_has_semantic(sets, required_slot_name(slot), required_semantics(slot)[k])
}

/// The required slot is configured and binds all its required semantics.
pub open spec fn slot_semantics_check(sets: Seq<MaterialParameterSetManifest>, slot: nat) -> Result<
    (),
    ManifestError,
> {
    if !slot_configured(sets, required_slot_name(slot)) {
        Err(ManifestError::MissingParameterSlot { slot: slot as usize })
    } else {
        match first_where(required_semantics(slot).len(), semantic_missing(sets, slot)) {
            Some(k) => Err(
                ManifestError::MissingParameterSemantic { slot: slot as usize, semantic: k as usize },
            ),
            None => Ok(()),
        }
    }
}

/// Whether the `i`-th parameter set is faulty.
pub open spec fn set_faulty(
    sets: Seq<MaterialParameterSetManifest>,
    slots: Seq<MaterialSlotManifest>,
) -> spec_fn(int) -> bool {
    |i: int| parameter_set_fault(sets[i], slots) is Some
}

/// The material parameter contract: each set in order, then the semantics
/// of the terrain and groundcover slots.
pub open spec fn material_parameters_check(
    sets: Seq<MaterialParameterSetManifest>,
    slots: Seq<MaterialSlotManifest>,
) -> Result<(), ManifestError> {
    match first_where(sets.len(), set_faulty(sets, slots)) {
        Some(i) => match parameter_set_fault(sets[i], slots) {
            Some(fault) => Err(ManifestError::ParameterSet { index: i as usize, fault }),
            None => Ok(()),
        },
        None => match slot_semantics_check(sets, 0) {
            Err(e) => Err(e),
            Ok(()) => slot_semantics_check(sets, 1),
        },
    }
}

fn parameter_is_incomplete(p: &MaterialParameterBindingManifest) -> (r: bool)
    ensures
        r == parameter_incomplete(*p),
{
    blank(p.name.as_str()) || blank(p.semantic.as_str()) || blank(p.value_type.as_str()) || blank(
        p.source.as_str(),
    ) || blank(p.default_value.as_str())
}

fn has_incomplete_parameter(params: &Vec<MaterialParameterBindingManifest>) -> (r: bool)
    ensures
        r == exists|j: int| 0 <= j < params@.len() && parameter_incomplete(#[trigger] params@[j]),
{
    let mut j: usize = 0;
    while j < params.len()
        invariant
            j <= params@.len(),
            forall|k: int| 0 <= k < j ==> !parameter_incomplete(#[trigger] params@[k]),
        decreases params@.len() - j,
    {
        if parameter_is_incomplete(&params[j]) {
            assert(parameter_incomplete(params@[j as int]));
            return true;
        }
        j = j + 1;
    }
    false
}

fn find_parameter_set_fault(set: &MaterialParameterSetManifest, slots: &Vec<MaterialSlotManifest>) -> (r:
    Option<ParameterSetFault>)
    ensures
        r == parameter_set_fault(*set, slots@),
{
    if blank(set.material_slot.as_str()) || blank(set.parameter_set.as_str()) || blank(
        set.runtime_policy.as_str(),
    ) {
        return Some(ParameterSetFault::Incomplete);
    }
    if !lists_slot(slots, set.material_slot.as_str()) {
        return Some(ParameterSetFault::UnknownSlot);
    }
    if !str_eq(set.runtime_policy.as_str(), "engine_native_static") {
        return Some(ParameterSetFault::NotStatic);
    }
    if set.parameters.len() == 0 {
        return Some(ParameterSetFault::NoParameters);
    }
    if has_incomplete_parameter(&set.parameters) {
        return Some(ParameterSetFault::IncompleteParameter);
    }
    None
}

fn slot_is_configured(sets: &Vec<MaterialParameterSetManifest>, slot: &str) -> (r: bool)
    ensures
        r == slot_configured(sets@, slot@),
{
    let mut i: usize = 0;
    while i < sets.len()
        invariant
            i <= sets@.len(),
            forall|k: int| 0 <= k < i ==> sets@[k].material_slot@ != slot@,
        decreases sets@.len() - i,
    {
        if str_eq(sets[i].material_slot.as_str(), slot) {
            return true;
        }
        i = i + 1;
    }
    false
}

fn binds_semantic(sets: &Vec<MaterialParameterSetManifest>, slot: &str, semantic: &str) -> (r: bool)
    ensures
        r == slot_has_semantic(sets@, slot@, semantic@),
{
    let mut i: usize = 0;
    while i < sets.len()
        invariant
            i <= sets@.len(),
            forall|a: int, b: int|
                0 <= a < i && sets@[a].material_slot@ == slot@ && 0 <= b
                    < sets@[a].parameters@.len() ==> #[trigger] sets@[a].parameters@[b].semantic@
                    != semantic@,
        decreases sets@.len() - i,
    {
        if str_eq(sets[i].material_slot.as_str(), slot) {
            let params = &sets[i].parameters;
            let mut j: usize = 0;
            while j < params.len()
                invariant
                    i < sets@.len(),
                    params@ == sets@[i as int].parameters@,
                    sets@[i as int].material_slot@ == slot@,
                    j <= params@.len(),
                    forall|b: int| 0 <= b < j ==> #[trigger] params@[b].semantic@ != semantic@,
                decreases params@.len() - j,
            {
                if str_eq(params[j].semantic.as_str(), semantic) {
                    assert(sets@[i as int].parameters@[j as int].semantic@ == semantic@);
                    return true;
                }
                j = j + 1;
            }
        }
        i = i + 1;
    }
    false
}

fn check_slot_semantics(
    sets: &Vec<MaterialParameterSetManifest>,
    slot: usize,
    name: &str,
    required: &Vec<&str>,
) -> (r: Result<(), ManifestError>)
    requires
        slot < 2,
        name@ == required_slot_name(slot as nat),
        required@.len() == required_semantics(slot as nat).len(),
        forall|k: int| 0 <= k < required@.len() ==> #[trigger] required@[k]@ == required_semantics(
            slot as nat,
        )[k],
    ensures
        r == slot_semantics_check(sets@, slot as nat),
{
    if !slot_is_configured(sets, name) {
        return Err(ManifestError::MissingParameterSlot { slot });
    }
    let ghost p = semantic_missing(sets@, slot as nat);
    let mut k: usize = 0;
    while k < required.len()
        invariant
            k <= required@.len(),
            required@.len() == required_semantics(slot as nat).len(),
            forall|q: int| 0 <= q < required@.len() ==> #[trigger] required@[q]@
                == required_semantics(slot as nat)[q],
            name@ == required_slot_name(slot as nat),
            slot_configured(sets@, name@),
            p == semantic_missing(sets@, slot as nat),
            forall|j: int| 0 <= j < k ==> !#[trigger] p(j),
        decreases required@.len() - k,
    {
        if !binds_semantic(sets, name, required[k]) {
            proof {
                lemma_first_where_is(required_semantics(slot as nat).len(), p, k as int);
            }
            return Err(ManifestError::MissingParameterSemantic { slot, semantic: k });
        }
        k = k + 1;
    }
    proof {
        lemma_first_where_none(required_semantics(slot as nat).len(), p);
    }
    Ok(())
}

/// Checks the material parameter sets of a manifest.
pub fn check_material_parameters(
    sets: &Vec<MaterialParameterSetManifest>,
    slots: &Vec<MaterialSlotManifest>,
) -> (r: Result<(), ManifestError>)
    ensures
        r == material_parameters_check(sets@, slots@),
{
    let ghost p = set_faulty(sets@, slots@);
    let mut i: usize = 0;
    while i < sets.len()
        invariant
            i <= sets@.len(),
            p == set_faulty(sets@, slots@),
            forall|j: int| 0 <= j < i ==> !#[trigger] p(j),
        decreases sets@.len() - i,
    {
        match find_parameter_set_fault(&sets[i], slots) {
            Some(fault) => {
                proof {
                    lemma_first_where_is(sets@.len(), p, i as int);
                }
                return Err(ManifestError::ParameterSet { index: i, fault });
            },
            None => {},
        }
        i = i + 1;
    }
    proof {
        lemma_first_where_none(sets@.len(), p);
    }
    let mut terrain: Vec<&str> = Vec::new();
    terrain.push("overlay_mask_texture");
    terrain.push("moss_mask_channel");
    terrain.push("wetness_mask_channel");
    terrain.push("crack_mask_channel");
    match check_slot_semantics(sets, 0, "terrain_surface", &terrain) {
        Err(e) => {
            return Err(e);
        },
        Ok(()) => {},
    }
    let mut foliage: Vec<&str> = Vec::new();
    foliage.push("alpha_cutoff");
    foliage.push("wind_strength");
    foliage.push("wind_speed");
    foliage.push("wind_direction_degrees");
    foliage.push("wind_gust_scale");
    foliage.push("fade_start_meters");
    foliage.push("fade_end_meters");
    foliage.push("color_variation_scale");
    check_slot_semantics(sets, 1, "groundcover_foliage", &foliage)
}

/// A material recipe lives at `materials/*.recipe.json`.
pub open spec fn material_recipe_location(file: Seq<char>) -> bool {
    has_prefix(file, "materials/"@) && has_suffix(file, ".recipe.json"@)
}

/// The first thing wrong with a material recipe, if anything.
pub open spec fn recipe_fault(
    recipe: MaterialRecipeManifest,
    slots: Seq<MaterialSlotManifest>,
    sets: Seq<MaterialParameterSetManifest>,
) -> Option<RecipeFault> {
    if is_blank(recipe.material_slot@) || is_blank(recipe.file@) || is_blank(recipe.runtime_policy@) {
        Some(RecipeFault::Incomplete)
    } else if !has_slot(slots, recipe.material_slot@) {
        Some(RecipeFault::UnknownSlot)
    } else if !slot_configured(sets, recipe.material_slot@) {
        Some(RecipeFault::NoParameterSet)
    } else if recipe.runtime_policy@ != static_policy() {
        Some(RecipeFault::NotStatic)
    } else if !material_recipe_location(recipe.file@) {
        Some(RecipeFault::Location)
    } else if recipe.engine_targets@.len() == 0 || any_blank(texts(recipe.engine_targets@)) {
        Some(RecipeFault::NoTargets)
    } else if !any_with_prefix(texts(recipe.engine_targets@), "unity_"@) || !any_with_prefix(
        texts(recipe.engine_targets@),
        "unreal_"@,
    ) {
        Some(RecipeFault::MissingEngine)
    } else {
        None
    }
}

/// Some recipe configures the slot.
pub open spec fn recipe_for_slot(recipes: Seq<MaterialRecipeManifest>, slot: Seq<char>) -> bool {
    exists|i: int| 0 <= i < recipes.len() && #[trigger] recipes[i].material_slot@ == slot
}

/// Whether the `i`-th recipe is faulty.
pub open spec fn recipe_faulty(
    recipes: Seq<MaterialRecipeManifest>,
    slots: Seq<MaterialSlotManifest>,
    sets: Seq<MaterialParameterSetManifest>,
) -> spec_fn(int) -> bool {
    |i: int| recipe_fault(recipes[i], slots, sets) is Some
}

/// The material recipe contract: each recipe in order, then a recipe for
/// the terrain and for the groundcover slot.
pub open spec fn material_recipes_check(
    recipes: Seq<MaterialRecipeManifest>,
    slots: Seq<MaterialSlotManifest>,
    sets: Seq<MaterialParameterSetManifest>,
) -> Result<(), ManifestError> {
    match first_where(recipes.len(), recipe_faulty(recipes, slots, sets)) {
        Some(i) => match recipe_fault(recipes[i], slots, sets) {
            Some(fault) => Err(ManifestError::Recipe { index: i as usize, fault }),
            None => Ok(()),
        },
        None => if !recipe_for_slot(recipes, "terrain_surface"@) {
            Err(ManifestError::MissingRecipeSlot { slot: 0 })
        } else if !recipe_for_slot(recipes, "groundcover_foliage"@) {
            Err(ManifestError::MissingRecipeSlot { slot: 1 })
        } else {
            Ok(())
        },
    }
}

fn find_recipe_fault(
    recipe: &MaterialRecipeManifest,
    slots: &Vec<MaterialSlotManifest>,
    sets: &Vec<MaterialParameterSetManifest>,
) -> (r: Option<RecipeFault>)
    ensures
        r == recipe_fault(*recipe, slots@, sets@),
{
    if blank(recipe.material_slot.as_str()) || blank(recipe.file.as_str()) || blank(
        recipe.runtime_policy.as_str(),
    ) {
        return Some(RecipeFault::Incomplete);
    }
    if !lists_slot(slots, recipe.material_slot.as_str()) {
        return Some(RecipeFault::UnknownSlot);
    }
    if !slot_is_configured(sets, recipe.material_slot.as_str()) {
        return Some(RecipeFault::NoParameterSet);
    }
    if !str_eq(recipe.runtime_policy.as_str(), "engine_native_static") {
        return Some(RecipeFault::NotStatic);
    }
    if !starts_with(recipe.file.as_str(), "materials/") || !ends_with(
        recipe.file.as_str(),
        ".recipe.json",
    ) {
        return Some(RecipeFault::Location);
    }
    if recipe.engine_targets.len() == 0 || has_blank(&recipe.engine_targets) {
        return Some(RecipeFault::NoTargets);
    }
    if !has_with_prefix(&recipe.engine_targets, "unity_") || !has_with_prefix(
        &recipe.engine_targets,
        "unreal_",
    ) {
        return Some(RecipeFault::MissingEngine);
    }
    None
}

fn has_recipe_for_slot(recipes: &Vec<MaterialRecipeManifest>, slot: &str) -> (r: bool)
    ensures
        r == recipe_for_slot(recipes@, slot@),
{
    let mut i: usize = 0;
    while i < recipes.len()
        invariant
            i <= recipes@.len(),
            forall|k: int| 0 <= k < i ==> recipes@[k].material_slot@ != slot@,
        decreases recipes@.len() - i,
    {
        if str_eq(recipes[i].material_slot.as_str(), slot) {
            return true;
        }
        i = i + 1;
    }
    false
}

/// Checks the material recipes of a manifest.
pub fn check_material_recipes(
    recipes: &Vec<MaterialRecipeManifest>,
    slots: &Vec<MaterialSlotManifest>,
    sets: &Vec<MaterialParameterSetManifest>,
) -> (r: Result<(), ManifestError>)
    ensures
        r == material_recipes_check(recipes@, slots@, sets@),
{
    let ghost p = recipe_faulty(recipes@, slots@, sets@);
    let mut i: usize = 0;
    while i < recipes.len()
        invariant
            i <= recipes@.len(),
            p == recipe_faulty(recipes@, slots@, sets@),
            forall|j: int| 0 <= j < i ==> !#[trigger] p(j),
        decreases recipes@.len() - i,
    {
        match find_recipe_fault(&recipes[i], slots, sets) {
            Some(fault) => {
                proof {
                    lemma_first_where_is(recipes@.len(), p, i as int);
                }
                return Err(ManifestError::Recipe { index: i, fault });
            },
            None => {},
        }
        i = i + 1;
    }
    proof {
        lemma_first_where_none(recipes@.len(), p);
    }
    if !has_recipe_for_slot(recipes, "terrain_surface") {
        return Err(ManifestError::MissingRecipeSlot { slot: 0 });
    }
    if !has_recipe_for_slot(recipes, "groundcover_foliage") {
        return Err(ManifestError::MissingRecipeSlot { slot: 1 });
    }
    Ok(())
}

/// The largest `i < n` with `p(i)`, if any.
pub open spec fn last_where(n: nat, p: spec_fn(int) -> bool) -> Option<int>
    decreases n,
{
    if n == 0 {
        None
    } else if p(n - 1) {
        Some(n - 1)
    } else {
        last_where((n - 1) as nat, p)
    }
}

/// `last_where` finds the greatest witness, and `None` means there is none.
pub proof fn lemma_last_where(n: nat, p: spec_fn(int) -> bool)
    ensures
        match last_where(n, p) {
            Some(i) => 0 <= i < n && p(i) && forall|j: int| i < j < n ==> !#[trigger] p(j),
            None => forall|j: int| 0 <= j < n ==> !#[trigger] p(j),
        },
    decreases n,
{
    if n > 0 {
        lemma_last_where((n - 1) as nat, p);
    }
}

/// An engine recipe lives at `engines/*.recipe.json`.
pub open spec fn engine_recipe_location(file: Seq<char>) -> bool {
    has_prefix(file, "engines/"@) && has_suffix(file, ".recipe.json"@)
}

/// The first thing wrong with an engine import recipe, if anything.
pub open spec fn engine_recipe_fault(recipe: EngineImportRecipeManifest) -> Option<EngineRecipeFault> {
    if is_blank(recipe.engine@) || is_blank(recipe.file@) || is_blank(recipe.profile@) || is_blank(
        recipe.runtime_policy@,
    ) {
        Some(EngineRecipeFault::Incomplete)
    } else if !engine_recipe_location(recipe.file@) {
        Some(EngineRecipeFault::Location)
    } else if recipe.runtime_policy@ != static_policy() {
        Some(EngineRecipeFault::NotStatic)
    } else if recipe.expected_systems@.len() == 0 || any_blank(texts(recipe.expected_systems@)) {
        Some(EngineRecipeFault::NoSystems)
    } else {
        None
    }
}

/// Whether the `i`-th engine recipe is faulty.
pub open spec fn engine_recipe_faulty(recipes: Seq<EngineImportRecipeManifest>) -> spec_fn(int) -> bool {
    |i: int| engine_recipe_fault(recipes[i]) is Some
}

/// Whether the `i`-th engine recipe is for `engine`.
pub open spec fn recipe_is_for(recipes: Seq<EngineImportRecipeManifest>, engine: Seq<char>) -> spec_fn(
    int,
) -> bool {
    |i: int| recipes[i].engine@ == engine
}

/// The required engines with the profile each must target: 0 unity with
/// mobile, 1 unreal with console.
pub open spec fn required_engine(engine: nat) -> (Seq<char>, Seq<char>) {
    if engine == 0 {
        ("unity"@, "mobile"@)
    } else {
        ("unreal"@, "console"@)
    }
}

/// The last recipe for the engine, which is the one that counts, targets
/// the engine's profile.
pub open spec fn engine_profile_check(recipes: Seq<EngineImportRecipeManifest>, engine: nat) -> Result<
    (),
    ManifestError,
> {
    match last_where(recipes.len(), recipe_is_for(recipes, required_engine(engine).0)) {
        None => Err(ManifestError::MissingEngineRecipe { engine: engine as usize }),
        Some(i) => if recipes[i].profile@ != required_engine(engine).1 {
            Err(ManifestError::EngineRecipeProfile { index: i as usize })
        } else {
            Ok(())
        },
    }
}

/// The engine import recipe contract: each recipe in order, then the
/// unity and unreal recipes and their profiles.
pub open spec fn engine_recipes_check(recipes: Seq<EngineImportRecipeManifest>) -> Result<
    (),
    ManifestError,
> {
    match first_where(recipes.len(), engine_recipe_faulty(recipes)) {
        Some(i) => match engine_recipe_fault(recipes[i]) {
            Some(fault) => Err(ManifestError::EngineRecipe { index: i as usize, fault }),
            None => Ok(()),
        },
        None => match engine_profile_check(recipes, 0) {
            Err(e) => Err(e),
            Ok(()) => engine_profile_check(recipes, 1),
        },
    }
}

fn find_engine_recipe_fault(recipe: &EngineImportRecipeManifest) -> (r: Option<EngineRecipeFault>)
    ensures
        r == engine_recipe_fault(*recipe),
{
    if blank(recipe.engine.as_str()) || blank(recipe.file.as_str()) || blank(recipe.profile.as_str())
        || blank(recipe.runtime_policy.as_str()) {
        return Some(EngineRecipeFault::Incomplete);
    }
    if !starts_with(recipe.file.as_str(), "engines/") || !ends_with(
        recipe.file.as_str(),
        ".recipe.json",
    ) {
        return Some(EngineRecipeFault::Location);
    }
    if !str_eq(recipe.runtime_policy.as_str(), "engine_native_static") {
        return Some(EngineRecipeFault::NotStatic);
    }
    if recipe.expected_systems.len() == 0 || has_blank(&recipe.expected_systems) {
        return Some(EngineRecipeFault::NoSystems);
    }
    None
}

fn check_engine_profile(
    recipes: &Vec<EngineImportRecipeManifest>,
    engine: usize,
    name: &str,
    profile: &str,
) -> (r: Result<(), ManifestError>)
    requires
        engine < 2,
        name@ == required_engine(engine as nat).0,
        profile@ == required_engine(engine as nat).1,
    ensures
        r == engine_profile_check(recipes@, engine as nat),
{
    let ghost p = recipe_is_for(recipes@, name@);
    let mut found: Option<usize> = None;
    let mut i: usize = 0;
    while i < recipes.len()
        invariant
            i <= recipes@.len(),
            p == recipe_is_for(recipes@, name@),
            match last_where(i as nat, p) {
                Some(k) => 0 <= k < i && found == Some(k as usize),
                None => found is None,
            },
        decreases recipes@.len() - i,
    {
        proof {
            lemma_last_where(i as nat, p);
        }
        if str_eq(recipes[i].engine.as_str(), name) {
            found = Some(i);
        }
        i = i + 1;
    }
    match found {
        None => Err(ManifestError::MissingEngineRecipe { engine }),
        Some(k) => {
            if !str_eq(recipes[k].profile.as_str(), profile) {
                Err(ManifestError::EngineRecipeProfile { index: k })
            } else {
                Ok(())
            }
        },
    }
}

/// Checks the engine import recipes of a manifest.
pub fn check_engine_import_recipes(recipes: &Vec<EngineImportRecipeManifest>) -> (r: Result<
    (),
    ManifestError,
>)
    ensures
        r == engine_recipes_check(recipes@),
{
    let ghost p = engine_recipe_faulty(recipes@);
    let mut i: usize = 0;
    while i < recipes.len()
        invariant
            i <= recipes@.len(),
            p == engine_recipe_faulty(recipes@),
            forall|j: int| 0 <= j < i ==> !#[trigger] p(j),
        decreases recipes@.len() - i,
    {
        match find_engine_recipe_fault(&recipes[i]) {
            Some(fault) => {
                proof {
                    lemma_first_where_is(recipes@.len(), p, i as int);
                }
                return Err(ManifestError::EngineRecipe { index: i, fault });
            },
            None => {},
        }
        i = i + 1;
    }
    proof {
        lemma_first_where_none(recipes@.len(), p);
    }
    match check_engine_profile(recipes, 0, "unity", "mobile") {
        Err(e) => {
            return Err(e);
        },
        Ok(()) => {},
    }
    check_engine_profile(recipes, 1, "unreal", "console")
}

} // verus!
