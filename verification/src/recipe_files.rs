//! The checks an importer runs on the recipe files of a package against
//! its manifest.

use crate::contract::{
    any_with_prefix, contains_text, first_where, has_with_prefix, lemma_first_where_is,
    lemma_first_where_none,
};
use crate::manifest::{
    texts, EngineGroundcoverImportRecipe, EngineImportRecipeManifest,
    MaterialParameterBindingManifest, MaterialParameterSetManifest, MaterialRecipeFile,
    MaterialRecipeManifest,
};
use crate::material_contract::static_policy;
use crate::package_contract::{ManifestContract, PrototypeEntry, ScatterBinaryFileEntry};
use crate::sorted_text::{insert_sorted, lemma_sorted_unique, strictly_sorted};
use crate::text::{owned, str_eq};
use vstd::prelude::*;

verus! {

/// Why a material recipe file disagrees with its manifest.
#[derive(Debug, Clone, Copy, PartialEq, Eq, Structural)]
pub enum RecipeFileError {
    /// The schema is not `midori.material_recipe.v1`.
    Schema,
    /// The material slot differs from the manifest's.
    SlotMismatch,
    /// The runtime policy differs from the manifest's or is not
    /// `engine_native_static`.
    RuntimePolicy,
    /// The shader policy is not `preview_only`.
    ShaderPolicy,
    /// The texture pipeline is not `parked`.
    TexturePipeline,
    /// The engine targets differ from the manifest's.
    EngineTargets,
    /// No manifest parameter set configures the recipe's slot.
    NoParameterSet,
    /// The parameter set differs from the manifest's.
    ParameterSetMismatch,
    /// The parameter names differ from the manifest's.
    ParameterNames,
    /// A terrain recipe does not require `maps/masks_rgba.png`.
    MissingMasksTexture,
    /// A terrain recipe lacks an overlay (0 moss, 1 wetness, 2 cracks).
    MissingOverlay { overlay: usize },
    /// A groundcover recipe lacks a vertex stream (0 `TEXCOORD_1.x`,
    /// 1 `COLOR_0.y`).
    MissingVertexStream { stream: usize },
}

/// The names of a list of parameter bindings, as a set.
pub open spec fn parameter_names(ps: Seq<MaterialParameterBindingManifest>) -> Set<Seq<char>> {
    Set::new(|n: Seq<char>| exists|i: int| 0 <= i < ps.len() && #[trigger] ps[i].name@ == n)
}

/// Whether the `i`-th parameter set configures `slot`.
pub open spec fn set_for_slot(sets: Seq<MaterialParameterSetManifest>, slot: Seq<char>) -> spec_fn(
    int,
) -> bool {
    |i: int| sets[i].material_slot@ == slot
}

/// What a material recipe file must agree on with its manifest entry and
/// the first parameter set of its slot, checked in order.
pub open spec fn recipe_contents_check(
    recipe: MaterialRecipeFile,
    manifest_recipe: MaterialRecipeManifest,
    sets: Seq<MaterialParameterSetManifest>,
) -> Result<(), RecipeFileError> {
    if recipe.schema@ != "midori.material_recipe.v1"@ {
        Err(RecipeFileError::Schema)
    } else if recipe.material_slot@ != manifest_recipe.material_slot@ {
        Err(RecipeFileError::SlotMismatch)
    } else if recipe.runtime_policy@ != manifest_recipe.runtime_policy@ || recipe.runtime_policy@
        != static_policy() {
        Err(RecipeFileError::RuntimePolicy)
    } else if recipe.shader_policy@ != "preview_only"@ {
        Err(RecipeFileError::ShaderPolicy)
    } else if recipe.texture_pipeline@ != "parked"@ {
        Err(RecipeFileError::TexturePipeline)
    } else if texts(recipe.engine_targets@) != texts(manifest_recipe.engine_targets@) {
        Err(RecipeFileError::EngineTargets)
    } else {
        match first_where(sets.len(), set_for_slot(sets, recipe.material_slot@)) {
            None => Err(RecipeFileError::NoParameterSet),
            Some(k) => if recipe.parameter_set@ != sets[k].parameter_set@ {
                Err(RecipeFileError::ParameterSetMismatch)
            } else if parameter_names(recipe.parameters@) != parameter_names(
                sets[k].parameters@,
            ) {
                Err(RecipeFileError::ParameterNames)
            } else {
                Ok(())
            },
        }
    }
}

/// What a material recipe must require for its slot: the mask texture and
/// the three overlays for the terrain, the wind and variation streams for
/// groundcover.
pub open spec fn recipe_requirements_check(recipe: MaterialRecipeFile) -> Result<
    (),
    RecipeFileError,
> {
    if recipe.material_slot@ == "terrain_surface"@ {
        if !texts(recipe.required_textures@).contains("maps/masks_rgba.png"@) {
            Err(RecipeFileError::MissingMasksTexture)
        } else if !texts(recipe.surface_overlays@).contains("moss"@) {
            Err(RecipeFileError::MissingOverlay { overlay: 0 })
        } else if !texts(recipe.surface_overlays@).contains("wetness"@) {
            Err(RecipeFileError::MissingOverlay { overlay: 1 })
        } else if !texts(recipe.surface_overlays@).contains("cracks"@) {
            Err(RecipeFileError::MissingOverlay { overlay: 2 })
        } else {
            Ok(())
        }
    } else if recipe.material_slot@ == "groundcover_foliage"@ {
        if !any_with_prefix(texts(recipe.required_vertex_streams@), "TEXCOORD_1.x"@) {
            Err(RecipeFileError::MissingVertexStream { stream: 0 })
        } else if !any_with_prefix(texts(recipe.required_vertex_streams@), "COLOR_0.y"@) {
            Err(RecipeFileError::MissingVertexStream { stream: 1 })
        } else {
            Ok(())
        }
    } else {
        Ok(())
    }
}

/// Two string lists are equal.
pub fn same_strings(a: &Vec<String>, b: &Vec<String>) -> (r: bool)
    ensures
        r == (texts(a@) == texts(b@)),
{
    if a.len() != b.len() {
        assert(texts(a@).len() != texts(b@).len());
        return false;
    }
    let mut i: usize = 0;
    while i < a.len()
        invariant
            a@.len() == b@.len(),
            i <= a@.len(),
            forall|j: int| 0 <= j < i ==> a@[j]@ == b@[j]@,
        decreases a@.len() - i,
    {
        if !str_eq(a[i].as_str(), b[i].as_str()) {
            assert(texts(a@)[i as int] != texts(b@)[i as int]);
            return false;
        }
        i = i + 1;
    }
    assert(texts(a@) =~= texts(b@));
    true
}

fn names_parameter(ps: &Vec<MaterialParameterBindingManifest>, name: &str) -> (r: bool)
    ensures
        r == parameter_names(ps@).contains(name@),
{
    let mut i: usize = 0;
    while i < ps.len()
        invariant
            i <= ps@.len(),
            forall|j: int| 0 <= j < i ==> ps@[j].name@ != name@,
        decreases ps@.len() - i,
    {
        if str_eq(ps[i].name.as_str(), name) {
            assert(ps@[i as int].name@ == name@);
            return true;
        }
        i = i + 1;
    }
    false
}

/// Every name of `a` is a name of `b`.
fn names_within(a: &Vec<MaterialParameterBindingManifest>, b: &Vec<MaterialParameterBindingManifest>) -> (r:
    bool)
    ensures
        r == parameter_names(a@).subset_of(parameter_names(b@)),
{
    let mut i: usize = 0;
    while i < a.len()
        invariant
            i <= a@.len(),
            forall|j: int| 0 <= j < i ==> parameter_names(b@).contains(#[trigger] a@[j].name@),
        decreases a@.len() - i,
    {
        if !names_parameter(b, a[i].name.as_str()) {
            assert(parameter_names(a@).contains(a@[i as int].name@));
            return false;
        }
        i = i + 1;
    }
    assert forall|n: Seq<char>| parameter_names(a@).contains(n) implies parameter_names(
        b@,
    ).contains(n) by {
        let j = choose|j: int| 0 <= j < a@.len() && #[trigger] a@[j].name@ == n;
        assert(parameter_names(b@).contains(a@[j].name@));
    }
    true
}

/// The first parameter set configuring `slot`.
pub fn find_set_for_slot(sets: &Vec<MaterialParameterSetManifest>, slot: &str) -> (r: Option<usize>)
    ensures
        match r {
            Some(k) => k < sets@.len() && first_where(sets@.len(), set_for_slot(sets@, slot@))
                == Some(k as int),
            None => first_where(sets@.len(), set_for_slot(sets@, slot@)) is None,
        },
{
    let ghost p = set_for_slot(sets@, slot@);
    let mut k: usize = 0;
    while k < sets.len()
        invariant
            k <= sets@.len(),
            p == set_for_slot(sets@, slot@),
            forall|j: int| 0 <= j < k ==> !#[trigger] p(j),
        decreases sets@.len() - k,
    {
        if str_eq(sets[k].material_slot.as_str(), slot) {
            proof {
                lemma_first_where_is(sets@.len(), p, k as int);
            }
            return Some(k);
        }
        k = k + 1;
    }
    proof {
        lemma_first_where_none(sets@.len(), p);
    }
    None
}

/// Checks a material recipe file against its manifest entry and the
/// manifest's parameter sets.
pub fn check_recipe_contents(
    recipe: &MaterialRecipeFile,
    manifest_recipe: &MaterialRecipeManifest,
    sets: &Vec<MaterialParameterSetManifest>,
) -> (r: Result<(), RecipeFileError>)
    ensures
        r == recipe_contents_check(*recipe, *manifest_recipe, sets@),
{
    if !str_eq(recipe.schema.as_str(), "midori.material_recipe.v1") {
        return Err(RecipeFileError::Schema);
    }
    if !str_eq(recipe.material_slot.as_str(), manifest_recipe.material_slot.as_str()) {
        return Err(RecipeFileError::SlotMismatch);
    }
    if !str_eq(recipe.runtime_policy.as_str(), manifest_recipe.runtime_policy.as_str()) || !str_eq(
        recipe.runtime_policy.as_str(),
        "engine_native_static",
    ) {
        return Err(RecipeFileError::RuntimePolicy);
    }
    if !str_eq(recipe.shader_policy.as_str(), "preview_only") {
        return Err(RecipeFileError::ShaderPolicy);
    }
    if !str_eq(recipe.texture_pipeline.as_str(), "parked") {
        return Err(RecipeFileError::TexturePipeline);
    }
    if !same_strings(&recipe.engine_targets, &manifest_recipe.engine_targets) {
        return Err(RecipeFileError::EngineTargets);
    }
    let k = match find_set_for_slot(sets, recipe.material_slot.as_str()) {
        None => {
            return Err(RecipeFileError::NoParameterSet);
        },
        Some(k) => k,
    };
    let set = &sets[k];
    if !str_eq(recipe.parameter_set.as_str(), set.parameter_set.as_str()) {
        return Err(RecipeFileError::ParameterSetMismatch);
    }
    let within = names_within(&recipe.parameters, &set.parameters);
    let covers = names_within(&set.parameters, &recipe.parameters);
    proof {
        if within && covers {
            assert(parameter_names(recipe.parameters@) =~= parameter_names(set.parameters@));
        }
    }
    if !(within && covers) {
        return Err(RecipeFileError::ParameterNames);
    }
    Ok(())
}

/// Checks what a material recipe file requires for its slot.
pub fn check_recipe_requirements(recipe: &MaterialRecipeFile) -> (r: Result<(), RecipeFileError>)
    ensures
        r == recipe_requirements_check(*recipe),
{
    if str_eq(recipe.material_slot.as_str(), "terrain_surface") {
        if !contains_text(&recipe.required_textures, "maps/masks_rgba.png") {
            return Err(RecipeFileError::MissingMasksTexture);
        }
        if !contains_text(&recipe.surface_overlays, "moss") {
            return Err(RecipeFileError::MissingOverlay { overlay: 0 });
        }
        if !contains_text(&recipe.surface_overlays, "wetness") {
            return Err(RecipeFileError::MissingOverlay { overlay: 1 });
        }
        if !contains_text(&recipe.surface_overlays, "cracks") {
            return Err(RecipeFileError::MissingOverlay { overlay: 2 });
        }
        Ok(())
    } else if str_eq(recipe.material_slot.as_str(), "groundcover_foliage") {
        if !has_with_prefix(&recipe.required_vertex_streams, "TEXCOORD_1.x") {
            return Err(RecipeFileError::MissingVertexStream { stream: 0 });
        }
        if !has_with_prefix(&recipe.required_vertex_streams, "COLOR_0.y") {
            return Err(RecipeFileError::MissingVertexStream { stream: 1 });
        }
        Ok(())
    } else {
        Ok(())
    }
}

/// The normal map an engine imports: Y- for unreal, Y+ otherwise.
pub open spec fn engine_normal_map(m: ManifestContract, engine: Seq<char>) -> Seq<char> {
    if engine == "unreal"@ {
        m.normal_conventions.unreal_yminus_file@
    } else {
        m.normal_conventions.unity_yplus_file@
    }
}

/// The files of the first `k` binary scatter files.
pub open spec fn binary_file_names(files: Seq<ScatterBinaryFileEntry>, k: int) -> Set<Seq<char>> {
    Set::new(|f: Seq<char>| exists|i: int| 0 <= i < k && #[trigger] files[i].file@ == f)
}

/// The LOD files of the prototypes before `i`, and of the first `j` LODs of
/// prototype `i`.
pub open spec fn lod_file_names(ps: Seq<PrototypeEntry>, i: int, j: int) -> Set<Seq<char>> {
    Set::new(
        |f: Seq<char>|
            exists|a: int, b: int|
                ((0 <= a < i && 0 <= b < ps[a].lods@.len()) || (a == i && 0 <= b < j))
                    && #[trigger] ps[a].lods@[b].file@ == f,
    )
}

/// The files of the first `k` material recipes.
pub open spec fn recipe_file_names(rs: Seq<MaterialRecipeManifest>, k: int) -> Set<Seq<char>> {
    Set::new(|f: Seq<char>| exists|i: int| 0 <= i < k && #[trigger] rs[i].file@ == f)
}

/// The files of the first `k` engine import recipes.
pub open spec fn engine_file_names(rs: Seq<EngineImportRecipeManifest>, k: int) -> Set<
    Seq<char>,
> {
    Set::new(|f: Seq<char>| exists|i: int| 0 <= i < k && #[trigger] rs[i].file@ == f)
}

/// The fixed files, terrain maps and engine normal map of every package.
pub open spec fn base_source_names(m: ManifestContract, engine: Seq<char>) -> Set<Seq<char>> {
    set![
        "midori_nature.json"@,
        "preview_tile.glb"@,
        m.heightmap_file@,
        m.masks_file@,
        m.grass_density_file@,
        engine_normal_map(m, engine),
    ]
}

/// The JSON scatter file, if any.
pub open spec fn json_source_names(m: ManifestContract) -> Set<Seq<char>> {
    match m.scatter.json_file {
        Some(f) => set![f@],
        None => Set::empty(),
    }
}

/// Every package file an engine import recipe fingerprints.
pub open spec fn expected_source_set(m: ManifestContract, engine: Seq<char>) -> Set<Seq<char>> {
    base_source_names(m, engine).union(json_source_names(m)).union(
        binary_file_names(m.scatter.binary_files@, m.scatter.binary_files@.len() as int),
    ).union(lod_file_names(m.prototypes@, m.prototypes@.len() as int, 0)).union(
        recipe_file_names(m.material_recipes@, m.material_recipes@.len() as int),
    ).union(engine_file_names(m.engine_import_recipes@, m.engine_import_recipes@.len() as int))
}

/// The package files an engine import recipe must list: each once, in
/// sorted order.
pub fn expected_engine_import_source_files(m: &ManifestContract, engine: &str) -> (r: Vec<String>)
    ensures
        strictly_sorted(texts(r@)),
        texts(r@).to_set() == expected_source_set(*m, engine@),
{
    let mut r: Vec<String> = Vec::new();
    assert(texts(r@).to_set() =~= Set::empty());
    insert_sorted(&mut r, "midori_nature.json");
    insert_sorted(&mut r, "preview_tile.glb");
    insert_sorted(&mut r, m.heightmap_file.as_str());
    insert_sorted(&mut r, m.masks_file.as_str());
    insert_sorted(&mut r, m.grass_density_file.as_str());
    let normal = if str_eq(engine, "unreal") {
        m.normal_conventions.unreal_yminus_file.as_str()
    } else {
        m.normal_conventions.unity_yplus_file.as_str()
    };
    insert_sorted(&mut r, normal);
    let ghost base = base_source_names(*m, engine@);
    assert(texts(r@).to_set() =~= base);
    match &m.scatter.json_file {
        Some(f) => {
            insert_sorted(&mut r, f.as_str());
        },
        None => {},
    }
    let ghost s0 = base.union(json_source_names(*m));
    assert(texts(r@).to_set() =~= s0);
    let files = &m.scatter.binary_files;
    let mut i: usize = 0;
    assert(binary_file_names(files@, 0) =~= Set::empty());
    while i < files.len()
        invariant
            i <= files@.len(),
            strictly_sorted(texts(r@)),
            texts(r@).to_set() == s0.union(binary_file_names(files@, i as int)),
        decreases files@.len() - i,
    {
        insert_sorted(&mut r, files[i].file.as_str());
        assert(binary_file_names(files@, i + 1) =~= binary_file_names(files@, i as int).insert(
            files@[i as int].file@,
        ));
        assert(texts(r@).to_set() =~= s0.union(binary_file_names(files@, i + 1)));
        i = i + 1;
    }
    let ghost s1 = s0.union(binary_file_names(files@, files@.len() as int));
    let ps = &m.prototypes;
    let mut a: usize = 0;
    assert(lod_file_names(ps@, 0, 0) =~= Set::empty());
    while a < ps.len()
        invariant
            a <= ps@.len(),
            strictly_sorted(texts(r@)),
            texts(r@).to_set() == s1.union(lod_file_names(ps@, a as int, 0)),
        decreases ps@.len() - a,
    {
        let lods = &ps[a].lods;
        let mut b: usize = 0;
        while b < lods.len()
            invariant
                a < ps@.len(),
                lods@ == ps@[a as int].lods@,
                b <= lods@.len(),
                strictly_sorted(texts(r@)),
                texts(r@).to_set() == s1.union(lod_file_names(ps@, a as int, b as int)),
            decreases lods@.len() - b,
        {
            insert_sorted(&mut r, lods[b].file.as_str());
            assert(lod_file_names(ps@, a as int, b + 1) =~= lod_file_names(
                ps@,
                a as int,
                b as int,
            ).insert(lods@[b as int].file@));
            assert(texts(r@).to_set() =~= s1.union(lod_file_names(ps@, a as int, b + 1)));
            b = b + 1;
        }
        assert(lod_file_names(ps@, a + 1, 0) =~= lod_file_names(ps@, a as int, lods@.len() as int));
        a = a + 1;
    }
    let ghost s2 = s1.union(lod_file_names(ps@, ps@.len() as int, 0));
    let rs = &m.material_recipes;
    let mut i: usize = 0;
    assert(recipe_file_names(rs@, 0) =~= Set::empty());
    while i < rs.len()
        invariant
            i <= rs@.len(),
            strictly_sorted(texts(r@)),
            texts(r@).to_set() == s2.union(recipe_file_names(rs@, i as int)),
        decreases rs@.len() - i,
    {
        insert_sorted(&mut r, rs[i].file.as_str());
        assert(recipe_file_names(rs@, i + 1) =~= recipe_file_names(rs@, i as int).insert(
            rs@[i as int].file@,
        ));
        assert(texts(r@).to_set() =~= s2.union(recipe_file_names(rs@, i + 1)));
        i = i + 1;
    }
    let ghost s3 = s2.union(recipe_file_names(rs@, rs@.len() as int));
    let es = &m.engine_import_recipes;
    let mut i: usize = 0;
    assert(engine_file_names(es@, 0) =~= Set::empty());
    while i < es.len()
        invariant
            i <= es@.len(),
            strictly_sorted(texts(r@)),
            texts(r@).to_set() == s3.union(engine_file_names(es@, i as int)),
        decreases es@.len() - i,
    {
        insert_sorted(&mut r, es[i].file.as_str());
        assert(engine_file_names(es@, i + 1) =~= engine_file_names(es@, i as int).insert(
            es@[i as int].file@,
        ));
        assert(texts(r@).to_set() =~= s3.union(engine_file_names(es@, i + 1)));
        i = i + 1;
    }
    r
}

/// The files of the manifest's material recipes, in order.
pub open spec fn recipe_files_of(m: ManifestContract) -> Seq<Seq<char>> {
    m.material_recipes@.map_values(|r: MaterialRecipeManifest| r.file@)
}

/// The file of each material recipe, in manifest order.
pub fn material_recipe_files(m: &ManifestContract) -> (r: Vec<String>)
    ensures
        texts(r@) == recipe_files_of(*m),
{
    let rs = &m.material_recipes;
    let mut r: Vec<String> = Vec::new();
    let mut i: usize = 0;
    while i < rs.len()
        invariant
            i <= rs@.len(),
            r@.len() == i,
            forall|j: int| 0 <= j < i ==> #[trigger] r@[j]@ == rs@[j].file@,
        decreases rs@.len() - i,
    {
        r.push(owned(rs[i].file.as_str()));
        i = i + 1;
    }
    assert(texts(r@) =~= recipe_files_of(*m));
    r
}

/// Whether the `i`-th material recipe configures `slot`.
pub open spec fn recipe_slot_is(rs: Seq<MaterialRecipeManifest>, slot: Seq<char>) -> spec_fn(
    int,
) -> bool {
    |i: int| rs[i].material_slot@ == slot
}

/// The file of the first material recipe of the slot.
pub open spec fn recipe_file_for(m: ManifestContract, slot: Seq<char>) -> Option<Seq<char>> {
    match first_where(m.material_recipes@.len(), recipe_slot_is(m.material_recipes@, slot)) {
        Some(i) => Some(m.material_recipes@[i].file@),
        None => None,
    }
}

/// The file of the first material recipe that configures `slot`.
pub fn material_recipe_file_for_slot(m: &ManifestContract, slot: &str) -> (r: Option<String>)
    ensures
        match r {
            Some(f) => recipe_file_for(*m, slot@) == Some(f@),
            None => recipe_file_for(*m, slot@) is None,
        },
{
    let rs = &m.material_recipes;
    let ghost p = recipe_slot_is(rs@, slot@);
    let mut i: usize = 0;
    while i < rs.len()
        invariant
            i <= rs@.len(),
            p == recipe_slot_is(rs@, slot@),
            rs@ == m.material_recipes@,
            forall|j: int| 0 <= j < i ==> !#[trigger] p(j),
        decreases rs@.len() - i,
    {
        if str_eq(rs[i].material_slot.as_str(), slot) {
            proof {
                lemma_first_where_is(rs@.len(), p, i as int);
            }
            return Some(owned(rs[i].file.as_str()));
        }
        i = i + 1;
    }
    proof {
        lemma_first_where_none(rs@.len(), p);
    }
    None
}

/// The prototype has a LOD with index 0.
pub open spec fn has_lod0(p: PrototypeEntry) -> bool {
    exists|j: int| 0 <= j < p.lods@.len() && #[trigger] p.lods@[j].index == 0
}

/// How many prototypes have a LOD 0.
pub open spec fn lod0_count(ps: Seq<PrototypeEntry>) -> nat
    decreases ps.len(),
{
    if ps.len() == 0 {
        0
    } else {
        lod0_count(ps.drop_last()) + if has_lod0(ps.last()) {
            1nat
        } else {
            0nat
        }
    }
}

fn lists_lod0(p: &PrototypeEntry) -> (r: bool)
    ensures
        r == has_lod0(*p),
{
    let mut j: usize = 0;
    while j < p.lods.len()
        invariant
            j <= p.lods@.len(),
            forall|k: int| 0 <= k < j ==> p.lods@[k].index != 0,
        decreases p.lods@.len() - j,
    {
        if p.lods[j].index == 0 {
            assert(p.lods@[j as int].index == 0);
            return true;
        }
        j = j + 1;
    }
    false
}

/// The number of prototypes with a LOD 0 asset.
pub fn lod0_prototype_count(m: &ManifestContract) -> (r: usize)
    ensures
        r == lod0_count(m.prototypes@),
{
    let ps = &m.prototypes;
    let mut count: usize = 0;
    let mut i: usize = 0;
    while i < ps.len()
        invariant
            i <= ps@.len(),
            count == lod0_count(ps@.take(i as int)),
            count <= i,
        decreases ps@.len() - i,
    {
        assert(ps@.take(i + 1).drop_last() =~= ps@.take(i as int));
        if lists_lod0(&ps[i]) {
            count = count + 1;
        }
        i = i + 1;
    }
    assert(ps@.take(i as int) =~= ps@);
    count
}

/// The instances declared by the binary scatter files.
pub open spec fn instance_total(files: Seq<ScatterBinaryFileEntry>) -> nat
    decreases files.len(),
{
    if files.len() == 0 {
        0
    } else {
        (instance_total(files.drop_last()) + files.last().instance_count) as nat
    }
}

proof fn lemma_instance_total_prefix(files: Seq<ScatterBinaryFileEntry>, i: int)
    requires
        0 <= i <= files.len(),
    ensures
        instance_total(files.take(i)) <= instance_total(files),
    decreases files.len() - i,
{
    if i < files.len() {
        lemma_instance_total_prefix(files, i + 1);
        assert(files.take(i + 1).drop_last() =~= files.take(i));
    } else {
        assert(files.take(i) =~= files);
    }
}

/// The scatter instances the manifest's binary files declare.
pub fn manifest_scatter_instance_count(m: &ManifestContract) -> (r: usize)
    requires
        instance_total(m.scatter.binary_files@) <= usize::MAX,
    ensures
        r == instance_total(m.scatter.binary_files@),
{
    let files = &m.scatter.binary_files;
    let mut total: usize = 0;
    let mut i: usize = 0;
    while i < files.len()
        invariant
            i <= files@.len(),
            total == instance_total(files@.take(i as int)),
            instance_total(files@) <= usize::MAX,
        decreases files@.len() - i,
    {
        proof {
            assert(files@.take(i + 1).drop_last() =~= files@.take(i as int));
            lemma_instance_total_prefix(files@, i + 1);
        }
        total = total + files[i].instance_count;
        i = i + 1;
    }
    assert(files@.take(i as int) =~= files@);
    total
}

/// An engine import recipe file as the contract reads it; its
/// floating-point settings are compared by the caller.
#[derive(Debug, Clone)]
pub struct EngineRecipeFileEntry {
    /// Recipe schema identifier.
    pub schema: String,
    /// Engine configured by this recipe.
    pub engine: String,
    /// Export profile this recipe uses.
    pub profile: String,
    /// Runtime policy.
    pub runtime_policy: String,
    /// Engine-native systems this recipe configures.
    pub expected_systems: Vec<String>,
    /// Package sources the importer fingerprints.
    pub source_files: Vec<String>,
    /// Static material recipes consumed by this recipe.
    pub material_recipe_files: Vec<String>,
    /// Terrain heightmap file.
    pub terrain_heightmap_file: String,
    /// Terrain mask file.
    pub terrain_mask_file: String,
    /// Terrain normal map file.
    pub terrain_normal_map_file: String,
    /// Groundcover import inputs.
    pub groundcover: EngineGroundcoverImportRecipe,
    /// Binary culling chunks expected.
    pub scatter_binary_chunk_count: usize,
    /// Scatter instances expected.
    pub scatter_instance_count: usize,
}

/// Why an engine import recipe file disagrees with its manifest.
#[derive(Debug, Clone, Copy, PartialEq, Eq, Structural)]
pub enum EngineRecipeFileError {
    /// The schema is not `midori.engine_import_recipe.v1`.
    Schema,
    /// The engine differs from the manifest's.
    EngineMismatch,
    /// The profile differs from the manifest's.
    ProfileMismatch,
    /// The runtime policy differs from the manifest's or is not
    /// `engine_native_static`.
    RuntimePolicy,
    /// The expected systems differ from the manifest's.
    ExpectedSystems,
    /// The source files are not the package's files, sorted, each once.
    SourceFiles,
    /// The material recipe files differ from the manifest's.
    MaterialRecipes,
    /// The engine is neither unity nor unreal.
    UnsupportedEngine,
    /// The profile settings differ from the engine's profile.
    ProfileSettings,
    /// The terrain files differ from the manifest's.
    TerrainFiles,
    /// The terrain size or height range differs from the manifest's.
    TerrainScale,
    /// The groundcover settings differ from the manifest's.
    Groundcover,
    /// The scatter settings differ from the manifest's.
    Scatter,
}

/// What an engine import recipe file must agree on with its manifest entry
/// before its source files are looked up, checked in order.
pub open spec fn engine_recipe_sources_check(
    recipe: EngineRecipeFileEntry,
    manifest_recipe: EngineImportRecipeManifest,
    m: ManifestContract,
) -> Result<(), EngineRecipeFileError> {
    if recipe.schema@ != "midori.engine_import_recipe.v1"@ {
        Err(EngineRecipeFileError::Schema)
    } else if recipe.engine@ != manifest_recipe.engine@ {
        Err(EngineRecipeFileError::EngineMismatch)
    } else if recipe.profile@ != manifest_recipe.profile@ {
        Err(EngineRecipeFileError::ProfileMismatch)
    } else if recipe.runtime_policy@ != manifest_recipe.runtime_policy@ || recipe.runtime_policy@
        != static_policy() {
        Err(EngineRecipeFileError::RuntimePolicy)
    } else if texts(recipe.expected_systems@) != texts(manifest_recipe.expected_systems@) {
        Err(EngineRecipeFileError::ExpectedSystems)
    } else if !(strictly_sorted(texts(recipe.source_files@)) && texts(recipe.source_files@).to_set()
        == expected_source_set(m, recipe.engine@)) {
        Err(EngineRecipeFileError::SourceFiles)
    } else {
        Ok(())
    }
}

/// Checks an engine import recipe file against its manifest entry, up to
/// its source file list.
pub fn check_engine_recipe_sources(
    recipe: &EngineRecipeFileEntry,
    manifest_recipe: &EngineImportRecipeManifest,
    m: &ManifestContract,
) -> (r: Result<(), EngineRecipeFileError>)
    ensures
        r == engine_recipe_sources_check(*recipe, *manifest_recipe, *m),
{
    if !str_eq(recipe.schema.as_str(), "midori.engine_import_recipe.v1") {
        return Err(EngineRecipeFileError::Schema);
    }
    if !str_eq(recipe.engine.as_str(), manifest_recipe.engine.as_str()) {
        return Err(EngineRecipeFileError::EngineMismatch);
    }
    if !str_eq(recipe.profile.as_str(), manifest_recipe.profile.as_str()) {
        return Err(EngineRecipeFileError::ProfileMismatch);
    }
    if !str_eq(recipe.runtime_policy.as_str(), manifest_recipe.runtime_policy.as_str()) || !str_eq(
        recipe.runtime_policy.as_str(),
        "engine_native_static",
    ) {
        return Err(EngineRecipeFileError::RuntimePolicy);
    }
    if !same_strings(&recipe.expected_systems, &manifest_recipe.expected_systems) {
        return Err(EngineRecipeFileError::ExpectedSystems);
    }
    let expected = expected_engine_import_source_files(m, recipe.engine.as_str());
    let same = same_strings(&recipe.source_files, &expected);
    proof {
        if !same && strictly_sorted(texts(recipe.source_files@)) && texts(
            recipe.source_files@,
        ).to_set() == expected_source_set(*m, recipe.engine@) {
            lemma_sorted_unique(texts(recipe.source_files@), texts(expected@));
        }
    }
    if !same {
        return Err(EngineRecipeFileError::SourceFiles);
    }
    Ok(())
}

/// What an engine import recipe file must agree on with its manifest after
/// its source files were found; the three flags are the caller's float
/// comparisons of the profile settings, the terrain size and height range,
/// and the scatter chunk size.
pub open spec fn engine_recipe_settings_check(
    recipe: EngineRecipeFileEntry,
    m: ManifestContract,
    profile_settings_match: bool,
    terrain_scale_matches: bool,
    chunk_size_matches: bool,
) -> Result<(), EngineRecipeFileError> {
    if texts(recipe.material_recipe_files@) != recipe_files_of(m) {
        Err(EngineRecipeFileError::MaterialRecipes)
    } else if recipe.engine@ != "unity"@ && recipe.engine@ != "unreal"@ {
        Err(EngineRecipeFileError::UnsupportedEngine)
    } else if !profile_settings_match {
        Err(EngineRecipeFileError::ProfileSettings)
    } else if recipe.terrain_heightmap_file@ != m.heightmap_file@ || recipe.terrain_mask_file@
        != m.masks_file@ || recipe.terrain_normal_map_file@ != engine_normal_map(
        m,
        recipe.engine@,
    ) {
        Err(EngineRecipeFileError::TerrainFiles)
    } else if !terrain_scale_matches {
        Err(EngineRecipeFileError::TerrainScale)
    } else if recipe.groundcover.material_slot@ != "groundcover_foliage"@
        || recipe.groundcover.material_recipe_file@ != match recipe_file_for(
        m,
        "groundcover_foliage"@,
    ) {
        Some(f) => f,
        None => Seq::empty(),
    } || recipe.groundcover.prototype_family_count != m.prototypes@.len()
        || recipe.groundcover.lod0_prototype_count != lod0_count(m.prototypes@) {
        Err(EngineRecipeFileError::Groundcover)
    } else if recipe.scatter_binary_chunk_count != m.scatter.binary_files@.len()
        || recipe.scatter_instance_count != instance_total(m.scatter.binary_files@)
        || !chunk_size_matches {
        Err(EngineRecipeFileError::Scatter)
    } else {
        Ok(())
    }
}

/// Checks the rest of an engine import recipe file against its manifest.
pub fn check_engine_recipe_settings(
    recipe: &EngineRecipeFileEntry,
    m: &ManifestContract,
    profile_settings_match: bool,
    terrain_scale_matches: bool,
    chunk_size_matches: bool,
) -> (r: Result<(), EngineRecipeFileError>)
    requires
        instance_total(m.scatter.binary_files@) <= usize::MAX,
    ensures
        r == engine_recipe_settings_check(
            *recipe,
            *m,
            profile_settings_match,
            terrain_scale_matches,
            chunk_size_matches,
        ),
{
    let expected_recipes = material_recipe_files(m);
    if !same_strings(&recipe.material_recipe_files, &expected_recipes) {
        return Err(EngineRecipeFileError::MaterialRecipes);
    }
    let engine = recipe.engine.as_str();
    let unreal = str_eq(engine, "unreal");
    if !str_eq(engine, "unity") && !unreal {
        return Err(EngineRecipeFileError::UnsupportedEngine);
    }
    if !profile_settings_match {
        return Err(EngineRecipeFileError::ProfileSettings);
    }
    let normal = if unreal {
        m.normal_conventions.unreal_yminus_file.as_str()
    } else {
        m.normal_conventions.unity_yplus_file.as_str()
    };
    if !str_eq(recipe.terrain_heightmap_file.as_str(), m.heightmap_file.as_str()) || !str_eq(
        recipe.terrain_mask_file.as_str(),
        m.masks_file.as_str(),
    ) || !str_eq(recipe.terrain_normal_map_file.as_str(), normal) {
        return Err(EngineRecipeFileError::TerrainFiles);
    }
    if !terrain_scale_matches {
        return Err(EngineRecipeFileError::TerrainScale);
    }
    let groundcover_file = match material_recipe_file_for_slot(m, "groundcover_foliage") {
        Some(f) => f,
        None => String::new(),
    };
    let g = &recipe.groundcover;
    if !str_eq(g.material_slot.as_str(), "groundcover_foliage") || !str_eq(
        g.material_recipe_file.as_str(),
        groundcover_file.as_str(),
    ) || g.prototype_family_count != m.prototypes.len() || g.lod0_prototype_count
        != lod0_prototype_count(m) {
        return Err(EngineRecipeFileError::Groundcover);
    }
    if recipe.scatter_binary_chunk_count != m.scatter.binary_files.len()
        || recipe.scatter_instance_count != manifest_scatter_instance_count(m)
        || !chunk_size_matches {
        return Err(EngineRecipeFileError::Scatter);
    }
    Ok(())
}

} // verus!
