# midori_core

Deterministic building blocks of the Midori procedural tree and nature
package tools, written in Verus with their behaviour stated as contracts and
proved.

`src/` is the verified library:

- `rng`, `rounding`: the xoshiro256** generator seeded by SplitMix64, and an
  exact integer model of the single-precision scaling behind `Rng::index`.
- `checksum`, `text`, `sorted_text`: FNV-1a, identifier sanitising, decimal
  formatting, and sorted lists of distinct strings.
- `glb`, `mesh`, `texture`: GLB framing, indexed meshes with submeshes, RGBA
  texture buffers and their PNG encoding through the `image` crate.
- `gltf_layout`: packing mesh streams and embedded images into one buffer,
  and the glTF document plan over it (buffer views, accessors, primitives,
  the material table with shared and per-atlas impostor materials).
- `scatter_binary`: the `MDSI` binary scatter chunk format, encoder and
  decoder.
- `package`, `footprint`, `budget`, `map_checks`, `map_files`,
  `prototype_glb`: package file naming and paths, byte footprints, platform
  budgets, and the checks on baked maps (decoded from their PNG files
  through the `image` crate) and prototype meshes.
- `patch`: the checks a nature patch description must pass.
- `manifest`, `contract`, `material_contract`, `package_contract`,
  `recipe_files`, `recipe_writer`, `export_laws`: the package manifest
  records, the tables and recipe files the exporter writes, the importer's
  contract on them, and the proofs that what the exporter writes satisfies
  it.
- `species`, `species_checks`: species enumerations with their defaults, and
  the semantic validation of a species document.

`app/` holds what the library cannot: single-precision helpers and vertex
data, the serde forms of the records and species documents, the glTF JSON
rendering, and the file I/O that reads a package and hands its contents to
the library's checks. `tests/` exercises the library from outside.

Not part of this crate: the tree generator (trunk and branch growth, leaf
placement, the mesh builder and LOD reduction), the nature patch generator
(the terrain field, map baking, groundcover prototypes and scatter
placement) and the package writer that drives it. What those produce is
checked here: the manifest, recipe files, baked maps, prototype meshes and
binary scatter chunks of a package, and the patch description itself.
