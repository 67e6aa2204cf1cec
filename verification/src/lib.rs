//! Midori core: deterministic building blocks for procedural trees and
//! nature packages, specified and proved with Verus.

pub mod budget;
pub mod checksum;
pub mod contract;
pub mod export_laws;
pub mod footprint;
pub mod glb;
pub mod gltf_layout;
pub mod manifest;
pub mod map_checks;
pub mod map_files;
pub mod material_contract;
pub mod mesh;
pub mod package;
pub mod patch;
pub mod package_contract;
pub mod prototype_glb;
pub mod recipe_files;
pub mod recipe_writer;
pub mod rng;
pub mod rounding;
pub mod scatter_binary;
pub mod sorted_text;
pub mod species;
pub mod species_checks;
pub mod text;
pub mod texture;
