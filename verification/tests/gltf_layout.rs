use midori_core::gltf_layout::{
    append_image, append_material_images, append_mesh, attach_impostor_atlas, build_gltf_layout,
    indices_buffer, material_image_pngs, AccessorType, ComponentType, ImageInfo, MaterialPlan,
    MeshBufferInfo, SamplerKind, VertexStreams, ViewTarget,
};
use midori_core::mesh::{MaterialType, Submesh};
use midori_core::texture::{RgbaTexture, TextureSet};

fn streams(vertex_count: usize) -> VertexStreams {
    VertexStreams {
        positions: vec![0; 12 * vertex_count],
        normals: vec![0; 12 * vertex_count],
        tangents: vec![0; 16 * vertex_count],
        texcoord0: vec![0; 8 * vertex_count],
        texcoord1: vec![0; 8 * vertex_count],
        colors: vec![0; 16 * vertex_count],
    }
}

fn two_material_mesh(binary: &mut Vec<u8>, name: &str) -> MeshBufferInfo {
    append_mesh(
        binary,
        name.to_string(),
        6,
        &streams(6),
        &[0, 1, 2, 3, 4, 5],
        vec![
            Submesh { index_start: 0, index_count: 3, material: MaterialType::Bark },
            Submesh { index_start: 3, index_count: 3, material: MaterialType::Leaves },
        ],
    )
}

fn with_impostor(binary: &mut Vec<u8>, name: &str) -> MeshBufferInfo {
    append_mesh(
        binary,
        name.to_string(),
        10,
        &streams(10),
        &[0, 1, 2, 3, 4, 5, 6, 7, 8, 6, 8, 9],
        vec![
            Submesh { index_start: 0, index_count: 3, material: MaterialType::Bark },
            Submesh { index_start: 3, index_count: 3, material: MaterialType::Leaves },
            Submesh { index_start: 6, index_count: 6, material: MaterialType::Impostor },
        ],
    )
}

#[test]
fn test_build_indices_buffer() {
    let buffer = indices_buffer(&[0, 1, 2]);

    // 3 indices * 4 bytes = 12 bytes
    assert_eq!(buffer.len(), 12);
}

#[test]
fn indices_buffer_is_little_endian() {
    assert_eq!(indices_buffer(&[0x0403_0201, 7]), vec![1, 2, 3, 4, 7, 0, 0, 0]);
}

#[test]
fn test_gltf_primitives_split_by_submesh_material() {
    let mut binary = Vec::new();
    let mesh = two_material_mesh(&mut binary, "Tree_LOD0");
    let layout = build_gltf_layout(&[mesh], &[]);

    let primitives = &layout.meshes[0].primitives;
    assert_eq!(primitives.len(), 2);
    assert_eq!(primitives[0].material, 0);
    assert_eq!(primitives[1].material, 1);

    let accessors = &layout.accessors;
    assert_eq!(accessors[primitives[0].indices].count, 3);
    assert_eq!(accessors[primitives[1].indices].count, 3);
    assert_eq!(accessors[primitives[1].indices].byte_offset, Some(12));
}

#[test]
fn test_submeshes_split_into_primitives_with_materials() {
    let mut binary = Vec::new();
    let mesh = two_material_mesh(&mut binary, "Tree_LOD0");
    let layout = build_gltf_layout(&[mesh], &[]);

    let primitives = &layout.meshes[0].primitives;
    assert_eq!(primitives.len(), 2, "one primitive per submesh");
    assert_eq!(primitives[0].material, 0); // bark
    assert_eq!(primitives[1].material, 1); // leaves

    let a0 = primitives[0].indices;
    let a1 = primitives[1].indices;
    let accessors = &layout.accessors;
    assert_eq!(accessors[a0].count, 3);
    assert_eq!(accessors[a1].count, 3);
    assert_eq!(
        accessors[a0].buffer_view, accessors[a1].buffer_view,
        "both primitives share the index bufferView"
    );
    assert_eq!(accessors[a1].byte_offset, Some(12));
}

#[test]
fn untextured_layout_has_bark_and_leaf_materials_only() {
    let mut binary = Vec::new();
    let mesh = two_material_mesh(&mut binary, "Tree_LOD0");
    let layout = build_gltf_layout(&[mesh], &[]);
    assert_eq!(layout.materials, vec![MaterialPlan::Bark, MaterialPlan::Leaves]);
    assert!(layout.texture_samplers.is_empty());
}

#[test]
fn mesh_streams_are_packed_in_order() {
    let mut binary = vec![9u8; 8];
    let info = two_material_mesh(&mut binary, "Tree_LOD0");
    assert_eq!(info.positions_offset, 8);
    assert_eq!(info.normals_offset, 8 + 72);
    assert_eq!(info.tangents_offset, 8 + 144);
    assert_eq!(info.texcoord0_offset, 8 + 240);
    assert_eq!(info.texcoord1_offset, 8 + 288);
    assert_eq!(info.color0_offset, 8 + 336);
    assert_eq!(info.indices_offset, 8 + 432);
    assert_eq!(binary.len(), 8 + 432 + 24);
    assert_eq!(info.index_count, 6);
    assert_eq!(info.impostor_image, None);
}

#[test]
fn views_and_accessors_follow_the_mesh_layout() {
    let mut binary = Vec::new();
    let mesh = two_material_mesh(&mut binary, "Tree_LOD0");
    let layout = build_gltf_layout(&[mesh], &[]);
    assert_eq!(layout.buffer_views.len(), 7);
    assert_eq!(layout.buffer_views[0].byte_offset, 0);
    assert_eq!(layout.buffer_views[0].byte_length, 72);
    assert_eq!(layout.buffer_views[2].byte_length, 96);
    assert_eq!(layout.buffer_views[6].byte_offset, 432);
    assert_eq!(layout.buffer_views[6].byte_length, 24);
    assert_eq!(layout.buffer_views[6].target, ViewTarget::ElementArrayBuffer);
    assert_eq!(layout.accessors.len(), 8);
    assert_eq!(layout.meshes[0].attributes, 0);
    assert!(layout.accessors[0].bounded);
    assert_eq!(layout.accessors[0].kind, AccessorType::Vec3);
    assert_eq!(layout.accessors[2].kind, AccessorType::Vec4);
    assert_eq!(layout.accessors[5].buffer_view, 5);
    assert_eq!(layout.accessors[6].component, ComponentType::UnsignedInt);
    assert_eq!(layout.accessors[6].buffer_view, 6);
    assert_eq!(layout.image_view_base, 7);
}

#[test]
fn mesh_without_submeshes_draws_all_indices_with_bark() {
    let mut binary = Vec::new();
    let mesh = append_mesh(&mut binary, "Tree_LOD0".to_string(), 3, &streams(3), &[0, 1, 2], vec![]);
    let layout = build_gltf_layout(&[mesh], &[]);
    let primitives = &layout.meshes[0].primitives;
    assert_eq!(primitives.len(), 1);
    assert_eq!(primitives[0].material, 0);
    assert_eq!(layout.accessors[primitives[0].indices].count, 3);
    assert_eq!(layout.accessors[primitives[0].indices].byte_offset, Some(0));
}

#[test]
fn empty_submeshes_get_no_primitive() {
    let mut binary = Vec::new();
    let mesh = append_mesh(
        &mut binary,
        "Tree_LOD0".to_string(),
        3,
        &streams(3),
        &[0, 1, 2],
        vec![
            Submesh { index_start: 0, index_count: 0, material: MaterialType::Leaves },
            Submesh { index_start: 0, index_count: 3, material: MaterialType::Bark },
        ],
    );
    let layout = build_gltf_layout(&[mesh], &[]);
    assert_eq!(layout.meshes[0].primitives.len(), 1);
    assert_eq!(layout.meshes[0].primitives[0].material, 0);
    assert_eq!(layout.accessors.len(), 7);
}

fn texture_set() -> TextureSet {
    TextureSet {
        bark_albedo: RgbaTexture::new(4, 4),
        bark_normal: RgbaTexture::new(4, 4),
        leaf_card: RgbaTexture::new(4, 4),
    }
}

#[test]
fn material_images_are_png_payloads_in_the_buffer() {
    let pngs = material_image_pngs(&texture_set()).unwrap();
    assert_eq!(pngs.len(), 3);
    for png in &pngs {
        assert_eq!(&png[0..4], &[0x89, 0x50, 0x4E, 0x47]);
    }
    let mut binary = vec![0u8; 4];
    let mut images = Vec::new();
    append_material_images(&mut binary, &mut images, &pngs);
    assert_eq!(images.len(), 3);
    assert_eq!(images[0].name, "bark_albedo");
    assert_eq!(images[1].name, "bark_normal");
    assert_eq!(images[2].name, "leaf_card");
    assert_eq!(images[0].offset, 4);
    for image in &images {
        assert_eq!(image.offset % 4, 0);
        assert_eq!(image.sampler, SamplerKind::Repeat);
        assert_eq!(&binary[image.offset..image.offset + 4], &[0x89, 0x50, 0x4E, 0x47]);
    }
    assert_eq!(binary.len() % 4, 0);
}

#[test]
fn appended_images_are_padded_to_four_bytes() {
    let mut binary = vec![1u8, 2, 3, 4];
    let mut images: Vec<ImageInfo> = Vec::new();
    append_image(&mut binary, &mut images, "a".to_string(), &[7, 7, 7, 7, 7], SamplerKind::Clamp);
    assert_eq!(binary, vec![1, 2, 3, 4, 7, 7, 7, 7, 7, 0, 0, 0]);
    assert_eq!(images[0].offset, 4);
    assert_eq!(images[0].len, 5);
}

#[test]
fn impostor_lod_layout_uses_its_atlas_material() {
    let mut binary = Vec::new();
    let mut mesh = with_impostor(&mut binary, "Test_LOD0");
    let mut images = Vec::new();
    let pngs = material_image_pngs(&texture_set()).unwrap();
    append_material_images(&mut binary, &mut images, &pngs);
    let atlas = RgbaTexture::new(16, 8).to_png().unwrap();
    attach_impostor_atlas(&mut binary, &mut images, &mut mesh, 0, &atlas);
    assert_eq!(mesh.impostor_image, Some(3));
    assert_eq!(images[3].name, "impostor_lod0");
    assert_eq!(images[3].sampler, SamplerKind::Clamp);

    let layout = build_gltf_layout(&[mesh], &images);
    // bark_albedo + bark_normal + leaf_card + impostor atlas
    assert_eq!(layout.texture_samplers, vec![0, 0, 0, 1]);
    assert_eq!(layout.materials.len(), 3); // bark, leaves, impostor
    assert_eq!(layout.materials[2], MaterialPlan::ImpostorAtlas { mesh: 0, image: 3 });
    let primitives = &layout.meshes[0].primitives;
    assert_eq!(primitives.len(), 3);
    assert_eq!(primitives[2].material, 2);
    assert_eq!(layout.image_view_base, 7);
    assert_eq!(layout.buffer_views.len(), 11);
    assert_eq!(layout.buffer_views[10].byte_offset, images[3].offset);
}

#[test]
fn meshes_without_atlas_share_one_impostor_material() {
    let mut binary = Vec::new();
    let lod0 = two_material_mesh(&mut binary, "Tree_LOD0");
    let lod1 = with_impostor(&mut binary, "Tree_LOD1");
    let mut lod2 = with_impostor(&mut binary, "Tree_LOD2");
    let lod3 = with_impostor(&mut binary, "Tree_LOD3");
    let mut images = Vec::new();
    attach_impostor_atlas(&mut binary, &mut images, &mut lod2, 2, &[1, 2, 3, 4]);
    let layout = build_gltf_layout(&[lod0, lod1, lod2, lod3], &images);
    assert_eq!(
        layout.materials,
        vec![
            MaterialPlan::Bark,
            MaterialPlan::Leaves,
            MaterialPlan::ImpostorPlain,
            MaterialPlan::ImpostorAtlas { mesh: 2, image: 0 },
        ]
    );
    assert_eq!(layout.meshes[1].primitives[2].material, 2);
    assert_eq!(layout.meshes[2].primitives[2].material, 3);
    assert_eq!(layout.meshes[3].primitives[2].material, 2);
    // Accessors run mesh by mesh: 8 for the first, 9 for each other.
    assert_eq!(layout.meshes[1].attributes, 8);
    assert_eq!(layout.meshes[2].attributes, 17);
    assert_eq!(layout.meshes[3].attributes, 26);
    assert_eq!(layout.accessors.len(), 35);
    assert_eq!(layout.accessors[layout.meshes[3].primitives[2].indices].buffer_view, 27);
}
