//! Layout of a glTF document over one packed binary buffer: which buffer
//! views, accessors, primitives and materials the meshes and embedded images
//! need, and how they refer to each other.
//!
//! The geometry itself (positions, bounds, material factors) is
//! single-precision and is written next to this plan; everything that
//! indexes into the document is decided here.

use crate::glb::{padding_to_four, pad_binary, push_bytes, push_u32_le, repeated};
use crate::mesh::{low_u32, MaterialType, Submesh};
use crate::text::{decimal_digits, owned, push_decimal};
use crate::texture::{png_rgba8_encoding, TextureError, TextureSet};
use vstd::bytes::spec_u32_to_le_bytes;
use vstd::prelude::*;

verus! {

/// The buffer slice a view covers holds vertex attributes.
pub const ARRAY_BUFFER: u32 = 34962;

/// The buffer slice a view covers holds triangle indices.
pub const ELEMENT_ARRAY_BUFFER: u32 = 34963;

/// Component type code of 32-bit floats.
pub const COMPONENT_FLOAT: u32 = 5126;

/// Component type code of 32-bit unsigned integers.
pub const COMPONENT_UNSIGNED_INT: u32 = 5125;

/// Texture addressing mode for an embedded image.
#[derive(Debug, Clone, Copy, PartialEq, Eq, Structural)]
pub enum SamplerKind {
    /// Wrap both axes: tiling bark and leaf maps.
    Repeat,
    /// Clamp to the edge: atlas halves must not bleed into each other.
    Clamp,
}

/// An embedded image payload inside the binary buffer.
#[derive(Debug, Clone)]
pub struct ImageInfo {
    /// Image name in the document.
    pub name: String,
    /// Byte offset of the PNG payload in the buffer.
    pub offset: usize,
    /// Length of the PNG payload in bytes.
    pub len: usize,
    /// How the image is sampled.
    pub sampler: SamplerKind,
}

/// Where one mesh's vertex streams and indices sit in the buffer.
#[derive(Debug, Clone)]
pub struct MeshBufferInfo {
    /// Node and mesh name.
    pub name: String,
    /// Number of vertices.
    pub vertex_count: usize,
    /// Number of indices.
    pub index_count: usize,
    /// Offset of the positions (3 floats per vertex).
    pub positions_offset: usize,
    /// Offset of the normals (3 floats per vertex).
    pub normals_offset: usize,
    /// Offset of the tangents (4 floats per vertex).
    pub tangents_offset: usize,
    /// Offset of the first texture coordinates (2 floats per vertex).
    pub texcoord0_offset: usize,
    /// Offset of the second texture coordinates (2 floats per vertex).
    pub texcoord1_offset: usize,
    /// Offset of the vertex colors (4 floats per vertex).
    pub color0_offset: usize,
    /// Offset of the indices (one `u32` each).
    pub indices_offset: usize,
    /// Submesh ranges with their materials.
    pub submeshes: Vec<Submesh>,
    /// Image index of this mesh's baked impostor atlas, when embedded.
    pub impostor_image: Option<usize>,
}

/// The binding target of a buffer view.
#[derive(Debug, Clone, Copy, PartialEq, Eq)]
pub enum ViewTarget {
    /// Vertex attributes.
    ArrayBuffer,
    /// Triangle indices.
    ElementArrayBuffer,
    /// No target (image payloads).
    Unspecified,
}

/// One buffer view.
#[derive(Debug, Clone, Copy, PartialEq, Eq)]
pub struct BufferViewPlan {
    /// Offset in the buffer.
    pub byte_offset: usize,
    /// Length in bytes.
    pub byte_length: usize,
    /// Binding target.
    pub target: ViewTarget,
}

/// Element shape of an accessor.
#[derive(Debug, Clone, Copy, PartialEq, Eq)]
pub enum AccessorType {
    /// One component.
    Scalar,
    /// Two components.
    Vec2,
    /// Three components.
    Vec3,
    /// Four components.
    Vec4,
}

/// Component type of an accessor.
#[derive(Debug, Clone, Copy, PartialEq, Eq)]
pub enum ComponentType {
    /// 32-bit float (code 5126).
    Float,
    /// 32-bit unsigned integer (code 5125).
    UnsignedInt,
}

/// One accessor.
#[derive(Debug, Clone, Copy, PartialEq, Eq)]
pub struct AccessorPlan {
    /// Buffer view it reads.
    pub buffer_view: usize,
    /// Offset inside the view, when it does not start at the view's start.
    pub byte_offset: Option<usize>,
    /// Component type.
    pub component: ComponentType,
    /// Number of elements.
    pub count: usize,
    /// Element shape.
    pub kind: AccessorType,
    /// Whether the accessor carries the mesh's position bounds.
    pub bounded: bool,
}

/// One triangle primitive of a mesh.
#[derive(Debug, Clone, Copy, PartialEq, Eq)]
pub struct PrimitivePlan {
    /// Accessor of its indices.
    pub indices: usize,
    /// Material index.
    pub material: usize,
}

/// One mesh of the document.
#[derive(Debug, Clone)]
pub struct MeshPlan {
    /// Accessor of `POSITION`; `NORMAL`, `TANGENT`, `TEXCOORD_0`,
    /// `TEXCOORD_1` and `COLOR_0` follow it in that order.
    pub attributes: usize,
    /// Primitives, one per drawn submesh.
    pub primitives: Vec<PrimitivePlan>,
}

/// One entry of the material table.
#[derive(Debug, Clone, Copy, PartialEq, Eq)]
pub enum MaterialPlan {
    /// The bark material (always index 0).
    Bark,
    /// The leaf material (always index 1).
    Leaves,
    /// The impostor material of one mesh, textured with its atlas image.
    ImpostorAtlas {
        /// Mesh whose atlas it shows.
        mesh: usize,
        /// Image index of that atlas.
        image: usize,
    },
    /// The untextured impostor material shared by every mesh without an
    /// embedded atlas.
    ImpostorPlain,
}

/// The whole document layout.
#[derive(Debug, Clone)]
pub struct GltfLayout {
    /// Buffer views: seven per mesh, then one per image.
    pub buffer_views: Vec<BufferViewPlan>,
    /// Accessors, mesh by mesh.
    pub accessors: Vec<AccessorPlan>,
    /// Meshes, one per input mesh.
    pub meshes: Vec<MeshPlan>,
    /// Material table.
    pub materials: Vec<MaterialPlan>,
    /// Buffer view of the first image; image `j` uses view
    /// `image_view_base + j`.
    pub image_view_base: usize,
    /// Sampler of each texture (texture `j` shows image `j`): 0 repeats,
    /// 1 clamps.
    pub texture_samplers: Vec<usize>,
}

/// Some submesh of the list uses the impostor material.
pub open spec fn has_impostor(subs: Seq<Submesh>) -> bool {
    exists|j: int| 0 <= j < subs.len() && #[trigger] subs[j].material == MaterialType::Impostor
}

/// Impostor material slots, allocated mesh by mesh after bark (0) and
/// leaves (1): each mesh with an embedded atlas gets a slot of its own, and
/// all meshes without one share the slot allocated for the first of them.
/// Gives each mesh's slot (`None` without impostor submeshes), the next
/// free slot, and the shared slot once allocated.
pub open spec fn impostor_slots(meshes: Seq<MeshBufferInfo>) -> (
    Seq<Option<usize>>,
    usize,
    Option<usize>,
)
    decreases meshes.len(),
{
    if meshes.len() == 0 {
        (Seq::empty(), 2, None)
    } else {
        let (slots, next, shared) = impostor_slots(meshes.drop_last());
        let m = meshes.last();
        if !has_impostor(m.submeshes@) {
            (slots.push(None), next, shared)
        } else if m.impostor_image is Some {
            (slots.push(Some(next)), (next + 1) as usize, shared)
        } else {
            match shared {
                Some(k) => (slots.push(Some(k)), next, shared),
                None => (slots.push(Some(next)), (next + 1) as usize, Some(next)),
            }
        }
    }
}

/// Some mesh has slot `k`.
pub open spec fn slot_used(slots: Seq<Option<usize>>, k: int) -> bool {
    exists|i: int| 0 <= i < slots.len() && #[trigger] slots[i] == Some(k as usize)
}

/// The impostor material that mesh `i` is drawn with.
pub open spec fn impostor_material(meshes: Seq<MeshBufferInfo>, i: int) -> MaterialPlan {
    match meshes[i].impostor_image {
        Some(image) => MaterialPlan::ImpostorAtlas { mesh: i as usize, image },
        None => MaterialPlan::ImpostorPlain,
    }
}

/// Material index of a submesh given its mesh's impostor slot.
pub open spec fn material_index(material: MaterialType, slot: Option<usize>) -> int {
    match material {
        MaterialType::Bark => 0,
        MaterialType::Leaves => 1,
        MaterialType::Impostor => match slot {
            Some(k) => k as int,
            None => 1,
        },
    }
}

/// A buffer view.
pub open spec fn view_of(offset: usize, length: int, target: ViewTarget) -> BufferViewPlan {
    BufferViewPlan { byte_offset: offset, byte_length: length as usize, target }
}

/// The seven buffer views of one mesh: positions, normals, tangents, the
/// two texture coordinate sets, colors, indices.
pub open spec fn mesh_buffer_views(m: MeshBufferInfo) -> Seq<BufferViewPlan> {
    seq![
        view_of(m.positions_offset, m.vertex_count * 12, ViewTarget::ArrayBuffer),
        view_of(m.normals_offset, m.vertex_count * 12, ViewTarget::ArrayBuffer),
        view_of(m.tangents_offset, m.vertex_count * 16, ViewTarget::ArrayBuffer),
        view_of(m.texcoord0_offset, m.vertex_count * 8, ViewTarget::ArrayBuffer),
        view_of(m.texcoord1_offset, m.vertex_count * 8, ViewTarget::ArrayBuffer),
        view_of(m.color0_offset, m.vertex_count * 16, ViewTarget::ArrayBuffer),
        view_of(m.indices_offset, m.index_count * 4, ViewTarget::ElementArrayBuffer),
    ]
}

/// The buffer views of all meshes, mesh by mesh.
pub open spec fn layout_mesh_views(meshes: Seq<MeshBufferInfo>) -> Seq<BufferViewPlan>
    decreases meshes.len(),
{
    if meshes.len() == 0 {
        Seq::empty()
    } else {
        layout_mesh_views(meshes.drop_last()) + mesh_buffer_views(meshes.last())
    }
}

/// The buffer view of an embedded image.
pub open spec fn image_view(image: ImageInfo) -> BufferViewPlan {
    BufferViewPlan {
        byte_offset: image.offset,
        byte_length: image.len,
        target: ViewTarget::Unspecified,
    }
}

/// A float vertex-attribute accessor.
pub open spec fn float_accessor(
    view: int,
    count: usize,
    kind: AccessorType,
    bounded: bool,
) -> AccessorPlan {
    AccessorPlan {
        buffer_view: view as usize,
        byte_offset: None,
        component: ComponentType::Float,
        count,
        kind,
        bounded,
    }
}

/// The six attribute accessors of a mesh whose positions view is
/// `first_view`.
pub open spec fn attribute_accessors(vertex_count: usize, first_view: int) -> Seq<AccessorPlan> {
    seq![
        float_accessor(first_view, vertex_count, AccessorType::Vec3, true),
        float_accessor(first_view + 1, vertex_count, AccessorType::Vec3, false),
        float_accessor(first_view + 2, vertex_count, AccessorType::Vec4, false),
        float_accessor(first_view + 3, vertex_count, AccessorType::Vec2, false),
        float_accessor(first_view + 4, vertex_count, AccessorType::Vec2, false),
        float_accessor(first_view + 5, vertex_count, AccessorType::Vec4, false),
    ]
}

/// An index accessor into the index view `view`.
pub open spec fn index_accessor(view: int, offset: int, count: int) -> AccessorPlan {
    AccessorPlan {
        buffer_view: view as usize,
        byte_offset: Some(offset as usize),
        component: ComponentType::UnsignedInt,
        count: count as usize,
        kind: AccessorType::Scalar,
        bounded: false,
    }
}

/// The submeshes that draw at least one index, in order.
pub open spec fn drawn_submeshes(subs: Seq<Submesh>) -> Seq<Submesh>
    decreases subs.len(),
{
    if subs.len() == 0 {
        Seq::empty()
    } else if subs.last().index_count > 0 {
        drawn_submeshes(subs.drop_last()).push(subs.last())
    } else {
        drawn_submeshes(subs.drop_last())
    }
}

/// The index accessors of a mesh whose index view is `view`: one over all
/// indices when it has no submeshes, else one per drawn submesh.
pub open spec fn index_accessors(m: MeshBufferInfo, view: int) -> Seq<AccessorPlan> {
    if m.submeshes@.len() == 0 {
        seq![index_accessor(view, 0, low_u32(m.index_count as nat) as int)]
    } else {
        drawn_submeshes(m.submeshes@).map_values(
            |s: Submesh| index_accessor(view, s.index_start * 4, s.index_count as int),
        )
    }
}

/// The accessors of all meshes, mesh by mesh.
pub open spec fn layout_accessors(meshes: Seq<MeshBufferInfo>) -> Seq<AccessorPlan>
    decreases meshes.len(),
{
    if meshes.len() == 0 {
        Seq::empty()
    } else {
        let first_view = 7 * (meshes.len() - 1);
        layout_accessors(meshes.drop_last()) + attribute_accessors(
            meshes.last().vertex_count,
            first_view,
        ) + index_accessors(meshes.last(), first_view + 6)
    }
}

/// A primitive.
pub open spec fn primitive_of(indices: int, material: int) -> PrimitivePlan {
    PrimitivePlan { indices: indices as usize, material: material as usize }
}

/// The primitives of a mesh whose first index accessor is `first` and
/// whose impostor slot is `slot`: one bark primitive over all indices when
/// it has no submeshes, else one per drawn submesh with its material.
pub open spec fn mesh_primitives(m: MeshBufferInfo, first: int, slot: Option<usize>) -> Seq<
    PrimitivePlan,
> {
    if m.submeshes@.len() == 0 {
        seq![primitive_of(first, 0)]
    } else {
        drawn_submeshes(m.submeshes@).map(
            |p: int, s: Submesh| primitive_of(first + p, material_index(s.material, slot)),
        )
    }
}

/// The sampler index of an image: 0 repeats, 1 clamps.
pub open spec fn sampler_index(kind: SamplerKind) -> usize {
    match kind {
        SamplerKind::Repeat => 0,
        SamplerKind::Clamp => 1,
    }
}

/// Every byte length and offset of the layout fits a `usize`.
pub open spec fn layout_fits(meshes: Seq<MeshBufferInfo>, images: Seq<ImageInfo>) -> bool {
    &&& 7 * meshes.len() + images.len() <= usize::MAX
    &&& forall|i: int| 0 <= i < meshes.len() ==> #[trigger] mesh_fits(meshes[i])
}

/// Every byte length and offset of one mesh fits a `usize`.
pub open spec fn mesh_fits(m: MeshBufferInfo) -> bool {
    &&& m.vertex_count * 16 <= usize::MAX
    &&& m.index_count * 4 <= usize::MAX
    &&& forall|j: int|
        0 <= j < m.submeshes@.len() ==> #[trigger] m.submeshes@[j].index_start * 4 <= usize::MAX
}

/// Whether a submesh list uses the impostor material.
fn uses_impostor(subs: &Vec<Submesh>) -> (r: bool)
    ensures
        r == has_impostor(subs@),
{
    let mut j: usize = 0;
    while j < subs.len()
        invariant
            j <= subs@.len(),
            forall|t: int| 0 <= t < j ==> subs@[t].material != MaterialType::Impostor,
        decreases subs.len() - j,
    {
        if subs[j].material == MaterialType::Impostor {
            return true;
        }
        j = j + 1;
    }
    false
}

/// Allocates the impostor material slots and builds the material table.
fn allocate_materials(meshes: &[MeshBufferInfo]) -> (r: (Vec<Option<usize>>, Vec<MaterialPlan>))
    requires
        meshes@.len() + 2 <= usize::MAX,
    ensures
        r.0@ == impostor_slots(meshes@).0,
        r.0@.len() == meshes@.len(),
        r.1@.len() == impostor_slots(meshes@).1,
        r.1@[0] == MaterialPlan::Bark,
        r.1@[1] == MaterialPlan::Leaves,
        forall|i: int|
            0 <= i < meshes@.len() && (#[trigger] r.0@[i]) is Some ==> {
                let k = r.0@[i]->0 as int;
                &&& 2 <= k < r.1@.len()
                &&& r.1@[k] == impostor_material(meshes@, i)
            },
        forall|k: int| 2 <= k < r.1@.len() ==> #[trigger] slot_used(r.0@, k),
{
    let mut slots: Vec<Option<usize>> = Vec::new();
    let mut materials: Vec<MaterialPlan> = Vec::new();
    materials.push(MaterialPlan::Bark);
    materials.push(MaterialPlan::Leaves);
    let mut shared: Option<usize> = None;
    let mut idx: usize = 0;
    while idx < meshes.len()
        invariant
            idx <= meshes@.len(),
            meshes@.len() + 2 <= usize::MAX,
            (slots@, materials@.len() as usize, shared) == impostor_slots(meshes@.take(idx as int)),
            slots@.len() == idx,
            2 <= materials@.len() <= idx + 2,
            materials@[0] == MaterialPlan::Bark,
            materials@[1] == MaterialPlan::Leaves,
            forall|i: int|
                0 <= i < idx && (#[trigger] slots@[i]) is Some ==> {
                    let k = slots@[i]->0 as int;
                    &&& 2 <= k < materials@.len()
                    &&& materials@[k] == impostor_material(meshes@, i)
                },
            forall|k: int| 2 <= k < materials@.len() ==> #[trigger] slot_used(slots@, k),
            shared is Some ==> {
                &&& 2 <= shared->0 < materials@.len()
                &&& materials@[shared->0 as int] == MaterialPlan::ImpostorPlain
            },
        decreases meshes.len() - idx,
    {
        let ghost prev_slots = slots@;
        let ghost prev_len = materials@.len();
        let m = &meshes[idx];
        if !uses_impostor(&m.submeshes) {
            slots.push(None);
        } else {
            match m.impostor_image {
                Some(image) => {
                    let k = materials.len();
                    materials.push(MaterialPlan::ImpostorAtlas { mesh: idx, image });
                    slots.push(Some(k));
                },
                None => {
                    match shared {
                        Some(k) => {
                            slots.push(Some(k));
                        },
                        None => {
                            let k = materials.len();
                            materials.push(MaterialPlan::ImpostorPlain);
                            shared = Some(k);
                            slots.push(Some(k));
                        },
                    }
                },
            }
        }
        proof {
            assert(meshes@.take(idx + 1).drop_last() =~= meshes@.take(idx as int));
            assert(meshes@.take(idx + 1).last() == meshes@[idx as int]);
            assert forall|k: int| 2 <= k < materials@.len() implies #[trigger] slot_used(slots@, k) by {
                if k < prev_len {
                    assert(slot_used(prev_slots, k));
                    let i = choose|i: int| 0 <= i < prev_slots.len() && #[trigger] prev_slots[i] == Some(k as usize);
                    assert(slots@[i] == prev_slots[i]);
                } else {
                    assert(slots@[idx as int] == Some(k as usize));
                }
            }
        }
        idx = idx + 1;
    }
    assert(meshes@.take(meshes@.len() as int) =~= meshes@);
    (slots, materials)
}

/// Pushes the seven buffer views of one mesh.
fn push_mesh_views(views: &mut Vec<BufferViewPlan>, m: &MeshBufferInfo)
    requires
        mesh_fits(*m),
    ensures
        final(views)@ == old(views)@ + mesh_buffer_views(*m),
{
    let vc = m.vertex_count;
    views.push(
        BufferViewPlan {
            byte_offset: m.positions_offset,
            byte_length: vc * 12,
            target: ViewTarget::ArrayBuffer,
        },
    );
    views.push(
        BufferViewPlan {
            byte_offset: m.normals_offset,
            byte_length: vc * 12,
            target: ViewTarget::ArrayBuffer,
        },
    );
    views.push(
        BufferViewPlan {
            byte_offset: m.tangents_offset,
            byte_length: vc * 16,
            target: ViewTarget::ArrayBuffer,
        },
    );
    views.push(
        BufferViewPlan {
            byte_offset: m.texcoord0_offset,
            byte_length: vc * 8,
            target: ViewTarget::ArrayBuffer,
        },
    );
    views.push(
        BufferViewPlan {
            byte_offset: m.texcoord1_offset,
            byte_length: vc * 8,
            target: ViewTarget::ArrayBuffer,
        },
    );
    views.push(
        BufferViewPlan {
            byte_offset: m.color0_offset,
            byte_length: vc * 16,
            target: ViewTarget::ArrayBuffer,
        },
    );
    views.push(
        BufferViewPlan {
            byte_offset: m.indices_offset,
            byte_length: m.index_count * 4,
            target: ViewTarget::ElementArrayBuffer,
        },
    );
    assert(final(views)@ =~= old(views)@ + mesh_buffer_views(*m));
}

/// Pushes the six attribute accessors of a mesh.
fn push_attribute_accessors(
    accessors: &mut Vec<AccessorPlan>,
    vertex_count: usize,
    first_view: usize,
)
    requires
        first_view + 5 <= usize::MAX,
    ensures
        final(accessors)@ == old(accessors)@ + attribute_accessors(vertex_count, first_view as int),
{
    let kinds = [
        AccessorType::Vec3,
        AccessorType::Vec3,
        AccessorType::Vec4,
        AccessorType::Vec2,
        AccessorType::Vec2,
        AccessorType::Vec4,
    ];
    let mut k: usize = 0;
    while k < 6
        invariant
            first_view + 5 <= usize::MAX,
            k <= 6,
            kinds@ == seq![
                AccessorType::Vec3,
                AccessorType::Vec3,
                AccessorType::Vec4,
                AccessorType::Vec2,
                AccessorType::Vec2,
                AccessorType::Vec4,
            ],
            accessors@ == old(accessors)@ + attribute_accessors(vertex_count, first_view as int).take(
                k as int,
            ),
        decreases 6 - k,
    {
        accessors.push(
            AccessorPlan {
                buffer_view: first_view + k,
                byte_offset: None,
                component: ComponentType::Float,
                count: vertex_count,
                kind: kinds[k],
                bounded: k == 0,
            },
        );
        k = k + 1;
        assert(accessors@ =~= old(accessors)@ + attribute_accessors(
            vertex_count,
            first_view as int,
        ).take(k as int));
    }
    assert(attribute_accessors(vertex_count, first_view as int).take(6) =~= attribute_accessors(
        vertex_count,
        first_view as int,
    ));
}

/// `drawn_submeshes` grows by the next submesh exactly when it draws.
proof fn lemma_drawn_step(subs: Seq<Submesh>, j: int)
    requires
        0 <= j < subs.len(),
    ensures
        drawn_submeshes(subs.take(j + 1)) == if subs[j].index_count > 0 {
            drawn_submeshes(subs.take(j)).push(subs[j])
        } else {
            drawn_submeshes(subs.take(j))
        },
{
    assert(subs.take(j + 1).drop_last() =~= subs.take(j));
    assert(subs.take(j + 1).last() == subs[j]);
}

/// Pushes the index accessors of one mesh and returns its primitives.
fn push_index_accessors(
    accessors: &mut Vec<AccessorPlan>,
    m: &MeshBufferInfo,
    view: usize,
    slot: Option<usize>,
) -> (prims: Vec<PrimitivePlan>)
    requires
        mesh_fits(*m),
    ensures
        final(accessors)@ == old(accessors)@ + index_accessors(*m, view as int),
        prims@ == mesh_primitives(*m, old(accessors)@.len() as int, slot),
{
    let mut prims: Vec<PrimitivePlan> = Vec::new();
    let first = accessors.len();
    if m.submeshes.len() == 0 {
        let ic = m.index_count;
        let count = (ic as u32) as usize;
        accessors.push(
            AccessorPlan {
                buffer_view: view,
                byte_offset: Some(0),
                component: ComponentType::UnsignedInt,
                count,
                kind: AccessorType::Scalar,
                bounded: false,
            },
        );
        prims.push(PrimitivePlan { indices: first, material: 0 });
        proof {
            assert(((ic as u32) as u64) == (ic as u64) % 0x1_0000_0000u64) by (bit_vector);
            assert(accessors@ =~= old(accessors)@ + index_accessors(*m, view as int));
            assert(prims@ =~= mesh_primitives(*m, first as int, slot));
        }
        return prims;
    }
    let ghost subs = m.submeshes@;
    let mut j: usize = 0;
    while j < m.submeshes.len()
        invariant
            mesh_fits(*m),
            subs == m.submeshes@,
            subs.len() > 0,
            j <= subs.len(),
            first == old(accessors)@.len(),
            accessors@ == old(accessors)@ + drawn_submeshes(subs.take(j as int)).map_values(
                |s: Submesh| index_accessor(view as int, s.index_start * 4, s.index_count as int),
            ),
            prims@ == drawn_submeshes(subs.take(j as int)).map(
                |p: int, s: Submesh|
                    primitive_of(first + p, material_index(s.material, slot)),
            ),
        decreases subs.len() - j,
    {
        let s = m.submeshes[j];
        proof {
            lemma_drawn_step(subs, j as int);
        }
        if s.index_count > 0 {
            let idx = accessors.len();
            assert(s.index_start * 4 <= usize::MAX);
            accessors.push(
                AccessorPlan {
                    buffer_view: view,
                    byte_offset: Some((s.index_start as usize) * 4),
                    component: ComponentType::UnsignedInt,
                    count: s.index_count as usize,
                    kind: AccessorType::Scalar,
                    bounded: false,
                },
            );
            let material: usize = match s.material {
                MaterialType::Bark => 0,
                MaterialType::Leaves => 1,
                MaterialType::Impostor => match slot {
                    Some(k) => k,
                    None => 1,
                },
            };
            prims.push(PrimitivePlan { indices: idx, material });
        }
        j = j + 1;
        proof {
            let d = drawn_submeshes(subs.take(j as int));
            assert(accessors@ =~= old(accessors)@ + d.map_values(
                |s: Submesh| index_accessor(view as int, s.index_start * 4, s.index_count as int),
            ));
            assert(prims@ =~= d.map(
                |p: int, s: Submesh|
                    primitive_of(first + p, material_index(s.material, slot)),
            ));
        }
    }
    assert(subs.take(subs.len() as int) =~= subs);
    prims
}

/// Lays out the glTF document of `meshes` (in node order) and the embedded
/// `images`: seven buffer views per mesh then one per image, six attribute
/// accessors then the index accessors of each mesh, one primitive per drawn
/// submesh (or one bark primitive over all indices), and a material table
/// of bark, leaves and the impostor materials in the order their slots are
/// allocated.
pub fn build_gltf_layout(meshes: &[MeshBufferInfo], images: &[ImageInfo]) -> (layout: GltfLayout)
    requires
        layout_fits(meshes@, images@),
    ensures
        layout.buffer_views@ == layout_mesh_views(meshes@) + images@.map_values(
            |img: ImageInfo| image_view(img),
        ),
        layout.image_view_base == 7 * meshes@.len(),
        layout.accessors@ == layout_accessors(meshes@),
        layout.meshes@.len() == meshes@.len(),
        forall|i: int|
            0 <= i < meshes@.len() ==> {
                let base = layout_accessors(meshes@.take(i)).len() as int;
                &&& (#[trigger] layout.meshes@[i]).attributes == base
                &&& layout.meshes@[i].primitives@ == mesh_primitives(
                    meshes@[i],
                    base + 6,
                    impostor_slots(meshes@).0[i],
                )
            },
        layout.materials@.len() == impostor_slots(meshes@).1,
        layout.materials@[0] == MaterialPlan::Bark,
        layout.materials@[1] == MaterialPlan::Leaves,
        forall|i: int|
            0 <= i < meshes@.len() && (#[trigger] impostor_slots(meshes@).0[i]) is Some ==> {
                let k = impostor_slots(meshes@).0[i]->0 as int;
                &&& 2 <= k < layout.materials@.len()
                &&& layout.materials@[k] == impostor_material(meshes@, i)
            },
        forall|k: int|
            2 <= k < layout.materials@.len() ==> #[trigger] slot_used(impostor_slots(meshes@).0, k),
        layout.texture_samplers@ == images@.map_values(
            |img: ImageInfo| sampler_index(img.sampler),
        ),
{
    let n = meshes.len();
    let (slots, materials) = allocate_materials(meshes);
    let mut buffer_views: Vec<BufferViewPlan> = Vec::new();
    let mut accessors: Vec<AccessorPlan> = Vec::new();
    let mut mesh_plans: Vec<MeshPlan> = Vec::new();
    let mut i: usize = 0;
    while i < n
        invariant
            n == meshes@.len(),
            layout_fits(meshes@, images@),
            i <= n,
            slots@ == impostor_slots(meshes@).0,
            slots@.len() == n,
            buffer_views@ == layout_mesh_views(meshes@.take(i as int)),
            buffer_views@.len() == 7 * i,
            accessors@ == layout_accessors(meshes@.take(i as int)),
            mesh_plans@.len() == i,
            forall|t: int|
                0 <= t < i ==> {
                    let base = layout_accessors(meshes@.take(t)).len() as int;
                    &&& (#[trigger] mesh_plans@[t]).attributes == base
                    &&& mesh_plans@[t].primitives@ == mesh_primitives(
                        meshes@[t],
                        base + 6,
                        impostor_slots(meshes@).0[t],
                    )
                },
        decreases n - i,
    {
        let m = &meshes[i];
        assert(mesh_fits(meshes@[i as int]));
        let first_view = buffer_views.len();
        push_mesh_views(&mut buffer_views, m);
        let attributes = accessors.len();
        push_attribute_accessors(&mut accessors, m.vertex_count, first_view);
        let primitives = push_index_accessors(&mut accessors, m, first_view + 6, slots[i]);
        mesh_plans.push(MeshPlan { attributes, primitives });
        proof {
            let next = meshes@.take(i + 1);
            assert(next.drop_last() =~= meshes@.take(i as int));
            assert(next.last() == meshes@[i as int]);
            assert(buffer_views@ =~= layout_mesh_views(next));
            assert(accessors@ =~= layout_accessors(next));
        }
        i = i + 1;
    }
    assert(meshes@.take(n as int) =~= meshes@);
    let image_view_base = buffer_views.len();
    let mut texture_samplers: Vec<usize> = Vec::new();
    let mut j: usize = 0;
    while j < images.len()
        invariant
            j <= images@.len(),
            image_view_base == 7 * meshes@.len(),
            buffer_views@ == layout_mesh_views(meshes@) + images@.take(j as int).map_values(
                |img: ImageInfo| image_view(img),
            ),
            texture_samplers@ == images@.take(j as int).map_values(
                |img: ImageInfo| sampler_index(img.sampler),
            ),
        decreases images@.len() - j,
    {
        let img = &images[j];
        buffer_views.push(
            BufferViewPlan {
                byte_offset: img.offset,
                byte_length: img.len,
                target: ViewTarget::Unspecified,
            },
        );
        let sampler: usize = match img.sampler {
            SamplerKind::Repeat => 0,
            SamplerKind::Clamp => 1,
        };
        texture_samplers.push(sampler);
        j = j + 1;
        proof {
            assert(buffer_views@ =~= layout_mesh_views(meshes@) + images@.take(j as int).map_values(
                |img: ImageInfo| image_view(img),
            ));
            assert(texture_samplers@ =~= images@.take(j as int).map_values(
                |img: ImageInfo| sampler_index(img.sampler),
            ));
        }
    }
    assert(images@.take(images@.len() as int) =~= images@);
    GltfLayout {
        buffer_views,
        accessors,
        meshes: mesh_plans,
        materials,
        image_view_base,
        texture_samplers,
    }
}

/// Slots are allocated exactly for the meshes with impostor submeshes, all
/// below the next free slot, which grows by at most one per mesh.
pub proof fn lemma_impostor_slots_bounded(meshes: Seq<MeshBufferInfo>)
    requires
        meshes.len() + 2 <= usize::MAX,
    ensures
        ({
            let (slots, next, shared) = impostor_slots(meshes);
            &&& slots.len() == meshes.len()
            &&& 2 <= next <= meshes.len() + 2
            &&& forall|i: int|
                0 <= i < meshes.len() ==> ((#[trigger] slots[i]) is Some <==> has_impostor(
                    meshes[i].submeshes@,
                ))
            &&& forall|i: int|
                0 <= i < meshes.len() && (#[trigger] slots[i]) is Some ==> 2 <= slots[i]->0 < next
            &&& shared is Some ==> 2 <= shared->0 < next
        }),
    decreases meshes.len(),
{
    if meshes.len() > 0 {
        let prev = meshes.drop_last();
        lemma_impostor_slots_bounded(prev);
        let (slots, next, shared) = impostor_slots(meshes);
        let (ps, pn, psh) = impostor_slots(prev);
        assert forall|i: int| 0 <= i < meshes.len() - 1 implies #[trigger] slots[i] == ps[i]
            && meshes[i] == prev[i] by {}
        assert(slots.len() == meshes.len());
        assert forall|i: int| 0 <= i < meshes.len() implies ((#[trigger] slots[i]) is Some
            <==> has_impostor(meshes[i].submeshes@)) by {
            if i < meshes.len() - 1 {
                assert(slots[i] == ps[i]);
                assert(ps[i] is Some <==> has_impostor(prev[i].submeshes@));
            }
        }
        assert forall|i: int| 0 <= i < meshes.len() && (#[trigger] slots[i]) is Some implies 2
            <= slots[i]->0 < next by {
            if i < meshes.len() - 1 {
                assert(slots[i] == ps[i]);
                assert(ps[i] is Some ==> 2 <= ps[i]->0 < pn);
            }
        }
    }
}

/// The buffer views of the meshes are seven per mesh, those of mesh `i`
/// at `7 * i` onward.
proof fn lemma_mesh_views_at(meshes: Seq<MeshBufferInfo>, i: int, k: int)
    requires
        0 <= i < meshes.len(),
        0 <= k < 7,
    ensures
        layout_mesh_views(meshes).len() == 7 * meshes.len(),
        layout_mesh_views(meshes)[7 * i + k] == mesh_buffer_views(meshes[i])[k],
    decreases meshes.len(),
{
    let prev = meshes.drop_last();
    lemma_mesh_views_len(prev);
    let last = mesh_buffer_views(meshes.last());
    assert(last.len() == 7);
    assert(layout_mesh_views(meshes) == layout_mesh_views(prev) + last);
    if i < meshes.len() - 1 {
        lemma_mesh_views_at(prev, i, k);
        assert(prev[i] == meshes[i]);
    } else {
        assert(7 * i + k == 7 * prev.len() + k);
    }
}

proof fn lemma_mesh_views_len(meshes: Seq<MeshBufferInfo>)
    ensures
        layout_mesh_views(meshes).len() == 7 * meshes.len(),
    decreases meshes.len(),
{
    if meshes.len() > 0 {
        lemma_mesh_views_len(meshes.drop_last());
    }
}

/// Each of the seven buffer views of mesh `i` lies over the stream its
/// accessor reads: they start at the mesh's positions, normals, tangents,
/// first and second texture coordinate, color and index offsets, and are
/// 12, 12, 16, 8, 8 and 16 bytes per vertex and 4 bytes per index long;
/// the six vertex views are array buffers and the index view an element
/// array buffer. When the streams lie back to back, as `append_mesh` lays
/// them, each view ends where the next begins, so no two overlap.
pub proof fn lemma_mesh_views_cover_streams(meshes: Seq<MeshBufferInfo>, i: int)
    requires
        0 <= i < meshes.len(),
        mesh_fits(meshes[i]),
    ensures
        layout_mesh_views(meshes).len() == 7 * meshes.len(),
        ({
            let v = layout_mesh_views(meshes);
            let m = meshes[i];
            let b = 7 * i;
            &&& v[b].byte_offset == m.positions_offset
            &&& v[b].byte_length == 12 * m.vertex_count
            &&& v[b].target == ViewTarget::ArrayBuffer
            &&& v[b + 1].byte_offset == m.normals_offset
            &&& v[b + 1].byte_length == 12 * m.vertex_count
            &&& v[b + 1].target == ViewTarget::ArrayBuffer
            &&& v[b + 2].byte_offset == m.tangents_offset
            &&& v[b + 2].byte_length == 16 * m.vertex_count
            &&& v[b + 2].target == ViewTarget::ArrayBuffer
            &&& v[b + 3].byte_offset == m.texcoord0_offset
            &&& v[b + 3].byte_length == 8 * m.vertex_count
            &&& v[b + 3].target == ViewTarget::ArrayBuffer
            &&& v[b + 4].byte_offset == m.texcoord1_offset
            &&& v[b + 4].byte_length == 8 * m.vertex_count
            &&& v[b + 4].target == ViewTarget::ArrayBuffer
            &&& v[b + 5].byte_offset == m.color0_offset
            &&& v[b + 5].byte_length == 16 * m.vertex_count
            &&& v[b + 5].target == ViewTarget::ArrayBuffer
            &&& v[b + 6].byte_offset == m.indices_offset
            &&& v[b + 6].byte_length == 4 * m.index_count
            &&& v[b + 6].target == ViewTarget::ElementArrayBuffer
        }),
        ({
            let m = meshes[i];
            m.normals_offset == m.positions_offset + 12 * m.vertex_count && m.tangents_offset
                == m.positions_offset + 24 * m.vertex_count && m.texcoord0_offset
                == m.positions_offset + 40 * m.vertex_count && m.texcoord1_offset
                == m.positions_offset + 48 * m.vertex_count && m.color0_offset
                == m.positions_offset + 56 * m.vertex_count && m.indices_offset
                == m.positions_offset + 72 * m.vertex_count
        }) ==> forall|k: int|
            7 * i <= k < 7 * i + 6 ==> #[trigger] layout_mesh_views(meshes)[k].byte_offset
                + layout_mesh_views(meshes)[k].byte_length == layout_mesh_views(meshes)[k
                + 1].byte_offset,
{
    lemma_mesh_views_at(meshes, i, 0);
    lemma_mesh_views_at(meshes, i, 1);
    lemma_mesh_views_at(meshes, i, 2);
    lemma_mesh_views_at(meshes, i, 3);
    lemma_mesh_views_at(meshes, i, 4);
    lemma_mesh_views_at(meshes, i, 5);
    lemma_mesh_views_at(meshes, i, 6);
    let m = meshes[i];
    assert(m.vertex_count * 16 <= usize::MAX);
    assert(m.index_count * 4 <= usize::MAX);
}

/// The accessors of the first `i` meshes start the accessors of all.
pub proof fn lemma_accessors_prefix(meshes: Seq<MeshBufferInfo>, i: int)
    requires
        0 <= i <= meshes.len(),
    ensures
        layout_accessors(meshes.take(i)).len() <= layout_accessors(meshes).len(),
        layout_accessors(meshes).take(layout_accessors(meshes.take(i)).len() as int)
            == layout_accessors(meshes.take(i)),
    decreases meshes.len(),
{
    if i == meshes.len() {
        assert(meshes.take(i) =~= meshes);
        assert(layout_accessors(meshes).take(layout_accessors(meshes).len() as int)
            =~= layout_accessors(meshes));
    } else {
        let prev = meshes.drop_last();
        lemma_accessors_prefix(prev, i);
        assert(prev.take(i) =~= meshes.take(i));
        let a = layout_accessors(meshes.take(i));
        let all = layout_accessors(meshes);
        assert(all.take(a.len() as int) =~= layout_accessors(prev).take(a.len() as int));
    }
}

/// Every accessor reads one of the meshes' buffer views.
pub proof fn lemma_accessor_views_exist(meshes: Seq<MeshBufferInfo>, a: int)
    requires
        7 * meshes.len() <= usize::MAX,
        0 <= a < layout_accessors(meshes).len(),
    ensures
        layout_accessors(meshes)[a].buffer_view < 7 * meshes.len(),
    decreases meshes.len(),
{
    let prev = meshes.drop_last();
    let pa = layout_accessors(prev);
    let m = meshes.last();
    let first_view = 7 * (meshes.len() - 1);
    if a < pa.len() {
        lemma_accessor_views_exist(prev, a);
    } else if a < pa.len() + 6 {
        assert(layout_accessors(meshes)[a] == attribute_accessors(m.vertex_count, first_view)[a
            - pa.len()]);
    } else {
        let k = a - pa.len() - 6;
        assert(layout_accessors(meshes)[a] == index_accessors(m, first_view + 6)[k]);
    }
}

/// Every reference of a mesh resolves: its attribute accessors read its
/// six vertex views, each primitive's index accessor is an unsigned-integer
/// scalar accessor over the mesh's own index view, and each primitive's
/// material is in the material table.
pub proof fn lemma_mesh_references_resolve(meshes: Seq<MeshBufferInfo>, i: int, p: int)
    requires
        7 * meshes.len() <= usize::MAX,
        layout_accessors(meshes).len() <= usize::MAX,
        0 <= i < meshes.len(),
        0 <= p < mesh_primitives(
            meshes[i],
            layout_accessors(meshes.take(i)).len() as int + 6,
            impostor_slots(meshes).0[i],
        ).len(),
    ensures
        ({
            let base = layout_accessors(meshes.take(i)).len() as int;
            let all = layout_accessors(meshes);
            let q = mesh_primitives(meshes[i], base + 6, impostor_slots(meshes).0[i])[p];
            &&& base + 6 <= all.len()
            &&& forall|k: int| 0 <= k < 6 ==> #[trigger] all[base + k].buffer_view == 7 * i + k
            &&& q.indices < all.len()
            &&& all[q.indices as int].buffer_view == 7 * i + 6
            &&& all[q.indices as int].component == ComponentType::UnsignedInt
            &&& all[q.indices as int].kind == AccessorType::Scalar
            &&& q.material < impostor_slots(meshes).1
        }),
{
    let m = meshes[i];
    let base = layout_accessors(meshes.take(i)).len() as int;
    let upto = meshes.take(i + 1);
    lemma_accessors_prefix(meshes, i + 1);
    assert(upto.drop_last() =~= meshes.take(i));
    assert(upto.last() == m);
    let local = layout_accessors(upto);
    let all = layout_accessors(meshes);
    assert(local == layout_accessors(meshes.take(i)) + attribute_accessors(m.vertex_count, 7 * i)
        + index_accessors(m, 7 * i + 6));
    assert forall|k: int| 0 <= k < 6 implies #[trigger] all[base + k].buffer_view == 7 * i + k by {
        assert(all[base + k] == local[base + k]);
        assert(local[base + k] == attribute_accessors(m.vertex_count, 7 * i)[k]);
    }
    let slot = impostor_slots(meshes).0[i];
    let q = mesh_primitives(m, base + 6, slot)[p];
    assert(q.indices == base + 6 + p);
    assert(all[base + 6 + p] == local[base + 6 + p]);
    assert(local[base + 6 + p] == index_accessors(m, 7 * i + 6)[p]);
    lemma_impostor_slots_bounded(meshes);
}

/// A mesh drawn with the shared untextured impostor material.
pub open spec fn plain_impostor(m: MeshBufferInfo) -> bool {
    has_impostor(m.submeshes@) && m.impostor_image is None
}

/// A mesh drawn with an impostor material of its own atlas.
pub open spec fn atlas_impostor(m: MeshBufferInfo) -> bool {
    has_impostor(m.submeshes@) && m.impostor_image is Some
}

proof fn lemma_slot_sharing_all(meshes: Seq<MeshBufferInfo>)
    requires
        meshes.len() + 2 <= usize::MAX,
    ensures
        forall|i: int|
            0 <= i < meshes.len() && plain_impostor(meshes[i]) ==> #[trigger] impostor_slots(
                meshes,
            ).0[i] == impostor_slots(meshes).2 && impostor_slots(meshes).2 is Some,
        impostor_slots(meshes).2 is Some ==> exists|i: int|
            0 <= i < meshes.len() && plain_impostor(meshes[i]) && #[trigger] impostor_slots(
                meshes,
            ).0[i] == impostor_slots(meshes).2,
        forall|i: int, j: int|
            0 <= i < meshes.len() && 0 <= j < meshes.len() && i != j && atlas_impostor(meshes[i])
                && has_impostor(meshes[j].submeshes@) ==> #[trigger] impostor_slots(meshes).0[i]
                != #[trigger] impostor_slots(meshes).0[j],
    decreases meshes.len(),
{
    if meshes.len() > 0 {
        let prev = meshes.drop_last();
        let l = meshes.len() - 1;
        lemma_slot_sharing_all(prev);
        lemma_impostor_slots_bounded(prev);
        lemma_impostor_slots_bounded(meshes);
        let slots = impostor_slots(meshes).0;
        let shared = impostor_slots(meshes).2;
        let ps = impostor_slots(prev).0;
        let pn = impostor_slots(prev).1;
        let psh = impostor_slots(prev).2;
        assert forall|i: int| 0 <= i < l implies #[trigger] slots[i] == ps[i] && meshes[i]
            == prev[i] by {}
        assert(meshes[l] == meshes.last());
        assert forall|i: int|
            0 <= i < meshes.len() && plain_impostor(meshes[i]) implies #[trigger] slots[i] == shared
            && shared is Some by {
            if i < l {
                assert(slots[i] == ps[i]);
                assert(plain_impostor(prev[i]));
            }
        }
        if shared is Some {
            if psh is Some {
                let w = choose|i: int|
                    0 <= i < prev.len() && plain_impostor(prev[i]) && #[trigger] impostor_slots(
                        prev,
                    ).0[i] == psh;
                assert(slots[w] == ps[w]);
                assert(plain_impostor(meshes[w]));
            } else {
                assert(slots[l] == shared);
                assert(plain_impostor(meshes[l]));
            }
        }
        assert forall|i: int, j: int|
            0 <= i < meshes.len() && 0 <= j < meshes.len() && i != j && atlas_impostor(meshes[i])
                && has_impostor(meshes[j].submeshes@) implies #[trigger] slots[i]
            != #[trigger] slots[j] by {
            if i < l && j < l {
                assert(slots[i] == ps[i] && slots[j] == ps[j]);
                assert(atlas_impostor(prev[i]) && has_impostor(prev[j].submeshes@));
            } else if i == l {
                assert(slots[i] == Some(pn));
                assert(slots[j] == ps[j]);
                assert(has_impostor(prev[j].submeshes@));
                assert(ps[j] is Some && ps[j]->0 < pn);
            } else {
                assert(slots[i] == ps[i]);
                assert(atlas_impostor(prev[i]));
                assert(ps[i] is Some && ps[i]->0 < pn);
                if atlas_impostor(meshes[j]) || psh is None {
                    assert(slots[j] == Some(pn));
                } else {
                    let w = choose|w: int|
                        0 <= w < prev.len() && plain_impostor(prev[w]) && #[trigger] impostor_slots(
                            prev,
                        ).0[w] == psh;
                    assert(slots[j] == psh);
                    assert(has_impostor(prev[w].submeshes@));
                    assert(ps[i] != ps[w]);
                }
            }
        }
    }
}

/// All meshes without an embedded atlas share one impostor material, and a
/// mesh with an atlas has an impostor material that no other mesh uses.
pub proof fn lemma_impostor_material_sharing(meshes: Seq<MeshBufferInfo>, i: int, j: int)
    requires
        meshes.len() + 2 <= usize::MAX,
        0 <= i < meshes.len(),
        0 <= j < meshes.len(),
    ensures
        plain_impostor(meshes[i]) && plain_impostor(meshes[j]) ==> impostor_slots(meshes).0[i]
            == impostor_slots(meshes).0[j],
        i != j && atlas_impostor(meshes[i]) && has_impostor(meshes[j].submeshes@)
            ==> impostor_slots(meshes).0[i] != impostor_slots(meshes).0[j],
{
    lemma_slot_sharing_all(meshes);
}

/// Little-endian bytes of a sequence of 32-bit indices.
pub open spec fn indices_bytes(indices: Seq<u32>) -> Seq<u8>
    decreases indices.len(),
{
    if indices.len() == 0 {
        Seq::empty()
    } else {
        indices_bytes(indices.drop_last()) + spec_u32_to_le_bytes(indices.last())
    }
}

/// The index stream of a mesh as little-endian bytes, four per index.
pub fn indices_buffer(indices: &[u32]) -> (bytes: Vec<u8>)
    ensures
        bytes@ == indices_bytes(indices@),
        bytes@.len() == 4 * indices@.len(),
{
    proof {
        vstd::bytes::lemma_auto_spec_u32_to_from_le_bytes();
    }
    let mut bytes: Vec<u8> = Vec::new();
    let mut i: usize = 0;
    while i < indices.len()
        invariant
            i <= indices@.len(),
            bytes@ == indices_bytes(indices@.take(i as int)),
            bytes@.len() == 4 * i,
            forall|x: u32| #[trigger] spec_u32_to_le_bytes(x).len() == 4,
        decreases indices.len() - i,
    {
        push_u32_le(&mut bytes, indices[i]);
        proof {
            assert(indices@.take(i + 1).drop_last() =~= indices@.take(i as int));
            assert(indices@.take(i + 1).last() == indices@[i as int]);
        }
        i = i + 1;
    }
    assert(indices@.take(indices@.len() as int) =~= indices@);
    bytes
}

/// `payload` appended to `bin`, then zeros up to a multiple of four bytes.
pub open spec fn padded_append(bin: Seq<u8>, payload: Seq<u8>) -> Seq<u8> {
    bin + payload + repeated(0, padding_to_four(bin.len() + payload.len()))
}

/// Appends a PNG payload to the buffer, records it as an image starting
/// where the buffer ended, and pads the buffer to four bytes.
pub fn append_image(
    binary: &mut Vec<u8>,
    images: &mut Vec<ImageInfo>,
    name: String,
    png: &[u8],
    sampler: SamplerKind,
)
    requires
        old(binary)@.len() + png@.len() + 3 <= usize::MAX,
    ensures
        final(binary)@ == padded_append(old(binary)@, png@),
        final(binary)@.len() % 4 == 0,
        final(images)@ == old(images)@.push(
            ImageInfo {
                name,
                offset: old(binary)@.len() as usize,
                len: png@.len() as usize,
                sampler,
            },
        ),
{
    images.push(ImageInfo { name, offset: binary.len(), len: png.len(), sampler });
    push_bytes(binary, png);
    pad_binary(binary);
}

/// Names of the bark albedo, bark normal and leaf card images.
pub open spec fn material_image_names() -> Seq<Seq<char>> {
    seq!["bark_albedo"@, "bark_normal"@, "leaf_card"@]
}

/// PNG encodings of the bark albedo, bark normal and leaf card maps, in
/// that order; the first map that fails to encode gives the error.
pub fn material_image_pngs(textures: &TextureSet) -> (r: Result<Vec<Vec<u8>>, TextureError>)
    requires
        textures.bark_albedo.pixels@.len() == textures.bark_albedo.width as nat
            * textures.bark_albedo.height as nat * 4,
        textures.bark_normal.pixels@.len() == textures.bark_normal.width as nat
            * textures.bark_normal.height as nat * 4,
        textures.leaf_card.pixels@.len() == textures.leaf_card.width as nat
            * textures.leaf_card.height as nat * 4,
    ensures
        ({
            let a = png_rgba8_encoding(
                textures.bark_albedo.width,
                textures.bark_albedo.height,
                textures.bark_albedo.pixels@,
            );
            let n = png_rgba8_encoding(
                textures.bark_normal.width,
                textures.bark_normal.height,
                textures.bark_normal.pixels@,
            );
            let l = png_rgba8_encoding(
                textures.leaf_card.width,
                textures.leaf_card.height,
                textures.leaf_card.pixels@,
            );
            match r {
                Ok(pngs) => {
                    &&& pngs@.len() == 3
                    &&& a == Some(pngs@[0]@)
                    &&& n == Some(pngs@[1]@)
                    &&& l == Some(pngs@[2]@)
                },
                Err(e) => e is Encode && (a is None || n is None || l is None),
            }
        }),
{
    let albedo = textures.bark_albedo.to_png()?;
    let normal = textures.bark_normal.to_png()?;
    let leaf = textures.leaf_card.to_png()?;
    let mut pngs: Vec<Vec<u8>> = Vec::new();
    pngs.push(albedo);
    pngs.push(normal);
    pngs.push(leaf);
    Ok(pngs)
}

/// Appends the bark albedo, bark normal and leaf card PNGs as repeating
/// images, each padded to four bytes.
pub fn append_material_images(
    binary: &mut Vec<u8>,
    images: &mut Vec<ImageInfo>,
    pngs: &[Vec<u8>],
)
    requires
        pngs@.len() == 3,
        old(binary)@.len() + pngs@[0]@.len() + pngs@[1]@.len() + pngs@[2]@.len() + 9
            <= usize::MAX,
    ensures
        ({
            let b0 = old(binary)@;
            let b1 = padded_append(b0, pngs@[0]@);
            let b2 = padded_append(b1, pngs@[1]@);
            let ends = seq![b0.len(), b1.len(), b2.len()];
            &&& final(binary)@ == padded_append(b2, pngs@[2]@)
            &&& final(images)@.len() == old(images)@.len() + 3
            &&& final(images)@.take(old(images)@.len() as int) == old(images)@
            &&& forall|k: int|
                0 <= k < 3 ==> {
                    let img = #[trigger] final(images)@[old(images)@.len() as int + k];
                    &&& img.name@ == material_image_names()[k]
                    &&& img.offset == ends[k]
                    &&& img.len == pngs@[k]@.len()
                    &&& img.sampler == SamplerKind::Repeat
                }
        }),
{
    let ghost b0 = binary@;
    let ghost i0 = images@;
    append_image(binary, images, owned("bark_albedo"), pngs[0].as_slice(), SamplerKind::Repeat);
    let ghost b1 = binary@;
    append_image(binary, images, owned("bark_normal"), pngs[1].as_slice(), SamplerKind::Repeat);
    let ghost b2 = binary@;
    append_image(binary, images, owned("leaf_card"), pngs[2].as_slice(), SamplerKind::Repeat);
    proof {
        assert(images@.take(i0.len() as int) =~= i0);
        assert(images@[i0.len() as int + 0].offset == b0.len());
        assert(images@[i0.len() as int + 1].offset == b1.len());
        assert(images@[i0.len() as int + 2].offset == b2.len());
    }
}

/// Name of the impostor atlas image of LOD `lod_index`.
pub open spec fn impostor_image_name(lod_index: u32) -> Seq<char> {
    "impostor_lod"@ + decimal_digits(lod_index as nat)
}

/// Appends the PNG of a LOD's impostor atlas as a clamped image and points
/// the LOD's mesh at it.
pub fn attach_impostor_atlas(
    binary: &mut Vec<u8>,
    images: &mut Vec<ImageInfo>,
    info: &mut MeshBufferInfo,
    lod_index: u32,
    png: &[u8],
)
    requires
        old(binary)@.len() + png@.len() + 3 <= usize::MAX,
    ensures
        final(binary)@ == padded_append(old(binary)@, png@),
        final(images)@.len() == old(images)@.len() + 1,
        final(images)@.take(old(images)@.len() as int) == old(images)@,
        final(images)@.last().name@ == impostor_image_name(lod_index),
        final(images)@.last().offset == old(binary)@.len(),
        final(images)@.last().len == png@.len(),
        final(images)@.last().sampler == SamplerKind::Clamp,
        *final(info) == (MeshBufferInfo {
            impostor_image: Some(old(images)@.len() as usize),
            ..*old(info)
        }),
{
    let mut name = owned("impostor_lod");
    push_decimal(&mut name, lod_index as u64);
    let image_index = images.len();
    let ghost i0 = images@;
    append_image(binary, images, name, png, SamplerKind::Clamp);
    info.impostor_image = Some(image_index);
    assert(images@.take(i0.len() as int) =~= i0);
}

/// The six encoded vertex streams of a mesh, little-endian floats.
#[derive(Debug, Clone)]
pub struct VertexStreams {
    /// Positions, 12 bytes per vertex.
    pub positions: Vec<u8>,
    /// Normals, 12 bytes per vertex.
    pub normals: Vec<u8>,
    /// Tangents with handedness, 16 bytes per vertex.
    pub tangents: Vec<u8>,
    /// First texture coordinates, 8 bytes per vertex.
    pub texcoord0: Vec<u8>,
    /// Second texture coordinates, 8 bytes per vertex.
    pub texcoord1: Vec<u8>,
    /// Vertex colors, 16 bytes per vertex.
    pub colors: Vec<u8>,
}

impl VertexStreams {
    /// Every stream holds its attribute for `vertex_count` vertices.
    pub open spec fn sized_for(&self, vertex_count: nat) -> bool {
        &&& self.positions@.len() == 12 * vertex_count
        &&& self.normals@.len() == 12 * vertex_count
        &&& self.tangents@.len() == 16 * vertex_count
        &&& self.texcoord0@.len() == 8 * vertex_count
        &&& self.texcoord1@.len() == 8 * vertex_count
        &&& self.colors@.len() == 16 * vertex_count
    }
}

/// Appends a mesh's vertex streams and indices to the buffer, in the order
/// positions, normals, tangents, texture coordinates, colors, indices, and
/// records where each starts.
pub fn append_mesh(
    binary: &mut Vec<u8>,
    name: String,
    vertex_count: usize,
    streams: &VertexStreams,
    indices: &[u32],
    submeshes: Vec<Submesh>,
) -> (info: MeshBufferInfo)
    requires
        streams.sized_for(vertex_count as nat),
        old(binary)@.len() + 72 * vertex_count + 4 * indices@.len() <= usize::MAX,
    ensures
        final(binary)@ == old(binary)@ + streams.positions@ + streams.normals@ + streams.tangents@
            + streams.texcoord0@ + streams.texcoord1@ + streams.colors@ + indices_bytes(indices@),
        info.name == name,
        info.vertex_count == vertex_count,
        info.index_count == indices@.len(),
        info.positions_offset == old(binary)@.len(),
        info.normals_offset == old(binary)@.len() + 12 * vertex_count,
        info.tangents_offset == old(binary)@.len() + 24 * vertex_count,
        info.texcoord0_offset == old(binary)@.len() + 40 * vertex_count,
        info.texcoord1_offset == old(binary)@.len() + 48 * vertex_count,
        info.color0_offset == old(binary)@.len() + 56 * vertex_count,
        info.indices_offset == old(binary)@.len() + 72 * vertex_count,
        info.submeshes@ == submeshes@,
        info.impostor_image is None,
{
    let positions_offset = binary.len();
    push_bytes(binary, streams.positions.as_slice());
    let normals_offset = binary.len();
    push_bytes(binary, streams.normals.as_slice());
    let tangents_offset = binary.len();
    push_bytes(binary, streams.tangents.as_slice());
    let texcoord0_offset = binary.len();
    push_bytes(binary, streams.texcoord0.as_slice());
    let texcoord1_offset = binary.len();
    push_bytes(binary, streams.texcoord1.as_slice());
    let color0_offset = binary.len();
    push_bytes(binary, streams.colors.as_slice());
    let indices_offset = binary.len();
    let index_bytes = indices_buffer(indices);
    push_bytes(binary, index_bytes.as_slice());
    let info = MeshBufferInfo {
        name,
        vertex_count,
        index_count: indices.len(),
        positions_offset,
        normals_offset,
        tangents_offset,
        texcoord0_offset,
        texcoord1_offset,
        color0_offset,
        indices_offset,
        submeshes,
        impostor_image: None,
    };
    info
}

} // verus!
