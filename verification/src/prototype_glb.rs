//! The structural checks on a decoded prototype GLB: every primitive is an
//! indexed triangle list with a material and the full vertex stream set,
//! and the totals agree with the manifest and the profile's slot budget.

use std::collections::BTreeSet;
use vstd::prelude::*;
use vstd::std_specs::cmp::OrdSpec;
use vstd::std_specs::iter::IteratorSpec;

verus! {

broadcast use vstd::std_specs::btree::group_btree_axioms;

/// One primitive of a prototype GLB as the validator reads it. Counts are
/// `None` where the accessor is absent; the floating-point checks (finite
/// positions, unit normals, orthogonal tangents) are measured by the caller.
#[derive(Debug, Clone, Copy, PartialEq, Eq, Structural)]
pub struct PrimitiveFacts {
    /// The primitive draws `TRIANGLES`.
    pub triangles_mode: bool,
    /// The material index, if the primitive references one.
    pub material: Option<usize>,
    /// `POSITION` values.
    pub position_count: Option<usize>,
    /// Every position is finite.
    pub positions_finite: bool,
    /// `NORMAL` values.
    pub normal_count: Option<usize>,
    /// Normals are present and every one is finite and unit length.
    pub normals_valid: bool,
    /// `TANGENT` values.
    pub tangent_count: Option<usize>,
    /// Normals and tangents are present, pair up, and every tangent is
    /// unit length, orthogonal to its normal, with unit handedness.
    pub tangents_valid: bool,
    /// `TEXCOORD_0` values.
    pub texcoord0_count: Option<usize>,
    /// `TEXCOORD_1` values.
    pub texcoord1_count: Option<usize>,
    /// `COLOR_0` values.
    pub color0_count: Option<usize>,
    /// Index values.
    pub index_count: Option<usize>,
}

/// Why a prototype GLB was rejected.
#[derive(Debug, Clone, Copy, PartialEq, Eq, Structural)]
pub enum PrototypeGlbError {
    /// A primitive does not draw triangles.
    NotTriangles,
    /// A primitive references no material.
    NoMaterial,
    /// A primitive has no `POSITION` accessor.
    NoPositions,
    /// A primitive has no positions.
    EmptyPositions,
    /// Two primitives disagree on the vertex count.
    VertexCountDisagrees { existing: usize, found: usize },
    /// A position is not finite.
    NonFinitePosition,
    /// A primitive has no indices.
    NoIndices,
    /// An index count is zero or not a multiple of three.
    BadIndexCount { count: usize },
    /// The triangle total overflows `usize`.
    TriangleOverflow,
    /// Some primitive lacks a valid vertex stream.
    MissingAttributes,
    /// The vertex count differs from the manifest's.
    VertexCountMismatch { found: usize, declared: usize },
    /// The triangle count differs from the manifest's.
    TriangleCountMismatch { found: usize, declared: usize },
    /// The bounds differ from the manifest's.
    Bounds,
    /// No primitive references a material.
    NoMaterials,
    /// More materials are used than the profile allows.
    TooManyMaterials { used: usize, limit: usize },
}

/// What the scan of the primitives has gathered so far.
pub struct GlbScan {
    pub vertex_count: Option<usize>,
    pub triangle_count: nat,
    pub materials: Set<usize>,
    pub has_normals: bool,
    pub has_tangents: bool,
    pub normals_are_valid: bool,
    pub tangents_are_valid: bool,
    pub has_texcoord0: bool,
    pub has_texcoord1: bool,
    pub has_color0: bool,
}

/// The scan before any primitive.
pub open spec fn empty_scan() -> GlbScan {
    GlbScan {
        vertex_count: None,
        triangle_count: 0,
        materials: Set::empty(),
        has_normals: true,
        has_tangents: true,
        normals_are_valid: true,
        tangents_are_valid: true,
        has_texcoord0: true,
        has_texcoord1: true,
        has_color0: true,
    }
}

/// One primitive read into the scan, or the first fault it shows.
pub open spec fn scan_step(s: GlbScan, p: PrimitiveFacts) -> Result<GlbScan, PrototypeGlbError> {
    if !p.triangles_mode {
        Err(PrototypeGlbError::NotTriangles)
    } else {
        match p.material {
            None => Err(PrototypeGlbError::NoMaterial),
            Some(material) => match p.position_count {
                None => Err(PrototypeGlbError::NoPositions),
                Some(count) => if count == 0 {
                    Err(PrototypeGlbError::EmptyPositions)
                } else if s.vertex_count is Some && s.vertex_count != Some(count) {
                    Err(
                        PrototypeGlbError::VertexCountDisagrees {
                            existing: s.vertex_count->0,
                            found: count,
                        },
                    )
                } else if !p.positions_finite {
                    Err(PrototypeGlbError::NonFinitePosition)
                } else {
                    match p.index_count {
                        None => Err(PrototypeGlbError::NoIndices),
                        Some(indices) => if indices == 0 || indices % 3 != 0 {
                            Err(PrototypeGlbError::BadIndexCount { count: indices })
                        } else if s.triangle_count + indices / 3 > usize::MAX {
                            Err(PrototypeGlbError::TriangleOverflow)
                        } else {
                            Ok(
                                GlbScan {
                                    vertex_count: Some(count),
                                    triangle_count: (s.triangle_count + indices / 3) as nat,
                                    materials: s.materials.insert(material),
                                    has_normals: s.has_normals && p.normal_count == Some(count),
                                    has_tangents: s.has_tangents && p.tangent_count == Some(
                                        count,
                                    ),
                                    normals_are_valid: s.normals_are_valid && p.normals_valid,
                                    tangents_are_valid: s.tangents_are_valid && p.tangents_valid,
                                    has_texcoord0: s.has_texcoord0 && p.texcoord0_count == Some(
                                        count,
                                    ),
                                    has_texcoord1: s.has_texcoord1 && p.texcoord1_count == Some(
                                        count,
                                    ),
                                    has_color0: s.has_color0 && p.color0_count == Some(count),
                                },
                            )
                        },
                    }
                },
            },
        }
    }
}

/// The first `n` primitives read in order.
pub open spec fn scan_prefix(ps: Seq<PrimitiveFacts>, n: nat) -> Result<GlbScan, PrototypeGlbError>
    decreases n,
{
    if n == 0 {
        Ok(empty_scan())
    } else {
        match scan_prefix(ps, (n - 1) as nat) {
            Err(e) => Err(e),
            Ok(s) => scan_step(s, ps[n - 1]),
        }
    }
}

/// Every vertex stream is present and valid on every primitive.
pub open spec fn streams_complete(s: GlbScan) -> bool {
    &&& s.vertex_count is Some
    &&& s.has_normals
    &&& s.has_tangents
    &&& s.normals_are_valid
    &&& s.tangents_are_valid
    &&& s.has_texcoord0
    &&& s.has_texcoord1
    &&& s.has_color0
}

/// What the checks conclude of a prototype GLB: the scan, then the streams,
/// the declared counts, the caller's bounds comparison and the material
/// budget. On success, the scan.
pub open spec fn prototype_glb_check(
    ps: Seq<PrimitiveFacts>,
    declared_vertices: usize,
    declared_triangles: usize,
    bounds_close: bool,
    material_slot_limit: usize,
) -> Result<GlbScan, PrototypeGlbError> {
    match scan_prefix(ps, ps.len()) {
        Err(e) => Err(e),
        Ok(s) => if ps.len() == 0 || !streams_complete(s) {
            Err(PrototypeGlbError::MissingAttributes)
        } else if s.vertex_count->0 != declared_vertices {
            Err(
                PrototypeGlbError::VertexCountMismatch {
                    found: s.vertex_count->0,
                    declared: declared_vertices,
                },
            )
        } else if s.triangle_count != declared_triangles {
            Err(
                PrototypeGlbError::TriangleCountMismatch {
                    found: s.triangle_count as usize,
                    declared: declared_triangles,
                },
            )
        } else if !bounds_close {
            Err(PrototypeGlbError::Bounds)
        } else if s.materials.len() == 0 {
            Err(PrototypeGlbError::NoMaterials)
        } else if s.materials.len() > material_slot_limit {
            Err(
                PrototypeGlbError::TooManyMaterials {
                    used: s.materials.len() as usize,
                    limit: material_slot_limit,
                },
            )
        } else {
            Ok(s)
        }
    }
}

/// The counts and stream flags of a prototype GLB that passed.
#[derive(Debug, Clone, PartialEq, Eq)]
pub struct PrototypeGlbSummary {
    /// Primitives across all meshes.
    pub primitive_count: usize,
    /// Vertices shared by every primitive.
    pub vertex_count: usize,
    /// Triangles across all primitives.
    pub triangle_count: usize,
    /// Material indices used, ascending, each once.
    pub used_material_indices: Vec<usize>,
}

/// A strictly ascending list.
pub open spec fn ascending(v: Seq<usize>) -> bool {
    forall|i: int, j: int| 0 <= i < j < v.len() ==> v[i] < v[j]
}

/// `usize` keys are ordered as integers, so a `BTreeSet<usize>` behaves
/// as vstd specifies it.
pub open spec fn usize_keys_ordered() -> bool {
    vstd::laws_cmp::obeys_cmp::<usize>()
}

proof fn lemma_usize_keys_ordered()
    ensures
        usize_keys_ordered(),
{
    broadcast use vstd::laws_cmp::group_laws_cmp;

}

/// A sequence of `usize` keys that is increasing by their order is
/// ascending as integers.
proof fn lemma_increasing_keys_ascend(keys: Seq<&usize>)
    requires
        vstd::std_specs::btree::increasing_seq(keys),
    ensures
        forall|a: int, b: int| 0 <= a < b < keys.len() ==> *keys[a] < *keys[b],
{
    broadcast use vstd::laws_cmp::group_laws_cmp;

    assert(vstd::laws_cmp::obeys_cmp::<usize>());
    assert(vstd::laws_cmp::obeys_cmp::<&usize>());
    assert forall|a: int, b: int| 0 <= a < b < keys.len() implies *keys[a] < *keys[b] by {
        assert((&keys[a]).cmp_spec(&&keys[b]) is Less);
    }
}

/// The members of a set of indices, in ascending order.
fn ascending_members(set: &BTreeSet<usize>) -> (v: Vec<usize>)
    requires
        usize_keys_ordered(),
    ensures
        ascending(v@),
        v@.to_set() == set@,
        v@.len() == set@.len(),
{
    let mut out: Vec<usize> = Vec::new();
    let ghost keys = vstd::std_specs::btree::spec_btree_keys_iter(set).remaining();
    for x in it: set.iter()
        invariant
            it.seq() == keys,
            out.len() == it.index(),
            forall|k: int| 0 <= k < out.len() ==> out@[k] == *keys[k],
    {
        out.push(*x);
    }
    proof {
        lemma_increasing_keys_ascend(keys);
        assert(out@ =~= keys.unref());
    }
    out
}

proof fn lemma_scan_error_persists(ps: Seq<PrimitiveFacts>, n: nat, m: nat)
    requires
        n <= m <= ps.len(),
        scan_prefix(ps, n) is Err,
    ensures
        scan_prefix(ps, m) == scan_prefix(ps, n),
    decreases m - n,
{
    if n < m {
        lemma_scan_error_persists(ps, n, (m - 1) as nat);
    }
}

proof fn lemma_scan_prefix_step(ps: Seq<PrimitiveFacts>, n: nat)
    requires
        n < ps.len(),
    ensures
        scan_prefix(ps, n + 1) == match scan_prefix(ps, n) {
            Err(e) => Err(e),
            Ok(s) => scan_step(s, ps[n as int]),
        },
{
}

/// Checks the primitives of a decoded prototype GLB against the manifest's
/// vertex and triangle counts and the profile's material slot budget;
/// `bounds_close` is the caller's comparison of the decoded bounds with
/// the manifest's.
pub fn check_prototype_glb(
    primitives: &[PrimitiveFacts],
    declared_vertices: usize,
    declared_triangles: usize,
    bounds_close: bool,
    material_slot_limit: usize,
) -> (r: Result<PrototypeGlbSummary, PrototypeGlbError>)
    ensures
        match (r, prototype_glb_check(
            primitives@,
            declared_vertices,
            declared_triangles,
            bounds_close,
            material_slot_limit,
        )) {
            (Ok(summary), Ok(s)) => {
                &&& summary.primitive_count == primitives@.len()
                &&& summary.vertex_count == declared_vertices
                &&& summary.triangle_count == declared_triangles
                &&& ascending(summary.used_material_indices@)
                &&& summary.used_material_indices@.to_set() == s.materials
            },
            (Err(e), Err(f)) => e == f,
            _ => false,
        },
{
    let mut vertex_count: Option<usize> = None;
    let mut triangle_count: usize = 0;
    proof {
        lemma_usize_keys_ordered();
    }
    let mut materials: BTreeSet<usize> = BTreeSet::new();
    let mut has_normals = true;
    let mut has_tangents = true;
    let mut normals_are_valid = true;
    let mut tangents_are_valid = true;
    let mut has_texcoord0 = true;
    let mut has_texcoord1 = true;
    let mut has_color0 = true;
    let mut i: usize = 0;
    while i < primitives.len()
        invariant
            i <= primitives@.len(),
            usize_keys_ordered(),
            scan_prefix(primitives@, i as nat) == Ok::<GlbScan, PrototypeGlbError>(
                GlbScan {
                    vertex_count,
                    triangle_count: triangle_count as nat,
                    materials: materials@,
                    has_normals,
                    has_tangents,
                    normals_are_valid,
                    tangents_are_valid,
                    has_texcoord0,
                    has_texcoord1,
                    has_color0,
                },
            ),
            i > 0 ==> vertex_count is Some,
        decreases primitives@.len() - i,
    {
        proof {
            lemma_scan_prefix_step(primitives@, i as nat);
        }
        let p = primitives[i];
        if !p.triangles_mode {
            proof {
                lemma_scan_error_persists(primitives@, (i + 1) as nat, primitives@.len());
            }
            return Err(PrototypeGlbError::NotTriangles);
        }
        let material = match p.material {
            None => {
                proof {
                    lemma_scan_error_persists(primitives@, (i + 1) as nat, primitives@.len());
                }
                return Err(PrototypeGlbError::NoMaterial);
            },
            Some(m) => m,
        };
        let count = match p.position_count {
            None => {
                proof {
                    lemma_scan_error_persists(primitives@, (i + 1) as nat, primitives@.len());
                }
                return Err(PrototypeGlbError::NoPositions);
            },
            Some(c) => c,
        };
        if count == 0 {
            proof {
                lemma_scan_error_persists(primitives@, (i + 1) as nat, primitives@.len());
            }
            return Err(PrototypeGlbError::EmptyPositions);
        }
        match vertex_count {
            Some(existing) => {
                if existing != count {
                    proof {
                        lemma_scan_error_persists(primitives@, (i + 1) as nat, primitives@.len());
                    }
                    return Err(PrototypeGlbError::VertexCountDisagrees { existing, found: count });
                }
            },
            None => {},
        }
        if !p.positions_finite {
            proof {
                lemma_scan_error_persists(primitives@, (i + 1) as nat, primitives@.len());
            }
            return Err(PrototypeGlbError::NonFinitePosition);
        }
        let indices = match p.index_count {
            None => {
                proof {
                    lemma_scan_error_persists(primitives@, (i + 1) as nat, primitives@.len());
                }
                return Err(PrototypeGlbError::NoIndices);
            },
            Some(n) => n,
        };
        if indices == 0 || indices % 3 != 0 {
            proof {
                lemma_scan_error_persists(primitives@, (i + 1) as nat, primitives@.len());
            }
            return Err(PrototypeGlbError::BadIndexCount { count: indices });
        }
        let added = match triangle_count.checked_add(indices / 3) {
            None => {
                proof {
                    lemma_scan_error_persists(primitives@, (i + 1) as nat, primitives@.len());
                }
                return Err(PrototypeGlbError::TriangleOverflow);
            },
            Some(t) => t,
        };
        vertex_count = Some(count);
        triangle_count = added;
        materials.insert(material);
        has_normals = has_normals && p.normal_count == Some(count);
        has_tangents = has_tangents && p.tangent_count == Some(count);
        normals_are_valid = normals_are_valid && p.normals_valid;
        tangents_are_valid = tangents_are_valid && p.tangents_valid;
        has_texcoord0 = has_texcoord0 && p.texcoord0_count == Some(count);
        has_texcoord1 = has_texcoord1 && p.texcoord1_count == Some(count);
        has_color0 = has_color0 && p.color0_count == Some(count);
        i = i + 1;
    }
    let vertices = match vertex_count {
        None => {
            return Err(PrototypeGlbError::MissingAttributes);
        },
        Some(v) => v,
    };
    if !(has_normals && has_tangents && normals_are_valid && tangents_are_valid && has_texcoord0
        && has_texcoord1 && has_color0) {
        return Err(PrototypeGlbError::MissingAttributes);
    }
    if vertices != declared_vertices {
        return Err(PrototypeGlbError::VertexCountMismatch { found: vertices, declared: declared_vertices });
    }
    if triangle_count != declared_triangles {
        return Err(
            PrototypeGlbError::TriangleCountMismatch {
                found: triangle_count,
                declared: declared_triangles,
            },
        );
    }
    if !bounds_close {
        return Err(PrototypeGlbError::Bounds);
    }
    if materials.is_empty() {
        return Err(PrototypeGlbError::NoMaterials);
    }
    if materials.len() > material_slot_limit {
        return Err(PrototypeGlbError::TooManyMaterials { used: materials.len(), limit: material_slot_limit });
    }
    let used_material_indices = ascending_members(&materials);
    Ok(
        PrototypeGlbSummary {
            primitive_count: primitives.len(),
            vertex_count: vertices,
            triangle_count,
            used_material_indices,
        },
    )
}

} // verus!
