//! Indexed triangle meshes with material submeshes.
//!
//! The vertex type is a parameter: the geometry itself (positions, normals,
//! texture coordinates, wind data) is single-precision and lives with the
//! generators, while the index and submesh bookkeeping is kept here.

use vstd::prelude::*;

verus! {

/// Material types for tree rendering.
#[derive(Debug, Clone, Copy, PartialEq, Eq, Structural)]
pub enum MaterialType {
    /// Bark material for trunk and branches.
    Bark,
    /// Leaf material for foliage.
    Leaves,
    /// Baked impostor atlas on the far LODs' crossed quads.
    Impostor,
}

/// A range of indices drawn with one material.
#[derive(Debug, Clone, Copy, PartialEq, Eq, Structural)]
pub struct Submesh {
    /// Starting index in the indices array.
    pub index_start: u32,
    /// Number of indices in this submesh.
    pub index_count: u32,
    /// Material type for this submesh.
    pub material: MaterialType,
}

/// Complete mesh data.
#[derive(Debug, Clone)]
pub struct Mesh<V> {
    /// All vertices in the mesh.
    pub vertices: Vec<V>,
    /// Triangle indices (3 per triangle).
    pub indices: Vec<u32>,
    /// Submesh ranges with material assignments.
    pub submeshes: Vec<Submesh>,
}

/// `n` modulo 2^32, as a `u32` cast of a length keeps it.
pub open spec fn low_u32(n: nat) -> u32 {
    (n % 0x1_0000_0000) as u32
}

impl<V> Mesh<V> {
    /// Every index names a vertex and every submesh lies inside the index
    /// buffer.
    pub open spec fn wf(&self) -> bool {
        &&& forall|i: int| 0 <= i < self.indices@.len() ==> self.indices@[i] < self.vertices@.len()
        &&& forall|j: int|
            0 <= j < self.submeshes@.len() ==> self.submeshes@[j].index_start
                + self.submeshes@[j].index_count <= self.indices@.len()
    }

    /// A new empty mesh.
    pub fn new() -> (m: Self)
        ensures
            m.vertices@.len() == 0,
            m.indices@.len() == 0,
            m.submeshes@.len() == 0,
            m.wf(),
    {
        Mesh { vertices: Vec::new(), indices: Vec::new(), submeshes: Vec::new() }
    }

    /// Number of vertices.
    pub fn vertex_count(&self) -> (n: usize)
        ensures
            n == self.vertices@.len(),
    {
        self.vertices.len()
    }

    /// Number of whole triangles.
    pub fn triangle_count(&self) -> (n: usize)
        ensures
            n == self.indices@.len() / 3,
    {
        self.indices.len() / 3
    }

    /// The mesh has no vertices or no indices.
    pub fn is_empty(&self) -> (b: bool)
        ensures
            b == (self.vertices@.len() == 0 || self.indices@.len() == 0),
    {
        self.vertices.len() == 0 || self.indices.len() == 0
    }

    /// Clears all mesh data.
    pub fn clear(&mut self)
        ensures
            final(self).vertices@.len() == 0,
            final(self).indices@.len() == 0,
            final(self).submeshes@.len() == 0,
    {
        self.vertices.clear();
        self.indices.clear();
        self.submeshes.clear();
    }
}

impl<V: Copy> Mesh<V> {
    /// Appends `other` with the given material: its vertices follow ours,
    /// its indices are shifted by our old vertex count, and one submesh
    /// covering the appended indices is added.
    pub fn merge(&mut self, other: &Mesh<V>, material: MaterialType)
        requires
            forall|i: int|
                0 <= i < other.indices@.len() ==> other.indices@[i] + low_u32(
                    old(self).vertices@.len(),
                ) <= u32::MAX,
        ensures
            final(self).vertices@ == old(self).vertices@ + other.vertices@,
            final(self).indices@ == old(self).indices@ + Seq::new(
                other.indices@.len(),
                |i: int| (other.indices@[i] + low_u32(old(self).vertices@.len())) as u32,
            ),
            final(self).submeshes@ == old(self).submeshes@.push(
                Submesh {
                    index_start: low_u32(old(self).indices@.len()),
                    index_count: low_u32(other.indices@.len()),
                    material,
                },
            ),
            old(self).wf() && other.wf() && old(self).vertices@.len() <= u32::MAX && old(
                self,
            ).indices@.len() + other.indices@.len() <= u32::MAX ==> final(self).wf(),
    {
        let vertex_offset = (self.vertices.len() as u64 % 0x1_0000_0000) as u32;
        let index_start = (self.indices.len() as u64 % 0x1_0000_0000) as u32;
        let ghost old_vertices = self.vertices@;
        let ghost old_indices = self.indices@;
        let mut i: usize = 0;
        while i < other.vertices.len()
            invariant
                i <= other.vertices@.len(),
                self.vertices@ == old_vertices + other.vertices@.take(i as int),
                self.indices@ == old_indices,
                self.submeshes@ == old(self).submeshes@,
            decreases other.vertices@.len() - i,
        {
            let v = other.vertices[i];
            self.vertices.push(v);
            i = i + 1;
            assert(self.vertices@ =~= old_vertices + other.vertices@.take(i as int));
        }
        assert(other.vertices@.take(i as int) =~= other.vertices@);
        let mut k: usize = 0;
        assert(self.indices@ =~= old_indices + Seq::new(
            0 as nat,
            |i: int| (other.indices@[i] + vertex_offset) as u32,
        ));
        while k < other.indices.len()
            invariant
                k <= other.indices@.len(),
                vertex_offset == low_u32(old_vertices.len()),
                self.vertices@ == old_vertices + other.vertices@,
                self.submeshes@ == old(self).submeshes@,
                forall|i: int|
                    0 <= i < other.indices@.len() ==> other.indices@[i] + vertex_offset <= u32::MAX,
                self.indices@ == old_indices + Seq::new(
                    k as nat,
                    |i: int| (other.indices@[i] + vertex_offset) as u32,
                ),
            decreases other.indices@.len() - k,
        {
            let idx = other.indices[k];
            self.indices.push(idx + vertex_offset);
            k = k + 1;
            assert(self.indices@ =~= old_indices + Seq::new(
                k as nat,
                |i: int| (other.indices@[i] + vertex_offset) as u32,
            ));
        }
        let index_count = (other.indices.len() as u64 % 0x1_0000_0000) as u32;
        self.submeshes.push(Submesh { index_start, index_count, material });
    }
}

/// Whether submesh `s` draws triangle `t`: the submesh steps through the
/// indices `start, start + 3, ...` below `start + count`, and `t` is the
/// triangle (index / 3) of one of them.
pub open spec fn submesh_draws(s: Submesh, t: int) -> bool {
    let k = t - s.index_start / 3;
    0 <= k && 3 * k < s.index_count
}

/// The material triangle `t` is drawn with: that of the last submesh that
/// draws it, bark when none does.
pub open spec fn triangle_material(subs: Seq<Submesh>, t: int) -> MaterialType
    decreases subs.len(),
{
    if subs.len() == 0 {
        MaterialType::Bark
    } else if submesh_draws(subs.last(), t) {
        subs.last().material
    } else {
        triangle_material(subs.drop_last(), t)
    }
}

/// The material of each whole triangle of the mesh.
pub fn tri_materials<V>(mesh: &Mesh<V>) -> (out: Vec<MaterialType>)
    requires
        forall|j: int|
            0 <= j < mesh.submeshes@.len() ==> #[trigger] mesh.submeshes@[j].index_start
                + mesh.submeshes@[j].index_count <= u32::MAX,
    ensures
        out@.len() == mesh.indices@.len() / 3,
        forall|t: int| 0 <= t < out@.len() ==> #[trigger] out@[t] == triangle_material(
            mesh.submeshes@,
            t,
        ),
{
    let n = mesh.indices.len() / 3;
    let subs = &mesh.submeshes;
    let mut out: Vec<MaterialType> = Vec::new();
    while out.len() < n
        invariant
            out@.len() <= n,
            forall|t: int| 0 <= t < out@.len() ==> #[trigger] out@[t] == MaterialType::Bark,
        decreases n - out@.len(),
    {
        out.push(MaterialType::Bark);
    }
    assert forall|t: int| 0 <= t < n implies #[trigger] out@[t] == triangle_material(
        subs@.take(0),
        t,
    ) by {}
    let mut j: usize = 0;
    while j < subs.len()
        invariant
            j <= subs@.len(),
            out@.len() == n,
            forall|q: int|
                0 <= q < subs@.len() ==> #[trigger] subs@[q].index_start + subs@[q].index_count
                    <= u32::MAX,
            forall|t: int| 0 <= t < n ==> #[trigger] out@[t] == triangle_material(
                subs@.take(j as int),
                t,
            ),
        decreases subs@.len() - j,
    {
        let s = subs[j];
        assert(s.index_start + s.index_count <= u32::MAX);
        let start = s.index_start as u64;
        let end = start + s.index_count as u64;
        let ghost base = s.index_start / 3;
        let ghost prev = out@;
        let mut i: u64 = start;
        let ghost mut k: int = 0;
        while i < end
            invariant
                start == s.index_start,
                end == s.index_start + s.index_count,
                i == start + 3 * k,
                0 <= k,
                end <= u32::MAX,
                i <= end + 2,
                out@.len() == n,
                prev.len() == n,
                base == s.index_start / 3,
                forall|t: int|
                    0 <= t < n ==> #[trigger] out@[t] == if base <= t < base + k {
                        s.material
                    } else {
                        prev[t]
                    },
            decreases end + 2 - i,
        {
            let tri = (i / 3) as usize;
            assert(i / 3 == base + k) by (nonlinear_arith)
                requires
                    i == start + 3 * k,
                    base == start / 3,
                    k >= 0,
                    start >= 0,
            ;
            if tri < n {
                out.set(tri, s.material);
            }
            i = i + 3;
            proof {
                k = k + 1;
            }
        }
        proof {
            let next = subs@.take(j + 1);
            assert(next.drop_last() =~= subs@.take(j as int));
            assert(next.last() == s);
            assert(3 * k >= s.index_count);
            assert(3 * (k - 1) < s.index_count || k == 0);
            assert forall|t: int| 0 <= t < n implies #[trigger] out@[t] == triangle_material(
                next,
                t,
            ) by {
                if submesh_draws(s, t) {
                    assert(base <= t < base + k);
                } else {
                    assert(!(base <= t < base + k));
                }
            }
        }
        j = j + 1;
    }
    assert(subs@.take(subs@.len() as int) =~= subs@);
    out
}

} // verus!
