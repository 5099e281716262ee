use vstd::prelude::*;

use crate::error::MeshError;
use crate::vertex::{Cell, Position, Vector2, Vector3};

verus! {

/// The most vertices a buffer may hold, so that each has a 32-bit index.
pub const MAX_VERTICES: usize = 0xFFFF_FFFF;

/// What a mesh is: three attribute sequences of one length, and a triangle
/// list whose entries are positions in those sequences.
#[verifier::ext_equal]
pub struct MeshData {
    pub positions: Seq<Position>,
    pub normals: Seq<Vector3>,
    pub uvs: Seq<Vector2>,
    pub indices: Seq<nat>,
}

impl MeshData {
    /// The mesh without vertices and triangles.
    pub open spec fn empty() -> MeshData {
        MeshData {
            positions: Seq::empty(),
            normals: Seq::empty(),
            uvs: Seq::empty(),
            indices: Seq::empty(),
        }
    }

    /// The mesh made of four sequences as a caller hands them in.
    pub open spec fn fragment(
        positions: Seq<Position>,
        normals: Seq<Vector3>,
        uvs: Seq<Vector2>,
        indices: Seq<u32>,
    ) -> MeshData {
        MeshData {
            positions,
            normals,
            uvs,
            indices: Seq::new(indices.len(), |k: int| indices[k] as nat),
        }
    }

    /// Every vertex has its three attributes, and every index names a vertex.
    pub open spec fn consistent(self) -> bool {
        &&& self.normals.len() == self.positions.len()
        &&& self.uvs.len() == self.positions.len()
        &&& forall|k: int| 0 <= k < self.indices.len() ==> #[trigger] self.indices[k] < self.positions.len()
    }

    /// Consistent, and small enough for 32-bit indices.
    pub open spec fn valid(self) -> bool {
        &&& self.consistent()
        &&& self.positions.len() <= MAX_VERTICES
    }

    /// Whether `other` still fits behind `self`.
    pub open spec fn can_merge(self, other: MeshData) -> bool {
        self.positions.len() + other.positions.len() <= MAX_VERTICES
    }

    /// `indices`, each moved up by `base`.
    pub open spec fn rebased(indices: Seq<nat>, base: nat) -> Seq<nat> {
        Seq::new(indices.len(), |k: int| indices[k] + base)
    }

    /// `other` behind `self`: the attributes are concatenated, and the indices
    /// of `other` are moved up by the number of vertices of `self`, so that
    /// each triangle keeps its corners.
    pub open spec fn merge(self, other: MeshData) -> MeshData {
        MeshData {
            positions: self.positions + other.positions,
            normals: self.normals + other.normals,
            uvs: self.uvs + other.uvs,
            indices: self.indices + Self::rebased(other.indices, self.positions.len()),
        }
    }

    /// The same mesh, every position moved by `by` whole cells.
    pub open spec fn translated(self, by: Cell) -> MeshData {
        MeshData {
            positions: Seq::new(self.positions.len(), |k: int| self.positions[k].translated(by)),
            normals: self.normals,
            uvs: self.uvs,
            indices: self.indices,
        }
    }

    /// Every position is anchored at the origin cell, as in a block model.
    pub open spec fn at_origin(self) -> bool {
        forall|k: int| 0 <= k < self.positions.len() ==> (#[trigger] self.positions[k]).cell == Cell::origin()
    }

    /// The position that entry `k` of the triangle list refers to.
    pub open spec fn corner(self, k: int) -> Position {
        self.positions[self.indices[k] as int]
    }
}

/// An indexed triangle mesh under construction.
///
/// It is created empty and grows by appending fragments and merging other
/// buffers. At all times its three attribute lists have one length, and every
/// index is below that length.
#[derive(Debug)]
pub struct MeshBuilder {
    positions: Vec<Position>,
    normals: Vec<Vector3>,
    uvs: Vec<Vector2>,
    indices: Vec<u32>,
}

/// A finished mesh, as a renderer takes it: plain lists, free to read.
#[derive(Debug, PartialEq, Eq)]
pub struct RenderMesh {
    pub positions: Vec<Position>,
    pub normals: Vec<Vector3>,
    pub uvs: Vec<Vector2>,
    pub indices: Vec<u32>,
}

impl View for MeshBuilder {
    type V = MeshData;

    closed spec fn view(&self) -> MeshData {
        MeshData::fragment(self.positions@, self.normals@, self.uvs@, self.indices@)
    }
}

impl View for RenderMesh {
    type V = MeshData;

    open spec fn view(&self) -> MeshData {
        MeshData::fragment(self.positions@, self.normals@, self.uvs@, self.indices@)
    }
}

fn push_all<T: Copy>(target: &mut Vec<T>, items: &[T])
    ensures
        final(target)@ == old(target)@ + items@,
{
    let mut k: usize = 0;
    while k < items.len()
        invariant
            k <= items.len(),
            target@ == old(target)@ + items@.take(k as int),
        decreases items.len() - k,
    {
        target.push(items[k]);
        k += 1;
    }
}

fn push_translated(target: &mut Vec<Position>, items: &[Position], by: Cell)
    requires
        forall|k: int| 0 <= k < items.len() ==> (#[trigger] items[k]).cell.can_shift(by),
    ensures
        final(target)@ == old(target)@ + Seq::new(items@.len(), |k: int| items@[k].translated(by)),
{
    let ghost moved = Seq::new(items@.len(), |k: int| items@[k].translated(by));
    let mut k: usize = 0;
    while k < items.len()
        invariant
            k <= items.len(),
            moved == Seq::new(items@.len(), |k: int| items@[k].translated(by)),
            forall|j: int| 0 <= j < items.len() ==> (#[trigger] items[j]).cell.can_shift(by),
            target@ == old(target)@ + moved.take(k as int),
        decreases items.len() - k,
    {
        target.push(items[k].translate(by));
        k += 1;
    }
}

fn push_rebased(target: &mut Vec<u32>, items: &[u32], base: u32)
    requires
        forall|k: int| 0 <= k < items.len() ==> #[trigger] items[k] + base <= u32::MAX,
    ensures
        final(target)@ == old(target)@ + Seq::new(items@.len(), |k: int| (items@[k] + base) as u32),
{
    let ghost moved = Seq::new(items@.len(), |k: int| (items@[k] + base) as u32);
    let mut k: usize = 0;
    while k < items.len()
        invariant
            k <= items.len(),
            moved == Seq::new(items@.len(), |k: int| (items@[k] + base) as u32),
            forall|j: int| 0 <= j < items.len() ==> #[trigger] items[j] + base <= u32::MAX,
            target@ == old(target)@ + moved.take(k as int),
        decreases items.len() - k,
    {
        target.push(items[k] + base);
        k += 1;
    }
}

/// Whether every entry of `indices` is below `count`.
fn indices_below(indices: &[u32], count: usize) -> (r: bool)
    ensures
        r == (forall|k: int| 0 <= k < indices.len() ==> #[trigger] indices[k] < count),
{
    let mut k: usize = 0;
    while k < indices.len()
        invariant
            k <= indices.len(),
            forall|j: int| 0 <= j < k ==> #[trigger] indices[j] < count,
        decreases indices.len() - k,
    {
        if indices[k] as usize >= count {
            return false;
        }
        k += 1;
    }
    true
}

/// A fragment with an index that names none of its vertices is not consistent.
proof fn lemma_index_outside(
    positions: Seq<Position>,
    normals: Seq<Vector3>,
    uvs: Seq<Vector2>,
    indices: Seq<u32>,
)
    requires
        !(forall|k: int| 0 <= k < indices.len() ==> #[trigger] indices[k] < positions.len()),
    ensures
        !MeshData::fragment(positions, normals, uvs, indices).consistent(),
{
    let added = MeshData::fragment(positions, normals, uvs, indices);
    if added.consistent() {
        assert forall|k: int| 0 <= k < indices.len() implies #[trigger] indices[k] < positions.len() by {
            assert(added.indices[k] < added.positions.len());
        }
    }
}

impl MeshBuilder {
    #[verifier::type_invariant]
    pub open spec fn inv(&self) -> bool {
        self@.valid()
    }

    /// An empty buffer.
    pub fn new() -> (r: MeshBuilder)
        ensures
            r@ == MeshData::empty(),
    {
        let r = MeshBuilder {
            positions: Vec::new(),
            normals: Vec::new(),
            uvs: Vec::new(),
            indices: Vec::new(),
        };
        r
    }

    /// A buffer that holds the four lists as they are.
    ///
    /// Fails with `InvalidGeometry` unless they make a consistent mesh of at
    /// most `MAX_VERTICES` vertices.
    pub fn from_parts(
        positions: Vec<Position>,
        normals: Vec<Vector3>,
        uvs: Vec<Vector2>,
        indices: Vec<u32>,
    ) -> (r: Result<MeshBuilder, MeshError>)
        ensures
            match r {
                Ok(b) => b@ == MeshData::fragment(positions@, normals@, uvs@, indices@) && b@.valid(),
                Err(e) => e == MeshError::InvalidGeometry && !MeshData::fragment(
                    positions@,
                    normals@,
                    uvs@,
                    indices@,
                ).valid(),
            },
    {
        let count = positions.len();
        if normals.len() != count || uvs.len() != count || count > MAX_VERTICES {
            return Err(MeshError::InvalidGeometry);
        }
        if !indices_below(indices.as_slice(), count) {
            proof {
                lemma_index_outside(positions@, normals@, uvs@, indices@);
            }
            return Err(MeshError::InvalidGeometry);
        }
        Ok(MeshBuilder { positions, normals, uvs, indices })
    }

    /// The number of vertices held.
    pub fn vertex_count(&self) -> (n: usize)
        ensures
            n == self@.positions.len(),
            n <= MAX_VERTICES,
            self@.valid(),
    {
        proof {
            use_type_invariant(self);
        }
        self.positions.len()
    }

    /// The number of entries of the triangle list: three for each triangle.
    pub fn index_count(&self) -> (n: usize)
        ensures
            n == self@.indices.len(),
    {
        self.indices.len()
    }

    /// Whether the buffer holds nothing at all.
    pub fn is_empty(&self) -> (r: bool)
        ensures
            r == (self@ == MeshData::empty()),
    {
        proof {
            use_type_invariant(self);
            if self.positions@.len() == 0 && self.indices@.len() == 0 {
                assert(self@ =~= MeshData::empty());
            } else {
                assert(self@.positions.len() + self@.indices.len() > 0);
            }
        }
        self.positions.len() == 0 && self.indices.len() == 0
    }

    /// Whether every position is anchored at the origin cell.
    pub fn is_at_origin(&self) -> (r: bool)
        ensures
            r == self@.at_origin(),
    {
        let mut k: usize = 0;
        while k < self.positions.len()
            invariant
                k <= self.positions.len(),
                forall|j: int| 0 <= j < k ==> (#[trigger] self.positions@[j]).cell == Cell::origin(),
            decreases self.positions.len() - k,
        {
            if !self.positions[k].cell.is_origin() {
                assert(self@.positions[k as int].cell != Cell::origin());
                return false;
            }
            k += 1;
        }
        true
    }

    /// Puts a consistent fragment that fits behind the buffer, every position
    /// of it moved by `by`.
    fn extend_translated(
        &mut self,
        positions: &[Position],
        normals: &[Vector3],
        uvs: &[Vector2],
        indices: &[u32],
        by: Cell,
    )
        requires
            MeshData::fragment(positions@, normals@, uvs@, indices@).consistent(),
            old(self)@.can_merge(MeshData::fragment(positions@, normals@, uvs@, indices@)),
            forall|k: int| 0 <= k < positions.len() ==> (#[trigger] positions[k]).cell.can_shift(by),
        ensures
            final(self)@ == old(self)@.merge(
                MeshData::fragment(positions@, normals@, uvs@, indices@).translated(by),
            ),
            final(self)@.valid(),
    {
        proof {
            use_type_invariant(&*self);
        }
        let ghost before = self@;
        let ghost added = MeshData::fragment(positions@, normals@, uvs@, indices@);
        let mut taken = MeshBuilder::new();
        core::mem::swap(self, &mut taken);
        let MeshBuilder {
            positions: mut all_positions,
            normals: mut all_normals,
            uvs: mut all_uvs,
            indices: mut all_indices,
        } = taken;
        let base: u32 = all_positions.len() as u32;
        assert forall|k: int| 0 <= k < indices.len() implies #[trigger] indices[k] + base <= u32::MAX by {
            assert(added.indices[k] < added.positions.len());
        }
        push_translated(&mut all_positions, positions, by);
        push_all(&mut all_normals, normals);
        push_all(&mut all_uvs, uvs);
        push_rebased(&mut all_indices, indices, base);
        let ghost after = MeshData::fragment(all_positions@, all_normals@, all_uvs@, all_indices@);
        proof {
            let wanted = before.merge(added.translated(by));
            assert forall|k: int| 0 <= k < after.indices.len() implies after.indices[k] == wanted.indices[k]
                && after.indices[k] < after.positions.len() by {
                if k >= before.indices.len() {
                    assert(added.indices[k - before.indices.len()] < added.positions.len());
                }
            }
        }
        *self = MeshBuilder { positions: all_positions, normals: all_normals, uvs: all_uvs, indices: all_indices };
    }

    /// Appends a fragment: the four lists go behind the buffer's own, and each
    /// incoming index is moved up by the number of vertices that the buffer
    /// held before, so that it names the same vertex of the fragment.
    ///
    /// Fails with `InvalidGeometry`, leaving the buffer as it was, unless the
    /// fragment is consistent and fits.
    pub fn append(
        &mut self,
        positions: &[Position],
        normals: &[Vector3],
        uvs: &[Vector2],
        indices: &[u32],
    ) -> (r: Result<(), MeshError>)
        ensures
            final(self)@.valid(),
            r is Ok <==> MeshData::fragment(positions@, normals@, uvs@, indices@).consistent()
                && old(self)@.can_merge(MeshData::fragment(positions@, normals@, uvs@, indices@)),
            r is Ok ==> final(self)@ == old(self)@.merge(
                MeshData::fragment(positions@, normals@, uvs@, indices@),
            ),
            r is Err ==> r == Err::<(), MeshError>(MeshError::InvalidGeometry) && final(self)@ == old(self)@,
    {
        proof {
            use_type_invariant(&*self);
        }
        let count = positions.len();
        if normals.len() != count || uvs.len() != count {
            return Err(MeshError::InvalidGeometry);
        }
        if count > MAX_VERTICES - self.positions.len() {
            return Err(MeshError::InvalidGeometry);
        }
        if !indices_below(indices, count) {
            proof {
                lemma_index_outside(positions@, normals@, uvs@, indices@);
            }
            return Err(MeshError::InvalidGeometry);
        }
        self.extend_translated(positions, normals, uvs, indices, Cell::new(0, 0, 0));
        Ok(())
    }

    /// Merges another buffer: the same as appending its four lists.
    ///
    /// Fails with `InvalidGeometry`, leaving the buffer as it was, if the two
    /// together hold more than `MAX_VERTICES` vertices.
    pub fn merge(&mut self, other: &MeshBuilder) -> (r: Result<(), MeshError>)
        ensures
            final(self)@.valid(),
            r is Ok <==> old(self)@.can_merge(other@),
            r is Ok ==> final(self)@ == old(self)@.merge(other@),
            r is Err ==> r == Err::<(), MeshError>(MeshError::InvalidGeometry) && final(self)@ == old(self)@,
    {
        proof {
            use_type_invariant(&*self);
            use_type_invariant(other);
        }
        if other.positions.len() > MAX_VERTICES - self.positions.len() {
            return Err(MeshError::InvalidGeometry);
        }
        self.extend_translated(
            other.positions.as_slice(),
            other.normals.as_slice(),
            other.uvs.as_slice(),
            other.indices.as_slice(),
            Cell::new(0, 0, 0),
        );
        Ok(())
    }

    /// Merges a block-model buffer that fits, moved to the cell `at`.
    pub(crate) fn merge_translated(&mut self, other: &MeshBuilder, at: Cell)
        requires
            other@.at_origin(),
            old(self)@.can_merge(other@),
        ensures
            final(self)@.valid(),
            final(self)@ == old(self)@.merge(other@.translated(at)),
    {
        proof {
            use_type_invariant(other);
        }
        assert forall|k: int| 0 <= k < other.positions.len() implies (#[trigger] other.positions[k]).cell.can_shift(
            at,
        ) by {
            assert(other@.positions[k].cell == Cell::origin());
        }
        self.extend_translated(
            other.positions.as_slice(),
            other.normals.as_slice(),
            other.uvs.as_slice(),
            other.indices.as_slice(),
            at,
        );
    }

    /// The mesh as a renderer takes it. The buffer stays as it is, and may be
    /// asked again.
    pub fn to_render_mesh(&self) -> (mesh: RenderMesh)
        ensures
            mesh@ == self@,
            mesh@.valid(),
    {
        proof {
            use_type_invariant(self);
        }
        let mut positions: Vec<Position> = Vec::new();
        let mut normals: Vec<Vector3> = Vec::new();
        let mut uvs: Vec<Vector2> = Vec::new();
        let mut indices: Vec<u32> = Vec::new();
        push_all(&mut positions, self.positions.as_slice());
        push_all(&mut normals, self.normals.as_slice());
        push_all(&mut uvs, self.uvs.as_slice());
        push_all(&mut indices, self.indices.as_slice());
        let mesh = RenderMesh { positions, normals, uvs, indices };
        mesh
    }
}

impl Default for MeshBuilder {
    fn default() -> (r: MeshBuilder)
        ensures
            r@ == MeshData::empty(),
    {
        MeshBuilder::new()
    }
}

} // verus!
