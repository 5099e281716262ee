use vstd::prelude::*;

use crate::block::{face_vertices, mesh_into, place_faces, place_voxel, Globals, Local, FACE_COUNT};
use crate::error::MeshError;
use crate::mesh_builder::{MeshBuilder, MeshData, RenderMesh, MAX_VERTICES};
use crate::vertex::Cell;

verus! {

/// The number of voxels along each edge of a chunk.
pub const CHUNK_SIZE: usize = 16;

/// The number of voxels of one layer of a chunk.
pub const CHUNK_AREA: usize = 256;

/// The number of voxels of a chunk.
pub const CHUNK_VOLUME: usize = 4096;

/// Whether `(x, y, z)` names a voxel of a chunk.
pub open spec fn in_chunk(x: int, y: int, z: int) -> bool {
    0 <= x < CHUNK_SIZE && 0 <= y < CHUNK_SIZE && 0 <= z < CHUNK_SIZE
}

/// The place of the voxel `(x, y, z)` in the list of voxels: `x` runs
/// fastest, then `y`, then `z`.
pub open spec fn cell_index(x: int, y: int, z: int) -> int {
    x + CHUNK_SIZE * y + CHUNK_AREA * z
}

/// The cell of the voxel at place `index`.
pub open spec fn cell_at(index: int) -> Cell {
    Cell {
        x: (index % (CHUNK_SIZE as int)) as i32,
        y: ((index / (CHUNK_SIZE as int)) % (CHUNK_SIZE as int)) as i32,
        z: (index / (CHUNK_AREA as int)) as i32,
    }
}

/// What a chunk is: its voxels in the order of `cell_index`, and whether they
/// changed since the chunk was last meshed.
#[verifier::ext_equal]
pub struct GridData {
    pub cells: Seq<Local>,
    pub dirty: bool,
}

impl GridData {
    /// The voxel at `(x, y, z)`, or `OutOfBounds`.
    pub open spec fn get(self, x: usize, y: usize, z: usize) -> Result<Local, MeshError> {
        if in_chunk(x as int, y as int, z as int) {
            Ok(self.cells[cell_index(x as int, y as int, z as int)])
        } else {
            Err(MeshError::OutOfBounds)
        }
    }

    /// The chunk with the voxel at `(x, y, z)` replaced and marked as changed,
    /// or `OutOfBounds`.
    pub open spec fn set(self, x: usize, y: usize, z: usize, voxel: Local) -> Result<GridData, MeshError> {
        if in_chunk(x as int, y as int, z as int) {
            Ok(GridData { cells: self.cells.update(cell_index(x as int, y as int, z as int), voxel), dirty: true })
        } else {
            Err(MeshError::OutOfBounds)
        }
    }
}

/// The mesh of the first `count` voxels of `cells`: each solid one adds the
/// six faces of its kind, moved to its cell, in the order of the voxels.
pub open spec fn mesh_cells(cells: Seq<Local>, templates: Seq<Seq<MeshData>>, count: nat) -> MeshData
    decreases count,
{
    if count == 0 {
        MeshData::empty()
    } else {
        place_voxel(
            mesh_cells(cells, templates, (count - 1) as nat),
            cells[count - 1],
            templates[cells[count - 1].id as int],
            cell_at(count - 1),
        )
    }
}

/// Whether some solid voxel of `cells` names a kind that `templates` lacks.
pub open spec fn names_unknown(cells: Seq<Local>, templates: Seq<Seq<MeshData>>) -> bool {
    exists|i: int| 0 <= i < cells.len() && (#[trigger] cells[i]).solid && cells[i].id >= templates.len()
}

/// What meshing a chunk gives: `UnknownTemplate` if a solid voxel names a
/// kind that was never added; else `InvalidGeometry` if the mesh would hold
/// more than `MAX_VERTICES` vertices; else the mesh of all voxels.
pub open spec fn build_result(cells: Seq<Local>, templates: Seq<Seq<MeshData>>) -> Result<MeshData, MeshError> {
    if names_unknown(cells, templates) {
        Err(MeshError::UnknownTemplate)
    } else if mesh_cells(cells, templates, cells.len()).positions.len() > MAX_VERTICES {
        Err(MeshError::InvalidGeometry)
    } else {
        Ok(mesh_cells(cells, templates, cells.len()))
    }
}

/// What one pass over a chunk did.
#[derive(Debug, PartialEq, Eq)]
pub enum MeshUpdate {
    /// The chunk had not changed: there is nothing to publish.
    Unchanged,
    /// The chunk was meshed anew: this mesh replaces the published one.
    Rebuilt(RenderMesh),
    /// Meshing failed: the published mesh stays, and the chunk stays marked.
    Failed(MeshError),
}

/// Whether a pass over the chunk `before` may end with `outcome` and the
/// chunk `after`: a chunk that did not change is left alone; one that changed
/// and can be meshed gives its mesh and is no longer marked; one that cannot
/// be meshed gives the error and stays as it was, mark included.
pub open spec fn is_update(
    before: GridData,
    templates: Seq<Seq<MeshData>>,
    after: GridData,
    outcome: MeshUpdate,
) -> bool {
    if !before.dirty {
        outcome is Unchanged && after == before
    } else {
        match build_result(before.cells, templates) {
            Ok(mesh) => outcome matches MeshUpdate::Rebuilt(published) && published@ == mesh && after == (GridData {
                cells: before.cells,
                dirty: false,
            }),
            Err(e) => outcome == MeshUpdate::Failed(e) && after == before,
        }
    }
}

fn flat_index(x: usize, y: usize, z: usize) -> (index: usize)
    requires
        in_chunk(x as int, y as int, z as int),
    ensures
        index == cell_index(x as int, y as int, z as int),
        index < CHUNK_VOLUME,
{
    x + CHUNK_SIZE * y + CHUNK_AREA * z
}

/// A chunk: a cube of `CHUNK_SIZE` voxels along each edge, and a mark that
/// says whether it changed since it was last meshed.
#[derive(Debug)]
pub struct Blocks {
    blocks: Vec<Local>,
    changed: bool,
}

impl View for Blocks {
    type V = GridData;

    closed spec fn view(&self) -> GridData {
        GridData { cells: self.blocks@, dirty: self.changed }
    }
}

impl Blocks {
    #[verifier::type_invariant]
    pub open spec fn inv(&self) -> bool {
        self@.cells.len() == CHUNK_VOLUME
    }

    /// A chunk of empty voxels, marked as changed: it has no mesh yet.
    pub fn new() -> (r: Blocks)
        ensures
            r@.cells == Seq::new(CHUNK_VOLUME as nat, |i: int| Local { id: 0, solid: false }),
            r@.dirty,
    {
        let mut blocks: Vec<Local> = Vec::new();
        let mut i: usize = 0;
        while i < CHUNK_VOLUME
            invariant
                i <= CHUNK_VOLUME,
                blocks@.len() == i,
                forall|j: int| 0 <= j < i ==> #[trigger] blocks@[j] == (Local { id: 0, solid: false }),
            decreases CHUNK_VOLUME - i,
        {
            blocks.push(Local::new());
            i += 1;
        }
        let r = Blocks { blocks, changed: true };
        r
    }

    /// The voxel at `(x, y, z)`. Fails with `OutOfBounds` if a coordinate is
    /// `CHUNK_SIZE` or more.
    pub fn get(&self, x: usize, y: usize, z: usize) -> (r: Result<Local, MeshError>)
        ensures
            r == self@.get(x, y, z),
            self@.cells.len() == CHUNK_VOLUME,
    {
        proof {
            use_type_invariant(self);
        }
        if x < CHUNK_SIZE && y < CHUNK_SIZE && z < CHUNK_SIZE {
            Ok(self.blocks[flat_index(x, y, z)])
        } else {
            Err(MeshError::OutOfBounds)
        }
    }

    /// Replaces the voxel at `(x, y, z)` and marks the chunk as changed.
    /// Fails with `OutOfBounds`, leaving the chunk as it was, if a coordinate
    /// is `CHUNK_SIZE` or more.
    pub fn set(&mut self, x: usize, y: usize, z: usize, voxel: Local) -> (r: Result<(), MeshError>)
        ensures
            match r {
                Ok(()) => old(self)@.set(x, y, z, voxel) == Ok::<GridData, MeshError>(final(self)@),
                Err(e) => old(self)@.set(x, y, z, voxel) == Err::<GridData, MeshError>(e) && final(self)@ == old(
                    self,
                )@,
            },
    {
        proof {
            use_type_invariant(&*self);
        }
        if x < CHUNK_SIZE && y < CHUNK_SIZE && z < CHUNK_SIZE {
            self.blocks[flat_index(x, y, z)] = voxel;
            self.changed = true;
            Ok(())
        } else {
            Err(MeshError::OutOfBounds)
        }
    }

    /// The voxel at `(at[0], at[1], at[2])`, to be changed in place, or
    /// nothing if a coordinate is `CHUNK_SIZE` or more. Handing the voxel out
    /// marks the chunk as changed.
    pub fn get_mut(&mut self, at: [usize; 3]) -> (r: Option<&mut Local>)
        ensures
            match r {
                Some(voxel) => in_chunk(at[0] as int, at[1] as int, at[2] as int) && old(self)@.get(
                    at[0],
                    at[1],
                    at[2],
                ) == Ok::<Local, MeshError>(*voxel) && old(self)@.set(at[0], at[1], at[2], *final(voxel)) == Ok::<
                    GridData,
                    MeshError,
                >(final(self)@),
                None => !in_chunk(at[0] as int, at[1] as int, at[2] as int) && final(self)@ == old(self)@,
            },
    {
        proof {
            use_type_invariant(&*self);
        }
        let x = at[0];
        let y = at[1];
        let z = at[2];
        if x < CHUNK_SIZE && y < CHUNK_SIZE && z < CHUNK_SIZE {
            self.changed = true;
            Some(&mut self.blocks[flat_index(x, y, z)])
        } else {
            None
        }
    }

    /// Whether the chunk changed since it was last meshed.
    pub fn is_dirty(&self) -> (r: bool)
        ensures
            r == self@.dirty,
    {
        self.changed
    }

    /// Takes the mark off: the published mesh shows the chunk as it is.
    pub fn clear_dirty(&mut self)
        ensures
            final(self)@ == (GridData { cells: old(self)@.cells, dirty: false }),
    {
        proof {
            use_type_invariant(&*self);
        }
        self.changed = false;
    }

    /// Meshes the chunk: every solid voxel, in the order of `cell_index`,
    /// adds the six faces of its kind, moved to its cell.
    ///
    /// Fails with `UnknownTemplate` if a solid voxel names a kind that
    /// `globals` lacks, and with `InvalidGeometry` if the mesh would hold more
    /// than `MAX_VERTICES` vertices.
    pub fn build(&self, globals: &Globals) -> (r: Result<MeshBuilder, MeshError>)
        ensures
            match r {
                Ok(builder) => build_result(self@.cells, globals.templates()) == Ok::<MeshData, MeshError>(
                    builder@,
                ) && builder@.valid(),
                Err(e) => build_result(self@.cells, globals.templates()) == Err::<MeshData, MeshError>(e),
            },
    {
        proof {
            use_type_invariant(self);
        }
        let ghost cells = self@.cells;
        let ghost templates = globals.templates();
        let known = globals.len();
        let mut i: usize = 0;
        while i < CHUNK_VOLUME
            invariant
                i <= CHUNK_VOLUME,
                cells == self.blocks@,
                cells.len() == CHUNK_VOLUME,
                templates == globals.templates(),
                known == templates.len(),
                forall|j: int| 0 <= j < i ==> !((#[trigger] cells[j]).solid && cells[j].id >= known),
            decreases CHUNK_VOLUME - i,
        {
            let local = &self.blocks[i];
            if local.solid && local.id >= known {
                return Err(MeshError::UnknownTemplate);
            }
            i += 1;
        }
        let mut builder = MeshBuilder::new();
        let mut i: usize = 0;
        while i < CHUNK_VOLUME
            invariant
                i <= CHUNK_VOLUME,
                cells == self.blocks@,
                cells.len() == CHUNK_VOLUME,
                templates == globals.templates(),
                !names_unknown(cells, templates),
                builder@ == mesh_cells(cells, templates, i as nat),
                builder@.valid(),
            decreases CHUNK_VOLUME - i,
        {
            let local = &self.blocks[i];
            if local.solid {
                match globals.get(local.id) {
                    Ok(global) => {
                        let at = Cell::new(
                            (i % CHUNK_SIZE) as i32,
                            ((i / CHUNK_SIZE) % CHUNK_SIZE) as i32,
                            (i / CHUNK_AREA) as i32,
                        );
                        match mesh_into(local, global, at, &mut builder) {
                            Ok(()) => {},
                            Err(e) => {
                                proof {
                                    let faces = templates[local.id as int];
                                    lemma_place_faces_count(builder@, faces, at, FACE_COUNT as nat);
                                    lemma_mesh_cells_grow(cells, templates, (i + 1) as nat, cells.len());
                                }
                                return Err(e);
                            },
                        }
                    },
                    Err(e) => {
                        return Err(e);
                    },
                }
            }
            i += 1;
        }
        Ok(builder)
    }

    /// Meshes the chunk and hands the mesh out as a renderer takes it.
    pub fn mesh(&self, globals: &Globals) -> (r: Result<RenderMesh, MeshError>)
        ensures
            match r {
                Ok(mesh) => build_result(self@.cells, globals.templates()) == Ok::<MeshData, MeshError>(mesh@)
                    && mesh@.valid(),
                Err(e) => build_result(self@.cells, globals.templates()) == Err::<MeshData, MeshError>(e),
            },
    {
        match self.build(globals) {
            Ok(builder) => Ok(builder.to_render_mesh()),
            Err(e) => Err(e),
        }
    }

    /// One pass over this chunk: if it changed, it is meshed anew; if that
    /// works, the mesh is handed out to be published and the mark is taken
    /// off; if it fails, the error is handed out and the chunk stays marked,
    /// to be tried again.
    pub fn update_mesh(&mut self, globals: &Globals) -> (r: MeshUpdate)
        ensures
            is_update(old(self)@, globals.templates(), final(self)@, r),
    {
        if !self.changed {
            return MeshUpdate::Unchanged;
        }
        match self.mesh(globals) {
            Ok(mesh) => {
                self.clear_dirty();
                MeshUpdate::Rebuilt(mesh)
            },
            Err(e) => MeshUpdate::Failed(e),
        }
    }

    /// One pass over every chunk of `chunks`, in order. What happens to one
    /// chunk does not depend on the others: a chunk that fails leaves the
    /// rest to be meshed as usual.
    pub fn update_meshes(chunks: &mut Vec<Blocks>, globals: &Globals) -> (r: Vec<MeshUpdate>)
        ensures
            final(chunks)@.len() == old(chunks)@.len(),
            r@.len() == old(chunks)@.len(),
            forall|c: int|
                0 <= c < r@.len() ==> is_update(
                    (#[trigger] old(chunks)@[c])@,
                    globals.templates(),
                    final(chunks)@[c]@,
                    r@[c],
                ),
    {
        let mut outcomes: Vec<MeshUpdate> = Vec::new();
        let mut c: usize = 0;
        while c < chunks.len()
            invariant
                c <= chunks@.len(),
                chunks@.len() == old(chunks)@.len(),
                outcomes@.len() == c,
                forall|d: int|
                    0 <= d < c ==> is_update(
                        (#[trigger] old(chunks)@[d])@,
                        globals.templates(),
                        chunks@[d]@,
                        outcomes@[d],
                    ),
                forall|d: int| c <= d < chunks@.len() ==> chunks@[d] == old(chunks)@[d],
            decreases chunks@.len() - c,
        {
            let outcome = chunks[c].update_mesh(globals);
            outcomes.push(outcome);
            c += 1;
        }
        outcomes
    }
}

impl Default for Blocks {
    fn default() -> (r: Blocks)
        ensures
            r@.cells == Seq::new(CHUNK_VOLUME as nat, |i: int| Local { id: 0, solid: false }),
            r@.dirty,
    {
        Blocks::new()
    }
}

/// Placing faces adds their vertices, and nothing else.
pub proof fn lemma_place_faces_count(base: MeshData, faces: Seq<MeshData>, at: Cell, count: nat)
    ensures
        place_faces(base, faces, at, count).positions.len() == base.positions.len() + face_vertices(faces, count),
    decreases count,
{
    if count > 0 {
        lemma_place_faces_count(base, faces, at, (count - 1) as nat);
    }
}

/// The mesh of more voxels has no fewer vertices.
pub proof fn lemma_mesh_cells_grow(cells: Seq<Local>, templates: Seq<Seq<MeshData>>, fewer: nat, more: nat)
    requires
        fewer <= more,
    ensures
        mesh_cells(cells, templates, fewer).positions.len() <= mesh_cells(cells, templates, more).positions.len(),
    decreases more,
{
    if fewer < more {
        lemma_mesh_cells_grow(cells, templates, fewer, (more - 1) as nat);
        let before = mesh_cells(cells, templates, (more - 1) as nat);
        lemma_place_faces_count(
            before,
            templates[cells[more - 1].id as int],
            cell_at(more - 1),
            FACE_COUNT as nat,
        );
    }
}

} // verus!
