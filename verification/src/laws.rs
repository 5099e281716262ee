use vstd::prelude::*;
use vstd::string::StringSliceAdditionalSpecFns;

use crate::block::{face_vertices, is_template, place_faces, Direction, Local, FACE_COUNT};
use crate::blocks::{
    build_result, cell_at, cell_index, in_chunk, is_update, lemma_place_faces_count, mesh_cells,
    GridData, MeshUpdate, CHUNK_VOLUME,
};
use crate::error::MeshError;
use crate::loader::{find_from, lemma_template_fails, load_result, template_result};
use crate::mesh_builder::{MeshData, MAX_VERTICES};
use crate::obj::{has_long_negative, parsed_objects, ObjectData};
use crate::vertex::{Cell, Position};

verus! {

/// Merging is associative: `a`, then `b`, then `c` gives the buffer that `a`
/// followed by the merge of `b` and `c` gives, index for index; and the three
/// fit one way if and only if they fit the other way.
pub proof fn lemma_merge_associative(a: MeshData, b: MeshData, c: MeshData)
    ensures
        a.merge(b).merge(c) == a.merge(b.merge(c)),
        a.can_merge(b) && a.merge(b).can_merge(c) <==> b.can_merge(c) && a.can_merge(b.merge(c)),
{
    let left = a.merge(b).merge(c);
    let right = a.merge(b.merge(c));
}

/// Merging keeps every triangle on its corners: an entry of the triangle list
/// that came from `a` still refers to the position it referred to in `a`, and
/// one that came from `b` to the position it referred to in `b`.
pub proof fn lemma_merge_keeps_corners(a: MeshData, b: MeshData, k: int)
    requires
        a.consistent(),
        b.consistent(),
        0 <= k < a.indices.len() + b.indices.len(),
    ensures
        a.merge(b).indices.len() == a.indices.len() + b.indices.len(),
        k < a.indices.len() ==> a.merge(b).corner(k) == a.corner(k),
        k >= a.indices.len() ==> a.merge(b).corner(k) == b.corner(k - a.indices.len()),
{
}

/// Merging keeps a buffer valid: if `b` is consistent and fits behind the
/// valid `a`, every index of the merge is below its number of positions.
pub proof fn lemma_merge_valid(a: MeshData, b: MeshData)
    requires
        a.valid(),
        b.consistent(),
        a.can_merge(b),
    ensures
        a.merge(b).valid(),
        forall|k: int|
            0 <= k < a.merge(b).indices.len() ==> #[trigger] a.merge(b).indices[k] < a.merge(b).positions.len(),
{
}

/// The empty buffer is neutral: merging it, before or behind, changes nothing.
pub proof fn lemma_merge_empty(a: MeshData)
    ensures
        a.merge(MeshData::empty()) == a,
        MeshData::empty().merge(a) == a,
{
}

/// The positions of the first `count` of `faces`, one face after the other.
pub open spec fn face_positions(faces: Seq<MeshData>, count: nat) -> Seq<Position>
    decreases count,
{
    if count == 0 {
        Seq::empty()
    } else {
        face_positions(faces, (count - 1) as nat) + faces[count - 1].positions
    }
}

/// Different voxels of a chunk have different places, and the cell of a
/// voxel's place is the voxel's coordinate.
pub proof fn lemma_cell_index(x: int, y: int, z: int)
    requires
        in_chunk(x, y, z),
    ensures
        0 <= cell_index(x, y, z) < CHUNK_VOLUME,
        cell_at(cell_index(x, y, z)) == (Cell { x: x as i32, y: y as i32, z: z as i32 }),
        forall|a: int, b: int, c: int|
            in_chunk(a, b, c) && #[trigger] cell_index(a, b, c) == cell_index(x, y, z) ==> a == x && b == y && c == z,
{
}

/// A voxel that was set is the voxel that is got: setting `(x, y, z)` inside
/// the chunk works, marks the chunk, and getting `(x, y, z)` afterwards gives
/// the very voxel that was set.
pub proof fn lemma_set_then_get(grid: GridData, x: usize, y: usize, z: usize, voxel: Local)
    requires
        grid.cells.len() == CHUNK_VOLUME,
        in_chunk(x as int, y as int, z as int),
    ensures
        grid.set(x, y, z, voxel) is Ok,
        grid.set(x, y, z, voxel).unwrap().get(x, y, z) == Ok::<Local, MeshError>(voxel),
        grid.set(x, y, z, voxel).unwrap().dirty,
        grid.set(x, y, z, voxel).unwrap().cells.len() == CHUNK_VOLUME,
{
    lemma_cell_index(x as int, y as int, z as int);
}

/// Setting one voxel leaves every other voxel as it was.
pub proof fn lemma_set_keeps_others(
    grid: GridData,
    x: usize,
    y: usize,
    z: usize,
    voxel: Local,
    a: usize,
    b: usize,
    c: usize,
)
    requires
        grid.cells.len() == CHUNK_VOLUME,
        in_chunk(x as int, y as int, z as int),
        in_chunk(a as int, b as int, c as int),
        a != x || b != y || c != z,
    ensures
        grid.set(x, y, z, voxel).unwrap().get(a, b, c) == grid.get(a, b, c),
{
    lemma_cell_index(x as int, y as int, z as int);
    lemma_cell_index(a as int, b as int, c as int);
}

/// A grid coordinate of `CHUNK_SIZE` or more is refused, by `get` and by
/// `set`, whatever the other two are.
pub proof fn lemma_outside_refused(grid: GridData, x: usize, y: usize, z: usize, voxel: Local)
    requires
        !in_chunk(x as int, y as int, z as int),
    ensures
        grid.get(x, y, z) == Err::<Local, MeshError>(MeshError::OutOfBounds),
        grid.set(x, y, z, voxel) == Err::<GridData, MeshError>(MeshError::OutOfBounds),
{
}

proof fn lemma_mesh_cells_without_solid(cells: Seq<Local>, templates: Seq<Seq<MeshData>>, count: nat)
    requires
        count <= cells.len(),
        forall|i: int| 0 <= i < cells.len() ==> !(#[trigger] cells[i]).solid,
    ensures
        mesh_cells(cells, templates, count) == MeshData::empty(),
    decreases count,
{
    if count > 0 {
        lemma_mesh_cells_without_solid(cells, templates, (count - 1) as nat);
    }
}

/// A chunk without a solid voxel has the empty mesh: no vertex, no index,
/// whatever kinds of block there are.
pub proof fn lemma_empty_chunk(cells: Seq<Local>, templates: Seq<Seq<MeshData>>)
    requires
        forall|i: int| 0 <= i < cells.len() ==> !(#[trigger] cells[i]).solid,
    ensures
        build_result(cells, templates) == Ok::<MeshData, MeshError>(MeshData::empty()),
        MeshData::empty().positions.len() == 0,
        MeshData::empty().indices.len() == 0,
{
    lemma_mesh_cells_without_solid(cells, templates, cells.len());
}

/// Placing faces behind `base` puts their positions behind those of `base`,
/// in the order of the faces, each moved to the cell `at`.
pub proof fn lemma_place_faces_positions(base: MeshData, faces: Seq<MeshData>, at: Cell, count: nat)
    ensures
        face_positions(faces, count).len() == face_vertices(faces, count),
        place_faces(base, faces, at, count).positions == base.positions + Seq::new(
            face_vertices(faces, count),
            |k: int| face_positions(faces, count)[k].translated(at),
        ),
    decreases count,
{
    if count > 0 {
        lemma_place_faces_positions(base, faces, at, (count - 1) as nat);
    }
    assert(place_faces(base, faces, at, count).positions =~= base.positions + Seq::new(
        face_vertices(faces, count),
        |k: int| face_positions(faces, count)[k].translated(at),
    ));
}

/// The positions of a block model are all anchored at the origin cell.
pub proof fn lemma_face_positions_at_origin(faces: Seq<MeshData>, count: nat)
    requires
        is_template(faces),
        count <= FACE_COUNT,
    ensures
        forall|k: int|
            0 <= k < face_positions(faces, count).len() ==> (#[trigger] face_positions(faces, count)[k]).cell
                == Cell::origin(),
    decreases count,
{
    if count > 0 {
        lemma_face_positions_at_origin(faces, (count - 1) as nat);
        let before = face_positions(faces, (count - 1) as nat);
        assert forall|k: int| 0 <= k < face_positions(faces, count).len() implies (#[trigger] face_positions(
            faces,
            count,
        )[k]).cell == Cell::origin() by {
            if k >= before.len() {
                assert(faces[count - 1].positions[k - before.len()].cell == Cell::origin());
            }
        }
    }
}

proof fn lemma_mesh_cells_one_solid(cells: Seq<Local>, templates: Seq<Seq<MeshData>>, place: int, count: nat)
    requires
        0 <= place < cells.len(),
        count <= cells.len(),
        forall|i: int| 0 <= i < cells.len() && i != place ==> !(#[trigger] cells[i]).solid,
        cells[place].solid,
    ensures
        mesh_cells(cells, templates, count) == if count > place {
            place_faces(MeshData::empty(), templates[cells[place].id as int], cell_at(place), FACE_COUNT as nat)
        } else {
            MeshData::empty()
        },
    decreases count,
{
    if count > 0 {
        lemma_mesh_cells_one_solid(cells, templates, place, (count - 1) as nat);
    }
}

/// A chunk whose only solid voxel is the one at `(x, y, z)` has the mesh of
/// that voxel's block model, moved to `(x, y, z)`: as many positions as the
/// six faces of the model have together, each of them the model's position
/// with `(x, y, z)` added to its cell and its offset inside the cell kept.
///
/// The model must have at most `MAX_VERTICES` vertices: with more, the chunk
/// cannot be meshed.
pub proof fn lemma_single_voxel(cells: Seq<Local>, templates: Seq<Seq<MeshData>>, x: usize, y: usize, z: usize)
    requires
        cells.len() == CHUNK_VOLUME,
        in_chunk(x as int, y as int, z as int),
        cells[cell_index(x as int, y as int, z as int)].solid,
        forall|i: int|
            0 <= i < cells.len() && i != cell_index(x as int, y as int, z as int) ==> !(#[trigger] cells[i]).solid,
        cells[cell_index(x as int, y as int, z as int)].id < templates.len(),
        is_template(templates[cells[cell_index(x as int, y as int, z as int)].id as int]),
        face_vertices(
            templates[cells[cell_index(x as int, y as int, z as int)].id as int],
            FACE_COUNT as nat,
        ) <= MAX_VERTICES,
    ensures
        ({
            let faces = templates[cells[cell_index(x as int, y as int, z as int)].id as int];
            let model = face_positions(faces, FACE_COUNT as nat);
            &&& build_result(cells, templates) is Ok
            &&& build_result(cells, templates).unwrap() == place_faces(
                MeshData::empty(),
                faces,
                Cell { x: x as i32, y: y as i32, z: z as i32 },
                FACE_COUNT as nat,
            )
            &&& build_result(cells, templates).unwrap().positions.len() == model.len()
            &&& model.len() == face_vertices(faces, FACE_COUNT as nat)
            &&& forall|k: int|
                0 <= k < model.len() ==> {
                    let moved = #[trigger] build_result(cells, templates).unwrap().positions[k];
                    &&& moved.local == model[k].local
                    &&& moved.cell.x == model[k].cell.x + x
                    &&& moved.cell.y == model[k].cell.y + y
                    &&& moved.cell.z == model[k].cell.z + z
                }
        }),
{
    let place = cell_index(x as int, y as int, z as int);
    let faces = templates[cells[place].id as int];
    let at = Cell { x: x as i32, y: y as i32, z: z as i32 };
    lemma_cell_index(x as int, y as int, z as int);
    lemma_mesh_cells_one_solid(cells, templates, place, cells.len());
    lemma_place_faces_count(MeshData::empty(), faces, at, FACE_COUNT as nat);
    lemma_place_faces_positions(MeshData::empty(), faces, at, FACE_COUNT as nat);
    lemma_face_positions_at_origin(faces, FACE_COUNT as nat);
}

/// A solid voxel that names the first kind that was never added makes
/// meshing fail with `UnknownTemplate`, wherever it is and whatever else the
/// chunk holds; so does any solid voxel that names a later one.
pub proof fn lemma_unknown_template(cells: Seq<Local>, templates: Seq<Seq<MeshData>>, place: int)
    requires
        0 <= place < cells.len(),
        cells[place].solid,
        cells[place].id >= templates.len(),
    ensures
        build_result(cells, templates) == Err::<MeshData, MeshError>(MeshError::UnknownTemplate),
{
}

/// A pass over a changed chunk that cannot be meshed hands out the error and
/// nothing to publish, and leaves the chunk as it was, still marked.
pub proof fn lemma_failed_update(
    before: GridData,
    templates: Seq<Seq<MeshData>>,
    after: GridData,
    outcome: MeshUpdate,
)
    requires
        before.dirty,
        build_result(before.cells, templates) is Err,
        is_update(before, templates, after, outcome),
    ensures
        outcome == MeshUpdate::Failed(build_result(before.cells, templates)->Err_0),
        after == before,
        after.dirty,
{
}

/// A model that lacks the object of a face cannot be loaded: whatever else
/// it holds, the result is an error, and it is `MissingFaceObject` if every
/// face before the missing one can be made.
pub proof fn lemma_missing_face(objects: Seq<ObjectData>, direction: Direction)
    requires
        forall|i: int| 0 <= i < objects.len() ==> (#[trigger] objects[i]).name != direction.spec_name(),
    ensures
        template_result(objects, FACE_COUNT as nat) is Err,
        template_result(objects, direction.spec_index() as nat) is Ok ==> template_result(
            objects,
            FACE_COUNT as nat,
        ) == Err::<Seq<MeshData>, MeshError>(MeshError::MissingFaceObject),
{
    lemma_find_nothing(objects, direction.spec_name(), 0);
    let place = direction.spec_index() as nat;
    lemma_template_fails(objects, place + 1, FACE_COUNT as nat);
}

/// A text whose objects lack the one of a face gives no block model: loading
/// it fails, and nothing of a model is handed out.
pub proof fn lemma_load_missing_face(text: &str, direction: Direction)
    requires
        parsed_objects(text@) matches Some(objects) && forall|i: int|
            0 <= i < objects.len() ==> (#[trigger] objects[i]).name != direction.spec_name(),
    ensures
        load_result(text) is Err,
        !has_long_negative(text.spec_bytes()) && template_result(
            parsed_objects(text@).unwrap(),
            direction.spec_index() as nat,
        ) is Ok ==> load_result(text) == Err::<Seq<MeshData>, MeshError>(MeshError::MissingFaceObject),
{
    lemma_missing_face(parsed_objects(text@).unwrap(), direction);
}

proof fn lemma_find_nothing(objects: Seq<ObjectData>, name: Seq<char>, from: int)
    requires
        0 <= from,
        forall|i: int| 0 <= i < objects.len() ==> (#[trigger] objects[i]).name != name,
    ensures
        find_from(objects, name, from) is None,
    decreases objects.len() - from,
{
    if from < objects.len() {
        lemma_find_nothing(objects, name, from + 1);
    }
}

} // verus!
