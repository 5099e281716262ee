use vstd::prelude::*;

use crate::error::MeshError;
use crate::mesh_builder::{MeshBuilder, MeshData, MAX_VERTICES};
use crate::vertex::Cell;

verus! {

/// The number of faces of a block.
pub const FACE_COUNT: usize = 6;

/// The six faces of a block, in the order in which they are meshed.
#[derive(Clone, Copy, Debug, PartialEq, Eq, Structural)]
pub enum Direction {
    Up,
    Down,
    Left,
    Right,
    Forwards,
    Backwards,
}

impl Direction {
    /// The place of the face among the six.
    pub open spec fn spec_index(self) -> int {
        match self {
            Direction::Up => 0,
            Direction::Down => 1,
            Direction::Left => 2,
            Direction::Right => 3,
            Direction::Forwards => 4,
            Direction::Backwards => 5,
        }
    }

    /// The face at place `index`; places beyond the fifth give the last face.
    pub open spec fn at(index: int) -> Direction {
        if index == 0 {
            Direction::Up
        } else if index == 1 {
            Direction::Down
        } else if index == 2 {
            Direction::Left
        } else if index == 3 {
            Direction::Right
        } else if index == 4 {
            Direction::Forwards
        } else {
            Direction::Backwards
        }
    }

    /// The name of the object that holds this face in a block model.
    pub open spec fn spec_name(self) -> Seq<char> {
        match self {
            Direction::Up => "up"@,
            Direction::Down => "down"@,
            Direction::Left => "left"@,
            Direction::Right => "right"@,
            Direction::Forwards => "forwards"@,
            Direction::Backwards => "backwards"@,
        }
    }

    /// The place of the face among the six.
    pub fn index(self) -> (r: usize)
        ensures
            r == self.spec_index(),
            r < FACE_COUNT,
    {
        match self {
            Direction::Up => 0,
            Direction::Down => 1,
            Direction::Left => 2,
            Direction::Right => 3,
            Direction::Forwards => 4,
            Direction::Backwards => 5,
        }
    }

    /// The face at place `index`, if there is one.
    pub fn from_index(index: usize) -> (r: Option<Direction>)
        ensures
            r is Some <==> index < FACE_COUNT,
            r matches Some(d) ==> d == Direction::at(index as int) && d.spec_index() == index,
    {
        match index {
            0 => Some(Direction::Up),
            1 => Some(Direction::Down),
            2 => Some(Direction::Left),
            3 => Some(Direction::Right),
            4 => Some(Direction::Forwards),
            5 => Some(Direction::Backwards),
            _ => None,
        }
    }

    /// The name of the object that holds this face in a block model.
    pub fn name(self) -> (r: String)
        ensures
            r@ == self.spec_name(),
    {
        match self {
            Direction::Up => "up".to_owned(),
            Direction::Down => "down".to_owned(),
            Direction::Left => "left".to_owned(),
            Direction::Right => "right".to_owned(),
            Direction::Forwards => "forwards".to_owned(),
            Direction::Backwards => "backwards".to_owned(),
        }
    }
}

/// Whether `faces` can be the faces of a block model: six valid meshes, each
/// anchored at the origin cell.
pub open spec fn is_template(faces: Seq<MeshData>) -> bool {
    &&& faces.len() == FACE_COUNT
    &&& forall|f: int| 0 <= f < faces.len() ==> (#[trigger] faces[f]).valid() && faces[f].at_origin()
}

/// The number of vertices in the first `count` of `faces`.
pub open spec fn face_vertices(faces: Seq<MeshData>, count: nat) -> nat
    decreases count,
{
    if count == 0 {
        0
    } else {
        face_vertices(faces, (count - 1) as nat) + faces[count - 1].positions.len()
    }
}

/// `base` with the first `count` of `faces` merged behind it in order, each
/// moved to the cell `at`.
pub open spec fn place_faces(base: MeshData, faces: Seq<MeshData>, at: Cell, count: nat) -> MeshData
    decreases count,
{
    if count == 0 {
        base
    } else {
        place_faces(base, faces, at, (count - 1) as nat).merge(faces[count - 1].translated(at))
    }
}

/// Whether a voxel of state `local`, drawn with `faces`, fits behind `base`.
pub open spec fn voxel_fits(base: MeshData, local: Local, faces: Seq<MeshData>) -> bool {
    local.solid ==> base.positions.len() + face_vertices(faces, FACE_COUNT as nat) <= MAX_VERTICES
}

/// `base` with a voxel of state `local` at the cell `at` behind it: the six
/// `faces` if the voxel is solid, nothing if it is not.
pub open spec fn place_voxel(base: MeshData, local: Local, faces: Seq<MeshData>, at: Cell) -> MeshData {
    if local.solid {
        place_faces(base, faces, at, FACE_COUNT as nat)
    } else {
        base
    }
}

/// The look of one kind of block: a mesh for each of its six faces, drawn in
/// the unit cube at the origin cell. It never changes once it is made.
#[derive(Debug)]
pub struct RawMesh {
    faces: Vec<MeshBuilder>,
}

impl View for RawMesh {
    type V = Seq<MeshData>;

    closed spec fn view(&self) -> Seq<MeshData> {
        Seq::new(self.faces@.len(), |f: int| self.faces@[f]@)
    }
}

impl RawMesh {
    #[verifier::type_invariant]
    pub open spec fn inv(&self) -> bool {
        is_template(self@)
    }

    /// A block without geometry: six empty faces.
    pub fn new() -> (r: RawMesh)
        ensures
            r@ == Seq::new(FACE_COUNT as nat, |f: int| MeshData::empty()),
            is_template(r@),
    {
        let mut faces: Vec<MeshBuilder> = Vec::new();
        let mut f: usize = 0;
        while f < FACE_COUNT
            invariant
                f <= FACE_COUNT,
                faces@.len() == f,
                forall|g: int| 0 <= g < f ==> (#[trigger] faces@[g])@ == MeshData::empty(),
            decreases FACE_COUNT - f,
        {
            faces.push(MeshBuilder::new());
            f += 1;
        }
        let r = RawMesh { faces };
        r
    }

    /// The block whose faces are `faces`, in the order of `Direction`.
    ///
    /// Fails with `InvalidGeometry` unless there are six of them, each
    /// anchored at the origin cell.
    pub fn from_faces(faces: Vec<MeshBuilder>) -> (r: Result<RawMesh, MeshError>)
        ensures
            match r {
                Ok(t) => t@ == Seq::new(faces@.len(), |f: int| faces@[f]@) && is_template(t@),
                Err(e) => e == MeshError::InvalidGeometry && !(faces@.len() == FACE_COUNT && forall|f: int|
                    0 <= f < faces@.len() ==> (#[trigger] faces@[f])@.at_origin()),
            },
    {
        if faces.len() != FACE_COUNT {
            return Err(MeshError::InvalidGeometry);
        }
        let mut f: usize = 0;
        while f < FACE_COUNT
            invariant
                f <= FACE_COUNT,
                faces@.len() == FACE_COUNT,
                forall|g: int| 0 <= g < f ==> (#[trigger] faces@[g])@.at_origin() && faces@[g]@.valid(),
            decreases FACE_COUNT - f,
        {
            let face = &faces[f];
            proof {
                use_type_invariant(face);
            }
            if !face.is_at_origin() {
                return Err(MeshError::InvalidGeometry);
            }
            f += 1;
        }
        Ok(RawMesh { faces })
    }

    /// The mesh of one face.
    pub fn face(&self, direction: Direction) -> (r: &MeshBuilder)
        ensures
            r@ == self@[direction.spec_index()],
            r@.valid(),
            r@.at_origin(),
            is_template(self@),
    {
        proof {
            use_type_invariant(self);
        }
        let r = &self.faces[direction.index()];
        proof {
            assert(self@[direction.spec_index()].valid());
        }
        r
    }

    /// The number of vertices of the six faces together.
    pub fn vertex_count(&self) -> (n: u64)
        ensures
            n == face_vertices(self@, FACE_COUNT as nat),
            is_template(self@),
    {
        proof {
            use_type_invariant(self);
        }
        let mut n: u64 = 0;
        let mut f: usize = 0;
        while f < FACE_COUNT
            invariant
                f <= FACE_COUNT,
                self.faces@.len() == FACE_COUNT,
                n == face_vertices(self@, f as nat),
                n <= f * MAX_VERTICES,
            decreases FACE_COUNT - f,
        {
            let count = self.faces[f].vertex_count();
            n = n + count as u64;
            f += 1;
        }
        n
    }
}

impl Default for RawMesh {
    fn default() -> (r: RawMesh)
        ensures
            r@ == Seq::new(FACE_COUNT as nat, |f: int| MeshData::empty()),
    {
        RawMesh::new()
    }
}

/// What all blocks of one kind share.
#[derive(Debug)]
pub struct Global {
    pub mesh: RawMesh,
}

impl Global {
    /// The kind of block that looks like `mesh`.
    pub fn new(mesh: RawMesh) -> (r: Global)
        ensures
            r.mesh == mesh,
    {
        Global { mesh }
    }
}

impl Default for Global {
    fn default() -> (r: Global)
        ensures
            r.mesh@ == Seq::new(FACE_COUNT as nat, |f: int| MeshData::empty()),
    {
        Global { mesh: RawMesh::new() }
    }
}

/// The state of one voxel: the kind of block in it, and whether it is there
/// at all.
#[derive(Clone, Copy, Debug, PartialEq, Eq, Structural)]
pub struct Local {
    pub id: usize,
    pub solid: bool,
}

impl Local {
    /// An empty voxel, of the first kind of block.
    pub fn new() -> (r: Local)
        ensures
            r == (Local { id: 0, solid: false }),
    {
        Local { id: 0, solid: false }
    }
}

impl Default for Local {
    fn default() -> (r: Local)
        ensures
            r == (Local { id: 0, solid: false }),
    {
        Local::new()
    }
}

/// Puts the voxel `local` of kind `global` at the cell `position` into
/// `builder`: the six faces in order, each moved to that cell, if the voxel is
/// solid; nothing if it is not.
///
/// Fails with `InvalidGeometry`, leaving `builder` as it was, if the faces do
/// not fit behind what `builder` holds.
pub fn mesh_into(local: &Local, global: &Global, position: Cell, builder: &mut MeshBuilder) -> (r: Result<
    (),
    MeshError,
>)
    ensures
        final(builder)@.valid(),
        r is Ok <==> voxel_fits(old(builder)@, *local, global.mesh@),
        r is Ok ==> final(builder)@ == place_voxel(old(builder)@, *local, global.mesh@, position),
        r is Err ==> r == Err::<(), MeshError>(MeshError::InvalidGeometry) && final(builder)@ == old(builder)@,
{
    let held = builder.vertex_count();
    if !local.solid {
        return Ok(());
    }
    let added = global.mesh.vertex_count();
    if added > (MAX_VERTICES - held) as u64 {
        return Err(MeshError::InvalidGeometry);
    }
    let ghost faces = global.mesh@;
    let mut f: usize = 0;
    while f < FACE_COUNT
        invariant
            f <= FACE_COUNT,
            faces == global.mesh@,
            is_template(faces),
            builder@.valid(),
            builder@ == place_faces(old(builder)@, faces, position, f as nat),
            builder@.positions.len() == held + face_vertices(faces, f as nat),
            held + face_vertices(faces, FACE_COUNT as nat) <= MAX_VERTICES,
        decreases FACE_COUNT - f,
    {
        let direction = Direction::from_index(f).unwrap();
        let face = global.mesh.face(direction);
        proof {
            lemma_face_vertices_grow(faces, (f + 1) as nat, FACE_COUNT as nat);
        }
        builder.merge_translated(face, position);
        f += 1;
    }
    Ok(())
}

/// The vertex count of the first faces grows with their number.
pub proof fn lemma_face_vertices_grow(faces: Seq<MeshData>, fewer: nat, more: nat)
    requires
        fewer <= more,
    ensures
        face_vertices(faces, fewer) <= face_vertices(faces, more),
    decreases more,
{
    if fewer < more {
        lemma_face_vertices_grow(faces, fewer, (more - 1) as nat);
    }
}

/// The kinds of block of a world, each known by the place at which it was
/// added. The list only grows.
#[derive(Debug)]
pub struct Globals {
    pub globals: Vec<Global>,
}

impl Globals {
    /// The faces of every kind, by place.
    pub open spec fn templates(&self) -> Seq<Seq<MeshData>> {
        Seq::new(self.globals@.len(), |t: int| self.globals@[t].mesh@)
    }

    /// No kinds yet.
    pub fn new() -> (r: Globals)
        ensures
            r.globals@.len() == 0,
            r.templates() == Seq::<Seq<MeshData>>::empty(),
    {
        let r = Globals { globals: Vec::new() };
        r
    }

    /// Adds a kind of block, and returns the place by which voxels name it
    /// from now on.
    pub fn add(&mut self, global: Global) -> (index: usize)
        ensures
            index == old(self).globals@.len(),
            final(self).globals@ == old(self).globals@.push(global),
            final(self).templates() == old(self).templates().push(global.mesh@),
    {
        let index = self.globals.len();
        self.globals.push(global);
        index
    }

    /// The number of kinds.
    pub fn len(&self) -> (n: usize)
        ensures
            n == self.globals@.len(),
            n == self.templates().len(),
    {
        self.globals.len()
    }

    /// The kind at place `index`. Fails with `UnknownTemplate` if nothing was
    /// added at that place.
    pub fn get(&self, index: usize) -> (r: Result<&Global, MeshError>)
        ensures
            match r {
                Ok(global) => index < self.globals@.len() && *global == self.globals@[index as int]
                    && global.mesh@ == self.templates()[index as int] && is_template(global.mesh@),
                Err(e) => e == MeshError::UnknownTemplate && index >= self.globals@.len(),
            },
    {
        if index < self.globals.len() {
            let global = &self.globals[index];
            proof {
                use_type_invariant(&global.mesh);
            }
            Ok(global)
        } else {
            Err(MeshError::UnknownTemplate)
        }
    }
}

impl Default for Globals {
    fn default() -> (r: Globals)
        ensures
            r.globals@.len() == 0,
    {
        Globals::new()
    }
}

} // verus!
