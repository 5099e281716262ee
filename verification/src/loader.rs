use vstd::prelude::*;
use vstd::string::StringSliceAdditionalSpecFns;

use crate::block::{is_template, Direction, RawMesh, FACE_COUNT};
use crate::error::MeshError;
use crate::mesh_builder::{MeshBuilder, MeshData, MAX_VERTICES};
use crate::obj::{
    has_long_negative, long_negative_at, minus_then_digits, object_count, object_name, object_normals,
    object_primitives, object_tex_vertices, object_vertices, objects_of, parse, parsed_objects, Object, ObjectData,
    Primitive, MAX_NEGATIVE_DIGITS,
};
use crate::vertex::{Cell, Position, Vector2, Vector3};

verus! {

/// The number of vertices of a face that share each of its normals: the
/// faces of a block are quads, shaded flat.
pub const VERTICES_PER_NORMAL: usize = 4;

/// What each of `objects` is.
pub open spec fn object_views(objects: Seq<Object>) -> Seq<ObjectData> {
    Seq::new(objects.len(), |i: int| objects[i]@)
}

/// The first of `objects`, from place `from` on, that is called `name`.
pub open spec fn find_from(objects: Seq<ObjectData>, name: Seq<char>, from: int) -> Option<ObjectData>
    decreases objects.len() - from,
{
    if from < 0 || from >= objects.len() {
        None
    } else if objects[from].name == name {
        Some(objects[from])
    } else {
        find_from(objects, name, from + 1)
    }
}

/// Whether `primitives` holds triangles only.
pub open spec fn all_triangles(primitives: Seq<Primitive>) -> bool {
    forall|k: int| 0 <= k < primitives.len() ==> #[trigger] primitives[k] is Triangle
}

/// The vertex at corner `corner` of `primitive`; the last one, if it has
/// fewer corners.
pub open spec fn corner_of(primitive: Primitive, corner: int) -> nat {
    match primitive {
        Primitive::Point(a) => a as nat,
        Primitive::Line(a, b) => if corner == 0 {
            a as nat
        } else {
            b as nat
        },
        Primitive::Triangle(a, b, c) => if corner == 0 {
            a as nat
        } else if corner == 1 {
            b as nat
        } else {
            c as nat
        },
    }
}

/// The mesh that an object of triangles stands for: its vertices, anchored at
/// the origin cell; each of its normals once for each of the
/// `VERTICES_PER_NORMAL` vertices that share it; its texture coordinates; and
/// the corners of its triangles, in order.
pub open spec fn face_mesh(object: ObjectData) -> MeshData {
    MeshData {
        positions: Seq::new(
            object.vertices.len(),
            |k: int| Position { cell: Cell::origin(), local: object.vertices[k] },
        ),
        normals: Seq::new(
            (VERTICES_PER_NORMAL * object.normals.len()) as nat,
            |k: int| object.normals[k / (VERTICES_PER_NORMAL as int)],
        ),
        uvs: object.tex_vertices,
        indices: Seq::new(
            (3 * object.primitives.len()) as nat,
            |k: int| corner_of(object.primitives[k / 3], k % 3),
        ),
    }
}

/// The face that `object` gives: `UnsupportedPrimitive` if it holds a point
/// or a line; else `InvalidGeometry` if its mesh is not valid; else its mesh.
pub open spec fn face_of(object: ObjectData) -> Result<MeshData, MeshError> {
    if !all_triangles(object.primitives) {
        Err(MeshError::UnsupportedPrimitive)
    } else if !face_mesh(object).valid() {
        Err(MeshError::InvalidGeometry)
    } else {
        Ok(face_mesh(object))
    }
}

/// The face of `direction` that `objects` give: that of the first object
/// called by the direction's name, or `MissingFaceObject` if there is none.
pub open spec fn face_result(objects: Seq<ObjectData>, direction: Direction) -> Result<MeshData, MeshError> {
    match find_from(objects, direction.spec_name(), 0) {
        None => Err(MeshError::MissingFaceObject),
        Some(object) => face_of(object),
    }
}

/// The first `count` faces that `objects` give, in the order of `Direction`,
/// or the error of the first face that fails.
pub open spec fn template_result(objects: Seq<ObjectData>, count: nat) -> Result<Seq<MeshData>, MeshError>
    decreases count,
{
    if count == 0 {
        Ok(Seq::empty())
    } else {
        match template_result(objects, (count - 1) as nat) {
            Err(e) => Err(e),
            Ok(faces) => match face_result(objects, Direction::at(count - 1)) {
                Err(e) => Err(e),
                Ok(face) => Ok(faces.push(face)),
            },
        }
    }
}

/// The block model that `text` describes: `ParseError` if the text holds a
/// negative number of more than `MAX_NEGATIVE_DIGITS` digits or cannot be
/// read; else what the objects read from it give.
pub open spec fn load_result(text: &str) -> Result<Seq<MeshData>, MeshError> {
    if has_long_negative(text.spec_bytes()) {
        Err(MeshError::ParseError)
    } else {
        match parsed_objects(text@) {
            None => Err(MeshError::ParseError),
            Some(objects) => template_result(objects, FACE_COUNT as nat),
        }
    }
}

/// Whether `bytes` holds a minus sign with more than `MAX_NEGATIVE_DIGITS`
/// decimal digits directly behind it.
pub fn holds_long_negative(bytes: &[u8]) -> (r: bool)
    ensures
        r == has_long_negative(bytes@),
{
    let mut open: bool = false;
    let mut digits: usize = 0;
    let mut j: usize = 0;
    while j < bytes.len()
        invariant
            j <= bytes.len(),
            forall|at: int| at + MAX_NEGATIVE_DIGITS + 1 < j ==> !#[trigger] long_negative_at(bytes@, at),
            open ==> digits <= MAX_NEGATIVE_DIGITS && digits < j && minus_then_digits(
                bytes@,
                j - digits - 1,
                j as int,
            ),
            !open ==> forall|at: int| !#[trigger] minus_then_digits(bytes@, at, j as int),
        decreases bytes.len() - j,
    {
        let byte = bytes[j];
        if byte == 0x2D {
            open = true;
            digits = 0;
        } else if 0x30 <= byte && byte <= 0x39 {
            if open {
                digits = digits + 1;
                let ghost start = j - digits;
                if digits > MAX_NEGATIVE_DIGITS {
                    proof {
                        assert(long_negative_at(bytes@, start));
                    }
                    return true;
                }
            } else {
                proof {
                    assert forall|at: int| !#[trigger] minus_then_digits(bytes@, at, j + 1) by {
                        if minus_then_digits(bytes@, at, j + 1) {
                            assert(minus_then_digits(bytes@, at, j as int));
                        }
                    }
                }
            }
        } else {
            open = false;
        }
        j += 1;
    }
    false
}

/// Reads the objects of a model from its text.
///
/// Fails with `ParseError` if the text holds a negative number of more than
/// `MAX_NEGATIVE_DIGITS` digits, or if it cannot be read.
pub fn parse_objects(text: &str) -> (r: Result<Vec<Object>, MeshError>)
    ensures
        match r {
            Ok(objects) => !has_long_negative(text.spec_bytes()) && parsed_objects(text@) == Some(
                object_views(objects@),
            ),
            Err(e) => e == MeshError::ParseError && (has_long_negative(text.spec_bytes()) || parsed_objects(text@)
                is None),
        },
{
    if holds_long_negative(text.as_bytes()) {
        return Err(MeshError::ParseError);
    }
    match parse(text) {
        Err(_) => Err(MeshError::ParseError),
        Ok(set) => {
            let count = object_count(&set);
            let mut objects: Vec<Object> = Vec::new();
            let mut i: usize = 0;
            while i < count
                invariant
                    i <= count,
                    count == objects_of(set).len(),
                    objects@.len() == i,
                    forall|j: int| 0 <= j < i ==> (#[trigger] objects@[j])@ == objects_of(set)[j],
                decreases count - i,
            {
                let object = Object {
                    name: object_name(&set, i),
                    vertices: object_vertices(&set, i),
                    normals: object_normals(&set, i),
                    tex_vertices: object_tex_vertices(&set, i),
                    primitives: object_primitives(&set, i),
                };
                objects.push(object);
                i += 1;
            }
            Ok(objects)
        },
    }
}

/// The first of `objects` that is called `name`.
fn find_object<'a>(objects: &'a [Object], name: &String) -> (r: Option<&'a Object>)
    ensures
        match r {
            Some(object) => find_from(object_views(objects@), name@, 0) == Some(object@),
            None => find_from(object_views(objects@), name@, 0) is None,
        },
{
    let ghost views = object_views(objects@);
    let mut i: usize = 0;
    while i < objects.len()
        invariant
            i <= objects.len(),
            views == object_views(objects@),
            find_from(views, name@, 0) == find_from(views, name@, i as int),
        decreases objects.len() - i,
    {
        if objects[i].name == *name {
            return Some(&objects[i]);
        }
        i += 1;
    }
    None
}

/// Whether `object` holds triangles only.
fn holds_triangles_only(object: &Object) -> (r: bool)
    ensures
        r == all_triangles(object@.primitives),
{
    let mut k: usize = 0;
    while k < object.primitives.len()
        invariant
            k <= object.primitives.len(),
            forall|j: int| 0 <= j < k ==> #[trigger] object.primitives@[j] is Triangle,
        decreases object.primitives.len() - k,
    {
        match object.primitives[k] {
            Primitive::Triangle(_, _, _) => {},
            _ => {
                return false;
            },
        }
        k += 1;
    }
    true
}

/// The corners of the triangles of `object`, in order, if each of them is one
/// of the first `count` vertices.
fn triangle_corners(object: &Object, count: usize) -> (r: Option<Vec<u32>>)
    requires
        all_triangles(object@.primitives),
        count <= MAX_VERTICES,
    ensures
        match r {
            Some(indices) => {
                &&& indices@.len() == 3 * object@.primitives.len()
                &&& forall|j: int|
                    0 <= j < indices@.len() ==> #[trigger] indices@[j] == corner_of(object@.primitives[j / 3], j % 3)
                        && indices@[j] < count
            },
            None => exists|j: int|
                0 <= j < 3 * object@.primitives.len() && corner_of(#[trigger] object@.primitives[j / 3], j % 3)
                    >= count,
        },
{
    let mut indices: Vec<u32> = Vec::new();
    let mut k: usize = 0;
    while k < object.primitives.len()
        invariant
            k <= object.primitives.len(),
            all_triangles(object@.primitives),
            count <= MAX_VERTICES,
            indices@.len() == 3 * k,
            forall|j: int|
                0 <= j < indices@.len() ==> #[trigger] indices@[j] == corner_of(object@.primitives[j / 3], j % 3)
                    && indices@[j] < count,
        decreases object.primitives.len() - k,
    {
        match object.primitives[k] {
            Primitive::Triangle(a, b, c) => {
                if a >= count {
                    assert(corner_of(object@.primitives[(3 * k) / 3], (3 * k) % 3) >= count);
                    return None;
                }
                if b >= count {
                    assert(corner_of(object@.primitives[(3 * k + 1) / 3], (3 * k + 1) % 3) >= count);
                    return None;
                }
                if c >= count {
                    assert(corner_of(object@.primitives[(3 * k + 2) / 3], (3 * k + 2) % 3) >= count);
                    return None;
                }
                indices.push(a as u32);
                indices.push(b as u32);
                indices.push(c as u32);
            },
            _ => {
            },
        }
        k += 1;
    }
    Some(indices)
}

/// The face that an object gives: its vertices, each normal repeated for the
/// `VERTICES_PER_NORMAL` vertices that share it, its texture coordinates and
/// the corners of its triangles.
///
/// Fails with `UnsupportedPrimitive` if the object holds a point or a line;
/// else with `InvalidGeometry` if the numbers of vertices, repeated normals
/// and texture coordinates differ, if a corner names no vertex, or if there
/// are more than `MAX_VERTICES` vertices.
pub fn face_from_object(object: &Object) -> (r: Result<MeshBuilder, MeshError>)
    ensures
        match r {
            Ok(face) => face_of(object@) == Ok::<MeshData, MeshError>(face@) && face@.at_origin() && face@.valid(),
            Err(e) => face_of(object@) == Err::<MeshData, MeshError>(e),
        },
{
    if !holds_triangles_only(object) {
        return Err(MeshError::UnsupportedPrimitive);
    }
    let ghost wanted = face_mesh(object@);
    let count = object.vertices.len();
    if count > MAX_VERTICES || object.tex_vertices.len() != count || count % VERTICES_PER_NORMAL != 0
        || object.normals.len() != count / VERTICES_PER_NORMAL {
        return Err(MeshError::InvalidGeometry);
    }
    let indices = match triangle_corners(object, count) {
        Some(indices) => indices,
        None => {
            proof {
                let j = choose|j: int|
                    0 <= j < 3 * object@.primitives.len() && corner_of(#[trigger] object@.primitives[j / 3], j % 3)
                        >= count;
                assert(wanted.indices[j] >= wanted.positions.len());
            }
            return Err(MeshError::InvalidGeometry);
        },
    };
    let mut positions: Vec<Position> = Vec::new();
    let mut normals: Vec<Vector3> = Vec::new();
    let mut k: usize = 0;
    while k < count
        invariant
            k <= count,
            count == object.vertices@.len(),
            count == VERTICES_PER_NORMAL * object.normals@.len(),
            positions@.len() == k,
            normals@.len() == k,
            forall|j: int|
                0 <= j < k ==> #[trigger] positions@[j] == (Position {
                    cell: Cell::origin(),
                    local: object.vertices@[j],
                }),
            forall|j: int| 0 <= j < k ==> #[trigger] normals@[j] == object.normals@[j / (VERTICES_PER_NORMAL as int)],
        decreases count - k,
    {
        positions.push(Position::local(object.vertices[k]));
        normals.push(object.normals[k / VERTICES_PER_NORMAL]);
        k += 1;
    }
    let mut uvs: Vec<Vector2> = Vec::new();
    let mut k: usize = 0;
    while k < count
        invariant
            k <= count,
            count == object.tex_vertices@.len(),
            uvs@ == object.tex_vertices@.take(k as int),
        decreases count - k,
    {
        uvs.push(object.tex_vertices[k]);
        k += 1;
    }
    proof {
        assert(MeshData::fragment(positions@, normals@, uvs@, indices@) =~= wanted);
    }
    MeshBuilder::from_parts(positions, normals, uvs, indices)
}

impl RawMesh {
    /// The block model that `objects` give: for each direction, in order, the
    /// face of the first object called by the direction's name.
    ///
    /// Fails with the error of the first direction that gives no face:
    /// `MissingFaceObject` if no object has its name, else what
    /// `face_from_object` says of the object.
    pub fn from_objects(objects: &[Object]) -> (r: Result<RawMesh, MeshError>)
        ensures
            match r {
                Ok(model) => template_result(object_views(objects@), FACE_COUNT as nat) == Ok::<
                    Seq<MeshData>,
                    MeshError,
                >(model@) && is_template(model@),
                Err(e) => template_result(object_views(objects@), FACE_COUNT as nat) == Err::<
                    Seq<MeshData>,
                    MeshError,
                >(e),
            },
    {
        let ghost views = object_views(objects@);
        let mut faces: Vec<MeshBuilder> = Vec::new();
        let mut f: usize = 0;
        proof {
            assert(Seq::new(0, |g: int| faces@[g]@) =~= Seq::<MeshData>::empty());
        }
        while f < FACE_COUNT
            invariant
                f <= FACE_COUNT,
                views == object_views(objects@),
                faces@.len() == f,
                template_result(views, f as nat) == Ok::<Seq<MeshData>, MeshError>(
                    Seq::new(f as nat, |g: int| faces@[g]@),
                ),
                forall|g: int| 0 <= g < f ==> (#[trigger] faces@[g])@.at_origin(),
            decreases FACE_COUNT - f,
        {
            let direction = Direction::from_index(f).unwrap();
            let name = direction.name();
            let ghost before = Seq::new(f as nat, |g: int| faces@[g]@);
            let face = match find_object(objects, &name) {
                None => {
                    proof {
                        lemma_template_fails(views, (f + 1) as nat, FACE_COUNT as nat);
                    }
                    return Err(MeshError::MissingFaceObject);
                },
                Some(object) => match face_from_object(object) {
                    Err(e) => {
                        proof {
                            lemma_template_fails(views, (f + 1) as nat, FACE_COUNT as nat);
                        }
                        return Err(e);
                    },
                    Ok(face) => face,
                },
            };
            faces.push(face);
            proof {
                assert(Seq::new((f + 1) as nat, |g: int| faces@[g]@) =~= before.push(face@));
            }
            f += 1;
        }
        RawMesh::from_faces(faces)
    }

    /// Reads a block model from its text: the six faces are the objects
    /// called `up`, `down`, `left`, `right`, `forwards` and `backwards`.
    ///
    /// Fails with `ParseError` if the text cannot be read, or holds a
    /// negative number of more than `MAX_NEGATIVE_DIGITS` digits; else with
    /// what `from_objects` says of the objects read. No part of a model is
    /// handed out on failure.
    pub fn load(text: &str) -> (r: Result<RawMesh, MeshError>)
        ensures
            match r {
                Ok(model) => load_result(text) == Ok::<Seq<MeshData>, MeshError>(model@) && is_template(model@),
                Err(e) => load_result(text) == Err::<Seq<MeshData>, MeshError>(e),
            },
    {
        match parse_objects(text) {
            Err(e) => Err(e),
            Ok(objects) => RawMesh::from_objects(objects.as_slice()),
        }
    }
}

/// Once a face fails, the model fails with the same error, however many
/// faces are asked for.
pub proof fn lemma_template_fails(objects: Seq<ObjectData>, fewer: nat, more: nat)
    requires
        fewer <= more,
        template_result(objects, fewer) is Err,
    ensures
        template_result(objects, more) == template_result(objects, fewer),
    decreases more,
{
    if fewer < more {
        lemma_template_fails(objects, fewer, (more - 1) as nat);
    }
}

} // verus!
