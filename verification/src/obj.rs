//! The boundary to the `wavefront_obj` crate, which reads the text of a model.
//!
//! Nothing in this file is proved. Each function hands one field of a parsed
//! model over as plain values; the rest of the crate works on those.

use vstd::prelude::*;
use vstd::string::StringSliceAdditionalSpecFns;

use crate::vertex::{Vector2, Vector3};

verus! {

/// `wavefront_obj::obj::ObjSet`: a model as the parser hands it out. It is
/// carried from the parser to the functions below, and read by them alone.
#[verifier::external_type_specification]
#[verifier::external_body]
pub struct ExObjSet(wavefront_obj::obj::ObjSet);

/// `wavefront_obj::ParseError`: why the parser gave up. Nothing of it is read.
#[verifier::external_type_specification]
#[verifier::external_body]
pub struct ExParseError(wavefront_obj::ParseError);

/// One entry of the face list of an object: the vertices that it joins, each
/// by its place among the vertices of the object.
#[derive(Clone, Copy, Debug, PartialEq, Eq, Structural)]
pub enum Primitive {
    Point(usize),
    Line(usize, usize),
    Triangle(usize, usize, usize),
}

/// An object of a model.
#[derive(Debug, PartialEq, Eq)]
pub struct Object {
    pub name: String,
    pub vertices: Vec<Vector3>,
    pub normals: Vec<Vector3>,
    pub tex_vertices: Vec<Vector2>,
    pub primitives: Vec<Primitive>,
}

/// What an object of a model is.
pub struct ObjectData {
    pub name: Seq<char>,
    pub vertices: Seq<Vector3>,
    pub normals: Seq<Vector3>,
    pub tex_vertices: Seq<Vector2>,
    pub primitives: Seq<Primitive>,
}

impl View for Object {
    type V = ObjectData;

    open spec fn view(&self) -> ObjectData {
        ObjectData {
            name: self.name@,
            vertices: self.vertices@,
            normals: self.normals@,
            tex_vertices: self.tex_vertices@,
            primitives: self.primitives@,
        }
    }
}

/// The most digits that a negative whole number in a model may have.
pub const MAX_NEGATIVE_DIGITS: usize = 9;

/// Whether `byte` is one of the characters `0` to `9`.
pub open spec fn is_digit(byte: u8) -> bool {
    0x30 <= byte <= 0x39
}

/// Whether a minus sign stands at place `at` of `bytes`, with nothing but
/// decimal digits from there up to `end`.
pub open spec fn minus_then_digits(bytes: Seq<u8>, at: int, end: int) -> bool {
    &&& 0 <= at < end
    &&& bytes[at] == 0x2D
    &&& forall|k: int| at < k < end ==> is_digit(#[trigger] bytes[k])
}

/// Whether a minus sign stands at place `at` of `bytes` with more than
/// `MAX_NEGATIVE_DIGITS` decimal digits directly behind it.
pub open spec fn long_negative_at(bytes: Seq<u8>, at: int) -> bool {
    &&& at + MAX_NEGATIVE_DIGITS + 1 < bytes.len()
    &&& minus_then_digits(bytes, at, at + MAX_NEGATIVE_DIGITS + 2)
}

/// Whether `bytes` holds a minus sign with more than `MAX_NEGATIVE_DIGITS`
/// decimal digits directly behind it.
pub open spec fn has_long_negative(bytes: Seq<u8>) -> bool {
    exists|at: int| long_negative_at(bytes, at)
}

/// The objects that `wavefront_obj::obj::parse` reads from `text`, in the
/// order of the text, or nothing where it reports an error. The scalars are
/// the bit patterns of the numbers it read; the primitives of an object are
/// those of all its geometries, in order, each with the vertex index of each
/// of its corners.
pub uninterp spec fn parsed_objects(text: Seq<char>) -> Option<Seq<ObjectData>>;

/// The objects that a parsed model holds, as `parsed_objects` gives them.
pub uninterp spec fn objects_of(set: wavefront_obj::obj::ObjSet) -> Seq<ObjectData>;

/// Calls `wavefront_obj::obj::parse`, which reads a model from its text. What
/// it reads depends on the text alone: the contract gives that a name and
/// claims nothing more of it.
///
/// Of a negative index the parser computes the distance to the end of the
/// vertices read so far in the machine's signed word. Nothing else in it can
/// fail but by returning an error. A negative number of at most
/// `MAX_NEGATIVE_DIGITS` digits keeps that sum within 32 bits, for a text has
/// far fewer vertices than bytes; so such texts are the ones that the
/// contract admits.
#[verifier::external_body]
pub(crate) fn parse(text: &str) -> (r: Result<wavefront_obj::obj::ObjSet, wavefront_obj::ParseError>)
    requires
        !has_long_negative(text.spec_bytes()),
    ensures
        match r {
            Ok(set) => parsed_objects(text@) == Some(objects_of(set)),
            Err(_) => parsed_objects(text@) is None,
        },
{
    wavefront_obj::obj::parse(text)
}

/// The length of the field `objects` of a parsed model.
#[verifier::external_body]
pub(crate) fn object_count(set: &wavefront_obj::obj::ObjSet) -> (count: usize)
    ensures
        count == objects_of(*set).len(),
{
    set.objects.len()
}

/// A copy of the field `name` of object `at`.
#[verifier::external_body]
pub(crate) fn object_name(set: &wavefront_obj::obj::ObjSet, at: usize) -> (name: String)
    requires
        at < objects_of(*set).len(),
    ensures
        name@ == objects_of(*set)[at as int].name,
{
    set.objects[at].name.clone()
}

/// The field `vertices` of object `at`: each `Vertex` as the bit patterns of
/// its `x`, `y` and `z`.
#[verifier::external_body]
pub(crate) fn object_vertices(set: &wavefront_obj::obj::ObjSet, at: usize) -> (vertices: Vec<Vector3>)
    requires
        at < objects_of(*set).len(),
    ensures
        vertices@ == objects_of(*set)[at as int].vertices,
{
    set.objects[at].vertices.iter().map(|v| Vector3 { x: v.x.to_bits(), y: v.y.to_bits(), z: v.z.to_bits() }).collect()
}

/// The field `normals` of object `at`: each `Normal` as the bit patterns of
/// its `x`, `y` and `z`.
#[verifier::external_body]
pub(crate) fn object_normals(set: &wavefront_obj::obj::ObjSet, at: usize) -> (normals: Vec<Vector3>)
    requires
        at < objects_of(*set).len(),
    ensures
        normals@ == objects_of(*set)[at as int].normals,
{
    set.objects[at].normals.iter().map(|n| Vector3 { x: n.x.to_bits(), y: n.y.to_bits(), z: n.z.to_bits() }).collect()
}

/// The field `tex_vertices` of object `at`: each `TVertex` as the bit
/// patterns of its `u` and `v`.
#[verifier::external_body]
pub(crate) fn object_tex_vertices(set: &wavefront_obj::obj::ObjSet, at: usize) -> (tex_vertices: Vec<Vector2>)
    requires
        at < objects_of(*set).len(),
    ensures
        tex_vertices@ == objects_of(*set)[at as int].tex_vertices,
{
    set.objects[at].tex_vertices.iter().map(|t| Vector2 { u: t.u.to_bits(), v: t.v.to_bits() }).collect()
}

/// The field `primitive` of every shape of every geometry of object `at`, in
/// order: each variant as the variant of the same name, with the vertex index
/// of each corner.
#[verifier::external_body]
pub(crate) fn object_primitives(set: &wavefront_obj::obj::ObjSet, at: usize) -> (primitives: Vec<Primitive>)
    requires
        at < objects_of(*set).len(),
    ensures
        primitives@ == objects_of(*set)[at as int].primitives,
{
    set.objects[at].geometry.iter().flat_map(|g| g.shapes.iter()).map(|s| match s.primitive {
        wavefront_obj::obj::Primitive::Point(a) => Primitive::Point(a.0),
        wavefront_obj::obj::Primitive::Line(a, b) => Primitive::Line(a.0, b.0),
        wavefront_obj::obj::Primitive::Triangle(a, b, c) => Primitive::Triangle(a.0, b.0, c.0),
    }).collect()
}

} // verus!
