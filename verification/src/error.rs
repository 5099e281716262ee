use vstd::prelude::*;

verus! {

/// Everything that can go wrong in this crate.
#[derive(Clone, Copy, Debug, PartialEq, Eq, Structural)]
pub enum MeshError {
    /// A mesh fragment is inconsistent: its attribute counts disagree, one of
    /// its indices points outside of it, or it would grow a buffer beyond what
    /// 32-bit indices can address.
    InvalidGeometry,
    /// A block model lacks the object of one of the six faces.
    MissingFaceObject,
    /// A face of a block model holds a point or a line.
    UnsupportedPrimitive,
    /// The text of a block model is malformed.
    ParseError,
    /// A solid voxel names a template that was never registered.
    UnknownTemplate,
    /// A grid coordinate lies outside of the chunk.
    OutOfBounds,
}

impl MeshError {
    /// A short description, for messages.
    pub fn describe(self) -> (text: String)
        ensures
            text@ == self.description(),
    {
        match self {
            MeshError::InvalidGeometry => "inconsistent mesh fragment".to_owned(),
            MeshError::MissingFaceObject => "block model lacks a face object".to_owned(),
            MeshError::UnsupportedPrimitive => "face holds a primitive that is no triangle".to_owned(),
            MeshError::ParseError => "malformed block model".to_owned(),
            MeshError::UnknownTemplate => "voxel names an unregistered template".to_owned(),
            MeshError::OutOfBounds => "coordinate outside of the chunk".to_owned(),
        }
    }

    /// What `describe` says of each error.
    pub open spec fn description(self) -> Seq<char> {
        match self {
            MeshError::InvalidGeometry => "inconsistent mesh fragment"@,
            MeshError::MissingFaceObject => "block model lacks a face object"@,
            MeshError::UnsupportedPrimitive => "face holds a primitive that is no triangle"@,
            MeshError::ParseError => "malformed block model"@,
            MeshError::UnknownTemplate => "voxel names an unregistered template"@,
            MeshError::OutOfBounds => "coordinate outside of the chunk"@,
        }
    }
}

} // verus!
