//! Chunk meshing for a voxel world.
//!
//! A chunk is a cube of voxels. Every solid voxel is drawn with the six faces
//! of a block template, placed at the voxel's cell, and all of them are merged
//! into one indexed triangle mesh. The crate holds the buffers, the templates
//! and their loader, the voxel grid and the mesher, each with a contract over
//! a mathematical view of its data.

pub mod block;
pub mod blocks;
pub mod error;
pub mod laws;
pub mod loader;
pub mod mesh_builder;
pub mod obj;
pub mod vertex;

pub use block::{mesh_into, Direction, Global, Globals, Local, RawMesh, FACE_COUNT};
pub use blocks::{Blocks, GridData, MeshUpdate, CHUNK_SIZE, CHUNK_VOLUME};
pub use error::MeshError;
pub use loader::{face_from_object, holds_long_negative, parse_objects};
pub use mesh_builder::{MeshBuilder, MeshData, RenderMesh, MAX_VERTICES};
pub use obj::{Object, Primitive};
pub use vertex::{Cell, Position, Scalar, Vector2, Vector3};
