use vstd::prelude::*;

verus! {

/// A real number, carried as the bit pattern of an IEEE-754 double.
///
/// The crate stores and copies scalars and never computes with them, so a
/// mesh keeps exactly the values its source held.
pub type Scalar = u64;

/// Three scalars: an offset inside a cell, or a normal.
#[derive(Clone, Copy, Debug, PartialEq, Eq, Structural)]
pub struct Vector3 {
    pub x: Scalar,
    pub y: Scalar,
    pub z: Scalar,
}

/// A texture coordinate.
#[derive(Clone, Copy, Debug, PartialEq, Eq, Structural)]
pub struct Vector2 {
    pub u: Scalar,
    pub v: Scalar,
}

/// A whole number of cells along each axis.
#[derive(Clone, Copy, Debug, PartialEq, Eq, Structural)]
pub struct Cell {
    pub x: i32,
    pub y: i32,
    pub z: i32,
}

/// A point in space: the cell it is anchored at, plus an offset inside it.
///
/// Moving a point by whole cells changes `cell` alone, which is exact; the
/// point itself is the sum of the two.
#[derive(Clone, Copy, Debug, PartialEq, Eq, Structural)]
pub struct Position {
    pub cell: Cell,
    pub local: Vector3,
}

impl Vector3 {
    pub fn new(x: Scalar, y: Scalar, z: Scalar) -> (r: Vector3)
        ensures
            r == (Vector3 { x, y, z }),
    {
        Vector3 { x, y, z }
    }
}

impl Vector2 {
    pub fn new(u: Scalar, v: Scalar) -> (r: Vector2)
        ensures
            r == (Vector2 { u, v }),
    {
        Vector2 { u, v }
    }
}

impl Cell {
    /// The cell that block models are drawn in.
    pub open spec fn origin() -> Cell {
        Cell { x: 0, y: 0, z: 0 }
    }

    pub fn new(x: i32, y: i32, z: i32) -> (r: Cell)
        ensures
            r == (Cell { x, y, z }),
    {
        Cell { x, y, z }
    }

    /// Whether moving `self` by `by` stays within the range of a coordinate.
    pub open spec fn can_shift(self, by: Cell) -> bool {
        &&& i32::MIN <= self.x + by.x <= i32::MAX
        &&& i32::MIN <= self.y + by.y <= i32::MAX
        &&& i32::MIN <= self.z + by.z <= i32::MAX
    }

    /// `self` moved by `by`, axis by axis.
    pub open spec fn shifted(self, by: Cell) -> Cell {
        Cell { x: (self.x + by.x) as i32, y: (self.y + by.y) as i32, z: (self.z + by.z) as i32 }
    }

    pub fn is_origin(self) -> (r: bool)
        ensures
            r == (self == Cell::origin()),
    {
        self.x == 0 && self.y == 0 && self.z == 0
    }
}

impl Position {
    /// A point of a block model: anchored at the origin cell.
    pub fn local(local: Vector3) -> (r: Position)
        ensures
            r == (Position { cell: Cell::origin(), local }),
    {
        Position { cell: Cell { x: 0, y: 0, z: 0 }, local }
    }

    /// The point moved by `by` whole cells: the offset inside the cell stays.
    pub open spec fn translated(self, by: Cell) -> Position {
        Position { cell: self.cell.shifted(by), local: self.local }
    }

    /// The point moved by `by` whole cells.
    pub fn translate(self, by: Cell) -> (r: Position)
        requires
            self.cell.can_shift(by),
        ensures
            r == self.translated(by),
            r.cell.x == self.cell.x + by.x,
            r.cell.y == self.cell.y + by.y,
            r.cell.z == self.cell.z + by.z,
    {
        Position {
            cell: Cell { x: self.cell.x + by.x, y: self.cell.y + by.y, z: self.cell.z + by.z },
            local: self.local,
        }
    }
}

} // verus!
