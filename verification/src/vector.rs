//! Three-component vectors: the mathematical model and the two machine
//! representations the game uses, one for speed and one for place.

use vstd::prelude::*;

verus! {

/// A vector of three unbounded integers. Velocities and positions are viewed
/// as values of this type.
pub struct Vector {
    pub x: int,
    pub y: int,
    pub z: int,
}

impl Vector {
    /// The vector whose components are all zero.
    pub open spec fn zero() -> Vector {
        Vector { x: 0, y: 0, z: 0 }
    }

    /// Component-wise sum.
    pub open spec fn plus(self, other: Vector) -> Vector {
        Vector { x: self.x + other.x, y: self.y + other.y, z: self.z + other.z }
    }

    /// Every component fits in an `i64`.
    pub open spec fn fits_i64(self) -> bool {
        &&& i64::MIN <= self.x <= i64::MAX
        &&& i64::MIN <= self.y <= i64::MAX
        &&& i64::MIN <= self.z <= i64::MAX
    }
}

/// How far an entity intends to move in one frame, in world units.
#[derive(Clone, Copy, Debug, PartialEq, Eq)]
pub struct Velocity {
    pub x: i32,
    pub y: i32,
    pub z: i32,
}

impl View for Velocity {
    type V = Vector;

    open spec fn view(&self) -> Vector {
        Vector { x: self.x as int, y: self.y as int, z: self.z as int }
    }
}

impl Velocity {
    /// A velocity with the given components.
    pub fn new(x: i32, y: i32, z: i32) -> (v: Velocity)
        ensures
            v@ == (Vector { x: x as int, y: y as int, z: z as int }),
    {
        Velocity { x, y, z }
    }

    /// The velocity of an entity that stands still.
    pub fn zero() -> (v: Velocity)
        ensures
            v@ == Vector::zero(),
    {
        Velocity { x: 0, y: 0, z: 0 }
    }

    /// Whether the entity stands still.
    pub fn is_zero(&self) -> (still: bool)
        ensures
            still == (self@ == Vector::zero()),
    {
        self.x == 0 && self.y == 0 && self.z == 0
    }
}

impl Default for Velocity {
    fn default() -> (v: Velocity)
        ensures
            v@ == Vector::zero(),
    {
        Velocity::zero()
    }
}

/// Where an entity stands, in world units.
#[derive(Clone, Copy, Debug, PartialEq, Eq)]
pub struct Position {
    pub x: i64,
    pub y: i64,
    pub z: i64,
}

impl View for Position {
    type V = Vector;

    open spec fn view(&self) -> Vector {
        Vector { x: self.x as int, y: self.y as int, z: self.z as int }
    }
}

impl Position {
    /// A position with the given coordinates.
    pub fn new(x: i64, y: i64, z: i64) -> (p: Position)
        ensures
            p@ == (Vector { x: x as int, y: y as int, z: z as int }),
    {
        Position { x, y, z }
    }

    /// Whether the place reached by moving `step` from here can be represented.
    pub fn reaches(&self, step: Velocity) -> (ok: bool)
        ensures
            ok == self@.plus(step@).fits_i64(),
    {
        self.x.checked_add(step.x as i64).is_some()
            && self.y.checked_add(step.y as i64).is_some()
            && self.z.checked_add(step.z as i64).is_some()
    }

    /// The place reached by moving `step` from here.
    pub fn moved(self, step: Velocity) -> (p: Position)
        requires
            self@.plus(step@).fits_i64(),
        ensures
            p@ == self@.plus(step@),
    {
        Position {
            x: self.x + step.x as i64,
            y: self.y + step.y as i64,
            z: self.z + step.z as i64,
        }
    }
}

} // verus!
