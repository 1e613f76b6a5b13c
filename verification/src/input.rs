//! The four directional keys and what holding them asks for.

use crate::vector::{Vector, Velocity};
use crate::world::InWorld;
use vstd::prelude::*;

verus! {

/// Distance covered per frame along an axis whose key is held.
pub const SPEED: i32 = 5;

/// One of the four directional keys.
#[derive(Clone, Copy, Debug, PartialEq, Eq, Structural)]
pub enum Key {
    /// Towards negative x, and towards the main world.
    Left,
    /// Towards positive x, and towards the second world.
    Right,
    /// Towards positive y.
    Up,
    /// Towards negative y.
    Down,
}

impl Key {
    /// The displacement that this key contributes while it is held.
    pub open spec fn offset(self) -> Vector {
        match self {
            Key::Left => Vector { x: -SPEED, y: 0, z: 0 },
            Key::Right => Vector { x: SPEED as int, y: 0, z: 0 },
            Key::Up => Vector { x: 0, y: SPEED as int, z: 0 },
            Key::Down => Vector { x: 0, y: -SPEED, z: 0 },
        }
    }
}

/// Which of the four directional keys are held during a frame.
#[derive(Clone, Copy, Debug, PartialEq, Eq)]
pub struct Keys {
    /// The left arrow is held.
    pub left: bool,
    /// The right arrow is held.
    pub right: bool,
    /// The up arrow is held.
    pub up: bool,
    /// The down arrow is held.
    pub down: bool,
}

impl Keys {
    /// Whether `key` is held.
    pub open spec fn holds(self, key: Key) -> bool {
        match key {
            Key::Left => self.left,
            Key::Right => self.right,
            Key::Up => self.up,
            Key::Down => self.down,
        }
    }

    /// What `key` contributes to the frame's velocity: its offset while held,
    /// nothing otherwise.
    pub open spec fn push(self, key: Key) -> Vector {
        if self.holds(key) {
            key.offset()
        } else {
            Vector::zero()
        }
    }

    /// The vector sum of the offsets of all held keys. Opposite keys cancel
    /// and diagonals are not normalised.
    pub open spec fn offset_sum(self) -> Vector {
        self.push(Key::Left).plus(self.push(Key::Right)).plus(self.push(Key::Up)).plus(
            self.push(Key::Down),
        )
    }

    /// Whether at least one key is held.
    pub open spec fn any(self) -> bool {
        self.left || self.right || self.up || self.down
    }

    /// The world that the held keys ask for: the second world when right is
    /// held, the main world when left is held without right, and no request
    /// otherwise.
    pub open spec fn request(self) -> Option<InWorld> {
        if self.right {
            Some(InWorld::W2)
        } else if self.left {
            Some(InWorld::W1Main)
        } else {
            None
        }
    }

    /// The keys of a frame in which none is held.
    pub open spec fn idle() -> Keys {
        Keys { left: false, right: false, up: false, down: false }
    }

    /// No key held: the keys of an idle frame.
    pub fn none() -> (keys: Keys)
        ensures
            keys == Keys::idle(),
    {
        Keys { left: false, right: false, up: false, down: false }
    }

    /// Whether at least one key is held.
    pub fn any_held(&self) -> (held: bool)
        ensures
            held == self.any(),
    {
        self.left || self.right || self.up || self.down
    }

    /// The velocity that the held keys ask for.
    pub fn velocity(&self) -> (v: Velocity)
        ensures
            v@ == self.offset_sum(),
    {
        let mut v = Velocity::zero();
        if self.left {
            v.x = v.x - SPEED;
        }
        if self.right {
            v.x = v.x + SPEED;
        }
        if self.up {
            v.y = v.y + SPEED;
        }
        if self.down {
            v.y = v.y - SPEED;
        }
        v
    }

    /// The world that the held keys ask for, if any.
    pub fn requested_world(&self) -> (world: Option<InWorld>)
        ensures
            world == self.request(),
    {
        if self.right {
            Some(InWorld::W2)
        } else if self.left {
            Some(InWorld::W1Main)
        } else {
            None
        }
    }
}

} // verus!
