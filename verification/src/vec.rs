//! Small fixed-point vector types. Components are plain `i64` values in the
//! crate's units (see the crate documentation).

use vstd::prelude::*;

verus! {

/// A two-component fixed-point vector.
#[derive(Debug, Clone, Copy, PartialEq, Eq, Structural)]
pub struct Vec2Fx {
    pub x: i64,
    pub y: i64,
}

/// A three-component fixed-point vector.
#[derive(Debug, Clone, Copy, PartialEq, Eq, Structural)]
pub struct Vec3Fx {
    pub x: i64,
    pub y: i64,
    pub z: i64,
}

impl Vec2Fx {
    pub fn new(x: i64, y: i64) -> (r: Vec2Fx)
        ensures
            r == (Vec2Fx { x, y }),
    {
        Vec2Fx { x, y }
    }

    /// The zero vector.
    pub fn zero() -> (r: Vec2Fx)
        ensures
            r == (Vec2Fx { x: 0, y: 0 }),
    {
        Vec2Fx { x: 0, y: 0 }
    }
}

impl Vec3Fx {
    pub fn new(x: i64, y: i64, z: i64) -> (r: Vec3Fx)
        ensures
            r == (Vec3Fx { x, y, z }),
    {
        Vec3Fx { x, y, z }
    }

    /// The zero vector.
    pub fn zero() -> (r: Vec3Fx)
        ensures
            r == (Vec3Fx { x: 0, y: 0, z: 0 }),
    {
        Vec3Fx { x: 0, y: 0, z: 0 }
    }

    /// Componentwise sum, defined on vectors whose components stay within
    /// the position range.
    pub fn add(self, other: Vec3Fx) -> (r: Vec3Fx)
        requires
            self.in_pos_range(),
            other.in_pos_range(),
        ensures
            r.x == self.x + other.x,
            r.y == self.y + other.y,
            r.z == self.z + other.z,
    {
        Vec3Fx { x: self.x + other.x, y: self.y + other.y, z: self.z + other.z }
    }

    /// Componentwise difference, defined on vectors whose components stay
    /// within the position range.
    pub fn sub(self, other: Vec3Fx) -> (r: Vec3Fx)
        requires
            self.in_pos_range(),
            other.in_pos_range(),
        ensures
            r.x == self.x - other.x,
            r.y == self.y - other.y,
            r.z == self.z - other.z,
    {
        Vec3Fx { x: self.x - other.x, y: self.y - other.y, z: self.z - other.z }
    }

    /// Every component fits comfortably below a thousand kilometres, so
    /// that sums and differences of positions never overflow.
    pub open spec fn in_pos_range(self) -> bool {
        -1_000_000_000 <= self.x <= 1_000_000_000
            && -1_000_000_000 <= self.y <= 1_000_000_000
            && -1_000_000_000 <= self.z <= 1_000_000_000
    }
}

} // verus!
