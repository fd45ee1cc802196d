//! Planar vectors in fixed-point world or car coordinates.

use vstd::prelude::*;

verus! {

/// A 2-vector of fixed-point values (six decimal places).
#[derive(Clone, Copy, PartialEq, Eq, Structural, Debug)]
pub struct Vec2 {
    pub x: i64,
    pub y: i64,
}

impl Vec2 {
    /// The zero vector.
    pub open spec fn zero_s() -> Vec2 {
        Vec2 { x: 0, y: 0 }
    }

    /// The zero vector.
    pub fn zero() -> (r: Vec2)
        ensures
            r == Vec2::zero_s(),
    {
        Vec2 { x: 0, y: 0 }
    }

    /// Both components lie in the symmetric representable range.
    pub open spec fn in_range(self) -> bool {
        -(crate::fixed::FP_SAT as int) <= self.x && -(crate::fixed::FP_SAT as int) <= self.y
    }
}

} // verus!
