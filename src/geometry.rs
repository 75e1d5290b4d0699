use vstd::prelude::*;

verus! {

/// A cell of the field.
#[derive(Debug, Clone, Copy, PartialEq, Eq, Structural)]
pub struct Position {
    pub x: u32,
    pub y: u32,
}

/// Absolute difference of two integers.
pub open spec fn abs_diff(a: int, b: int) -> nat {
    if a >= b {
        (a - b) as nat
    } else {
        (b - a) as nat
    }
}

/// Manhattan distance between two cells.
pub open spec fn manhattan(a: Position, b: Position) -> nat {
    abs_diff(a.x as int, b.x as int) + abs_diff(a.y as int, b.y as int)
}

fn u32_abs_diff(a: u32, b: u32) -> (r: u32)
    ensures
        r == abs_diff(a as int, b as int),
{
    if a >= b {
        a - b
    } else {
        b - a
    }
}

impl Position {
    /// Manhattan distance to `other`. The sum is widened so that it never
    /// overflows.
    pub fn distance(&self, other: &Self) -> (r: u64)
        ensures
            r == manhattan(*self, *other),
    {
        u32_abs_diff(self.x, other.x) as u64 + u32_abs_diff(self.y, other.y) as u64
    }
}

/// Distance is symmetric, and it is zero exactly between equal cells.
pub proof fn lemma_distance_symmetric(a: Position, b: Position)
    ensures
        manhattan(a, b) == manhattan(b, a),
        (manhattan(a, b) == 0) == (a == b),
{
}

} // verus!
