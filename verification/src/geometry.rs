//! Integer cell coordinates and the four 90-degree rotation matrices that a
//! falling piece can carry.

use vstd::prelude::*;

verus! {

/// A pair of integer cell coordinates; `y` grows downward.
#[derive(Clone, Copy, PartialEq, Eq, Structural, Debug)]
pub struct IVec2 {
    pub x: i32,
    pub y: i32,
}

/// A 2x2 integer matrix in row-major form, `[[a, b], [c, d]]`.
#[derive(Clone, Copy, PartialEq, Eq, Structural, Debug)]
pub struct Mat2 {
    pub a: i32,
    pub b: i32,
    pub c: i32,
    pub d: i32,
}

/// The identity matrix: a freshly spawned piece is unrotated.
pub open spec fn mat_identity() -> Mat2 {
    Mat2 { a: 1, b: 0, c: 0, d: 1 }
}

/// The four 90-degree-multiple rotation matrices; a piece's rotation state
/// never leaves this set.
pub open spec fn is_rotation(m: Mat2) -> bool {
    ||| m == mat_identity()
    ||| m == (Mat2 { a: 0, b: 1i32, c: -1i32, d: 0i32 })
    ||| m == (Mat2 { a: -1i32, b: 0i32, c: 0i32, d: -1i32 })
    ||| m == (Mat2 { a: 0i32, b: -1i32, c: 1i32, d: 0i32 })
}

/// One 90-degree rotation step: the new top row is the old bottom row and
/// the new bottom row is the old top row negated.
pub open spec fn rot90_spec(m: Mat2) -> Mat2 {
    Mat2 { a: m.c, b: m.d, c: (-(m.a as int)) as i32, d: (-(m.b as int)) as i32 }
}

/// The matrix-vector product `m * (x, y)`, over unbounded integers.
pub open spec fn mat_apply_spec(m: Mat2, x: int, y: int) -> (int, int) {
    (m.a * x + m.b * y, m.c * x + m.d * y)
}

/// Law: the 90-degree step applied four times returns any rotation matrix to
/// itself, so repeated rotation cycles through exactly four orientations.
pub proof fn lemma_rotate_four_times_identity(m: Mat2)
    requires
        is_rotation(m),
    ensures
        rot90_spec(rot90_spec(rot90_spec(rot90_spec(m)))) == m,
{
}

impl Mat2 {
    /// The executable 90-degree rotation step.
    pub fn rotated90(self) -> (r: Mat2)
        requires
            is_rotation(self),
        ensures
            r == rot90_spec(self),
            is_rotation(r),
    {
        Mat2 { a: self.c, b: self.d, c: -self.a, d: -self.b }
    }

    /// Applies the rotation to a small offset vector; entries of a rotation
    /// matrix are in `{-1, 0, 1}`, so the result keeps the offset's bounds.
    pub fn apply(self, v: IVec2) -> (r: IVec2)
        requires
            is_rotation(self),
            -2 <= v.x <= 2,
            -2 <= v.y <= 2,
        ensures
            (r.x as int, r.y as int) == mat_apply_spec(self, v.x as int, v.y as int),
            -2 <= r.x <= 2,
            -2 <= r.y <= 2,
    {
        proof {
            assert(-2 <= self.a * v.x + self.b * v.y <= 2) by (nonlinear_arith)
                requires
                    (self.a == 1 && self.b == 0) || (self.a == 0 && self.b == 1)
                        || (self.a == -1 && self.b == 0) || (self.a == 0 && self.b == -1),
                    -2 <= v.x <= 2,
                    -2 <= v.y <= 2;
            assert(-2 <= self.c * v.x + self.d * v.y <= 2) by (nonlinear_arith)
                requires
                    (self.c == 1 && self.d == 0) || (self.c == 0 && self.d == 1)
                        || (self.c == -1 && self.d == 0) || (self.c == 0 && self.d == -1),
                    -2 <= v.x <= 2,
                    -2 <= v.y <= 2;
        }
        IVec2 { x: self.a * v.x + self.b * v.y, y: self.c * v.x + self.d * v.y }
    }
}

} // verus!
