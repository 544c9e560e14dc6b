//! The static shape table: seven tetromino types, each given by three cell
//! offsets relative to an implicit pivot at `(0, 0)`; the pivot itself is
//! always the fourth cell of the piece.

use vstd::prelude::*;
use crate::geometry::IVec2;

verus! {

/// Number of tetromino types in the shape table.
pub const NUM_TETROMINOES: usize = 7;

/// Index of the square piece, whose rotation is a visual no-op.
pub const O_TETROMINO: usize = 3;

/// Offset `i` (of three) of tetromino type `t`, relative to the pivot.
pub open spec fn tetromino_offset_spec(t: int, i: int) -> IVec2 {
    if t == 0 {
        // I
        if i == 0 { IVec2 { x: -1i32, y: 0 } } else if i == 1 { IVec2 { x: 1, y: 0 } }
        else { IVec2 { x: 2, y: 0 } }
    } else if t == 1 {
        // J
        if i == 0 { IVec2 { x: -1i32, y: -1i32 } } else if i == 1 { IVec2 { x: -1i32, y: 0 } }
        else { IVec2 { x: 1, y: 0 } }
    } else if t == 2 {
        // L
        if i == 0 { IVec2 { x: -1i32, y: 0 } } else if i == 1 { IVec2 { x: 1, y: 0 } }
        else { IVec2 { x: 1, y: -1i32 } }
    } else if t == 3 {
        // O
        if i == 0 { IVec2 { x: 1, y: 0 } } else if i == 1 { IVec2 { x: 0, y: 1 } }
        else { IVec2 { x: 1, y: 1 } }
    } else if t == 4 {
        // S
        if i == 0 { IVec2 { x: -1i32, y: 1 } } else if i == 1 { IVec2 { x: 0, y: 1 } }
        else { IVec2 { x: 1, y: 0 } }
    } else if t == 5 {
        // T
        if i == 0 { IVec2 { x: -1i32, y: 0 } } else if i == 1 { IVec2 { x: 0, y: 1 } }
        else { IVec2 { x: 1, y: 0 } }
    } else {
        // Z
        if i == 0 { IVec2 { x: -1i32, y: 0 } } else if i == 1 { IVec2 { x: 0, y: 1 } }
        else { IVec2 { x: 1, y: 1 } }
    }
}

/// Looks up offset `i` of tetromino type `t` in the shape table.
pub fn tetromino_offset(t: usize, i: usize) -> (r: IVec2)
    requires
        t < 7,
        i < 3,
    ensures
        r == tetromino_offset_spec(t as int, i as int),
        -2 <= r.x <= 2,
        -2 <= r.y <= 2,
{
    if t == 0 {
        if i == 0 { IVec2 { x: -1i32, y: 0 } } else if i == 1 { IVec2 { x: 1, y: 0 } }
        else { IVec2 { x: 2, y: 0 } }
    } else if t == 1 {
        if i == 0 { IVec2 { x: -1i32, y: -1i32 } } else if i == 1 { IVec2 { x: -1i32, y: 0 } }
        else { IVec2 { x: 1, y: 0 } }
    } else if t == 2 {
        if i == 0 { IVec2 { x: -1i32, y: 0 } } else if i == 1 { IVec2 { x: 1, y: 0 } }
        else { IVec2 { x: 1, y: -1i32 } }
    } else if t == 3 {
        if i == 0 { IVec2 { x: 1, y: 0 } } else if i == 1 { IVec2 { x: 0, y: 1 } }
        else { IVec2 { x: 1, y: 1 } }
    } else if t == 4 {
        if i == 0 { IVec2 { x: -1i32, y: 1 } } else if i == 1 { IVec2 { x: 0, y: 1 } }
        else { IVec2 { x: 1, y: 0 } }
    } else if t == 5 {
        if i == 0 { IVec2 { x: -1i32, y: 0 } } else if i == 1 { IVec2 { x: 0, y: 1 } }
        else { IVec2 { x: 1, y: 0 } }
    } else {
        if i == 0 { IVec2 { x: -1i32, y: 0 } } else if i == 1 { IVec2 { x: 0, y: 1 } }
        else { IVec2 { x: 1, y: 1 } }
    }
}

} // verus!
