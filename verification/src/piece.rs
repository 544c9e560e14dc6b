//! The currently falling tetromino: logical pivot cell, rotation state,
//! piece type and the precomputed landing row of the pivot.

use vstd::prelude::*;
use crate::geometry::{mat_apply_spec, rot90_spec, is_rotation, IVec2, Mat2};
use crate::tetromino::{tetromino_offset, tetromino_offset_spec};

verus! {

/// The falling piece. The pivot cell `pos` is always part of the piece;
/// the other three cells are the rotated shape-table offsets added to it.
/// `drop_pos` caches the row the pivot would rest on after a hard drop.
#[derive(Clone, Copy, PartialEq, Eq, Structural, Debug)]
pub struct DroppingPiece {
    pub pos: IVec2,
    pub drop_pos: i32,
    pub piece_type: usize,
    pub rotation_mat: Mat2,
}

/// Cell `i` of a piece with pivot `(px, py)`, type `t` and rotation `m`;
/// cell 0 is the pivot itself.
pub open spec fn piece_cell_spec(px: int, py: int, t: int, m: Mat2, i: int) -> (int, int) {
    if i == 0 {
        (px, py)
    } else {
        let off = tetromino_offset_spec(t, i - 1);
        let r = mat_apply_spec(m, off.x as int, off.y as int);
        (px + r.0, py + r.1)
    }
}

impl DroppingPiece {
    /// A piece is well formed when its type indexes the shape table and its
    /// rotation state is one of the four 90-degree matrices.
    pub open spec fn wf(&self) -> bool {
        &&& self.piece_type < 7
        &&& is_rotation(self.rotation_mat)
    }

    /// Spec view of cell `i` of this piece.
    pub open spec fn cell(&self, i: int) -> (int, int) {
        piece_cell_spec(
            self.pos.x as int,
            self.pos.y as int,
            self.piece_type as int,
            self.rotation_mat,
            i,
        )
    }

    /// The rotated shape-table offset `index` of this piece (relative to the
    /// pivot; cell `index + 1` of the piece).
    pub fn get_coord_at(&self, index: usize) -> (r: IVec2)
        requires
            self.wf(),
            index < 3,
        ensures
            (r.x as int, r.y as int) == mat_apply_spec(
                self.rotation_mat,
                tetromino_offset_spec(self.piece_type as int, index as int).x as int,
                tetromino_offset_spec(self.piece_type as int, index as int).y as int,
            ),
            -2 <= r.x <= 2,
            -2 <= r.y <= 2,
    {
        let off = tetromino_offset(self.piece_type, index);
        self.rotation_mat.apply(off)
    }

    /// Absolute coordinates of cell `index` of the piece.
    pub fn get_pos_at(&self, index: usize) -> (r: IVec2)
        requires
            self.wf(),
            index < 4,
            i32::MIN + 2 <= self.pos.x <= i32::MAX - 2,
            i32::MIN + 2 <= self.pos.y <= i32::MAX - 2,
        ensures
            (r.x as int, r.y as int) == self.cell(index as int),
    {
        if index > 0 {
            let off = self.get_coord_at(index - 1);
            IVec2 { x: self.pos.x + off.x, y: self.pos.y + off.y }
        } else {
            self.pos
        }
    }

    /// The four absolute cell positions of the piece: the pivot and the
    /// three rotated offsets translated by it.
    pub fn occupied_cells(&self) -> (r: Vec<IVec2>)
        requires
            self.wf(),
            i32::MIN + 2 <= self.pos.x <= i32::MAX - 2,
            i32::MIN + 2 <= self.pos.y <= i32::MAX - 2,
        ensures
            r@.len() == 4,
            forall|i: int| 0 <= i < 4 ==> ((#[trigger] r@[i]).x as int, r@[i].y as int)
                == self.cell(i),
    {
        let mut v: Vec<IVec2> = Vec::new();
        v.push(self.get_pos_at(0));
        v.push(self.get_pos_at(1));
        v.push(self.get_pos_at(2));
        v.push(self.get_pos_at(3));
        v
    }

    /// Advances the rotation state by one 90-degree step.
    pub fn rotate(&mut self)
        requires
            old(self).wf(),
        ensures
            final(self).wf(),
            final(self).rotation_mat == rot90_spec(old(self).rotation_mat),
            final(self).pos == old(self).pos,
            final(self).drop_pos == old(self).drop_pos,
            final(self).piece_type == old(self).piece_type,
    {
        self.rotation_mat = self.rotation_mat.rotated90();
    }
}

} // verus!
