//! The game state machine: gravity timing, player moves, rotation with
//! rejection, hard drops, commits to the grid and line clearing.
//!
//! Time is injected: the driving program samples a monotonic clock once per
//! frame and hands the state machine milliseconds since the game started.
//! The type of each spawned piece is likewise injected (drawn through the
//! one random wrapper or chosen by the caller), so every transition is
//! verified for all seven piece types.

use vstd::prelude::*;
use crate::geometry::{mat_identity, rot90_spec, IVec2, Mat2};
use crate::grid::{
    clear_rows_from_spec, write_cell_spec, Grid, EMPTY_BLOCK, MAX_GRID_DIM,
};
use crate::piece::{piece_cell_spec, DroppingPiece};
use crate::rng::random_piece_type;
use crate::tetromino::O_TETROMINO;
use crate::wrap::{wrap_col, wrap_col_spec};

verus! {

/// Gravity interval at game start, in milliseconds.
pub const BASE_DROP_TIME_MS: u64 = 500;

/// Speed factor of a soft drop: the gravity interval shrinks fourfold.
pub const SOFT_DROP_FACTOR: u64 = 4;

/// Would a piece with pivot `(px, py)`, type `t` and rotation `m` collide
/// with the grid? A pivot row below 1 never collides (pieces spawn above
/// the visible grid and fall into view); otherwise any of the four cells
/// landing on an occupied cell, or outside the rows of the grid, collides.
pub open spec fn piece_hits_at(g: Grid, px: int, py: int, t: int, m: Mat2) -> bool {
    py >= 1 && {
        ||| g.blocked_at(piece_cell_spec(px, py, t, m, 0).0, piece_cell_spec(px, py, t, m, 0).1)
        ||| g.blocked_at(piece_cell_spec(px, py, t, m, 1).0, piece_cell_spec(px, py, t, m, 1).1)
        ||| g.blocked_at(piece_cell_spec(px, py, t, m, 2).0, piece_cell_spec(px, py, t, m, 2).1)
        ||| g.blocked_at(piece_cell_spec(px, py, t, m, 3).0, piece_cell_spec(px, py, t, m, 3).1)
    }
}

/// Collision of piece `p` placed with its pivot on row `r` (keeping its
/// column, type and rotation).
pub open spec fn piece_hits_row(g: Grid, p: DroppingPiece, r: int) -> bool {
    piece_hits_at(g, p.pos.x as int, r, p.piece_type as int, p.rotation_mat)
}

/// The grid contents after writing seed `seed` into the first `i` cells of
/// piece `p` with its pivot on row `py` (writes above or below the grid are
/// discarded).
pub open spec fn place_piece_upto_spec(
    g: Grid,
    p: DroppingPiece,
    py: int,
    seed: u64,
    i: int,
) -> Seq<u64>
    decreases i,
{
    if i <= 0 {
        g.cells@
    } else {
        let c = piece_cell_spec(p.pos.x as int, py, p.piece_type as int, p.rotation_mat, i - 1);
        write_cell_spec(
            place_piece_upto_spec(g, p, py, seed, i - 1),
            g.width as int,
            g.height as int,
            c.0,
            c.1,
            seed,
        )
    }
}

/// Placement only reads a piece's column, type and rotation; the pivot row
/// is the separate `py` argument. Two pieces that agree on those fields
/// place identically.
pub proof fn lemma_place_ignores_rows(
    g: Grid,
    p1: DroppingPiece,
    p2: DroppingPiece,
    py: int,
    seed: u64,
    i: int,
)
    requires
        p1.pos.x == p2.pos.x,
        p1.piece_type == p2.piece_type,
        p1.rotation_mat == p2.rotation_mat,
    ensures
        place_piece_upto_spec(g, p1, py, seed, i) == place_piece_upto_spec(g, p2, py, seed, i),
    decreases i,
{
    if i > 0 {
        lemma_place_ignores_rows(g, p1, p2, py, seed, i - 1);
    }
}

/// The grid contents after a commit: the four cells of `p` (pivot on row
/// `py`) written with `seed`, then one clear pass over all rows.
pub open spec fn committed_cells_spec(g: Grid, p: DroppingPiece, py: int, seed: u64) -> Seq<u64> {
    clear_rows_from_spec(
        place_piece_upto_spec(g, p, py, seed, 4),
        g.width as int,
        g.height as int,
        0,
    )
}

/// The placement counter after a commit. It steps forward by one and skips
/// back to zero just before reaching the sentinel of empty cells, which
/// keeps every stored seed distinct from that sentinel (in play the wrap is
/// unreachable: it would take 2^64 - 1 commits).
pub open spec fn next_seed_spec(seed: u64) -> u64 {
    if seed + 1 < EMPTY_BLOCK {
        (seed + 1) as u64
    } else {
        0
    }
}

/// The game state machine.
pub struct GameLogic {
    /// The playfield.
    pub grid: Grid,
    /// Base gravity interval in milliseconds (without soft drop).
    pub drop_time: u64,
    /// Whether a soft drop is active (the interval divides by four).
    pub soft_drop: bool,
    /// Time of the last gravity step, in game milliseconds.
    pub last_drop_ms: u64,
    /// Seed of the next commit; every committed cell stores it.
    pub current_seed: u64,
    /// The falling piece.
    pub current_piece: DroppingPiece,
}

impl GameLogic {
    /// The gravity interval currently in force.
    pub open spec fn fall_interval_spec(&self) -> int {
        if self.soft_drop {
            self.drop_time as int / SOFT_DROP_FACTOR as int
        } else {
            self.drop_time as int
        }
    }

    /// The piece sits inside the cylinder and no lower than its landing row.
    pub open spec fn piece_in_bounds(&self) -> bool {
        &&& 0 <= self.current_piece.pos.x < self.grid.width
        &&& -2 <= self.current_piece.pos.y
    }

    /// The cached landing row is correct: the piece rests there without
    /// collision, every row on the way down is free, and one row further
    /// collides (or leaves the grid).
    pub open spec fn landing_ok(&self) -> bool {
        let p = self.current_piece;
        &&& p.pos.y <= p.drop_pos < self.grid.height
        &&& forall|r: int|
            p.pos.y <= r <= p.drop_pos ==> !#[trigger] piece_hits_row(self.grid, p, r)
        &&& piece_hits_row(self.grid, p, p.drop_pos + 1)
    }

    /// Well-formed game state; every public operation preserves it.
    pub open spec fn wf(&self) -> bool {
        &&& self.grid.wf()
        &&& self.current_piece.wf()
        &&& self.piece_in_bounds()
        &&& self.landing_ok()
        &&& self.current_seed < EMPTY_BLOCK
    }

    /// The state after a commit of the old piece with its pivot on row `py`
    /// followed by a respawn, except for the gravity timer (the caller
    /// decides whether the commit resets it) and the new piece's type and
    /// landing row (stated separately).
    pub open spec fn committed_and_respawned(pre: GameLogic, post: GameLogic, py: int) -> bool {
        &&& post.grid.width == pre.grid.width
        &&& post.grid.height == pre.grid.height
        &&& post.grid.cells@ == committed_cells_spec(
            pre.grid,
            pre.current_piece,
            py,
            pre.current_seed,
        )
        &&& post.current_seed == next_seed_spec(pre.current_seed)
        &&& post.current_piece.pos.x == pre.grid.width as int / 2
        &&& post.current_piece.pos.y == -2
        &&& post.current_piece.rotation_mat == mat_identity()
        &&& post.drop_time == pre.drop_time
        &&& post.soft_drop == pre.soft_drop
    }

    /// Does the current piece collide when its pivot is put on row `y`
    /// (column, type and rotation unchanged)?
    pub fn piece_would_collide_at(&self, y: i32) -> (r: bool)
        requires
            self.grid.wf(),
            self.current_piece.wf(),
            0 <= self.current_piece.pos.x < self.grid.width,
            -4 <= y <= MAX_GRID_DIM + 4,
        ensures
            r == piece_hits_row(self.grid, self.current_piece, y as int),
    {
        if y < 1 {
            return false;
        }
        let p = &self.current_piece;
        if cell_blocked(&self.grid, p.pos.x, y) {
            return true;
        }
        let c1 = p.get_coord_at(0);
        if cell_blocked(&self.grid, p.pos.x + c1.x, y + c1.y) {
            return true;
        }
        let c2 = p.get_coord_at(1);
        if cell_blocked(&self.grid, p.pos.x + c2.x, y + c2.y) {
            return true;
        }
        let c3 = p.get_coord_at(2);
        if cell_blocked(&self.grid, p.pos.x + c3.x, y + c3.y) {
            return true;
        }
        false
    }

    /// Recomputes the landing row of the current piece: the last row the
    /// piece reaches, falling straight down from where it is, before a row
    /// that collides. Every successful move or rotation and every spawn
    /// refreshes this cache.
    pub fn update_dropped_pos(&mut self)
        requires
            old(self).grid.wf(),
            old(self).current_piece.wf(),
            old(self).piece_in_bounds(),
            old(self).current_piece.pos.y < old(self).grid.height,
            !piece_hits_row(old(self).grid, old(self).current_piece, old(self).current_piece.pos.y as int),
        ensures
            final(self).grid == old(self).grid,
            final(self).drop_time == old(self).drop_time,
            final(self).soft_drop == old(self).soft_drop,
            final(self).last_drop_ms == old(self).last_drop_ms,
            final(self).current_seed == old(self).current_seed,
            final(self).current_piece.pos == old(self).current_piece.pos,
            final(self).current_piece.piece_type == old(self).current_piece.piece_type,
            final(self).current_piece.rotation_mat == old(self).current_piece.rotation_mat,
            final(self).landing_ok(),
    {
        let h = self.grid.height as i32;
        let start = self.current_piece.pos.y;
        let mut y: i32 = start + 1;
        loop
            invariant
                self == old(self),
                self.grid.wf(),
                self.current_piece.wf(),
                self.piece_in_bounds(),
                h == self.grid.height,
                start == self.current_piece.pos.y,
                start < self.grid.height,
                start + 1 <= y <= h,
                forall|r: int|
                    start < r < y ==> !#[trigger] piece_hits_row(self.grid, self.current_piece, r),
            ensures
                self == old(self),
                start + 1 <= y <= h,
                forall|r: int|
                    start < r < y ==> !#[trigger] piece_hits_row(self.grid, self.current_piece, r),
                piece_hits_row(self.grid, self.current_piece, y as int),
            decreases h - y,
        {
            if self.piece_would_collide_at(y) {
                break;
            }
            proof {
                // the pivot cell of a piece on row `h` lies below the grid,
                // so the scan always breaks no later than `y == h`
                assert(piece_hits_row(self.grid, self.current_piece, h as int));
            }
            y = y + 1;
        }
        self.current_piece.drop_pos = y - 1;
        proof {
            let g = self.grid;
            let p0 = old(self).current_piece;
            let p = self.current_piece;
            assert forall|r: int| p.pos.y <= r <= p.drop_pos implies !piece_hits_row(
                g,
                p,
                r,
            ) by {
                assert(piece_hits_row(g, p, r) == piece_hits_row(g, p0, r));
            }
            assert(piece_hits_row(g, p, p.drop_pos + 1) == piece_hits_row(
                g,
                p0,
                p.drop_pos + 1,
            ));
        }
    }

    /// Writes the four cells of the current piece into the grid with the
    /// current seed and steps the seed counter.
    pub fn place_piece_to_grid(&mut self)
        requires
            old(self).grid.wf(),
            old(self).current_piece.wf(),
            old(self).piece_in_bounds(),
            old(self).current_piece.pos.y <= old(self).grid.height,
            old(self).current_seed < EMPTY_BLOCK,
        ensures
            final(self).grid.wf(),
            final(self).grid.width == old(self).grid.width,
            final(self).grid.height == old(self).grid.height,
            final(self).grid.cells@ == place_piece_upto_spec(
                old(self).grid,
                old(self).current_piece,
                old(self).current_piece.pos.y as int,
                old(self).current_seed,
                4,
            ),
            final(self).current_seed == next_seed_spec(old(self).current_seed),
            final(self).current_seed < EMPTY_BLOCK,
            final(self).current_piece == old(self).current_piece,
            final(self).drop_time == old(self).drop_time,
            final(self).soft_drop == old(self).soft_drop,
            final(self).last_drop_ms == old(self).last_drop_ms,
    {
        let p = self.current_piece;
        let seed = self.current_seed;
        let c0 = p.get_pos_at(0);
        self.grid.write(c0.x, c0.y, seed);
        let c1 = p.get_pos_at(1);
        self.grid.write(c1.x, c1.y, seed);
        let c2 = p.get_pos_at(2);
        self.grid.write(c2.x, c2.y, seed);
        let c3 = p.get_pos_at(3);
        self.grid.write(c3.x, c3.y, seed);
        proof {
            reveal_with_fuel(place_piece_upto_spec, 5);
        }
        if self.current_seed < EMPTY_BLOCK - 1 {
            self.current_seed = self.current_seed + 1;
        } else {
            self.current_seed = 0;
        }
    }

    /// Commits the current piece where it stands, clears full rows, and
    /// spawns a fresh piece of the given type above the grid at the fixed
    /// spawn column. The gravity timer is left to the caller.
    pub fn create_new_piece_with(&mut self, piece_type: usize)
        requires
            old(self).grid.wf(),
            old(self).current_piece.wf(),
            old(self).piece_in_bounds(),
            old(self).current_piece.pos.y <= old(self).grid.height,
            old(self).current_seed < EMPTY_BLOCK,
            piece_type < 7,
        ensures
            final(self).wf(),
            GameLogic::committed_and_respawned(
                *old(self),
                *final(self),
                old(self).current_piece.pos.y as int,
            ),
            final(self).current_piece.piece_type == piece_type,
            final(self).last_drop_ms == old(self).last_drop_ms,
    {
        self.place_piece_to_grid();
        self.grid.clear_full_rows();
        let spawn_x = (self.grid.width / 2) as i32;
        self.current_piece = DroppingPiece {
            pos: IVec2 { x: spawn_x, y: -2 },
            drop_pos: -2,
            piece_type,
            rotation_mat: Mat2 { a: 1, b: 0, c: 0, d: 1 },
        };
        self.update_dropped_pos();
    }

    /// Commits the current piece and spawns a fresh piece of a random type.
    pub fn create_new_piece(&mut self)
        requires
            old(self).grid.wf(),
            old(self).current_piece.wf(),
            old(self).piece_in_bounds(),
            old(self).current_piece.pos.y <= old(self).grid.height,
            old(self).current_seed < EMPTY_BLOCK,
        ensures
            final(self).wf(),
            GameLogic::committed_and_respawned(
                *old(self),
                *final(self),
                old(self).current_piece.pos.y as int,
            ),
            final(self).last_drop_ms == old(self).last_drop_ms,
    {
        let t = random_piece_type();
        self.create_new_piece_with(t);
    }

    /// Builds a game over an existing playfield, with the first piece of
    /// the given type spawned above the grid at the fixed spawn column.
    pub fn new_with_grid(grid: Grid, piece_type: usize) -> (game: GameLogic)
        requires
            grid.wf(),
            piece_type < 7,
        ensures
            game.wf(),
            game.grid.width == grid.width,
            game.grid.height == grid.height,
            game.grid.cells@ == grid.cells@,
            game.drop_time == BASE_DROP_TIME_MS,
            !game.soft_drop,
            game.last_drop_ms == 0,
            game.current_seed == 0,
            game.current_piece.pos.x == grid.width as int / 2,
            game.current_piece.pos.y == -2,
            game.current_piece.piece_type == piece_type,
            game.current_piece.rotation_mat == mat_identity(),
    {
        let spawn_x = (grid.width / 2) as i32;
        let mut game = GameLogic {
            grid,
            drop_time: BASE_DROP_TIME_MS,
            soft_drop: false,
            last_drop_ms: 0,
            current_seed: 0,
            current_piece: DroppingPiece {
                pos: IVec2 { x: spawn_x, y: -2 },
                drop_pos: -2,
                piece_type,
                rotation_mat: Mat2 { a: 1, b: 0, c: 0, d: 1 },
            },
        };
        game.update_dropped_pos();
        game
    }

    /// Builds a game with an all-empty grid and a random first piece.
    pub fn new(grid_width: usize, grid_height: usize) -> (game: GameLogic)
        requires
            1 <= grid_width <= MAX_GRID_DIM,
            1 <= grid_height <= MAX_GRID_DIM,
            grid_width * grid_height <= usize::MAX,
        ensures
            game.wf(),
            game.grid.width == grid_width,
            game.grid.height == grid_height,
            game.grid.cells@ == Seq::new((grid_width * grid_height) as nat, |i: int| EMPTY_BLOCK),
            game.drop_time == BASE_DROP_TIME_MS,
            !game.soft_drop,
            game.last_drop_ms == 0,
            game.current_seed == 0,
            game.current_piece.pos.x == grid_width as int / 2,
            game.current_piece.pos.y == -2,
            game.current_piece.rotation_mat == mat_identity(),
    {
        let t = random_piece_type();
        GameLogic::new_with_grid(Grid::new(grid_width, grid_height), t)
    }

    /// The gravity interval currently in force, in milliseconds.
    pub fn fall_interval(&self) -> (r: u64)
        ensures
            r == self.fall_interval_spec(),
    {
        if self.soft_drop {
            self.drop_time / SOFT_DROP_FACTOR
        } else {
            self.drop_time
        }
    }

    /// Switches the soft drop on or off. Repeated identical calls are
    /// no-ops (the base interval is kept, not divided in place), so the
    /// caller need not deduplicate key-repeat edges.
    pub fn toggle_piece_drop(&mut self, start_drop: bool)
        requires
            old(self).wf(),
        ensures
            final(self).wf(),
            final(self).soft_drop == start_drop,
            final(self).grid == old(self).grid,
            final(self).drop_time == old(self).drop_time,
            final(self).last_drop_ms == old(self).last_drop_ms,
            final(self).current_seed == old(self).current_seed,
            final(self).current_piece == old(self).current_piece,
    {
        self.soft_drop = start_drop;
    }

    /// Slides the piece one column left or right around the cylinder.
    /// Either the pivot column moves to the wrapped target and no occupied
    /// cell collides with the grid, or the state is unchanged (the move was
    /// rejected); a successful move refreshes the landing row. The pivot
    /// column is kept in wrapped form `[0, width)`; on the cylinder every
    /// representative names the same cells.
    pub fn move_piece(&mut self, movement: i32)
        requires
            old(self).wf(),
            movement == 1 || movement == -1,
        ensures
            final(self).wf(),
            final(self).grid == old(self).grid,
            final(self).drop_time == old(self).drop_time,
            final(self).soft_drop == old(self).soft_drop,
            final(self).last_drop_ms == old(self).last_drop_ms,
            final(self).current_seed == old(self).current_seed,
            final(self).current_piece.pos.y == old(self).current_piece.pos.y,
            final(self).current_piece.piece_type == old(self).current_piece.piece_type,
            final(self).current_piece.rotation_mat == old(self).current_piece.rotation_mat,
            ({
                let p = old(self).current_piece;
                let nx = wrap_col_spec(
                    p.pos.x + movement,
                    old(self).grid.width as int,
                );
                if piece_hits_at(
                    old(self).grid,
                    nx,
                    p.pos.y as int,
                    p.piece_type as int,
                    p.rotation_mat,
                ) {
                    final(self).current_piece == p
                } else {
                    final(self).current_piece.pos.x == nx && !piece_hits_row(
                        final(self).grid,
                        final(self).current_piece,
                        final(self).current_piece.pos.y as int,
                    )
                }
            }),
    {
        let old_x = self.current_piece.pos.x;
        let nx = wrap_col(old_x + movement, self.grid.width as i32);
        self.current_piece.pos.x = nx;
        if self.piece_would_collide_at(self.current_piece.pos.y) {
            self.current_piece.pos.x = old_x;
            proof {
                let p = self.current_piece;
                let p0 = old(self).current_piece;
                assert(p == p0);
                assert forall|r: int| p.pos.y <= r <= p.drop_pos implies !piece_hits_row(
                    self.grid,
                    p,
                    r,
                ) by {
                    assert(!piece_hits_row(old(self).grid, p0, r));
                }
            }
        } else {
            self.update_dropped_pos();
        }
    }

    /// Rotates the piece one 90-degree step, unless it is the square piece
    /// (rotation requests are ignored for it) or the rotated cells collide
    /// (the rotation is rejected and the state unchanged); a successful
    /// rotation refreshes the landing row.
    pub fn rotate_piece(&mut self)
        requires
            old(self).wf(),
        ensures
            final(self).wf(),
            final(self).grid == old(self).grid,
            final(self).drop_time == old(self).drop_time,
            final(self).soft_drop == old(self).soft_drop,
            final(self).last_drop_ms == old(self).last_drop_ms,
            final(self).current_seed == old(self).current_seed,
            final(self).current_piece.pos == old(self).current_piece.pos,
            final(self).current_piece.piece_type == old(self).current_piece.piece_type,
            ({
                let p = old(self).current_piece;
                let nm = rot90_spec(p.rotation_mat);
                if p.piece_type == O_TETROMINO {
                    final(self).current_piece == p
                } else if piece_hits_at(
                    old(self).grid,
                    p.pos.x as int,
                    p.pos.y as int,
                    p.piece_type as int,
                    nm,
                ) {
                    final(self).current_piece == p
                } else {
                    final(self).current_piece.rotation_mat == nm && !piece_hits_row(
                        final(self).grid,
                        final(self).current_piece,
                        final(self).current_piece.pos.y as int,
                    )
                }
            }),
    {
        if self.current_piece.piece_type == O_TETROMINO {
            return;
        }
        let saved = self.current_piece.rotation_mat;
        self.current_piece.rotate();
        if self.piece_would_collide_at(self.current_piece.pos.y) {
            self.current_piece.rotation_mat = saved;
            proof {
                let p = self.current_piece;
                let p0 = old(self).current_piece;
                assert(p == p0);
                assert forall|r: int| p.pos.y <= r <= p.drop_pos implies !piece_hits_row(
                    self.grid,
                    p,
                    r,
                ) by {
                    assert(!piece_hits_row(old(self).grid, p0, r));
                }
            }
        } else {
            self.update_dropped_pos();
        }
    }

    /// Drops the piece straight onto its landing row and commits it there,
    /// clearing full rows and spawning a fresh piece of the given type.
    /// The gravity timer is not reset (as for a natural landing; the next
    /// tick past the interval still steps the new piece).
    pub fn hard_drop_piece_with(&mut self, piece_type: usize)
        requires
            old(self).wf(),
            piece_type < 7,
        ensures
            final(self).wf(),
            GameLogic::committed_and_respawned(
                *old(self),
                *final(self),
                old(self).current_piece.drop_pos as int,
            ),
            final(self).current_piece.piece_type == piece_type,
            final(self).last_drop_ms == old(self).last_drop_ms,
    {
        self.current_piece.pos.y = self.current_piece.drop_pos;
        let ghost mid = *self;
        self.create_new_piece_with(piece_type);
        proof {
            lemma_place_ignores_rows(
                mid.grid,
                mid.current_piece,
                old(self).current_piece,
                mid.current_piece.pos.y as int,
                mid.current_seed,
                4,
            );
        }
    }

    /// Drops the piece straight onto its landing row and commits it there;
    /// the next piece's type is drawn at random.
    pub fn hard_drop_piece(&mut self)
        requires
            old(self).wf(),
        ensures
            final(self).wf(),
            GameLogic::committed_and_respawned(
                *old(self),
                *final(self),
                old(self).current_piece.drop_pos as int,
            ),
            final(self).last_drop_ms == old(self).last_drop_ms,
    {
        self.current_piece.pos.y = self.current_piece.drop_pos;
        let ghost mid = *self;
        self.create_new_piece();
        proof {
            lemma_place_ignores_rows(
                mid.grid,
                mid.current_piece,
                old(self).current_piece,
                mid.current_piece.pos.y as int,
                mid.current_seed,
                4,
            );
        }
    }

    /// One frame of the state machine, at `now_ms` game milliseconds (from
    /// a monotonic clock; an earlier time than the last gravity step is
    /// treated as no time passed). While the gravity interval has not
    /// elapsed, nothing changes. When it has, the piece falls one row; if
    /// that reaches or passes its landing row, the piece is committed,
    /// full rows are cleared and a new piece of the given type spawns.
    /// Either way the gravity timer restarts at `now_ms`.
    pub fn update_with(&mut self, now_ms: u64, next_piece_type: usize)
        requires
            old(self).wf(),
            next_piece_type < 7,
        ensures
            final(self).wf(),
            final(self).drop_time == old(self).drop_time,
            final(self).soft_drop == old(self).soft_drop,
            ({
                let elapsed = if now_ms >= old(self).last_drop_ms {
                    now_ms - old(self).last_drop_ms
                } else {
                    0
                };
                if elapsed < old(self).fall_interval_spec() {
                    *final(self) == *old(self)
                } else if old(self).current_piece.pos.y + 1
                    < old(self).current_piece.drop_pos {
                    final(self).grid == old(self).grid
                        && final(self).current_seed == old(self).current_seed
                        && final(self).last_drop_ms == now_ms
                        && final(self).current_piece.pos.y
                            == old(self).current_piece.pos.y + 1
                        && final(self).current_piece.pos.x == old(self).current_piece.pos.x
                        && final(self).current_piece.piece_type
                            == old(self).current_piece.piece_type
                        && final(self).current_piece.rotation_mat
                            == old(self).current_piece.rotation_mat
                        && final(self).current_piece.drop_pos
                            == old(self).current_piece.drop_pos
                } else {
                    GameLogic::committed_and_respawned(
                        *old(self),
                        *final(self),
                        old(self).current_piece.pos.y + 1,
                    ) && final(self).current_piece.piece_type == next_piece_type
                        && final(self).last_drop_ms == now_ms
                }
            }),
    {
        let elapsed = if now_ms >= self.last_drop_ms {
            now_ms - self.last_drop_ms
        } else {
            0
        };
        if elapsed >= self.fall_interval() {
            self.current_piece.pos.y = self.current_piece.pos.y + 1;
            if self.current_piece.pos.y >= self.current_piece.drop_pos {
                let ghost mid = *self;
                self.create_new_piece_with(next_piece_type);
                proof {
                    lemma_place_ignores_rows(
                        mid.grid,
                        mid.current_piece,
                        old(self).current_piece,
                        mid.current_piece.pos.y as int,
                        mid.current_seed,
                        4,
                    );
                }
            } else {
                proof {
                    let p = self.current_piece;
                    let p0 = old(self).current_piece;
                    assert forall|r: int| p.pos.y <= r <= p.drop_pos implies !piece_hits_row(
                        self.grid,
                        p,
                        r,
                    ) by {
                        assert(!piece_hits_row(old(self).grid, p0, r));
                    }
                    assert(piece_hits_row(self.grid, p, p.drop_pos + 1) == piece_hits_row(
                        old(self).grid,
                        p0,
                        p0.drop_pos + 1,
                    ));
                }
            }
            self.last_drop_ms = now_ms;
        }
    }

    /// One frame of the state machine; if the piece lands and commits, the
    /// next piece's type is drawn at random.
    pub fn update(&mut self, now_ms: u64)
        requires
            old(self).wf(),
        ensures
            final(self).wf(),
            final(self).drop_time == old(self).drop_time,
            final(self).soft_drop == old(self).soft_drop,
            ({
                let elapsed = if now_ms >= old(self).last_drop_ms {
                    now_ms - old(self).last_drop_ms
                } else {
                    0
                };
                if elapsed < old(self).fall_interval_spec() {
                    *final(self) == *old(self)
                } else if old(self).current_piece.pos.y + 1
                    < old(self).current_piece.drop_pos {
                    final(self).grid == old(self).grid
                        && final(self).current_seed == old(self).current_seed
                        && final(self).last_drop_ms == now_ms
                        && final(self).current_piece.pos.y
                            == old(self).current_piece.pos.y + 1
                        && final(self).current_piece.pos.x == old(self).current_piece.pos.x
                        && final(self).current_piece.piece_type
                            == old(self).current_piece.piece_type
                        && final(self).current_piece.rotation_mat
                            == old(self).current_piece.rotation_mat
                        && final(self).current_piece.drop_pos
                            == old(self).current_piece.drop_pos
                } else {
                    GameLogic::committed_and_respawned(
                        *old(self),
                        *final(self),
                        old(self).current_piece.pos.y + 1,
                    ) && final(self).last_drop_ms == now_ms
                }
            }),
    {
        let t = random_piece_type();
        self.update_with(now_ms, t);
    }
}

/// Is the grid cell at `(x, y)` unavailable to a piece (occupied, or
/// outside the rows of the grid)?
fn cell_blocked(g: &Grid, x: i32, y: i32) -> (r: bool)
    requires
        g.wf(),
    ensures
        r == g.blocked_at(x as int, y as int),
{
    match g.read(x, y) {
        Option::Some(seed) => seed != EMPTY_BLOCK,
        Option::None => true,
    }
}

} // verus!
