//! Wrap-around column addressing: the grid is a cylinder, so any integer
//! column, negative or beyond the width, names a real column.

use vstd::prelude::*;

verus! {

/// The canonical column for `x` on a cylinder of width `w`:
/// `((x mod w) + w) mod w`, which always lies in `[0, w)`.
pub open spec fn wrap_col_spec(x: int, w: int) -> int {
    ((x % w) + w) % w
}

/// For a positive width the wrapped column lies in `[0, w)` and equals the
/// Euclidean remainder `x % w`.
pub proof fn lemma_wrap_col_spec(x: int, w: int)
    requires
        w >= 1,
    ensures
        0 <= wrap_col_spec(x, w) < w,
        wrap_col_spec(x, w) == x % w,
{
    assert(0 <= x % w < w) by (nonlinear_arith)
        requires w >= 1;
    assert(((x % w) + w) % w == x % w) by (nonlinear_arith)
        requires w >= 1;
}

/// Normalizes a column index onto the cylinder.
pub fn wrap_col(x: i32, w: i32) -> (r: i32)
    requires
        w >= 1,
    ensures
        r == wrap_col_spec(x as int, w as int),
        0 <= r < w,
{
    proof {
        lemma_wrap_col_spec(x as int, w as int);
    }
    x.checked_rem_euclid(w).unwrap()
}

} // verus!
