//! Wrapped column addressing, the rotation matrices and the shape table.

use tetris_core::geometry::{IVec2, Mat2};
use tetris_core::tetromino::{tetromino_offset, NUM_TETROMINOES, O_TETROMINO};
use tetris_core::wrap::wrap_col;

#[test]
fn wrap_col_in_range_values() {
    assert_eq!(wrap_col(0, 10), 0);
    assert_eq!(wrap_col(5, 10), 5);
    assert_eq!(wrap_col(9, 10), 9);
    assert_eq!(wrap_col(10, 10), 0);
    assert_eq!(wrap_col(13, 10), 3);
    assert_eq!(wrap_col(-1, 10), 9);
    assert_eq!(wrap_col(-10, 10), 0);
    assert_eq!(wrap_col(-23, 10), 7);
    assert_eq!(wrap_col(1234567, 15), 1234567 % 15);
    assert_eq!(wrap_col(-2147483648, 10), 2);
    assert_eq!(wrap_col(2147483647, 10), 7);
    assert_eq!(wrap_col(42, 1), 0);
    assert_eq!(wrap_col(-42, 1), 0);
}

#[test]
fn wrap_col_matches_double_mod_formula() {
    for w in [1i32, 2, 3, 7, 10, 15] {
        for x in -50i32..50 {
            let expected = ((x % w) + w) % w;
            let got = wrap_col(x, w);
            assert_eq!(got, expected);
            assert!(0 <= got && got < w);
        }
    }
}

fn identity() -> Mat2 {
    Mat2 { a: 1, b: 0, c: 0, d: 1 }
}

#[test]
fn rotation_cycle_returns_to_identity() {
    let mut m = identity();
    let mut seen = Vec::new();
    for _ in 0..4 {
        seen.push(m);
        m = m.rotated90();
        // each step leaves the set of four rotation matrices intact
        assert!(m.a.abs() <= 1 && m.b.abs() <= 1 && m.c.abs() <= 1 && m.d.abs() <= 1);
    }
    assert_eq!(m, identity());
    // the four orientations are pairwise distinct
    for i in 0..4 {
        for j in 0..i {
            assert_ne!(seen[i], seen[j]);
        }
    }
}

#[test]
fn rotation_step_values() {
    let r1 = identity().rotated90();
    assert_eq!(r1, Mat2 { a: 0, b: 1, c: -1, d: 0 });
    let r2 = r1.rotated90();
    assert_eq!(r2, Mat2 { a: -1, b: 0, c: 0, d: -1 });
    let r3 = r2.rotated90();
    assert_eq!(r3, Mat2 { a: 0, b: -1, c: 1, d: 0 });
}

#[test]
fn rotation_applied_to_offsets() {
    // one 90-degree step sends (x, y) to (y, -x)
    let r1 = identity().rotated90();
    let v = r1.apply(IVec2 { x: 2, y: 0 });
    assert_eq!(v, IVec2 { x: 0, y: -2 });
    let v = r1.apply(IVec2 { x: -1, y: 1 });
    assert_eq!(v, IVec2 { x: 1, y: 1 });
    // the identity moves nothing
    let v = identity().apply(IVec2 { x: -1, y: -1 });
    assert_eq!(v, IVec2 { x: -1, y: -1 });
}

#[test]
fn shape_table_values() {
    assert_eq!(NUM_TETROMINOES, 7);
    assert_eq!(O_TETROMINO, 3);
    // I-tetromino: a flat bar through the pivot
    assert_eq!(tetromino_offset(0, 0), IVec2 { x: -1, y: 0 });
    assert_eq!(tetromino_offset(0, 1), IVec2 { x: 1, y: 0 });
    assert_eq!(tetromino_offset(0, 2), IVec2 { x: 2, y: 0 });
    // O-tetromino: the square
    assert_eq!(tetromino_offset(3, 0), IVec2 { x: 1, y: 0 });
    assert_eq!(tetromino_offset(3, 1), IVec2 { x: 0, y: 1 });
    assert_eq!(tetromino_offset(3, 2), IVec2 { x: 1, y: 1 });
    // every offset is small
    for t in 0..7 {
        for i in 0..3 {
            let o = tetromino_offset(t, i);
            assert!(-1 <= o.x && o.x <= 2);
            assert!(-1 <= o.y && o.y <= 1);
        }
    }
}
