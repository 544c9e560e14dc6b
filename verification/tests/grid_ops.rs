//! The wrap-around playfield: reads, writes, full rows, collapsing and the
//! clear pass.

use tetris_core::grid::{Grid, EMPTY_BLOCK};

fn snapshot(g: &Grid) -> Vec<Option<u64>> {
    let mut v = Vec::new();
    for y in 0..g.height as i32 {
        for x in 0..g.width as i32 {
            v.push(g.read(x, y));
        }
    }
    v
}

#[test]
fn new_grid_is_empty() {
    let g = Grid::new(10, 20);
    assert_eq!(g.width, 10);
    assert_eq!(g.height, 20);
    for y in 0..20 {
        for x in 0..10 {
            assert_eq!(g.read(x, y), Some(EMPTY_BLOCK));
        }
    }
}

#[test]
fn read_write_wrap_around_columns() {
    let mut g = Grid::new(10, 20);
    g.write(-1, 5, 7);
    assert_eq!(g.read(9, 5), Some(7));
    assert_eq!(g.read(-1, 5), Some(7));
    assert_eq!(g.read(19, 5), Some(7));
    g.write(23, 0, 9);
    assert_eq!(g.read(3, 0), Some(9));
    assert_eq!(g.read(4, 0), Some(EMPTY_BLOCK));
}

#[test]
fn rows_outside_grid_read_none_and_discard_writes() {
    let mut g = Grid::new(10, 20);
    assert_eq!(g.read(3, -1), None);
    assert_eq!(g.read(3, 20), None);
    let before = snapshot(&g);
    g.write(3, -1, 7);
    g.write(3, -3, 7);
    g.write(3, 20, 7);
    g.write(3, 100, 7);
    assert_eq!(snapshot(&g), before);
}

#[test]
fn row_is_full_detects_one_gap() {
    let mut g = Grid::new(5, 8);
    for x in 0..5 {
        g.write(x, 7, 1);
    }
    assert!(g.row_is_full(7));
    assert!(!g.row_is_full(6));
    g.write(2, 7, EMPTY_BLOCK);
    assert!(!g.row_is_full(7));
}

#[test]
fn collapse_row_shifts_rows_down_and_empties_row_zero() {
    let mut g = Grid::new(3, 4);
    // row y holds the value y+10 in every column
    for y in 0..4 {
        for x in 0..3 {
            g.write(x, y, (y + 10) as u64);
        }
    }
    g.collapse_row(2);
    for x in 0..3 {
        assert_eq!(g.read(x, 0), Some(EMPTY_BLOCK));
        assert_eq!(g.read(x, 1), Some(10));
        assert_eq!(g.read(x, 2), Some(11));
        assert_eq!(g.read(x, 3), Some(13)); // rows below the cleared one keep their cells
    }
}

#[test]
fn clear_pass_removes_full_rows() {
    let mut g = Grid::new(4, 6);
    // rows 3 and 5 full, a marker in row 4
    for x in 0..4 {
        g.write(x, 3, 8);
        g.write(x, 5, 9);
    }
    g.write(1, 4, 77);
    g.clear_full_rows();
    // both full rows are gone; collapsing row 3 leaves the marker in place
    // (it sits below), collapsing row 5 then moves it from row 4 to row 5
    for y in 0..6usize {
        assert!(!g.row_is_full(y));
    }
    for y in 0..6 {
        for x in 0..4 {
            if (x, y) == (1, 5) {
                assert_eq!(g.read(x, y), Some(77));
            } else {
                assert_eq!(g.read(x, y), Some(EMPTY_BLOCK));
            }
        }
    }
}

#[test]
fn clear_pass_without_full_rows_changes_nothing() {
    let mut g = Grid::new(6, 10);
    // scattered cells, never a full row
    g.write(0, 9, 1);
    g.write(3, 9, 2);
    g.write(5, 9, 3);
    g.write(2, 8, 4);
    g.write(1, 0, 5);
    let before = snapshot(&g);
    g.clear_full_rows();
    assert_eq!(snapshot(&g), before);
}
