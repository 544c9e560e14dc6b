//! Core of a falling-block puzzle game played on a cylindrical grid.
//!
//! Columns wrap around modulo the grid width, so a piece slid past the left
//! edge reappears on the right. The crate holds the verified game logic:
//! the wrap-around grid, the tetromino shape table, rotation matrices,
//! collision detection, landing-row precomputation, gravity timing and
//! line clearing. Rendering and input belong to the surrounding program,
//! which drives the state machine through its public operations.

pub mod game;
pub mod geometry;
pub mod grid;
pub mod piece;
pub mod rng;
pub mod shader;
pub mod tetromino;
pub mod wrap;
