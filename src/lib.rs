//! Conway's Game of Life on a fixed-size grid, with a finite-plane or a
//! torus boundary, verified with Verus.
mod storage;
pub mod app;
pub mod laws;
pub mod rules;
pub mod world;

pub use world::{Cell, World, WorldBound, WorldError, CELL_ALIVE, CELL_DEAD};
