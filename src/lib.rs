//! Building blocks for Conway's Game of Life: cells, generations and the
//! ruleset that computes the next state of a cell.
pub mod cell;
pub mod generation;
pub mod result;
pub mod ruleset;
