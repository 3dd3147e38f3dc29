//! A rover on a bounded grid with obstacles: pure state transitions,
//! obstacle-aware command execution and a text rendering of the grid.
pub mod rover;
pub mod mars;
pub mod controller;
