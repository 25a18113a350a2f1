//! # grid
//!
//! Composes a logical grid of cells into a nested tree of rows inside a padded
//! column. Each cell is produced by a factory on every render pass, wrapped in a
//! fixed-size centred container, and styled. The tree is handed to the host
//! toolkit, which draws it.
pub mod cell;
pub mod grid;
pub mod layout;

pub use cell::{Cell, Factory};
pub use grid::Grid;
pub use layout::{Layout, Leaf, RowNode};
