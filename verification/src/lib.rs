//! Quadbin: a discrete global grid index on the Web-Mercator quadtree.
//!
//! A cell is a 64-bit identifier carrying a hierarchy level (resolution,
//! 0 to 26) and the Morton-interleaved coordinates of a tile at that level.
//! This crate provides the codec between cells and tiles, validation of raw
//! 64-bit values, and the hierarchical operations: parent, children and
//! 4-neighbor queries.

pub mod cells;
pub mod constants;
pub mod direction;
pub mod errors;
pub mod laws;
pub mod morton;
pub mod tiles;

pub use cells::Cell;
pub use direction::Direction;
pub use errors::QuadbinError;
pub use tiles::Tile;
