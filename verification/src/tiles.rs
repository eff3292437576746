//! Tiles of the Web-Mercator quadtree: position `(x, y)` on the
//! `2^z` by `2^z` grid at level `z`.

use vstd::prelude::*;

use crate::cells::Cell;
use crate::constants::{B0, B1, B2, B3, B4, FOOTER, HEADER, MAX_RESOLUTION};
use crate::direction::Direction;
use crate::errors::QuadbinError;
use crate::morton::{
    canonical_cell, lemma_canonical_is_valid, lemma_encode_properties, spec_tile_to_cell,
};

verus! {

/// A node of the Web-Mercator quadtree. A tile in range has
/// `x < 2^z`, `y < 2^z` and `z` at most 26; the constructor is total and
/// the operations state which tiles they accept.
#[derive(Clone, Copy, Debug, PartialEq, Eq, Hash, Structural)]
pub struct Tile {
    /// Column, counted from the west edge.
    pub x: u32,
    /// Row, counted from the north edge.
    pub y: u32,
    /// Quadtree level.
    pub z: u8,
}

impl Tile {
    /// The tile lies on the grid of its level and the level is in range.
    pub open spec fn wf(self) -> bool {
        &&& self.z <= 26
        &&& (self.x as u64) < (1u64 << (self.z as u64))
        &&& (self.y as u64) < (1u64 << (self.z as u64))
    }

    /// Creates a tile; nothing is validated beyond the field types.
    pub fn new(x: u32, y: u32, z: u8) -> (t: Tile)
        ensures
            t == (Tile { x, y, z }),
    {
        Tile { x, y, z }
    }

    /// The adjacent tile in a direction, or nothing at the grid edge.
    /// At level 0 every direction is absent. Rows and columns do not wrap.
    pub open spec fn spec_neighbor(self, direction: Direction) -> Option<Tile> {
        if self.z == 0 {
            None
        } else {
            match direction {
                Direction::Up => if self.y > 0 {
                    Some(Tile { x: self.x, y: (self.y - 1) as u32, z: self.z })
                } else {
                    None
                },
                Direction::Right => if (self.x as u64) + 1 < (1u64 << (self.z as u64)) {
                    Some(Tile { x: (self.x + 1) as u32, y: self.y, z: self.z })
                } else {
                    None
                },
                Direction::Left => if self.x > 0 {
                    Some(Tile { x: (self.x - 1) as u32, y: self.y, z: self.z })
                } else {
                    None
                },
                Direction::Down => if (self.y as u64) + 1 < (1u64 << (self.z as u64)) {
                    Some(Tile { x: self.x, y: (self.y + 1) as u32, z: self.z })
                } else {
                    None
                },
            }
        }
    }

    /// Returns the adjacent tile in a direction, or `None` at the edge of
    /// the grid; a neighbor of a tile in range is again in range.
    pub fn neighbor(&self, direction: Direction) -> (r: Option<Tile>)
        requires
            self.wf(),
        ensures
            r == self.spec_neighbor(direction),
            r matches Some(t) ==> t.wf() && t.z == self.z,
    {
        if self.z == 0 {
            return None;
        }
        let z: u8 = self.z;
        let tiles_per_level: u32 = 1u32 << (z as u32);
        assert((1u32 << (z as u32)) as u64 == 1u64 << (z as u64) && (1u32 << (z as u32)) >= 2)
            by (bit_vector)
            requires
                1 <= z <= 26,
        ;
        match direction {
            Direction::Up => {
                if self.y > 0 {
                    Some(Tile { x: self.x, y: self.y - 1, z: self.z })
                } else {
                    None
                }
            },
            Direction::Right => {
                if self.x < tiles_per_level - 1 {
                    Some(Tile { x: self.x + 1, y: self.y, z: self.z })
                } else {
                    None
                }
            },
            Direction::Left => {
                if self.x > 0 {
                    Some(Tile { x: self.x - 1, y: self.y, z: self.z })
                } else {
                    None
                }
            },
            Direction::Down => {
                if self.y < tiles_per_level - 1 {
                    Some(Tile { x: self.x, y: self.y + 1, z: self.z })
                } else {
                    None
                }
            },
        }
    }

    /// Encodes this tile as a Quadbin cell. A tile out of range — level
    /// above 26 or a coordinate off the grid of its level — is rejected.
    pub fn to_cell(self) -> (r: Result<Cell, QuadbinError>)
        ensures
            r is Ok <==> self.wf(),
            r matches Ok(c) ==> c.spec_get() == spec_tile_to_cell(
                self.x as u64,
                self.y as u64,
                self.z as u64,
            ) && canonical_cell(c.spec_get()),
            !self.wf() ==> r == Err::<Cell, QuadbinError>(QuadbinError::InvalidCell(None)),
    {
        if self.z > MAX_RESOLUTION {
            return Err(QuadbinError::InvalidCell(None));
        }
        let z: u64 = self.z as u64;
        let in_range: bool = (self.x as u64) < (1u64 << z) && (self.y as u64) < (1u64 << z);
        if !in_range {
            return Err(QuadbinError::InvalidCell(None));
        }
        let pad: u64 = 32 - z;
        let mut x: u64 = (self.x as u64) << pad;
        let mut y: u64 = (self.y as u64) << pad;

        x = (x | (x << 16)) & B4;
        y = (y | (y << 16)) & B4;

        x = (x | (x << 8)) & B3;
        y = (y | (y << 8)) & B3;

        x = (x | (x << 4)) & B2;
        y = (y | (y << 4)) & B2;

        x = (x | (x << 2)) & B1;
        y = (y | (y << 2)) & B1;

        x = (x | (x << 1)) & B0;
        y = (y | (y << 1)) & B0;

        let value: u64 = HEADER | (1u64 << 59) | (z << 52) | ((x | (y << 1)) >> 12) | (FOOTER >> (2
            * z));
        proof {
            lemma_encode_properties(self.x as u64, self.y as u64, z);
            lemma_canonical_is_valid(spec_tile_to_cell(self.x as u64, self.y as u64, z));
            assert(value == spec_tile_to_cell(self.x as u64, self.y as u64, z));
        }
        Ok(Cell::from_raw_checked(value))
    }

    /// Packs the tile into a single integer: `(2 * 2^z * y + x) * 32 + z`.
    pub fn to_hash(self) -> (r: u64)
        requires
            self.wf(),
        ensures
            r == ((2 * (1u64 << (self.z as u64)) * (self.y as u64) + (self.x as u64)) * 32) + (
            self.z as u64),
    {
        let x: u64 = self.x as u64;
        let y: u64 = self.y as u64;
        let z: u64 = self.z as u64;
        proof {
            assert(1u64 << z <= 0x400_0000) by (bit_vector)
                requires
                    z <= 26,
            ;
        }
        let dim: u64 = 2 * (1u64 << z);
        assert(dim * y + x < 0x80_0000_0000_0000 && (2 * (1u64 << z) * y + x) == dim * y + x)
            by (bit_vector)
            requires
                z <= 26,
                x < (1u64 << z),
                y < (1u64 << z),
                dim == 2 * (1u64 << z),
        ;
        (dim * y + x) * 32 + z
    }

    /// Unpacks a tile from its hash: the level is the low five bits, then
    /// column and row follow in base `2 * 2^z`.
    pub fn from_hash(tile_hash: u64) -> (r: Tile)
        ensures
            r.z as u64 == tile_hash % 32,
            r.x as u64 == ((tile_hash - tile_hash % 32) / 32) % (2 * (1u64 << (tile_hash % 32))),
            r.y as u64 == (((tile_hash - tile_hash % 32) / 32 - (((tile_hash - tile_hash % 32) / 32)
                % (2 * (1u64 << (tile_hash % 32))))) / (2 * (1u64 << (tile_hash % 32)))) % (2 * (
            1u64 << (tile_hash % 32))),
    {
        let z: u64 = tile_hash % 32;
        proof {
            assert(z <= 31 && z <= tile_hash && 1 <= 1u64 << z <= 0x8000_0000) by (bit_vector)
                requires
                    z == tile_hash % 32,
            ;
        }
        let dim: u64 = 2 * (1u64 << z);
        let xy: u64 = (tile_hash - z) / 32;
        let x: u64 = xy % dim;
        proof {
            assert(x <= xy) by (nonlinear_arith)
                requires
                    x == xy % dim,
                    dim >= 2,
            ;
        }
        let y: u64 = ((xy - x) / dim) % dim;
        assert(x < dim && y < dim && dim <= 0x1_0000_0000);
        Tile { x: x as u32, y: y as u32, z: z as u8 }
    }
}

} // verus!
