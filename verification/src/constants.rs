//! Fixed bit masks and bounds of the Quadbin cell layout.

use vstd::prelude::*;

verus! {

/// Header bit (bit 62) of every cell.
pub const HEADER: u64 = 0x4000_0000_0000_0000;

/// Mask of the 52-bit interleaved payload region (bits 0 to 51).
pub const FOOTER: u64 = 0x000F_FFFF_FFFF_FFFF;

/// Deepest level of the quadtree.
pub const MAX_RESOLUTION: u8 = 26;

/// Morton masks: bits kept after each spread step, widest group last.
pub const B0: u64 = 0x5555_5555_5555_5555;

pub const B1: u64 = 0x3333_3333_3333_3333;

pub const B2: u64 = 0x0F0F_0F0F_0F0F_0F0F;

pub const B3: u64 = 0x00FF_00FF_00FF_00FF;

pub const B4: u64 = 0x0000_FFFF_0000_FFFF;

pub const B5: u64 = 0x0000_0000_FFFF_FFFF;

} // verus!
