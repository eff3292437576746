//! Quadbin cells: validated 64-bit indices of Web-Mercator quadtree tiles,
//! with the hierarchical operations parent, children and neighbors.

use vstd::prelude::*;

use crate::constants::{B0, B1, B2, B3, B4, B5, FOOTER, HEADER, MAX_RESOLUTION};
use crate::direction::Direction;
use crate::errors::QuadbinError;
use crate::morton::{
    canonical_cell, lemma_child_injective, lemma_child_properties, lemma_decode_bounds,
    lemma_encode_properties, lemma_parent_properties, spec_cell_resolution, spec_cell_x,
    spec_cell_y, spec_child_cell, spec_footer_check_mask, spec_parent_cell, spec_tile_to_cell,
    valid_cell,
};
use crate::tiles::Tile;

verus! {

/// Decides whether a raw 64-bit value is a well-formed Quadbin cell:
/// header bit set, mode field 1, resolution at most 26, and the unused
/// low payload bits all ones.
pub fn is_valid_cell(value: u64) -> (r: bool)
    ensures
        r == valid_cell(value),
{
    let header_ok: bool = value & HEADER == HEADER;
    let mode: u64 = (value >> 59) & 7;
    let resolution: u64 = (value >> 52) & 0x1F;
    proof {
        assert(resolution <= 31) by (bit_vector)
            requires
                resolution == (value >> 52) & 0x1F,
        ;
    }
    let shift: u64 = resolution * 4;
    let unused: u64 = if shift >= 64 {
        0
    } else {
        FOOTER >> shift
    };
    proof {
        assert(unused == spec_footer_check_mask(resolution));
    }
    header_ok && mode == 1 && resolution <= 26 && (value & unused == unused)
}

/// The raw cell value adjacent to `v` in a direction: the neighbor tile
/// re-encoded, or nothing at the quadtree boundary.
pub open spec fn spec_cell_neighbor(v: u64, direction: Direction) -> Option<u64> {
    match spec_cell_to_tile(v).spec_neighbor(direction) {
        Some(t) => Some(spec_tile_to_cell(t.x as u64, t.y as u64, t.z as u64)),
        None => None,
    }
}

/// The tile whose coordinates and resolution a raw cell value carries.
pub open spec fn spec_cell_to_tile(v: u64) -> Tile {
    Tile {
        x: spec_cell_x(v) as u32,
        y: spec_cell_y(v) as u32,
        z: spec_cell_resolution(v) as u8,
    }
}

/// How an optional neighbor cell relates to the raw value it was derived
/// from: present exactly when the neighbor tile exists, and then carrying
/// its canonical encoding.
pub open spec fn matches_neighbor(r: Option<Cell>, v: u64, direction: Direction) -> bool {
    &&& (r is Some) == (spec_cell_neighbor(v, direction) is Some)
    &&& (r matches Some(c) ==> Some(c.spec_get()) == spec_cell_neighbor(v, direction)
        && canonical_cell(c.spec_get()) && spec_cell_resolution(c.spec_get())
        == spec_cell_resolution(v))
}

/// A cell of the Quadbin grid at a particular resolution.
///
/// The index is a 64-bit value laid out as follows (bit 63 first):
///
/// ```text
///  bit 63      reserved, 0
///  bit 62      header, 1
///  bits 59-61  mode, fixed to 1
///  bits 52-56  resolution, 0 to 26
///  bits 0-51   tile x and y interleaved in Morton order, over a footer
///              fill of ones in the unused low bits
/// ```
///
/// Every value of this type passes [`is_valid_cell`].
#[derive(Clone, Copy, Debug, PartialEq, Eq, Hash, Structural)]
pub struct Cell {
    value: u64,
}

impl Cell {
    #[verifier::type_invariant]
    spec fn inv(self) -> bool {
        valid_cell(self.value)
    }

    /// The raw 64-bit value of the cell.
    pub closed spec fn spec_get(self) -> u64 {
        self.value
    }

    /// Two cells are equal exactly when their raw values are.
    pub proof fn lemma_eq_is_raw_eq(a: Cell, b: Cell)
        ensures
            (a == b) <==> (a.spec_get() == b.spec_get()),
    {
    }

    /// Wraps a raw value that is already known to be valid.
    pub(crate) fn from_raw_checked(value: u64) -> (c: Cell)
        requires
            valid_cell(value),
        ensures
            c.spec_get() == value,
    {
        Cell { value }
    }

    /// Validates a raw 64-bit value and wraps it; an invalid value is
    /// rejected as [`QuadbinError::InvalidCell`] carrying that value.
    pub fn try_from(value: u64) -> (r: Result<Cell, QuadbinError>)
        ensures
            r is Ok <==> valid_cell(value),
            r matches Ok(c) ==> c.spec_get() == value,
            !valid_cell(value) ==> r == Err::<Cell, QuadbinError>(
                QuadbinError::InvalidCell(Some(value)),
            ),
    {
        if is_valid_cell(value) {
            Ok(Cell { value })
        } else {
            Err(QuadbinError::InvalidCell(Some(value)))
        }
    }

    /// Wraps a valid raw value. A shortcut for [`Cell::try_from`] on input
    /// already known to pass [`is_valid_cell`].
    pub fn new(value: u64) -> (c: Cell)
        requires
            valid_cell(value),
        ensures
            c.spec_get() == value,
    {
        Cell { value }
    }

    /// Returns the raw 64-bit value of the cell.
    pub fn get(&self) -> (r: u64)
        ensures
            r == self.spec_get(),
            valid_cell(r),
    {
        proof {
            use_type_invariant(self);
        }
        self.value
    }

    /// Reports whether the carried value passes cell validation; it always
    /// does, since construction validates.
    pub fn is_valid(&self) -> (r: bool)
        ensures
            r == valid_cell(self.spec_get()),
    {
        is_valid_cell(self.get())
    }

    /// Returns the resolution of the cell index.
    pub fn resolution(&self) -> (r: u8)
        ensures
            r as u64 == spec_cell_resolution(self.spec_get()),
            r <= 26,
    {
        proof {
            use_type_invariant(self);
        }
        ((self.value >> 52) & 0x1F) as u8
    }

    /// Decodes the cell into its tile: the resolution field and the Morton
    /// deinterleave of the payload.
    pub fn to_tile(&self) -> (t: Tile)
        ensures
            t == spec_cell_to_tile(self.spec_get()),
            t.wf(),
    {
        proof {
            use_type_invariant(self);
            lemma_decode_bounds(self.value);
        }
        let v: u64 = self.value;
        let z: u64 = (v >> 52) & 0x1F;
        let q: u64 = (v & FOOTER) << 12;
        let mut x: u64 = q;
        let mut y: u64 = q >> 1;

        x = x & B0;
        y = y & B0;

        x = (x | (x >> 1)) & B1;
        y = (y | (y >> 1)) & B1;

        x = (x | (x >> 2)) & B2;
        y = (y | (y >> 2)) & B2;

        x = (x | (x >> 4)) & B3;
        y = (y | (y >> 4)) & B3;

        x = (x | (x >> 8)) & B4;
        y = (y | (y >> 8)) & B4;

        x = (x | (x >> 16)) & B5;
        y = (y | (y >> 16)) & B5;

        x = x >> (32 - z);
        y = y >> (32 - z);

        proof {
            assert(1u64 << spec_cell_resolution(v) <= 0x400_0000) by (bit_vector)
                requires
                    spec_cell_resolution(v) <= 26,
            ;
        }
        Tile { x: x as u32, y: y as u32, z: z as u8 }
    }

    /// Computes the parent cell at resolution `parent_res`, which must lie
    /// strictly below the cell's own resolution.
    pub fn parent(&self, parent_res: u8) -> (r: Result<Cell, QuadbinError>)
        ensures
            r is Ok <==> (parent_res as u64) < spec_cell_resolution(self.spec_get()),
            r matches Ok(p) ==> p.spec_get() == spec_parent_cell(
                self.spec_get(),
                parent_res as u64,
            ),
            r matches Ok(p) ==> spec_cell_resolution(p.spec_get()) == parent_res as u64,
            r matches Ok(p) ==> (canonical_cell(self.spec_get()) ==> canonical_cell(p.spec_get())),
            !((parent_res as u64) < spec_cell_resolution(self.spec_get())) ==> r == Err::<
                Cell,
                QuadbinError,
            >(QuadbinError::InvalidResolution(parent_res)),
    {
        let res = self.resolution();
        if parent_res >= res {
            return Err(QuadbinError::InvalidResolution(parent_res));
        }
        proof {
            use_type_invariant(self);
            lemma_parent_properties(self.value, parent_res as u64);
        }
        let pr: u64 = parent_res as u64;
        let value: u64 = (self.value & !(0x1Fu64 << 52)) | (pr << 52) | (FOOTER >> (2 * pr));
        Ok(Cell { value })
    }

    /// Lists the children at resolution `child_res`, which must lie
    /// strictly above the cell's own resolution and at most at 26. The
    /// `4^(child_res - res)` children come in ascending Morton-suffix
    /// order and are pairwise distinct.
    pub fn children(&self, child_res: u8) -> (r: Result<Vec<Cell>, QuadbinError>)
        ensures
            r is Ok <==> spec_cell_resolution(self.spec_get()) < child_res as u64 && child_res
                <= 26,
            r matches Err(e) ==> e == QuadbinError::InvalidResolution(child_res),
            r matches Ok(kids) ==> {
                let v = self.spec_get();
                let res = spec_cell_resolution(v);
                &&& kids@.len() == 1u64 << ((2 * (child_res as u64 - res)) as u64)
                &&& forall|i: int|
                    0 <= i < kids@.len() ==> (#[trigger] kids@[i]).spec_get() == spec_child_cell(
                        v,
                        child_res as u64,
                        i as u64,
                    )
                &&& forall|i: int|
                    0 <= i < kids@.len() ==> spec_cell_resolution(
                        (#[trigger] kids@[i]).spec_get(),
                    ) == child_res as u64
                &&& (canonical_cell(v) ==> forall|i: int|
                    0 <= i < kids@.len() ==> canonical_cell((#[trigger] kids@[i]).spec_get()))
                &&& forall|i: int, j: int|
                    #![trigger kids@[i], kids@[j]]
                    0 <= i < j < kids@.len() ==> kids@[i] != kids@[j]
            },
    {
        let res = self.resolution();
        if child_res > MAX_RESOLUTION {
            return Err(QuadbinError::InvalidResolution(child_res));
        }
        if child_res <= res {
            return Err(QuadbinError::InvalidResolution(child_res));
        }
        proof {
            use_type_invariant(self);
        }
        let ghost v: u64 = self.value;
        let res64: u64 = res as u64;
        let cr: u64 = child_res as u64;
        let delta2: u64 = 2 * (cr - res64);
        let count: u64 = 1u64 << delta2;
        let base: u64 = (self.value & !(0x1Fu64 << 52) & !(FOOTER >> (2 * res64))) | (cr << 52) | (
        FOOTER >> (2 * cr));
        let shift: u64 = 52 - 2 * cr;
        let mut kids: Vec<Cell> = Vec::new();
        let mut i: u64 = 0;
        proof {
            assert(count <= 0x10_0000_0000_0000) by (bit_vector)
                requires
                    count == 1u64 << delta2,
                    delta2 <= 52,
            ;
        }
        while i < count
            invariant
                valid_cell(v),
                self.spec_get() == v,
                spec_cell_resolution(v) == res64,
                res64 < cr <= 26,
                delta2 == 2 * (cr - res64),
                count == 1u64 << delta2,
                base == (v & !(0x1Fu64 << 52) & !(FOOTER >> ((2 * res64) as u64))) | (cr << 52) | (
                FOOTER >> ((2 * cr) as u64)),
                shift == 52 - 2 * cr,
                i <= count,
                kids@.len() == i,
                forall|j: int|
                    0 <= j < i ==> (#[trigger] kids@[j]).spec_get() == spec_child_cell(
                        v,
                        cr,
                        j as u64,
                    ),
            decreases count - i,
        {
            let value: u64 = base | (i << shift);
            proof {
                lemma_child_properties(v, cr, i);
                assert(value == spec_child_cell(v, cr, i)) by (bit_vector)
                    requires
                        value == base | (i << shift),
                        base == (v & !(0x1Fu64 << 52) & !(FOOTER >> ((2 * res64) as u64))) | (cr
                            << 52) | (FOOTER >> ((2 * cr) as u64)),
                        shift == 52 - 2 * cr,
                        res64 == spec_cell_resolution(v),
                        res64 < cr <= 26,
                ;
            }
            kids.push(Cell { value });
            i = i + 1;
        }
        proof {
            assert forall|i: int, j: int|
                #![trigger kids@[i], kids@[j]]
                0 <= i < j < kids@.len() implies kids@[i] != kids@[j] by {
                lemma_child_injective(v, cr, i as u64, j as u64);
            }
            assert forall|i: int| 0 <= i < kids@.len() implies spec_cell_resolution(
                (#[trigger] kids@[i]).spec_get(),
            ) == cr by {
                lemma_child_properties(v, cr, i as u64);
            }
            if canonical_cell(v) {
                assert forall|i: int| 0 <= i < kids@.len() implies canonical_cell(
                    (#[trigger] kids@[i]).spec_get(),
                ) by {
                    lemma_child_properties(v, cr, i as u64);
                }
            }
        }
        Ok(kids)
    }

    /// Finds the cell's neighbor in a direction, or `None` at the
    /// quadtree boundary. Neighbors do not wrap on longitude, and the
    /// single level-0 cell has none.
    pub fn neighbor(&self, direction: Direction) -> (r: Option<Cell>)
        ensures
            matches_neighbor(r, self.spec_get(), direction),
    {
        let tile = self.to_tile();
        match tile.neighbor(direction) {
            None => None,
            Some(t) => {
                proof {
                    lemma_encode_properties(t.x as u64, t.y as u64, t.z as u64);
                    let ghost v: u64 = self.spec_get();
                    assert(spec_cell_resolution(v) <= 31) by (bit_vector)
                        requires
                            spec_cell_resolution(v) == (v >> 52) & 0x1F,
                    ;
                }
                match t.to_cell() {
                    Ok(c) => Some(c),
                    Err(_) => None,
                }
            },
        }
    }

    /// Finds the cell's sibling in a direction; an alias of
    /// [`Cell::neighbor`].
    pub fn sibling(&self, direction: Direction) -> (r: Option<Cell>)
        ensures
            matches_neighbor(r, self.spec_get(), direction),
    {
        self.neighbor(direction)
    }

    /// Lists the neighbors in all four directions, in ordinal order
    /// `[Up, Right, Left, Down]`; a slot is `None` where the grid ends.
    pub fn neighbors(&self) -> (r: [Option<Cell>; 4])
        ensures
            matches_neighbor(r[0], self.spec_get(), Direction::Up),
            matches_neighbor(r[1], self.spec_get(), Direction::Right),
            matches_neighbor(r[2], self.spec_get(), Direction::Left),
            matches_neighbor(r[3], self.spec_get(), Direction::Down),
    {
        [
            self.neighbor(Direction::Up),
            self.neighbor(Direction::Right),
            self.neighbor(Direction::Left),
            self.neighbor(Direction::Down),
        ]
    }
}

} // verus!
