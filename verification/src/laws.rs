//! The quantified laws of the codec, each proved once and for all: the
//! encode/decode round trips, the parent and children laws, and the
//! neighbor symmetry and boundary laws.

use vstd::prelude::*;

use crate::cells::{spec_cell_neighbor, spec_cell_to_tile};
use crate::direction::Direction;
use crate::morton::{
    canonical_cell, lemma_canonical_is_valid, lemma_canonical_round_trip, lemma_child_properties,
    lemma_decode_bounds, lemma_encode_properties, lemma_parent_idempotent, lemma_parent_properties,
    spec_cell_resolution, spec_cell_x, spec_cell_y, spec_child_cell, spec_parent_cell,
    spec_tile_to_cell, valid_cell,
};
use crate::tiles::Tile;

verus! {

/// Encode/decode round trip: every tile in range decodes back from its
/// cell unchanged.
pub proof fn lemma_tile_cell_round_trip(t: Tile)
    requires
        t.wf(),
    ensures
        spec_cell_to_tile(spec_tile_to_cell(t.x as u64, t.y as u64, t.z as u64)) == t,
{
    lemma_encode_properties(t.x as u64, t.y as u64, t.z as u64);
}

/// Cell validity round trip: re-encoding the tile of a canonical cell
/// restores the cell bit for bit. A merely valid cell whose footer fill is
/// incomplete re-encodes to its canonical form instead.
pub proof fn lemma_cell_tile_round_trip(v: u64)
    requires
        canonical_cell(v),
    ensures
        ({
            let t = spec_cell_to_tile(v);
            spec_tile_to_cell(t.x as u64, t.y as u64, t.z as u64) == v
        }),
{
    lemma_canonical_is_valid(v);
    lemma_decode_bounds(v);
    assert(1u64 << spec_cell_resolution(v) <= 0x400_0000) by (bit_vector)
        requires
            spec_cell_resolution(v) <= 26,
    ;
    lemma_canonical_round_trip(v);
}

/// The tile of a valid cell lies on the grid of its resolution.
pub proof fn lemma_cell_tile_in_range(v: u64)
    requires
        valid_cell(v),
    ensures
        spec_cell_to_tile(v).wf(),
{
    lemma_decode_bounds(v);
    assert(1u64 << spec_cell_resolution(v) <= 0x400_0000) by (bit_vector)
        requires
            spec_cell_resolution(v) <= 26,
    ;
}

/// Parent law: the parent of a valid cell at a strictly lower resolution
/// is valid, carries that resolution, and taking the parent at the same
/// resolution again changes nothing.
pub proof fn lemma_parent_law(v: u64, p: u64)
    requires
        valid_cell(v),
        p < spec_cell_resolution(v),
    ensures
        valid_cell(spec_parent_cell(v, p)),
        spec_cell_resolution(spec_parent_cell(v, p)) == p,
        spec_parent_cell(spec_parent_cell(v, p), p) == spec_parent_cell(v, p),
        canonical_cell(v) ==> canonical_cell(spec_parent_cell(v, p)),
{
    lemma_parent_properties(v, p);
    lemma_parent_idempotent(v, p);
}

/// Parent containment: every child of a canonical cell has exactly that
/// cell as its parent at the original resolution.
pub proof fn lemma_parent_containment(v: u64, child_res: u64, i: u64)
    requires
        canonical_cell(v),
        spec_cell_resolution(v) < child_res <= 26,
        i < (1u64 << ((2 * (child_res - spec_cell_resolution(v))) as u64)),
    ensures
        spec_parent_cell(spec_child_cell(v, child_res, i), spec_cell_resolution(v)) == v,
        spec_cell_resolution(spec_child_cell(v, child_res, i)) == child_res,
        canonical_cell(spec_child_cell(v, child_res, i)),
{
    lemma_canonical_is_valid(v);
    lemma_child_properties(v, child_res, i);
}

/// Neighbor symmetry: where a canonical cell has a neighbor, that neighbor
/// has the original cell as its own neighbor in the opposite direction.
pub proof fn lemma_neighbor_symmetry(v: u64, direction: Direction)
    requires
        canonical_cell(v),
    ensures
        spec_cell_neighbor(v, direction) matches Some(w) ==> spec_cell_neighbor(
            w,
            direction.spec_opposite(),
        ) == Some(v),
{
    lemma_canonical_is_valid(v);
    lemma_cell_tile_in_range(v);
    let t = spec_cell_to_tile(v);
    if spec_cell_neighbor(v, direction) is Some {
        let t2 = t.spec_neighbor(direction)->Some_0;
        assert(t2.wf() && t2.z == t.z && t.z >= 1);
        let w = spec_tile_to_cell(t2.x as u64, t2.y as u64, t2.z as u64);
        lemma_encode_properties(t2.x as u64, t2.y as u64, t2.z as u64);
        assert(spec_cell_to_tile(w) == t2);
        let z = t.z;
        assert(1u64 << (z as u64) <= 0x400_0000) by (bit_vector)
            requires
                z <= 26,
        ;
        match direction {
            Direction::Up => {
                assert(t2.spec_neighbor(Direction::Down) == Some(t));
            },
            Direction::Right => {
                assert(t2.spec_neighbor(Direction::Left) == Some(t));
            },
            Direction::Left => {
                assert(t2.spec_neighbor(Direction::Right) == Some(t));
            },
            Direction::Down => {
                assert(t2.spec_neighbor(Direction::Up) == Some(t));
            },
        }
        lemma_cell_tile_round_trip(v);
    }
}

/// Neighbor boundary: a neighbor is absent exactly at level 0 or on the
/// boundary row or column the direction points across.
pub proof fn lemma_neighbor_boundary(v: u64, direction: Direction)
    requires
        valid_cell(v),
    ensures
        spec_cell_resolution(v) == 0 ==> spec_cell_neighbor(v, direction) is None,
        direction == Direction::Up ==> ((spec_cell_neighbor(v, direction) is None) <==> (
        spec_cell_resolution(v) == 0 || spec_cell_y(v) == 0)),
        direction == Direction::Left ==> ((spec_cell_neighbor(v, direction) is None) <==> (
        spec_cell_resolution(v) == 0 || spec_cell_x(v) == 0)),
        direction == Direction::Down ==> ((spec_cell_neighbor(v, direction) is None) <==> (
        spec_cell_resolution(v) == 0 || spec_cell_y(v) + 1 == 1u64 << spec_cell_resolution(v))),
        direction == Direction::Right ==> ((spec_cell_neighbor(v, direction) is None) <==> (
        spec_cell_resolution(v) == 0 || spec_cell_x(v) + 1 == 1u64 << spec_cell_resolution(v))),
{
    lemma_cell_tile_in_range(v);
    lemma_decode_bounds(v);
    assert(1u64 << spec_cell_resolution(v) <= 0x400_0000) by (bit_vector)
        requires
            spec_cell_resolution(v) <= 26,
    ;
}

/// Packing a tile into its hash and unpacking the hash restores the tile:
/// the level comes back from the low five bits and the coordinates from
/// the base-`2 * 2^z` digits above them.
pub proof fn lemma_tile_hash_round_trip(t: Tile)
    requires
        t.wf(),
    ensures
        ({
            let z = t.z as u64;
            let dim = 2 * (1u64 << z);
            let h = (dim * (t.y as u64) + (t.x as u64)) * 32 + z;
            &&& h % 32 == z
            &&& ((h - h % 32) / 32) % dim == t.x as u64
            &&& (((h - h % 32) / 32 - ((h - h % 32) / 32) % dim) / dim) % dim == t.y as u64
        }),
{
    let x = t.x as u64;
    let y = t.y as u64;
    let z = t.z as u64;
    assert(1u64 << z >= 1 && x < 1u64 << z && y < 1u64 << z) by (bit_vector)
        requires
            z <= 26,
            x < 1u64 << z,
            y < 1u64 << z,
    ;
    let dim = 2 * (1u64 << z) as int;
    let k = dim * y + x;
    let h = k * 32 + z;
    vstd::arithmetic::div_mod::lemma_mod_multiples_vanish(k, z as int, 32);
    vstd::arithmetic::div_mod::lemma_small_mod(z as nat, 32);
    assert(h % 32 == z);
    assert(h - z == 32 * k) by (nonlinear_arith)
        requires
            h == k * 32 + z,
    ;
    vstd::arithmetic::div_mod::lemma_div_multiples_vanish(k, 32);
    assert((h - h % 32) / 32 == k);
    vstd::arithmetic::div_mod::lemma_mod_multiples_vanish(y as int, x as int, dim);
    vstd::arithmetic::div_mod::lemma_small_mod(x as nat, dim as nat);
    assert(k % dim == x);
    vstd::arithmetic::div_mod::lemma_div_multiples_vanish(y as int, dim);
    assert((k - x) / dim == y);
    vstd::arithmetic::div_mod::lemma_small_mod(y as nat, dim as nat);
}

} // verus!
