//! The 64-bit cell layout: Morton (Z-order) interleave of two tile
//! coordinates, header, resolution and footer-fill fields, together with the
//! proofs that encoding and decoding invert each other.
//!
//! Encoding left-pads each coordinate to 32 bits, spreads its bits to the
//! even positions of a 64-bit word by masked shifts, merges the two spread
//! words, and aligns the interleave into bits 0 to 51. Decoding runs the
//! same steps backwards.

use vstd::prelude::*;

use crate::constants::{B0, B1, B2, B3, B4, B5, FOOTER, HEADER};

verus! {

/// Spreads the low 32 bits of `x` to the even bit positions: bit `k` of the
/// input lands on bit `2 * k` of the result.
pub open spec fn spread(x: u64) -> u64 {
    let a = (x | (x << 16)) & B4;
    let b = (a | (a << 8)) & B3;
    let c = (b | (b << 4)) & B2;
    let d = (c | (c << 2)) & B1;
    (d | (d << 1)) & B0
}

/// Gathers the even bit positions of `q` into the low 32 bits: bit `2 * k`
/// of the input lands on bit `k` of the result.
pub open spec fn compact(q: u64) -> u64 {
    let a = q & B0;
    let b = (a | (a >> 1)) & B1;
    let c = (b | (b >> 2)) & B2;
    let d = (c | (c >> 4)) & B3;
    let e = (d | (d >> 8)) & B4;
    (e | (e >> 16)) & B5
}

/// The cell value that encodes tile `(x, y)` at resolution `z`: header and
/// mode bits, the resolution field, the Morton interleave of the left-padded
/// coordinates in the high part of the payload, and the footer fill of ones
/// below it.
pub open spec fn spec_tile_to_cell(x: u64, y: u64, z: u64) -> u64
    recommends
        z <= 26,
        x < (1u64 << z),
        y < (1u64 << z),
{
    let xs = spread(x << ((32 - z) as u64));
    let ys = spread(y << ((32 - z) as u64));
    HEADER | (1u64 << 59) | (z << 52) | ((xs | (ys << 1)) >> 12) | (FOOTER >> ((2 * z) as u64))
}

/// The resolution field of a raw cell value.
pub open spec fn spec_cell_resolution(v: u64) -> u64 {
    (v >> 52) & 0x1F
}

/// The x tile coordinate carried by a raw cell value.
pub open spec fn spec_cell_x(v: u64) -> u64 {
    compact((v & FOOTER) << 12) >> ((32 - spec_cell_resolution(v)) as u64)
}

/// The y tile coordinate carried by a raw cell value.
pub open spec fn spec_cell_y(v: u64) -> u64 {
    compact(((v & FOOTER) << 12) >> 1) >> ((32 - spec_cell_resolution(v)) as u64)
}

/// The unused-bit mask that validation checks: the low `52 - 4 * res` bits
/// of the payload region, or nothing once `4 * res` reaches the word width.
pub open spec fn spec_footer_check_mask(res: u64) -> u64 {
    if res <= 15 {
        FOOTER >> ((4 * res) as u64)
    } else {
        0
    }
}

/// A raw 64-bit value passes cell validation: header bit set, mode field 1,
/// resolution at most 26, and the checked footer bits all ones.
pub open spec fn valid_cell(v: u64) -> bool {
    let res = spec_cell_resolution(v);
    &&& v & HEADER == HEADER
    &&& (v >> 59) & 7 == 1
    &&& res <= 26
    &&& v & spec_footer_check_mask(res) == spec_footer_check_mask(res)
}

/// A raw 64-bit value in the canonical form that encoding produces: reserved
/// bit clear, header bit set, mode field 1, the two bits below the
/// resolution field clear, resolution at most 26, and the full footer fill
/// of `52 - 2 * res` ones. Exactly the canonical values survive a decode
/// followed by an encode unchanged.
pub open spec fn canonical_cell(v: u64) -> bool {
    let res = spec_cell_resolution(v);
    &&& v >> 62 == 1
    &&& (v >> 59) & 7 == 1
    &&& (v >> 57) & 3 == 0
    &&& res <= 26
    &&& v & (FOOTER >> ((2 * res) as u64)) == FOOTER >> ((2 * res) as u64)
}

/// The cell value of the ancestor at resolution `parent_res`: the
/// resolution field is rewritten and the footer fill widened to the
/// parent's; the surviving high payload bits are exactly the parent's
/// Morton interleave.
pub open spec fn spec_parent_cell(v: u64, parent_res: u64) -> u64
    recommends
        parent_res <= 26,
{
    (v & !(0x1Fu64 << 52)) | (parent_res << 52) | (FOOTER >> ((2 * parent_res) as u64))
}

/// The `i`-th child at resolution `child_res`, in Morton-suffix order: the
/// parent's footer fill is cleared, the suffix `i` appended below the
/// parent's Morton prefix, and the resolution and footer fill rewritten.
pub open spec fn spec_child_cell(v: u64, child_res: u64, i: u64) -> u64
    recommends
        spec_cell_resolution(v) < child_res <= 26,
        i < (1u64 << ((2 * (child_res - spec_cell_resolution(v))) as u64)),
{
    let res = spec_cell_resolution(v);
    (v & !(0x1Fu64 << 52) & !(FOOTER >> ((2 * res) as u64))) | (child_res << 52) | (i << ((52 - 2
        * child_res) as u64)) | (FOOTER >> ((2 * child_res) as u64))
}

/// Taking the parent of a valid cell at a strictly lower resolution yields
/// a valid cell at that resolution, and keeps the value canonical when it
/// was.
pub proof fn lemma_parent_properties(v: u64, p: u64)
    requires
        valid_cell(v),
        p < spec_cell_resolution(v),
    ensures
        valid_cell(spec_parent_cell(v, p)),
        spec_cell_resolution(spec_parent_cell(v, p)) == p,
        canonical_cell(v) ==> canonical_cell(spec_parent_cell(v, p)),
{
    assert(valid_cell(spec_parent_cell(v, p)) && spec_cell_resolution(spec_parent_cell(v, p)) == p
        && (canonical_cell(v) ==> canonical_cell(spec_parent_cell(v, p)))) by (bit_vector)
        requires
            valid_cell(v),
            p < spec_cell_resolution(v),
    ;
}

/// The parent formula is idempotent: applied a second time at the same
/// resolution it returns the same value.
pub proof fn lemma_parent_idempotent(v: u64, p: u64)
    requires
        p <= 26,
    ensures
        spec_parent_cell(spec_parent_cell(v, p), p) == spec_parent_cell(v, p),
{
    assert(spec_parent_cell(spec_parent_cell(v, p), p) == spec_parent_cell(v, p)) by (bit_vector)
        requires
            p <= 26,
    ;
}

/// Ancestors compose: the parent at `q` of the parent at `p` is the parent
/// at `q`, for `q` at or below `p`.
pub proof fn lemma_parent_transitive(v: u64, p: u64, q: u64)
    requires
        q <= p <= 26,
    ensures
        spec_parent_cell(spec_parent_cell(v, p), q) == spec_parent_cell(v, q),
{
    assert(spec_parent_cell(spec_parent_cell(v, p), q) == spec_parent_cell(v, q)) by (bit_vector)
        requires
            q <= p <= 26,
    ;
}

/// Each child of a valid cell is valid, carries the child resolution, keeps
/// canonicity, stores its Morton suffix recoverably, and — for a canonical
/// parent — has exactly that parent at the original resolution.
pub proof fn lemma_child_properties(v: u64, cr: u64, i: u64)
    requires
        valid_cell(v),
        spec_cell_resolution(v) < cr <= 26,
        i < (1u64 << ((2 * (cr - spec_cell_resolution(v))) as u64)),
    ensures
        valid_cell(spec_child_cell(v, cr, i)),
        spec_cell_resolution(spec_child_cell(v, cr, i)) == cr,
        canonical_cell(v) ==> canonical_cell(spec_child_cell(v, cr, i)),
        (spec_child_cell(v, cr, i) >> ((52 - 2 * cr) as u64)) & (((1u64 << ((2 * (cr
            - spec_cell_resolution(v))) as u64)) - 1) as u64) == i,
        canonical_cell(v) ==> spec_parent_cell(spec_child_cell(v, cr, i), spec_cell_resolution(v))
            == v,
{
    assert(valid_cell(spec_child_cell(v, cr, i)) && spec_cell_resolution(spec_child_cell(v, cr, i))
        == cr && (canonical_cell(v) ==> canonical_cell(spec_child_cell(v, cr, i))) && (
    spec_child_cell(v, cr, i) >> ((52 - 2 * cr) as u64)) & (((1u64 << ((2 * (cr
        - spec_cell_resolution(v))) as u64)) - 1) as u64) == i && (canonical_cell(v)
        ==> spec_parent_cell(spec_child_cell(v, cr, i), spec_cell_resolution(v)) == v))
        by (bit_vector)
        requires
            valid_cell(v),
            spec_cell_resolution(v) < cr <= 26,
            i < (1u64 << ((2 * (cr - spec_cell_resolution(v))) as u64)),
    ;
}

/// Distinct Morton suffixes give distinct children.
pub proof fn lemma_child_injective(v: u64, cr: u64, i: u64, j: u64)
    requires
        valid_cell(v),
        spec_cell_resolution(v) < cr <= 26,
        i < (1u64 << ((2 * (cr - spec_cell_resolution(v))) as u64)),
        j < (1u64 << ((2 * (cr - spec_cell_resolution(v))) as u64)),
        i != j,
    ensures
        spec_child_cell(v, cr, i) != spec_child_cell(v, cr, j),
{
    lemma_child_properties(v, cr, i);
    lemma_child_properties(v, cr, j);
}

/// The spread of a single byte: bit `k` of the input lands on bit `2 * k`
/// of a 16-bit word.
pub open spec fn spread_byte(x: u16) -> u16 {
    let a = (x | (x << 4)) & 0x0F0F;
    let b = (a | (a << 2)) & 0x3333;
    (b | (b << 1)) & 0x5555
}

/// The even-position bits of a byte, gathered into its low nibble.
pub open spec fn even_bits_of_byte(x: u8) -> u8 {
    (x & 1) | (((x >> 2) & 1) << 1) | (((x >> 4) & 1) << 2) | (((x >> 6) & 1) << 3)
}

/// The odd-position bits of a byte, gathered into its low nibble.
pub open spec fn odd_bits_of_byte(x: u8) -> u8 {
    ((x >> 1) & 1) | (((x >> 3) & 1) << 1) | (((x >> 5) & 1) << 2) | (((x >> 7) & 1) << 3)
}

/// The byte-wide spread agrees with the low 16 bits of the word-wide one.
pub proof fn lemma_spread_byte_consistent(x: u8)
    ensures
        spread_byte(x as u16) as u64 == spread(x as u64),
{
    assert(spread_byte(x as u16) as u64 == spread(x as u64)) by (bit_vector);
}

/// The byte-wide gathers agree with the word-wide one on a byte.
pub proof fn lemma_gather_byte_consistent(x: u8)
    ensures
        even_bits_of_byte(x) as u64 == compact(x as u64),
        odd_bits_of_byte(x) as u64 == compact((x as u64) >> 1),
{
    assert(even_bits_of_byte(x) as u64 == compact(x as u64) && odd_bits_of_byte(x) as u64
        == compact((x as u64) >> 1)) by (bit_vector);
}

/// Precomputes the interleaved value of every byte: entry `i` is the
/// spread of `i`, ready to be merged into a Morton word 8 bits at a time.
pub fn interleave_table() -> (r: Vec<u16>)
    ensures
        r@.len() == 256,
        forall|i: int| 0 <= i < 256 ==> r@[i] == spread_byte(i as u16),
{
    let mut table: Vec<u16> = Vec::new();
    let mut i: u16 = 0;
    while i < 256
        invariant
            i <= 256,
            table@.len() == i,
            forall|j: int| 0 <= j < i ==> table@[j] == spread_byte(j as u16),
        decreases 256 - i,
    {
        let mut x: u16 = i;
        x = (x | (x << 4)) & 0x0F0F;
        x = (x | (x << 2)) & 0x3333;
        x = (x | (x << 1)) & 0x5555;
        table.push(x);
        i = i + 1;
    }
    table
}

/// Precomputes the deinterleave of every byte: entry `i` of the first
/// table holds the even-position bits of `i`, entry `i` of the second the
/// odd-position ones, each gathered into a nibble.
pub fn deinterleave_table() -> (r: (Vec<u8>, Vec<u8>))
    ensures
        r.0@.len() == 256,
        r.1@.len() == 256,
        forall|i: int| 0 <= i < 256 ==> r.0@[i] == even_bits_of_byte(i as u8),
        forall|i: int| 0 <= i < 256 ==> r.1@[i] == odd_bits_of_byte(i as u8),
{
    let mut even: Vec<u8> = Vec::new();
    let mut odd: Vec<u8> = Vec::new();
    let mut i: u16 = 0;
    while i < 256
        invariant
            i <= 256,
            even@.len() == i,
            odd@.len() == i,
            forall|j: int| 0 <= j < i ==> even@[j] == even_bits_of_byte(j as u8),
            forall|j: int| 0 <= j < i ==> odd@[j] == odd_bits_of_byte(j as u8),
        decreases 256 - i,
    {
        let v: u8 = i as u8;
        let even_val: u8 = (v & 1) | (((v >> 2) & 1) << 1) | (((v >> 4) & 1) << 2) | (((v >> 6) & 1)
            << 3);
        let odd_val: u8 = ((v >> 1) & 1) | (((v >> 3) & 1) << 1) | (((v >> 5) & 1) << 2) | (((v
            >> 7) & 1) << 3);
        proof {
            assert(even_val == even_bits_of_byte(i as u8) && odd_val == odd_bits_of_byte(i as u8));
        }
        even.push(even_val);
        odd.push(odd_val);
        i = i + 1;
    }
    (even, odd)
}

/// Every canonical value passes validation: the checked footer bits are a
/// subset of the canonical fill.
pub proof fn lemma_canonical_is_valid(v: u64)
    requires
        canonical_cell(v),
    ensures
        valid_cell(v),
{
    assert(valid_cell(v)) by (bit_vector)
        requires
            canonical_cell(v),
    ;
}

/// Encoding a tile in range yields a canonical cell that carries exactly the
/// given resolution and coordinates.
pub proof fn lemma_encode_properties(x: u64, y: u64, z: u64)
    requires
        z <= 26,
        x < (1u64 << z),
        y < (1u64 << z),
    ensures
        canonical_cell(spec_tile_to_cell(x, y, z)),
        spec_cell_resolution(spec_tile_to_cell(x, y, z)) == z,
        spec_cell_x(spec_tile_to_cell(x, y, z)) == x,
        spec_cell_y(spec_tile_to_cell(x, y, z)) == y,
{
    assert(canonical_cell(spec_tile_to_cell(x, y, z)) && spec_cell_resolution(
        spec_tile_to_cell(x, y, z),
    ) == z) by (bit_vector)
        requires
            z <= 26,
            x < (1u64 << z),
            y < (1u64 << z),
    ;
    assert(spec_cell_x(spec_tile_to_cell(x, y, z)) == x) by (bit_vector)
        requires
            z <= 26,
            x < (1u64 << z),
            y < (1u64 << z),
    ;
    assert(spec_cell_y(spec_tile_to_cell(x, y, z)) == y) by (bit_vector)
        requires
            z <= 26,
            x < (1u64 << z),
            y < (1u64 << z),
    ;
}

/// The coordinates decoded from a valid cell lie below `2^res`.
pub proof fn lemma_decode_bounds(v: u64)
    requires
        valid_cell(v),
    ensures
        spec_cell_x(v) < (1u64 << spec_cell_resolution(v)),
        spec_cell_y(v) < (1u64 << spec_cell_resolution(v)),
{
    assert(spec_cell_x(v) < (1u64 << spec_cell_resolution(v)) && spec_cell_y(v) < (1u64
        << spec_cell_resolution(v))) by (bit_vector)
        requires
            spec_cell_resolution(v) <= 26,
    ;
}

/// Re-encoding the tile decoded from a canonical cell restores the cell
/// bit for bit.
pub proof fn lemma_canonical_round_trip(v: u64)
    requires
        canonical_cell(v),
    ensures
        spec_tile_to_cell(spec_cell_x(v), spec_cell_y(v), spec_cell_resolution(v)) == v,
{
    assert(spec_tile_to_cell(spec_cell_x(v), spec_cell_y(v), spec_cell_resolution(v)) == v)
        by (bit_vector)
        requires
            canonical_cell(v),
    ;
}

} // verus!
