use quadbin::morton::{deinterleave_table, interleave_table};
use quadbin::{cells::is_valid_cell, Cell, Direction, Tile};

// Encode/decode round trip, including the deepest level and the far
// corners of each grid.
#[test]
fn test_round_trip_corners() {
    for z in 0..=26_u8 {
        let max = (1u32 << z) - 1;
        let corners = [
            Tile::new(0, 0, z),
            Tile::new(max, 0, z),
            Tile::new(0, max, z),
            Tile::new(max, max, z),
        ];
        for t in corners.iter() {
            let cell = t.to_cell().expect("cell index");
            assert_eq!(cell.to_tile(), *t);
            assert_eq!(cell.resolution(), z);
        }
    }
}

// Cell validity round trip: re-encoding a decoded cell restores it.
#[test]
fn test_cell_round_trip() {
    let cases: [u64; 5] = [
        5192650370358181887,
        5202361257054699519,
        5209574053332910079,
        5234261499580514303,
        5291729562728627583,
    ];
    for raw in cases.iter() {
        let cell = Cell::try_from(*raw).expect("cell index");
        assert_eq!(cell.to_tile().to_cell().expect("cell index"), cell);
    }
}

// Validation checks only part of the footer fill, so a value with a hole
// higher in the fill is accepted; decoding ignores those bits, and
// re-encoding restores the canonical form rather than the value itself.
#[test]
fn test_non_canonical_valid_cell() {
    // The golden resolution-4 cell with payload bit 40 cleared.
    let raw = 5209574053332910079_u64 - (1 << 40);
    let cell = Cell::try_from(raw).expect("cell index");
    assert_eq!(
        cell.to_tile().to_cell().expect("cell index"),
        Cell::new(5209574053332910079)
    );
}

// A tile off its grid, or too deep, is rejected.
#[test]
fn test_tile_out_of_range() {
    assert!(Tile::new(0, 0, 27).to_cell().is_err());
    assert!(Tile::new(16, 0, 4).to_cell().is_err());
    assert!(Tile::new(0, 16, 4).to_cell().is_err());
    assert!(Tile::new(15, 15, 4).to_cell().is_ok());
}

// Parent has the asked-for resolution, and parenting twice changes
// nothing more: the parent at the same resolution again is rejected, and
// going through an intermediate resolution gives the same ancestor.
#[test]
fn test_parent_resolutions() {
    let cell = Cell::new(5234261499580514303);
    for p in 0..10_u8 {
        let parent = cell.parent(p).expect("cell index");
        assert_eq!(parent.resolution(), p);
        assert!(parent.parent(p).is_err());
        for q in 0..p {
            assert_eq!(
                parent.parent(q).expect("cell index"),
                cell.parent(q).expect("cell index")
            );
        }
    }
}

// Children count, distinctness, resolution and containment.
#[test]
fn test_children_properties() {
    let cell = Cell::new(5209574053332910079);
    let res = cell.resolution();
    for delta in 1..=3_u8 {
        let kids = cell.children(res + delta).expect("cell index");
        assert_eq!(kids.len(), 4_usize.pow(delta as u32));
        for (i, kid) in kids.iter().enumerate() {
            assert_eq!(kid.resolution(), res + delta);
            assert_eq!(kid.parent(res).expect("cell index"), cell);
            for other in kids.iter().skip(i + 1) {
                assert_ne!(*kid, *other);
            }
        }
    }
}

// Neighbor symmetry in all four directions.
#[test]
fn test_neighbor_symmetry() {
    let cases: [u64; 3] = [
        5209574053332910079,
        5234261499580514303,
        5194902170171867135,
    ];
    let pairs = [
        (Direction::Up, Direction::Down),
        (Direction::Down, Direction::Up),
        (Direction::Left, Direction::Right),
        (Direction::Right, Direction::Left),
    ];
    for raw in cases.iter() {
        let cell = Cell::new(*raw);
        for (there, back) in pairs.iter() {
            if let Some(d) = cell.neighbor(*there) {
                assert_eq!(d.neighbor(*back), Some(cell));
            }
        }
    }
}

// Neighbor boundary: the single level-0 cell has no neighbor at all, and
// cells on a boundary row or column lack exactly the outward neighbor.
#[test]
fn test_neighbor_boundary() {
    let level0 = Cell::new(5192650370358181887);
    for d in Direction::iter() {
        assert_eq!(level0.neighbor(d), None);
        assert_eq!(level0.sibling(d), None);
    }

    // The corner tile (15, 15) at resolution 4.
    let corner = Tile::new(15, 15, 4).to_cell().expect("cell index");
    assert_eq!(corner.neighbor(Direction::Right), None);
    assert_eq!(corner.neighbor(Direction::Down), None);
    assert!(corner.neighbor(Direction::Left).is_some());
    assert!(corner.neighbor(Direction::Up).is_some());
}

// Validation of raw values, directly and through the cell type.
#[test]
fn test_is_valid_cell() {
    assert!(is_valid_cell(5209574053332910079));
    assert!(is_valid_cell(5192650370358181887));
    assert!(!is_valid_cell(0));
    assert!(!is_valid_cell(5209574053332910078));
    assert!(!is_valid_cell(6362495557939757055));
    assert!(Cell::new(5209574053332910079).is_valid());
}

// The shortcut constructor agrees with validation.
#[test]
fn test_cell_new_matches_try_from() {
    let cell_new = Cell::new(5234261499580514303);
    let cell_try = Cell::try_from(5234261499580514303).expect("cell index");
    assert_eq!(cell_new, cell_try);
    assert_eq!(cell_new.get(), 5234261499580514303);
}

// Morton lookup tables: spot values and agreement with the shift-based
// encode and decode.
#[test]
fn test_morton_tables() {
    let interleave = interleave_table();
    assert_eq!(interleave.len(), 256);
    assert_eq!(interleave[0], 0x0000);
    assert_eq!(interleave[0xFF], 0x5555);
    assert_eq!(interleave[0b1011], 0b01000101);

    let (even, odd) = deinterleave_table();
    assert_eq!(even.len(), 256);
    assert_eq!(odd.len(), 256);
    assert_eq!(even[0b01000101], 0b1011);
    assert_eq!(odd[0b01000101], 0b0000);
    assert_eq!(odd[0b10001010], 0b1011);
    assert_eq!(even[0xFF], 0xF);
    assert_eq!(odd[0xFF], 0xF);

    // A byte split through the tables and rebuilt through the codec: the
    // interleave of (x, y) = (i, 0) at level 8 is the payload suffix.
    for i in [0_u16, 1, 37, 128, 255] {
        let cell = Tile::new(i as u32, 0, 8).to_cell().expect("cell index");
        let suffix = (cell.get() >> 36) & 0xFFFF;
        assert_eq!(suffix, interleave[i as usize] as u64);
        assert_eq!(even[(suffix & 0xFF) as usize], (i & 0xF) as u8);
    }
}

// Tile hash round trip on tiles of every level.
#[test]
fn test_tile_hash_round_trip() {
    for z in 0..=26_u8 {
        let max = (1u32 << z) - 1;
        for t in [Tile::new(0, max, z), Tile::new(max, max / 2, z)] {
            assert_eq!(Tile::from_hash(t.to_hash()), t);
        }
    }
}
