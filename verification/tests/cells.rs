use quadbin::{Cell, Direction, Tile};

// Constants to save some typing
const UP: Direction = Direction::Up;
const DOWN: Direction = Direction::Down;
const RIGHT: Direction = Direction::Right;
const LEFT: Direction = Direction::Left;

#[test]
fn test_tile_and_cell_conversion() {
    // Test real examples
    let cases = [
        (9_u32, 8_u32, 4_u8, 5209574053332910079_u64),
        (0_u32, 0_u32, 0_u8, 5192650370358181887_u64),
        (1_u32, 2_u32, 3_u8, 5202361257054699519_u64),
        (1023_u32, 2412_u32, 23_u8, 5291729562728627583_u64),
    ];

    // Tile to cell conversion
    for (x, y, z, cell) in cases.iter() {
        assert_eq!(
            Tile::new(*x, *y, *z).to_cell().expect("cell index"),
            Cell::try_from(*cell).expect("cell index")
        );
    }

    // Cell to tile conversion
    for (x, y, z, cell) in cases.iter() {
        assert_eq!(
            Cell::try_from(*cell).expect("cell index").to_tile(),
            Tile::new(*x, *y, *z)
        );
    }
}

// Get cell resolution
#[test]
fn test_get_cell_resolution() {
    let qb_cell = Cell::try_from(5209574053332910079_u64).expect("cell index");
    assert_eq!(qb_cell.resolution(), 4_u8)
}

// Get parent cell
#[test]
fn test_cell_to_parent() {
    let cases = [
        (5209574053332910079_u64, 2_u8, 5200813144682790911_u64),
        (5209574053332910079_u64, 0_u8, 5192650370358181887_u64),
    ];

    for (cell, res, parent) in cases.iter() {
        assert_eq!(Cell::new(*cell).parent(*res).unwrap(), Cell::new(*parent));
    }
}

// Find cell's neighbors
#[test]
fn test_cell_neighbor() {
    assert_eq!(
        Cell::try_from(5192650370358181887)
            .expect("cell index")
            .neighbor(UP),
        None
    );
    assert_eq!(
        Cell::try_from(5193776270265024511)
            .expect("cell index")
            .neighbor(UP),
        None
    );
    assert_eq!(
        Cell::try_from(5194902170171867135)
            .expect("cell index")
            .neighbor(UP),
        None
    );
    assert_eq!(
        Cell::try_from(5194902170171867135)
            .expect("cell index")
            .neighbor(RIGHT),
        None
    );

    // Resolution 1
    assert_eq!(
        Cell::try_from(5193776270265024511)
            .expect("cell index")
            .neighbor(DOWN),
        Some(Cell::try_from(5196028070078709759).expect("cell index"))
    );
    assert_eq!(
        Cell::try_from(5193776270265024511)
            .expect("cell index")
            .neighbor(RIGHT),
        Some(Cell::new(5194902170171867135))
    );
    assert_eq!(
        Cell::try_from(5194902170171867135)
            .expect("cell index")
            .neighbor(DOWN),
        Some(Cell::new(5197153969985552383))
    );
    assert_eq!(
        Cell::try_from(5194902170171867135)
            .expect("cell index")
            .neighbor(LEFT),
        Some(Cell::new(5193776270265024511))
    );
    assert_eq!(
        Cell::try_from(5209574053332910079)
            .expect("cell index")
            .neighbor(UP),
        Some(Cell::new(5208061125333090303))
    );

    // Resolution 4
    assert_eq!(
        Cell::new(5209574053332910079).neighbor(DOWN),
        Some(Cell::new(5209609237704998911))
    );
    assert_eq!(
        Cell::new(5209574053332910079).neighbor(LEFT),
        Some(Cell::new(5209556461146865663))
    );
    assert_eq!(
        Cell::new(5209574053332910079).neighbor(RIGHT),
        Some(Cell::new(5209626829891043327))
    );
}

// List all Cell's neighbors
#[test]
fn test_cell_neighbors() {
    let center_cells = [
        Cell::try_from(5209574053332910079).expect("cell index"),
        Cell::try_from(5194902170171867135).expect("cell index"),
        Cell::try_from(5192650370358181887).expect("cell index"),
        Cell::try_from(5201094619659501567).expect("cell index"),
    ];

    for i in center_cells.iter() {
        assert_eq!(
            i.neighbors(),
            [
                i.neighbor(UP),
                i.neighbor(RIGHT),
                i.neighbor(LEFT),
                i.neighbor(DOWN)
            ]
        )
    }

    // Test that None is returned alongside with Some(Cell)
    let nn = Cell::try_from(5201094619659501567)
        .expect("cell index")
        .neighbors();
    assert_eq!(nn[1], None)
}

#[test]
fn test_cell_children_one() {
    let parent = Cell::new(5192650370358181887);
    let kids = parent.children(1).unwrap();

    let truth: [u64; 4] = [
        5193776270265024511,
        5194902170171867135,
        5196028070078709759,
        5197153969985552383,
    ];

    for (i, cell) in kids.iter().enumerate() {
        assert_eq!(cell.get(), truth[i]);
    }
}

#[test]
fn test_cell_children_five() {
    let parent = Cell::new(5209574053332910079);
    let kids = parent.children(5).unwrap();

    let truth: [u64; 4] = [
        5214064458820747263,
        5214068856867258367,
        5214073254913769471,
        5214077652960280575,
    ];

    for (i, cell) in kids.iter().enumerate() {
        assert_eq!(cell.get(), truth[i]);
    }
}

#[test]
fn test_cell_children_six() {
    let parent = Cell::new(5209574053332910079);
    let kids = parent.children(6).unwrap();

    let truth: [u64; 16] = [
        5218564759913234431,
        5218565859424862207,
        5218566958936489983,
        5218568058448117759,
        5218569157959745535,
        5218570257471373311,
        5218571356983001087,
        5218572456494628863,
        5218573556006256639,
        5218574655517884415,
        5218575755029512191,
        5218576854541139967,
        5218577954052767743,
        5218579053564395519,
        5218580153076023295,
        5218581252587651071,
    ];

    for (i, cell) in kids.iter().enumerate() {
        assert_eq!(cell.get(), truth[i]);
    }
}
