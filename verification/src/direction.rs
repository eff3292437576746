//! The four grid directions and their stable ordinals.

use vstd::prelude::*;

use crate::errors::QuadbinError;

verus! {

/// A direction within the rectangular grid.
///
/// The ordinals are part of the contract: `Up = 0`, `Right = 1`,
/// `Left = 2`, `Down = 3`. They fix the slot order of
/// [`crate::Cell::neighbors`] and the order of [`Direction::iter`].
#[derive(Clone, Copy, Debug, PartialEq, Eq, Hash, Structural)]
pub enum Direction {
    /// North.
    Up,
    /// East.
    Right,
    /// West.
    Left,
    /// South.
    Down,
}

impl Direction {
    /// The stable numeric ordinal of this direction.
    pub open spec fn spec_ordinal(self) -> u8 {
        match self {
            Direction::Up => 0,
            Direction::Right => 1,
            Direction::Left => 2,
            Direction::Down => 3,
        }
    }

    /// The direction with a given ordinal; ordinals above 3 name no direction.
    pub open spec fn spec_from_ordinal(value: u8) -> Direction {
        if value == 0 {
            Direction::Up
        } else if value == 1 {
            Direction::Right
        } else if value == 2 {
            Direction::Left
        } else {
            Direction::Down
        }
    }

    /// The direction pointing the other way along the same axis.
    pub open spec fn spec_opposite(self) -> Direction {
        match self {
            Direction::Up => Direction::Down,
            Direction::Right => Direction::Left,
            Direction::Left => Direction::Right,
            Direction::Down => Direction::Up,
        }
    }

    /// Returns the stable numeric ordinal of this direction.
    pub fn ordinal(self) -> (r: u8)
        ensures
            r == self.spec_ordinal(),
    {
        match self {
            Direction::Up => 0,
            Direction::Right => 1,
            Direction::Left => 2,
            Direction::Down => 3,
        }
    }

    /// Builds the direction with a given in-range ordinal.
    pub fn new_unchecked(value: u8) -> (d: Direction)
        requires
            value <= 3,
        ensures
            d == Direction::spec_from_ordinal(value),
            d.spec_ordinal() == value,
    {
        if value == 0 {
            Direction::Up
        } else if value == 1 {
            Direction::Right
        } else if value == 2 {
            Direction::Left
        } else {
            Direction::Down
        }
    }

    /// Converts an ordinal to a direction; values above 3 are rejected.
    pub fn try_from(value: u8) -> (r: Result<Direction, QuadbinError>)
        ensures
            r == if value <= 3 {
                Ok::<Direction, QuadbinError>(Direction::spec_from_ordinal(value))
            } else {
                Err::<Direction, QuadbinError>(QuadbinError::InvalidDirection(value))
            },
    {
        match value {
            0 => Ok(Direction::Up),
            1 => Ok(Direction::Right),
            2 => Ok(Direction::Left),
            3 => Ok(Direction::Down),
            _ => Err(QuadbinError::InvalidDirection(value)),
        }
    }

    /// Lists the valid directions in ordinal order.
    pub fn iter() -> (r: Vec<Direction>)
        ensures
            r@ == seq![
                Direction::Up,
                Direction::Right,
                Direction::Left,
                Direction::Down,
            ],
    {
        let r = vec![Direction::Up, Direction::Right, Direction::Left, Direction::Down];
        proof {
            assert(r@ =~= seq![
                Direction::Up,
                Direction::Right,
                Direction::Left,
                Direction::Down,
            ]);
        }
        r
    }
}

} // verus!
