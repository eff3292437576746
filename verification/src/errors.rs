//! Tagged error values returned by the validating operations.

use vstd::prelude::*;

verus! {

/// The ways a Quadbin operation can reject its input.
///
/// Validation errors are returned, never recovered from.
#[derive(Clone, Copy, Debug, PartialEq, Eq, Structural)]
pub enum QuadbinError {
    /// A 64-bit value failed cell validation, or a tile could not be
    /// encoded. Carries the offending raw value when one exists.
    InvalidCell(Option<u64>),
    /// A resolution argument was out of range for the operation.
    InvalidResolution(u8),
    /// A direction ordinal above 3 was offered.
    InvalidDirection(u8),
}

impl QuadbinError {
    /// A short human-readable description of the error.
    pub fn message(&self) -> (r: String)
        ensures
            r@.len() > 0,
    {
        let text = match self {
            QuadbinError::InvalidCell(_) => "invalid cell index",
            QuadbinError::InvalidResolution(_) => "invalid resolution",
            QuadbinError::InvalidDirection(_) => "invalid direction",
        };
        proof {
            reveal_strlit("invalid cell index");
            reveal_strlit("invalid resolution");
            reveal_strlit("invalid direction");
        }
        text.to_string()
    }
}

} // verus!
