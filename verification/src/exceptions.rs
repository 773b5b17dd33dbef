//! Error types as a library should offer them: one enumeration per group of related
//! failures, open to new variants, with a message for each.

use vstd::prelude::*;
use vstd::string::StringExecFns;
use crate::text::{decimal, push_decimal};

verus! {

/// What can go wrong with a fractal.
pub enum FractalError {
    SadSnowFlake,
}

/// What can go wrong with a puzzle.
#[derive(Debug, Clone, Copy, PartialEq, Eq, Structural)]
#[non_exhaustive]
pub enum PuzzleError {
    /// The piece with this number does not fit.
    WontFit(u16),
    /// A piece is missing.
    MissingPiece,
}

impl PuzzleError {
    /// The message of the error.
    pub open spec fn spec_message(&self) -> Seq<char> {
        match *self {
            PuzzleError::MissingPiece => "Missing a piece"@,
            PuzzleError::WontFit(n) => "Piece "@ + decimal(n as nat) + " doesn't fit!"@,
        }
    }

    /// The message of the error, as it is shown to a reader.
    pub fn message(&self) -> (message: String)
        ensures
            message@ == self.spec_message(),
    {
        match self {
            PuzzleError::MissingPiece => String::from_str("Missing a piece"),
            PuzzleError::WontFit(n) => {
                let mut message = String::from_str("Piece ");
                push_decimal(&mut message, *n as u64);
                message.append(" doesn't fit!");
                message
            },
        }
    }
}

} // verus!
