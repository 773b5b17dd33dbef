//! Puzzles: making one, and loading one from a file.

use vstd::prelude::*;
use vstd::string::StringExecFns;
use crate::text::{decimal, push_decimal};

verus! {

/// Number of pieces in a puzzle that is not told otherwise.
pub const PUZZLE_PIECES: u32 = 42;

/// This is a Piece!
#[derive(Debug, Clone)]
pub struct Puzzle {
    /// Number of piece
    pub num_pieces: u32,
    /// Descriptive name
    pub name: String,
}

/// What can go wrong with a puzzle.
#[derive(Debug, Clone, Copy, PartialEq, Eq, Structural)]
#[non_exhaustive]
pub enum PuzzleError {
    /// A piece is missing.
    MissingPiece,
    /// The piece with this number does not fit.
    WontFit(u16),
}

impl Puzzle {
    /// Make a new puzzle!
    ///
    /// It is the default puzzle.
    pub fn new() -> (puzzle: Self)
        ensures
            puzzle.num_pieces == PUZZLE_PIECES,
            puzzle.name@ == "Default"@,
    {
        let puzzle: Puzzle = Default::default();
        puzzle
    }

    /// Load a puzzle from a file
    ///
    /// The file is taken and let go unread: no file holds a whole puzzle yet, every one is
    /// missing a piece.
    pub fn from_file<F>(_fh: F) -> (loaded: Result<Self, PuzzleError>)
        ensures
            loaded == Err::<Puzzle, PuzzleError>(PuzzleError::MissingPiece),
    {
        Err(PuzzleError::MissingPiece)
    }
}

impl Default for Puzzle {
    /// The puzzle `Default` of [`PUZZLE_PIECES`] pieces.
    fn default() -> (puzzle: Self)
        ensures
            puzzle.num_pieces == PUZZLE_PIECES,
            puzzle.name@ == "Default"@,
    {
        Puzzle { num_pieces: PUZZLE_PIECES, name: String::from_str("Default") }
    }
}

impl PuzzleError {
    /// The message of the error.
    pub open spec fn spec_message(&self) -> Seq<char> {
        match *self {
            PuzzleError::MissingPiece => "Missing a piece"@,
            PuzzleError::WontFit(n) => "Piece "@ + decimal(n as nat) + " doesn't fit!"@,
        }
    }

    /// The message of the error, as it is shown to a reader.
    pub fn message(&self) -> (message: String)
        ensures
            message@ == self.spec_message(),
    {
        match self {
            PuzzleError::MissingPiece => String::from_str("Missing a piece"),
            PuzzleError::WontFit(n) => {
                let mut message = String::from_str("Piece ");
                push_decimal(&mut message, *n as u64);
                message.append(" doesn't fit!");
                message
            },
        }
    }
}

} // verus!
