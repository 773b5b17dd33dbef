//! Which puzzle to play: the one from the file where there is one, a new one otherwise.

use vstd::prelude::*;
use crate::puzzles::{Puzzle, PuzzleError, PUZZLE_PIECES};

verus! {

/// Why no puzzle came out of the file.
#[derive(Debug, Clone, Copy, PartialEq, Eq, Structural)]
pub enum GetPuzzleError {
    /// The file could not be opened.
    Open,
    /// What the file holds is no puzzle, for this reason.
    Convert(PuzzleError),
}

/// What comes of getting the puzzle of a file: where the file could not be opened, that is
/// the failure, and where it could, every file is missing a piece.
pub open spec fn get_puzzle_of<F>(opened: Option<F>) -> Result<Puzzle, GetPuzzleError> {
    match opened {
        None => Err(GetPuzzleError::Open),
        Some(_) => Err(GetPuzzleError::Convert(PuzzleError::MissingPiece)),
    }
}

/// The puzzle of a file, from what opening the file gave: the open file, or `None` where
/// it could not be opened.
pub fn get_puzzle<F>(opened: Option<F>) -> (got: Result<Puzzle, GetPuzzleError>)
    ensures
        got == get_puzzle_of(opened),
{
    match opened {
        None => Err(GetPuzzleError::Open),
        Some(fh) => match Puzzle::from_file(fh) {
            Ok(puzzle) => Ok(puzzle),
            Err(cause) => Err(GetPuzzleError::Convert(cause)),
        },
    }
}

/// The puzzle to play: the one that was got, or a new one where none was, whatever the
/// reason.
pub fn first_puzzle<E>(got: Result<Puzzle, E>) -> (puzzle: Puzzle)
    ensures
        got matches Ok(p) ==> puzzle == p,
        got is Err ==> puzzle.num_pieces == PUZZLE_PIECES && puzzle.name@ == "Default"@,
{
    match got {
        Ok(p) => p,
        Err(_) => Puzzle::new(),
    }
}

} // verus!
