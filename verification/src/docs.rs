/*!
A puzzle and the number of its pieces.
!*/

use vstd::prelude::*;
use vstd::string::StringExecFns;

verus! {

/**
Number of pieces in the puzzle

# History

This is a separate paragraph.
- [Clickable link](`PUZZLE_PIECES`)
- We tried `7`, but this is better
**/
pub const PUZZLE_PIECES: u32 = 42;

/// This is a Puzzle!
pub struct Puzzle {
    /// Number of pieces
    pub num_pieces: u32,
    /// Descriptive name
    pub name: String,
}

impl Puzzle {
    /// Make a new puzzle!
    ///
    /// It has [`PUZZLE_PIECES`] pieces and is called `Forest Lake`.
    pub fn new() -> (puzzle: Self)
        ensures
            puzzle.num_pieces == PUZZLE_PIECES,
            puzzle.name@ == "Forest Lake"@,
    {
        Self { num_pieces: PUZZLE_PIECES, name: String::from_str("Forest Lake") }
    }
}

} // verus!
