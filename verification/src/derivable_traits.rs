//! A puzzle with the standard traits that a value type is expected to have: a default, an
//! equality of its own, and a conversion to its name.

use vstd::prelude::*;
use vstd::std_specs::cmp::PartialEqSpec;
use vstd::std_specs::cmp::PartialEqSpecImpl;
use vstd::std_specs::convert::FromSpecImpl;
use vstd::std_specs::convert::IntoSpec;
use vstd::string::StringExecFns;
use crate::text::{lowercase_of, same_text, to_lowercase};

verus! {

/// A puzzle: how many pieces it has, and what it is called.
#[derive(Debug, Clone)]
pub struct Puzzle {
    pub num_pieces: u32,
    pub name: String,
}

/// The kinds of puzzle. There is one.
#[derive(Copy, Clone)]
pub enum PuzzleType {
    Jigsaw,
}

impl Default for Puzzle {
    /// The puzzle `Forest Lake` of thirty pieces.
    fn default() -> (puzzle: Self)
        ensures
            puzzle.num_pieces == 30,
            puzzle.name@ == "Forest Lake"@,
    {
        Puzzle { num_pieces: 30, name: String::from_str("Forest Lake") }
    }
}

/// Two puzzles are the same when they have as many pieces and their names, put in lower
/// case, are the same text. The names are given in lower case already.
pub fn same_puzzle(
    num_pieces: u32,
    lowered_name: &str,
    other_num_pieces: u32,
    other_lowered_name: &str,
) -> (same: bool)
    ensures
        same == (num_pieces == other_num_pieces && lowered_name@ == other_lowered_name@),
{
    num_pieces == other_num_pieces && same_text(lowered_name, other_lowered_name)
}

impl PartialEq for Puzzle {
    /// Equality that does not tell upper from lower case in the name.
    fn eq(&self, other: &Self) -> (same: bool) {
        let lowered = to_lowercase(self.name.as_str());
        let other_lowered = to_lowercase(other.name.as_str());
        same_puzzle(self.num_pieces, lowered.as_str(), other.num_pieces, other_lowered.as_str())
    }
}

impl PartialEqSpecImpl for Puzzle {
    open spec fn obeys_eq_spec() -> bool {
        true
    }

    open spec fn eq_spec(&self, other: &Self) -> bool {
        self.num_pieces == other.num_pieces && lowercase_of(self.name@) == lowercase_of(
            other.name@,
        )
    }
}

impl Eq for Puzzle {

}

/// The equality of puzzles is an equivalence, as `Eq` promises: every puzzle equals
/// itself, two equal puzzles are equal the other way round, and two puzzles that equal a
/// third equal each other.
pub proof fn equality_is_an_equivalence(a: Puzzle, b: Puzzle, c: Puzzle)
    ensures
        PartialEqSpec::eq_spec(&a, &a),
        PartialEqSpec::eq_spec(&a, &b) ==> PartialEqSpec::eq_spec(&b, &a),
        PartialEqSpec::eq_spec(&a, &b) && PartialEqSpec::eq_spec(&b, &c) ==> PartialEqSpec::eq_spec(
            &a,
            &c,
        ),
{
}

impl From<&Puzzle> for String {
    /// The name of the puzzle, as a text of its own.
    fn from(puzzle: &Puzzle) -> (name: String) {
        puzzle.name.clone()
    }
}

impl FromSpecImpl<&Puzzle> for String {
    open spec fn obeys_from_spec() -> bool {
        true
    }

    open spec fn from_spec(puzzle: &Puzzle) -> String {
        puzzle.name
    }
}

/// The text that stands for `s`, ready to be shown.
pub fn show<T: Into<String>>(s: T) -> (shown: String)
    ensures
        T::obeys_into_spec() ==> shown == s.into_spec(),
{
    s.into()
}

} // verus!
