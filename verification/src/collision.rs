//! Collisions between labelled sprites, as a game engine reports them once per frame.

use vstd::prelude::*;
use crate::text::{begins_with, contains, occurs_in, starts_with};

verus! {

/// Whether two sprites have just started or just stopped overlapping.
#[derive(Clone, Copy, Debug, PartialEq, Eq, Structural)]
pub enum CollisionState {
    Begin,
    End,
}

impl CollisionState {
    /// True for [`CollisionState::Begin`].
    pub fn is_begin(&self) -> (begin: bool)
        ensures
            begin == (*self is Begin),
    {
        match self {
            CollisionState::Begin => true,
            CollisionState::End => false,
        }
    }

    /// True for [`CollisionState::End`].
    pub fn is_end(&self) -> (end: bool)
        ensures
            end == (*self is End),
    {
        match self {
            CollisionState::Begin => false,
            CollisionState::End => true,
        }
    }
}

/// The labels of the two sprites of a collision. Which label comes first is not fixed.
#[derive(Clone, Debug)]
pub struct CollisionPair(pub String, pub String);

impl CollisionPair {
    /// `text` stands in at least one of the two labels.
    pub open spec fn spec_either_contains(&self, text: Seq<char>) -> bool {
        occurs_in(self.0@, text) || occurs_in(self.1@, text)
    }

    /// Exactly one of the two labels begins with `text`.
    pub open spec fn spec_one_starts_with(&self, text: Seq<char>) -> bool {
        begins_with(self.0@, text) != begins_with(self.1@, text)
    }

    /// Whether either of the labels contains the text.
    pub fn either_contains(&self, text: &str) -> (found: bool)
        ensures
            found == self.spec_either_contains(text@),
    {
        contains(self.0.as_str(), text) || contains(self.1.as_str(), text)
    }

    /// Whether exactly one of the labels starts with the text.
    pub fn one_starts_with(&self, text: &str) -> (found: bool)
        ensures
            found == self.spec_one_starts_with(text@),
    {
        let first = starts_with(self.0.as_str(), text);
        let second = starts_with(self.1.as_str(), text);
        (first && !second) || (!first && second)
    }
}

/// One report of the engine: two sprites began or ended a collision.
#[derive(Clone, Debug)]
pub struct CollisionEvent {
    pub state: CollisionState,
    pub pair: CollisionPair,
}

} // verus!
