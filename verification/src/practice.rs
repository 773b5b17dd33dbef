//! A party and its cake: a default, an equality that looks at the cake alone, and a
//! conversion from the party to its cake.

use vstd::prelude::*;
use vstd::std_specs::cmp::PartialEqSpecImpl;
use vstd::std_specs::convert::FromSpecImpl;
use vstd::std_specs::convert::IntoSpec;
use vstd::string::StringExecFns;

verus! {

/// The cakes to choose from.
#[derive(Debug, Copy, Clone, PartialEq, Structural)]
pub enum Cake {
    Chocolate,
    MapleBacon,
    Spice,
}

/// A party: where it is, how many come, and the cake.
#[derive(Debug)]
pub struct Party {
    pub at_restaurant: bool,
    pub num_people: u8,
    pub cake: Cake,
}

impl Cake {
    /// The name of the cake as it is written in the list of cakes.
    pub open spec fn spec_name(&self) -> Seq<char> {
        match *self {
            Cake::Chocolate => "Chocolate"@,
            Cake::MapleBacon => "MapleBacon"@,
            Cake::Spice => "Spice"@,
        }
    }

    /// What there is to say to the cake.
    pub open spec fn spec_remark(&self) -> Seq<char> {
        match *self {
            Cake::Chocolate => "The name's Chocolate. Dark...Chocolate"@,
            Cake::MapleBacon => "Dreams do come true"@,
            Cake::Spice => "Great, let's spice it up!"@,
        }
    }

    /// The name of the cake as it is written in the list of cakes.
    pub fn name(&self) -> (name: &'static str)
        ensures
            name@ == self.spec_name(),
    {
        match self {
            Cake::Chocolate => "Chocolate",
            Cake::MapleBacon => "MapleBacon",
            Cake::Spice => "Spice",
        }
    }

    /// What there is to say to the cake.
    pub fn remark(&self) -> (remark: &'static str)
        ensures
            remark@ == self.spec_remark(),
    {
        match self {
            Cake::Chocolate => "The name's Chocolate. Dark...Chocolate",
            Cake::MapleBacon => "Dreams do come true",
            Cake::Spice => "Great, let's spice it up!",
        }
    }
}

impl Default for Party {
    /// Eight people at a restaurant, with chocolate cake.
    fn default() -> (party: Self)
        ensures
            party == (Party { at_restaurant: true, num_people: 8, cake: Cake::Chocolate }),
    {
        Self { at_restaurant: true, num_people: 8, cake: Cake::Chocolate }
    }
}

impl PartialEq for Party {
    /// Parties are equal when they have the same cake, wherever they are and however many
    /// come.
    fn eq(&self, other: &Self) -> (same: bool) {
        self.cake == other.cake
    }
}

impl PartialEqSpecImpl for Party {
    open spec fn obeys_eq_spec() -> bool {
        true
    }

    open spec fn eq_spec(&self, other: &Self) -> bool {
        self.cake == other.cake
    }
}

impl From<&Party> for Cake {
    /// The cake of the party.
    fn from(value: &Party) -> (cake: Cake) {
        value.cake
    }
}

impl FromSpecImpl<&Party> for Cake {
    open spec fn obeys_from_spec() -> bool {
        true
    }

    open spec fn from_spec(value: &Party) -> Cake {
        value.cake
    }
}

/// The words of someone who admires `cake`.
pub open spec fn admiration(cake: Cake) -> Seq<char> {
    "Wat a nice "@ + cake.spec_name() + " cake!"@
}

/// The words of someone who smells `cake`.
pub open spec fn scent(cake: Cake) -> Seq<char> {
    "Hmm...something smells like a "@ + cake.spec_name() + " cake!"@
}

/// The words of someone who admires the cake.
pub fn admire_cake(cake: Cake) -> (words: String)
    ensures
        words@ == admiration(cake),
{
    let mut words = String::from_str("Wat a nice ");
    words.append(cake.name());
    words.append(" cake!");
    words
}

/// The words of someone who smells the cake that `s` stands for.
pub fn smell_cake<T: Into<Cake>>(s: T) -> (words: String)
    ensures
        T::obeys_into_spec() ==> words@ == scent(s.into_spec()),
{
    let cake: Cake = s.into();
    let mut words = String::from_str("Hmm...something smells like a ");
    words.append(cake.name());
    words.append(" cake!");
    words
}

} // verus!
