//! Dinner for two cooks: what each of them does, step by step, and what comes of it.
//!
//! The steps are carried out by the program around this module, which owns the clock and
//! the log: it may run the two cooks side by side.

use vstd::prelude::*;

pub mod dad;
pub mod mom;

verus! {

/// One step of a cook.
#[derive(Clone, Debug, PartialEq, Eq)]
pub enum Step {
    /// Tell the household this.
    Say(String),
    /// Let this much time pass.
    Wait { seconds: u32 },
}

/// A [`Step`] with its text as a sequence of characters.
pub enum StepView {
    Say(Seq<char>),
    Wait { seconds: u32 },
}

impl View for Step {
    type V = StepView;

    open spec fn view(&self) -> StepView {
        match *self {
            Step::Say(line) => StepView::Say(line@),
            Step::Wait { seconds } => StepView::Wait { seconds },
        }
    }
}

/// The views of a list of steps, in the same order.
pub open spec fn views(steps: Seq<Step>) -> Seq<StepView> {
    steps.map_values(|s: Step| s@)
}

/// What is for dinner.
#[derive(Clone, Copy, Debug, PartialEq, Eq, Structural)]
pub enum Dinner {
    Spaghetti,
    Pizza,
}

/// Dinner is spaghetti where the cook came back and said that it is done. Where the cook
/// did not come back (`None`) or said no, it is pizza.
pub open spec fn dinner_of(spaghetti: Option<bool>) -> Dinner {
    if spaghetti == Some(true) {
        Dinner::Spaghetti
    } else {
        Dinner::Pizza
    }
}

/// What is for dinner, from what the spaghetti cook brought back.
pub fn dinner(spaghetti: Option<bool>) -> (served: Dinner)
    ensures
        served == dinner_of(spaghetti),
{
    match spaghetti {
        Some(true) => Dinner::Spaghetti,
        _ => Dinner::Pizza,
    }
}

impl Dinner {
    /// What the household hears at the end.
    pub open spec fn spec_line(&self) -> Seq<char> {
        match *self {
            Dinner::Spaghetti => "Spaghetti time! Yum!"@,
            Dinner::Pizza => "Dad messed up the spaghetti. Order pizza instead?"@,
        }
    }

    /// What the household hears at the end.
    pub fn line(&self) -> (line: &'static str)
        ensures
            line@ == self.spec_line(),
    {
        match self {
            Dinner::Spaghetti => "Spaghetti time! Yum!",
            Dinner::Pizza => "Dad messed up the spaghetti. Order pizza instead?",
        }
    }
}

} // verus!
