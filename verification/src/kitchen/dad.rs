//! The cook of the spaghetti.

use vstd::prelude::*;
use vstd::string::StringExecFns;
use crate::kitchen::{views, Step, StepView};

verus! {

/// The steps of cooking the spaghetti.
pub open spec fn spaghetti_steps() -> Seq<StepView> {
    seq![
        StepView::Say("Cooking the spaghetti..."@),
        StepView::Wait { seconds: 4 },
        StepView::Say("Spaghetti is ready!"@),
    ]
}

/// Cooking the spaghetti: the steps to carry out, and whether the spaghetti is done after
/// them, which it always is.
pub fn cook_spaghetti() -> (cooked: (Vec<Step>, bool))
    ensures
        views(cooked.0@) == spaghetti_steps(),
        cooked.1,
{
    let mut steps: Vec<Step> = Vec::new();
    steps.push(Step::Say(String::from_str("Cooking the spaghetti...")));
    steps.push(Step::Wait { seconds: 4 });
    steps.push(Step::Say(String::from_str("Spaghetti is ready!")));
    assert(views(steps@) =~= spaghetti_steps());
    (steps, true)
}

} // verus!
