//! The cook of the sauce, who also sets the table.

use vstd::prelude::*;
use vstd::string::StringExecFns;
use crate::kitchen::{views, Step, StepView};

verus! {

/// The steps of cooking the sauce and setting the table.
pub open spec fn sauce_and_table_steps() -> Seq<StepView> {
    seq![
        StepView::Wait { seconds: 1 },
        StepView::Say("Cooking the sauce..."@),
        StepView::Wait { seconds: 2 },
        StepView::Say("Sauce is ready! Setting the table..."@),
        StepView::Wait { seconds: 2 },
        StepView::Say("Table is set!"@),
    ]
}

/// Cooking the sauce and setting the table: the steps to carry out.
pub fn cook_sauce_and_let_table() -> (steps: Vec<Step>)
    ensures
        views(steps@) == sauce_and_table_steps(),
{
    let mut steps: Vec<Step> = Vec::new();
    steps.push(Step::Wait { seconds: 1 });
    steps.push(Step::Say(String::from_str("Cooking the sauce...")));
    steps.push(Step::Wait { seconds: 2 });
    steps.push(Step::Say(String::from_str("Sauce is ready! Setting the table...")));
    steps.push(Step::Wait { seconds: 2 });
    steps.push(Step::Say(String::from_str("Table is set!")));
    assert(views(steps@) =~= sauce_and_table_steps());
    steps
}

} // verus!
