use crate::types::Decision;
use vstd::prelude::*;

verus! {

/// The metric label of a decision.
pub fn decision_label(decision: Decision) -> (label: &'static str)
    ensures
        label@ == (match decision {
            Decision::Ignore => "ignore"@,
            Decision::EnterSmall => "enter_small"@,
            Decision::ScaleIn => "scale_in"@,
            Decision::Exit => "exit"@,
        }),
{
    match decision {
        Decision::Ignore => "ignore",
        Decision::EnterSmall => "enter_small",
        Decision::ScaleIn => "scale_in",
        Decision::Exit => "exit",
    }
}

} // verus!
