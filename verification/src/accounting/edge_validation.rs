use crate::types::CompetitionState;
use crate::window::{capped_push, push_capped};
use std::collections::VecDeque;
use vstd::prelude::*;

verus! {

/// Whether the statistics say the strategy still has an edge.
#[derive(Clone, Copy, Debug, Default, PartialEq, Eq, Structural)]
pub enum EdgeState {
    Valid,
    #[default]
    Uncertain,
    Invalid,
}

/// How the edge behaves over time.
#[derive(Clone, Copy, Debug, Default, PartialEq, Eq, Structural)]
pub enum EdgeRegime {
    #[default]
    Stable,
    Decaying,
    Unstable,
}

/// Appends a competition state to its window, first dropping the oldest one when
/// the window already holds `capacity` states.
pub fn push_state_capped(
    queue: &mut VecDeque<CompetitionState>,
    value: CompetitionState,
    capacity: usize,
)
    ensures
        final(queue)@ == capped_push(old(queue)@, value, capacity as nat),
{
    push_capped(queue, value, capacity);
}

} // verus!
