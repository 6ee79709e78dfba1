use crate::types::FinalDecision;
use std::collections::VecDeque;
use vstd::prelude::*;

verus! {

/// The shortest confirmation wait, in milliseconds.
pub const MIN_CONFIRM_WINDOW_MS: u64 = 3;

/// The longest confirmation wait, in milliseconds.
pub const MAX_CONFIRM_WINDOW_MS: u64 = 35;

/// How long an intent that must be confirmed waits before it is evaluated again:
/// an eighth of its expected duration, kept between 3 and 35 milliseconds.
pub fn confirm_window_ms(expected_duration_ms: u64) -> (wait: u64)
    ensures
        wait == (if expected_duration_ms / 8 < MIN_CONFIRM_WINDOW_MS {
            MIN_CONFIRM_WINDOW_MS
        } else if expected_duration_ms / 8 > MAX_CONFIRM_WINDOW_MS {
            MAX_CONFIRM_WINDOW_MS
        } else {
            expected_duration_ms / 8
        }),
        MIN_CONFIRM_WINDOW_MS <= wait <= MAX_CONFIRM_WINDOW_MS,
{
    let eighth = expected_duration_ms / 8;
    if eighth < MIN_CONFIRM_WINDOW_MS {
        MIN_CONFIRM_WINDOW_MS
    } else if eighth > MAX_CONFIRM_WINDOW_MS {
        MAX_CONFIRM_WINDOW_MS
    } else {
        eighth
    }
}

/// The metric label of a final decision.
pub fn final_label(decision: FinalDecision) -> (label: &'static str)
    ensures
        label@ == (match decision {
            FinalDecision::Execute => "execute"@,
            FinalDecision::Wait => "wait"@,
            FinalDecision::Skip => "skip"@,
        }),
{
    match decision {
        FinalDecision::Execute => "execute",
        FinalDecision::Wait => "wait",
        FinalDecision::Skip => "skip",
    }
}

/// How many of the latest executions the meta stage remembers.
pub const RECENT_EXECUTIONS: usize = 64;

/// The number of profitable executions in a window.
pub open spec fn wins_in(window: Seq<bool>) -> nat
    decreases window.len(),
{
    if window.len() == 0 {
        0
    } else {
        wins_in(window.drop_last()) + if window.last() {
            1nat
        } else {
            0nat
        }
    }
}

/// The outcome window after one more execution: appended, and the oldest entry
/// dropped once the window would exceed its size.
pub open spec fn after_execution(window: Seq<bool>, profitable: bool) -> Seq<bool> {
    if window.len() + 1 > RECENT_EXECUTIONS {
        window.push(profitable).drop_first()
    } else {
        window.push(profitable)
    }
}

/// Whether each of the latest executions looked profitable, oldest first.
#[derive(Clone, Debug)]
pub struct RecentExecutions {
    outcomes: VecDeque<bool>,
}

impl RecentExecutions {
    /// The remembered outcomes, oldest first.
    pub closed spec fn outcomes(&self) -> Seq<bool> {
        self.outcomes@
    }

    /// No execution remembered yet.
    pub fn new() -> (recent: Self)
        ensures
            recent.outcomes() == Seq::<bool>::empty(),
    {
        RecentExecutions { outcomes: VecDeque::new() }
    }

    /// Remembers one more execution.
    pub fn record(&mut self, profitable: bool)
        ensures
            final(self).outcomes() == after_execution(old(self).outcomes(), profitable),
    {
        self.outcomes.push_back(profitable);
        if self.outcomes.len() > RECENT_EXECUTIONS {
            let _ = self.outcomes.pop_front();
            assert(self.outcomes@ =~= old(self).outcomes@.push(profitable).drop_first());
        }
    }

    /// How many executions are remembered.
    pub fn len(&self) -> (count: usize)
        ensures
            count == self.outcomes().len(),
    {
        self.outcomes.len()
    }

    /// How many of the remembered executions were profitable.
    pub fn wins(&self) -> (wins: usize)
        ensures
            wins == wins_in(self.outcomes()),
    {
        let n = self.outcomes.len();
        let mut wins: usize = 0;
        let mut i: usize = 0;
        while i < n
            invariant
                n == self.outcomes@.len(),
                i <= n,
                wins == wins_in(self.outcomes@.take(i as int)),
                wins <= i,
            decreases n - i,
        {
            assert(self.outcomes@.take(i + 1).drop_last() =~= self.outcomes@.take(i as int));
            if self.outcomes[i] {
                wins = wins + 1;
            }
            i = i + 1;
        }
        assert(self.outcomes@.take(n as int) =~= self.outcomes@);
        wins
    }
}

/// A window that starts within its size stays within it, keeps the latest
/// outcomes, and never counts more wins than entries.
pub proof fn lemma_recent_window_bounded(window: Seq<bool>, profitable: bool)
    requires
        window.len() <= RECENT_EXECUTIONS,
    ensures
        after_execution(window, profitable).len() <= RECENT_EXECUTIONS,
        after_execution(window, profitable).last() == profitable,
        wins_in(after_execution(window, profitable)) <= after_execution(window, profitable).len(),
{
    lemma_wins_bounded(after_execution(window, profitable));
}

/// The outcomes remembered after recording `history` in order into a fresh window.
pub open spec fn window_after(history: Seq<bool>) -> Seq<bool>
    decreases history.len(),
{
    if history.len() == 0 {
        Seq::empty()
    } else {
        after_execution(window_after(history.drop_last()), history.last())
    }
}

/// The window remembers exactly the latest 64 recorded outcomes, oldest first:
/// whatever was recorded before them has been evicted, in recording order.
pub proof fn lemma_window_keeps_latest_history(history: Seq<bool>)
    ensures
        window_after(history) == history.subrange(
            if history.len() > 64 { history.len() - 64 } else { 0 },
            history.len() as int,
        ),
    decreases history.len(),
{
    if history.len() > 0 {
        let prev = history.drop_last();
        lemma_window_keeps_latest_history(prev);
        let n = history.len() as int;
        let start_prev: int = if prev.len() > 64 { prev.len() - 64 } else { 0 };
        let window = window_after(prev);
        assert(window =~= history.subrange(start_prev, n - 1));
        if window.len() + 1 > 64 {
            assert(window.push(history.last()).drop_first() =~= history.subrange(n - 64, n));
        } else {
            assert(window.push(history.last()) =~= history.subrange(0, n));
        }
    } else {
        assert(history.subrange(0, 0) =~= Seq::<bool>::empty());
    }
}

/// Recording into a full window evicts its oldest outcome and keeps the other 63
/// in order, with the new outcome last; the profitable count moves accordingly.
pub proof fn lemma_full_window_evicts_oldest(window: Seq<bool>, profitable: bool)
    requires
        window.len() == 64,
    ensures
        after_execution(window, profitable).len() == 64,
        forall|i: int| 0 <= i < 63 ==> #[trigger] after_execution(window, profitable)[i] == window[i + 1],
        after_execution(window, profitable)[63] == profitable,
        wins_in(after_execution(window, profitable)) + (if window[0] { 1int } else { 0int })
            == wins_in(window) + (if profitable { 1int } else { 0int }),
{
    let after = after_execution(window, profitable);
    lemma_wins_split_first(window);
    lemma_wins_split_first(window.push(profitable));
    assert(window.push(profitable).drop_first() =~= window.drop_first().push(profitable));
    assert(window.drop_first().push(profitable).drop_last() =~= window.drop_first());
    assert(window.push(profitable).drop_last() =~= window);
}

/// The first outcome of a window counts separately from the rest.
proof fn lemma_wins_split_first(window: Seq<bool>)
    requires
        window.len() > 0,
    ensures
        wins_in(window) == wins_in(window.drop_first()) + (if window[0] { 1nat } else { 0nat }),
    decreases window.len(),
{
    if window.len() > 1 {
        lemma_wins_split_first(window.drop_last());
        assert(window.drop_last().drop_first() =~= window.drop_first().drop_last());
    } else {
        assert(window.drop_first() =~= Seq::<bool>::empty());
        assert(window.drop_last() =~= Seq::<bool>::empty());
    }
}

proof fn lemma_wins_bounded(window: Seq<bool>)
    ensures
        wins_in(window) <= window.len(),
    decreases window.len(),
{
    if window.len() > 0 {
        lemma_wins_bounded(window.drop_last());
    }
}

} // verus!
