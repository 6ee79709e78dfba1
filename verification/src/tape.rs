use std::collections::VecDeque;
use vstd::prelude::*;

verus! {

/// The earliest timestamp a window of `window_ms` ending at `now` keeps.
pub open spec fn window_cutoff(now: u64, window_ms: u64) -> u64 {
    if now >= window_ms {
        (now - window_ms) as u64
    } else {
        0
    }
}

/// `entries` without the leading entries stamped before `cutoff`.
pub open spec fn trim_front<T>(entries: Seq<(u64, T)>, cutoff: u64) -> Seq<(u64, T)>
    decreases entries.len(),
{
    if entries.len() > 0 && entries[0].0 < cutoff {
        trim_front(entries.drop_first(), cutoff)
    } else {
        entries
    }
}

/// Trimming keeps a suffix of the window: every dropped entry was stamped before
/// the cutoff and the first kept entry, if any, is stamped at or after it.
pub proof fn lemma_trim_front<T>(entries: Seq<(u64, T)>, cutoff: u64)
    ensures
        trim_front(entries, cutoff).len() <= entries.len(),
        trim_front(entries, cutoff) =~= entries.subrange(
            entries.len() - trim_front(entries, cutoff).len(),
            entries.len() as int,
        ),
        forall|i: int|
            0 <= i < entries.len() - trim_front(entries, cutoff).len() ==> #[trigger] entries[i].0
                < cutoff,
        trim_front(entries, cutoff).len() > 0 ==> trim_front(entries, cutoff)[0].0 >= cutoff,
    decreases entries.len(),
{
    if entries.len() > 0 && entries[0].0 < cutoff {
        lemma_trim_front(entries.drop_first(), cutoff);
        let rest = entries.drop_first();
        assert forall|i: int|
            0 <= i < entries.len() - trim_front(entries, cutoff).len() implies #[trigger] entries[i].0
                < cutoff by {
            if i > 0 {
                assert(entries[i] == rest[i - 1]);
            }
        }
    }
}

/// A rolling window of trades, each kept with its timestamp, together with the
/// last state computed from the window.
#[derive(Debug)]
pub struct Tape<T, S> {
    window_ms: u64,
    trades: VecDeque<(u64, T)>,
    last_state: S,
}

impl<T, S> Tape<T, S> {
    /// How far back, in milliseconds, the window reaches from the newest trade.
    pub closed spec fn window(&self) -> u64 {
        self.window_ms
    }

    /// The trades in the window with their timestamps, oldest first.
    pub closed spec fn entries(&self) -> Seq<(u64, T)> {
        self.trades@
    }

    /// The state last recorded for the window.
    pub closed spec fn recorded_state(&self) -> S {
        self.last_state
    }

    /// An empty tape over a window of `window_ms` milliseconds, whose state is `initial`.
    pub fn new(window_ms: u64, initial: S) -> (tape: Self)
        ensures
            tape.window() == window_ms,
            tape.entries() == Seq::<(u64, T)>::empty(),
            tape.recorded_state() == initial,
    {
        Tape { window_ms, trades: VecDeque::with_capacity(512), last_state: initial }
    }

    /// Adds a trade stamped `timestamp`, first dropping the leading trades stamped
    /// more than the window before it.
    pub fn observe(&mut self, timestamp: u64, trade: T)
        ensures
            final(self).window() == old(self).window(),
            final(self).recorded_state() == old(self).recorded_state(),
            final(self).entries() == trim_front(
                old(self).entries(),
                window_cutoff(timestamp, old(self).window()),
            ).push((timestamp, trade)),
    {
        self.trim(timestamp);
        self.trades.push_back((timestamp, trade));
    }

    /// Records the state computed from the current window.
    pub fn record_state(&mut self, state: S)
        ensures
            final(self).window() == old(self).window(),
            final(self).entries() == old(self).entries(),
            final(self).recorded_state() == state,
    {
        self.last_state = state;
    }

    /// The state last recorded for the window.
    pub fn state(&self) -> (state: &S)
        ensures
            *state == self.recorded_state(),
    {
        &self.last_state
    }

    /// The trades in the window with their timestamps, oldest first.
    pub fn trades(&self) -> (trades: &VecDeque<(u64, T)>)
        ensures
            trades@ == self.entries(),
    {
        &self.trades
    }

    fn trim(&mut self, now: u64)
        ensures
            final(self).window() == old(self).window(),
            final(self).recorded_state() == old(self).recorded_state(),
            final(self).entries() == trim_front(old(self).entries(), window_cutoff(now, old(self).window())),
    {
        let cutoff = now.saturating_sub(self.window_ms);
        let ghost original = self.trades@;
        while self.trades.len() > 0 && self.trades[0].0 < cutoff
            invariant
                cutoff == window_cutoff(now, self.window_ms),
                self.window_ms == old(self).window_ms,
                self.last_state == old(self).last_state,
                original == old(self).trades@,
                trim_front(self.trades@, cutoff) == trim_front(original, cutoff),
            decreases self.trades@.len(),
        {
            let ghost before = self.trades@;
            let _ = self.trades.pop_front();
            assert(self.trades@ =~= before.drop_first());
        }
    }
}

} // verus!
