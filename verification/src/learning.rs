use vstd::prelude::*;

verus! {

/// The win/loss bookkeeping of the learning state: how many samples it has
/// seen and how many losses in a row ended the latest ones.
#[derive(Clone, Copy, Debug, Default, PartialEq, Eq, Structural)]
pub struct OutcomeStreak {
    pub consecutive_losses: u32,
    pub samples: u64,
}

impl OutcomeStreak {
    /// No samples yet.
    pub fn new() -> (streak: Self)
        ensures
            streak.consecutive_losses == 0,
            streak.samples == 0,
    {
        OutcomeStreak { consecutive_losses: 0, samples: 0 }
    }

    /// Counts one more sample: a win ends the losing streak, a loss extends it.
    /// Both counters hold at their largest value.
    pub fn record(&mut self, won: bool)
        ensures
            final(self).samples == (if old(self).samples < u64::MAX {
                (old(self).samples + 1) as u64
            } else {
                old(self).samples
            }),
            final(self).consecutive_losses == (if won {
                0
            } else if old(self).consecutive_losses < u32::MAX {
                (old(self).consecutive_losses + 1) as u32
            } else {
                old(self).consecutive_losses
            }),
    {
        self.samples = self.samples.saturating_add(1);
        if won {
            self.consecutive_losses = 0;
        } else {
            self.consecutive_losses = self.consecutive_losses.saturating_add(1);
        }
    }
}

/// Whether a losing streak locks trading out: it has reached the allowed number of
/// consecutive losses.
pub fn lockout_due(consecutive_losses: u32, max_consecutive_losses: u32) -> (lockout: bool)
    ensures
        lockout == (consecutive_losses >= max_consecutive_losses),
{
    consecutive_losses >= max_consecutive_losses
}

} // verus!
