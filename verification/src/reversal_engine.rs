use crate::types::{Direction, ReversalState, Side};
use vstd::prelude::*;

verus! {

/// Only trades held for less than this many milliseconds can open a reversal watch,
/// and by default a watch lasts this long.
pub const DEFAULT_SHORT_THRESHOLD_MS: u64 = 10_000;

/// The watch that a profitable exit in `last_direction` opens: after a long,
/// watch for a flip to short; after a short, for a flip to long.
pub open spec fn watch_after_exit(last_direction: Side) -> ReversalState {
    match last_direction {
        Side::Buy => ReversalState::ObserveLongToShort,
        Side::Sell => ReversalState::ObserveShortToLong,
    }
}

/// The direction a watch would flip into.
pub fn flip_direction(state: ReversalState) -> (direction: Direction)
    ensures
        direction == (match state {
            ReversalState::ObserveLongToShort => Direction::Short,
            ReversalState::ObserveShortToLong => Direction::Long,
            ReversalState::Idle => Direction::Flat,
        }),
{
    match state {
        ReversalState::ObserveLongToShort => Direction::Short,
        ReversalState::ObserveShortToLong => Direction::Long,
        ReversalState::Idle => Direction::Flat,
    }
}

/// The trend direction that cancels a watch: a new dominant uptrend cancels a
/// long-to-short watch, a new dominant downtrend a short-to-long one.
pub fn blocking_trend(state: ReversalState) -> (direction: Direction)
    ensures
        direction == (match state {
            ReversalState::ObserveLongToShort => Direction::Long,
            ReversalState::ObserveShortToLong => Direction::Short,
            ReversalState::Idle => Direction::Flat,
        }),
{
    match state {
        ReversalState::ObserveLongToShort => Direction::Long,
        ReversalState::ObserveShortToLong => Direction::Short,
        ReversalState::Idle => Direction::Flat,
    }
}

/// Whether a closed trade may open a reversal watch, as far as its duration and
/// the regime go: it lasted less than the short threshold and the market is not
/// in a trend expansion.
pub fn short_trade_outside_trend(duration_ms: u64, trend_expansion: bool) -> (eligible: bool)
    ensures
        eligible == (duration_ms < DEFAULT_SHORT_THRESHOLD_MS && !trend_expansion),
{
    duration_ms < DEFAULT_SHORT_THRESHOLD_MS && !trend_expansion
}

/// The timing part of the reversal engine's context: which watch is open, when it
/// opened, the side of the exit that opened it, and how long a watch may last.
#[derive(Clone, Copy, Debug, PartialEq, Eq, Structural)]
pub struct ReversalWatch {
    pub state: ReversalState,
    pub activation_time: u64,
    pub last_direction: Side,
    pub observation_timeout_ms: u64,
}

impl ReversalWatch {
    /// The watch has been open longer than its timeout at `now`.
    pub open spec fn spec_timed_out(&self, now: u64) -> bool {
        self.state != ReversalState::Idle && (if now >= self.activation_time {
            now - self.activation_time
        } else {
            0
        }) > self.observation_timeout_ms
    }

    /// No watch open, with the given timeout.
    pub fn new(observation_timeout_ms: u64) -> (watch: Self)
        ensures
            watch.state == ReversalState::Idle,
            watch.activation_time == 0,
            watch.last_direction == Side::Buy,
            watch.observation_timeout_ms == observation_timeout_ms,
    {
        ReversalWatch {
            state: ReversalState::Idle,
            activation_time: 0,
            last_direction: Side::Buy,
            observation_timeout_ms,
        }
    }

    /// Opens the watch that a profitable exit on `last_direction` calls for, at
    /// `activation_time`.
    pub fn activate(&mut self, last_direction: Side, activation_time: u64)
        ensures
            final(self).state == watch_after_exit(last_direction),
            final(self).activation_time == activation_time,
            final(self).last_direction == last_direction,
            final(self).observation_timeout_ms == old(self).observation_timeout_ms,
    {
        self.state = match last_direction {
            Side::Buy => ReversalState::ObserveLongToShort,
            Side::Sell => ReversalState::ObserveShortToLong,
        };
        self.activation_time = activation_time;
        self.last_direction = last_direction;
    }

    /// Whether the open watch has lasted longer than its timeout at `now`; an
    /// idle engine never times out.
    #[verifier::when_used_as_spec(spec_timed_out)]
    pub fn timed_out(&self, now: u64) -> (expired: bool)
        ensures
            expired == self.spec_timed_out(now),
    {
        self.state != ReversalState::Idle && now.saturating_sub(self.activation_time)
            > self.observation_timeout_ms
    }

    /// Closes the watch.
    pub fn reset(&mut self)
        ensures
            final(self).state == ReversalState::Idle,
            final(self).activation_time == 0,
            final(self).last_direction == old(self).last_direction,
            final(self).observation_timeout_ms == old(self).observation_timeout_ms,
    {
        self.state = ReversalState::Idle;
        self.activation_time = 0;
    }
}

/// A watch opened at `activation_time` has timed out at every frame stamped more
/// than its timeout later, and a closed watch never times out.
pub proof fn lemma_watch_times_out(
    watch: ReversalWatch,
    last_direction: Side,
    activation_time: u64,
    now: u64,
)
    ensures
        ({
            let opened = ReversalWatch {
                state: watch_after_exit(last_direction),
                activation_time,
                last_direction,
                ..watch
            };
            now > activation_time + watch.observation_timeout_ms ==> opened.spec_timed_out(now)
        }),
        ({
            let closed = ReversalWatch { state: ReversalState::Idle, activation_time: 0, ..watch };
            !closed.spec_timed_out(now)
        }),
{
}

} // verus!
