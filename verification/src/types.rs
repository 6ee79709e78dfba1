use vstd::prelude::*;

verus! {

/// The side of an order or a trade.
#[derive(Clone, Copy, Debug, PartialEq, Eq, Structural)]
pub enum Side {
    Buy,
    Sell,
}

impl Side {
    /// The other side of the book.
    pub open spec fn spec_opposite(self) -> Side {
        match self {
            Side::Buy => Side::Sell,
            Side::Sell => Side::Buy,
        }
    }

    /// Returns the other side of the book.
    #[verifier::when_used_as_spec(spec_opposite)]
    pub fn opposite(self) -> (res: Side)
        ensures
            res == self.spec_opposite(),
    {
        match self {
            Side::Buy => Side::Sell,
            Side::Sell => Side::Buy,
        }
    }
}

/// Flipping a side twice gives the side back, and a side is never its own opposite.
pub proof fn lemma_opposite_involution(side: Side)
    ensures
        side.opposite().opposite() == side,
        side.opposite() != side,
{
}

/// The direction a decision or a learning sample leans towards.
#[derive(Clone, Copy, Debug, Default, PartialEq, Eq, Structural)]
pub enum Direction {
    Long,
    Short,
    #[default]
    Flat,
}

impl Direction {
    /// The order side that trades in this direction; none when flat.
    pub open spec fn spec_side(self) -> Option<Side> {
        match self {
            Direction::Long => Some(Side::Buy),
            Direction::Short => Some(Side::Sell),
            Direction::Flat => None,
        }
    }

    /// Returns the order side that trades in this direction, or `None` when flat.
    #[verifier::when_used_as_spec(spec_side)]
    pub fn side(self) -> (side: Option<Side>)
        ensures
            side == self.spec_side(),
    {
        match self {
            Direction::Long => Some(Side::Buy),
            Direction::Short => Some(Side::Sell),
            Direction::Flat => None,
        }
    }
}

/// A price event detected in a window of market data.
#[derive(Clone, Copy, Debug, Default, PartialEq, Eq, Structural)]
pub enum Event {
    DumpDetected,
    PumpDetected,
    #[default]
    Neutral,
}

/// What the decision stage asks the position stage to do.
#[derive(Clone, Copy, Debug, Default, PartialEq, Eq, Structural)]
pub enum Decision {
    #[default]
    Ignore,
    EnterSmall,
    ScaleIn,
    Exit,
}

/// How crowded the queue for an opportunity is.
#[derive(Clone, Copy, Debug, Default, PartialEq, Eq, Structural)]
pub enum CompetitionState {
    #[default]
    Normal,
    Competitive,
    Saturated,
}

/// A sign of competition reported with an execution.
#[derive(Clone, Copy, Debug, Default, PartialEq, Eq, Structural)]
pub enum CompetitionFlag {
    #[default]
    NoFlag,
    SlowFill,
    PartialFillToxicity,
    RepeatedOutbid,
    CancelLatency,
}

/// How an order is worked in the market.
#[derive(Clone, Copy, Debug, Default, PartialEq, Eq, Structural)]
pub enum ExecutionMode {
    #[default]
    Passive,
    Aggressive,
    Defensive,
}

/// The order type sent to the exchange.
#[derive(Clone, Copy, Debug, Default, PartialEq, Eq, Structural)]
pub enum OrderType {
    Market,
    #[default]
    Limit,
}

/// The verdict of the meta stage on an order intent.
#[derive(Clone, Copy, Debug, PartialEq, Eq, Structural)]
pub enum FinalDecision {
    Execute,
    Wait,
    Skip,
}

/// What the reversal engine is watching for after a profitable scalp.
#[derive(Clone, Copy, Debug, Default, PartialEq, Eq, Structural)]
pub enum ReversalState {
    #[default]
    Idle,
    ObserveLongToShort,
    ObserveShortToLong,
}

} // verus!
