use crate::text::{decimal, decimal_string, is_digit, lemma_decimal_injective, lemma_decimal_reads_back};
use crate::types::{CompetitionFlag, CompetitionState, ExecutionMode, Side};
use vstd::prelude::*;

verus! {

/// How the execution controller currently works an order.
#[derive(Clone, Copy, Debug, PartialEq, Eq, Structural)]
pub enum ExecutionStrategy {
    Passive,
    Aggressive,
    Defensive,
}

impl From<ExecutionMode> for ExecutionStrategy {
    fn from(value: ExecutionMode) -> (strategy: Self) {
        match value {
            ExecutionMode::Passive => ExecutionStrategy::Passive,
            ExecutionMode::Aggressive => ExecutionStrategy::Aggressive,
            ExecutionMode::Defensive => ExecutionStrategy::Defensive,
        }
    }
}

impl vstd::std_specs::convert::FromSpecImpl<ExecutionMode> for ExecutionStrategy {
    open spec fn obeys_from_spec() -> bool {
        true
    }

    open spec fn from_spec(value: ExecutionMode) -> Self {
        match value {
            ExecutionMode::Passive => ExecutionStrategy::Passive,
            ExecutionMode::Aggressive => ExecutionStrategy::Aggressive,
            ExecutionMode::Defensive => ExecutionStrategy::Defensive,
        }
    }
}

/// Why an order ended without a full fill.
#[derive(Clone, Copy, Debug, PartialEq, Eq, Structural)]
pub enum ExecutionFailureReason {
    QueueTooDeep,
    Outbid,
    LatencyTooHigh,
    CompetitionSpike,
    LiquidityPull,
    NoFillTimeout,
}

/// Where an order stands in its life at the exchange.
#[derive(Clone, Copy, Debug, PartialEq, Eq, Structural)]
pub enum OrderLifecycleState {
    New,
    Sent,
    Ack,
    Partial,
    Filled,
    Canceled,
    Rejected,
}

impl OrderLifecycleState {
    /// The order is done: filled, canceled or rejected.
    pub open spec fn spec_is_terminal(self) -> bool {
        self == OrderLifecycleState::Filled || self == OrderLifecycleState::Canceled || self
            == OrderLifecycleState::Rejected
    }

    /// Whether the order is done: filled, canceled or rejected.
    #[verifier::when_used_as_spec(spec_is_terminal)]
    pub fn is_terminal(self) -> (terminal: bool)
        ensures
            terminal == self.spec_is_terminal(),
    {
        match self {
            OrderLifecycleState::Filled | OrderLifecycleState::Canceled
            | OrderLifecycleState::Rejected => true,
            _ => false,
        }
    }
}

/// The competition state that an execution report's flag implies: repeated
/// outbids and toxic partial fills saturate the queue, slow fills and slow
/// cancels make it competitive, and an unflagged report keeps `fallback`.
pub fn competition_state_from_flag(flag: CompetitionFlag, fallback: CompetitionState) -> (state:
    CompetitionState)
    ensures
        state == (match flag {
            CompetitionFlag::RepeatedOutbid | CompetitionFlag::PartialFillToxicity =>
                CompetitionState::Saturated,
            CompetitionFlag::SlowFill | CompetitionFlag::CancelLatency =>
                CompetitionState::Competitive,
            CompetitionFlag::NoFlag => fallback,
        }),
{
    match flag {
        CompetitionFlag::RepeatedOutbid | CompetitionFlag::PartialFillToxicity => {
            CompetitionState::Saturated
        },
        CompetitionFlag::SlowFill | CompetitionFlag::CancelLatency => CompetitionState::Competitive,
        CompetitionFlag::NoFlag => fallback,
    }
}

/// What the execution controller does next with a working order; a replace
/// carries the new limit price.
#[derive(Clone, Copy, Debug, PartialEq)]
pub enum ExecutionAction<P> {
    Hold,
    Cancel,
    Replace { new_price: P },
    SwitchStrategy { new_strategy: ExecutionStrategy },
    Abort,
}

/// The controller's record of what it has done to one order: its lifecycle
/// state, strategy and limit price, how many cancels and replaces it has sent,
/// when it last acted, and the limits and cooldown it acts under.
#[derive(Clone, Copy, Debug)]
pub struct ActionLedger<P> {
    pub status: OrderLifecycleState,
    pub current_strategy: ExecutionStrategy,
    pub current_price: Option<P>,
    pub cancel_count: u32,
    pub replace_count: u32,
    pub last_action_ts: u64,
    pub action_cooldown_ms: u64,
    pub max_cancel_per_order: u32,
    pub max_replace_per_order: u32,
}

/// `count + 1`, held at the largest `u32`.
pub open spec fn bumped(count: u32) -> u32 {
    if count < u32::MAX {
        (count + 1) as u32
    } else {
        count
    }
}

impl<P: Copy> ActionLedger<P> {
    /// The cooldown since the last action has passed at `now_ts`.
    pub open spec fn spec_cooldown_elapsed(&self, now_ts: u64) -> bool {
        (if now_ts >= self.last_action_ts {
            now_ts - self.last_action_ts
        } else {
            0
        }) >= self.action_cooldown_ms
    }

    /// The controller holds the order at `now_ts` whatever the market says.
    pub open spec fn spec_must_hold(&self, now_ts: u64) -> bool {
        self.status.is_terminal() || !self.spec_cooldown_elapsed(now_ts)
    }

    /// The ledger after `action` is carried out at `now_ts`.
    pub open spec fn after_action(self, action: ExecutionAction<P>, now_ts: u64) -> Self {
        let acted = ActionLedger { last_action_ts: now_ts, ..self };
        match action {
            ExecutionAction::Hold => acted,
            ExecutionAction::Cancel => ActionLedger { cancel_count: bumped(self.cancel_count), ..acted },
            ExecutionAction::Replace { new_price } => ActionLedger {
                replace_count: bumped(self.replace_count),
                current_price: Some(new_price),
                ..acted
            },
            ExecutionAction::SwitchStrategy { new_strategy } => ActionLedger {
                current_strategy: new_strategy,
                ..acted
            },
            ExecutionAction::Abort => ActionLedger {
                cancel_count: bumped(self.cancel_count),
                status: OrderLifecycleState::Canceled,
                ..acted
            },
        }
    }

    /// A fresh ledger for a new order.
    pub fn new(
        strategy: ExecutionStrategy,
        price: Option<P>,
        action_cooldown_ms: u64,
        max_cancel_per_order: u32,
        max_replace_per_order: u32,
    ) -> (ledger: Self)
        ensures
            ledger.status == OrderLifecycleState::New,
            ledger.current_strategy == strategy,
            ledger.current_price == price,
            ledger.cancel_count == 0,
            ledger.replace_count == 0,
            ledger.last_action_ts == 0,
            ledger.action_cooldown_ms == action_cooldown_ms,
            ledger.max_cancel_per_order == max_cancel_per_order,
            ledger.max_replace_per_order == max_replace_per_order,
    {
        ActionLedger {
            status: OrderLifecycleState::New,
            current_strategy: strategy,
            current_price: price,
            cancel_count: 0,
            replace_count: 0,
            last_action_ts: 0,
            action_cooldown_ms,
            max_cancel_per_order,
            max_replace_per_order,
        }
    }

    /// Whether the cooldown since the last action has passed at `now_ts`.
    #[verifier::when_used_as_spec(spec_cooldown_elapsed)]
    pub fn cooldown_elapsed(&self, now_ts: u64) -> (elapsed: bool)
        ensures
            elapsed == self.spec_cooldown_elapsed(now_ts),
    {
        now_ts.saturating_sub(self.last_action_ts) >= self.action_cooldown_ms
    }

    /// Whether the controller must hold the order at `now_ts` whatever the market
    /// says: the order is done, or it acted too recently.
    #[verifier::when_used_as_spec(spec_must_hold)]
    pub fn must_hold(&self, now_ts: u64) -> (hold: bool)
        ensures
            hold == self.spec_must_hold(now_ts),
    {
        self.status.is_terminal() || !self.cooldown_elapsed(now_ts)
    }

    /// Whether the replace budget allows another replace: only a passive order is
    /// replaced, and at most `max_replace_per_order` times.
    pub fn replace_allowed(&self) -> (allowed: bool)
        ensures
            allowed == (self.current_strategy == ExecutionStrategy::Passive && self.replace_count
                < self.max_replace_per_order),
    {
        self.current_strategy == ExecutionStrategy::Passive && self.replace_count
            < self.max_replace_per_order
    }

    /// Whether the cancel budget allows another cancel.
    pub fn cancel_allowed(&self) -> (allowed: bool)
        ensures
            allowed == (self.cancel_count < self.max_cancel_per_order),
    {
        self.cancel_count < self.max_cancel_per_order
    }

    /// Records that `action` was carried out at `now_ts`.
    pub fn apply_action(&mut self, action: &ExecutionAction<P>, now_ts: u64)
        ensures
            *final(self) == old(self).after_action(*action, now_ts),
    {
        self.last_action_ts = now_ts;
        match action {
            ExecutionAction::Cancel => {
                self.cancel_count = self.cancel_count.saturating_add(1);
            },
            ExecutionAction::Replace { new_price } => {
                self.replace_count = self.replace_count.saturating_add(1);
                self.current_price = Some(*new_price);
            },
            ExecutionAction::SwitchStrategy { new_strategy } => {
                self.current_strategy = *new_strategy;
            },
            ExecutionAction::Abort => {
                self.cancel_count = self.cancel_count.saturating_add(1);
                self.status = OrderLifecycleState::Canceled;
            },
            ExecutionAction::Hold => {},
        }
    }
}

/// An order that is done stays done whatever the controller carries out, an
/// abort always leaves it done, the counters never go down, and a done order is
/// held at every later time.
pub proof fn lemma_terminal_orders_stay_held<P: Copy>(
    ledger: ActionLedger<P>,
    action: ExecutionAction<P>,
    now_ts: u64,
    later_ts: u64,
)
    ensures
        ledger.status.is_terminal() ==> ledger.after_action(action, now_ts).status.is_terminal(),
        action is Abort ==> ledger.after_action(action, now_ts).status.is_terminal(),
        ledger.after_action(action, now_ts).cancel_count >= ledger.cancel_count,
        ledger.after_action(action, now_ts).replace_count >= ledger.replace_count,
        ledger.status.is_terminal() ==> ledger.after_action(action, now_ts).spec_must_hold(
            later_ts,
        ),
        action is Abort ==> ledger.after_action(action, now_ts).spec_must_hold(later_ts),
{
}

/// Every action carried out at `now_ts`, a hold and a strategy switch included,
/// stamps the ledger with `now_ts`, so the cooldown starts again: until
/// `action_cooldown_ms` have passed the controller must hold the order, and the
/// limits and cooldown themselves are untouched.
pub proof fn lemma_every_action_restarts_cooldown<P: Copy>(
    ledger: ActionLedger<P>,
    action: ExecutionAction<P>,
    now_ts: u64,
    later_ts: u64,
)
    ensures
        ledger.after_action(action, now_ts).last_action_ts == now_ts,
        ledger.after_action(action, now_ts).action_cooldown_ms == ledger.action_cooldown_ms,
        ledger.after_action(action, now_ts).max_cancel_per_order == ledger.max_cancel_per_order,
        ledger.after_action(action, now_ts).max_replace_per_order == ledger.max_replace_per_order,
        now_ts <= later_ts && later_ts - now_ts < ledger.action_cooldown_ms
            ==> ledger.after_action(action, now_ts).spec_must_hold(later_ts),
        later_ts < now_ts && 0 < ledger.action_cooldown_ms
            ==> ledger.after_action(action, now_ts).spec_must_hold(later_ts),
{
}

/// The lower-case word for a side in an idempotency key.
pub open spec fn side_word(side: Side) -> Seq<char> {
    match side {
        Side::Buy => "buy"@,
        Side::Sell => "sell"@,
    }
}

/// The idempotency key `"<symbol>-<timestamp>-<side>"` of an order intent.
pub open spec fn idempotency_key_text(symbol: Seq<char>, timestamp: u64, side: Side) -> Seq<char> {
    symbol + "-"@ + decimal(timestamp as nat) + "-"@ + side_word(side)
}

/// The key under which the control plane deduplicates an order intent for
/// `symbol` on `side` stamped `timestamp`.
pub fn idempotency_key(symbol: &str, timestamp: u64, side: Side) -> (key: String)
    ensures
        key@ == idempotency_key_text(symbol@, timestamp, side),
{
    proof {
        reveal_strlit("buy");
        reveal_strlit("sell");
    }
    let mut key = String::from_str(symbol);
    key.append("-");
    let digits = decimal_string(timestamp);
    key.append(digits.as_str());
    key.append("-");
    match side {
        Side::Buy => key.append("buy"),
        Side::Sell => key.append("sell"),
    }
    key
}

/// The control plane deduplicates by idempotency key, and for one symbol the key
/// identifies the intent: two intents for the same symbol get the same key only
/// when they carry the same timestamp and the same side.
pub proof fn lemma_idempotency_key_identifies_intent(
    symbol: Seq<char>,
    first_timestamp: u64,
    first_side: Side,
    second_timestamp: u64,
    second_side: Side,
)
    requires
        idempotency_key_text(symbol, first_timestamp, first_side) == idempotency_key_text(
            symbol,
            second_timestamp,
            second_side,
        ),
    ensures
        first_timestamp == second_timestamp,
        first_side == second_side,
{
    reveal_strlit("-");
    reveal_strlit("buy");
    reveal_strlit("sell");
    let prefix = symbol + "-"@;
    let d1 = decimal(first_timestamp as nat);
    let d2 = decimal(second_timestamp as nat);
    let w1 = side_word(first_side);
    let w2 = side_word(second_side);
    let k1 = idempotency_key_text(symbol, first_timestamp, first_side);
    let k2 = idempotency_key_text(symbol, second_timestamp, second_side);
    let r1 = d1 + "-"@ + w1;
    let r2 = d2 + "-"@ + w2;
    assert(k1 =~= prefix + r1);
    assert(k2 =~= prefix + r2);
    assert(r1 =~= k1.subrange(prefix.len() as int, k1.len() as int));
    assert(r2 =~= k2.subrange(prefix.len() as int, k2.len() as int));
    assert(r1 == r2);
    lemma_decimal_reads_back(first_timestamp as nat);
    lemma_decimal_reads_back(second_timestamp as nat);
    assert(!is_digit('-'));
    if d1.len() < d2.len() {
        assert(r1[d1.len() as int] == '-');
        assert(r2[d1.len() as int] == d2[d1.len() as int]);
        assert(is_digit(d2[d1.len() as int]));
    } else if d2.len() < d1.len() {
        assert(r2[d2.len() as int] == '-');
        assert(r1[d2.len() as int] == d1[d2.len() as int]);
        assert(is_digit(d1[d2.len() as int]));
    }
    assert(d1.len() == d2.len());
    assert(d1 =~= r1.subrange(0, d1.len() as int));
    assert(d2 =~= r2.subrange(0, d2.len() as int));
    lemma_decimal_injective(first_timestamp as nat, second_timestamp as nat);
    assert(w1 =~= r1.subrange(d1.len() + 1 as int, r1.len() as int));
    assert(w2 =~= r2.subrange(d2.len() + 1 as int, r2.len() as int));
    assert(w1 == w2);
}

} // verus!
