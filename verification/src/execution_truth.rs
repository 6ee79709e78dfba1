use vstd::prelude::*;

verus! {

/// The first markout horizon, in milliseconds after the fill.
pub const MARKOUT_100_MS: u64 = 100;

/// The second markout horizon.
pub const MARKOUT_500_MS: u64 = 500;

/// The third markout horizon.
pub const MARKOUT_1S: u64 = 1_000;

/// The last markout horizon.
pub const MARKOUT_5S: u64 = 5_000;

/// How long past the last horizon a fill waits for a market price before it is
/// settled without one.
pub const MARKOUT_GRACE_MS: u64 = 250;

/// The market prices seen at each markout horizon after a fill.
#[derive(Clone, Copy, Debug, PartialEq, Eq)]
pub struct MarkoutCapture<P> {
    pub created_at: u64,
    pub price_100ms: Option<P>,
    pub price_500ms: Option<P>,
    pub price_1s: Option<P>,
    pub price_5s: Option<P>,
}

/// Milliseconds from `created_at` to `market_ts`; zero for an earlier market time.
pub open spec fn elapsed_since(created_at: u64, market_ts: u64) -> u64 {
    if market_ts >= created_at {
        (market_ts - created_at) as u64
    } else {
        0
    }
}

/// A horizon slot after a market price at `elapsed`: an empty slot whose horizon
/// has passed takes the price, any other slot stays as it was.
pub open spec fn capture_slot<P>(slot: Option<P>, elapsed: u64, horizon: u64, price: P) -> Option<
    P,
> {
    if elapsed >= horizon && slot is None {
        Some(price)
    } else {
        slot
    }
}

impl<P: Copy> MarkoutCapture<P> {
    /// The horizons captured so far form a prefix: a later horizon is captured
    /// only once every earlier one is.
    pub open spec fn captures_in_order(self) -> bool {
        &&& self.price_500ms is Some ==> self.price_100ms is Some
        &&& self.price_1s is Some ==> self.price_500ms is Some
        &&& self.price_5s is Some ==> self.price_1s is Some
    }

    /// A fill stamped `created_at` with no markout price yet.
    pub fn new(created_at: u64) -> (capture: Self)
        ensures
            capture.created_at == created_at,
            capture.price_100ms is None,
            capture.price_500ms is None,
            capture.price_1s is None,
            capture.price_5s is None,
    {
        MarkoutCapture {
            created_at,
            price_100ms: None,
            price_500ms: None,
            price_1s: None,
            price_5s: None,
        }
    }

    /// The capture after the market price `price` is seen at `market_ts`.
    pub open spec fn after_price(self, market_ts: u64, price: P) -> Self {
        let elapsed = elapsed_since(self.created_at, market_ts);
        MarkoutCapture {
            created_at: self.created_at,
            price_100ms: capture_slot(self.price_100ms, elapsed, MARKOUT_100_MS, price),
            price_500ms: capture_slot(self.price_500ms, elapsed, MARKOUT_500_MS, price),
            price_1s: capture_slot(self.price_1s, elapsed, MARKOUT_1S, price),
            price_5s: capture_slot(self.price_5s, elapsed, MARKOUT_5S, price),
        }
    }

    /// Records the market price seen at `market_ts` in every horizon that has
    /// passed and has no price yet.
    pub fn observe(&mut self, market_ts: u64, price: P)
        ensures
            *final(self) == old(self).after_price(market_ts, price),
    {
        let elapsed = market_ts.saturating_sub(self.created_at);
        if elapsed >= MARKOUT_100_MS && self.price_100ms.is_none() {
            self.price_100ms = Some(price);
        }
        if elapsed >= MARKOUT_500_MS && self.price_500ms.is_none() {
            self.price_500ms = Some(price);
        }
        if elapsed >= MARKOUT_1S && self.price_1s.is_none() {
            self.price_1s = Some(price);
        }
        if elapsed >= MARKOUT_5S && self.price_5s.is_none() {
            self.price_5s = Some(price);
        }
    }

    /// Whether the fill is done at `market_ts`: its last horizon is captured, or
    /// the grace period after that horizon has run out.
    pub fn is_settled(&self, market_ts: u64) -> (settled: bool)
        ensures
            settled == (self.price_5s is Some || elapsed_since(self.created_at, market_ts)
                > MARKOUT_5S + MARKOUT_GRACE_MS),
    {
        self.price_5s.is_some() || market_ts.saturating_sub(self.created_at) > MARKOUT_5S
            + MARKOUT_GRACE_MS
    }
}

/// Observing prices keeps the captured horizons a prefix, never replaces a
/// captured price, and a fill whose last horizon has passed is settled.
pub proof fn lemma_observe_keeps_order<P: Copy>(before: MarkoutCapture<P>, market_ts: u64, price: P)
    requires
        before.captures_in_order(),
    ensures
        ({
            let after = before.after_price(market_ts, price);
            &&& after.captures_in_order()
            &&& before.price_100ms is Some ==> after.price_100ms == before.price_100ms
            &&& before.price_500ms is Some ==> after.price_500ms == before.price_500ms
            &&& before.price_1s is Some ==> after.price_1s == before.price_1s
            &&& before.price_5s is Some ==> after.price_5s == before.price_5s
            &&& elapsed_since(before.created_at, market_ts) >= MARKOUT_5S ==> after.price_5s is Some
        }),
{
}

/// A price seen `elapsed` milliseconds after the fill (zero for a time before it)
/// lands in every empty horizon that has been reached: 100 ms, 500 ms, 1 s and
/// 5 s; an empty horizon not yet reached stays empty, a filled one keeps its
/// price, and the fill time is kept.
pub proof fn lemma_price_fills_reached_horizons<P: Copy>(
    before: MarkoutCapture<P>,
    market_ts: u64,
    price: P,
)
    ensures
        ({
            let after = before.after_price(market_ts, price);
            let elapsed: int = if market_ts >= before.created_at {
                market_ts - before.created_at
            } else {
                0
            };
            &&& after.created_at == before.created_at
            &&& before.price_100ms is None && elapsed >= 100 ==> after.price_100ms == Some(price)
            &&& before.price_100ms is None && elapsed < 100 ==> after.price_100ms is None
            &&& before.price_100ms is Some ==> after.price_100ms == before.price_100ms
            &&& before.price_500ms is None && elapsed >= 500 ==> after.price_500ms == Some(price)
            &&& before.price_500ms is None && elapsed < 500 ==> after.price_500ms is None
            &&& before.price_500ms is Some ==> after.price_500ms == before.price_500ms
            &&& before.price_1s is None && elapsed >= 1_000 ==> after.price_1s == Some(price)
            &&& before.price_1s is None && elapsed < 1_000 ==> after.price_1s is None
            &&& before.price_1s is Some ==> after.price_1s == before.price_1s
            &&& before.price_5s is None && elapsed >= 5_000 ==> after.price_5s == Some(price)
            &&& before.price_5s is None && elapsed < 5_000 ==> after.price_5s is None
            &&& before.price_5s is Some ==> after.price_5s == before.price_5s
        }),
{
}

/// The duration credited to a learning sample from an execution's latency:
/// whole milliseconds, at least one.
pub fn sample_duration_ms(execution_latency_us: u64) -> (duration: u64)
    ensures
        duration == (if execution_latency_us / 1000 < 1 {
            1
        } else {
            execution_latency_us / 1000
        }),
{
    let ms = execution_latency_us / 1_000;
    if ms < 1 {
        1
    } else {
        ms
    }
}

} // verus!
