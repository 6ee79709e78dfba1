use crate::clock::wall_clock_ms;
use crate::text::{decimal, decimal_string};
use crate::types::{ExecutionMode, OrderType};
use vstd::prelude::*;

verus! {

/// Milliseconds since the Unix epoch by the system clock; zero when the clock
/// reads before the epoch.
pub fn now_ms() -> u64 {
    match wall_clock_ms() {
        Some(ms) => ms,
        None => 0,
    }
}

/// The identifier `"<prefix>-<millis>"` of an event created at `millis`.
pub open spec fn event_id_text(prefix: Seq<char>, millis: u64) -> Seq<char> {
    prefix + "-"@ + decimal(millis as nat)
}

/// The identifier of an event with the given prefix created at `millis`.
pub fn event_id(prefix: &str, millis: u64) -> (id: String)
    ensures
        id@ == event_id_text(prefix@, millis),
{
    let mut id = String::from_str(prefix);
    id.append("-");
    let digits = decimal_string(millis);
    id.append(digits.as_str());
    id
}

/// A new identifier with the given prefix, stamped with the current time.
pub fn new_event_id(prefix: &str) -> (id: String)
    ensures
        exists|millis: u64| id@ == event_id_text(prefix@, millis),
{
    let millis = now_ms();
    event_id(prefix, millis)
}

/// The order type that an execution mode sends: aggressive and defensive
/// orders go to market, passive ones rest as limits.
pub fn order_type_for_mode(mode: ExecutionMode) -> (order_type: OrderType)
    ensures
        order_type == (match mode {
            ExecutionMode::Aggressive | ExecutionMode::Defensive => OrderType::Market,
            ExecutionMode::Passive => OrderType::Limit,
        }),
{
    match mode {
        ExecutionMode::Aggressive | ExecutionMode::Defensive => OrderType::Market,
        ExecutionMode::Passive => OrderType::Limit,
    }
}

/// The metric label of an execution mode.
pub fn execution_mode_label(mode: ExecutionMode) -> (label: &'static str)
    ensures
        label@ == (match mode {
            ExecutionMode::Aggressive => "aggressive"@,
            ExecutionMode::Passive => "passive"@,
            ExecutionMode::Defensive => "defensive"@,
        }),
{
    match mode {
        ExecutionMode::Aggressive => "aggressive",
        ExecutionMode::Passive => "passive",
        ExecutionMode::Defensive => "defensive",
    }
}

} // verus!
