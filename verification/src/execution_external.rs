use crate::accounting::latency::LatencyBreakdown;
use crate::accounting::ledger::LiquidityFlag;
use crate::text::str_equal;
use crate::types::{ExecutionMode, Side};
use vstd::prelude::*;

verus! {

/// The stage latencies that the control plane reports with an execution update.
#[derive(Clone, Copy, Debug, Default, PartialEq, Eq, Structural)]
pub struct ControlPlaneLatencyBreakdown {
    pub decision_latency: u64,
    pub send_latency: u64,
    pub ack_latency: u64,
    pub first_fill_latency: u64,
    pub full_fill_latency: u64,
}

/// The latencies of a control-plane report in microseconds: each stage divided by 1000.
pub fn latency_breakdown_from_report(report: ControlPlaneLatencyBreakdown) -> (breakdown:
    LatencyBreakdown)
    ensures
        breakdown.decision_latency_us == report.decision_latency / 1000,
        breakdown.send_latency_us == report.send_latency / 1000,
        breakdown.ack_latency_us == report.ack_latency / 1000,
        breakdown.first_fill_latency_us == report.first_fill_latency / 1000,
        breakdown.full_fill_latency_us == report.full_fill_latency / 1000,
{
    LatencyBreakdown {
        decision_latency_us: report.decision_latency / 1_000,
        send_latency_us: report.send_latency / 1_000,
        ack_latency_us: report.ack_latency / 1_000,
        first_fill_latency_us: report.first_fill_latency / 1_000,
        full_fill_latency_us: report.full_fill_latency / 1_000,
    }
}

/// The side named by the control plane: `"SELL"` is a sell, anything else a buy.
pub fn parse_side(raw: &str) -> (side: Side)
    ensures
        side == (if raw@ == "SELL"@ {
            Side::Sell
        } else {
            Side::Buy
        }),
{
    if str_equal(raw, "SELL") {
        Side::Sell
    } else {
        Side::Buy
    }
}

/// The liquidity flag named by the control plane: `"MAKER"` is a maker fill,
/// anything else a taker fill.
pub fn parse_liquidity_flag(raw: &str) -> (flag: LiquidityFlag)
    ensures
        flag == (if raw@ == "MAKER"@ {
            LiquidityFlag::Maker
        } else {
            LiquidityFlag::Taker
        }),
{
    if str_equal(raw, "MAKER") {
        LiquidityFlag::Maker
    } else {
        LiquidityFlag::Taker
    }
}

/// How an order was worked, judged by whether it carried a limit price.
pub fn infer_execution_mode<P>(price: &Option<P>) -> (mode: ExecutionMode)
    ensures
        mode == (if price.is_some() {
            ExecutionMode::Passive
        } else {
            ExecutionMode::Aggressive
        }),
{
    if price.is_some() {
        ExecutionMode::Passive
    } else {
        ExecutionMode::Aggressive
    }
}

/// The metric label of a side.
pub fn side_label(side: Side) -> (label: &'static str)
    ensures
        label@ == (match side {
            Side::Buy => "buy"@,
            Side::Sell => "sell"@,
        }),
{
    match side {
        Side::Buy => "buy",
        Side::Sell => "sell",
    }
}

/// A millisecond timestamp that may be negative, clamped at zero.
pub fn non_negative_ms(value: i64) -> (ms: u64)
    ensures
        ms == (if value < 0 {
            0
        } else {
            value
        }),
{
    if value < 0 {
        0
    } else {
        value as u64
    }
}

} // verus!
