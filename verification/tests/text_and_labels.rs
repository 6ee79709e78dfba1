use scalp_sniper_rtts::adaptive_engine::decision_label;
use scalp_sniper_rtts::accounting::latency::LatencyBreakdown;
use scalp_sniper_rtts::accounting::ledger::LiquidityFlag;
use scalp_sniper_rtts::execution_external::{
    infer_execution_mode, latency_breakdown_from_report, non_negative_ms, parse_liquidity_flag,
    parse_side, side_label, ControlPlaneLatencyBreakdown,
};
use scalp_sniper_rtts::execution_smart::{
    event_id, execution_mode_label, new_event_id, now_ms, order_type_for_mode,
};
use scalp_sniper_rtts::meta_engine::{confirm_window_ms, final_label};
use scalp_sniper_rtts::text::{decimal_string, str_equal};
use scalp_sniper_rtts::types::{Decision, ExecutionMode, FinalDecision, OrderType, Side};

#[test]
fn decimal_rendering() {
    assert_eq!(decimal_string(0), "0");
    assert_eq!(decimal_string(7), "7");
    assert_eq!(decimal_string(10), "10");
    assert_eq!(decimal_string(1_700_000_000_123), "1700000000123");
    assert_eq!(decimal_string(u64::MAX), u64::MAX.to_string());
}

#[test]
fn string_equality() {
    assert!(str_equal("SELL", "SELL"));
    assert!(!str_equal("SELL", "sell"));
    assert!(!str_equal("SELL", "SEL"));
    assert!(str_equal("", ""));
}

#[test]
fn control_plane_side_parsing() {
    assert_eq!(parse_side("SELL"), Side::Sell);
    assert_eq!(parse_side("BUY"), Side::Buy);
    assert_eq!(parse_side("sell"), Side::Buy);
    assert_eq!(parse_side(""), Side::Buy);
}

#[test]
fn control_plane_liquidity_parsing() {
    assert_eq!(parse_liquidity_flag("MAKER"), LiquidityFlag::Maker);
    assert_eq!(parse_liquidity_flag("TAKER"), LiquidityFlag::Taker);
    assert_eq!(parse_liquidity_flag("maker"), LiquidityFlag::Taker);
}

#[test]
fn negative_timestamps_clamp_to_zero() {
    assert_eq!(non_negative_ms(-5), 0);
    assert_eq!(non_negative_ms(0), 0);
    assert_eq!(non_negative_ms(1_700_000_000_000), 1_700_000_000_000);
    assert_eq!(non_negative_ms(i64::MIN), 0);
}

#[test]
fn report_latencies_are_scaled_down_by_a_thousand() {
    let report = ControlPlaneLatencyBreakdown {
        decision_latency: 1_999,
        send_latency: 2_000,
        ack_latency: 999,
        first_fill_latency: 5_000_000,
        full_fill_latency: 12_345_678,
    };
    assert_eq!(
        latency_breakdown_from_report(report),
        LatencyBreakdown {
            decision_latency_us: 1,
            send_latency_us: 2,
            ack_latency_us: 0,
            first_fill_latency_us: 5_000,
            full_fill_latency_us: 12_345,
        }
    );
}

#[test]
fn execution_mode_follows_limit_price() {
    assert_eq!(infer_execution_mode(&Some(67_000.0f64)), ExecutionMode::Passive);
    assert_eq!(infer_execution_mode::<f64>(&None), ExecutionMode::Aggressive);
}

#[test]
fn labels() {
    assert_eq!(side_label(Side::Buy), "buy");
    assert_eq!(side_label(Side::Sell), "sell");
    assert_eq!(decision_label(Decision::Ignore), "ignore");
    assert_eq!(decision_label(Decision::EnterSmall), "enter_small");
    assert_eq!(decision_label(Decision::ScaleIn), "scale_in");
    assert_eq!(decision_label(Decision::Exit), "exit");
    assert_eq!(final_label(FinalDecision::Execute), "execute");
    assert_eq!(final_label(FinalDecision::Wait), "wait");
    assert_eq!(final_label(FinalDecision::Skip), "skip");
    assert_eq!(execution_mode_label(ExecutionMode::Aggressive), "aggressive");
    assert_eq!(execution_mode_label(ExecutionMode::Passive), "passive");
    assert_eq!(execution_mode_label(ExecutionMode::Defensive), "defensive");
}

#[test]
fn order_types_by_mode() {
    assert_eq!(order_type_for_mode(ExecutionMode::Aggressive), OrderType::Market);
    assert_eq!(order_type_for_mode(ExecutionMode::Defensive), OrderType::Market);
    assert_eq!(order_type_for_mode(ExecutionMode::Passive), OrderType::Limit);
}

#[test]
fn event_ids_join_prefix_and_time() {
    assert_eq!(event_id("ord", 42), "ord-42");
    assert_eq!(event_id("fill", 1_700_000_000_000), "fill-1700000000000");
    let fresh = new_event_id("fill");
    assert!(fresh.starts_with("fill-"));
    assert!(fresh["fill-".len()..].chars().all(|c| c.is_ascii_digit()));
    assert!(now_ms() > 1_600_000_000_000);
}

#[test]
fn confirmation_window_is_an_eighth_clamped() {
    assert_eq!(confirm_window_ms(100), 12);
    assert_eq!(confirm_window_ms(8), 3);
    assert_eq!(confirm_window_ms(0), 3);
    assert_eq!(confirm_window_ms(280), 35);
    assert_eq!(confirm_window_ms(1_000), 35);
    assert_eq!(confirm_window_ms(u64::MAX), 35);
}
