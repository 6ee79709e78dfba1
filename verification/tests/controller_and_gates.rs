use scalp_sniper_rtts::execution_controller::{
    competition_state_from_flag, idempotency_key, ActionLedger, ExecutionAction,
    ExecutionFailureReason, ExecutionStrategy, OrderLifecycleState,
};
use scalp_sniper_rtts::learning::{lockout_due, OutcomeStreak};
use scalp_sniper_rtts::risk::{rejection_label, RiskGate, RiskRejection, RiskVerdict};
use scalp_sniper_rtts::types::{CompetitionFlag, CompetitionState, ExecutionMode, Side};

#[test]
fn idempotency_key_format() {
    assert_eq!(idempotency_key("BTCUSDT", 1_000, Side::Buy), "BTCUSDT-1000-buy");
    assert_eq!(idempotency_key("ETHUSDT", 1_700_000_000, Side::Sell), "ETHUSDT-1700000000-sell");
    assert_ne!(
        idempotency_key("BTCUSDT", 1_000, Side::Buy),
        idempotency_key("BTCUSDT", 1_000, Side::Sell)
    );
    assert_ne!(
        idempotency_key("BTCUSDT", 10, Side::Buy),
        idempotency_key("BTCUSDT", 100, Side::Buy)
    );
}

#[test]
fn terminal_states() {
    assert!(OrderLifecycleState::Filled.is_terminal());
    assert!(OrderLifecycleState::Canceled.is_terminal());
    assert!(OrderLifecycleState::Rejected.is_terminal());
    assert!(!OrderLifecycleState::New.is_terminal());
    assert!(!OrderLifecycleState::Sent.is_terminal());
    assert!(!OrderLifecycleState::Ack.is_terminal());
    assert!(!OrderLifecycleState::Partial.is_terminal());
}

#[test]
fn competition_from_execution_flags() {
    let fallback = CompetitionState::Competitive;
    assert_eq!(
        competition_state_from_flag(CompetitionFlag::RepeatedOutbid, CompetitionState::Normal),
        CompetitionState::Saturated
    );
    assert_eq!(
        competition_state_from_flag(CompetitionFlag::PartialFillToxicity, fallback),
        CompetitionState::Saturated
    );
    assert_eq!(
        competition_state_from_flag(CompetitionFlag::SlowFill, CompetitionState::Normal),
        CompetitionState::Competitive
    );
    assert_eq!(
        competition_state_from_flag(CompetitionFlag::CancelLatency, CompetitionState::Saturated),
        CompetitionState::Competitive
    );
    assert_eq!(competition_state_from_flag(CompetitionFlag::NoFlag, fallback), fallback);
}

#[test]
fn strategy_from_mode() {
    assert_eq!(ExecutionStrategy::from(ExecutionMode::Passive), ExecutionStrategy::Passive);
    assert_eq!(ExecutionStrategy::from(ExecutionMode::Aggressive), ExecutionStrategy::Aggressive);
    assert_eq!(ExecutionStrategy::from(ExecutionMode::Defensive), ExecutionStrategy::Defensive);
    assert_ne!(ExecutionFailureReason::Outbid, ExecutionFailureReason::QueueTooDeep);
}

fn ledger() -> ActionLedger<f64> {
    ActionLedger::new(ExecutionStrategy::Passive, Some(100.0), 10, 2, 3)
}

#[test]
fn cooldown_blocks_actions_until_it_passes() {
    let mut book = ledger();
    assert!(!book.must_hold(1_000));
    book.apply_action(&ExecutionAction::Cancel, 1_000);
    assert_eq!(book.cancel_count, 1);
    assert_eq!(book.last_action_ts, 1_000);
    assert!(book.must_hold(1_009));
    assert!(!book.must_hold(1_010));
    assert!(book.must_hold(500));
}

#[test]
fn replace_updates_price_and_budget() {
    let mut book = ledger();
    for step in 0..3u64 {
        assert!(book.replace_allowed());
        book.apply_action(&ExecutionAction::Replace { new_price: 100.5 + step as f64 }, 1_000 + step * 20);
    }
    assert_eq!(book.replace_count, 3);
    assert_eq!(book.current_price, Some(102.5));
    assert!(!book.replace_allowed());
}

#[test]
fn cancel_budget_is_respected() {
    let mut book = ledger();
    book.apply_action(&ExecutionAction::Cancel, 100);
    assert!(book.cancel_allowed());
    book.apply_action(&ExecutionAction::Cancel, 200);
    assert!(!book.cancel_allowed());
}

#[test]
fn switched_orders_are_not_replaced() {
    let mut book = ledger();
    book.apply_action(
        &ExecutionAction::SwitchStrategy { new_strategy: ExecutionStrategy::Aggressive },
        50,
    );
    assert_eq!(book.current_strategy, ExecutionStrategy::Aggressive);
    assert!(!book.replace_allowed());
}

#[test]
fn abort_cancels_and_holds_forever() {
    let mut book = ledger();
    book.apply_action(&ExecutionAction::Abort, 1_500);
    assert_eq!(book.status, OrderLifecycleState::Canceled);
    assert_eq!(book.cancel_count, 1);
    assert!(book.must_hold(1_000_000));
    book.apply_action(&ExecutionAction::Hold, 2_000);
    assert_eq!(book.status, OrderLifecycleState::Canceled);
    assert_eq!(book.last_action_ts, 2_000);
}

#[test]
fn counters_saturate() {
    let mut book = ledger();
    book.cancel_count = u32::MAX;
    book.apply_action(&ExecutionAction::Cancel, 1);
    assert_eq!(book.cancel_count, u32::MAX);
}

#[test]
fn risk_gate_forwards_clean_intents() {
    let mut gate = RiskGate::new();
    assert_eq!(gate.screen(Ok(()), false), RiskVerdict::Forward);
    assert!(!gate.is_tripped());
}

#[test]
fn ordinary_rejections_do_not_trip_the_switch() {
    let mut gate = RiskGate::new();
    assert_eq!(
        gate.screen(Err(RiskRejection::Notional), false),
        RiskVerdict::Reject(RiskRejection::Notional)
    );
    assert!(!gate.is_tripped());
    assert_eq!(gate.screen(Ok(()), false), RiskVerdict::Forward);
}

#[test]
fn daily_drawdown_trips_and_latches() {
    let mut gate = RiskGate::new();
    assert_eq!(
        gate.screen(Err(RiskRejection::DailyDrawdown), false),
        RiskVerdict::Reject(RiskRejection::DailyDrawdown)
    );
    assert!(gate.is_tripped());
    assert_eq!(
        gate.screen(Ok(()), false),
        RiskVerdict::Reject(RiskRejection::KillSwitch)
    );
    assert_eq!(
        gate.screen(Err(RiskRejection::BadSize), true),
        RiskVerdict::Reject(RiskRejection::KillSwitch)
    );
}

#[test]
fn abnormal_score_trips_the_switch() {
    let mut gate = RiskGate::new();
    assert_eq!(gate.screen(Ok(()), true), RiskVerdict::TripKillSwitch);
    assert!(gate.is_tripped());
    assert_eq!(gate.screen(Ok(()), false), RiskVerdict::Reject(RiskRejection::KillSwitch));
}

#[test]
fn rejection_labels() {
    assert_eq!(rejection_label(RiskRejection::KillSwitch), "kill_switch");
    assert_eq!(rejection_label(RiskRejection::BadSize), "bad_size");
    assert_eq!(rejection_label(RiskRejection::BadPrice), "bad_price");
    assert_eq!(rejection_label(RiskRejection::TradeRisk), "trade_risk");
    assert_eq!(rejection_label(RiskRejection::Notional), "notional");
    assert_eq!(rejection_label(RiskRejection::DailyDrawdown), "daily_drawdown");
}

#[test]
fn losing_streak_and_lockout() {
    let mut streak = OutcomeStreak::new();
    streak.record(false);
    streak.record(false);
    assert_eq!(streak.consecutive_losses, 2);
    assert!(!lockout_due(streak.consecutive_losses, 3));
    streak.record(false);
    assert!(lockout_due(streak.consecutive_losses, 3));
    streak.record(true);
    assert_eq!(streak.consecutive_losses, 0);
    assert_eq!(streak.samples, 4);
}
