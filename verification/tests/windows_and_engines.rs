use scalp_sniper_rtts::clock::{age_ms, data_age_ms};
use scalp_sniper_rtts::execution_truth::{sample_duration_ms, MarkoutCapture};
use scalp_sniper_rtts::meta_engine::RecentExecutions;
use scalp_sniper_rtts::model_weights::{is_white_space_char, selects_default_weights};
use scalp_sniper_rtts::reversal_engine::{
    blocking_trend, flip_direction, short_trade_outside_trend, ReversalWatch,
};
use scalp_sniper_rtts::tape::Tape;
use scalp_sniper_rtts::types::{Direction, ReversalState, Side};

#[test]
fn tape_keeps_trades_inside_the_window() {
    let mut tape: Tape<&str, u32> = Tape::new(500, 0);
    tape.observe(1_000, "a");
    tape.observe(1_200, "b");
    tape.observe(1_499, "c");
    assert_eq!(tape.trades().len(), 3);
    tape.observe(1_701, "d");
    let kept: Vec<(u64, &str)> = tape.trades().iter().copied().collect();
    // The cutoff is 1201, so the trade at 1200 leaves.
    assert_eq!(kept, vec![(1_499, "c"), (1_701, "d")]);
    tape.observe(1_700, "e");
    let kept: Vec<(u64, &str)> = tape.trades().iter().copied().collect();
    assert_eq!(kept, vec![(1_499, "c"), (1_701, "d"), (1_700, "e")]);
    tape.observe(1_200, "f");
    assert_eq!(tape.trades().len(), 4);
}

#[test]
fn tape_window_start_is_clamped_at_zero() {
    let mut tape: Tape<u8, ()> = Tape::new(10_000, ());
    tape.observe(0, 1);
    tape.observe(5, 2);
    assert_eq!(tape.trades().len(), 2);
}

#[test]
fn tape_state_is_what_was_recorded() {
    let mut tape: Tape<u8, &str> = Tape::new(100, "empty");
    assert_eq!(*tape.state(), "empty");
    tape.observe(10, 1);
    assert_eq!(*tape.state(), "empty");
    tape.record_state("one trade");
    assert_eq!(*tape.state(), "one trade");
}

#[test]
fn markouts_fill_each_horizon_once() {
    let mut capture: MarkoutCapture<f64> = MarkoutCapture::new(10_000);
    capture.observe(10_050, 100.0);
    assert_eq!(capture.price_100ms, None);
    capture.observe(10_120, 101.0);
    assert_eq!(capture.price_100ms, Some(101.0));
    capture.observe(10_600, 102.0);
    assert_eq!(capture.price_100ms, Some(101.0));
    assert_eq!(capture.price_500ms, Some(102.0));
    assert_eq!(capture.price_1s, None);
    assert!(!capture.is_settled(10_600));
    capture.observe(15_000, 103.0);
    assert_eq!(capture.price_1s, Some(103.0));
    assert_eq!(capture.price_5s, Some(103.0));
    assert!(capture.is_settled(15_000));
}

#[test]
fn markouts_settle_after_grace_without_price() {
    let capture: MarkoutCapture<f64> = MarkoutCapture::new(1_000);
    assert!(!capture.is_settled(6_250));
    assert!(capture.is_settled(6_251));
    assert!(!capture.is_settled(500));
}

#[test]
fn sample_duration_is_whole_milliseconds_at_least_one() {
    assert_eq!(sample_duration_ms(0), 1);
    assert_eq!(sample_duration_ms(999), 1);
    assert_eq!(sample_duration_ms(2_500), 2);
}

#[test]
fn data_age() {
    assert_eq!(age_ms(Some(1_000), 400), 600);
    assert_eq!(age_ms(Some(100), 400), 0);
    assert_eq!(age_ms(None, 400), 0);
    assert!(data_age_ms(0) > 1_600_000_000_000);
    assert_eq!(data_age_ms(u64::MAX), 0);
}

#[test]
fn blank_weight_paths_select_defaults() {
    assert!(selects_default_weights(""));
    assert!(selects_default_weights("   \t\n"));
    assert!(selects_default_weights("\u{3000}\u{a0}"));
    assert!(!selects_default_weights("weights.json"));
    assert!(!selects_default_weights("  w  "));
}

#[test]
fn white_space_matches_std() {
    for code in 0u32..0x3100 {
        if let Some(c) = char::from_u32(code) {
            assert_eq!(is_white_space_char(c), c.is_whitespace(), "{code:#x}");
        }
    }
}

#[test]
fn recent_executions_window() {
    let mut recent = RecentExecutions::new();
    assert_eq!(recent.len(), 0);
    assert_eq!(recent.wins(), 0);
    for i in 0..70 {
        recent.record(i % 3 == 0);
    }
    assert_eq!(recent.len(), 64);
    // The window holds executions 6 to 69; 22 of them are multiples of three.
    assert_eq!(recent.wins(), 22);
}

#[test]
fn reversal_watch_lifecycle() {
    let mut watch = ReversalWatch::new(500);
    assert!(!watch.timed_out(1_000_000));
    watch.activate(Side::Buy, 1_000);
    assert_eq!(watch.state, ReversalState::ObserveLongToShort);
    assert!(!watch.timed_out(1_500));
    assert!(watch.timed_out(2_000));
    watch.reset();
    assert_eq!(watch.state, ReversalState::Idle);
    assert!(!watch.timed_out(2_000));
    watch.activate(Side::Sell, 3_000);
    assert_eq!(watch.state, ReversalState::ObserveShortToLong);
}

#[test]
fn reversal_directions() {
    assert_eq!(flip_direction(ReversalState::ObserveLongToShort), Direction::Short);
    assert_eq!(flip_direction(ReversalState::ObserveShortToLong), Direction::Long);
    assert_eq!(flip_direction(ReversalState::Idle), Direction::Flat);
    assert_eq!(blocking_trend(ReversalState::ObserveLongToShort), Direction::Long);
    assert_eq!(blocking_trend(ReversalState::ObserveShortToLong), Direction::Short);
    assert!(short_trade_outside_trend(500, false));
    assert!(!short_trade_outside_trend(500, true));
    assert!(!short_trade_outside_trend(10_000, false));
}
