use scalp_sniper_rtts::accounting::edge_validation::{push_state_capped, EdgeRegime, EdgeState};
use scalp_sniper_rtts::accounting::ledger::{
    opposite_lot_index, push_lot, LiquidityFlag, LotMatchingMethod,
};
use scalp_sniper_rtts::types::{CompetitionState, Direction, Side};
use scalp_sniper_rtts::window::push_capped;
use std::collections::VecDeque;

#[test]
fn opposite_flips_the_side() {
    assert_eq!(Side::Buy.opposite(), Side::Sell);
    assert_eq!(Side::Sell.opposite(), Side::Buy);
    assert_eq!(Side::Sell.opposite().opposite(), Side::Sell);
}

#[test]
fn direction_maps_to_order_side() {
    assert_eq!(Direction::Long.side(), Some(Side::Buy));
    assert_eq!(Direction::Short.side(), Some(Side::Sell));
    assert_eq!(Direction::Flat.side(), None);
}

#[test]
fn defaults_match_the_engine() {
    assert_eq!(EdgeState::default(), EdgeState::Uncertain);
    assert_eq!(EdgeRegime::default(), EdgeRegime::Stable);
    assert_eq!(CompetitionState::default(), CompetitionState::Normal);
    assert_eq!(LiquidityFlag::default(), LiquidityFlag::Taker);
    assert_eq!(LotMatchingMethod::default(), LotMatchingMethod::Fifo);
}

#[test]
fn capped_push_drops_oldest_when_full() {
    let mut queue: VecDeque<u64> = VecDeque::new();
    for value in 0..5u64 {
        push_capped(&mut queue, value, 3);
    }
    assert_eq!(queue, VecDeque::from(vec![2, 3, 4]));
}

#[test]
fn capped_push_with_zero_capacity_still_appends() {
    let mut queue: VecDeque<u64> = VecDeque::new();
    push_capped(&mut queue, 9, 0);
    assert_eq!(queue, VecDeque::from(vec![9]));
}

#[test]
fn competition_states_window_is_capped() {
    let mut queue = VecDeque::new();
    push_state_capped(&mut queue, CompetitionState::Normal, 2);
    push_state_capped(&mut queue, CompetitionState::Competitive, 2);
    push_state_capped(&mut queue, CompetitionState::Saturated, 2);
    assert_eq!(
        queue,
        VecDeque::from(vec![CompetitionState::Competitive, CompetitionState::Saturated])
    );
}

#[test]
fn fifo_closes_oldest_opposite_lot() {
    let lots = [Side::Buy, Side::Sell, Side::Buy, Side::Sell];
    assert_eq!(opposite_lot_index(&lots, Side::Buy, LotMatchingMethod::Fifo), Some(1));
    assert_eq!(opposite_lot_index(&lots, Side::Sell, LotMatchingMethod::Fifo), Some(0));
}

#[test]
fn lifo_closes_newest_opposite_lot() {
    let lots = [Side::Buy, Side::Sell, Side::Buy, Side::Sell];
    assert_eq!(opposite_lot_index(&lots, Side::Buy, LotMatchingMethod::Lifo), Some(3));
    assert_eq!(opposite_lot_index(&lots, Side::Sell, LotMatchingMethod::Lifo), Some(2));
}

#[test]
fn same_side_fill_closes_nothing() {
    let lots = [Side::Buy, Side::Buy];
    assert_eq!(opposite_lot_index(&lots, Side::Buy, LotMatchingMethod::Fifo), None);
    assert_eq!(opposite_lot_index(&lots, Side::Buy, LotMatchingMethod::Lifo), None);
    assert_eq!(opposite_lot_index(&[], Side::Sell, LotMatchingMethod::Fifo), None);
}

#[test]
fn new_lots_go_to_the_back() {
    let mut lots = VecDeque::from(vec![1, 2]);
    push_lot(&mut lots, 3, LotMatchingMethod::Lifo);
    push_lot(&mut lots, 4, LotMatchingMethod::Fifo);
    assert_eq!(lots, VecDeque::from(vec![1, 2, 3, 4]));
}
