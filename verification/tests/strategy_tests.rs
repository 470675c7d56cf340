use rs_algo::strategy::{exit_plan, exit_side, find_strategy, last_fulfilled, next_check, open_plan, open_side,
    strategy_settings, trade_in_index, trade_out_kind, ExitPlan, NextCheck, OpenPlan, Position, Side, TradeType};
use rs_algo::types::{StrategyType, TimeFrameType, TradeDirection};

#[test]
fn exit_is_checked_only_with_an_open_confirmed_trade() {
    assert_eq!(next_check(2, 1, Some(true), Some(true)), NextCheck::Exit);
    assert_eq!(next_check(2, 1, None, Some(true)), NextCheck::Exit);
    assert_eq!(next_check(2, 1, Some(false), Some(true)), NextCheck::WaitTradeIn);
    assert_eq!(next_check(1, 1, Some(true), Some(true)), NextCheck::Open);
    assert_eq!(next_check(0, 0, None, None), NextCheck::Open);
    assert_eq!(next_check(1, 1, Some(true), Some(false)), NextCheck::WaitTradeOut);
}

#[test]
fn open_side_follows_strategy_and_direction() {
    let lsm = StrategyType::LongShortMTF;
    assert_eq!(open_side(false, 0, &lsm, &TradeDirection::Long, true), Some(Side::Long));
    assert_eq!(open_side(false, 0, &lsm, &TradeDirection::Short, true), Some(Side::Short));
    assert_eq!(open_side(false, 0, &lsm, &TradeDirection::Neutral, true), None);
    // directions ignored: long side first
    assert_eq!(open_side(false, 0, &lsm, &TradeDirection::Short, false), Some(Side::Long));
    assert_eq!(open_side(false, 0, &StrategyType::OnlyShort, &TradeDirection::Long, false), Some(Side::Short));
    assert_eq!(open_side(false, 0, &StrategyType::OnlyLong, &TradeDirection::Short, true), None);
    // waiting or pending orders block any entry
    assert_eq!(open_side(true, 0, &lsm, &TradeDirection::Long, true), None);
    assert_eq!(open_side(false, 1, &lsm, &TradeDirection::Long, true), None);
}

#[test]
fn open_plan_turns_signals_into_trades() {
    match open_plan(Side::Long, Position::MarketIn(Some(vec![1u8, 2])), false, 0) {
        OpenPlan::MarketIn(t, o) => {
            assert_eq!(t, TradeType::MarketInLong);
            assert_eq!(o, Some(vec![1, 2]));
        }
        _ => panic!("market entry expected"),
    }
    match open_plan(Side::Short, Position::MarketIn(Some(vec![1u8])), false, 3) {
        OpenPlan::MarketIn(t, o) => {
            assert_eq!(t, TradeType::MarketInShort);
            assert_eq!(o, None);
        }
        _ => panic!("market entry expected"),
    }
    match open_plan(Side::Short, Position::Order(vec![9u8]), false, 2) {
        OpenPlan::PendingOrders(t, o) => {
            assert_eq!(t, TradeType::OrderInShort);
            assert!(o.is_empty());
        }
        _ => panic!("orders expected"),
    }
    match open_plan(Side::Long, Position::Order(vec![9u8]), true, 2) {
        OpenPlan::PendingOrders(t, o) => {
            assert_eq!(t, TradeType::OrderInLong);
            assert_eq!(o, vec![9]);
        }
        _ => panic!("orders expected"),
    }
    assert!(matches!(open_plan::<u8>(Side::Long, Position::NoSignal, true, 0), OpenPlan::NoPosition));
    assert!(matches!(open_plan::<u8>(Side::Long, Position::MarketOut(None), true, 0), OpenPlan::NoPosition));
}

#[test]
fn exit_follows_the_open_trade() {
    assert_eq!(exit_side(true, true), Some(Side::Long));
    assert_eq!(exit_side(true, false), Some(Side::Short));
    assert_eq!(exit_side(false, true), None);
    assert!(matches!(exit_plan::<u8>(Side::Long, Position::MarketOut(None)), ExitPlan::MarketOut(TradeType::MarketOutLong)));
    assert!(matches!(exit_plan::<u8>(Side::Short, Position::MarketOut(None)), ExitPlan::MarketOut(TradeType::MarketOutShort)));
    match exit_plan(Side::Short, Position::Order(vec![4u8])) {
        ExitPlan::PendingOrders(t, o) => {
            assert_eq!(t, TradeType::OrderOutShort);
            assert_eq!(o, vec![4]);
        }
        _ => panic!("orders expected"),
    }
    assert!(matches!(exit_plan::<u8>(Side::Long, Position::MarketIn(None)), ExitPlan::NoPosition));
}

#[test]
fn last_confirmed_entry() {
    assert_eq!(last_fulfilled(&vec![true, false, true, false]), Some(2));
    assert_eq!(last_fulfilled(&vec![false, false]), None);
    assert_eq!(last_fulfilled(&vec![]), None);
}

#[test]
fn strategies_found_by_name() {
    let names = vec!["BB_Reversals_Backtest_510".to_string(), "BB_Reversals_Backtest_NoTd".to_string(),
        "BB_Reversals_Backtest_510".to_string()];
    assert_eq!(find_strategy(&names, "BB_Reversals_Backtest_NoTd"), Some(1));
    assert_eq!(find_strategy(&names, "BB_Reversals_Backtest_510"), Some(2));
    assert_eq!(find_strategy(&names, "Macd_Dual"), None);
}

#[test]
fn settings_take_defaults() {
    let s = strategy_settings(None, "Bollinger_Bands_Reversals", None, "M5", None, Some("H1"), None);
    assert_eq!(s.name, "Bollinger_Bands_Reversals");
    assert_eq!(s.strategy_type, StrategyType::OnlyLongMTF);
    assert_eq!(s.time_frame, TimeFrameType::M5);
    assert_eq!(s.higher_time_frame, Some(TimeFrameType::H1));
    assert_eq!(s.trading_direction, TradeDirection::Long);
    let s = strategy_settings(Some("Num_Bars"), "x", Some("M15"), "M5", None, None, Some(StrategyType::OnlyLong));
    assert_eq!(s.name, "Num_Bars");
    assert_eq!(s.time_frame, TimeFrameType::M15);
    assert_eq!(s.higher_time_frame, None);
    let s = strategy_settings(None, "x", None, "M5", Some("H4"), None, Some(StrategyType::OnlyLong));
    assert_eq!(s.higher_time_frame, Some(TimeFrameType::H4));
}

#[test]
fn entries_and_exits_are_taken_at_the_next_candle() {
    assert_eq!(trade_in_index(10, TradeType::EntryLong), Some(11));
    assert_eq!(trade_in_index(10, TradeType::EntryShort), Some(11));
    assert_eq!(trade_in_index(10, TradeType::ExitLong), None);
    assert_eq!(trade_out_kind(10, 5, TradeType::ExitLong, false), Some((TradeType::ExitLong, 11)));
    assert_eq!(trade_out_kind(10, 5, TradeType::EntryLong, true), Some((TradeType::StopLoss, 11)));
    assert_eq!(trade_out_kind(10, 5, TradeType::ExitShort, true), Some((TradeType::StopLoss, 11)));
    assert_eq!(trade_out_kind(10, 5, TradeType::EntryLong, false), None);
    assert_eq!(trade_out_kind(5, 5, TradeType::ExitLong, true), None);
}
