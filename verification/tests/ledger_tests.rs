use rs_algo::ledger::{on_candle, Ledger, PositionResult, TradeResult};

type L = Ledger<u32, u32, u8>;
type R = PositionResult<u32, u32, u8>;

#[test]
fn entries_are_capped_by_max_buy_orders() {
    let mut l: L = Ledger::new();
    l.add_trade_in(&1, 2);
    l.add_trade_in(&2, 2);
    l.add_trade_in(&3, 2);
    assert_eq!(l.trades_in, vec![1, 2]);
    l.add_trade_out(&10);
    l.add_trade_in(&3, 2);
    assert_eq!(l.trades_in, vec![1, 2, 3]);
}

#[test]
fn exits_never_outnumber_entries() {
    let mut l: L = Ledger::new();
    l.add_trade_out(&10);
    assert!(l.trades_out.is_empty());
    l.add_trade_in(&1, 1);
    l.add_trade_out(&10);
    l.add_trade_out(&11);
    assert_eq!(l.trades_out, vec![10]);
}

#[test]
fn market_entry_is_sent_once_and_opens_a_position() {
    let mut l: L = Ledger::new();
    let entry: R = PositionResult::MarketIn(TradeResult::TradeIn(1), Some(vec![7, 8]));
    assert!(l.process_activated_positions(&entry, 1));
    assert!(l.open_positions);
    assert_eq!(l.trades_in, vec![1]);
    assert_eq!(l.orders, vec![7, 8]);
    // a second entry while open is not sent; its orders are not added, nor is the trade (cap 1)
    assert!(!l.process_activated_positions(&entry, 1));
    assert_eq!(l.orders, vec![7, 8]);
    assert_eq!(l.trades_in, vec![1]);
}

#[test]
fn market_exit_closes_the_position() {
    let mut l: L = Ledger::new();
    l.process_activated_positions(&PositionResult::MarketIn(TradeResult::TradeIn(1), None), 3);
    let exit: R = PositionResult::MarketOut(TradeResult::TradeOut(5));
    assert!(l.process_activated_positions(&exit, 3));
    assert!(!l.open_positions);
    assert_eq!(l.trades_out, vec![5]);
    // an exit without position is not sent
    assert!(!l.process_activated_positions(&exit, 3));
}

#[test]
fn pending_orders_added_only_without_position() {
    let mut l: L = Ledger::new();
    let pending: R = PositionResult::PendingOrder(vec![1, 2]);
    assert!(!l.process_activated_positions(&pending, 1));
    assert_eq!(l.orders, vec![1, 2]);
    l.open_positions = true;
    l.process_activated_positions(&pending, 1);
    assert_eq!(l.orders, vec![1, 2]);
    assert!(!l.process_activated_positions(&PositionResult::NoPosition, 1));
}

/// Marks an order as fulfilled by adding 100 to it.
fn fulfil(order: u8) -> impl Fn(&Vec<u8>) -> Vec<u8> {
    move |orders: &Vec<u8>| orders.iter().map(|o| if *o == order { o + 100 } else { *o }).collect()
}

#[test]
fn hit_orders_are_taken_when_they_change_the_position() {
    let mut l: L = Ledger::new();
    l.add_pending(&vec![3, 4]);
    let buy: R = PositionResult::MarketInOrder(TradeResult::TradeIn(1), 3);
    assert!(l.process_activated_orders(&buy, 1, fulfil(3)));
    assert!(l.open_positions);
    assert_eq!(l.trades_in, vec![1]);
    assert_eq!(l.orders, vec![103, 4]);
    assert!(!l.process_activated_orders(&buy, 1, fulfil(4)));
    assert_eq!(l.orders, vec![103, 4]);
    let sell: R = PositionResult::MarketOutOrder(TradeResult::TradeOut(9), 4);
    assert!(l.process_activated_orders(&sell, 1, fulfil(4)));
    assert!(!l.open_positions);
    assert_eq!(l.trades_out, vec![9]);
    assert_eq!(l.orders, vec![103, 104]);
    assert!(!l.fullfill_activated_order(&PositionResult::NoPosition, fulfil(3)));
    assert_eq!(l.orders, vec![103, 104]);
}

#[test]
fn candle_step_handles_position_then_orders_then_expiry() {
    let drop_all = |_: &Vec<u8>| Vec::new();
    // no position: an entry with its orders is sent, then the hit order is not taken,
    // and with a position held nothing expires
    let mut l: L = Ledger::new();
    let entry: R = PositionResult::MarketIn(TradeResult::TradeIn(1), Some(vec![7, 8]));
    let hit: R = PositionResult::MarketInOrder(TradeResult::TradeIn(2), 7);
    assert_eq!(on_candle(&mut l, &entry, &hit, 5, fulfil(7), drop_all), (true, false));
    assert!(l.open_positions);
    assert_eq!(l.trades_in, vec![1, 2]);
    assert_eq!(l.orders, vec![7, 8]);
    // a hit exit order closes the position; the remaining orders expire
    let exit_hit: R = PositionResult::MarketOutOrder(TradeResult::TradeOut(9), 8);
    assert_eq!(on_candle(&mut l, &PositionResult::NoPosition, &exit_hit, 5, fulfil(8), drop_all), (false, true));
    assert!(!l.open_positions);
    assert_eq!(l.trades_out, vec![9]);
    assert!(l.orders.is_empty());
    // new pending orders without position, nothing hit: they are added, then the expiry
    // rule keeps only the even ones
    let pending: R = PositionResult::PendingOrder(vec![1, 2, 3, 4]);
    let keep_even = |v: &Vec<u8>| v.iter().copied().filter(|o| o % 2 == 0).collect::<Vec<u8>>();
    assert_eq!(on_candle(&mut l, &pending, &PositionResult::NoPosition, 5, fulfil(1), keep_even), (false, false));
    assert_eq!(l.orders, vec![2, 4]);
}

#[test]
fn broker_answers_settle_trades() {
    let mut l: L = Ledger::new();
    l.add_pending(&vec![1, 2]);
    l.add_trade_in(&1, 5);
    l.settle_trade_in(100, true, fulfil(1));
    assert_eq!(l.trades_in, vec![100]);
    assert!(l.open_positions);
    assert_eq!(l.orders, vec![101, 2]);
    l.add_trade_out(&2);
    l.settle_trade_out(200, false, fulfil(2));
    assert!(l.trades_out.is_empty());
    assert!(l.open_positions);
    assert_eq!(l.orders, vec![101, 2]);
    l.add_trade_out(&3);
    l.settle_trade_out(300, true, fulfil(2));
    assert_eq!(l.trades_out, vec![300]);
    assert!(!l.open_positions);
    assert_eq!(l.orders, vec![101, 102]);
    l.add_trade_in(&3, 5);
    l.settle_trade_in(400, false, |_: &Vec<u8>| Vec::new());
    assert_eq!(l.trades_in, vec![100]);
    assert!(!l.open_positions);
    assert!(l.orders.is_empty());
}

#[test]
fn clean_previous_data_forgets_everything() {
    let mut l: L = Ledger::new();
    l.add_trade_in(&1, 5);
    l.add_pending(&vec![1, 2, 3]);
    l.clean_previous_data();
    assert!(l.trades_in.is_empty() && l.trades_out.is_empty() && l.orders.is_empty());
}
