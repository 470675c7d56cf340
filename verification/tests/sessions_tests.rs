use rs_algo::sessions::{create, destroy, find, heartbeat_cutoff, PeerAddr, Session, SessionData, SessionStatus, Sessions};
use rs_algo::types::{StrategyType, TimeFrameType};

fn addr(port: u16) -> PeerAddr {
    PeerAddr { ip: 0x7f00_0001, port }
}

#[test]
fn new_session_is_waiting_for_its_bot() {
    let s = Session::new(7u8);
    assert_eq!(s.symbol, "init");
    assert_eq!(s.strategy, "init");
    assert_eq!(s.time_frame, TimeFrameType::M1);
    assert_eq!(s.strategy_type, StrategyType::OnlyLong);
    assert_eq!(s.client_status, SessionStatus::Up);
    assert_eq!(s.started, s.last_ping);
    assert!(!s.market_open);
    assert_eq!(s.recipient, 7u8);
}

#[test]
fn create_then_get_gives_the_new_session() {
    let mut sessions: Sessions<String> = Sessions::new();
    let a = addr(1000);
    let s = create(&mut sessions, &a, "chan".to_string());
    assert_eq!(s.symbol, "init");
    assert_eq!(s.recipient, "chan");
    assert!(sessions.contains(&a));
    assert_eq!(sessions.len(), 1);
    assert!(!sessions.contains(&addr(1001)));
}

#[test]
fn sessions_of_other_addresses_are_untouched() {
    let mut sessions: Sessions<u32> = Sessions::new();
    let a = addr(1);
    let b = addr(2);
    create(&mut sessions, &a, 1);
    create(&mut sessions, &b, 2);
    find(&mut sessions, &a).update_name("EURUSD", "bb");
    assert_eq!(sessions.get(&a).unwrap().symbol, "EURUSD");
    assert_eq!(sessions.get(&b).unwrap().symbol, "init");
    destroy(&mut sessions, &a);
    assert!(!sessions.contains(&a));
    assert!(sessions.contains(&b));
    assert_eq!(sessions.len(), 1);
}

#[test]
fn create_replaces_the_session_of_an_address() {
    let mut sessions: Sessions<u32> = Sessions::new();
    let a = addr(5);
    create(&mut sessions, &a, 1);
    create(&mut sessions, &a, 2);
    assert_eq!(sessions.len(), 1);
    assert_eq!(sessions.get(&a).unwrap().recipient, 2);
}

#[test]
fn destroy_of_unknown_address_changes_nothing() {
    let mut sessions: Sessions<u32> = Sessions::new();
    create(&mut sessions, &addr(1), 1);
    destroy(&mut sessions, &addr(9));
    assert_eq!(sessions.len(), 1);
}

#[test]
fn bot_name_joins_symbol_period_and_strategy() {
    let mut s = Session::new(());
    s.update_bot_name("EURUSD", "H4", "bb_reversals");
    assert_eq!(s.time_frame, TimeFrameType::H4);
    assert_eq!(s.bot_name(), "EURUSD_H4_bb_reversals");
    assert_eq!(s.symbol(), "EURUSD");
}

#[test]
fn update_data_takes_over_the_report() {
    let mut s = Session::new(());
    s.update_status(SessionStatus::Down);
    s.update_data(SessionData {
        id: 42,
        strategy: "macd".to_string(),
        strategy_type: StrategyType::LongShortMTF,
        symbol: "BTCUSD".to_string(),
        time_frame: TimeFrameType::M15,
    });
    assert_eq!(s.session_id, 42);
    assert_eq!(s.strategy, "macd");
    assert_eq!(s.symbol, "BTCUSD");
    assert_eq!(s.time_frame, TimeFrameType::M15);
    assert_eq!(s.strategy_type, StrategyType::LongShortMTF);
    assert_eq!(s.client_status, SessionStatus::Up);
}

#[test]
fn heartbeat_drops_exactly_the_stale_sessions() {
    let mut sessions: Sessions<u8> = Sessions::new();
    for port in 1..=4u16 {
        create(&mut sessions, &addr(port), port as u8);
    }
    // port 1: named, old data, market open -> stale
    let s = find(&mut sessions, &addr(1));
    s.update_name("EURUSD", "x");
    s.update_market_hours(true);
    s.last_data = 1_000;
    // port 2: still "init" -> kept
    let s = find(&mut sessions, &addr(2));
    s.update_market_hours(true);
    s.last_data = 1_000;
    // port 3: market closed -> kept
    let s = find(&mut sessions, &addr(3));
    s.update_name("EURUSD", "x");
    s.last_data = 1_000;
    // port 4: recent data -> kept
    let s = find(&mut sessions, &addr(4));
    s.update_name("EURUSD", "x");
    s.update_market_hours(true);
    s.last_data = 9_000;

    let cutoff = heartbeat_cutoff(10_000, 5);
    assert_eq!(cutoff, 5_000);
    let removed = sessions.remove_stale(cutoff);
    assert_eq!(removed.len(), 1);
    assert_eq!(removed[0].0, addr(1));
    assert_eq!(removed[0].1.recipient, 1);
    assert_eq!(sessions.len(), 3);
    assert!(!sessions.contains(&addr(1)));
    // a second sweep finds nothing more
    assert_eq!(sessions.remove_stale(cutoff).len(), 0);
}

#[test]
fn stale_needs_data_strictly_before_cutoff() {
    let mut s = Session::new(());
    s.update_name("EURUSD", "x");
    s.update_market_hours(true);
    s.last_data = 5_000;
    assert!(!s.is_stale(5_000));
    assert!(s.is_stale(5_001));
}

#[test]
fn ping_and_data_times_are_recorded() {
    let mut s = Session::started_at((), 5, 1_000);
    assert_eq!(s.started, 1_000);
    assert_eq!(s.last_ping, 1_000);
    assert_eq!(s.last_data, 1_000);
    assert_eq!(s.session_id, 5);
    s.update_ping(2_500);
    assert_eq!(s.last_ping, 2_500);
    assert_eq!(s.last_data, 1_000);
    s.update_last_data(3_000);
    assert_eq!(s.last_data, 3_000);
    assert_eq!(s.last_ping, 2_500);
    assert_eq!(s.started, 1_000);
    assert_eq!(s.symbol, "init");
}
