use rs_algo::db::db_uri;
use rs_algo::historic::{candle_times, group_by_candle, group_local_times, local_candle_times, round_down_to_interval, taken_records,
    HistoricError, LocalTime};
use rs_algo::stream::{after_forward, on_stream_event, ClientAction, ClientEvent, CloseReason, HeartbeatMonitor, ListenerStep, ReconnectOptions,
    StreamAction, StreamEvent};
use rs_algo::types::TimeFrameType;

fn t(day: i64, hour: u32, minute: u32, second: u32) -> LocalTime {
    LocalTime { day, hour, minute, second, nanosecond: 123 }
}

#[test]
fn rounding_to_candle_starts() {
    let x = t(1, 13, 47, 30);
    assert_eq!(round_down_to_interval(x, &TimeFrameType::M5), LocalTime { minute: 45, second: 0, nanosecond: 0, ..x });
    assert_eq!(round_down_to_interval(x, &TimeFrameType::M15), LocalTime { minute: 45, second: 0, nanosecond: 0, ..x });
    assert_eq!(round_down_to_interval(x, &TimeFrameType::M30), LocalTime { minute: 30, second: 0, nanosecond: 0, ..x });
    assert_eq!(round_down_to_interval(x, &TimeFrameType::H1), LocalTime { minute: 0, second: 0, nanosecond: 0, ..x });
    assert_eq!(round_down_to_interval(x, &TimeFrameType::H4),
        LocalTime { hour: 12, minute: 0, second: 0, nanosecond: 0, ..x });
    assert_eq!(round_down_to_interval(x, &TimeFrameType::M1), x);
    let r = round_down_to_interval(x, &TimeFrameType::M15);
    assert_eq!(round_down_to_interval(r, &TimeFrameType::M15), r);
}

#[test]
fn records_grouped_into_ordered_candles() {
    let times = vec![t(1, 10, 7, 0), t(1, 10, 2, 0), t(1, 9, 59, 0), t(1, 10, 9, 0), t(1, 10, 12, 0)];
    let groups = group_by_candle(&times, &TimeFrameType::M5, 0);
    let starts: Vec<(u32, u32)> = groups.iter().map(|g| (g.0.hour, g.0.minute)).collect();
    assert_eq!(starts, vec![(9, 55), (10, 0), (10, 5), (10, 10)]);
    let members: Vec<Vec<usize>> = groups.into_iter().map(|g| g.1).collect();
    assert_eq!(members, vec![vec![2], vec![1], vec![0, 3], vec![4]]);
}

#[test]
fn record_limit() {
    let times = vec![t(1, 10, 0, 0), t(1, 11, 0, 0), t(1, 12, 0, 0)];
    assert_eq!(group_by_candle(&times, &TimeFrameType::H1, 2).len(), 2);
    assert_eq!(group_by_candle(&times, &TimeFrameType::H1, 10).len(), 3);
    assert_eq!(group_by_candle(&times, &TimeFrameType::H1, -1).len(), 0);
    assert_eq!(group_by_candle(&times, &TimeFrameType::H4, 0).len(), 2);
}

#[test]
fn database_address() {
    assert_eq!(db_uri("", "", "mongodb://localhost:27017"), "mongodb://localhost:27017");
    assert_eq!(db_uri("bot", "pw", "db:27017"), "mongodb://bot:pw@db:27017");
}

#[test]
fn stream_events() {
    assert!(matches!(on_stream_event(StreamEvent::Data("tick".to_string())), StreamAction::Forward(ref s) if s == "tick"));
    assert!(matches!(on_stream_event(StreamEvent::Closed), StreamAction::ReconnectAndStop(ReconnectOptions { clean_data: true })));
    assert!(matches!(on_stream_event(StreamEvent::KeepaliveTick), StreamAction::Keepalive));
    assert_eq!(after_forward(true), ListenerStep::KeepListening);
    assert_eq!(after_forward(false), ListenerStep::Stop);
}

#[test]
fn heartbeat_closes_silent_clients() {
    let mut m = HeartbeatMonitor::new(1_000);
    assert!(matches!(m.on_event(ClientEvent::HeartbeatTick, 5_000, 10_000), ClientAction::SendPing));
    assert!(matches!(m.on_event(ClientEvent::Pong, 6_000, 10_000), ClientAction::Continue));
    assert_eq!(m.last_heartbeat, 6_000);
    assert!(matches!(m.on_event(ClientEvent::HeartbeatTick, 16_000, 10_000), ClientAction::SendPing));
    assert!(matches!(m.on_event(ClientEvent::HeartbeatTick, 16_001, 10_000), ClientAction::Close(None)));
    match m.on_event(ClientEvent::Ping(vec![1, 2]), 17_000, 10_000) {
        ClientAction::Pong(b) => assert_eq!(b, vec![1, 2]),
        _ => panic!("a ping is answered"),
    }
    assert_eq!(m.last_heartbeat, 17_000);
    match m.on_event(ClientEvent::Text("x".to_string()), 1, 1) {
        ClientAction::EchoAndProcess(t) => assert_eq!(t, "x"),
        _ => panic!("text is echoed"),
    }
    match m.on_event(ClientEvent::Binary(vec![9]), 1, 1) {
        ClientAction::EchoBinary(b) => assert_eq!(b, vec![9]),
        _ => panic!("binary is echoed"),
    }
    match m.on_event(ClientEvent::RoomMessage("hi".to_string()), 1, 1) {
        ClientAction::Send(t) => assert_eq!(t, "hi"),
        _ => panic!("room messages are passed on"),
    }
    let reason = || CloseReason { code: 1000, description: Some("bye".to_string()) };
    match m.on_event(ClientEvent::Close(Some(reason())), 1, 1) {
        ClientAction::Close(r) => assert_eq!(r, Some(reason())),
        _ => panic!("a close ends the connection"),
    }
    assert!(matches!(m.on_event(ClientEvent::StreamEnded, 1, 1), ClientAction::Close(None)));
    assert_eq!(m.last_heartbeat, 17_000);
    // a clock going back does not close the connection
    let mut m = HeartbeatMonitor::new(50_000);
    assert!(matches!(m.on_event(ClientEvent::HeartbeatTick, 10, 5), ClientAction::SendPing));
}

#[test]
fn stream_texts_are_forwarded_in_order() {
    let events = vec![
        StreamEvent::Data("a".to_string()),
        StreamEvent::KeepaliveTick,
        StreamEvent::Data("b".to_string()),
        StreamEvent::Data("c".to_string()),
        StreamEvent::Closed,
    ];
    let mut sent = Vec::new();
    let mut stopped = false;
    for e in events {
        match on_stream_event(e) {
            StreamAction::Forward(t) => sent.push(t),
            StreamAction::Keepalive => {}
            StreamAction::ReconnectAndStop(o) => {
                assert!(o.clean_data);
                stopped = true;
            }
        }
    }
    assert_eq!(sent, vec!["a", "b", "c"]);
    assert!(stopped);
}

#[test]
fn candle_dates_are_read_and_grouped() {
    let dates: Vec<String> = ["20240102 101000", "20240102 101400", "20240102 102000", "garbage"]
        .iter()
        .map(|d| d.to_string())
        .collect();
    // the unreadable fourth record is past the limit, so it is never looked at
    let groups = candle_times(&dates, &TimeFrameType::M5, 3).unwrap();
    assert_eq!(groups.len(), 2);
    assert_eq!(groups[0].1, vec![0, 1]);
    assert_eq!(groups[1].1, vec![2]);
    assert_eq!((groups[0].0.hour, groups[0].0.minute, groups[0].0.second), (10, 10, 0));
    assert_eq!((groups[1].0.hour, groups[1].0.minute), (10, 20));
    // with no limit it is read, and the whole read fails
    assert_eq!(candle_times(&dates, &TimeFrameType::M5, 0).err(), Some(HistoricError::File));
    // a negative limit reads nothing
    assert!(candle_times(&dates, &TimeFrameType::M5, -1).unwrap().is_empty());
    assert_eq!(taken_records(4, 3), 3);
    assert_eq!(taken_records(4, 0), 4);
    assert_eq!(taken_records(4, -2), 0);
    assert_eq!(taken_records(4, 9), 4);
}

#[test]
fn local_grouping_fails_exactly_on_a_refused_date() {
    let t = |minute: u32| LocalTime { day: 738_000, hour: 10, minute, second: 0, nanosecond: 0 };
    let times = vec![t(1), t(3), t(7)];
    let groups = group_local_times(&times, &vec![true, true, true], &TimeFrameType::M5).unwrap();
    assert_eq!(groups.len(), 2);
    assert_eq!(groups[0].1, vec![0, 1]);
    assert_eq!(groups[1].1, vec![2]);
    assert_eq!(group_local_times(&times, &vec![true, false, true], &TimeFrameType::M5).err(), Some(HistoricError::File));
    // no record read: an empty list, whatever the machine
    let dates: Vec<String> = vec!["20240102 101000".to_string()];
    assert!(local_candle_times(&dates, &TimeFrameType::M5, -1).unwrap().is_empty());
    assert!(local_candle_times(&Vec::new(), &TimeFrameType::M5, 0).unwrap().is_empty());
}
