use rs_algo::bot_messages::{classify_message, get_type, message_type_of, MessageType};
use rs_algo::chat::{plan_chat_command, plan_chat_command_checked, trim_text, ChatAction};
use rs_algo::server_messages::{broker_reply, handle, handle_checked, parse_command, plan_command, position_call,
    session_data_source, BrokerCall, CommandType, Frame, PositionKind, ServerAction, SessionDataSource};
use rs_algo::types::TimeFrameType;

#[test]
fn empty_message_is_an_error() {
    assert!(matches!(get_type(""), MessageType::Error));
    assert!(matches!(classify_message(""), Some(MessageType::Error)));
}

#[test]
fn responses_are_classified() {
    assert!(matches!(get_type(r#"{"response":"Connected","payload":null}"#), MessageType::Connected));
    assert!(matches!(get_type(r#"{"response":"Reconnect","payload":{"clean_data":true}}"#), MessageType::Reconnect));
    assert!(matches!(get_type(r#"{"response":"IsMarketOpen","payload":true}"#), MessageType::IsMarketOpen));
    assert!(matches!(get_type(r#"{"response":"GetMarketHours","payload":{}}"#), MessageType::MarketHours));
    assert!(matches!(get_type(r#"{"response":"Nope"}"#), MessageType::Error));
    assert!(matches!(get_type(r#"{"payload":1}"#), MessageType::Error));
}

#[test]
fn payload_fields_are_read() {
    match get_type(r#"{"response":"GetInstrumentData","payload":{"symbol":"EURUSD","time_frame":"H1","data":[]}}"#) {
        MessageType::InstrumentData { symbol, time_frame } => {
            assert_eq!(symbol, "EURUSD");
            assert_eq!(time_frame, TimeFrameType::H1);
        }
        other => panic!("unexpected {:?}", other),
    }
    match get_type(r#"{"response":"SubscribeStream","payload":["2024-01-01",1,2,3,4,5]}"#) {
        MessageType::StreamResponse { symbol, time_frame } => {
            assert_eq!(symbol, "");
            assert_eq!(time_frame, TimeFrameType::ERR);
        }
        other => panic!("unexpected {:?}", other),
    }
    match get_type(r#"{"response":"TradeInFulfilled","payload":{"symbol":"BTC","accepted":true,"data":{}}}"#) {
        MessageType::TradeInFulfilled { symbol, accepted } => {
            assert_eq!(symbol, "BTC");
            assert!(accepted);
        }
        other => panic!("unexpected {:?}", other),
    }
    match get_type(r#"{"response":"TradeOutFulfilled","payload":{"symbol":"BTC"}}"#) {
        MessageType::TradeOutFulfilled { accepted, .. } => assert!(!accepted),
        other => panic!("unexpected {:?}", other),
    }
}

#[test]
fn non_json_is_refused_by_the_checked_reader() {
    assert!(classify_message("not json").is_none());
}

#[test]
fn message_kinds_by_number() {
    assert!(matches!(message_type_of(7, String::new(), TimeFrameType::ERR, false), MessageType::InstrumentTick));
    assert!(matches!(message_type_of(10, String::new(), TimeFrameType::ERR, false), MessageType::StreamTickResponse));
    assert!(matches!(message_type_of(5, String::new(), TimeFrameType::ERR, false), MessageType::ActivePositions));
    assert!(matches!(message_type_of(99, String::new(), TimeFrameType::ERR, false), MessageType::Error));
}

#[test]
fn commands_by_name() {
    assert_eq!(parse_command("InitSession"), Some(CommandType::InitSession));
    assert_eq!(parse_command("GetHistoricData"), Some(CommandType::GetHistoricData));
    assert_eq!(parse_command("Bogus"), None);
}

#[test]
fn server_plans_text_commands() {
    let f = Frame::Text(r#"{"command":"GetMarketHours","data":{"symbol":"EURUSD"}}"#.to_string());
    match handle(&f) {
        ServerAction::GetMarketHours { symbol } => assert_eq!(symbol, "EURUSD"),
        other => panic!("unexpected {:?}", other),
    }
    let f = Frame::Text(r#"{"command":"GetInstrumentData","data":{"symbol":"EURUSD","time_frame":"M15","num_bars":500}}"#.to_string());
    match handle(&f) {
        ServerAction::GetInstrumentData { symbol, time_frame, num_bars } => {
            assert_eq!(symbol, "EURUSD");
            assert_eq!(time_frame, TimeFrameType::M15);
            assert_eq!(num_bars, Some(500));
        }
        other => panic!("unexpected {:?}", other),
    }
    let f = Frame::Text(r#"{"command":"GetInstrumentData","data":null}"#.to_string());
    match handle(&f) {
        ServerAction::GetInstrumentData { symbol, time_frame, num_bars } => {
            assert_eq!(symbol, "");
            assert_eq!(time_frame, TimeFrameType::ERR);
            assert_eq!(num_bars, None);
        }
        other => panic!("unexpected {:?}", other),
    }
    let f = Frame::Text(r#"{"command":"GetActivePositions","data":{"symbol":"EURUSD","strategy_name":"bb"}}"#.to_string());
    match handle(&f) {
        ServerAction::GetActivePositions { symbol, strategy_name } => {
            assert_eq!(symbol, "EURUSD");
            assert_eq!(strategy_name, "bb");
        }
        other => panic!("unexpected {:?}", other),
    }
    assert!(matches!(handle(&Frame::Text(r#"{"command":"ExecutePosition","data":null}"#.to_string())), ServerAction::NoReply));
    assert!(matches!(handle(&Frame::Text(r#"{"command":"ExecutePosition","data":{"symbol":"X"}}"#.to_string())), ServerAction::ExecutePosition));
    assert!(matches!(handle(&Frame::Text(r#"{"command":"UpdateBotData","data":{"symbol":"X"}}"#.to_string())), ServerAction::UpdateBotData));
    assert!(matches!(handle(&Frame::Text(r#"{"command":"InitSession","data":{"symbol":"X"}}"#.to_string())), ServerAction::InitSession));
    assert!(matches!(handle(&Frame::Text(r#"{"command":"SubscribeStream","data":{"symbol":"X"}}"#.to_string())), ServerAction::SubscribeStream));
    assert!(matches!(handle(&Frame::Text(r#"{"command":"GetHistoricData","data":{"symbol":"X"}}"#.to_string())), ServerAction::NoReply));
    match handle(&Frame::Text(r#"{"command":"GetInstrumentTick","data":{"symbol":"GBPUSD"}}"#.to_string())) {
        ServerAction::GetInstrumentTick { symbol } => assert_eq!(symbol, "GBPUSD"),
        other => panic!("unexpected {:?}", other),
    }
    match handle(&Frame::Text(r#"{"command":"IsMarketOpen","data":{"symbol":"GBPUSD"}}"#.to_string())) {
        ServerAction::IsMarketOpen { symbol } => assert_eq!(symbol, "GBPUSD"),
        other => panic!("unexpected {:?}", other),
    }
}

#[test]
fn server_plans_other_frames() {
    assert!(matches!(handle(&Frame::Pong), ServerAction::RecordPong));
    assert!(matches!(handle(&Frame::Close), ServerAction::CloseSession));
    assert!(matches!(handle(&Frame::Ping), ServerAction::NoReply));
    assert!(matches!(handle(&Frame::Other), ServerAction::NoReply));
}

#[test]
fn unreadable_commands_are_refused() {
    assert!(handle_checked(&Frame::Text("{".to_string())).is_none());
    assert!(handle_checked(&Frame::Text(r#"{"command":"Bogus"}"#.to_string())).is_none());
    assert!(handle_checked(&Frame::Text(r#"{"command":"InitSession"}"#.to_string())).is_none());
    assert!(handle_checked(&Frame::Text(r#"{"command":"GetMarketHours","data":{"symbol":1}}"#.to_string())).is_none());
    assert!(handle_checked(&Frame::Text(r#"{"command":"GetInstrumentData","data":{"symbol":"X"}}"#.to_string())).is_none());
    assert!(handle_checked(&Frame::Text(r#"{"command":"GetMarketHours"}"#.to_string())).is_some());
    assert!(handle_checked(&Frame::Pong).is_some());
}

#[test]
fn broker_replies() {
    let ok: Result<Result<String, ()>, ()> = Ok(Ok("{}".to_string()));
    assert_eq!(broker_reply(ok), Some("{}".to_string()));
    let bad_json: Result<Result<String, ()>, ()> = Ok(Err(()));
    assert_eq!(broker_reply(bad_json), Some(String::new()));
    let failed: Result<Result<String, ()>, u8> = Err(3);
    assert_eq!(broker_reply(failed), None);
}

#[test]
fn chat_subscription_names_room_and_client() {
    let msg = r#"{"command":"subscribe","arguments":{"symbol":"EURUSD","time_frame":"H1","strategy":"bb","strategy_type":"OnlyLong"}}"#;
    match plan_chat_command(msg) {
        ChatAction::Subscribe { room, client } => {
            assert_eq!(room, "EURUSD_H1");
            assert_eq!(client, "bb_OnlyLong");
        }
        other => panic!("unexpected {:?}", other),
    }
    match plan_chat_command(r#"{"command":"leave"}"#) {
        ChatAction::UnknownCommand(c) => assert_eq!(c, "leave"),
        other => panic!("unexpected {:?}", other),
    }
    assert!(matches!(plan_chat_command(r#"{"command":5}"#), ChatAction::WrongFormat));
    assert!(plan_chat_command_checked("oops").is_none());
    assert!(plan_chat_command_checked(r#"{"command":"subscribe","arguments":{"symbol":"X"}}"#).is_none());
}

#[test]
fn chat_commands_are_read_without_surrounding_white_space() {
    assert_eq!(trim_text("\u{c}\u{a0} a b \n"), "a b");
    assert_eq!(trim_text(" \t "), "");
    assert_eq!(trim_text("x"), "x");
    let msg = "\u{c}\u{a0}{\"command\":\"subscribe\",\"arguments\":{\"symbol\":\"EURUSD\",\"time_frame\":\"H1\",\"strategy\":\"bb\",\"strategy_type\":\"OnlyLong\"}}\u{3000}\n";
    match plan_chat_command_checked(msg) {
        Some(ChatAction::Subscribe { room, client }) => {
            assert_eq!(room, "EURUSD_H1");
            assert_eq!(client, "bb_OnlyLong");
        }
        _ => panic!("a padded subscription is read"),
    }
}

#[test]
fn each_position_kind_has_its_broker_call() {
    assert_eq!(position_call(PositionKind::MarketIn), Some(BrokerCall::OpenTrade));
    assert_eq!(position_call(PositionKind::MarketOut), Some(BrokerCall::CloseTrade));
    assert_eq!(position_call(PositionKind::MarketInOrder), Some(BrokerCall::OpenOrder));
    assert_eq!(position_call(PositionKind::MarketOutOrder), Some(BrokerCall::CloseOrder));
    assert_eq!(position_call(PositionKind::Other), None);
}

#[test]
fn commands_are_planned_from_their_fields() {
    match plan_command(CommandType::GetInstrumentData, true, "EURUSD".to_string(), Some("H4".to_string()), Some(300), String::new()) {
        ServerAction::GetInstrumentData { symbol, time_frame, num_bars } => {
            assert_eq!(symbol, "EURUSD");
            assert_eq!(time_frame, TimeFrameType::H4);
            assert_eq!(num_bars, Some(300));
        }
        _ => panic!("a candle request"),
    }
    match plan_command(CommandType::GetInstrumentData, false, String::new(), Some("H4".to_string()), Some(3), String::new()) {
        ServerAction::GetInstrumentData { time_frame, num_bars, .. } => {
            assert_eq!(time_frame, TimeFrameType::ERR);
            assert_eq!(num_bars, None);
        }
        _ => panic!("a candle request"),
    }
    match plan_command(CommandType::GetActivePositions, true, "X".to_string(), None, None, "bb".to_string()) {
        ServerAction::GetActivePositions { symbol, strategy_name } => {
            assert_eq!(symbol, "X");
            assert_eq!(strategy_name, "bb");
        }
        _ => panic!("an active positions request"),
    }
    assert!(matches!(plan_command(CommandType::ExecutePosition, false, String::new(), None, None, String::new()), ServerAction::NoReply));
    assert!(matches!(plan_command(CommandType::UpdateBotData, true, String::new(), None, None, String::new()), ServerAction::UpdateBotData));
}

#[test]
fn stored_bot_data_is_restored() {
    assert!(matches!(session_data_source(Some(5u8)), SessionDataSource::Restore(5)));
    assert!(matches!(session_data_source::<u8>(None), SessionDataSource::InsertNew));
}
