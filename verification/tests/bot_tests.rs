use rs_algo::bot::{Bot, BotBuilder, BotCommand, Environment};
use rs_algo::bot_messages::MessageType;
use rs_algo::error::RsAlgoErrorKind;
use rs_algo::types::{Market, StrategyType, TimeFrameType};

fn builder(st: StrategyType) -> BotBuilder {
    Bot::new()
        .env(Environment::from_str("Development"))
        .symbol("EURUSD".to_string())
        .market(Market::Forex)
        .server_url("ws://localhost:7070".to_string())
        .time_frame(TimeFrameType::M5)
        .strategy_name("BB_Reversals_Backtest_510".to_string())
        .strategy_type(st)
        .higher_time_frame(TimeFrameType::H1)
}

#[test]
fn build_needs_every_setting() {
    let b = Bot::new().symbol("EURUSD".to_string()).build();
    assert_eq!(b.err(), Some(RsAlgoErrorKind::WrongInstrumentConf));
    let bot = builder(StrategyType::OnlyLongMTF).build().ok().unwrap();
    assert_eq!(bot.symbol, "EURUSD");
    assert_eq!(bot.higher_time_frame, Some(TimeFrameType::H1));
    assert!(bot.follows_higher_time_frame);
    let bot = builder(StrategyType::OnlyLong).build().ok().unwrap();
    assert!(!bot.follows_higher_time_frame);
}

#[test]
fn environments() {
    assert_eq!(Environment::from_str("Production"), Environment::Production);
    assert!(Environment::from_str("Production").is_prod());
    assert_eq!(Environment::from_str("Backtesting").value(), "Backtesting");
    assert_eq!(Environment::from_str("anything").value(), "Development");
}

#[test]
fn uuid_seed_lists_the_bot_identity() {
    let bot = builder(StrategyType::LongShortMTF).build().ok().unwrap();
    assert_eq!(bot.uuid_seed(), vec!["Development", "EURUSD", "BB_Reversals_Backtest_510", "M5", "H1", "LongShortMTF"]);
}

#[test]
fn historic_data_asks_for_higher_period_only_for_mtf() {
    let bot = builder(StrategyType::LongShortMTF).build().ok().unwrap();
    assert_eq!(bot.historic_time_frames(), vec![TimeFrameType::M5, TimeFrameType::H1]);
    let bot = builder(StrategyType::OnlyLong).build().ok().unwrap();
    assert_eq!(bot.historic_time_frames(), vec![TimeFrameType::M5]);
}

#[test]
fn session_start_flow() {
    let bot = builder(StrategyType::OnlyLong).build().ok().unwrap();
    assert_eq!(bot.react(&MessageType::Connected, 0), vec![]);
    assert_eq!(bot.react(&MessageType::InitSession, 0), vec![BotCommand::GetMarketHours]);
    assert_eq!(bot.react(&MessageType::MarketHours, 0), vec![BotCommand::IsMarketOpen, BotCommand::StoreMarketHours]);
    assert_eq!(bot.react(&MessageType::IsMarketOpen, 0), vec![BotCommand::GetHistoricData, BotCommand::GetTickData]);
    let data = MessageType::InstrumentData { symbol: "EURUSD".to_string(), time_frame: TimeFrameType::M5 };
    assert_eq!(bot.react(&data, 0), vec![BotCommand::SetInstrumentData, BotCommand::SubscribeStream, BotCommand::SendBotStatus]);
    assert_eq!(bot.react(&MessageType::Reconnect, 3), vec![BotCommand::Reconnect]);
}

#[test]
fn mtf_bot_subscribes_after_higher_candles() {
    let bot = builder(StrategyType::OnlyLongMTF).build().ok().unwrap();
    let base = MessageType::InstrumentData { symbol: "EURUSD".to_string(), time_frame: TimeFrameType::M5 };
    assert_eq!(bot.react(&base, 0), vec![BotCommand::SetInstrumentData, BotCommand::SendBotStatus]);
    let higher = MessageType::InstrumentData { symbol: "EURUSD".to_string(), time_frame: TimeFrameType::H1 };
    assert_eq!(bot.react(&higher, 0),
        vec![BotCommand::SetHigherInstrumentData, BotCommand::SubscribeStream, BotCommand::SendBotStatus]);
}

#[test]
fn trade_answers_and_candles() {
    let bot = builder(StrategyType::OnlyLong).build().ok().unwrap();
    let ok = MessageType::TradeInFulfilled { symbol: "EURUSD".to_string(), accepted: true };
    assert_eq!(bot.react(&ok, 1), vec![BotCommand::SettleTrade, BotCommand::SendBotStatus]);
    let ko = MessageType::TradeOutFulfilled { symbol: "EURUSD".to_string(), accepted: false };
    assert_eq!(bot.react(&ko, 1), vec![BotCommand::SettleTrade]);
    let candle = MessageType::StreamResponse { symbol: "EURUSD".to_string(), time_frame: TimeFrameType::M5 };
    assert_eq!(bot.react(&candle, 1), vec![BotCommand::ProcessCandle]);
    assert_eq!(bot.react(&MessageType::Error, 1), vec![]);
}
