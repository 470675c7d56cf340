use rs_algo::error::RsAlgoErrorKind;
use rs_algo::types::{get_market, is_base_time_frame, is_long_strategy, is_mtf_strategy, is_short_strategy, Market,
    StrategyType, TimeFrameType, TradeDirection};

#[test]
fn time_frames_read_and_written_by_name() {
    for name in ["M", "W", "D", "H4", "H1", "M30", "M15", "M5", "M1"] {
        let tf = TimeFrameType::from_str(name);
        assert_ne!(tf, TimeFrameType::ERR);
        assert_eq!(tf.name(), name);
    }
    assert_eq!(TimeFrameType::from_str("H2"), TimeFrameType::ERR);
    assert_eq!(TimeFrameType::from_str(""), TimeFrameType::ERR);
    assert_eq!(TimeFrameType::from_str("m1"), TimeFrameType::ERR);
}

#[test]
fn strategy_types_read_and_written_by_name() {
    for name in ["OnlyLong", "OnlyShort", "LongShort", "OnlyLongMTF", "OnlyShortMTF", "LongShortMTF"] {
        assert_eq!(StrategyType::from_str(name).name(), name);
    }
    assert_eq!(StrategyType::from_str("whatever"), StrategyType::OnlyLongMTF);
}

#[test]
fn strategy_sides() {
    assert!(is_long_strategy(&StrategyType::OnlyLong));
    assert!(!is_short_strategy(&StrategyType::OnlyLong));
    assert!(is_short_strategy(&StrategyType::OnlyShortMTF));
    assert!(!is_long_strategy(&StrategyType::OnlyShortMTF));
    assert!(is_long_strategy(&StrategyType::LongShort) && is_short_strategy(&StrategyType::LongShort));
    assert!(is_mtf_strategy(&StrategyType::LongShortMTF));
    assert!(!is_mtf_strategy(&StrategyType::LongShort));
}

#[test]
fn markets_by_name() {
    assert_eq!(get_market("Forex".to_string()), Market::Forex);
    assert_eq!(get_market("Crypto".to_string()), Market::Crypto);
    assert_eq!(get_market("Stocks".to_string()), Market::Stock);
}

#[test]
fn base_time_frame_is_equality() {
    assert!(is_base_time_frame(&TimeFrameType::M5, &TimeFrameType::M5));
    assert!(!is_base_time_frame(&TimeFrameType::M5, &TimeFrameType::H1));
}

#[test]
fn directions() {
    assert!(TradeDirection::Long.is_long());
    assert!(!TradeDirection::Long.is_short());
    assert!(TradeDirection::Short.is_short());
    assert!(!TradeDirection::Neutral.is_long() && !TradeDirection::Neutral.is_short());
}

#[test]
fn error_messages() {
    assert_eq!(RsAlgoErrorKind::EnvVarNotFound.message(), "EnvVarNotFound!");
    assert_eq!(RsAlgoErrorKind::SocketError.message(), "SocketError!");
    assert_eq!(RsAlgoErrorKind::InvalidAddress.message(), "InvalidAddress!");
    assert_eq!(RsAlgoErrorKind::NoDbConnection.message(), "No Db Connection!");
    assert_eq!(RsAlgoErrorKind::WrongInstrumentConf.message(), "Invalid Instrument!");
    assert_eq!(RsAlgoErrorKind::InvalidPeak.message(), "Invalid Peak!");
    assert_eq!(RsAlgoErrorKind::RequestError.message(), "Error on Request!");
}
