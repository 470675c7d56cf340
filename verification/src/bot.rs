//! The bot's configuration and how it reacts to what the server tells it.
use vstd::prelude::*;
use crate::bot_messages::MessageType;
use crate::error::RsAlgoErrorKind;
use crate::types::{Market, StrategyType, TimeFrameType, spec_is_mtf, is_mtf_strategy, same_text,
    strategy_type_name, time_frame_name};

verus! {

/// The environment a bot runs in.
#[derive(Copy, Clone, Debug, PartialEq, Eq, Structural)]
pub enum Environment {
    Production,
    Development,
    Backtesting,
}

/// The name of each environment.
pub open spec fn environment_name(env: Environment) -> Seq<char> {
    match env {
        Environment::Production => "Production"@,
        Environment::Development => "Development"@,
        Environment::Backtesting => "Backtesting"@,
    }
}

/// The environment a name stands for; any unknown name is development.
pub open spec fn environment_of(name: Seq<char>) -> Environment {
    if name == "Production"@ {
        Environment::Production
    } else if name == "Backtesting"@ {
        Environment::Backtesting
    } else {
        Environment::Development
    }
}

impl Environment {
    /// Reads an environment from its name.
    pub fn from_str(name: &str) -> (env: Environment)
        ensures
            env == environment_of(name@),
    {
        if same_text(name, "Production") {
            Environment::Production
        } else if same_text(name, "Backtesting") {
            Environment::Backtesting
        } else {
            Environment::Development
        }
    }

    /// The name of the environment.
    pub fn value(&self) -> (name: String)
        ensures
            name@ == environment_name(*self),
    {
        match self {
            Environment::Production => "Production".to_owned(),
            Environment::Development => "Development".to_owned(),
            Environment::Backtesting => "Backtesting".to_owned(),
        }
    }

    /// Whether this is production.
    pub fn is_prod(&self) -> (prod: bool)
        ensures
            prod == (*self == Environment::Production),
    {
        match self {
            Environment::Production => true,
            _ => false,
        }
    }
}

/// A bot's configuration as it is gathered.
pub struct BotBuilder {
    pub env: Option<Environment>,
    pub symbol: Option<String>,
    pub market: Option<Market>,
    pub time_frame: Option<TimeFrameType>,
    pub higher_time_frame: Option<TimeFrameType>,
    pub strategy_name: Option<String>,
    pub strategy_type: Option<StrategyType>,
    pub server_url: Option<String>,
}

/// A complete bot configuration. `follows_higher_time_frame` tells whether the bot keeps
/// candles of its higher period.
pub struct Bot {
    pub env: Environment,
    pub symbol: String,
    pub market: Market,
    pub time_frame: TimeFrameType,
    pub higher_time_frame: Option<TimeFrameType>,
    pub strategy_name: String,
    pub strategy_type: StrategyType,
    pub server_url: String,
    pub follows_higher_time_frame: bool,
}

impl Bot {
    /// Starts gathering a configuration.
    pub fn new() -> (b: BotBuilder)
        ensures
            b.env is None && b.symbol is None && b.market is None && b.time_frame is None,
            b.higher_time_frame is None && b.strategy_name is None && b.strategy_type is None,
            b.server_url is None,
    {
        BotBuilder::new()
    }

    /// The texts from which the bot's session id is made: environment, symbol, strategy,
    /// period, higher period and strategy type.
    pub fn uuid_seed(&self) -> (seed: Vec<String>)
        requires
            self.higher_time_frame is Some,
        ensures
            seed@.len() == 6,
            seed@[0]@ == environment_name(self.env),
            seed@[1]@ == self.symbol@,
            seed@[2]@ == self.strategy_name@,
            seed@[3]@ == time_frame_name(self.time_frame),
            seed@[4]@ == time_frame_name(self.higher_time_frame.unwrap()),
            seed@[5]@ == strategy_type_name(self.strategy_type),
    {
        let mut seed: Vec<String> = Vec::new();
        seed.push(self.env.value());
        seed.push(self.symbol.clone());
        seed.push(self.strategy_name.clone());
        seed.push(self.time_frame.name());
        let htf = self.higher_time_frame.unwrap();
        seed.push(htf.name());
        seed.push(self.strategy_type.name());
        seed
    }

    /// The periods whose candles the bot asks for: its own, and for a strategy that follows
    /// a higher period, that period (or `ERR` without one).
    pub fn historic_time_frames(&self) -> (tfs: Vec<TimeFrameType>)
        ensures
            if spec_is_mtf(self.strategy_type) {
                tfs@ == seq![self.time_frame, match self.higher_time_frame { Some(h) => h, None => TimeFrameType::ERR }]
            } else {
                tfs@ == seq![self.time_frame]
            },
    {
        let mut tfs: Vec<TimeFrameType> = Vec::new();
        tfs.push(self.time_frame);
        if is_mtf_strategy(&self.strategy_type) {
            let htf = match self.higher_time_frame {
                Some(h) => h,
                None => TimeFrameType::ERR,
            };
            tfs.push(htf);
        }
        tfs
    }
}

impl BotBuilder {
    /// An empty configuration.
    pub fn new() -> (b: BotBuilder)
        ensures
            b.env is None && b.symbol is None && b.market is None && b.time_frame is None,
            b.higher_time_frame is None && b.strategy_name is None && b.strategy_type is None,
            b.server_url is None,
    {
        BotBuilder {
            env: None,
            symbol: None,
            market: None,
            time_frame: None,
            higher_time_frame: None,
            strategy_name: None,
            strategy_type: None,
            server_url: None,
        }
    }

    /// Sets the symbol.
    pub fn symbol(self, val: String) -> (b: BotBuilder)
        ensures
            b == (BotBuilder { symbol: Some(val), ..self }),
    {
        BotBuilder { symbol: Some(val), ..self }
    }

    /// Sets the environment.
    pub fn env(self, val: Environment) -> (b: BotBuilder)
        ensures
            b == (BotBuilder { env: Some(val), ..self }),
    {
        BotBuilder { env: Some(val), ..self }
    }

    /// Sets the market.
    pub fn market(self, val: Market) -> (b: BotBuilder)
        ensures
            b == (BotBuilder { market: Some(val), ..self }),
    {
        BotBuilder { market: Some(val), ..self }
    }

    /// Sets the period.
    pub fn time_frame(self, val: TimeFrameType) -> (b: BotBuilder)
        ensures
            b == (BotBuilder { time_frame: Some(val), ..self }),
    {
        BotBuilder { time_frame: Some(val), ..self }
    }

    /// Sets the higher period.
    pub fn higher_time_frame(self, val: TimeFrameType) -> (b: BotBuilder)
        ensures
            b == (BotBuilder { higher_time_frame: Some(val), ..self }),
    {
        BotBuilder { higher_time_frame: Some(val), ..self }
    }

    /// Sets the strategy name.
    pub fn strategy_name(self, val: String) -> (b: BotBuilder)
        ensures
            b == (BotBuilder { strategy_name: Some(val), ..self }),
    {
        BotBuilder { strategy_name: Some(val), ..self }
    }

    /// Sets the strategy type.
    pub fn strategy_type(self, val: StrategyType) -> (b: BotBuilder)
        ensures
            b == (BotBuilder { strategy_type: Some(val), ..self }),
    {
        BotBuilder { strategy_type: Some(val), ..self }
    }

    /// Sets the address of the server.
    pub fn server_url(self, val: String) -> (b: BotBuilder)
        ensures
            b == (BotBuilder { server_url: Some(val), ..self }),
    {
        BotBuilder { server_url: Some(val), ..self }
    }

    /// Whether every setting is given.
    pub open spec fn complete(&self) -> bool {
        self.env is Some && self.symbol is Some && self.market is Some && self.time_frame is Some
            && self.higher_time_frame is Some && self.strategy_name is Some && self.strategy_type is Some
            && self.server_url is Some
    }

    /// The configured bot, once every setting is given; it keeps candles of its higher
    /// period exactly when its strategy follows one. A missing setting is a wrong
    /// instrument configuration.
    pub fn build(self) -> (r: Result<Bot, RsAlgoErrorKind>)
        ensures
            r is Err <==> !self.complete(),
            r matches Err(e) ==> e == RsAlgoErrorKind::WrongInstrumentConf,
            r matches Ok(b) ==> {
                &&& Some(b.env) == self.env
                &&& Some(b.symbol) == self.symbol
                &&& Some(b.market) == self.market
                &&& Some(b.time_frame) == self.time_frame
                &&& b.higher_time_frame == self.higher_time_frame
                &&& Some(b.strategy_name) == self.strategy_name
                &&& Some(b.strategy_type) == self.strategy_type
                &&& Some(b.server_url) == self.server_url
                &&& b.follows_higher_time_frame == spec_is_mtf(b.strategy_type)
            },
    {
        match (self.env, self.symbol, self.market, self.time_frame, self.higher_time_frame,
            self.strategy_name, self.strategy_type, self.server_url) {
            (Some(env), Some(symbol), Some(market), Some(time_frame), Some(higher_time_frame),
                Some(strategy_name), Some(strategy_type), Some(server_url)) => {
                let follows = is_mtf_strategy(&strategy_type);
                Ok(Bot {
                    env,
                    symbol,
                    market,
                    time_frame,
                    higher_time_frame: Some(higher_time_frame),
                    strategy_name,
                    strategy_type,
                    server_url,
                    follows_higher_time_frame: follows,
                })
            },
            _ => Err(RsAlgoErrorKind::WrongInstrumentConf),
        }
    }
}

/// What the bot does in answer to a message from the server.
#[derive(Copy, Clone, Debug, PartialEq, Eq, Structural)]
pub enum BotCommand {
    /// Wait, connect again and start a new session.
    Reconnect,
    GetMarketHours,
    /// Keep the market hours the message carries.
    StoreMarketHours,
    IsMarketOpen,
    /// Ask for the candles of the periods in `historic_time_frames`.
    GetHistoricData,
    GetTickData,
    /// Take the candles the message carries as the bot's own period.
    SetInstrumentData,
    /// Take the candles the message carries as the bot's higher period.
    SetHigherInstrumentData,
    SubscribeStream,
    /// Run the strategy on the candle the message carries.
    ProcessCandle,
    /// Take the broker's answer to the latest entry or exit into the ledger.
    SettleTrade,
    SendBotStatus,
}

impl Bot {
    /// What the bot does in answer to a message. A new session is only started by a bot
    /// that has no trades yet.
    pub fn react(&self, msg: &MessageType, trades_in: usize) -> (cmds: Vec<BotCommand>)
        requires
            msg is InitSession ==> trades_in == 0,
        ensures
            cmds@ == match msg {
                MessageType::Reconnect => seq![BotCommand::Reconnect],
                MessageType::InitSession => seq![BotCommand::GetMarketHours],
                MessageType::MarketHours => seq![BotCommand::IsMarketOpen, BotCommand::StoreMarketHours],
                MessageType::IsMarketOpen => seq![BotCommand::GetHistoricData, BotCommand::GetTickData],
                MessageType::InstrumentData { time_frame, .. } => if *time_frame == self.time_frame {
                    if spec_is_mtf(self.strategy_type) {
                        seq![BotCommand::SetInstrumentData, BotCommand::SendBotStatus]
                    } else {
                        seq![BotCommand::SetInstrumentData, BotCommand::SubscribeStream, BotCommand::SendBotStatus]
                    }
                } else if spec_is_mtf(self.strategy_type) && self.follows_higher_time_frame {
                    seq![BotCommand::SetHigherInstrumentData, BotCommand::SubscribeStream, BotCommand::SendBotStatus]
                } else {
                    seq![BotCommand::SendBotStatus]
                },
                MessageType::StreamResponse { .. } => seq![BotCommand::ProcessCandle],
                MessageType::TradeInFulfilled { accepted, .. } => if *accepted {
                    seq![BotCommand::SettleTrade, BotCommand::SendBotStatus]
                } else {
                    seq![BotCommand::SettleTrade]
                },
                MessageType::TradeOutFulfilled { accepted, .. } => if *accepted {
                    seq![BotCommand::SettleTrade, BotCommand::SendBotStatus]
                } else {
                    seq![BotCommand::SettleTrade]
                },
                _ => Seq::<BotCommand>::empty(),
            },
    {
        let mut cmds: Vec<BotCommand> = Vec::new();
        match msg {
            MessageType::Reconnect => {
                cmds.push(BotCommand::Reconnect);
            },
            MessageType::InitSession => {
                cmds.push(BotCommand::GetMarketHours);
            },
            MessageType::MarketHours => {
                cmds.push(BotCommand::IsMarketOpen);
                cmds.push(BotCommand::StoreMarketHours);
            },
            MessageType::IsMarketOpen => {
                cmds.push(BotCommand::GetHistoricData);
                cmds.push(BotCommand::GetTickData);
            },
            MessageType::InstrumentData { time_frame, .. } => {
                let mtf = is_mtf_strategy(&self.strategy_type);
                if *time_frame == self.time_frame {
                    cmds.push(BotCommand::SetInstrumentData);
                    if !mtf {
                        cmds.push(BotCommand::SubscribeStream);
                    }
                } else if mtf && self.follows_higher_time_frame {
                    cmds.push(BotCommand::SetHigherInstrumentData);
                    cmds.push(BotCommand::SubscribeStream);
                }
                cmds.push(BotCommand::SendBotStatus);
            },
            MessageType::StreamResponse { .. } => {
                cmds.push(BotCommand::ProcessCandle);
            },
            MessageType::TradeInFulfilled { accepted, .. } => {
                cmds.push(BotCommand::SettleTrade);
                if *accepted {
                    cmds.push(BotCommand::SendBotStatus);
                }
            },
            MessageType::TradeOutFulfilled { accepted, .. } => {
                cmds.push(BotCommand::SettleTrade);
                if *accepted {
                    cmds.push(BotCommand::SendBotStatus);
                }
            },
            _ => {},
        }
        proof {
            assert(cmds@ =~= match msg {
                MessageType::Reconnect => seq![BotCommand::Reconnect],
                MessageType::InitSession => seq![BotCommand::GetMarketHours],
                MessageType::MarketHours => seq![BotCommand::IsMarketOpen, BotCommand::StoreMarketHours],
                MessageType::IsMarketOpen => seq![BotCommand::GetHistoricData, BotCommand::GetTickData],
                MessageType::InstrumentData { time_frame, .. } => if *time_frame == self.time_frame {
                    if spec_is_mtf(self.strategy_type) {
                        seq![BotCommand::SetInstrumentData, BotCommand::SendBotStatus]
                    } else {
                        seq![BotCommand::SetInstrumentData, BotCommand::SubscribeStream, BotCommand::SendBotStatus]
                    }
                } else if spec_is_mtf(self.strategy_type) && self.follows_higher_time_frame {
                    seq![BotCommand::SetHigherInstrumentData, BotCommand::SubscribeStream, BotCommand::SendBotStatus]
                } else {
                    seq![BotCommand::SendBotStatus]
                },
                MessageType::StreamResponse { .. } => seq![BotCommand::ProcessCandle],
                MessageType::TradeInFulfilled { accepted, .. } => if *accepted {
                    seq![BotCommand::SettleTrade, BotCommand::SendBotStatus]
                } else {
                    seq![BotCommand::SettleTrade]
                },
                MessageType::TradeOutFulfilled { accepted, .. } => if *accepted {
                    seq![BotCommand::SettleTrade, BotCommand::SendBotStatus]
                } else {
                    seq![BotCommand::SettleTrade]
                },
                _ => Seq::<BotCommand>::empty(),
            });
        }
        cmds
    }
}

} // verus!
