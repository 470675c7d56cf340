//! How the server reads what a bot sends it and what it answers.
use vstd::prelude::*;
use crate::json::{json_text, json_text_in, json_int_in, json_null, json_text_at, json_text_in_at,
    json_int_in_at, json_null_at};
use crate::types::{TimeFrameType, same_text, time_frame_of};

verus! {

/// The commands a bot sends.
#[derive(Copy, Clone, Debug, PartialEq, Eq, Structural)]
pub enum CommandType {
    InitSession,
    GetMarketHours,
    IsMarketOpen,
    GetInstrumentData,
    GetHistoricData,
    ExecutePosition,
    GetActivePositions,
    UpdateBotData,
    GetInstrumentTick,
    SubscribeStream,
}

/// The command a name stands for.
pub open spec fn command_of(name: Seq<char>) -> Option<CommandType> {
    if name == "InitSession"@ { Some(CommandType::InitSession) }
    else if name == "GetMarketHours"@ { Some(CommandType::GetMarketHours) }
    else if name == "IsMarketOpen"@ { Some(CommandType::IsMarketOpen) }
    else if name == "GetInstrumentData"@ { Some(CommandType::GetInstrumentData) }
    else if name == "GetHistoricData"@ { Some(CommandType::GetHistoricData) }
    else if name == "ExecutePosition"@ { Some(CommandType::ExecutePosition) }
    else if name == "GetActivePositions"@ { Some(CommandType::GetActivePositions) }
    else if name == "UpdateBotData"@ { Some(CommandType::UpdateBotData) }
    else if name == "GetInstrumentTick"@ { Some(CommandType::GetInstrumentTick) }
    else if name == "SubscribeStream"@ { Some(CommandType::SubscribeStream) }
    else { None }
}

/// Reads a command from its name.
pub fn parse_command(name: &str) -> (c: Option<CommandType>)
    ensures
        c == command_of(name@),
{
    if same_text(name, "InitSession") { Some(CommandType::InitSession) }
    else if same_text(name, "GetMarketHours") { Some(CommandType::GetMarketHours) }
    else if same_text(name, "IsMarketOpen") { Some(CommandType::IsMarketOpen) }
    else if same_text(name, "GetInstrumentData") { Some(CommandType::GetInstrumentData) }
    else if same_text(name, "GetHistoricData") { Some(CommandType::GetHistoricData) }
    else if same_text(name, "ExecutePosition") { Some(CommandType::ExecutePosition) }
    else if same_text(name, "GetActivePositions") { Some(CommandType::GetActivePositions) }
    else if same_text(name, "UpdateBotData") { Some(CommandType::UpdateBotData) }
    else if same_text(name, "GetInstrumentTick") { Some(CommandType::GetInstrumentTick) }
    else if same_text(name, "SubscribeStream") { Some(CommandType::SubscribeStream) }
    else { None }
}

/// A WebSocket frame from a bot.
pub enum Frame {
    Ping,
    Pong,
    Text(String),
    Close,
    Other,
}

/// What the server does with a frame from a bot.
#[derive(Debug)]
pub enum ServerAction {
    /// Nothing is answered.
    NoReply,
    /// The bot answered a ping: its session's ping time is updated.
    RecordPong,
    /// The bot starts its session; the payload is the bot's data.
    InitSession,
    GetMarketHours { symbol: String },
    IsMarketOpen { symbol: String },
    /// Candles for a symbol; the period and number of bars come from the command, or
    /// (without payload) the period is unknown and the number of bars is configured.
    GetInstrumentData { symbol: String, time_frame: TimeFrameType, num_bars: Option<i64> },
    /// A position to send to the broker; the payload says which.
    ExecutePosition,
    GetActivePositions { symbol: String, strategy_name: String },
    /// The bot's data is stored and its session's data time is updated.
    UpdateBotData,
    GetInstrumentTick { symbol: String },
    /// The broker's stream for the session is forwarded to the bot.
    SubscribeStream,
    /// The bot hung up: its session is closed.
    CloseSession,
}

/// Whether the text command carries a payload.
pub open spec fn has_data(msg: Seq<char>) -> bool {
    json_null(msg, "data"@) == Some(false)
}

/// The command of a text frame.
pub open spec fn text_command(msg: Seq<char>) -> Option<CommandType> {
    match json_text(msg, "command"@) {
        Some(Some(name)) => command_of(name),
        _ => None,
    }
}

/// The symbol of a text command: the payload's `symbol`, or empty without payload.
pub open spec fn text_symbol(msg: Seq<char>) -> Seq<char> {
    if has_data(msg) {
        match json_text_in(msg, "data"@, "symbol"@) {
            Some(Some(s)) => s,
            _ => Seq::empty(),
        }
    } else {
        Seq::empty()
    }
}

/// A text frame the server can read: JSON with a known command; a payload, when present,
/// has a symbol; the session start carries a payload; a candle request with payload names
/// its period and number of bars.
pub open spec fn well_formed_command(msg: Seq<char>) -> bool {
    &&& json_null(msg, "data"@) is Some
    &&& text_command(msg) is Some
    &&& has_data(msg) ==> (json_text_in(msg, "data"@, "symbol"@) matches Some(Some(_)))
    &&& text_command(msg) == Some(CommandType::InitSession) ==> has_data(msg)
    &&& (text_command(msg) == Some(CommandType::GetInstrumentData) && has_data(msg)) ==> {
        &&& (json_text_in(msg, "data"@, "time_frame"@) matches Some(Some(_)))
        &&& (json_int_in(msg, "data"@, "num_bars"@) matches Some(Some(_)))
    }
}

/// The payload's strategy name, or empty.
pub open spec fn text_strategy_name(msg: Seq<char>) -> Seq<char> {
    if has_data(msg) {
        match json_text_in(msg, "data"@, "strategy_name"@) {
            Some(Some(s)) => s,
            _ => Seq::empty(),
        }
    } else {
        Seq::empty()
    }
}

/// What the server does with a command, from what the command carries: whether it has a
/// payload, its symbol, period name, number of bars and strategy name.
pub open spec fn spec_command_action(command: CommandType, has_data: bool, symbol: Seq<char>,
    time_frame: Option<Seq<char>>, num_bars: Option<i64>, strategy_name: Seq<char>, a: ServerAction) -> bool {
    match command {
        CommandType::InitSession => a is InitSession,
        CommandType::GetMarketHours => a matches ServerAction::GetMarketHours { symbol: s } && s@ == symbol,
        CommandType::IsMarketOpen => a matches ServerAction::IsMarketOpen { symbol: s } && s@ == symbol,
        CommandType::GetInstrumentData => a matches ServerAction::GetInstrumentData { symbol: s, time_frame: t, num_bars: n }
            && s@ == symbol
            && (if has_data {
                t == (match time_frame { Some(name) => time_frame_of(name), None => TimeFrameType::ERR })
                    && n == num_bars
            } else {
                t == TimeFrameType::ERR && n is None
            }),
        CommandType::ExecutePosition => if has_data { a is ExecutePosition } else { a is NoReply },
        CommandType::GetActivePositions => a matches ServerAction::GetActivePositions { symbol: s, strategy_name: n }
            && s@ == symbol && n@ == strategy_name,
        CommandType::UpdateBotData => if has_data { a is UpdateBotData } else { a is NoReply },
        CommandType::GetInstrumentTick => a matches ServerAction::GetInstrumentTick { symbol: s } && s@ == symbol,
        CommandType::SubscribeStream => a is SubscribeStream,
        CommandType::GetHistoricData => a is NoReply,
    }
}

/// The period name of a text command's payload, if it has one.
pub open spec fn text_time_frame(msg: Seq<char>) -> Option<Seq<char>> {
    match json_text_in(msg, "data"@, "time_frame"@) {
        Some(Some(t)) => Some(t),
        _ => None,
    }
}

/// The number of bars of a text command's payload, if it has one.
pub open spec fn text_num_bars(msg: Seq<char>) -> Option<i64> {
    match json_int_in(msg, "data"@, "num_bars"@) {
        Some(n) => n,
        None => None,
    }
}

/// What the server does with a text command.
pub open spec fn spec_text_action(msg: Seq<char>, a: ServerAction) -> bool {
    spec_command_action(text_command(msg).unwrap(), has_data(msg), text_symbol(msg), text_time_frame(msg),
        text_num_bars(msg), text_strategy_name(msg), a)
}

/// Decides what to do with a command, from what it carries (see `spec_command_action`).
pub fn plan_command(command: CommandType, has_data: bool, symbol: String, time_frame: Option<String>,
    num_bars: Option<i64>, strategy_name: String) -> (a: ServerAction)
    ensures
        spec_command_action(command, has_data, symbol@, match time_frame { Some(t) => Some(t@), None => None },
            num_bars, strategy_name@, a),
{
    match command {
        CommandType::InitSession => ServerAction::InitSession,
        CommandType::GetMarketHours => ServerAction::GetMarketHours { symbol },
        CommandType::IsMarketOpen => ServerAction::IsMarketOpen { symbol },
        CommandType::GetInstrumentData => {
            if has_data {
                let time_frame = match time_frame {
                    Some(t) => TimeFrameType::from_str(t.as_str()),
                    None => TimeFrameType::ERR,
                };
                ServerAction::GetInstrumentData { symbol, time_frame, num_bars }
            } else {
                ServerAction::GetInstrumentData { symbol, time_frame: TimeFrameType::ERR, num_bars: None }
            }
        },
        CommandType::ExecutePosition => if has_data { ServerAction::ExecutePosition } else { ServerAction::NoReply },
        CommandType::GetActivePositions => ServerAction::GetActivePositions { symbol, strategy_name },
        CommandType::UpdateBotData => if has_data { ServerAction::UpdateBotData } else { ServerAction::NoReply },
        CommandType::GetInstrumentTick => ServerAction::GetInstrumentTick { symbol },
        CommandType::SubscribeStream => ServerAction::SubscribeStream,
        CommandType::GetHistoricData => ServerAction::NoReply,
    }
}

/// Decides what to do with a text command the server can read: it reads the command and
/// what it carries, then decides as `plan_command` does.
pub fn plan_text(msg: &str) -> (a: ServerAction)
    requires
        well_formed_command(msg@),
    ensures
        spec_text_action(msg@, a),
{
    let data_null = json_null_at(msg, "data");
    let has_data = match data_null {
        Some(n) => !n,
        None => false,
    };
    let name = match json_text_at(msg, "command") {
        Some(Some(n)) => n,
        _ => String::new(),
    };
    let command = parse_command(name.as_str()).unwrap();
    let symbol: String = if has_data {
        match json_text_in_at(msg, "data", "symbol") {
            Some(Some(s)) => s,
            _ => String::new(),
        }
    } else {
        String::new()
    };
    let time_frame: Option<String> = match json_text_in_at(msg, "data", "time_frame") {
        Some(Some(t)) => Some(t),
        _ => None,
    };
    let num_bars: Option<i64> = match json_int_in_at(msg, "data", "num_bars") {
        Some(n) => n,
        None => None,
    };
    let strategy_name: String = if has_data {
        match json_text_in_at(msg, "data", "strategy_name") {
            Some(Some(s)) => s,
            _ => String::new(),
        }
    } else {
        String::new()
    };
    plan_command(command, has_data, symbol, time_frame, num_bars, strategy_name)
}

/// The kinds of position a bot asks the server to execute: a market entry or exit, or an
/// entry or exit order that was hit, each with its trade; `Other` for anything else.
#[derive(Copy, Clone, Debug, PartialEq, Eq, Structural)]
pub enum PositionKind {
    MarketIn,
    MarketOut,
    MarketInOrder,
    MarketOutOrder,
    Other,
}

/// The broker operations that execute a position.
#[derive(Copy, Clone, Debug, PartialEq, Eq, Structural)]
pub enum BrokerCall {
    OpenTrade,
    CloseTrade,
    OpenOrder,
    CloseOrder,
}

/// The broker operation for a kind of position: a market entry opens a trade, a market exit
/// closes one, an entry order opens an order and an exit order closes one. Any other
/// position has no operation, and the server cannot execute it.
pub fn position_call(kind: PositionKind) -> (c: Option<BrokerCall>)
    ensures
        c == match kind {
            PositionKind::MarketIn => Some(BrokerCall::OpenTrade),
            PositionKind::MarketOut => Some(BrokerCall::CloseTrade),
            PositionKind::MarketInOrder => Some(BrokerCall::OpenOrder),
            PositionKind::MarketOutOrder => Some(BrokerCall::CloseOrder),
            PositionKind::Other => None,
        },
{
    match kind {
        PositionKind::MarketIn => Some(BrokerCall::OpenTrade),
        PositionKind::MarketOut => Some(BrokerCall::CloseTrade),
        PositionKind::MarketInOrder => Some(BrokerCall::OpenOrder),
        PositionKind::MarketOutOrder => Some(BrokerCall::CloseOrder),
        PositionKind::Other => None,
    }
}

/// Where the data of a starting session comes from: the bot's stored data when the
/// database has it, else the data the bot sent, which is then stored.
pub enum SessionDataSource<B> {
    Restore(B),
    InsertNew,
}

/// Decides where a starting session's data comes from, from what the database holds
/// under the bot's id.
pub fn session_data_source<B>(stored: Option<B>) -> (src: SessionDataSource<B>)
    ensures
        match stored {
            Some(b) => src matches SessionDataSource::Restore(r) && r == b,
            None => src is InsertNew,
        },
{
    match stored {
        Some(b) => SessionDataSource::Restore(b),
        None => SessionDataSource::InsertNew,
    }
}

/// What the server does with a frame: a pong updates the session, a close ends it, a text
/// command is planned by `plan_text`, anything else is ignored.
pub fn handle(frame: &Frame) -> (a: ServerAction)
    requires
        frame matches Frame::Text(msg) ==> well_formed_command(msg@),
    ensures
        match frame {
            Frame::Pong => a is RecordPong,
            Frame::Close => a is CloseSession,
            Frame::Text(msg) => spec_text_action(msg@, a),
            _ => a is NoReply,
        },
{
    match frame {
        Frame::Pong => ServerAction::RecordPong,
        Frame::Close => ServerAction::CloseSession,
        Frame::Text(msg) => plan_text(msg.as_str()),
        _ => ServerAction::NoReply,
    }
}

/// Checks that a text command can be read, as `well_formed_command` says.
pub fn command_is_well_formed(msg: &str) -> (ok: bool)
    ensures
        ok == well_formed_command(msg@),
{
    let data_null = json_null_at(msg, "data");
    if data_null.is_none() {
        return false;
    }
    let has_data = data_null == Some(false);
    let command = match json_text_at(msg, "command") {
        Some(Some(n)) => parse_command(n.as_str()),
        _ => None,
    };
    match command {
        None => false,
        Some(c) => {
            if has_data {
                match json_text_in_at(msg, "data", "symbol") {
                    Some(Some(_)) => {},
                    _ => { return false; },
                }
            }
            if c == CommandType::InitSession && !has_data {
                return false;
            }
            if c == CommandType::GetInstrumentData && has_data {
                let t = json_text_in_at(msg, "data", "time_frame");
                let n = json_int_in_at(msg, "data", "num_bars");
                let t_ok = match t { Some(Some(_)) => true, _ => false };
                let n_ok = match n { Some(Some(_)) => true, _ => false };
                return t_ok && n_ok;
            }
            true
        },
    }
}

/// What the server does with a frame, or `None` for a text command it cannot read.
pub fn handle_checked(frame: &Frame) -> (a: Option<ServerAction>)
    ensures
        a is None <==> (frame matches Frame::Text(msg) && !well_formed_command(msg@)),
        a matches Some(a) ==> match frame {
            Frame::Pong => a is RecordPong,
            Frame::Close => a is CloseSession,
            Frame::Text(msg) => spec_text_action(msg@, a),
            _ => a is NoReply,
        },
{
    match frame {
        Frame::Text(msg) => {
            if !command_is_well_formed(msg.as_str()) {
                return None;
            }
        },
        _ => {},
    }
    Some(handle(frame))
}

/// The answer to a bot after a broker call: the serialized response; an empty answer when
/// it could not be serialized; none when the broker call failed.
pub fn broker_reply<SE, BE>(outcome: Result<Result<String, SE>, BE>) -> (reply: Option<String>)
    ensures
        match outcome {
            Ok(Ok(s)) => reply == Some(s),
            Ok(Err(_)) => reply matches Some(r) && r@.len() == 0,
            Err(_) => reply is None,
        },
{
    match outcome {
        Ok(Ok(s)) => Some(s),
        Ok(Err(_)) => Some(String::new()),
        Err(_) => None,
    }
}

} // verus!
