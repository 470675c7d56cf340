//! How the bot reads what the server sends it.
use vstd::prelude::*;
use crate::json::{json_text, json_text_in, json_bool_in, json_text_at, json_text_in_at, json_bool_in_at};
use crate::types::{TimeFrameType, same_text, time_frame_of};

verus! {

/// What a message from the server is about; the payload itself is read by the caller.
/// `symbol`, `time_frame` and `accepted` are read from the payload.
#[derive(Debug)]
pub enum MessageType {
    Connected,
    Reconnect,
    InitSession,
    MarketHours,
    ActivePositions,
    IsMarketOpen,
    InstrumentTick,
    InstrumentData { symbol: String, time_frame: TimeFrameType },
    StreamResponse { symbol: String, time_frame: TimeFrameType },
    StreamTickResponse,
    TradeInFulfilled { symbol: String, accepted: bool },
    TradeOutFulfilled { symbol: String, accepted: bool },
    Error,
}

/// The kind of a message, by the text of its `response` field.
pub open spec fn response_kind(tag: Option<Seq<char>>) -> int {
    match tag {
        Some(t) => if t == "Connected"@ { 1 }
            else if t == "Reconnect"@ { 2 }
            else if t == "InitSession"@ { 3 }
            else if t == "GetMarketHours"@ { 4 }
            else if t == "GetActivePositions"@ { 5 }
            else if t == "IsMarketOpen"@ { 6 }
            else if t == "GetInstrumentTick"@ { 7 }
            else if t == "GetInstrumentData"@ { 8 }
            else if t == "SubscribeStream"@ { 9 }
            else if t == "SubscribeTickPrices"@ { 10 }
            else if t == "TradeInFulfilled"@ { 11 }
            else if t == "TradeOutFulfilled"@ { 12 }
            else { 0 },
        None => 0,
    }
}

/// The message type a response of that kind stands for, given the payload's symbol,
/// period and acceptance.
pub open spec fn spec_message_type(kind: int, symbol: Seq<char>, time_frame: TimeFrameType, accepted: bool,
    m: MessageType) -> bool {
    if kind == 1 { m is Connected }
    else if kind == 2 { m is Reconnect }
    else if kind == 3 { m is InitSession }
    else if kind == 4 { m is MarketHours }
    else if kind == 5 { m is ActivePositions }
    else if kind == 6 { m is IsMarketOpen }
    else if kind == 7 { m is InstrumentTick }
    else if kind == 8 { m matches MessageType::InstrumentData { symbol: s, time_frame: t } && s@ == symbol && t == time_frame }
    else if kind == 9 { m matches MessageType::StreamResponse { symbol: s, time_frame: t } && s@ == symbol && t == time_frame }
    else if kind == 10 { m is StreamTickResponse }
    else if kind == 11 { m matches MessageType::TradeInFulfilled { symbol: s, accepted: a } && s@ == symbol && a == accepted }
    else if kind == 12 { m matches MessageType::TradeOutFulfilled { symbol: s, accepted: a } && s@ == symbol && a == accepted }
    else { m is Error }
}

/// The payload's symbol: its text, or empty.
pub open spec fn payload_symbol(msg: Seq<char>) -> Seq<char> {
    match json_text_in(msg, "payload"@, "symbol"@) {
        Some(Some(s)) => s,
        _ => Seq::empty(),
    }
}

/// The payload's period: the period its text names, or `ERR` without one.
pub open spec fn payload_time_frame(msg: Seq<char>) -> TimeFrameType {
    match json_text_in(msg, "payload"@, "time_frame"@) {
        Some(Some(s)) => time_frame_of(s),
        _ => TimeFrameType::ERR,
    }
}

/// The payload's acceptance: its boolean, or `false`.
pub open spec fn payload_accepted(msg: Seq<char>) -> bool {
    match json_bool_in(msg, "payload"@, "accepted"@) {
        Some(Some(b)) => b,
        _ => false,
    }
}

/// Whether a non-empty message is JSON.
pub open spec fn is_json(msg: Seq<char>) -> bool {
    json_text(msg, "response"@) is Some
}

/// The kind of a response text, as `response_kind` says.
fn classify_response(tag: &Option<String>) -> (kind: u8)
    ensures
        kind as int == response_kind(match tag { Some(t) => Some(t@), None => None }),
{
    match tag {
        Some(t) => {
            let t = t.as_str();
            if same_text(t, "Connected") { 1 }
            else if same_text(t, "Reconnect") { 2 }
            else if same_text(t, "InitSession") { 3 }
            else if same_text(t, "GetMarketHours") { 4 }
            else if same_text(t, "GetActivePositions") { 5 }
            else if same_text(t, "IsMarketOpen") { 6 }
            else if same_text(t, "GetInstrumentTick") { 7 }
            else if same_text(t, "GetInstrumentData") { 8 }
            else if same_text(t, "SubscribeStream") { 9 }
            else if same_text(t, "SubscribeTickPrices") { 10 }
            else if same_text(t, "TradeInFulfilled") { 11 }
            else if same_text(t, "TradeOutFulfilled") { 12 }
            else { 0 }
        },
        None => 0,
    }
}

/// Builds the message type of a kind, as `spec_message_type` says.
pub fn message_type_of(kind: u8, symbol: String, time_frame: TimeFrameType, accepted: bool) -> (m: MessageType)
    ensures
        spec_message_type(kind as int, symbol@, time_frame, accepted, m),
{
    match kind {
        1 => MessageType::Connected,
        2 => MessageType::Reconnect,
        3 => MessageType::InitSession,
        4 => MessageType::MarketHours,
        5 => MessageType::ActivePositions,
        6 => MessageType::IsMarketOpen,
        7 => MessageType::InstrumentTick,
        8 => MessageType::InstrumentData { symbol, time_frame },
        9 => MessageType::StreamResponse { symbol, time_frame },
        10 => MessageType::StreamTickResponse,
        11 => MessageType::TradeInFulfilled { symbol, accepted },
        12 => MessageType::TradeOutFulfilled { symbol, accepted },
        _ => MessageType::Error,
    }
}

/// What a message from the server is about: an empty message is an error; otherwise the
/// `response` field decides, and unknown responses are errors. The message must be JSON.
pub fn get_type(msg: &str) -> (m: MessageType)
    requires
        msg@.len() > 0 ==> is_json(msg@),
    ensures
        msg@.len() == 0 ==> m is Error,
        msg@.len() > 0 ==> spec_message_type(
            response_kind(json_text(msg@, "response"@).unwrap()),
            payload_symbol(msg@),
            payload_time_frame(msg@),
            payload_accepted(msg@),
            m,
        ),
{
    if msg.is_empty() {
        return MessageType::Error;
    }
    let response = json_text_at(msg, "response");
    let tag = match response {
        Some(t) => t,
        None => None,
    };
    let kind = classify_response(&tag);
    let symbol = match json_text_in_at(msg, "payload", "symbol") {
        Some(Some(s)) => s,
        _ => String::new(),
    };
    let accepted = match json_bool_in_at(msg, "payload", "accepted") {
        Some(Some(b)) => b,
        _ => false,
    };
    let time_frame = match json_text_in_at(msg, "payload", "time_frame") {
        Some(Some(t)) => TimeFrameType::from_str(t.as_str()),
        _ => TimeFrameType::ERR,
    };
    message_type_of(kind, symbol, time_frame, accepted)
}

/// What a message from the server is about, or `None` when a non-empty message is not JSON.
pub fn classify_message(msg: &str) -> (m: Option<MessageType>)
    ensures
        m is None <==> (msg@.len() > 0 && !is_json(msg@)),
        m matches Some(t) ==> (msg@.len() == 0 ==> t is Error),
        m matches Some(t) ==> (msg@.len() > 0 ==> spec_message_type(
            response_kind(json_text(msg@, "response"@).unwrap()),
            payload_symbol(msg@),
            payload_time_frame(msg@),
            payload_accepted(msg@),
            t,
        )),
{
    if !msg.is_empty() {
        if json_text_at(msg, "response").is_none() {
            return None;
        }
    }
    Some(get_type(msg))
}

/// Each response name the server sends is read as its own message type, with the
/// payload's symbol, period and acceptance where the type carries them; any other name is
/// an error.
pub proof fn lemma_response_names(t: Seq<char>, symbol: Seq<char>, time_frame: TimeFrameType, accepted: bool,
    m: MessageType)
    requires
        spec_message_type(response_kind(Some(t)), symbol, time_frame, accepted, m),
    ensures
        t == "Connected"@ ==> m is Connected,
        t == "Reconnect"@ ==> m is Reconnect,
        t == "InitSession"@ ==> m is InitSession,
        t == "GetMarketHours"@ ==> m is MarketHours,
        t == "GetActivePositions"@ ==> m is ActivePositions,
        t == "IsMarketOpen"@ ==> m is IsMarketOpen,
        t == "GetInstrumentTick"@ ==> m is InstrumentTick,
        t == "GetInstrumentData"@ ==> (m matches MessageType::InstrumentData { symbol: s, time_frame: f }
            && s@ == symbol && f == time_frame),
        t == "SubscribeStream"@ ==> (m matches MessageType::StreamResponse { symbol: s, time_frame: f }
            && s@ == symbol && f == time_frame),
        t == "SubscribeTickPrices"@ ==> m is StreamTickResponse,
        t == "TradeInFulfilled"@ ==> (m matches MessageType::TradeInFulfilled { symbol: s, accepted: a }
            && s@ == symbol && a == accepted),
        t == "TradeOutFulfilled"@ ==> (m matches MessageType::TradeOutFulfilled { symbol: s, accepted: a }
            && s@ == symbol && a == accepted),
        (t != "Connected"@ && t != "Reconnect"@ && t != "InitSession"@ && t != "GetMarketHours"@
            && t != "GetActivePositions"@ && t != "IsMarketOpen"@ && t != "GetInstrumentTick"@
            && t != "GetInstrumentData"@ && t != "SubscribeStream"@ && t != "SubscribeTickPrices"@
            && t != "TradeInFulfilled"@ && t != "TradeOutFulfilled"@) ==> m is Error,
{
    reveal_strlit("Connected");
    reveal_strlit("Reconnect");
    reveal_strlit("InitSession");
    reveal_strlit("GetMarketHours");
    reveal_strlit("GetActivePositions");
    reveal_strlit("IsMarketOpen");
    reveal_strlit("GetInstrumentTick");
    reveal_strlit("GetInstrumentData");
    reveal_strlit("SubscribeStream");
    reveal_strlit("SubscribeTickPrices");
    reveal_strlit("TradeInFulfilled");
    reveal_strlit("TradeOutFulfilled");
    assert("Connected"@.len() == 9);
    assert("Reconnect"@.len() == 9);
    assert("InitSession"@.len() == 11);
    assert("GetMarketHours"@.len() == 14);
    assert("GetActivePositions"@.len() == 18);
    assert("IsMarketOpen"@.len() == 12);
    assert("GetInstrumentTick"@.len() == 17);
    assert("GetInstrumentData"@.len() == 17);
    assert("SubscribeStream"@.len() == 15);
    assert("SubscribeTickPrices"@.len() == 19);
    assert("TradeInFulfilled"@.len() == 16);
    assert("TradeOutFulfilled"@.len() == 17);
    if t == "Connected"@ {
        assert(response_kind(Some(t)) == 1);
    }
    if t == "Reconnect"@ {
        assert("Reconnect"@[0] != "Connected"@[0]);
        assert(response_kind(Some(t)) == 2);
    }
    if t == "InitSession"@ {
        assert(response_kind(Some(t)) == 3);
    }
    if t == "GetMarketHours"@ {
        assert(response_kind(Some(t)) == 4);
    }
    if t == "GetActivePositions"@ {
        assert(response_kind(Some(t)) == 5);
    }
    if t == "IsMarketOpen"@ {
        assert(response_kind(Some(t)) == 6);
    }
    if t == "GetInstrumentTick"@ {
        assert(response_kind(Some(t)) == 7);
    }
    if t == "GetInstrumentData"@ {
        assert("GetInstrumentData"@[13] != "GetInstrumentTick"@[13]);
        assert(response_kind(Some(t)) == 8);
    }
    if t == "SubscribeStream"@ {
        assert(response_kind(Some(t)) == 9);
    }
    if t == "SubscribeTickPrices"@ {
        assert(response_kind(Some(t)) == 10);
    }
    if t == "TradeInFulfilled"@ {
        assert(response_kind(Some(t)) == 11);
    }
    if t == "TradeOutFulfilled"@ {
        assert("TradeOutFulfilled"@[0] != "GetInstrumentTick"@[0]);
        assert("TradeOutFulfilled"@[0] != "GetInstrumentData"@[0]);
        assert(response_kind(Some(t)) == 12);
    }
}

/// A message whose `response` is `InitSession` is the start of the bot's session, whatever
/// its payload: the bot then goes on to ask for its market hours.
pub proof fn lemma_init_session_response(msg: Seq<char>, m: MessageType)
    requires
        msg.len() > 0,
        json_text(msg, "response"@) == Some(Some("InitSession"@)),
        spec_message_type(response_kind(json_text(msg, "response"@).unwrap()), payload_symbol(msg),
            payload_time_frame(msg), payload_accepted(msg), m),
    ensures
        m is InitSession,
{
    lemma_response_names("InitSession"@, payload_symbol(msg), payload_time_frame(msg), payload_accepted(msg), m);
}

} // verus!
