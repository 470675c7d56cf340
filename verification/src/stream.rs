//! Forwarding the broker's stream to a bot, and watching a client's heartbeat.
use vstd::prelude::*;

verus! {

/// What tells a bot how to reconnect: whether it drops the data of its session.
#[derive(Copy, Clone, Debug, PartialEq, Eq, Structural)]
pub struct ReconnectOptions {
    pub clean_data: bool,
}

/// What happens on a bot's stream: data from the broker, the end of the broker's
/// stream, or the keepalive timer.
pub enum StreamEvent {
    Data(String),
    Closed,
    KeepaliveTick,
}

/// What the listener does.
pub enum StreamAction {
    /// Send the data to the bot.
    Forward(String),
    /// Tell the bot to reconnect, then stop listening.
    ReconnectAndStop(ReconnectOptions),
    /// Ping the broker to keep its connection alive.
    Keepalive,
}

/// What the listener does on an event: data is forwarded; when the broker's stream ends the
/// bot is told to reconnect with fresh data; the timer pings the broker.
pub open spec fn stream_action(event: StreamEvent) -> StreamAction {
    match event {
        StreamEvent::Data(t) => StreamAction::Forward(t),
        StreamEvent::Closed => StreamAction::ReconnectAndStop(ReconnectOptions { clean_data: true }),
        StreamEvent::KeepaliveTick => StreamAction::Keepalive,
    }
}

/// Decides what the listener does on an event, as `stream_action` says.
pub fn on_stream_event(event: StreamEvent) -> (a: StreamAction)
    ensures
        a == stream_action(event),
{
    match event {
        StreamEvent::Data(t) => StreamAction::Forward(t),
        StreamEvent::Closed => StreamAction::ReconnectAndStop(ReconnectOptions { clean_data: true }),
        StreamEvent::KeepaliveTick => StreamAction::Keepalive,
    }
}

/// The texts the broker's stream delivered, in order.
pub open spec fn data_texts(events: Seq<StreamEvent>) -> Seq<String>
    decreases events.len(),
{
    if events.len() == 0 {
        Seq::empty()
    } else {
        let rest = data_texts(events.drop_last());
        match events.last() {
            StreamEvent::Data(t) => rest.push(t),
            _ => rest,
        }
    }
}

/// The texts the listener sends to the bot when it acts on `events` in order.
pub open spec fn forwarded_texts(events: Seq<StreamEvent>) -> Seq<String>
    decreases events.len(),
{
    if events.len() == 0 {
        Seq::empty()
    } else {
        let rest = forwarded_texts(events.drop_last());
        match stream_action(events.last()) {
            StreamAction::Forward(t) => rest.push(t),
            _ => rest,
        }
    }
}

/// Whether the broker's stream stayed open through `events`.
pub open spec fn stream_open(events: Seq<StreamEvent>) -> bool {
    forall|i: int| 0 <= i < events.len() ==> !(#[trigger] events[i] is Closed)
}

/// While the broker's stream stays open, the listener sends the bot exactly the texts the
/// broker delivered, unchanged and in the order received, and nothing else; the listener
/// stops only when the stream ends.
pub proof fn lemma_stream_forwards_in_order(events: Seq<StreamEvent>)
    ensures
        forwarded_texts(events) == data_texts(events),
        forall|i: int| 0 <= i < events.len()
            ==> (#[trigger] stream_action(events[i]) is ReconnectAndStop <==> events[i] is Closed),
        stream_open(events) ==> forall|i: int| 0 <= i < events.len()
            ==> !(#[trigger] stream_action(events[i]) is ReconnectAndStop),
    decreases events.len(),
{
    if events.len() > 0 {
        lemma_stream_forwards_in_order(events.drop_last());
    }
}

/// Whether the listener goes on after forwarding data.
#[derive(Copy, Clone, Debug, PartialEq, Eq, Structural)]
pub enum ListenerStep {
    KeepListening,
    /// The bot could not be reached: the error is logged and the listener stops, with
    /// nothing more sent to the bot and no further call to the broker.
    Stop,
}

/// What follows forwarding data: the listener goes on when the data reached the bot, and
/// stops otherwise.
pub fn after_forward(delivered: bool) -> (step: ListenerStep)
    ensures
        step == (if delivered { ListenerStep::KeepListening } else { ListenerStep::Stop }),
{
    if delivered {
        ListenerStep::KeepListening
    } else {
        ListenerStep::Stop
    }
}

/// Why a WebSocket connection is closed: the close code and an optional description.
#[derive(Debug, PartialEq, Eq)]
pub struct CloseReason {
    pub code: u16,
    pub description: Option<String>,
}

/// What happens on a client's WebSocket: frames from the client, a message from another
/// member of the client's room, the stream failing or ending, or the heartbeat timer.
pub enum ClientEvent {
    Ping(Vec<u8>),
    Pong,
    Text(String),
    Binary(Vec<u8>),
    Close(Option<CloseReason>),
    OtherFrame,
    RoomMessage(String),
    StreamError,
    StreamEnded,
    HeartbeatTick,
}

/// What the server does on a client event.
pub enum ClientAction {
    /// Answer the ping with the same bytes.
    Pong(Vec<u8>),
    /// Nothing beyond noting the heartbeat.
    Continue,
    /// Send the text back to the client, then read it as a command.
    EchoAndProcess(String),
    /// Send the bytes back to the client.
    EchoBinary(Vec<u8>),
    /// Send a room member's message to the client.
    Send(String),
    /// Send a heartbeat ping.
    SendPing,
    /// Leave the chat and close the connection, with the client's reason if it gave one.
    Close(Option<CloseReason>),
}

/// Watches a client's heartbeat. Times are in milliseconds.
pub struct HeartbeatMonitor {
    pub last_heartbeat: u64,
}

impl HeartbeatMonitor {
    /// Starts watching at `now`.
    pub fn new(now: u64) -> (m: Self)
        ensures
            m.last_heartbeat == now,
    {
        HeartbeatMonitor { last_heartbeat: now }
    }

    /// Handles an event at `now`: a ping is answered with its bytes and, like a pong, counts
    /// as a heartbeat; text and binary messages are echoed back (text is then read as a
    /// command); a room member's message is passed on; a close ends the connection with
    /// the client's reason, and an error, the end of the stream or an unexpected frame end
    /// it without one; on the timer the connection is closed once no heartbeat came for more
    /// than `timeout`, and a ping is sent otherwise.
    pub fn on_event(&mut self, event: ClientEvent, now: u64, timeout: u64) -> (a: ClientAction)
        ensures
            match event {
                ClientEvent::Ping(b) => (a matches ClientAction::Pong(p) && p == b)
                    && final(self).last_heartbeat == now,
                ClientEvent::Pong => a is Continue && final(self).last_heartbeat == now,
                ClientEvent::Text(t) => (a matches ClientAction::EchoAndProcess(p) && p == t)
                    && final(self).last_heartbeat == old(self).last_heartbeat,
                ClientEvent::Binary(b) => (a matches ClientAction::EchoBinary(p) && p == b)
                    && final(self).last_heartbeat == old(self).last_heartbeat,
                ClientEvent::RoomMessage(t) => (a matches ClientAction::Send(p) && p == t)
                    && final(self).last_heartbeat == old(self).last_heartbeat,
                ClientEvent::Close(r) => (a matches ClientAction::Close(c) && c == r)
                    && final(self).last_heartbeat == old(self).last_heartbeat,
                ClientEvent::HeartbeatTick => final(self).last_heartbeat == old(self).last_heartbeat
                    && (if now > old(self).last_heartbeat && now - old(self).last_heartbeat > timeout {
                        a matches ClientAction::Close(None)
                    } else {
                        a is SendPing
                    }),
                _ => (a matches ClientAction::Close(None))
                    && final(self).last_heartbeat == old(self).last_heartbeat,
            },
    {
        match event {
            ClientEvent::Ping(b) => {
                self.last_heartbeat = now;
                ClientAction::Pong(b)
            },
            ClientEvent::Pong => {
                self.last_heartbeat = now;
                ClientAction::Continue
            },
            ClientEvent::Text(t) => ClientAction::EchoAndProcess(t),
            ClientEvent::Binary(b) => ClientAction::EchoBinary(b),
            ClientEvent::RoomMessage(t) => ClientAction::Send(t),
            ClientEvent::Close(r) => ClientAction::Close(r),
            ClientEvent::HeartbeatTick => {
                let since = if now > self.last_heartbeat { now - self.last_heartbeat } else { 0 };
                if since > timeout {
                    ClientAction::Close(None)
                } else {
                    ClientAction::SendPing
                }
            },
            _ => ClientAction::Close(None),
        }
    }
}

} // verus!
