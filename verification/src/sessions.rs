//! Bot sessions the server keeps, one per peer address.
use vstd::prelude::*;
use crate::keyed::{entries_map, has_key, keys_distinct, lemma_entries_dom, lemma_entry, lemma_push, lemma_remove, lemma_update, lemma_update_any};
use crate::types::{StrategyType, TimeFrameType, same_text, time_frame_name, time_frame_of};

verus! {

/// The network address of a connected peer: an IP address (IPv4 addresses are
/// written as IPv4-mapped IPv6 addresses) and a port.
#[derive(Copy, Clone, Debug, PartialEq, Eq, Structural)]
pub struct PeerAddr {
    pub ip: u128,
    pub port: u16,
}

/// State of the link with a bot.
#[derive(Copy, Clone, Debug, PartialEq, Eq, Structural)]
pub enum SessionStatus {
    Up,
    Down,
    Connecting,
}

/// What a bot reports about itself when its session starts.
#[derive(Debug)]
pub struct SessionData {
    pub id: u128,
    pub strategy: String,
    pub strategy_type: StrategyType,
    pub symbol: String,
    pub time_frame: TimeFrameType,
}

/// The server's record of one bot; `R` is the channel on which the bot is written to.
/// Times are milliseconds since the Unix epoch.
pub struct Session<R> {
    pub session_id: u128,
    pub recipient: R,
    pub symbol: String,
    pub strategy: String,
    pub time_frame: TimeFrameType,
    pub strategy_type: StrategyType,
    pub started: i64,
    pub last_ping: i64,
    pub last_data: i64,
    pub market_open: bool,
    pub client_status: SessionStatus,
}

/// A fresh random session id (a version 4 UUID read as a big-endian number).
#[verifier::external_body]
fn fresh_session_id() -> (id: u128) {
    u128::from_be_bytes(bson::Uuid::new().bytes())
}

/// The local clock, in milliseconds since the Unix epoch.
#[verifier::external_body]
fn now_millis() -> (t: i64) {
    chrono::Local::now().timestamp_millis()
}

/// The name under which a bot is shown: symbol, period and strategy joined by `_`.
pub open spec fn spec_bot_name(symbol: Seq<char>, time_frame: TimeFrameType, strategy: Seq<char>) -> Seq<char> {
    symbol + "_"@ + time_frame_name(time_frame) + "_"@ + strategy
}

impl<R> Session<R> {
    /// A session for a bot that has just connected and not yet said who it is, with a
    /// fresh random id, started now.
    pub fn new(recipient: R) -> (s: Self)
        ensures
            s.recipient == recipient,
            s.symbol@ == "init"@,
            s.strategy@ == "init"@,
            s.time_frame == TimeFrameType::M1,
            s.strategy_type == StrategyType::OnlyLong,
            s.started == s.last_ping,
            s.started == s.last_data,
            !s.market_open,
            s.client_status == SessionStatus::Up,
    {
        let now = now_millis();
        Session::started_at(recipient, fresh_session_id(), now)
    }

    /// A session with id `session_id` for a bot that has just connected and not yet said
    /// who it is, started at `now` (milliseconds since the Unix epoch).
    pub fn started_at(recipient: R, session_id: u128, now: i64) -> (s: Self)
        ensures
            s.session_id == session_id,
            s.recipient == recipient,
            s.symbol@ == "init"@,
            s.strategy@ == "init"@,
            s.time_frame == TimeFrameType::M1,
            s.strategy_type == StrategyType::OnlyLong,
            s.started == now,
            s.last_ping == now,
            s.last_data == now,
            !s.market_open,
            s.client_status == SessionStatus::Up,
    {
        Session {
            session_id,
            recipient,
            symbol: "init".to_owned(),
            strategy: "init".to_owned(),
            time_frame: TimeFrameType::M1,
            strategy_type: StrategyType::OnlyLong,
            started: now,
            last_ping: now,
            last_data: now,
            market_open: false,
            client_status: SessionStatus::Up,
        }
    }

    /// The symbol this session trades.
    pub fn symbol(&self) -> (s: &String)
        ensures
            *s == self.symbol,
    {
        &self.symbol
    }

    /// The name under which the bot is shown.
    pub fn bot_name(&self) -> (name: String)
        ensures
            name@ == spec_bot_name(self.symbol@, self.time_frame, self.strategy@),
    {
        let mut name = self.symbol.clone();
        name.append("_");
        let tf = self.time_frame.name();
        name.append(tf.as_str());
        name.append("_");
        name.append(self.strategy.as_str());
        name
    }

    /// Sets the symbol and the strategy.
    pub fn update_name(&mut self, symbol: &str, strategy: &str) -> (r: &Self)
        ensures
            final(self).symbol@ == symbol@,
            final(self).strategy@ == strategy@,
            *final(self) == (Session { symbol: final(self).symbol, strategy: final(self).strategy, ..*old(self) }),
            *r == *final(self),
    {
        self.symbol = symbol.to_owned();
        self.strategy = strategy.to_owned();
        self
    }

    /// Sets the symbol, the period (read from its name) and the strategy.
    pub fn update_bot_name(&mut self, symbol: &str, time_frame: &str, strategy: &str) -> (r: &Self)
        ensures
            final(self).symbol@ == symbol@,
            final(self).strategy@ == strategy@,
            final(self).time_frame == time_frame_of(time_frame@),
            *final(self) == (Session {
                symbol: final(self).symbol,
                strategy: final(self).strategy,
                time_frame: final(self).time_frame,
                ..*old(self)
            }),
            *r == *final(self),
    {
        self.symbol = symbol.to_owned();
        self.time_frame = TimeFrameType::from_str(time_frame);
        self.strategy = strategy.to_owned();
        self
    }

    /// Records that the bot answered a ping at `now` (milliseconds since the Unix epoch).
    pub fn update_ping(&mut self, now: i64) -> (r: &Self)
        ensures
            *final(self) == (Session { last_ping: now, ..*old(self) }),
            *r == *final(self),
    {
        self.last_ping = now;
        self
    }

    /// Records that data for the bot went through at `now` (milliseconds since the Unix
    /// epoch).
    pub fn update_last_data(&mut self, now: i64) -> (r: &Self)
        ensures
            *final(self) == (Session { last_data: now, ..*old(self) }),
            *r == *final(self),
    {
        self.last_data = now;
        self
    }

    /// Takes over what the bot reported about itself; the link is up.
    pub fn update_data(&mut self, data: SessionData) -> (r: &Self)
        ensures
            *final(self) == (Session {
                session_id: data.id,
                symbol: data.symbol,
                time_frame: data.time_frame,
                strategy: data.strategy,
                strategy_type: data.strategy_type,
                client_status: SessionStatus::Up,
                ..*old(self)
            }),
            *r == *final(self),
    {
        self.session_id = data.id;
        self.symbol = data.symbol;
        self.time_frame = data.time_frame;
        self.strategy = data.strategy;
        self.strategy_type = data.strategy_type;
        self.client_status = SessionStatus::Up;
        self
    }

    /// Sets the state of the link.
    pub fn update_status(&mut self, status: SessionStatus) -> (r: &Self)
        ensures
            *final(self) == (Session { client_status: status, ..*old(self) }),
            *r == *final(self),
    {
        self.client_status = status;
        self
    }

    /// Sets whether the bot's market is open now.
    pub fn update_market_hours(&mut self, market_open: bool) -> (r: &Self)
        ensures
            *final(self) == (Session { market_open: market_open, ..*old(self) }),
            *r == *final(self),
    {
        self.market_open = market_open;
        self
    }
}

/// The sessions of all connected bots, keyed by peer address.
pub struct Sessions<R> {
    entries: Vec<(PeerAddr, Session<R>)>,
}

impl<R> View for Sessions<R> {
    type V = Map<PeerAddr, Session<R>>;

    closed spec fn view(&self) -> Map<PeerAddr, Session<R>> {
        entries_map(self.entries@)
    }
}

/// A session the heartbeat drops: its bot has sent nothing since `cutoff`, it has
/// said who it is, and its market is open.
pub open spec fn spec_is_stale<R>(s: Session<R>, cutoff: i64) -> bool {
    &&& s.last_data < cutoff
    &&& s.symbol@ != "init"@
    &&& s.market_open
}

/// The addresses whose sessions are stale.
pub open spec fn stale_addrs<R>(m: Map<PeerAddr, Session<R>>, cutoff: i64) -> Set<PeerAddr> {
    Set::new(|a: PeerAddr| m.contains_key(a) && spec_is_stale(m[a], cutoff))
}

/// Some entry before place `i` holds a stale session for `k`.
pub open spec fn stale_before<R>(s: Seq<(PeerAddr, Session<R>)>, k: PeerAddr, i: int, cutoff: i64) -> bool {
    exists|j: int| 0 <= j < i && #[trigger] s[j].0 == k && spec_is_stale(s[j].1, cutoff)
}

impl<R> Session<R> {
    /// Whether the heartbeat drops this session.
    pub fn is_stale(&self, cutoff: i64) -> (stale: bool)
        ensures
            stale == spec_is_stale(*self, cutoff),
    {
        self.last_data < cutoff && !same_text(self.symbol.as_str(), "init") && self.market_open
    }
}

impl<R> Sessions<R> {
    /// No address has two sessions.
    pub closed spec fn wf(&self) -> bool {
        keys_distinct(self.entries@)
    }

    /// The number of sessions.
    pub closed spec fn spec_len(&self) -> nat {
        self.entries@.len()
    }

    /// The number of sessions is the number of addresses that have one.
    pub proof fn lemma_len(&self)
        requires
            self.wf(),
        ensures
            self@.dom().finite(),
            self@.dom().len() == self.spec_len(),
    {
        lemma_entries_dom(self.entries@);
    }

    /// No sessions.
    pub fn new() -> (s: Self)
        ensures
            s.wf(),
            s@ == Map::<PeerAddr, Session<R>>::empty(),
    {
        let s = Sessions { entries: Vec::new() };
        assert(s@ =~= Map::<PeerAddr, Session<R>>::empty());
        s
    }

    /// The number of sessions.
    pub fn len(&self) -> (n: usize)
        requires
            self.wf(),
        ensures
            n == self@.dom().len(),
    {
        proof { self.lemma_len(); }
        self.entries.len()
    }

    /// Where the session of `addr` is kept, if it has one.
    fn position(&self, addr: &PeerAddr) -> (pos: Option<usize>)
        ensures
            match pos {
                Some(i) => i < self.entries@.len() && self.entries@[i as int].0 == *addr,
                None => !has_key(self.entries@, *addr),
            },
    {
        let mut i: usize = 0;
        while i < self.entries.len()
            invariant
                i <= self.entries@.len(),
                forall|j: int| 0 <= j < i ==> self.entries@[j].0 != *addr,
            decreases self.entries@.len() - i,
        {
            if self.entries[i].0 == *addr {
                return Some(i);
            }
            i = i + 1;
        }
        None
    }

    /// Whether `addr` has a session.
    pub fn contains(&self, addr: &PeerAddr) -> (found: bool)
        requires
            self.wf(),
        ensures
            found == self@.contains_key(*addr),
    {
        match self.position(addr) {
            Some(i) => {
                proof { lemma_entry(self.entries@, i as int); }
                true
            },
            None => false,
        }
    }

    /// The session of `addr`, if it has one.
    pub fn get(&self, addr: &PeerAddr) -> (s: Option<&Session<R>>)
        requires
            self.wf(),
        ensures
            match s {
                Some(s) => self@.contains_key(*addr) && *s == self@[*addr],
                None => !self@.contains_key(*addr),
            },
    {
        match self.position(addr) {
            Some(i) => {
                proof { lemma_entry(self.entries@, i as int); }
                Some(&self.entries[i].1)
            },
            None => None,
        }
    }

    /// The addresses whose sessions are stale, each once.
    fn stale_keys(&self, cutoff: i64) -> (keys: Vec<PeerAddr>)
        requires
            self.wf(),
        ensures
            forall|t: int, u: int| 0 <= t < keys@.len() && 0 <= u < keys@.len() && t != u ==> keys@[t] != keys@[u],
            forall|a: PeerAddr| #[trigger] keys@.contains(a) <==> stale_addrs(self@, cutoff).contains(a),
    {
        let mut keys: Vec<PeerAddr> = Vec::new();
        let mut i: usize = 0;
        while i < self.entries.len()
            invariant
                self.wf(),
                i <= self.entries@.len(),
                forall|t: int, u: int| 0 <= t < keys@.len() && 0 <= u < keys@.len() && t != u ==> keys@[t] != keys@[u],
                forall|t: int| 0 <= t < keys@.len() ==> stale_before(self.entries@, #[trigger] keys@[t], i as int, cutoff),
                forall|j: int| 0 <= j < i && spec_is_stale(#[trigger] self.entries@[j].1, cutoff)
                    ==> keys@.contains(self.entries@[j].0),
            decreases self.entries@.len() - i,
        {
            let ghost prev = keys@;
            if self.entries[i].1.is_stale(cutoff) {
                proof {
                    assert forall|t: int| 0 <= t < prev.len() implies prev[t] != self.entries@[i as int].0 by {
                        assert(stale_before(self.entries@, prev[t], i as int, cutoff));
                        let j = choose|j: int| 0 <= j < i && #[trigger] self.entries@[j].0 == prev[t]
                            && spec_is_stale(self.entries@[j].1, cutoff);
                        assert(self.entries@[j].0 != self.entries@[i as int].0);
                    }
                }
                keys.push(self.entries[i].0);
                proof {
                    assert(keys@[prev.len() as int] == self.entries@[i as int].0);
                    assert forall|j: int| 0 <= j < i + 1 && spec_is_stale(#[trigger] self.entries@[j].1, cutoff)
                        implies keys@.contains(self.entries@[j].0) by {
                        if j < i {
                            let t = choose|t: int| 0 <= t < prev.len() && prev[t] == self.entries@[j].0;
                            assert(keys@[t] == prev[t]);
                        } else {
                            assert(keys@[prev.len() as int] == self.entries@[j].0);
                        }
                    }
                }
            }
            proof {
                assert forall|t: int| 0 <= t < keys@.len() implies stale_before(self.entries@, #[trigger] keys@[t], i + 1, cutoff) by {
                    if t < prev.len() {
                        assert(keys@[t] == prev[t]);
                        assert(stale_before(self.entries@, prev[t], i as int, cutoff));
                        let j = choose|j: int| 0 <= j < i && #[trigger] self.entries@[j].0 == prev[t]
                            && spec_is_stale(self.entries@[j].1, cutoff);
                        assert(self.entries@[j].0 == keys@[t]);
                    } else {
                        assert(self.entries@[i as int].0 == keys@[t]);
                    }
                }
            }
            i = i + 1;
        }
        proof {
            assert forall|a: PeerAddr| #[trigger] keys@.contains(a) <==> stale_addrs(self@, cutoff).contains(a) by {
                if keys@.contains(a) {
                    let t = choose|t: int| 0 <= t < keys@.len() && keys@[t] == a;
                    assert(stale_before(self.entries@, keys@[t], i as int, cutoff));
                    let j = choose|j: int| 0 <= j < i && #[trigger] self.entries@[j].0 == keys@[t]
                        && spec_is_stale(self.entries@[j].1, cutoff);
                    lemma_entry(self.entries@, j);
                }
                if stale_addrs(self@, cutoff).contains(a) {
                    let j = choose|j: int| 0 <= j < self.entries@.len() && #[trigger] self.entries@[j].0 == a;
                    lemma_entry(self.entries@, j);
                }
            }
        }
        keys
    }

    /// Drops every stale session and hands the dropped ones back with their addresses.
    pub fn remove_stale(&mut self, cutoff: i64) -> (removed: Vec<(PeerAddr, Session<R>)>)
        requires
            old(self).wf(),
        ensures
            final(self).wf(),
            final(self)@ == old(self)@.remove_keys(stale_addrs(old(self)@, cutoff)),
            keys_distinct(removed@),
            entries_map(removed@) == old(self)@.restrict(stale_addrs(old(self)@, cutoff)),
    {
        let ghost orig = self@;
        let ghost stale = stale_addrs(orig, cutoff);
        let keys = self.stale_keys(cutoff);
        let mut removed: Vec<(PeerAddr, Session<R>)> = Vec::new();
        let mut j: usize = 0;
        proof {
            assert(self@ =~= orig.remove_keys(Set::new(|a: PeerAddr| exists|t: int| 0 <= t < 0 && keys@[t] == a)));
            assert(entries_map(removed@) =~= orig.restrict(Set::new(|a: PeerAddr| exists|t: int| 0 <= t < 0 && keys@[t] == a)));
        }
        while j < keys.len()
            invariant
                self.wf(),
                j <= keys@.len(),
                forall|t: int, u: int| 0 <= t < keys@.len() && 0 <= u < keys@.len() && t != u ==> keys@[t] != keys@[u],
                forall|a: PeerAddr| #[trigger] keys@.contains(a) <==> stale.contains(a),
                stale == stale_addrs(orig, cutoff),
                keys_distinct(removed@),
                self@ == orig.remove_keys(Set::new(|a: PeerAddr| exists|t: int| 0 <= t < j && keys@[t] == a)),
                entries_map(removed@) == orig.restrict(Set::new(|a: PeerAddr| exists|t: int| 0 <= t < j && keys@[t] == a)),
            decreases keys@.len() - j,
        {
            let ghost done = Set::new(|a: PeerAddr| exists|t: int| 0 <= t < j && keys@[t] == a);
            let ghost next = Set::new(|a: PeerAddr| exists|t: int| 0 <= t < j + 1 && keys@[t] == a);
            let k = keys[j];
            proof {
                assert(keys@.contains(k));
                assert(!done.contains(k));
                assert(orig.contains_key(k));
            }
            let s = self.remove(&k);
            match s {
                Some(s) => {
                    proof {
                        assert(!entries_map(removed@).contains_key(k));
                        lemma_push(removed@, k, s);
                    }
                    removed.push((k, s));
                    proof {
                        assert(self@ =~= orig.remove_keys(next));
                        assert(entries_map(removed@) =~= orig.restrict(next));
                    }
                },
                None => {
                    proof { assert(false); }
                },
            }
            j = j + 1;
        }
        proof {
            let all = Set::new(|a: PeerAddr| exists|t: int| 0 <= t < j && keys@[t] == a);
            assert forall|a: PeerAddr| all.contains(a) <==> stale.contains(a) by {
                if stale.contains(a) {
                    assert(keys@.contains(a));
                    let t = choose|t: int| 0 <= t < keys@.len() && keys@[t] == a;
                    assert(all.contains(a));
                }
                if all.contains(a) {
                    let t = choose|t: int| 0 <= t < j && keys@[t] == a;
                    assert(keys@[t] == a);
                    assert(keys@.contains(a));
                }
            }
            assert(all =~= stale);
        }
        removed
    }

    /// The session of `addr`, to be changed in place.
    pub fn find_mut(&mut self, addr: &PeerAddr) -> (s: &mut Session<R>)
        requires
            old(self).wf(),
            old(self)@.contains_key(*addr),
        ensures
            *s == old(self)@[*addr],
            final(self).wf(),
            final(self)@ == old(self)@.insert(*addr, *final(s)),
    {
        let pos = self.position(addr);
        proof {
            if pos is None {
                let j = choose|j: int| 0 <= j < self.entries@.len() && #[trigger] self.entries@[j].0 == *addr;
                assert(self.entries@[j].0 == *addr);
            }
        }
        let i = pos.unwrap();
        proof {
            lemma_entry(self.entries@, i as int);
            lemma_update_any(self.entries@, i as int);
        }
        let entry = &mut self.entries[i];
        &mut entry.1
    }

    /// Gives `addr` the session `session`, replacing the one it had.
    pub fn insert(&mut self, addr: PeerAddr, session: Session<R>)
        requires
            old(self).wf(),
        ensures
            final(self).wf(),
            final(self)@ == old(self)@.insert(addr, session),
    {
        match self.position(&addr) {
            Some(i) => {
                proof { lemma_update(self.entries@, i as int, session); }
                self.entries.set(i, (addr, session));
            },
            None => {
                proof { lemma_push(self.entries@, addr, session); }
                self.entries.push((addr, session));
            },
        }
    }

    /// Takes away the session of `addr`, if it has one, and hands it back.
    pub fn remove(&mut self, addr: &PeerAddr) -> (s: Option<Session<R>>)
        requires
            old(self).wf(),
        ensures
            final(self).wf(),
            final(self)@ == old(self)@.remove(*addr),
            match s {
                Some(s) => old(self)@.contains_key(*addr) && s == old(self)@[*addr],
                None => !old(self)@.contains_key(*addr),
            },
    {
        match self.position(addr) {
            Some(i) => {
                proof {
                    lemma_entry(self.entries@, i as int);
                    lemma_remove(self.entries@, i as int);
                }
                let (_, s) = self.entries.remove(i);
                Some(s)
            },
            None => {
                assert(old(self)@.remove(*addr) =~= old(self)@);
                None
            },
        }
    }
}

/// Opens the session of a bot that has just connected at `addr`, replacing any
/// session the address had, and hands back the new session.
pub fn create<'a, R>(sessions: &'a mut Sessions<R>, addr: &PeerAddr, recipient: R) -> (s: &'a Session<R>)
    requires
        old(sessions).wf(),
    ensures
        final(sessions).wf(),
        final(sessions)@ == old(sessions)@.insert(*addr, *s),
        s.recipient == recipient,
        s.symbol@ == "init"@,
        s.strategy@ == "init"@,
        s.time_frame == TimeFrameType::M1,
        s.strategy_type == StrategyType::OnlyLong,
        s.started == s.last_ping,
        s.started == s.last_data,
        !s.market_open,
        s.client_status == SessionStatus::Up,
{
    let session = Session::new(recipient);
    sessions.insert(*addr, session);
    sessions.get(addr).unwrap()
}

/// The session of `addr`, to be changed in place; the address must have one.
pub fn find<'a, R>(sessions: &'a mut Sessions<R>, addr: &PeerAddr) -> (s: &'a mut Session<R>)
    requires
        old(sessions).wf(),
        old(sessions)@.contains_key(*addr),
    ensures
        *s == old(sessions)@[*addr],
        final(sessions).wf(),
        final(sessions)@ == old(sessions)@.insert(*addr, *final(s)),
{
    sessions.find_mut(addr)
}

/// Closes the session of `addr`, if it has one.
pub fn destroy<R>(sessions: &mut Sessions<R>, addr: &PeerAddr)
    requires
        old(sessions).wf(),
    ensures
        final(sessions).wf(),
        final(sessions)@ == old(sessions)@.remove(*addr),
{
    let _ = sessions.remove(addr);
}

/// The instant before which a bot's last data makes its session stale: `timeout_secs`
/// seconds before `now` (both in milliseconds since the Unix epoch for `now`).
pub fn heartbeat_cutoff(now: i64, timeout_secs: u64) -> (cutoff: i64)
    requires
        timeout_secs * 1000 <= i64::MAX,
        now - timeout_secs * 1000 >= i64::MIN,
    ensures
        cutoff == now - timeout_secs * 1000,
{
    let span: i64 = (timeout_secs * 1000) as i64;
    now - span
}

/// Opening a session at an address that had none and closing it again leaves the
/// other sessions as they were.
pub proof fn lemma_create_then_destroy<R>(m: Map<PeerAddr, Session<R>>, addr: PeerAddr, s: Session<R>)
    requires
        !m.contains_key(addr),
    ensures
        m.insert(addr, s).remove(addr) == m,
{
    assert(m.insert(addr, s).remove(addr) =~= m);
}

/// A heartbeat sweep leaves no stale session behind and keeps every other one.
pub proof fn lemma_sweep_leaves_no_stale<R>(m: Map<PeerAddr, Session<R>>, cutoff: i64)
    ensures
        forall|a: PeerAddr| #[trigger] m.remove_keys(stale_addrs(m, cutoff)).contains_key(a)
            ==> !spec_is_stale(m[a], cutoff),
        forall|a: PeerAddr| m.contains_key(a) && !spec_is_stale(m[a], cutoff)
            ==> #[trigger] m.remove_keys(stale_addrs(m, cutoff)).contains_key(a),
        forall|a: PeerAddr| #[trigger] m.remove_keys(stale_addrs(m, cutoff)).contains_key(a)
            ==> m.remove_keys(stale_addrs(m, cutoff))[a] == m[a],
{
}

} // verus!
