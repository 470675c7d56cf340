//! Commands a client sends to join the room of a symbol and period.
use vstd::prelude::*;
use crate::json::{json_text, json_text_in, json_text_at, json_text_in_at};
use crate::types::same_text;

verus! {

/// A white-space character: the characters with Unicode's `White_Space` property, which
/// is what `str::trim` removes.
pub open spec fn is_white_space(c: char) -> bool {
    let n = c as u32;
    ||| 0x9 <= n <= 0xd
    ||| n == 0x20
    ||| n == 0x85
    ||| n == 0xa0
    ||| n == 0x1680
    ||| 0x2000 <= n <= 0x200a
    ||| n == 0x2028
    ||| n == 0x2029
    ||| n == 0x202f
    ||| n == 0x205f
    ||| n == 0x3000
}

/// `s` without its leading white space.
pub open spec fn trim_start(s: Seq<char>) -> Seq<char>
    decreases s.len(),
{
    if s.len() > 0 && is_white_space(s[0]) { trim_start(s.subrange(1, s.len() as int)) } else { s }
}

/// `s` without its trailing white space.
pub open spec fn trim_end(s: Seq<char>) -> Seq<char>
    decreases s.len(),
{
    if s.len() > 0 && is_white_space(s.last()) { trim_end(s.drop_last()) } else { s }
}

/// `s` without leading and trailing white space.
pub open spec fn trimmed(s: Seq<char>) -> Seq<char> {
    trim_end(trim_start(s))
}

/// Whether a character is white space.
fn white_space(c: char) -> (w: bool)
    ensures
        w == is_white_space(c),
{
    let n = c as u32;
    (0x9 <= n && n <= 0xd) || n == 0x20 || n == 0x85 || n == 0xa0 || n == 0x1680
        || (0x2000 <= n && n <= 0x200a) || n == 0x2028 || n == 0x2029 || n == 0x202f
        || n == 0x205f || n == 0x3000
}

/// The text without leading and trailing white space.
pub fn trim_text(text: &str) -> (t: &str)
    ensures
        t@ == trimmed(text@),
{
    let n = text.unicode_len();
    let mut i: usize = 0;
    proof {
        assert(text@.subrange(0, n as int) =~= text@);
    }
    while i < n && white_space(text.get_char(i))
        invariant
            n == text@.len(),
            i <= n,
            trim_start(text@) == trim_start(text@.subrange(i as int, n as int)),
        decreases n - i,
    {
        proof {
            let rest = text@.subrange(i as int, n as int);
            assert(rest.subrange(1, rest.len() as int) =~= text@.subrange(i + 1, n as int));
        }
        i = i + 1;
    }
    proof {
        let rest = text@.subrange(i as int, n as int);
        if i < n {
            assert(rest[0] == text@[i as int]);
        }
        assert(trim_start(text@) == rest);
    }
    let mut j: usize = n;
    while j > i && white_space(text.get_char(j - 1))
        invariant
            n == text@.len(),
            i <= j <= n,
            trim_start(text@) == text@.subrange(i as int, n as int),
            trim_end(text@.subrange(i as int, n as int)) == trim_end(text@.subrange(i as int, j as int)),
        decreases j - i,
    {
        proof {
            let part = text@.subrange(i as int, j as int);
            assert(part.last() == text@[j - 1]);
            assert(part.drop_last() =~= text@.subrange(i as int, j - 1));
        }
        j = j - 1;
    }
    proof {
        let part = text@.subrange(i as int, j as int);
        if j > i {
            assert(part.last() == text@[j - 1]);
        }
        assert(trim_end(part) == part);
    }
    text.substring_char(i, j)
}

/// What the server does with a client's command.
#[derive(Debug)]
pub enum ChatAction {
    /// Join the room `room` under the name `client`.
    Subscribe { room: String, client: String },
    /// A command with a name the server does not know.
    UnknownCommand(String),
    /// A message whose `command` is not text.
    WrongFormat,
}

/// The text at `arguments.key` of a command (empty when there is none).
pub open spec fn argument(msg: Seq<char>, key: Seq<char>) -> Seq<char> {
    match json_text_in(msg, "arguments"@, key) {
        Some(Some(s)) => s,
        _ => Seq::empty(),
    }
}

/// A command the server can read: JSON, and a subscription names its symbol, period,
/// strategy and strategy type.
pub open spec fn well_formed_chat_command(msg: Seq<char>) -> bool {
    &&& json_text(msg, "command"@) is Some
    &&& json_text(msg, "command"@) == Some(Some("subscribe"@)) ==> {
        &&& (json_text_in(msg, "arguments"@, "symbol"@) matches Some(Some(_)))
        &&& (json_text_in(msg, "arguments"@, "time_frame"@) matches Some(Some(_)))
        &&& (json_text_in(msg, "arguments"@, "strategy"@) matches Some(Some(_)))
        &&& (json_text_in(msg, "arguments"@, "strategy_type"@) matches Some(Some(_)))
    }
}

/// Reads the text argument `key` of a command.
fn argument_at(msg: &str, key: &str) -> (s: String)
    ensures
        s@ == argument(msg@, key@),
{
    match json_text_in_at(msg, "arguments", key) {
        Some(Some(s)) => s,
        _ => String::new(),
    }
}

/// Decides what to do with a client's command, read without its leading and trailing
/// white space: a subscription joins the room named by symbol and period (joined by `_`)
/// under the name made of strategy and strategy type (joined by `_`).
pub fn plan_chat_command(msg: &str) -> (a: ChatAction)
    requires
        well_formed_chat_command(trimmed(msg@)),
    ensures
        match json_text(trimmed(msg@), "command"@).unwrap() {
            Some(c) => if c == "subscribe"@ {
                a matches ChatAction::Subscribe { room, client }
                    && room@ == argument(trimmed(msg@), "symbol"@) + "_"@ + argument(trimmed(msg@), "time_frame"@)
                    && client@ == argument(trimmed(msg@), "strategy"@) + "_"@ + argument(trimmed(msg@), "strategy_type"@)
            } else {
                a matches ChatAction::UnknownCommand(n) && n@ == c
            },
            None => a is WrongFormat,
        },
{
    let msg = trim_text(msg);
    let command = match json_text_at(msg, "command") {
        Some(c) => c,
        None => None,
    };
    match command {
        Some(c) => {
            if same_text(c.as_str(), "subscribe") {
                let mut room = argument_at(msg, "symbol");
                room.append("_");
                let tf = argument_at(msg, "time_frame");
                room.append(tf.as_str());
                let mut client = argument_at(msg, "strategy");
                client.append("_");
                let st = argument_at(msg, "strategy_type");
                client.append(st.as_str());
                ChatAction::Subscribe { room, client }
            } else {
                ChatAction::UnknownCommand(c)
            }
        },
        None => ChatAction::WrongFormat,
    }
}

/// Checks that a client's command, without its leading and trailing white space, can be
/// read, as `well_formed_chat_command` says.
pub fn chat_command_is_well_formed(msg: &str) -> (ok: bool)
    ensures
        ok == well_formed_chat_command(trimmed(msg@)),
{
    let msg = trim_text(msg);
    let command = json_text_at(msg, "command");
    match command {
        None => false,
        Some(c) => {
            let is_subscribe = match c {
                Some(c) => same_text(c.as_str(), "subscribe"),
                None => false,
            };
            if is_subscribe {
                let a = json_text_in_at(msg, "arguments", "symbol");
                let b = json_text_in_at(msg, "arguments", "time_frame");
                let c2 = json_text_in_at(msg, "arguments", "strategy");
                let d = json_text_in_at(msg, "arguments", "strategy_type");
                let ok_a = match a { Some(Some(_)) => true, _ => false };
                let ok_b = match b { Some(Some(_)) => true, _ => false };
                let ok_c = match c2 { Some(Some(_)) => true, _ => false };
                let ok_d = match d { Some(Some(_)) => true, _ => false };
                ok_a && ok_b && ok_c && ok_d
            } else {
                true
            }
        },
    }
}

/// Decides what to do with a client's command, or `None` when it cannot be read.
pub fn plan_chat_command_checked(msg: &str) -> (a: Option<ChatAction>)
    ensures
        a is None <==> !well_formed_chat_command(trimmed(msg@)),
        a matches Some(a) ==> match json_text(trimmed(msg@), "command"@).unwrap() {
            Some(c) => if c == "subscribe"@ {
                a matches ChatAction::Subscribe { room, client }
                    && room@ == argument(trimmed(msg@), "symbol"@) + "_"@ + argument(trimmed(msg@), "time_frame"@)
                    && client@ == argument(trimmed(msg@), "strategy"@) + "_"@ + argument(trimmed(msg@), "strategy_type"@)
            } else {
                a matches ChatAction::UnknownCommand(n) && n@ == c
            },
            None => a is WrongFormat,
        },
{
    if chat_command_is_well_formed(msg) {
        Some(plan_chat_command(msg))
    } else {
        None
    }
}

} // verus!
