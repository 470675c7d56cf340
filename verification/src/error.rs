use vstd::prelude::*;
use crate::server_messages::CommandType;

verus! {

/// Kinds of failure the server reports.
#[derive(Copy, Clone, Debug, PartialEq, Eq, Structural)]
pub enum RsAlgoErrorKind {
    EnvVarNotFound,
    SocketError,
    InvalidAddress,
    NoDbConnection,
    WrongInstrumentConf,
    InvalidPeak,
    RequestError,
}

/// The human readable text of each error kind.
pub open spec fn error_text(kind: RsAlgoErrorKind) -> Seq<char> {
    match kind {
        RsAlgoErrorKind::EnvVarNotFound => "EnvVarNotFound!"@,
        RsAlgoErrorKind::SocketError => "SocketError!"@,
        RsAlgoErrorKind::InvalidAddress => "InvalidAddress!"@,
        RsAlgoErrorKind::NoDbConnection => "No Db Connection!"@,
        RsAlgoErrorKind::WrongInstrumentConf => "Invalid Instrument!"@,
        RsAlgoErrorKind::InvalidPeak => "Invalid Peak!"@,
        RsAlgoErrorKind::RequestError => "Error on Request!"@,
    }
}

impl RsAlgoErrorKind {
    /// The message that describes this error kind.
    pub fn message(&self) -> (text: String)
        ensures
            text@ == error_text(*self),
    {
        match self {
            RsAlgoErrorKind::EnvVarNotFound => "EnvVarNotFound!".to_owned(),
            RsAlgoErrorKind::SocketError => "SocketError!".to_owned(),
            RsAlgoErrorKind::InvalidAddress => "InvalidAddress!".to_owned(),
            RsAlgoErrorKind::NoDbConnection => "No Db Connection!".to_owned(),
            RsAlgoErrorKind::WrongInstrumentConf => "Invalid Instrument!".to_owned(),
            RsAlgoErrorKind::InvalidPeak => "Invalid Peak!".to_owned(),
            RsAlgoErrorKind::RequestError => "Error on Request!".to_owned(),
        }
    }
}

/// The JSON error type of `serde_json`, carried through unread.
#[verifier::external_type_specification]
#[verifier::external_body]
pub struct ExSerdeJsonError(serde_json::Error);

/// The answer sent when a response could not be serialized: an empty text.
pub fn serialization(err: serde_json::Error, command: &CommandType) -> (answer: String)
    ensures
        answer@.len() == 0,
{
    String::new()
}

/// The answer sent when a broker command failed: none.
pub fn executed_command(err: RsAlgoErrorKind, command: &CommandType) -> (answer: Option<String>)
    ensures
        answer is None,
{
    None
}

} // verus!
