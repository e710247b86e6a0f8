//! What the plugin host hands over and takes back.
use vstd::prelude::*;

verus! {

/// A command that the host matched.
#[derive(Clone, Debug, PartialEq, Eq)]
pub struct CommandRequest {
    pub args: String,
    pub command_name: String,
    pub sender_id: String,
    pub group_id: String,
    pub raw_event_json: String,
    pub sender_nickname: String,
    pub message_id: String,
    pub timestamp: i64,
}

/// A message before the host matches commands.
#[derive(Clone, Debug, PartialEq, Eq)]
pub struct InterceptorRequest {
    pub bot_id: String,
    pub sender_id: String,
    pub group_id: String,
    pub message_text: String,
    pub raw_event_json: String,
    pub sender_nickname: String,
    pub message_id: String,
    pub timestamp: i64,
}

/// What a command answers.
#[derive(Clone, Debug, PartialEq, Eq)]
pub enum CommandResponse {
    /// No answer.
    Ignore,
    /// A plain text.
    Text(String),
    /// Message segments, as a JSON array.
    Rich(String),
}

/// The mathematical form of an answer.
pub enum Reply {
    Ignore,
    Text(Seq<char>),
    Rich(Seq<char>),
}

impl View for CommandResponse {
    type V = Reply;

    open spec fn view(&self) -> Reply {
        match self {
            CommandResponse::Ignore => Reply::Ignore,
            CommandResponse::Text(text) => Reply::Text(text@),
            CommandResponse::Rich(segments) => Reply::Rich(segments@),
        }
    }
}

} // verus!
