//! The domain values that gateway events and commands carry.
use vstd::prelude::*;

verus! {

/// The type of one declared command parameter.
#[derive(Clone, Copy, Debug, PartialEq, Eq, Structural)]
pub enum ParamType {
    String,
    Int,
    Bool,
}

/// One command argument, coerced to its declared type.
#[derive(Clone, Debug)]
pub enum Value {
    String(String),
    Int(isize),
    Bool(bool),
}

/// The author of a message.
#[derive(Clone, Debug)]
pub struct Author {
    pub id: String,
    pub username: String,
}

/// A message, as a `MESSAGE_CREATE` event carries it.
#[derive(Clone, Debug)]
pub struct MessageData {
    pub tts: bool,
    pub timestamp: Option<String>,
    pub pinned: bool,
    pub mention_everyone: bool,
    pub flags: u64,
    pub edited_timestamp: Option<String>,
    pub content: String,
    pub channel_id: String,
    pub author: Author,
    pub guild_id: Option<String>,
    pub message_id: String,
}

/// The body of a `MESSAGE_CREATE` event.
#[derive(Clone, Debug)]
pub struct MessageResponse {
    pub data: MessageData,
}

/// The body of an outgoing message.
#[derive(Clone, Debug)]
pub struct CreateMessageData {
    pub content: String,
    pub tts: bool,
}

impl From<String> for CreateMessageData {
    fn from(value: String) -> (r: CreateMessageData) {
        CreateMessageData { content: value, tts: false }
    }
}

impl vstd::std_specs::convert::FromSpecImpl<String> for CreateMessageData {
    open spec fn obeys_from_spec() -> bool {
        true
    }

    open spec fn from_spec(v: String) -> CreateMessageData {
        CreateMessageData { content: v, tts: false }
    }
}

/// The application that a session belongs to.
#[derive(Clone, Debug)]
pub struct ApplicationData {
    pub id: String,
    pub flags: u64,
}

/// What a `READY` event says of the new session.
#[derive(Clone, Debug)]
pub struct ReadyData {
    pub session_type: String,
    pub session_id: String,
    pub resume_gateway_url: String,
    pub application: ApplicationData,
}

/// The body of a `READY` event.
#[derive(Clone, Debug)]
pub struct ReadyResponse {
    pub data: ReadyData,
}

} // verus!
