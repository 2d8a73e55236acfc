//! Text-chat messages exchanged over the `/ws` route.
use vstd::prelude::*;
use crate::common::text::{json_string, push_json_string, push_str};

verus! {

/// Sent by a client over the `/ws` route. `Join` must be the first message on
/// a connection; everything else is dropped until a device is registered.
#[derive(Debug, Clone)]
pub enum ClientMessage {
    Join { user_id: String, room: u64 },
    Chat { text: String },
}

/// Sent by the gateway to a client over `/ws`.
#[derive(Debug, Clone)]
pub enum ServerMessage {
    Chat { from: String, text: String },
    Error { message: String },
}

/// The JSON text of a `Chat` server message with these fields.
pub open spec fn chat_message_json(from: Seq<char>, text: Seq<char>) -> Seq<char> {
    "{\"type\":\"Chat\",\"from\":"@ + json_string(from) + ",\"text\":"@ + json_string(text) + "}"@
}

/// The JSON text of an `Error` server message with this field.
pub open spec fn error_message_json(message: Seq<char>) -> Seq<char> {
    "{\"type\":\"Error\",\"message\":"@ + json_string(message) + "}"@
}

/// The JSON text of a server message: an object whose `"type"` member names
/// the variant, followed by the variant's fields in declaration order.
pub open spec fn server_message_json(m: ServerMessage) -> Seq<char> {
    match m {
        ServerMessage::Chat { from, text } => chat_message_json(from@, text@),
        ServerMessage::Error { message } => error_message_json(message@),
    }
}

impl ServerMessage {
    /// The message as the JSON text a client receives.
    pub fn to_json(&self) -> (json: String)
        ensures
            json@ == server_message_json(*self),
    {
        let mut out = String::new();
        match self {
            ServerMessage::Chat { from, text } => {
                push_str(&mut out, "{\"type\":\"Chat\",\"from\":");
                push_json_string(&mut out, from.as_str());
                push_str(&mut out, ",\"text\":");
                push_json_string(&mut out, text.as_str());
                push_str(&mut out, "}");
            },
            ServerMessage::Error { message } => {
                push_str(&mut out, "{\"type\":\"Error\",\"message\":");
                push_json_string(&mut out, message.as_str());
                push_str(&mut out, "}");
            },
        }
        proof {
            assert(out@ =~= server_message_json(*self));
        }
        out
    }
}

} // verus!
