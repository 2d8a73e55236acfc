//! The decisions of the gateway's HTTP and WebSocket handlers; the handlers
//! themselves (sockets, routing, JSON parsing) live outside the library.
use vstd::prelude::*;
use crate::common::message::{error_message_json, ClientMessage, ServerMessage};
use crate::common::text::parse_u64_spec;
use crate::ecs::commands::UserView;
use crate::ecs::components::RoomId;
use crate::ecs::storage::entity_bits;
use crate::ecs::world::{entity_id_text, entity_to_id, id_to_entity};

verus! {

/// Body of `GET /users/{user_id}`.
pub struct UserResponse {
    pub user_id: String,
    pub username: String,
    pub devices: Vec<String>,
    pub online: bool,
}

/// The response body for a user snapshot: the requested id, the username,
/// each device by its external id (in the snapshot's order) and presence.
pub fn user_response(user_id: String, view: UserView) -> (r: UserResponse)
    ensures
        r.user_id@ == user_id@,
        r.username@ == view.username@,
        r.online == view.online,
        r.devices@.len() == view.devices@.len(),
        forall|i: int| 0 <= i < r.devices@.len() ==> #[trigger] r.devices@[i]@ == entity_id_text(view.devices@[i]),
{
    let mut devices: Vec<String> = Vec::new();
    let mut i: usize = 0;
    while i < view.devices.len()
        invariant
            i <= view.devices@.len(),
            devices@.len() == i,
            forall|j: int| 0 <= j < i ==> #[trigger] devices@[j]@ == entity_id_text(view.devices@[j]),
        decreases view.devices@.len() - i,
    {
        devices.push(entity_to_id(view.devices[i]));
        i += 1;
    }
    UserResponse { user_id, username: view.username, devices, online: view.online }
}

/// What a WebSocket connection does with a message that arrives before it
/// has joined a room.
pub enum JoinDecision {
    /// Not a `Join` (or not a message at all): drop it and keep waiting.
    Wait,
    /// A `Join` naming no entity: send this frame and close the connection.
    Reject { frame: String },
    /// Register the connection as a text Device of `user` in `room`.
    Join { user: hecs::Entity, room: RoomId },
}

/// Decides on a message received before joining, given what the text frame
/// parsed to (`None` when it was not a client message).
pub fn decide_join(message: Option<ClientMessage>) -> (d: JoinDecision)
    ensures
        match message {
            Some(ClientMessage::Join { user_id, room }) => match d {
                JoinDecision::Join { user, room: r } => r.0 == room && (parse_u64_spec(user_id@)
                    == Some(entity_bits(user))) && entity_bits(user) >= 0x1_0000_0000,
                JoinDecision::Reject { frame } => frame@ == error_message_json("unknown user_id"@) && !(parse_u64_spec(user_id@) matches Some(bits) && bits >= 0x1_0000_0000),
                JoinDecision::Wait => false,
            },
            _ => d is Wait,
        },
{
    match message {
        Some(ClientMessage::Join { user_id, room }) => match id_to_entity(user_id.as_str()) {
            Some(user) => JoinDecision::Join { user, room: RoomId(room) },
            None => {
                let error = ServerMessage::Error { message: "unknown user_id".to_owned() };
                let frame = error.to_json();
                JoinDecision::Reject { frame }
            },
        },
        _ => JoinDecision::Wait,
    }
}

} // verus!
