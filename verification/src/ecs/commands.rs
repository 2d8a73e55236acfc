//! Messages sent into the ECS driver, which alone holds `&mut World`, and
//! what the driver sends back out for each of them.
use vstd::prelude::*;
use crate::common::jitter::SequenceEvent;
use crate::ecs::channels::Delivery;
use crate::ecs::components::RoomId;
use crate::ecs::systems::device_switch::DeviceSwitchError;

verus! {

/// Messages sent into the ECS driver task. Every mutation and query of the
/// `World` goes through here.
pub enum Command {
    CreateUser { username: String, reply: tokio::sync::oneshot::Sender<hecs::Entity> },
    /// Fails (sends `None`) if `owner` does not refer to a live User entity.
    /// `as_audio_source` lets the REST API create a device that
    /// `SwitchAudioDevice` has something to switch to or from.
    CreateDevice {
        owner: hecs::Entity,
        as_audio_source: bool,
        reply: tokio::sync::oneshot::Sender<Option<hecs::Entity>>,
    },
    GetUser { user: hecs::Entity, reply: tokio::sync::oneshot::Sender<Option<UserView>> },
    /// Registers a voice peer as a Device entity owned by `owner`, in `room`,
    /// tagged `AudioSink` and, only if `as_source`, `AudioSource` too. Fails
    /// (sends `None`) if `owner` isn't a live User entity.
    RegisterVoicePeer {
        owner: hecs::Entity,
        room: RoomId,
        as_source: bool,
        outbound: tokio::sync::mpsc::UnboundedSender<bytes::Bytes>,
        reply: tokio::sync::oneshot::Sender<Option<hecs::Entity>>,
    },
    /// A raw packet arrived from `from`'s transport: update `from`'s jitter
    /// tracking and, if `from` is an audio source, forward the packet,
    /// undecoded, to every other Device in its room with an `AudioSink`.
    /// Fire-and-forget.
    PacketReceived { from: hecs::Entity, packet: bytes::Bytes },
    /// Registers a WS text session as a new Device entity owned by `user`, in
    /// `room`, tagged `TextChannel`. Fails (sends `None`) if `user` doesn't
    /// refer to a live User entity.
    JoinTextRoom {
        user: hecs::Entity,
        room: RoomId,
        outbound: tokio::sync::mpsc::UnboundedSender<bytes::Bytes>,
        reply: tokio::sync::oneshot::Sender<Option<hecs::Entity>>,
    },
    /// A chat message from `from`, fanned out to every other `TextChannel`
    /// Device in `from`'s room. Fire-and-forget.
    ChatMessage { from: hecs::Entity, text: String },
    /// Moves the active `AudioSource` for `user` onto `to_device`. Fails if
    /// `to_device` isn't owned by `user`.
    SwitchAudioDevice {
        user: hecs::Entity,
        to_device: hecs::Entity,
        reply: tokio::sync::oneshot::Sender<Result<(), DeviceSwitchError>>,
    },
}

impl Command {
    /// Whether the command spawns an entity (if it succeeds); only these
    /// need room for one more live entity.
    pub open spec fn spawns_spec(&self) -> bool {
        match self {
            Command::CreateUser { .. } => true,
            Command::CreateDevice { .. } => true,
            Command::RegisterVoicePeer { .. } => true,
            Command::JoinTextRoom { .. } => true,
            _ => false,
        }
    }

    /// Whether the command spawns an entity (if it succeeds).
    #[verifier::when_used_as_spec(spawns_spec)]
    pub fn spawns(&self) -> (r: bool)
        ensures
            r == self.spawns_spec(),
    {
        match self {
            Command::CreateUser { .. } => true,
            Command::CreateDevice { .. } => true,
            Command::RegisterVoicePeer { .. } => true,
            Command::JoinTextRoom { .. } => true,
            _ => false,
        }
    }
}

/// Snapshot of a User entity and the Device entities currently attached to it.
pub struct UserView {
    pub username: String,
    pub devices: Vec<hecs::Entity>,
    pub online: bool,
}

/// The answer a command owes its sender, with the channel it goes on.
pub enum Reply {
    /// A fire-and-forget command: nobody waits.
    Nothing,
    User { to: tokio::sync::oneshot::Sender<hecs::Entity>, user: hecs::Entity },
    Device {
        to: tokio::sync::oneshot::Sender<Option<hecs::Entity>>,
        device: Option<hecs::Entity>,
    },
    View { to: tokio::sync::oneshot::Sender<Option<UserView>>, view: Option<UserView> },
    Switch {
        to: tokio::sync::oneshot::Sender<Result<(), DeviceSwitchError>>,
        result: Result<(), DeviceSwitchError>,
    },
}

/// Everything one command produces: its reply, the frames for Devices, and
/// the jitter tracker's report on a received packet (for the driver to log).
pub struct Effects {
    pub reply: Reply,
    pub deliveries: Vec<Delivery>,
    pub jitter: Option<SequenceEvent>,
}

} // verus!
