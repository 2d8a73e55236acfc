//! The components that Users and Devices are made of.
use vstd::prelude::*;
use crate::common::jitter::SequenceTracker;

verus! {

/// A User entity's logical identity. Persists across however many Device
/// entities are currently attached to it.
#[derive(Debug, Clone)]
pub struct Identity {
    pub username: String,
}

/// Links a Device entity back to the User entity that owns it.
#[derive(Debug, Clone, Copy, PartialEq, Eq)]
pub struct OwnedBy(pub hecs::Entity);

/// Marker: this Device entity is currently producing audio for its owning
/// User. Moving it between two Devices of one User is all a device switch is.
#[derive(Debug, Clone, Copy)]
pub struct AudioSource;

/// Marker: this Device entity receives the audio of its room.
#[derive(Debug, Clone, Copy)]
pub struct AudioSink;

/// Marker: this Device entity receives the text chat of its room.
#[derive(Debug, Clone, Copy)]
pub struct TextChannel;

/// A room, by number.
#[derive(Debug, Clone, Copy, PartialEq, Eq, Hash)]
pub struct RoomId(pub u64);

/// The room a Device entity is in.
#[derive(Debug, Clone, Copy, PartialEq, Eq)]
pub struct RoomMembership(pub RoomId);

/// The sending end of the channel whose receiver writes to this Device's
/// transport.
pub struct OutboundTx(pub tokio::sync::mpsc::UnboundedSender<bytes::Bytes>);

/// Sequence tracking of the audio this Device produces.
pub struct JitterState(pub SequenceTracker);

} // verus!
