//! The `hecs` entity store, as the library reads and changes it.
//!
//! `hecs::World` is opaque here. What it holds is named by `world_entities`:
//! a map from each live entity to the library components it carries (an
//! entity spawned by other code, with none of them, maps to a blank record).
//! Each `World` method the library calls has a wrapper below whose contract
//! states what the method does to that map and what it returns.
use vstd::prelude::*;
use vstd::pervasive::cloned;
use crate::common::jitter::SequenceTracker;
use crate::ecs::components::{
    AudioSink, AudioSource, Identity, JitterState, OutboundTx, OwnedBy, RoomId, RoomMembership,
    TextChannel,
};

verus! {

#[verifier::external_type_specification]
#[verifier::external_body]
pub struct ExWorld(hecs::World);

#[verifier::external_type_specification]
#[verifier::external_body]
pub struct ExEntity(hecs::Entity);

/// The library components one entity carries.
pub struct EntityRecord {
    /// `Identity`: the username, if the entity is a User.
    pub username: Option<Seq<char>>,
    /// `OwnedBy`: the User a Device belongs to.
    pub owner: Option<hecs::Entity>,
    /// The `AudioSource` marker.
    pub audio_source: bool,
    /// The `AudioSink` marker.
    pub audio_sink: bool,
    /// `RoomMembership`: the room's number.
    pub room: Option<u64>,
    /// The `TextChannel` marker.
    pub text_channel: bool,
    /// `OutboundTx`: the sender of the Device's outbound channel.
    pub outbound: Option<tokio::sync::mpsc::UnboundedSender<bytes::Bytes>>,
    /// `JitterState`: the tracker's latest sequence number.
    pub jitter: Option<Option<u16>>,
}

/// The live entities of a world and the library components each carries.
pub uninterp spec fn world_entities(world: hecs::World) -> Map<hecs::Entity, EntityRecord>;

/// The bit pattern of an entity (`Entity::to_bits`).
pub uninterp spec fn entity_bits(e: hecs::Entity) -> u64;

/// An entity that carries no library component.
pub open spec fn blank_record() -> EntityRecord {
    EntityRecord {
        username: None,
        owner: None,
        audio_source: false,
        audio_sink: false,
        room: None,
        text_channel: false,
        outbound: None,
        jitter: None,
    }
}

impl EntityRecord {
    pub open spec fn with_audio_source(self, on: bool) -> EntityRecord {
        EntityRecord { audio_source: on, ..self }
    }

    pub open spec fn with_jitter(self, last: Option<u16>) -> EntityRecord {
        EntityRecord { jitter: Some(last), ..self }
    }
}

/// A User entity: an `Identity` and nothing else.
pub open spec fn user_record(username: Seq<char>) -> EntityRecord {
    EntityRecord { username: Some(username), ..blank_record() }
}

/// A plain Device entity: `OwnedBy(owner)`.
pub open spec fn device_record(owner: hecs::Entity) -> EntityRecord {
    EntityRecord { owner: Some(owner), ..blank_record() }
}

/// A voice peer: owned, in a room, an `AudioSink` with this outbound sender
/// and a jitter tracker.
pub open spec fn voice_peer_record(
    owner: hecs::Entity,
    room: u64,
    outbound: tokio::sync::mpsc::UnboundedSender<bytes::Bytes>,
    last: Option<u16>,
) -> EntityRecord {
    EntityRecord {
        owner: Some(owner),
        room: Some(room),
        audio_sink: true,
        outbound: Some(outbound),
        jitter: Some(last),
        ..blank_record()
    }
}

/// A text session: owned, in a room, a `TextChannel` with this outbound sender.
pub open spec fn text_device_record(
    owner: hecs::Entity,
    room: u64,
    outbound: tokio::sync::mpsc::UnboundedSender<bytes::Bytes>,
) -> EntityRecord {
    EntityRecord {
        owner: Some(owner),
        room: Some(room),
        text_channel: true,
        outbound: Some(outbound),
        ..blank_record()
    }
}

/// The record of `e`, if it is live.
pub open spec fn record_of(m: Map<hecs::Entity, EntityRecord>, e: hecs::Entity) -> Option<EntityRecord> {
    if m.dom().contains(e) {
        Some(m[e])
    } else {
        None
    }
}

/// `World::new`: an empty world.
#[verifier::external_body]
pub(crate) fn new_world() -> (fresh: hecs::World)
    ensures
        world_entities(fresh).dom() == Set::<hecs::Entity>::empty(),
{
    hecs::World::new()
}

/// `World::spawn` with an `Identity`: a fresh entity (never a live one)
/// carrying it. Spawning panics once `u32::MAX` entities are live, which
/// `requires` leaves out.
#[verifier::external_body]
pub(crate) fn spawn_user(world: &mut hecs::World, identity: Identity) -> (e: hecs::Entity)
    requires
        world_entities(*old(world)).dom().len() < u32::MAX,
    ensures
        !world_entities(*old(world)).dom().contains(e),
        world_entities(*final(world)) == world_entities(*old(world)).insert(
            e,
            user_record(identity.username@),
        ),
{
    world.spawn((identity,))
}

/// `World::spawn` with an `OwnedBy`: a fresh entity carrying it.
#[verifier::external_body]
pub(crate) fn spawn_device(world: &mut hecs::World, owned: OwnedBy) -> (e: hecs::Entity)
    requires
        world_entities(*old(world)).dom().len() < u32::MAX,
    ensures
        !world_entities(*old(world)).dom().contains(e),
        world_entities(*final(world)) == world_entities(*old(world)).insert(e, device_record(owned.0)),
{
    world.spawn((owned,))
}

/// `World::spawn` with the components of a voice peer: a fresh entity
/// carrying them.
#[verifier::external_body]
pub(crate) fn spawn_voice_peer(
    world: &mut hecs::World,
    owned: OwnedBy,
    membership: RoomMembership,
    sink: AudioSink,
    outbound: OutboundTx,
    jitter: JitterState,
) -> (e: hecs::Entity)
    requires
        world_entities(*old(world)).dom().len() < u32::MAX,
    ensures
        !world_entities(*old(world)).dom().contains(e),
        world_entities(*final(world)) == world_entities(*old(world)).insert(
            e,
            voice_peer_record(owned.0, membership.0.0, outbound.0, jitter.0@),
        ),
{
    world.spawn((owned, membership, sink, outbound, jitter))
}

/// `World::spawn` with the components of a text session: a fresh entity
/// carrying them.
#[verifier::external_body]
pub(crate) fn spawn_text_device(
    world: &mut hecs::World,
    owned: OwnedBy,
    membership: RoomMembership,
    channel: TextChannel,
    outbound: OutboundTx,
) -> (e: hecs::Entity)
    requires
        world_entities(*old(world)).dom().len() < u32::MAX,
    ensures
        !world_entities(*old(world)).dom().contains(e),
        world_entities(*final(world)) == world_entities(*old(world)).insert(
            e,
            text_device_record(owned.0, membership.0.0, outbound.0),
        ),
{
    world.spawn((owned, membership, channel, outbound))
}

/// `Entity::to_bits`: the entity's bit pattern. Its high half is the
/// entity's generation, which is never zero.
#[verifier::external_body]
pub(crate) fn entity_to_bits(e: hecs::Entity) -> (bits: u64)
    ensures
        bits == entity_bits(e),
        bits >= 0x1_0000_0000,
{
    e.to_bits().get()
}

/// `Entity::from_bits`: the entity with this bit pattern, which exists
/// exactly when the high half (the generation) is not zero.
#[verifier::external_body]
pub(crate) fn entity_from_bits(bits: u64) -> (r: Option<hecs::Entity>)
    ensures
        r is Some <==> bits >= 0x1_0000_0000,
        r matches Some(e) ==> entity_bits(e) == bits,
        forall|e: hecs::Entity| #[trigger] entity_bits(e) == bits ==> r == Some(e),
{
    hecs::Entity::from_bits(bits)
}

/// `Entity`'s derived `==`: the same entity.
#[verifier::external_body]
pub(crate) fn entity_eq(a: hecs::Entity, b: hecs::Entity) -> (same: bool)
    ensures
        same == (a == b),
{
    a == b
}

/// `World::get::<&Identity>`: the username, when `e` is live and has one.
#[verifier::external_body]
pub(crate) fn get_username(world: &hecs::World, e: hecs::Entity) -> (r: Option<String>)
    ensures
        match r {
            Some(name) => record_of(world_entities(*world), e) matches Some(rec)
                && rec.username == Some(name@),
            None => !(record_of(world_entities(*world), e) matches Some(rec) && rec.username is Some),
        },
{
    world.get::<&Identity>(e).ok().map(|identity| identity.username.clone())
}

/// `World::get::<&OwnedBy>`: the owner, when `e` is live and has one.
#[verifier::external_body]
pub(crate) fn get_owner(world: &hecs::World, e: hecs::Entity) -> (r: Option<hecs::Entity>)
    ensures
        match r {
            Some(owner) => record_of(world_entities(*world), e) matches Some(rec) && rec.owner
                == Some(owner),
            None => !(record_of(world_entities(*world), e) matches Some(rec) && rec.owner is Some),
        },
{
    world.get::<&OwnedBy>(e).ok().map(|owned| owned.0)
}

/// `World::get::<&RoomMembership>`: the room, when `e` is live and in one.
#[verifier::external_body]
pub(crate) fn get_room(world: &hecs::World, e: hecs::Entity) -> (r: Option<RoomId>)
    ensures
        match r {
            Some(room) => record_of(world_entities(*world), e) matches Some(rec) && rec.room
                == Some(room.0),
            None => !(record_of(world_entities(*world), e) matches Some(rec) && rec.room is Some),
        },
{
    world.get::<&RoomMembership>(e).ok().map(|membership| membership.0)
}

/// `World::get::<&AudioSource>`: whether `e` is live and carries the marker.
#[verifier::external_body]
pub(crate) fn has_audio_source(world: &hecs::World, e: hecs::Entity) -> (r: bool)
    ensures
        r == (record_of(world_entities(*world), e) matches Some(rec) && rec.audio_source),
{
    world.get::<&AudioSource>(e).is_ok()
}

/// `World::get::<&JitterState>`: a copy of the tracker, when `e` is live and
/// has one.
#[verifier::external_body]
pub(crate) fn get_jitter(world: &hecs::World, e: hecs::Entity) -> (r: Option<SequenceTracker>)
    ensures
        match r {
            Some(t) => record_of(world_entities(*world), e) matches Some(rec) && rec.jitter
                == Some(t@),
            None => !(record_of(world_entities(*world), e) matches Some(rec) && rec.jitter is Some),
        },
{
    world.get::<&JitterState>(e).ok().map(|jitter| jitter.0)
}

/// `World::insert_one` of a `JitterState`: replaces (or adds) the tracker of
/// a live entity; fails, changing nothing, on a dead one.
#[verifier::external_body]
pub(crate) fn set_jitter(world: &mut hecs::World, e: hecs::Entity, jitter: JitterState) -> (ok: bool)
    ensures
        ok == world_entities(*old(world)).dom().contains(e),
        ok ==> world_entities(*final(world)) == world_entities(*old(world)).insert(
            e,
            world_entities(*old(world))[e].with_jitter(jitter.0@),
        ),
        !ok ==> world_entities(*final(world)) == world_entities(*old(world)),
{
    world.insert_one(e, jitter).is_ok()
}

/// `World::insert_one` of the `AudioSource` marker: adds it to a live entity
/// (a no-op for one that has it); fails, changing nothing, on a dead one.
#[verifier::external_body]
pub(crate) fn insert_audio_source(world: &mut hecs::World, e: hecs::Entity, source: AudioSource) -> (ok: bool)
    ensures
        ok == world_entities(*old(world)).dom().contains(e),
        ok ==> world_entities(*final(world)) == world_entities(*old(world)).insert(
            e,
            world_entities(*old(world))[e].with_audio_source(true),
        ),
        !ok ==> world_entities(*final(world)) == world_entities(*old(world)),
{
    world.insert_one(e, source).is_ok()
}

/// `World::remove_one::<AudioSource>`: removes the marker from a live entity
/// that carries it; otherwise fails, changing nothing.
#[verifier::external_body]
pub(crate) fn remove_audio_source(world: &mut hecs::World, e: hecs::Entity) -> (ok: bool)
    ensures
        ok == (record_of(world_entities(*old(world)), e) matches Some(rec) && rec.audio_source),
        ok ==> world_entities(*final(world)) == world_entities(*old(world)).insert(
            e,
            world_entities(*old(world))[e].with_audio_source(false),
        ),
        !ok ==> world_entities(*final(world)) == world_entities(*old(world)),
{
    world.remove_one::<AudioSource>(e).is_ok()
}

/// `World::query::<(Entity, &OwnedBy)>`: every live entity with an owner,
/// once each, in no stated order, paired with its owner.
#[verifier::external_body]
pub(crate) fn query_owned(world: &hecs::World) -> (r: Vec<(hecs::Entity, hecs::Entity)>)
    ensures
        forall|i: int, j: int| 0 <= i < j < r@.len() ==> #[trigger] r@[i].0 != #[trigger] r@[j].0,
        forall|i: int|
            0 <= i < r@.len() ==> world_entities(*world).dom().contains(#[trigger] r@[i].0)
                && world_entities(*world)[r@[i].0].owner == Some(r@[i].1),
        forall|e: hecs::Entity|
            world_entities(*world).dom().contains(e) && (#[trigger] world_entities(*world)[e]).owner
                is Some ==> exists|i: int| 0 <= i < r@.len() && (#[trigger] r@[i]).0 == e,
{
    world.query::<(hecs::Entity, &OwnedBy)>().iter().map(|(e, owned)| (e, owned.0)).collect()
}

/// `World::query::<(Entity, &OwnedBy, &AudioSource)>`: every live entity
/// with an owner and the `AudioSource` marker, once each, in no stated order,
/// paired with its owner.
#[verifier::external_body]
pub(crate) fn query_owned_sources(world: &hecs::World) -> (r: Vec<(hecs::Entity, hecs::Entity)>)
    ensures
        forall|i: int, j: int| 0 <= i < j < r@.len() ==> #[trigger] r@[i].0 != #[trigger] r@[j].0,
        forall|i: int|
            0 <= i < r@.len() ==> world_entities(*world).dom().contains(#[trigger] r@[i].0)
                && world_entities(*world)[r@[i].0].owner == Some(r@[i].1)
                && world_entities(*world)[r@[i].0].audio_source,
        forall|e: hecs::Entity|
            world_entities(*world).dom().contains(e) && (#[trigger] world_entities(*world)[e]).owner
                is Some && world_entities(*world)[e].audio_source ==> exists|i: int|
                0 <= i < r@.len() && (#[trigger] r@[i]).0 == e,
{
    world.query::<(hecs::Entity, &OwnedBy, &AudioSource)>().iter().map(|(e, owned, _)| (e, owned.0)).collect()
}

/// `World::query::<(Entity, &AudioSink, &RoomMembership, &OutboundTx)>`:
/// every live audio sink that is in a room and has an outbound channel, once
/// each, in no stated order, with its room and a clone of its sender.
#[verifier::external_body]
pub(crate) fn query_audio_sinks(world: &hecs::World) -> (r: Vec<
    (hecs::Entity, RoomId, tokio::sync::mpsc::UnboundedSender<bytes::Bytes>),
>)
    ensures
        forall|i: int, j: int| 0 <= i < j < r@.len() ==> #[trigger] r@[i].0 != #[trigger] r@[j].0,
        forall|i: int|
            0 <= i < r@.len() ==> world_entities(*world).dom().contains(#[trigger] r@[i].0)
                && world_entities(*world)[r@[i].0].audio_sink
                && world_entities(*world)[r@[i].0].room == Some(r@[i].1.0)
                && (world_entities(*world)[r@[i].0].outbound matches Some(tx) && cloned(tx, r@[i].2)),
        forall|e: hecs::Entity|
            world_entities(*world).dom().contains(e) && (#[trigger] world_entities(*world)[e]).audio_sink
                && world_entities(*world)[e].outbound is Some && world_entities(*world)[e].room is Some
                ==> exists|i: int| 0 <= i < r@.len() && (#[trigger] r@[i]).0 == e,
{
    world.query::<(hecs::Entity, &AudioSink, &RoomMembership, &OutboundTx)>().iter().map(
        |(e, _, membership, tx)| (e, membership.0, tx.0.clone()),
    ).collect()
}

/// `World::query::<(Entity, &TextChannel, &RoomMembership, &OutboundTx)>`:
/// every live text channel that is in a room and has an outbound channel,
/// once each, in no stated order, with its room and a clone of its sender.
#[verifier::external_body]
pub(crate) fn query_text_channels(world: &hecs::World) -> (r: Vec<
    (hecs::Entity, RoomId, tokio::sync::mpsc::UnboundedSender<bytes::Bytes>),
>)
    ensures
        forall|i: int, j: int| 0 <= i < j < r@.len() ==> #[trigger] r@[i].0 != #[trigger] r@[j].0,
        forall|i: int|
            0 <= i < r@.len() ==> world_entities(*world).dom().contains(#[trigger] r@[i].0)
                && world_entities(*world)[r@[i].0].text_channel
                && world_entities(*world)[r@[i].0].room == Some(r@[i].1.0)
                && (world_entities(*world)[r@[i].0].outbound matches Some(tx) && cloned(tx, r@[i].2)),
        forall|e: hecs::Entity|
            world_entities(*world).dom().contains(e) && (#[trigger] world_entities(*world)[e]).text_channel
                && world_entities(*world)[e].outbound is Some && world_entities(*world)[e].room is Some
                ==> exists|i: int| 0 <= i < r@.len() && (#[trigger] r@[i]).0 == e,
{
    world.query::<(hecs::Entity, &TextChannel, &RoomMembership, &OutboundTx)>().iter().map(
        |(e, _, membership, tx)| (e, membership.0, tx.0.clone()),
    ).collect()
}

} // verus!
