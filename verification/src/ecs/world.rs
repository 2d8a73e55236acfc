//! What the driver does with each `Command`, and the external form of
//! entity ids.
use vstd::prelude::*;
use crate::common::buf::{bytes_clone, bytes_from_string, bytes_view};
use crate::common::jitter::{classify, next_last, SequenceEvent, SequenceTracker};
use crate::common::message::{chat_message_json, ServerMessage};
use crate::common::packet::{decode, parse_header, HEADER_LEN};
use crate::common::text::{decimal, lemma_parse_decimal, parse_u64, parse_u64_spec, u64_to_string};
use crate::ecs::channels::{deliver_all, delivers_exactly, Delivery};
use crate::ecs::outbox::{send_reply, Replied, Sent};
use crate::ecs::commands::{Command, Effects, Reply, UserView};
use crate::ecs::components::{
    AudioSink, AudioSource, Identity, JitterState, OutboundTx, OwnedBy, RoomId, RoomMembership,
    TextChannel,
};
use crate::ecs::storage::{
    device_record, entity_bits, entity_eq, entity_from_bits, entity_to_bits, get_jitter, get_owner,
    get_room, get_username, has_audio_source, insert_audio_source, new_world, query_owned,
    set_jitter, spawn_device, spawn_text_device, spawn_user, spawn_voice_peer,
    text_device_record, user_record, voice_peer_record, world_entities, EntityRecord,
};
use crate::ecs::systems::audio_forward::{self, audio_targets, is_audio_target};
use crate::ecs::systems::device_switch::{self, switched};
use crate::ecs::systems::presence::{is_online, online, owns};
use crate::ecs::systems::text_broadcast::{self, is_text_target, text_targets};

verus! {

/// `e` is a live User entity (it carries an `Identity`).
pub open spec fn is_user(m: Map<hecs::Entity, EntityRecord>, e: hecs::Entity) -> bool {
    m.dom().contains(e) && m[e].username is Some
}

/// `new` is `old` with one entity added, which was not live, carrying `rec`.
pub open spec fn spawned(
    old: Map<hecs::Entity, EntityRecord>,
    new: Map<hecs::Entity, EntityRecord>,
    rec: EntityRecord,
) -> bool {
    exists|e: hecs::Entity| !old.dom().contains(e) && new == #[trigger] old.insert(e, rec)
}

/// The external form of an entity: its bit pattern in decimal.
pub open spec fn entity_id_text(e: hecs::Entity) -> Seq<char> {
    decimal(entity_bits(e) as nat)
}

/// The world after a packet holding `b` arrived from `from`: if it has a
/// header and `from` tracks jitter, the tracker has observed its sequence
/// number; nothing else changes.
pub open spec fn packet_step(
    m: Map<hecs::Entity, EntityRecord>,
    from: hecs::Entity,
    b: Seq<u8>,
) -> Map<hecs::Entity, EntityRecord> {
    if b.len() >= HEADER_LEN && m.dom().contains(from) && m[from].jitter is Some {
        m.insert(
            from,
            m[from].with_jitter(next_last(m[from].jitter.unwrap(), parse_header(b).sequence)),
        )
    } else {
        m
    }
}

/// What `from`'s jitter tracker reports on a packet holding `b`: the
/// classification of its sequence number, if the packet has a header and
/// `from` tracks jitter.
pub open spec fn packet_event(m: Map<hecs::Entity, EntityRecord>, from: hecs::Entity, b: Seq<u8>) -> Option<
    SequenceEvent,
> {
    if b.len() >= HEADER_LEN && m.dom().contains(from) && m[from].jitter is Some {
        Some(classify(m[from].jitter.unwrap(), parse_header(b).sequence))
    } else {
        None
    }
}

/// `e` receives a packet holding `b` from `from`: the packet has a header,
/// `from` is a live audio source in some room, and `e` is an audio sink of
/// that room other than `from`.
pub open spec fn packet_target(
    m: Map<hecs::Entity, EntityRecord>,
    from: hecs::Entity,
    b: Seq<u8>,
    e: hecs::Entity,
) -> bool {
    &&& b.len() >= HEADER_LEN
    &&& m.dom().contains(from)
    &&& m[from].audio_source
    &&& m[from].room matches Some(room) && is_audio_target(m, room, from, e)
}

/// Every entity that receives a packet holding `b` from `from`.
pub open spec fn packet_targets(m: Map<hecs::Entity, EntityRecord>, from: hecs::Entity, b: Seq<u8>) -> Set<
    hecs::Entity,
> {
    Set::new(|e: hecs::Entity| packet_target(m, from, b, e))
}

/// `e` receives a chat message from `from`: `from` is a live Device with an
/// owner, in some room, and `e` is a text channel of that room other than
/// `from`.
pub open spec fn chat_target(m: Map<hecs::Entity, EntityRecord>, from: hecs::Entity, e: hecs::Entity) -> bool {
    &&& m.dom().contains(from)
    &&& m[from].owner is Some
    &&& m[from].room matches Some(room) && is_text_target(m, room, from, e)
}

/// Every entity that receives a chat message from `from`.
pub open spec fn chat_targets(m: Map<hecs::Entity, EntityRecord>, from: hecs::Entity) -> Set<hecs::Entity> {
    Set::new(|e: hecs::Entity| chat_target(m, from, e))
}

/// The text of the chat frame a client receives: a `Chat` server message
/// whose `from` is the sender's User id.
pub open spec fn chat_json(from_user: hecs::Entity, text: Seq<char>) -> Seq<char> {
    chat_message_json(entity_id_text(from_user), text)
}

/// The bytes of the chat frame for `text` sent from the Device `from`: the
/// UTF-8 of a `Chat` server message naming `from`'s owner.
pub open spec fn chat_bytes(m: Map<hecs::Entity, EntityRecord>, from: hecs::Entity, text: Seq<char>) -> Seq<u8> {
    vstd::utf8::encode_utf8(chat_json(m[from].owner.unwrap(), text))
}

/// `view` is what `get_user` answers for `user`: `None` unless `user` is a
/// User; else its username, the Devices owned by it (each once, in no stated
/// order) and whether it is online.
pub open spec fn describes_user(m: Map<hecs::Entity, EntityRecord>, user: hecs::Entity, view: Option<UserView>) -> bool {
    &&& view is Some <==> is_user(m, user)
    &&& view matches Some(v) ==> {
        &&& m[user].username == Some(v.username@)
        &&& forall|a: int, b: int| 0 <= a < b < v.devices@.len() ==> v.devices@[a] != v.devices@[b]
        &&& forall|d: hecs::Entity| v.devices@.contains(d) <==> owns(m, user, d)
        &&& v.online == online(m, user)
        &&& v.online <==> v.devices@.len() > 0
    }
}

/// A creating command's outcome: if `allowed`, `device` is a fresh entity
/// added carrying `rec`; otherwise it is `None` and nothing changed.
pub open spec fn created(
    old: Map<hecs::Entity, EntityRecord>,
    new: Map<hecs::Entity, EntityRecord>,
    device: Option<hecs::Entity>,
    allowed: bool,
    rec: EntityRecord,
) -> bool {
    &&& device is Some <==> allowed
    &&& device matches Some(d) ==> !old.dom().contains(d) && new == old.insert(d, rec)
    &&& device is None ==> new == old
}

/// The jitter report a command yields: only a received packet yields one.
pub open spec fn command_event(old: Map<hecs::Entity, EntityRecord>, cmd: Command) -> Option<SequenceEvent> {
    match cmd {
        Command::PacketReceived { from, packet } => packet_event(old, from, bytes_view(packet)),
        _ => None,
    }
}

/// What one command does: how the world changes, the reply it sends on the
/// command's own reply channel, the frames it hands to Devices, and the
/// jitter report on a received packet.
pub open spec fn command_effects(
    old: Map<hecs::Entity, EntityRecord>,
    cmd: Command,
    new: Map<hecs::Entity, EntityRecord>,
    out: Effects,
) -> bool {
    &&& out.jitter == command_event(old, cmd)
    &&& command_outcome(old, cmd, new, out)
}

/// The world change, reply and frames of one command.
pub open spec fn command_outcome(
    old: Map<hecs::Entity, EntityRecord>,
    cmd: Command,
    new: Map<hecs::Entity, EntityRecord>,
    out: Effects,
) -> bool {
    match cmd {
        Command::CreateUser { username, reply } => {
            &&& out.reply matches Reply::User { to, user } && to == reply && !old.dom().contains(user)
                && new == old.insert(user, user_record(username@))
            &&& out.deliveries@.len() == 0
        },
        Command::CreateDevice { owner, as_audio_source, reply } => {
            &&& out.reply matches Reply::Device { to, device } && to == reply && created(
                old,
                new,
                device,
                is_user(old, owner),
                device_record(owner).with_audio_source(as_audio_source),
            )
            &&& out.deliveries@.len() == 0
        },
        Command::GetUser { user, reply } => {
            &&& out.reply matches Reply::View { to, view } && to == reply && describes_user(old, user, view)
            &&& new == old
            &&& out.deliveries@.len() == 0
        },
        Command::RegisterVoicePeer { owner, room, as_source, outbound, reply } => {
            &&& out.reply matches Reply::Device { to, device } && to == reply && created(
                old,
                new,
                device,
                is_user(old, owner),
                voice_peer_record(owner, room.0, outbound, None).with_audio_source(as_source),
            )
            &&& out.deliveries@.len() == 0
        },
        Command::PacketReceived { from, packet } => {
            &&& out.reply is Nothing
            &&& new == packet_step(old, from, bytes_view(packet))
            &&& delivers_exactly(
                old,
                out.deliveries@,
                packet_targets(old, from, bytes_view(packet)),
                bytes_view(packet),
            )
        },
        Command::JoinTextRoom { user, room, outbound, reply } => {
            &&& out.reply matches Reply::Device { to, device } && to == reply && created(
                old,
                new,
                device,
                is_user(old, user),
                text_device_record(user, room.0, outbound),
            )
            &&& out.deliveries@.len() == 0
        },
        Command::ChatMessage { from, text } => {
            &&& out.reply is Nothing
            &&& new == old
            &&& delivers_exactly(old, out.deliveries@, chat_targets(old, from), chat_bytes(old, from, text@))
        },
        Command::SwitchAudioDevice { user, to_device, reply } => {
            &&& out.reply matches Reply::Switch { to, result } && to == reply && (result is Ok <==> owns(
                old,
                user,
                to_device,
            )) && (result is Ok ==> new == switched(old, user, to_device)) && (result is Err ==> new
                == old)
            &&& out.deliveries@.len() == 0
        },
    }
}

/// How one command changes the world.
pub open spec fn command_step(
    old: Map<hecs::Entity, EntityRecord>,
    cmd: Command,
    new: Map<hecs::Entity, EntityRecord>,
) -> bool {
    match cmd {
        Command::CreateUser { username, .. } => spawned(old, new, user_record(username@)),
        Command::CreateDevice { owner, as_audio_source, .. } => if is_user(old, owner) {
            spawned(old, new, device_record(owner).with_audio_source(as_audio_source))
        } else {
            new == old
        },
        Command::GetUser { .. } => new == old,
        Command::RegisterVoicePeer { owner, room, as_source, outbound, .. } => if is_user(old, owner) {
            spawned(old, new, voice_peer_record(owner, room.0, outbound, None).with_audio_source(as_source))
        } else {
            new == old
        },
        Command::PacketReceived { from, packet } => new == packet_step(old, from, bytes_view(packet)),
        Command::JoinTextRoom { user, room, outbound, .. } => if is_user(old, user) {
            spawned(old, new, text_device_record(user, room.0, outbound))
        } else {
            new == old
        },
        Command::ChatMessage { .. } => new == old,
        Command::SwitchAudioDevice { user, to_device, .. } => if owns(old, user, to_device) {
            new == switched(old, user, to_device)
        } else {
            new == old
        },
    }
}

/// Creates a User entity with this username.
pub fn create_user(world: &mut hecs::World, username: String) -> (user: hecs::Entity)
    requires
        world_entities(*old(world)).dom().len() < u32::MAX,
    ensures
        !world_entities(*old(world)).dom().contains(user),
        world_entities(*final(world)) == world_entities(*old(world)).insert(user, user_record(username@)),
{
    spawn_user(world, Identity { username })
}

/// Creates a Device entity owned by `owner`, carrying `AudioSource` if
/// `as_audio_source`. `None`, changing nothing, unless `owner` is a User.
pub fn create_device(world: &mut hecs::World, owner: hecs::Entity, as_audio_source: bool) -> (device: Option<hecs::Entity>)
    requires
        world_entities(*old(world)).dom().len() < u32::MAX,
    ensures
        device is Some <==> is_user(world_entities(*old(world)), owner),
        device matches Some(d) ==> !world_entities(*old(world)).dom().contains(d)
            && world_entities(*final(world)) == world_entities(*old(world)).insert(
            d,
            device_record(owner).with_audio_source(as_audio_source),
        ),
        device is None ==> world_entities(*final(world)) == world_entities(*old(world)),
{
    if get_username(world, owner).is_none() {
        return None;
    }
    let device = spawn_device(world, OwnedBy(owner));
    if as_audio_source {
        insert_audio_source(world, device, AudioSource);
    } else {
        assert(device_record(owner).with_audio_source(false) == device_record(owner));
    }
    Some(device)
}

/// A snapshot of `user`: its username, the Devices owned by it (in no stated
/// order, each once) and whether it is online. `None` unless `user` is a User.
pub fn get_user(world: &hecs::World, user: hecs::Entity) -> (view: Option<UserView>)
    ensures
        describes_user(world_entities(*world), user, view),
{
    let username = match get_username(world, user) {
        Some(name) => name,
        None => {
            return None;
        },
    };
    let ghost m = world_entities(*world);
    let owned = query_owned(world);
    let mut devices: Vec<hecs::Entity> = Vec::new();
    let mut i: usize = 0;
    while i < owned.len()
        invariant
            i <= owned.len(),
            m == world_entities(*world),
            forall|a: int, b: int| 0 <= a < b < owned@.len() ==> #[trigger] owned@[a].0 != #[trigger] owned@[b].0,
            forall|j: int|
                0 <= j < owned@.len() ==> m.dom().contains(#[trigger] owned@[j].0) && m[owned@[j].0].owner
                    == Some(owned@[j].1),
            forall|a: int, b: int| 0 <= a < b < devices@.len() ==> devices@[a] != devices@[b],
            forall|d: hecs::Entity|
                devices@.contains(d) <==> (owns(m, user, d) && exists|j: int|
                    0 <= j < i && (#[trigger] owned@[j]).0 == d),
        decreases owned.len() - i,
    {
        let entry = &owned[i];
        let ghost prev = devices@;
        if entity_eq(entry.1, user) {
            proof {
                if devices@.contains(entry.0) {
                    let j = choose|j: int| 0 <= j < i && (#[trigger] owned@[j]).0 == entry.0;
                    assert(owned@[j].0 != owned@[i as int].0);
                }
            }
            devices.push(entry.0);
            proof {
                assert forall|a: int, b: int| 0 <= a < b < devices@.len() implies devices@[a] != devices@[b] by {
                    if b == devices@.len() - 1 {
                        assert(prev.contains(prev[a]));
                    }
                }
            }
        }
        proof {
            assert forall|d: hecs::Entity|
                devices@.contains(d) <==> (owns(m, user, d) && exists|j: int|
                    0 <= j < i + 1 && (#[trigger] owned@[j]).0 == d) by {
                if d == owned@[i as int].0 {
                    assert(owned@[i as int].0 == d);
                    if devices@.len() > prev.len() {
                        assert(devices@[prev.len() as int] == d);
                    }
                } else {
                    if devices@.contains(d) {
                        let k = choose|k: int| 0 <= k < devices@.len() && devices@[k] == d;
                        assert(prev[k] == d);
                    }
                    if prev.contains(d) {
                        let k = choose|k: int| 0 <= k < prev.len() && prev[k] == d;
                        assert(devices@[k] == d);
                    }
                }
                if exists|j: int| 0 <= j < i + 1 && (#[trigger] owned@[j]).0 == d {
                    let j = choose|j: int| 0 <= j < i + 1 && (#[trigger] owned@[j]).0 == d;
                    if j < i {
                        assert(exists|j2: int| 0 <= j2 < i && (#[trigger] owned@[j2]).0 == d);
                    }
                }
            }
        }
        i += 1;
    }
    proof {
        assert forall|d: hecs::Entity| owns(m, user, d) implies exists|j: int|
            0 <= j < owned@.len() && (#[trigger] owned@[j]).0 == d by {
            assert(m[d].owner is Some);
        }
    }
    let online_now = is_online(world, user);
    proof {
        if online_now {
            let d = choose|d: hecs::Entity| #[trigger] owns(m, user, d);
            assert(devices@.contains(d));
        }
        if devices@.len() > 0 {
            assert(devices@.contains(devices@[0]));
            assert(owns(m, user, devices@[0]));
        }
    }
    Some(UserView { username, devices, online: online_now })
}

/// Registers a voice peer: a Device entity owned by `owner`, in `room`, an
/// `AudioSink` with `outbound` as its channel and a fresh jitter tracker,
/// and an `AudioSource` too if `as_source`. `None`, changing nothing, unless
/// `owner` is a User.
pub fn register_voice_peer(
    world: &mut hecs::World,
    owner: hecs::Entity,
    room: RoomId,
    as_source: bool,
    outbound: tokio::sync::mpsc::UnboundedSender<bytes::Bytes>,
) -> (device: Option<hecs::Entity>)
    requires
        world_entities(*old(world)).dom().len() < u32::MAX,
    ensures
        device is Some <==> is_user(world_entities(*old(world)), owner),
        device matches Some(d) ==> !world_entities(*old(world)).dom().contains(d)
            && world_entities(*final(world)) == world_entities(*old(world)).insert(
            d,
            voice_peer_record(owner, room.0, outbound, None).with_audio_source(as_source),
        ),
        device is None ==> world_entities(*final(world)) == world_entities(*old(world)),
{
    if get_username(world, owner).is_none() {
        return None;
    }
    let ghost sender = outbound;
    let device = spawn_voice_peer(
        world,
        OwnedBy(owner),
        RoomMembership(room),
        AudioSink,
        OutboundTx(outbound),
        JitterState(SequenceTracker::new()),
    );
    if as_source {
        insert_audio_source(world, device, AudioSource);
    } else {
        assert(voice_peer_record(owner, room.0, sender, None).with_audio_source(false)
            == voice_peer_record(owner, room.0, sender, None));
    }
    Some(device)
}

/// Registers a WS text session: a Device entity owned by `user`, in `room`,
/// a `TextChannel` with `outbound` as its channel. `None`, changing nothing,
/// unless `user` is a User.
pub fn join_text_room(
    world: &mut hecs::World,
    user: hecs::Entity,
    room: RoomId,
    outbound: tokio::sync::mpsc::UnboundedSender<bytes::Bytes>,
) -> (device: Option<hecs::Entity>)
    requires
        world_entities(*old(world)).dom().len() < u32::MAX,
    ensures
        device is Some <==> is_user(world_entities(*old(world)), user),
        device matches Some(d) ==> !world_entities(*old(world)).dom().contains(d)
            && world_entities(*final(world)) == world_entities(*old(world)).insert(
            d,
            text_device_record(user, room.0, outbound),
        ),
        device is None ==> world_entities(*final(world)) == world_entities(*old(world)),
{
    if get_username(world, user).is_none() {
        return None;
    }
    let device = spawn_text_device(
        world,
        OwnedBy(user),
        RoomMembership(room),
        TextChannel,
        OutboundTx(outbound),
    );
    Some(device)
}

/// Handles a raw packet from `from`: a packet without a full header is
/// dropped; otherwise `from`'s jitter tracker (if any) observes its sequence
/// number, and, if `from` carries `AudioSource`, the packet is forwarded
/// unchanged to the other audio sinks of its room. Returns those deliveries
/// and the tracker's report on the packet (dropped or reordered packets are
/// for the caller to log).
pub fn packet_received(world: &mut hecs::World, from: hecs::Entity, packet: bytes::Bytes) -> (out: (
    Vec<Delivery>,
    Option<SequenceEvent>,
))
    ensures
        world_entities(*final(world)) == packet_step(world_entities(*old(world)), from, bytes_view(packet)),
        out.1 == packet_event(world_entities(*old(world)), from, bytes_view(packet)),
        delivers_exactly(
            world_entities(*old(world)),
            out.0@,
            packet_targets(world_entities(*old(world)), from, bytes_view(packet)),
            bytes_view(packet),
        ),
{
    let ghost m0 = world_entities(*world);
    let ghost b = bytes_view(packet);
    let ghost none = Set::<hecs::Entity>::empty();
    let header = match decode(bytes_clone(&packet)) {
        Ok((header, _payload)) => header,
        Err(_) => {
            assert(packet_targets(m0, from, b) =~= none);
            return (Vec::new(), None);
        },
    };
    let event = match get_jitter(world, from) {
        Some(tracker) => {
            let mut tracker = tracker;
            let event = tracker.observe(header.sequence);
            set_jitter(world, from, JitterState(tracker));
            Some(event)
        },
        None => None,
    };
    let ghost m1 = world_entities(*world);
    assert(m1 == packet_step(m0, from, b));
    assert(forall|e: hecs::Entity| m1.dom().contains(e) <==> m0.dom().contains(e));
    assert(forall|e: hecs::Entity| #[trigger] m1.dom().contains(e) ==> m1[e].audio_sink == m0[e].audio_sink
        && m1[e].outbound == m0[e].outbound && m1[e].room == m0[e].room && m1[e].audio_source
        == m0[e].audio_source);
    if !has_audio_source(world, from) {
        assert(packet_targets(m0, from, b) =~= none);
        return (Vec::new(), event);
    }
    match get_room(world, from) {
        Some(room) => {
            let out = audio_forward::run(world, room, from, &packet);
            proof {
                assert(audio_targets(m1, room.0, from) =~= packet_targets(m0, from, b));
                assert forall|i: int| 0 <= i < out@.len() implies m0[(#[trigger] out@[i]).to].outbound
                    == m1[out@[i].to].outbound by {
                    assert(audio_targets(m1, room.0, from).contains(out@[i].to));
                }
            }
            (out, event)
        },
        None => {
            assert(packet_targets(m0, from, b) =~= none);
            (Vec::new(), event)
        },
    }
}

/// The frame a chat message becomes: the UTF-8 JSON of a `Chat` server
/// message from `from_user` (its id) with `text`.
pub fn chat_frame(from_user: hecs::Entity, text: String) -> (frame: bytes::Bytes)
    ensures
        bytes_view(frame) == vstd::utf8::encode_utf8(chat_json(from_user, text@)),
{
    let message = ServerMessage::Chat { from: entity_to_id(from_user), text };
    let json = message.to_json();
    bytes_from_string(json)
}

/// Handles a chat message from the Device `from`: fans it out, as a `Chat`
/// frame naming `from`'s owner, to every other text channel of `from`'s
/// room. Returns those deliveries.
pub fn chat_message(world: &hecs::World, from: hecs::Entity, text: String) -> (out: Vec<Delivery>)
    ensures
        delivers_exactly(
            world_entities(*world),
            out@,
            chat_targets(world_entities(*world), from),
            chat_bytes(world_entities(*world), from, text@),
        ),
{
    let ghost m = world_entities(*world);
    let ghost none = Set::<hecs::Entity>::empty();
    let owner = match get_owner(world, from) {
        Some(owner) => owner,
        None => {
            assert(chat_targets(m, from) =~= none);
            return Vec::new();
        },
    };
    match get_room(world, from) {
        Some(room) => {
            let frame = chat_frame(owner, text);
            let out = text_broadcast::run(world, room, from, &frame);
            assert(text_targets(m, room.0, from) =~= chat_targets(m, from));
            out
        },
        None => {
            assert(chat_targets(m, from) =~= none);
            Vec::new()
        },
    }
}

/// Applies one `Command` to `world` and returns what it sends: its reply and
/// the frames for Devices. Nothing is sent yet; `deliver` sends it.
pub fn plan_command(world: &mut hecs::World, cmd: Command) -> (out: Effects)
    requires
        cmd.spawns() ==> world_entities(*old(world)).dom().len() < u32::MAX,
    ensures
        command_effects(world_entities(*old(world)), cmd, world_entities(*final(world)), out),
        command_step(world_entities(*old(world)), cmd, world_entities(*final(world))),
{
    let ghost m0 = world_entities(*world);
    match cmd {
        Command::CreateUser { username, reply } => {
            let ghost name = username@;
            let user = create_user(world, username);
            assert(!m0.dom().contains(user) && world_entities(*world) == m0.insert(user, user_record(name)));
            Effects { reply: Reply::User { to: reply, user }, deliveries: Vec::new(), jitter: None }
        },
        Command::CreateDevice { owner, as_audio_source, reply } => {
            let device = create_device(world, owner, as_audio_source);
            if let Some(d) = device {
                assert(world_entities(*world) == m0.insert(d, device_record(owner).with_audio_source(as_audio_source)));
            }
            Effects { reply: Reply::Device { to: reply, device }, deliveries: Vec::new(), jitter: None }
        },
        Command::GetUser { user, reply } => {
            let view = get_user(world, user);
            Effects { reply: Reply::View { to: reply, view }, deliveries: Vec::new(), jitter: None }
        },
        Command::RegisterVoicePeer { owner, room, as_source, outbound, reply } => {
            let ghost sender = outbound;
            let device = register_voice_peer(world, owner, room, as_source, outbound);
            if let Some(d) = device {
                assert(world_entities(*world) == m0.insert(
                    d,
                    voice_peer_record(owner, room.0, sender, None).with_audio_source(as_source),
                ));
            }
            Effects { reply: Reply::Device { to: reply, device }, deliveries: Vec::new(), jitter: None }
        },
        Command::PacketReceived { from, packet } => {
            let (deliveries, jitter) = packet_received(world, from, packet);
            Effects { reply: Reply::Nothing, deliveries, jitter }
        },
        Command::JoinTextRoom { user, room, outbound, reply } => {
            let ghost sender = outbound;
            let device = join_text_room(world, user, room, outbound);
            if let Some(d) = device {
                assert(world_entities(*world) == m0.insert(d, text_device_record(user, room.0, sender)));
            }
            Effects { reply: Reply::Device { to: reply, device }, deliveries: Vec::new(), jitter: None }
        },
        Command::ChatMessage { from, text } => {
            let deliveries = chat_message(world, from, text);
            Effects { reply: Reply::Nothing, deliveries, jitter: None }
        },
        Command::SwitchAudioDevice { user, to_device, reply } => {
            let result = device_switch::run(world, user, to_device);
            Effects { reply: Reply::Switch { to: reply, result }, deliveries: Vec::new(), jitter: None }
        },
    }
}

/// Sends what a command produced: its reply on the reply channel (if it has
/// one), then each frame on its Device's outbound channel. The receipts show
/// one reply sent exactly when one is owed, and one send per delivery, in
/// order.
pub fn deliver(out: Effects) -> (r: (Option<Replied>, Vec<Sent>))
    ensures
        r.0 is Some <==> !(out.reply is Nothing),
        r.1@.len() == out.deliveries@.len(),
        forall|i: int| 0 <= i < r.1@.len() ==> #[trigger] r.1@[i].recipient() == out.deliveries@[i].to,
{
    let Effects { reply, deliveries, jitter: _ } = out;
    let replied = match reply {
        Reply::Nothing => None,
        Reply::User { to, user } => Some(send_reply(to, user)),
        Reply::Device { to, device } => Some(send_reply(to, device)),
        Reply::View { to, view } => Some(send_reply(to, view)),
        Reply::Switch { to, result } => Some(send_reply(to, result)),
    };
    let sent = deliver_all(deliveries);
    (replied, sent)
}

/// Applies one `Command` to `world` and sends its reply and frames. The
/// driver task is the only caller in production; tests call it directly.
pub fn handle_command(world: &mut hecs::World, cmd: Command)
    requires
        cmd.spawns() ==> world_entities(*old(world)).dom().len() < u32::MAX,
    ensures
        command_step(world_entities(*old(world)), cmd, world_entities(*final(world))),
{
    let out = plan_command(world, cmd);
    deliver(out);
}

/// Stable external representation of an `Entity`, for URLs and JSON: its
/// bit pattern in decimal.
pub fn entity_to_id(entity: hecs::Entity) -> (id: String)
    ensures
        id@ == entity_id_text(entity),
{
    u64_to_string(entity_to_bits(entity))
}

/// Inverse of `entity_to_id`: the entity whose bit pattern the text denotes
/// in decimal (an optional `+`, then digits), `None` for malformed input or a
/// pattern no entity has. It does not confirm the entity is alive.
pub fn id_to_entity(id: &str) -> (r: Option<hecs::Entity>)
    ensures
        match parse_u64_spec(id@) {
            None => r is None,
            Some(bits) => (r is Some <==> bits >= 0x1_0000_0000) && (r matches Some(e)
                ==> entity_bits(e) == bits),
        },
        forall|e: hecs::Entity| id@ == #[trigger] entity_id_text(e) ==> r == Some(e),
{
    let r = match parse_u64(id) {
        Some(bits) => entity_from_bits(bits),
        None => None,
    };
    proof {
        assert forall|e: hecs::Entity| id@ == #[trigger] entity_id_text(e) implies r == Some(e) by {
            lemma_parse_decimal(entity_bits(e));
        }
    }
    r
}

/// Exercises the capability-component pattern on a throwaway local world: a
/// User entity, a Device entity owned by it, and the Device tagged
/// `AudioSource`. Returns the world, the User, the Device and whether the
/// Device carries the marker.
pub fn tag_local_device_as_audio_source() -> (r: (hecs::World, hecs::Entity, hecs::Entity, bool))
    ensures
        r.1 != r.2,
        world_entities(r.0) == Map::<hecs::Entity, EntityRecord>::empty().insert(r.1, user_record("local"@)).insert(
            r.2,
            device_record(r.1).with_audio_source(true),
        ),
        r.3,
{
    let mut world = new_world();
    let name = "local".to_owned();
    let user = spawn_user(&mut world, Identity { username: name });
    let device = spawn_device(&mut world, OwnedBy(user));
    insert_audio_source(&mut world, device, AudioSource);
    let tagged = has_audio_source(&world, device);
    proof {
        assert(world_entities(world) =~= Map::<hecs::Entity, EntityRecord>::empty().insert(
            user,
            user_record("local"@),
        ).insert(device, device_record(user).with_audio_source(true)));
    }
    (world, user, device, tagged)
}

/// The switch is a real gate on forwarding: once `user`'s audio source has
/// moved from `a` to `b`, packets from `a` reach nobody, and packets from `b`
/// reach every audio sink of `b`'s room except `b`.
pub proof fn lemma_switch_gates_forwarding(
    m: Map<hecs::Entity, EntityRecord>,
    user: hecs::Entity,
    a: hecs::Entity,
    b: hecs::Entity,
    packet: Seq<u8>,
    e: hecs::Entity,
)
    requires
        owns(m, user, a),
        owns(m, user, b),
        a != b,
        packet.len() >= HEADER_LEN,
    ensures
        !packet_target(switched(m, user, b), a, packet, e),
        (m[b].room matches Some(room) && is_audio_target(m, room, b, e)) ==> packet_target(
            switched(m, user, b),
            b,
            packet,
            e,
        ),
{
}

/// A forwarded packet never goes back to its sender and never leaves the
/// sender's room, and only an audio source's packets are forwarded.
pub proof fn lemma_forwarding_stays_in_room(
    m: Map<hecs::Entity, EntityRecord>,
    from: hecs::Entity,
    packet: Seq<u8>,
    e: hecs::Entity,
)
    requires
        packet_target(m, from, packet, e),
    ensures
        e != from,
        m[from].audio_source,
        m[e].audio_sink,
        m[e].room is Some && m[e].room == m[from].room,
{
}

/// A malformed packet (shorter than a header) changes nothing and reaches
/// nobody.
pub proof fn lemma_short_packet_is_dropped(
    m: Map<hecs::Entity, EntityRecord>,
    from: hecs::Entity,
    packet: Seq<u8>,
    e: hecs::Entity,
)
    requires
        packet.len() < HEADER_LEN,
    ensures
        packet_step(m, from, packet) == m,
        !packet_target(m, from, packet, e),
{
}

/// Text fan-out does not special-case Users: every text channel of the
/// sender's room other than the sender receives a chat message, so two
/// Devices of one User both receive it.
pub proof fn lemma_chat_reaches_every_device(
    m: Map<hecs::Entity, EntityRecord>,
    from: hecs::Entity,
    first: hecs::Entity,
    second: hecs::Entity,
)
    requires
        m.dom().contains(from),
        m[from].owner is Some,
        m[from].room is Some,
        first != from,
        second != from,
        is_text_target(m, m[from].room.unwrap(), from, first),
        is_text_target(m, m[from].room.unwrap(), from, second),
    ensures
        chat_target(m, from, first),
        chat_target(m, from, second),
{
}

/// A Device created for a User is owned by it and makes it online, and the
/// User itself is left as it was.
pub proof fn lemma_created_device_belongs_to_user(
    old: Map<hecs::Entity, EntityRecord>,
    owner: hecs::Entity,
    device: hecs::Entity,
    as_audio_source: bool,
)
    requires
        is_user(old, owner),
        !old.dom().contains(device),
    ensures
        owns(old.insert(device, device_record(owner).with_audio_source(as_audio_source)), owner, device),
        online(old.insert(device, device_record(owner).with_audio_source(as_audio_source)), owner),
        old.insert(device, device_record(owner).with_audio_source(as_audio_source))[owner] == old[owner],
{
    let new = old.insert(device, device_record(owner).with_audio_source(as_audio_source));
    assert(owns(new, owner, device));
}

/// Every Device's owner is a live User.
pub open spec fn owners_are_users(m: Map<hecs::Entity, EntityRecord>) -> bool {
    forall|d: hecs::Entity|
        #![trigger m[d].owner]
        m.dom().contains(d) && m[d].owner is Some ==> is_user(m, m[d].owner.unwrap())
}

/// No command removes an entity or changes who a User is, whom a Device
/// belongs to, or which room it is in: only new entities appear, and only
/// the audio source marker and jitter trackers of existing ones change.
pub proof fn lemma_commands_keep_identities(
    old: Map<hecs::Entity, EntityRecord>,
    cmd: Command,
    new: Map<hecs::Entity, EntityRecord>,
    e: hecs::Entity,
)
    requires
        command_step(old, cmd, new),
        old.dom().contains(e),
    ensures
        new.dom().contains(e),
        new[e].username == old[e].username,
        new[e].owner == old[e].owner,
        new[e].room == old[e].room,
        new[e].audio_sink == old[e].audio_sink,
        new[e].text_channel == old[e].text_channel,
{
    match cmd {
        Command::CreateUser { username, .. } => {
            let _fresh = choose|f: hecs::Entity| !old.dom().contains(f) && new == #[trigger] old.insert(f, user_record(username@));
        },
        Command::CreateDevice { owner, as_audio_source, .. } => {
            if is_user(old, owner) {
                let _fresh = choose|f: hecs::Entity| !old.dom().contains(f) && new == #[trigger] old.insert(
                    f,
                    device_record(owner).with_audio_source(as_audio_source),
                );
            }
        },
        Command::RegisterVoicePeer { owner, room, as_source, outbound, .. } => {
            if is_user(old, owner) {
                let _fresh = choose|f: hecs::Entity| !old.dom().contains(f) && new == #[trigger] old.insert(
                    f,
                    voice_peer_record(owner, room.0, outbound, None).with_audio_source(as_source),
                );
            }
        },
        Command::JoinTextRoom { user, room, outbound, .. } => {
            if is_user(old, user) {
                let _fresh = choose|f: hecs::Entity| !old.dom().contains(f) && new == #[trigger] old.insert(
                    f,
                    text_device_record(user, room.0, outbound),
                );
            }
        },
        _ => {},
    }
}

/// Every command keeps every Device owned by a live User: Devices are only
/// ever created for Users, and Users never stop being Users.
pub proof fn lemma_commands_keep_owners_users(
    old: Map<hecs::Entity, EntityRecord>,
    cmd: Command,
    new: Map<hecs::Entity, EntityRecord>,
)
    requires
        owners_are_users(old),
        command_step(old, cmd, new),
    ensures
        owners_are_users(new),
{
    assert forall|d: hecs::Entity|
        #![trigger new[d].owner]
        new.dom().contains(d) && new[d].owner is Some implies is_user(new, new[d].owner.unwrap()) by {
        let u = new[d].owner.unwrap();
        if old.dom().contains(d) {
            lemma_commands_keep_identities(old, cmd, new, d);
            assert(old[d].owner == Some(u));
            assert(is_user(old, u));
            lemma_commands_keep_identities(old, cmd, new, u);
        } else {
            match cmd {
                Command::CreateDevice { owner, as_audio_source, .. } => {
                    let _fresh = choose|f: hecs::Entity| !old.dom().contains(f) && new == #[trigger] old.insert(
                        f,
                        device_record(owner).with_audio_source(as_audio_source),
                    );
                    lemma_commands_keep_identities(old, cmd, new, owner);
                },
                Command::RegisterVoicePeer { owner, room, as_source, outbound, .. } => {
                    let _fresh = choose|f: hecs::Entity| !old.dom().contains(f) && new == #[trigger] old.insert(
                        f,
                        voice_peer_record(owner, room.0, outbound, None).with_audio_source(as_source),
                    );
                    lemma_commands_keep_identities(old, cmd, new, owner);
                },
                Command::JoinTextRoom { user, room, outbound, .. } => {
                    let _fresh = choose|f: hecs::Entity| !old.dom().contains(f) && new == #[trigger] old.insert(
                        f,
                        text_device_record(user, room.0, outbound),
                    );
                    lemma_commands_keep_identities(old, cmd, new, user);
                },
                Command::CreateUser { username, .. } => {
                    let _fresh = choose|f: hecs::Entity| !old.dom().contains(f) && new == #[trigger] old.insert(
                        f,
                        user_record(username@),
                    );
                },
                _ => {},
            }
        }
    }
}

/// A packet with a full header from a live audio source in room `room`
/// reaches every live audio sink of that room with an outbound channel,
/// other than the sender, whatever other components the sink carries (a
/// sink that is also an `AudioSource` among them), and its forwarding makes
/// exactly one delivery to each.
pub proof fn lemma_packet_reaches_every_sink_of_room(
    m: Map<hecs::Entity, EntityRecord>,
    from: hecs::Entity,
    b: Seq<u8>,
    room: u64,
    e: hecs::Entity,
    ds: Seq<Delivery>,
)
    requires
        b.len() >= HEADER_LEN,
        m.dom().contains(from),
        m[from].audio_source,
        m[from].room == Some(room),
        m.dom().contains(e),
        m[e].audio_sink,
        m[e].outbound is Some,
        m[e].room == Some(room),
        e != from,
        delivers_exactly(m, ds, packet_targets(m, from, b), b),
    ensures
        packet_targets(m, from, b).contains(e),
        exists|i: int| 0 <= i < ds.len() && (#[trigger] ds[i]).to == e && bytes_view(ds[i].frame) == b,
{
    assert(packet_targets(m, from, b).contains(e));
    let i = choose|i: int| 0 <= i < ds.len() && (#[trigger] ds[i]).to == e;
    assert(bytes_view(ds[i].frame) == b);
}

/// A text session is a Device like any other: once `JoinTextRoom` has
/// registered one for a User, the User owns it, lists it among its Devices
/// and is online. The same holds of a voice peer.
pub proof fn lemma_sessions_are_devices(
    old: Map<hecs::Entity, EntityRecord>,
    user: hecs::Entity,
    d: hecs::Entity,
    room: u64,
    outbound: tokio::sync::mpsc::UnboundedSender<bytes::Bytes>,
    as_source: bool,
    view: UserView,
)
    requires
        is_user(old, user),
        !old.dom().contains(d),
    ensures
        owns(old.insert(d, text_device_record(user, room, outbound)), user, d),
        online(old.insert(d, text_device_record(user, room, outbound)), user),
        describes_user(old.insert(d, text_device_record(user, room, outbound)), user, Some(view)) ==> view.devices@.contains(d)
            && view.online,
        owns(old.insert(d, voice_peer_record(user, room, outbound, None).with_audio_source(as_source)), user, d),
        online(old.insert(d, voice_peer_record(user, room, outbound, None).with_audio_source(as_source)), user),
        describes_user(
            old.insert(d, voice_peer_record(user, room, outbound, None).with_audio_source(as_source)),
            user,
            Some(view),
        ) ==> view.devices@.contains(d) && view.online,
{
    let text = old.insert(d, text_device_record(user, room, outbound));
    let voice = old.insert(d, voice_peer_record(user, room, outbound, None).with_audio_source(as_source));
    assert(owns(text, user, d));
    assert(owns(voice, user, d));
}

} // verus!
