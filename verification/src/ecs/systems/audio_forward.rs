//! Forwarding of voice packets inside a room.
use vstd::prelude::*;
use vstd::pervasive::cloned;
use crate::common::buf::{bytes_clone, bytes_view};
use crate::ecs::channels::{delivers_exactly, Delivery};
use crate::ecs::components::RoomId;
use crate::ecs::storage::{entity_eq, query_audio_sinks, world_entities, EntityRecord};

verus! {

/// `e` receives the audio forwarded in `room` for `from`: a live `AudioSink`
/// with an outbound channel, in that room, other than `from` itself.
pub open spec fn is_audio_target(
    m: Map<hecs::Entity, EntityRecord>,
    room: u64,
    from: hecs::Entity,
    e: hecs::Entity,
) -> bool {
    &&& m.dom().contains(e)
    &&& m[e].audio_sink
    &&& m[e].outbound is Some
    &&& m[e].room == Some(room)
    &&& e != from
}

/// Every entity that receives the audio forwarded in `room` for `from`.
pub open spec fn audio_targets(m: Map<hecs::Entity, EntityRecord>, room: u64, from: hecs::Entity) -> Set<
    hecs::Entity,
> {
    Set::new(|e: hecs::Entity| is_audio_target(m, room, from, e))
}

/// Forwards `packet` (raw, undecoded) to every Device entity in `room` with
/// an `AudioSink`, except `from` itself: one delivery of the packet's bytes
/// to each of them, on its own outbound sender.
pub fn run(world: &hecs::World, room: RoomId, from: hecs::Entity, packet: &bytes::Bytes) -> (out: Vec<Delivery>)
    ensures
        delivers_exactly(
            world_entities(*world),
            out@,
            audio_targets(world_entities(*world), room.0, from),
            bytes_view(*packet),
        ),
{
    let ghost m = world_entities(*world);
    let mut sinks = query_audio_sinks(world);
    let ghost all = sinks@;
    let mut out: Vec<Delivery> = Vec::new();
    // `src[k]` is the index in `all` of the sink that `out[k]` goes to.
    let ghost mut src: Seq<int> = Seq::empty();
    while sinks.len() > 0
        invariant
            m == world_entities(*world),
            sinks@.len() <= all.len(),
            sinks@ == all.subrange(0, sinks@.len() as int),
            forall|e: hecs::Entity|
                m.dom().contains(e) && (#[trigger] m[e]).audio_sink && m[e].outbound is Some
                    && m[e].room is Some ==> exists|i: int| 0 <= i < all.len() && (#[trigger] all[i]).0 == e,
            forall|a: int, b: int| 0 <= a < b < all.len() ==> #[trigger] all[a].0 != #[trigger] all[b].0,
            forall|j: int|
                0 <= j < all.len() ==> {
                    &&& m.dom().contains(#[trigger] all[j].0)
                    &&& m[all[j].0].audio_sink
                    &&& m[all[j].0].room == Some(all[j].1.0)
                    &&& m[all[j].0].outbound matches Some(tx) && cloned(tx, all[j].2)
                },
            src.len() == out@.len(),
            forall|a: int, b: int| 0 <= a < b < out@.len() ==> #[trigger] out@[a].to != #[trigger] out@[b].to,
            forall|k: int|
                0 <= k < out@.len() ==> {
                    &&& is_audio_target(m, room.0, from, #[trigger] out@[k].to)
                    &&& bytes_view(out@[k].frame) == bytes_view(*packet)
                    &&& m[out@[k].to].outbound matches Some(tx) && cloned(tx, out@[k].channel)
                    &&& sinks@.len() <= src[k] < all.len()
                    &&& all[src[k]].0 == out@[k].to
                },
            forall|j: int|
                sinks@.len() <= j < all.len() && is_audio_target(m, room.0, from, (#[trigger] all[j]).0)
                    ==> exists|k: int| 0 <= k < out@.len() && (#[trigger] out@[k]).to == all[j].0,
        decreases sinks.len(),
    {
        let ghost before = out@;
        let ghost j = sinks@.len() - 1;
        let entry = sinks.pop().unwrap();
        assert(entry == all[j]);
        if !entity_eq(entry.0, from) && entry.1.0 == room.0 {
            proof {
                assert forall|k: int| 0 <= k < before.len() implies before[k].to != entry.0 by {
                    assert(all[src[k]].0 == before[k].to);
                    assert(src[k] != j);
                }
            }
            out.push(Delivery { to: entry.0, channel: entry.2, frame: bytes_clone(packet) });
            proof {
                src = src.push(j);
                assert(out@[before.len() as int].to == all[j].0);
            }
        }
        proof {
            assert forall|j2: int|
                sinks@.len() <= j2 < all.len() && is_audio_target(m, room.0, from, (#[trigger] all[j2]).0)
                implies exists|k: int| 0 <= k < out@.len() && (#[trigger] out@[k]).to == all[j2].0 by {
                if j2 == j {
                    assert(out@[before.len() as int].to == all[j2].0);
                } else {
                    let k = choose|k: int| 0 <= k < before.len() && (#[trigger] before[k]).to == all[j2].0;
                    assert(out@[k] == before[k]);
                }
            }
        }
    }
    proof {
        let targets = audio_targets(m, room.0, from);
        assert forall|e: hecs::Entity| #[trigger] targets.contains(e) implies exists|k: int|
            0 <= k < out@.len() && (#[trigger] out@[k]).to == e by {
            assert(m[e].audio_sink);
            let j = choose|j: int| 0 <= j < all.len() && (#[trigger] all[j]).0 == e;
        }
    }
    out
}

/// Every live audio sink of the room with an outbound channel, other than
/// the sender, receives the room's audio, whatever else it carries.
pub proof fn lemma_every_sink_of_room_receives(
    m: Map<hecs::Entity, EntityRecord>,
    room: u64,
    from: hecs::Entity,
    e: hecs::Entity,
)
    requires
        m.dom().contains(e),
        m[e].audio_sink,
        m[e].outbound is Some,
        m[e].room == Some(room),
        e != from,
    ensures
        audio_targets(m, room, from).contains(e),
{
}

/// Who receives a room's audio does not depend on who carries
/// `AudioSource`: adding or removing the marker on any entity leaves the
/// recipients as they were.
pub proof fn lemma_targets_ignore_audio_source(
    m: Map<hecs::Entity, EntityRecord>,
    room: u64,
    from: hecs::Entity,
    e: hecs::Entity,
    on: bool,
)
    requires
        m.dom().contains(e),
    ensures
        audio_targets(m.insert(e, m[e].with_audio_source(on)), room, from) == audio_targets(m, room, from),
{
    assert(audio_targets(m.insert(e, m[e].with_audio_source(on)), room, from) =~= audio_targets(m, room, from));
}

} // verus!
