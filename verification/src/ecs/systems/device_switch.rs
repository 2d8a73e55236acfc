//! Moving the active `AudioSource` between the Devices of one User.
use vstd::prelude::*;
use crate::ecs::components::AudioSource;
use crate::ecs::storage::{
    entity_eq, get_owner, has_audio_source, insert_audio_source, query_owned_sources,
    remove_audio_source, world_entities, EntityRecord,
};
use crate::ecs::systems::presence::owns;

verus! {

#[derive(Debug, Clone, Copy, PartialEq, Eq)]
pub enum DeviceSwitchError {
    TargetNotOwnedByUser,
}

impl DeviceSwitchError {
    /// The error's description.
    pub fn message(&self) -> (text: String)
        ensures
            text@ == "target device is not owned by this user"@,
    {
        "target device is not owned by this user".to_owned()
    }
}

/// The world after `user`'s audio source moved to `to`: `to` carries
/// `AudioSource`, no other Device of `user` does, and nothing else changed.
pub open spec fn switched(
    m: Map<hecs::Entity, EntityRecord>,
    user: hecs::Entity,
    to: hecs::Entity,
) -> Map<hecs::Entity, EntityRecord> {
    Map::new(
        |e: hecs::Entity| m.dom().contains(e),
        |e: hecs::Entity|
            if e == to {
                m[e].with_audio_source(true)
            } else if m[e].owner == Some(user) {
                m[e].with_audio_source(false)
            } else {
                m[e]
            },
    )
}

/// Moves `AudioSource` from whichever Device entities currently carry it for
/// `user` onto `to_device`. No User or Room changes: just a component moving
/// between two entities. Fails, changing nothing, unless `to_device` is a
/// live Device owned by `user`.
pub fn run(world: &mut hecs::World, user: hecs::Entity, to_device: hecs::Entity) -> (r: Result<
    (),
    DeviceSwitchError,
>)
    ensures
        r is Ok <==> owns(world_entities(*old(world)), user, to_device),
        r is Ok ==> world_entities(*final(world)) == switched(
            world_entities(*old(world)),
            user,
            to_device,
        ),
        r is Err ==> world_entities(*final(world)) == world_entities(*old(world)),
{
    let target_owned_by_user = match get_owner(world, to_device) {
        Some(owner) => entity_eq(owner, user),
        None => false,
    };
    if !target_owned_by_user {
        return Err(DeviceSwitchError::TargetNotOwnedByUser);
    }
    let ghost m0 = world_entities(*world);
    let previous_sources = query_owned_sources(world);
    let mut i: usize = 0;
    while i < previous_sources.len()
        invariant
            i <= previous_sources.len(),
            owns(m0, user, to_device),
            world_entities(*world).dom() == m0.dom(),
            forall|a: int, b: int|
                0 <= a < b < previous_sources@.len() ==> #[trigger] previous_sources@[a].0
                    != #[trigger] previous_sources@[b].0,
            forall|j: int|
                0 <= j < previous_sources@.len() ==> m0.dom().contains(
                    #[trigger] previous_sources@[j].0,
                ) && m0[previous_sources@[j].0].owner == Some(previous_sources@[j].1)
                    && m0[previous_sources@[j].0].audio_source,
            forall|e: hecs::Entity|
                #[trigger] m0.dom().contains(e) ==> world_entities(*world)[e] == (if m0[e].owner
                    == Some(user) && exists|j: int|
                    0 <= j < i && (#[trigger] previous_sources@[j]).0 == e {
                    m0[e].with_audio_source(false)
                } else {
                    m0[e]
                }),
        decreases previous_sources.len() - i,
    {
        let entry = &previous_sources[i];
        let ghost before = world_entities(*world);
        if entity_eq(entry.1, user) {
            proof {
                let e = entry.0;
                assert(m0.dom().contains(e));
                if exists|j: int| 0 <= j < i && (#[trigger] previous_sources@[j]).0 == e {
                    let j = choose|j: int| 0 <= j < i && (#[trigger] previous_sources@[j]).0 == e;
                    assert(previous_sources@[j].0 != previous_sources@[i as int].0);
                }
                assert(before[e] == m0[e]);
            }
            remove_audio_source(world, entry.0);
        }
        proof {
            assert forall|e: hecs::Entity| #[trigger] m0.dom().contains(e) implies world_entities(
                *world,
            )[e] == (if m0[e].owner == Some(user) && exists|j: int|
                0 <= j < i + 1 && (#[trigger] previous_sources@[j]).0 == e {
                m0[e].with_audio_source(false)
            } else {
                m0[e]
            }) by {
                if e == previous_sources@[i as int].0 {
                    assert(previous_sources@[i as int].0 == e);
                }
                if exists|j: int| 0 <= j < i + 1 && (#[trigger] previous_sources@[j]).0 == e {
                    let j = choose|j: int| 0 <= j < i + 1 && (#[trigger] previous_sources@[j]).0 == e;
                    if j < i {
                        assert(exists|j2: int| 0 <= j2 < i && (#[trigger] previous_sources@[j2]).0 == e);
                    }
                }
            }
        }
        i += 1;
    }
    let ghost m1 = world_entities(*world);
    proof {
        assert forall|e: hecs::Entity| #[trigger] m0.dom().contains(e) implies m1[e] == (if m0[e].owner
            == Some(user) {
            m0[e].with_audio_source(false)
        } else {
            m0[e]
        }) by {
            if m0[e].owner == Some(user) && m0[e].audio_source {
                assert(m0[e].owner is Some);
                let k = choose|k: int|
                    0 <= k < previous_sources@.len() && (#[trigger] previous_sources@[k]).0 == e;
                assert(exists|j: int| 0 <= j < i && (#[trigger] previous_sources@[j]).0 == e);
            } else if m0[e].owner == Some(user) {
                assert(m0[e].with_audio_source(false) == m0[e]);
            }
        }
    }
    if !has_audio_source(world, to_device) {
        insert_audio_source(world, to_device, AudioSource);
    }
    proof {
        assert(world_entities(*world) =~= switched(m0, user, to_device));
    }
    Ok(())
}

/// After a switch, the User's audio is produced by exactly one Device: the
/// one switched to.
pub proof fn lemma_switch_leaves_one_source(
    m: Map<hecs::Entity, EntityRecord>,
    user: hecs::Entity,
    to: hecs::Entity,
    device: hecs::Entity,
)
    requires
        owns(m, user, to),
        owns(m, user, device),
    ensures
        owns(switched(m, user, to), user, device),
        switched(m, user, to)[device].audio_source <==> device == to,
{
}

/// A switch moves nothing but the `AudioSource` marker: the same entities
/// stay live, each keeps its identity, owner, room, sink, text channel,
/// outbound channel and jitter tracker, and the Devices of other Users (and
/// every entity that is not a Device of this User) keep their marker too.
pub proof fn lemma_switch_only_moves_source(
    m: Map<hecs::Entity, EntityRecord>,
    user: hecs::Entity,
    to: hecs::Entity,
    e: hecs::Entity,
)
    requires
        owns(m, user, to),
    ensures
        switched(m, user, to).dom() == m.dom(),
        m.dom().contains(e) ==> switched(m, user, to)[e] == m[e].with_audio_source(
            switched(m, user, to)[e].audio_source,
        ),
        m.dom().contains(e) && m[e].owner != Some(user) ==> switched(m, user, to)[e] == m[e],
{
    assert(switched(m, user, to).dom() =~= m.dom());
}

/// Switching to the device that is already the active one changes nothing
/// more: a switch is idempotent.
pub proof fn lemma_switch_idempotent(m: Map<hecs::Entity, EntityRecord>, user: hecs::Entity, to: hecs::Entity)
    requires
        owns(m, user, to),
    ensures
        owns(switched(m, user, to), user, to),
        switched(switched(m, user, to), user, to) == switched(m, user, to),
{
    assert(switched(switched(m, user, to), user, to) =~= switched(m, user, to));
}

} // verus!
