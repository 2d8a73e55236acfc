//! Presence: a User is online while any Device entity is attached to it.
use vstd::prelude::*;
use crate::ecs::storage::{entity_eq, query_owned, world_entities, EntityRecord};

verus! {

/// `device` is a live entity owned by `user`.
pub open spec fn owns(m: Map<hecs::Entity, EntityRecord>, user: hecs::Entity, device: hecs::Entity) -> bool {
    m.dom().contains(device) && m[device].owner == Some(user)
}

/// Some live Device entity is owned by `user`.
pub open spec fn online(m: Map<hecs::Entity, EntityRecord>, user: hecs::Entity) -> bool {
    exists|device: hecs::Entity| #[trigger] owns(m, user, device)
}

/// A User entity has no separate "online" flag to go stale: presence is
/// computed on demand from whether any Device entity is owned by it.
pub fn is_online(world: &hecs::World, user: hecs::Entity) -> (r: bool)
    ensures
        r == online(world_entities(*world), user),
{
    let owned = query_owned(world);
    let mut i: usize = 0;
    while i < owned.len()
        invariant
            i <= owned.len(),
            forall|j: int| 0 <= j < i ==> owned@[j].1 != user,
            forall|j: int|
                0 <= j < owned@.len() ==> world_entities(*world).dom().contains(#[trigger] owned@[j].0)
                    && world_entities(*world)[owned@[j].0].owner == Some(owned@[j].1),
        decreases owned.len() - i,
    {
        if entity_eq(owned[i].1, user) {
            assert(owns(world_entities(*world), user, owned@[i as int].0));
            return true;
        }
        i += 1;
    }
    assert forall|device: hecs::Entity| !owns(world_entities(*world), user, device) by {
        if owns(world_entities(*world), user, device) {
            let k = choose|k: int| 0 <= k < owned@.len() && (#[trigger] owned@[k]).0 == device;
            assert(owned@[k].1 == user);
        }
    }
    false
}

/// Ownership is exactly the `OwnedBy` link: a live entity is owned by the
/// User its `OwnedBy` names, whatever other components it carries, and by no
/// one else.
pub proof fn lemma_owns_is_owned_by(m: Map<hecs::Entity, EntityRecord>, user: hecs::Entity, device: hecs::Entity)
    ensures
        owns(m, user, device) <==> (m.dom().contains(device) && m[device].owner == Some(user)),
{
}

/// A User with any live entity linked to it by `OwnedBy` is online, and one
/// with none is not.
pub proof fn lemma_online_iff_some_owned(m: Map<hecs::Entity, EntityRecord>, user: hecs::Entity, device: hecs::Entity)
    ensures
        (m.dom().contains(device) && m[device].owner == Some(user)) ==> online(m, user),
        online(m, user) ==> exists|d: hecs::Entity| m.dom().contains(d) && #[trigger] m[d].owner == Some(user),
{
    if m.dom().contains(device) && m[device].owner == Some(user) {
        assert(owns(m, user, device));
    }
    if online(m, user) {
        let d = choose|d: hecs::Entity| #[trigger] owns(m, user, d);
        assert(m[d].owner == Some(user));
    }
}

} // verus!
