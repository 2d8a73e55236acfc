use hecs::{Entity, World};
use sheeko::ecs::components::{Identity, OwnedBy};
use sheeko::ecs::{entity_to_id, id_to_entity};

struct AudioSource;

/// Spawn, add/remove a component, run a query, despawn.
#[test]
fn spawn_query_mutate_despawn() {
    let mut world = World::new();

    let user = world.spawn((Identity {
        username: "alice".into(),
    },));
    let device = world.spawn((OwnedBy(user),));

    let owned: Vec<Entity> = world
        .query::<(Entity, &OwnedBy)>()
        .iter()
        .filter(|(_, owned)| owned.0 == user)
        .map(|(entity, _)| entity)
        .collect();
    assert_eq!(owned, vec![device]);

    // capability components can move between entities at runtime
    world.insert_one(device, AudioSource).unwrap();
    assert!(world.get::<&AudioSource>(device).is_ok());
    world.remove_one::<AudioSource>(device).unwrap();
    assert!(world.get::<&AudioSource>(device).is_err());

    world.despawn(device).unwrap();
    assert!(!world.contains(device));

    // round-trip through the external id representation
    let id = entity_to_id(user);
    assert_eq!(id_to_entity(&id), Some(user));
}

#[test]
fn entity_id_is_the_decimal_bit_pattern() {
    let mut world = World::new();
    let e = world.spawn((Identity {
        username: "bob".into(),
    },));
    assert_eq!(entity_to_id(e), e.to_bits().get().to_string());
    assert!(entity_to_id(e).chars().all(|c| c.is_ascii_digit()));
}

#[test]
fn id_parsing_accepts_a_plus_sign_and_rejects_garbage() {
    let mut world = World::new();
    let e = world.spawn((Identity {
        username: "carol".into(),
    },));
    let plus = format!("+{}", entity_to_id(e));
    assert_eq!(id_to_entity(&plus), Some(e));
    assert_eq!(id_to_entity(""), None);
    assert_eq!(id_to_entity("+"), None);
    assert_eq!(id_to_entity("-1"), None);
    assert_eq!(id_to_entity("12a"), None);
    assert_eq!(id_to_entity("18446744073709551616"), None);
}

#[test]
fn id_without_a_generation_is_no_entity() {
    // the high 32 bits hold the generation, which is never zero
    assert_eq!(id_to_entity("0"), None);
    assert_eq!(id_to_entity("4294967295"), None);
    let e = id_to_entity("4294967296").unwrap();
    assert_eq!(e.to_bits().get(), 4_294_967_296);
}
