use hecs::World;

use sheeko::common::message::ClientMessage;
use sheeko::ecs::commands::UserView;
use sheeko::ecs::components::Identity;
use sheeko::ecs::entity_to_id;
use sheeko::gateway::{decide_join, user_response, JoinDecision};

#[test]
fn user_response_lists_device_ids_in_order() {
    let mut world = World::new();
    let a = world.spawn((Identity { username: "a".into() },));
    let b = world.spawn((Identity { username: "b".into() },));
    let view = UserView {
        username: "ivy".to_string(),
        devices: vec![b, a],
        online: true,
    };
    let r = user_response("123".to_string(), view);
    assert_eq!(r.user_id, "123");
    assert_eq!(r.username, "ivy");
    assert_eq!(r.devices, vec![entity_to_id(b), entity_to_id(a)]);
    assert!(r.online);
}

#[test]
fn join_with_a_known_id_joins_the_room() {
    let mut world = World::new();
    let user = world.spawn((Identity { username: "jo".into() },));
    let decision = decide_join(Some(ClientMessage::Join {
        user_id: entity_to_id(user),
        room: 5,
    }));
    match decision {
        JoinDecision::Join { user: joined, room } => {
            assert_eq!(joined, user);
            assert_eq!(room.0, 5);
        }
        _ => panic!("expected a join"),
    }
}

#[test]
fn join_with_a_malformed_id_is_rejected_with_an_error_frame() {
    let decision = decide_join(Some(ClientMessage::Join {
        user_id: "not-a-number".to_string(),
        room: 1,
    }));
    match decision {
        JoinDecision::Reject { frame } => {
            assert_eq!(frame, "{\"type\":\"Error\",\"message\":\"unknown user_id\"}")
        }
        _ => panic!("expected a rejection"),
    }
}

#[test]
fn messages_before_join_are_ignored() {
    assert!(matches!(
        decide_join(Some(ClientMessage::Chat {
            text: "too early".to_string()
        })),
        JoinDecision::Wait
    ));
    assert!(matches!(decide_join(None), JoinDecision::Wait));
}
