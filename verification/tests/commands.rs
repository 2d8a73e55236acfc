use bytes::Bytes;
use hecs::{Entity, World};
use tokio::sync::{mpsc, oneshot};

use sheeko::common::message::ServerMessage;
use sheeko::common::packet::{self, Header};
use sheeko::ecs::commands::{Command, UserView};
use sheeko::ecs::components::{AudioSource, Identity, JitterState, RoomId, RoomMembership};
use sheeko::ecs::systems::device_switch::DeviceSwitchError;
use sheeko::ecs::systems::presence::is_online;
use sheeko::ecs::{entity_to_id, handle_command};

fn create_user(world: &mut World, name: &str) -> Entity {
    let (reply, mut rx) = oneshot::channel();
    handle_command(
        world,
        Command::CreateUser {
            username: name.to_string(),
            reply,
        },
    );
    rx.try_recv().unwrap()
}

fn create_device(world: &mut World, owner: Entity, as_audio_source: bool) -> Option<Entity> {
    let (reply, mut rx) = oneshot::channel();
    handle_command(
        world,
        Command::CreateDevice {
            owner,
            as_audio_source,
            reply,
        },
    );
    rx.try_recv().unwrap()
}

fn get_user(world: &mut World, user: Entity) -> Option<UserView> {
    let (reply, mut rx) = oneshot::channel();
    handle_command(world, Command::GetUser { user, reply });
    rx.try_recv().unwrap()
}

fn join_text(world: &mut World, user: Entity, room: u64) -> (Option<Entity>, mpsc::UnboundedReceiver<Bytes>) {
    let (tx, rx) = mpsc::unbounded_channel();
    let (reply, mut reply_rx) = oneshot::channel();
    handle_command(
        world,
        Command::JoinTextRoom {
            user,
            room: RoomId(room),
            outbound: tx,
            reply,
        },
    );
    (reply_rx.try_recv().unwrap(), rx)
}

fn register_voice(
    world: &mut World,
    owner: Entity,
    room: u64,
    as_source: bool,
) -> (Option<Entity>, mpsc::UnboundedReceiver<Bytes>) {
    let (tx, rx) = mpsc::unbounded_channel();
    let (reply, mut reply_rx) = oneshot::channel();
    handle_command(
        world,
        Command::RegisterVoicePeer {
            owner,
            room: RoomId(room),
            as_source,
            outbound: tx,
            reply,
        },
    );
    (reply_rx.try_recv().unwrap(), rx)
}

#[test]
fn new_user_is_offline_with_no_devices() {
    let mut world = World::new();
    let user = create_user(&mut world, "alice");
    let view = get_user(&mut world, user).unwrap();
    assert_eq!(view.username, "alice");
    assert!(view.devices.is_empty());
    assert!(!view.online);
    assert!(!is_online(&world, user));
}

#[test]
fn devices_are_listed_and_make_the_user_online() {
    let mut world = World::new();
    let user = create_user(&mut world, "bob");
    let phone = create_device(&mut world, user, true).unwrap();
    let laptop = create_device(&mut world, user, false).unwrap();
    let view = get_user(&mut world, user).unwrap();
    assert_eq!(view.devices.len(), 2);
    assert!(view.devices.contains(&phone) && view.devices.contains(&laptop));
    assert!(view.online);
    assert!(world.get::<&AudioSource>(phone).is_ok());
    assert!(world.get::<&AudioSource>(laptop).is_err());
}

#[test]
fn device_for_a_non_user_is_refused() {
    let mut world = World::new();
    let user = create_user(&mut world, "carol");
    let device = create_device(&mut world, user, false).unwrap();
    // a Device is not a User, so nothing can be attached to it
    assert_eq!(create_device(&mut world, device, false), None);
    assert!(get_user(&mut world, device).is_none());
    assert_eq!(world.len(), 2);
}

#[test]
fn voice_peer_and_text_session_need_a_user() {
    let mut world = World::new();
    let user = create_user(&mut world, "dave");
    let device = create_device(&mut world, user, false).unwrap();
    assert_eq!(register_voice(&mut world, device, 1, true).0, None);
    assert_eq!(join_text(&mut world, device, 1).0, None);
    let peer = register_voice(&mut world, user, 1, false).0.unwrap();
    assert_eq!(world.get::<&RoomMembership>(peer).unwrap().0, RoomId(1));
    assert!(world.get::<&AudioSource>(peer).is_err());
    assert!(world.get::<&JitterState>(peer).is_ok());
}

#[test]
fn chat_reaches_both_devices_of_a_user_with_the_sender_user_id() {
    let mut world = World::new();
    let carol = create_user(&mut world, "carol");
    let dave = create_user(&mut world, "dave");
    let (_phone, mut phone_rx) = join_text(&mut world, carol, 42);
    let (_laptop, mut laptop_rx) = join_text(&mut world, carol, 42);
    let (dave_dev, mut dave_rx) = join_text(&mut world, dave, 42);
    let (_elsewhere, mut elsewhere_rx) = join_text(&mut world, carol, 7);
    handle_command(
        &mut world,
        Command::ChatMessage {
            from: dave_dev.unwrap(),
            text: "hi both of you".to_string(),
        },
    );
    let expected = format!(
        "{{\"type\":\"Chat\",\"from\":\"{}\",\"text\":\"hi both of you\"}}",
        entity_to_id(dave)
    );
    for rx in [&mut phone_rx, &mut laptop_rx] {
        let frame = rx.try_recv().unwrap();
        assert_eq!(String::from_utf8(frame.to_vec()).unwrap(), expected);
    }
    assert!(dave_rx.try_recv().is_err());
    assert!(elsewhere_rx.try_recv().is_err());
}

#[test]
fn server_message_json_escapes_text() {
    let chat = ServerMessage::Chat {
        from: "1".to_string(),
        text: "say \"hi\"\\\n\t\u{1}é".to_string(),
    };
    assert_eq!(
        chat.to_json(),
        "{\"type\":\"Chat\",\"from\":\"1\",\"text\":\"say \\\"hi\\\"\\\\\\n\\t\\u0001é\"}"
    );
    let error = ServerMessage::Error {
        message: "unknown user_id".to_string(),
    };
    assert_eq!(error.to_json(), "{\"type\":\"Error\",\"message\":\"unknown user_id\"}");
}

#[test]
fn packet_updates_the_senders_jitter_tracker() {
    let mut world = World::new();
    let user = create_user(&mut world, "erin");
    let (sender, _rx) = register_voice(&mut world, user, 3, true);
    let sender = sender.unwrap();
    let (_listener, mut listener_rx) = register_voice(&mut world, user, 3, false);
    for sequence in [5u16, 6] {
        let raw = packet::encode(
            Header {
                sequence,
                timestamp: 0,
                ssrc: 9,
            },
            b"x",
        );
        handle_command(&mut world, Command::PacketReceived { from: sender, packet: raw.clone() });
        assert_eq!(listener_rx.try_recv().unwrap(), raw);
    }
    let mut tracker = world.get::<&JitterState>(sender).unwrap().0;
    assert_eq!(tracker.observe(7), sheeko::common::jitter::SequenceEvent::InOrder);
}

#[test]
fn short_packet_is_dropped() {
    let mut world = World::new();
    let user = create_user(&mut world, "frank");
    let (sender, _rx) = register_voice(&mut world, user, 3, true);
    let (_listener, mut listener_rx) = register_voice(&mut world, user, 3, false);
    handle_command(
        &mut world,
        Command::PacketReceived {
            from: sender.unwrap(),
            packet: Bytes::from_static(b"short"),
        },
    );
    assert!(listener_rx.try_recv().is_err());
}

#[test]
fn switching_twice_to_the_same_device_is_harmless() {
    let mut world = World::new();
    let user = create_user(&mut world, "gina");
    let a = create_device(&mut world, user, true).unwrap();
    let b = create_device(&mut world, user, false).unwrap();
    for _ in 0..2 {
        let (reply, mut rx) = oneshot::channel();
        handle_command(&mut world, Command::SwitchAudioDevice { user, to_device: b, reply });
        assert_eq!(rx.try_recv().unwrap(), Ok(()));
        assert!(world.get::<&AudioSource>(a).is_err());
        assert!(world.get::<&AudioSource>(b).is_ok());
    }
    let (reply, mut rx) = oneshot::channel();
    handle_command(&mut world, Command::SwitchAudioDevice { user, to_device: user, reply });
    assert_eq!(rx.try_recv().unwrap(), Err(DeviceSwitchError::TargetNotOwnedByUser));
    assert_eq!(
        DeviceSwitchError::TargetNotOwnedByUser.message(),
        "target device is not owned by this user"
    );
}

#[test]
fn local_device_is_tagged_as_audio_source() {
    let (world, user, device, tagged) = sheeko::ecs::world::tag_local_device_as_audio_source();
    assert!(tagged);
    assert_ne!(user, device);
    assert!(world.get::<&AudioSource>(device).is_ok());
    assert!(world.get::<&AudioSource>(user).is_err());
    assert_eq!(world.get::<&Identity>(user).unwrap().username, "local");
}

#[test]
fn user_keeps_identity_after_devices_are_added() {
    let mut world = World::new();
    let user = create_user(&mut world, "hal");
    create_device(&mut world, user, false);
    assert_eq!(world.get::<&Identity>(user).unwrap().username, "hal");
}
