use bytes::Bytes;
use hecs::World;
use tokio::sync::{mpsc, oneshot};

use sheeko::common::jitter::SequenceEvent;
use sheeko::common::packet::{self, Header};
use sheeko::ecs::commands::{Command, Reply};
use sheeko::ecs::components::{AudioSource, RoomId};
use sheeko::ecs::{deliver, plan_command};

fn header(sequence: u16, ssrc: u32) -> Header {
    Header { sequence, timestamp: 0, ssrc }
}

#[test]
fn planning_sends_nothing_until_delivered() {
    let mut world = World::new();
    let (reply, mut rx) = oneshot::channel();
    let out = plan_command(&mut world, Command::CreateUser { username: "ann".to_string(), reply });
    assert!(out.deliveries.is_empty());
    let planned = match &out.reply {
        Reply::User { user, .. } => *user,
        _ => panic!("a created user is answered with the user"),
    };
    assert!(rx.try_recv().is_err());
    deliver(out);
    assert_eq!(rx.try_recv().unwrap(), planned);
}

#[test]
fn packet_deliveries_name_each_sink_once_with_the_same_bytes() {
    let mut world = World::new();
    let (reply, mut rx) = oneshot::channel();
    deliver(plan_command(&mut world, Command::CreateUser { username: "bo".to_string(), reply }));
    let user = rx.try_recv().unwrap();

    let mut peers = Vec::new();
    for as_source in [true, false, false] {
        let (tx, out_rx) = mpsc::unbounded_channel::<Bytes>();
        let (reply, mut rx) = oneshot::channel();
        deliver(plan_command(
            &mut world,
            Command::RegisterVoicePeer { owner: user, room: RoomId(3), as_source, outbound: tx, reply },
        ));
        peers.push((rx.try_recv().unwrap().unwrap(), out_rx));
    }
    let raw = packet::encode(header(9, 1), b"voice");
    let out = plan_command(&mut world, Command::PacketReceived { from: peers[0].0, packet: raw.clone() });
    assert!(matches!(out.reply, Reply::Nothing));
    let mut targets: Vec<_> = out.deliveries.iter().map(|d| d.to).collect();
    targets.sort_by_key(|e| e.to_bits());
    let mut expected = vec![peers[1].0, peers[2].0];
    expected.sort_by_key(|e| e.to_bits());
    assert_eq!(targets, expected);
    assert!(out.deliveries.iter().all(|d| d.frame == raw));
    deliver(out);
    assert!(peers[0].1.try_recv().is_err());
    assert_eq!(peers[1].1.try_recv().unwrap(), raw);
    assert_eq!(peers[2].1.try_recv().unwrap(), raw);
}

#[test]
fn short_packet_plans_no_delivery() {
    let mut world = World::new();
    let (reply, mut rx) = oneshot::channel();
    deliver(plan_command(&mut world, Command::CreateUser { username: "cy".to_string(), reply }));
    let user = rx.try_recv().unwrap();
    let (tx, _out_rx) = mpsc::unbounded_channel::<Bytes>();
    let (reply, mut rx) = oneshot::channel();
    deliver(plan_command(
        &mut world,
        Command::RegisterVoicePeer { owner: user, room: RoomId(1), as_source: true, outbound: tx, reply },
    ));
    let source = rx.try_recv().unwrap().unwrap();
    let out = plan_command(&mut world, Command::PacketReceived { from: source, packet: Bytes::from_static(b"short") });
    assert!(out.deliveries.is_empty());
}

#[test]
fn voice_peer_keeps_the_channel_it_was_given() {
    let mut world = World::new();
    let (reply, mut rx) = oneshot::channel();
    deliver(plan_command(&mut world, Command::CreateUser { username: "di".to_string(), reply }));
    let user = rx.try_recv().unwrap();
    let (source_tx, _source_rx) = mpsc::unbounded_channel::<Bytes>();
    let (reply, mut rx) = oneshot::channel();
    deliver(plan_command(
        &mut world,
        Command::RegisterVoicePeer { owner: user, room: RoomId(5), as_source: true, outbound: source_tx, reply },
    ));
    let source = rx.try_recv().unwrap().unwrap();
    let (sink_tx, mut sink_rx) = mpsc::unbounded_channel::<Bytes>();
    let (reply, mut rx) = oneshot::channel();
    deliver(plan_command(
        &mut world,
        Command::RegisterVoicePeer { owner: user, room: RoomId(5), as_source: false, outbound: sink_tx, reply },
    ));
    let sink = rx.try_recv().unwrap().unwrap();
    assert!(world.get::<&AudioSource>(sink).is_err());
    let raw = packet::encode(header(1, 2), b"x");
    let out = plan_command(&mut world, Command::PacketReceived { from: source, packet: raw.clone() });
    assert_eq!(out.deliveries.len(), 1);
    assert_eq!(out.deliveries[0].to, sink);
    out.deliveries[0].channel.send(Bytes::from_static(b"probe")).unwrap();
    assert_eq!(sink_rx.try_recv().unwrap(), Bytes::from_static(b"probe"));
}

#[test]
fn chat_deliveries_carry_the_chat_frame() {
    let mut world = World::new();
    let (reply, mut rx) = oneshot::channel();
    deliver(plan_command(&mut world, Command::CreateUser { username: "ed".to_string(), reply }));
    let user = rx.try_recv().unwrap();
    let mut sessions = Vec::new();
    for _ in 0..2 {
        let (tx, out_rx) = mpsc::unbounded_channel::<Bytes>();
        let (reply, mut rx) = oneshot::channel();
        deliver(plan_command(&mut world, Command::JoinTextRoom { user, room: RoomId(8), outbound: tx, reply }));
        sessions.push((rx.try_recv().unwrap().unwrap(), out_rx));
    }
    let out = plan_command(&mut world, Command::ChatMessage { from: sessions[0].0, text: "hi \"x\"".to_string() });
    assert_eq!(out.deliveries.len(), 1);
    assert_eq!(out.deliveries[0].to, sessions[1].0);
    let expected = format!(
        "{{\"type\":\"Chat\",\"from\":\"{}\",\"text\":\"hi \\\"x\\\"\"}}",
        user.to_bits().get()
    );
    assert_eq!(out.deliveries[0].frame, Bytes::from(expected));
}

#[test]
fn switch_reply_is_planned_with_its_result() {
    let mut world = World::new();
    let (reply, mut rx) = oneshot::channel();
    deliver(plan_command(&mut world, Command::CreateUser { username: "flo".to_string(), reply }));
    let user = rx.try_recv().unwrap();
    let (reply, _rx) = oneshot::channel();
    let out = plan_command(&mut world, Command::SwitchAudioDevice { user, to_device: user, reply });
    match out.reply {
        Reply::Switch { result, .. } => assert!(result.is_err()),
        _ => panic!("a switch is answered with its result"),
    }
}

#[test]
fn received_packets_report_what_the_tracker_saw() {
    let mut world = World::new();
    let (reply, mut rx) = oneshot::channel();
    deliver(plan_command(&mut world, Command::CreateUser { username: "gus".to_string(), reply }));
    let user = rx.try_recv().unwrap();
    let (tx, _out_rx) = mpsc::unbounded_channel::<Bytes>();
    let (reply, mut rx) = oneshot::channel();
    deliver(plan_command(
        &mut world,
        Command::RegisterVoicePeer { owner: user, room: RoomId(2), as_source: true, outbound: tx, reply },
    ));
    let peer = rx.try_recv().unwrap().unwrap();
    let mut events = Vec::new();
    for seq in [5u16, 6, 9, 7] {
        let raw = packet::encode(header(seq, 1), b"p");
        let out = plan_command(&mut world, Command::PacketReceived { from: peer, packet: raw });
        events.push(out.jitter);
    }
    assert_eq!(
        events,
        vec![
            Some(SequenceEvent::InOrder),
            Some(SequenceEvent::InOrder),
            Some(SequenceEvent::Dropped { count: 2 }),
            Some(SequenceEvent::Reordered),
        ]
    );
    let short = plan_command(&mut world, Command::PacketReceived { from: peer, packet: Bytes::from_static(b"x") });
    assert_eq!(short.jitter, None);
    let (reply, _rx) = oneshot::channel();
    let other = plan_command(&mut world, Command::GetUser { user, reply });
    assert_eq!(other.jitter, None);
}
