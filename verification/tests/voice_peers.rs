use bytes::Bytes;
use hecs::World;

use sheeko::common::jitter::{SequenceEvent, SequenceTracker};
use sheeko::common::packet::{self, Header};
use sheeko::voice::{on_datagram, switch_target, PeerAction, VoicePeers};

fn packet_with_ssrc(ssrc: u32) -> Bytes {
    packet::encode(Header { sequence: 1, timestamp: 0, ssrc }, b"opus")
}

#[test]
fn new_peer_with_unknown_ssrc_starts_a_user_that_it_sources() {
    let mut world = World::new();
    let user = world.spawn(());
    let mut state = VoicePeers::new();
    let action = on_datagram(&state, 1, &packet_with_ssrc(42));
    assert!(matches!(action, PeerAction::NewUserThenRegister { ssrc: Some(42) }));
    let next = state.remember_user(Some(42), user);
    assert!(matches!(next, PeerAction::Register { owner, as_source: true } if owner == user));
    assert_eq!(state.users_by_ssrc.get(&42), Some(&user));
}

#[test]
fn second_peer_with_known_ssrc_joins_the_same_user_muted() {
    let mut world = World::new();
    let user = world.spawn(());
    let first = world.spawn(());
    let mut state = VoicePeers::new();
    state.remember_user(Some(7), user);
    state.remember_peer(1, first);
    let action = on_datagram(&state, 2, &packet_with_ssrc(7));
    assert!(matches!(action, PeerAction::Register { owner, as_source: false } if owner == user));
}

#[test]
fn known_address_is_forwarded_whatever_it_sends() {
    let mut world = World::new();
    let device = world.spawn(());
    let mut state = VoicePeers::new();
    state.remember_peer(9, device);
    let action = on_datagram(&state, 9, &Bytes::from_static(b"??"));
    assert!(matches!(action, PeerAction::Forward { from } if from == device));
}

#[test]
fn malformed_first_packet_starts_a_user_without_an_ssrc() {
    let state = VoicePeers::new();
    let action = on_datagram(&state, 3, &Bytes::from_static(b"tiny"));
    assert!(matches!(action, PeerAction::NewUserThenRegister { ssrc: None }));
}

#[test]
fn switch_target_needs_both_the_ssrc_and_the_address() {
    let mut world = World::new();
    let user = world.spawn(());
    let device = world.spawn(());
    let mut state = VoicePeers::new();
    assert_eq!(switch_target(&state, 5, 1), None);
    state.remember_user(Some(5), user);
    assert_eq!(switch_target(&state, 5, 1), None);
    state.remember_peer(1, device);
    assert_eq!(switch_target(&state, 5, 1), Some((user, device)));
    assert_eq!(switch_target(&state, 6, 1), None);
}

#[test]
fn shifted_sequence_numbers_give_the_same_events() {
    let seqs: [u16; 6] = [10, 11, 14, 12, 15, 16];
    for k in [0u16, 1, 65530, 32768] {
        let mut plain = SequenceTracker::new();
        let mut moved = SequenceTracker::new();
        for s in seqs {
            let a: SequenceEvent = plain.observe(s);
            let b = moved.observe(s.wrapping_add(k));
            assert_eq!(a, b);
        }
    }
}
