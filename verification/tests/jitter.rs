use sheeko::common::jitter::{SequenceEvent, SequenceTracker};

#[test]
fn first_packet_is_in_order() {
    let mut tracker = SequenceTracker::new();
    assert_eq!(tracker.observe(0), SequenceEvent::InOrder);
}

#[test]
fn detects_a_gap() {
    let mut tracker = SequenceTracker::new();
    tracker.observe(10);
    assert_eq!(tracker.observe(13), SequenceEvent::Dropped { count: 2 });
}

#[test]
fn detects_reordering() {
    let mut tracker = SequenceTracker::new();
    tracker.observe(10);
    tracker.observe(11);
    assert_eq!(tracker.observe(9), SequenceEvent::Reordered);
    // the late packet doesn't corrupt tracking of the real latest sequence
    assert_eq!(tracker.observe(12), SequenceEvent::InOrder);
}

#[test]
fn wraps_around_u16_boundary() {
    let mut tracker = SequenceTracker::new();
    tracker.observe(u16::MAX);
    assert_eq!(tracker.observe(0), SequenceEvent::InOrder);
}

#[test]
fn first_packet_with_any_number_is_in_order() {
    let mut tracker = SequenceTracker::default();
    assert_eq!(tracker.observe(40_000), SequenceEvent::InOrder);
    assert_eq!(tracker.observe(40_001), SequenceEvent::InOrder);
}

#[test]
fn gap_across_the_wraparound_counts_skipped_packets() {
    let mut tracker = SequenceTracker::new();
    tracker.observe(65_534);
    assert_eq!(tracker.observe(2), SequenceEvent::Dropped { count: 3 });
    assert_eq!(tracker.observe(3), SequenceEvent::InOrder);
}

#[test]
fn duplicate_packet_is_reordered_and_keeps_state() {
    let mut tracker = SequenceTracker::new();
    tracker.observe(7);
    assert_eq!(tracker.observe(7), SequenceEvent::Reordered);
    assert_eq!(tracker.observe(8), SequenceEvent::InOrder);
}

#[test]
fn largest_forward_jump_is_a_gap_and_half_the_space_is_late() {
    let mut tracker = SequenceTracker::new();
    tracker.observe(0);
    assert_eq!(tracker.observe(0x7fff), SequenceEvent::Dropped { count: 0x7ffe });
    let mut other = SequenceTracker::new();
    other.observe(0);
    assert_eq!(other.observe(0x8000), SequenceEvent::Reordered);
    assert_eq!(other.observe(1), SequenceEvent::InOrder);
}
