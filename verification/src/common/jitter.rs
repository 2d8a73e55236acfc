//! Sequence-number tracking for one audio producer.
//!
//! A tracker remembers the latest in-order sequence number it has seen and
//! classifies every new one as in order, as skipping some packets, or as a
//! late arrival. Nothing is retransmitted: this is observability over a lossy
//! stream. All comparisons are modulo 2^16, so the classification stays
//! correct across the `u16` wraparound.
use vstd::prelude::*;

verus! {

/// Number of sequence numbers in the `u16` space.
pub open spec fn seq_space() -> int {
    0x1_0000
}

/// How far `seq` is ahead of `last`, counted modulo 2^16 (always in `0..2^16`).
pub open spec fn seq_ahead(last: u16, seq: u16) -> int {
    if seq >= last {
        seq - last
    } else {
        seq - last + seq_space()
    }
}

/// Tracks one producer's RTP-style sequence numbers to detect drops and
/// reordering.
#[derive(Debug, Clone, Copy)]
pub struct SequenceTracker {
    last_seq: Option<u16>,
}

impl View for SequenceTracker {
    type V = Option<u16>;

    /// The latest sequence number accepted as in order (or after a gap), if any.
    closed spec fn view(&self) -> Option<u16> {
        self.last_seq
    }
}

#[derive(Debug, Clone, Copy, PartialEq, Eq)]
pub enum SequenceEvent {
    /// First packet seen, or immediately follows the previous one.
    InOrder,
    /// `count` packets were skipped between the last sequence number and this one.
    Dropped { count: u16 },
    /// This sequence number is not ahead of the last one seen.
    Reordered,
}

/// The classification of `seq` given the last accepted sequence number.
///
/// Reading the distance as a signed 16-bit value: a distance of 1 is in order,
/// a positive distance `d > 1` means `d - 1` packets were skipped, and a
/// distance of zero or a negative one (half the space or more) is a late packet.
pub open spec fn classify(last: Option<u16>, seq: u16) -> SequenceEvent {
    match last {
        None => SequenceEvent::InOrder,
        Some(l) => {
            let ahead = seq_ahead(l, seq);
            if ahead == 1 {
                SequenceEvent::InOrder
            } else if 2 <= ahead <= 0x7fff {
                SequenceEvent::Dropped { count: (ahead - 1) as u16 }
            } else {
                SequenceEvent::Reordered
            }
        },
    }
}

/// The tracker's state after observing `seq`: a late packet leaves it as it
/// was, anything else becomes the new latest sequence number.
pub open spec fn next_last(last: Option<u16>, seq: u16) -> Option<u16> {
    if classify(last, seq) is Reordered {
        last
    } else {
        Some(seq)
    }
}

impl Default for SequenceTracker {
    fn default() -> (tracker: Self)
        ensures
            tracker@ == None::<u16>,
    {
        SequenceTracker { last_seq: None }
    }
}

impl SequenceTracker {
    pub fn new() -> (tracker: Self)
        ensures
            tracker@ == None::<u16>,
    {
        SequenceTracker { last_seq: None }
    }

    /// Records `seq` as the latest packet observed from this producer and
    /// classifies it relative to the previous one.
    pub fn observe(&mut self, seq: u16) -> (event: SequenceEvent)
        ensures
            event == classify(old(self)@, seq),
            final(self)@ == next_last(old(self)@, seq),
    {
        let event = match self.last_seq {
            None => SequenceEvent::InOrder,
            Some(last) => {
                let ahead = seq.wrapping_sub(last);
                if ahead == 1 {
                    SequenceEvent::InOrder
                } else if 2 <= ahead && ahead <= 0x7fff {
                    SequenceEvent::Dropped { count: ahead - 1 }
                } else {
                    SequenceEvent::Reordered
                }
            },
        };
        if !matches!(event, SequenceEvent::Reordered) {
            self.last_seq = Some(seq);
        }
        event
    }
}

/// The first packet a tracker sees is always in order, whatever its number.
pub proof fn lemma_first_packet_in_order(seq: u16)
    ensures
        classify(None, seq) == SequenceEvent::InOrder,
        next_last(None, seq) == Some(seq),
{
}

/// The packet right after the last one (modulo 2^16, so `0` after `u16::MAX`)
/// is in order and becomes the new latest.
pub proof fn lemma_successor_in_order(last: u16)
    ensures
        classify(Some(last), ((last + 1) % seq_space()) as u16) == SequenceEvent::InOrder,
        next_last(Some(last), ((last + 1) % seq_space()) as u16) == Some(((last + 1) % seq_space()) as u16),
{
}

/// A packet `k` steps ahead (1 < k < 2^15) reports exactly `k - 1` dropped packets.
pub proof fn lemma_gap_counts_skipped(last: u16, k: int)
    requires
        2 <= k <= 0x7fff,
    ensures
        classify(Some(last), ((last + k) % seq_space()) as u16) == (SequenceEvent::Dropped {
            count: (k - 1) as u16,
        }),
{
}

/// A late packet (one not ahead of the latest) changes nothing: the tracker
/// still expects the successor of the latest packet.
pub proof fn lemma_late_packet_keeps_state(last: u16, seq: u16)
    requires
        classify(Some(last), seq) is Reordered,
    ensures
        next_last(Some(last), seq) == Some(last),
        classify(next_last(Some(last), seq), ((last + 1) % seq_space()) as u16)
            == SequenceEvent::InOrder,
{
}

/// A repeated sequence number is always classified as late.
pub proof fn lemma_duplicate_is_reordered(last: u16)
    ensures
        classify(Some(last), last) == SequenceEvent::Reordered,
{
}

/// `seq` moved `k` places forward, modulo 2^16.
pub open spec fn shifted(seq: u16, k: u16) -> u16 {
    ((seq + k) % seq_space()) as u16
}

/// A tracker state with its sequence number moved `k` places forward.
pub open spec fn shifted_last(last: Option<u16>, k: u16) -> Option<u16> {
    match last {
        Some(l) => Some(shifted(l, k)),
        None => None,
    }
}

/// Every number of `seqs` moved `k` places forward.
pub open spec fn shifted_all(seqs: Seq<u16>, k: u16) -> Seq<u16> {
    seqs.map_values(|s: u16| shifted(s, k))
}

/// The tracker state after observing `seqs` in order, starting from `last`.
pub open spec fn last_after(last: Option<u16>, seqs: Seq<u16>) -> Option<u16>
    decreases seqs.len(),
{
    if seqs.len() == 0 {
        last
    } else {
        next_last(last_after(last, seqs.drop_last()), seqs.last())
    }
}

/// The events reported while observing `seqs` in order, starting from `last`.
pub open spec fn events_after(last: Option<u16>, seqs: Seq<u16>) -> Seq<SequenceEvent>
    decreases seqs.len(),
{
    if seqs.len() == 0 {
        Seq::empty()
    } else {
        events_after(last, seqs.drop_last()).push(classify(last_after(last, seqs.drop_last()), seqs.last()))
    }
}

/// How far ahead one number is of another does not change when both move
/// `k` places forward.
proof fn lemma_ahead_shift(last: u16, seq: u16, k: u16)
    ensures
        seq_ahead(shifted(last, k), shifted(seq, k)) == seq_ahead(last, seq),
{
    let m = seq_space();
    let sl = (last + k) % m;
    let ss = (seq + k) % m;
    assert(sl == last + k || sl == last + k - m);
    assert(ss == seq + k || ss == seq + k - m);
}

/// One observation commutes with shifting: the shifted number, seen by the
/// shifted state, gives the same event and the shifted next state.
proof fn lemma_observe_shift(last: Option<u16>, seq: u16, k: u16)
    ensures
        classify(shifted_last(last, k), shifted(seq, k)) == classify(last, seq),
        next_last(shifted_last(last, k), shifted(seq, k)) == shifted_last(next_last(last, seq), k),
{
    if let Some(l) = last {
        lemma_ahead_shift(l, seq, k);
    }
}

/// Shifting a whole run of observations, and the state it starts from, by
/// `k` leaves every event as it was and shifts the final state.
pub proof fn lemma_run_shift(last: Option<u16>, seqs: Seq<u16>, k: u16)
    ensures
        events_after(shifted_last(last, k), shifted_all(seqs, k)) == events_after(last, seqs),
        last_after(shifted_last(last, k), shifted_all(seqs, k)) == shifted_last(last_after(last, seqs), k),
    decreases seqs.len(),
{
    if seqs.len() > 0 {
        let prefix = seqs.drop_last();
        assert(shifted_all(seqs, k).drop_last() =~= shifted_all(prefix, k));
        lemma_run_shift(last, prefix, k);
        lemma_observe_shift(last_after(last, prefix), seqs.last(), k);
    }
}

/// Classification depends only on wrapping differences, so it survives the
/// `u16` wraparound: two fresh trackers, one fed `seqs` and the other the
/// same numbers each moved `k` places forward (modulo 2^16), report the same
/// event for every packet.
pub proof fn lemma_shift_invariance(seqs: Seq<u16>, k: u16)
    ensures
        events_after(None, shifted_all(seqs, k)) == events_after(None, seqs),
{
    lemma_run_shift(None, seqs, k);
}

/// How a packet is classified, by its wrapping distance `d` from the last
/// accepted one (`seq - last` modulo 2^16): `d == 1` is in order; `2 <= d <
/// 2^15` reports `d - 1` dropped packets; `d == 0` or `d >= 2^15` (the
/// distance read as a signed 16-bit number is not positive) is a late packet,
/// which leaves the tracker's latest number as it was.
pub proof fn lemma_classify_by_distance(last: u16, seq: u16)
    ensures
        ({
            let d = (seq - last + 0x10000) % 0x10000;
            &&& d == 1 ==> classify(Some(last), seq) == SequenceEvent::InOrder && next_last(
                Some(last),
                seq,
            ) == Some(seq)
            &&& 2 <= d <= 0x7fff ==> classify(Some(last), seq) == (SequenceEvent::Dropped {
                count: (d - 1) as u16,
            }) && next_last(Some(last), seq) == Some(seq)
            &&& (d == 0 || d >= 0x8000) ==> classify(Some(last), seq) == SequenceEvent::Reordered
                && next_last(Some(last), seq) == Some(last)
        }),
{
    let d = (seq - last + 0x10000) % 0x10000;
    if seq >= last {
        assert(d == seq - last);
    } else {
        assert(d == seq - last + 0x10000);
    }
}

} // verus!
