//! The tokio channels that connect the driver to connection tasks, and the
//! frames the driver hands them.
//!
//! Both sender types are opaque here. Which frame goes to which Device, on
//! which sender, is decided in verified code and returned as `Delivery`
//! values; `deliver_all` then performs the sends, one per delivery, each
//! acknowledged by a receipt that only the send itself can make.
use vstd::prelude::*;
use vstd::pervasive::cloned;
use crate::common::buf::bytes_view;
use crate::ecs::outbox::{send_outbound, Sent};
use crate::ecs::storage::EntityRecord;

verus! {

#[verifier::external_type_specification]
#[verifier::external_body]
#[verifier::reject_recursive_types(T)]
pub struct ExUnboundedSender<T>(tokio::sync::mpsc::UnboundedSender<T>);

#[verifier::external_type_specification]
#[verifier::external_body]
#[verifier::reject_recursive_types(T)]
pub struct ExOneshotSender<T>(tokio::sync::oneshot::Sender<T>);

/// One frame for one Device, and the sender of that Device's outbound
/// channel it goes on.
pub struct Delivery {
    pub to: hecs::Entity,
    pub channel: tokio::sync::mpsc::UnboundedSender<bytes::Bytes>,
    pub frame: bytes::Bytes,
}

/// `ds` carries `frame` once to each entity of `targets` and to nothing else,
/// each time on a clone of that entity's own outbound sender in `m`.
pub open spec fn delivers_exactly(
    m: Map<hecs::Entity, EntityRecord>,
    ds: Seq<Delivery>,
    targets: Set<hecs::Entity>,
    frame: Seq<u8>,
) -> bool {
    &&& forall|i: int, j: int| 0 <= i < j < ds.len() ==> #[trigger] ds[i].to != #[trigger] ds[j].to
    &&& forall|i: int|
        0 <= i < ds.len() ==> {
            &&& targets.contains(#[trigger] ds[i].to)
            &&& bytes_view(ds[i].frame) == frame
            &&& m[ds[i].to].outbound matches Some(tx) && cloned(tx, ds[i].channel)
        }
    &&& forall|e: hecs::Entity|
        #[trigger] targets.contains(e) ==> exists|i: int| 0 <= i < ds.len() && (#[trigger] ds[i]).to == e
}

/// Sends each delivery's frame on its channel, in order, once each. The
/// receipts name the Devices, in the order of `deliveries`.
pub fn deliver_all(deliveries: Vec<Delivery>) -> (sent: Vec<Sent>)
    ensures
        sent@.len() == deliveries@.len(),
        forall|i: int| 0 <= i < sent@.len() ==> #[trigger] sent@[i].recipient() == deliveries@[i].to,
{
    let ghost ds = deliveries@;
    let mut rest = deliveries;
    let mut sent: Vec<Sent> = Vec::new();
    while rest.len() > 0
        invariant
            sent@.len() + rest@.len() == ds.len(),
            rest@ == ds.skip(sent@.len() as int),
            forall|i: int| 0 <= i < sent@.len() ==> #[trigger] sent@[i].recipient() == ds[i].to,
        decreases rest.len(),
    {
        let ghost k = sent@.len() as int;
        let d = rest.remove(0);
        assert(d == ds[k]);
        assert(rest@ =~= ds.skip(k + 1));
        let s = send_outbound(d);
        sent.push(s);
    }
    sent
}

/// Planned deliveries, once handed out with one receipt each, reach every
/// target exactly once: each entity of `targets` is named by exactly one
/// receipt, and no receipt names anything else.
pub proof fn lemma_each_target_handed_once(
    m: Map<hecs::Entity, EntityRecord>,
    ds: Seq<Delivery>,
    targets: Set<hecs::Entity>,
    frame: Seq<u8>,
    sent: Seq<Sent>,
)
    requires
        delivers_exactly(m, ds, targets, frame),
        sent.len() == ds.len(),
        forall|i: int| 0 <= i < sent.len() ==> #[trigger] sent[i].recipient() == ds[i].to,
    ensures
        forall|i: int| 0 <= i < sent.len() ==> targets.contains(#[trigger] sent[i].recipient()),
        forall|e: hecs::Entity|
            #[trigger] targets.contains(e) ==> exists|i: int| 0 <= i < sent.len() && (#[trigger] sent[i]).recipient() == e,
        forall|i: int, j: int|
            0 <= i < j < sent.len() ==> #[trigger] sent[i].recipient() != #[trigger] sent[j].recipient(),
{
    assert forall|i: int| 0 <= i < sent.len() implies targets.contains(#[trigger] sent[i].recipient()) by {
        assert(targets.contains(ds[i].to));
    }
    assert forall|e: hecs::Entity| #[trigger] targets.contains(e) implies exists|i: int|
        0 <= i < sent.len() && (#[trigger] sent[i]).recipient() == e by {
        let i = choose|i: int| 0 <= i < ds.len() && (#[trigger] ds[i]).to == e;
        assert(sent[i].recipient() == e);
    }
    assert forall|i: int, j: int| 0 <= i < j < sent.len() implies #[trigger] sent[i].recipient()
        != #[trigger] sent[j].recipient() by {
        assert(ds[i].to != ds[j].to);
    }
}

} // verus!
