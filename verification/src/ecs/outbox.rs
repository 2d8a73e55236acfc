//! The two sends the driver makes, and the receipts that only they hand out.
//!
//! A `Sent` or `Replied` value can be made by nothing but the send it
//! acknowledges, so code that must return one receipt per frame has to make
//! one send per frame.
use vstd::prelude::*;
use crate::ecs::channels::Delivery;

verus! {

/// Receipt of one frame handed to a Device's outbound channel.
pub struct Sent {
    to: hecs::Entity,
}

impl Sent {
    /// The Device the frame was for.
    pub closed spec fn recipient(self) -> hecs::Entity {
        self.to
    }
}

/// Receipt of one reply handed to the task waiting for it.
pub struct Replied {
    done: bool,
}

/// `UnboundedSender::send`: queues the delivery's frame on its channel, for
/// the connection task that owns the receiver, and acknowledges it with a
/// receipt naming the delivery's Device. A closed channel is ignored, as a
/// gone peer is.
#[verifier::external_body]
pub(crate) fn send_outbound(d: Delivery) -> (s: Sent)
    ensures
        s.recipient() == d.to,
{
    let _ = d.channel.send(d.frame);
    Sent { to: d.to }
}

/// `oneshot::Sender::send`: hands `value` to the task waiting for the reply,
/// and acknowledges it with a receipt. A caller that stopped waiting is
/// ignored.
#[verifier::external_body]
pub(crate) fn send_reply<T>(reply: tokio::sync::oneshot::Sender<T>, value: T) -> (r: Replied) {
    let _ = reply.send(value);
    Replied { done: true }
}

} // verus!
