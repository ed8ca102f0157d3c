//! The single-slot readiness signal between the supervisor and the network
//! consumer: a bounded channel of capacity one carrying an opaque token.
//!
//! A send into the full slot is never an overwrite and never a drop: it is
//! simply not accepted, which models the sending task suspending until the
//! consumer has drained the slot (backpressure). A receive from the empty
//! slot is likewise not fulfilled, which models the consumer suspending.

use vstd::prelude::*;

verus! {

/// The capacity-one channel. `occupied` says whether the one slot holds the
/// (opaque, unit-valued) readiness token.
pub struct ReadinessChannel {
    pub occupied: bool,
}

/// What one send attempt does: the slot fills if it was free; a token already
/// there stays where it is and the attempt is not accepted.
pub open spec fn spec_send(c: ReadinessChannel) -> (ReadinessChannel, bool) {
    (ReadinessChannel { occupied: true }, !c.occupied)
}

/// What one receive attempt does: the slot drains if it held the token; an
/// attempt on the empty slot is not fulfilled.
pub open spec fn spec_receive(c: ReadinessChannel) -> (ReadinessChannel, bool) {
    (ReadinessChannel { occupied: false }, c.occupied)
}

/// How many tokens the channel holds.
pub open spec fn tokens(c: ReadinessChannel) -> nat {
    if c.occupied {
        1
    } else {
        0
    }
}

impl ReadinessChannel {
    /// The channel starts empty, before any task that touches it runs.
    pub fn new() -> (c: Self)
        ensures
            !c.occupied,
    {
        ReadinessChannel { occupied: false }
    }

    /// One send attempt. `accepted == false` means the token was not taken
    /// and the sending task stays suspended; it must try again after the
    /// consumer drains the slot.
    pub fn try_send(&mut self) -> (accepted: bool)
        ensures
            (*final(self), accepted) == spec_send(*old(self)),
            final(self).occupied,
            accepted == !old(self).occupied,
    {
        let accepted = !self.occupied;
        self.occupied = true;
        accepted
    }

    /// One receive attempt. `received == false` means the slot was empty and
    /// the consuming task stays suspended until a token arrives.
    pub fn try_receive(&mut self) -> (received: bool)
        ensures
            (*final(self), received) == spec_receive(*old(self)),
            !final(self).occupied,
            received == old(self).occupied,
    {
        let received = self.occupied;
        self.occupied = false;
        received
    }
}

/// Capacity-one backpressure law: the channel never holds more than one
/// token; a send into the free slot is accepted; a second send before any
/// receive is not, so the sender waits; a receive from the empty slot is not
/// fulfilled, so the receiver waits; and once the receiver drains the slot,
/// the suspended sender's retry is accepted.
pub proof fn lemma_capacity_one_backpressure(c: ReadinessChannel)
    ensures
        tokens(c) <= 1,
        !c.occupied ==> spec_send(c).1,
        !spec_send(spec_send(c).0).1,
        !c.occupied ==> !spec_receive(c).1,
        spec_receive(spec_send(c).0).1,
        spec_send(spec_receive(spec_send(c).0).0).1,
{
}

} // verus!
