//! One-shot rendezvous between the device's completion callback and the
//! producer context. Mapping a staging buffer completes asynchronously: the
//! producer requests the mapping, prompts the device to make progress, and
//! then blocks until the completion callback hands over the mapped bytes
//! through this rendezvous — a channel of capacity one, used once per map
//! operation. Forwarding the received bytes into the frame transport, and
//! doing so on every path, is verified on top of it.

use vstd::prelude::*;
use crossbeam_channel::Receiver;
use crossbeam_channel::Sender;
use crate::channel::channel_frames;
use crate::channel::LatestFrameChannel;

verus! {

/// The value handed off through the rendezvous, if one is pending.
pub uninterp spec fn rendezvous_slot(r: MapRendezvous) -> Option<Seq<u8>>;

/// One-shot, single-value handoff: the completion callback is the only
/// producer, the mapping context the only consumer, and the slot holds at
/// most one value. It owns both endpoints, so nothing else can fill or
/// empty the slot.
#[verifier::external_body]
pub struct MapRendezvous {
    sender: Sender<Vec<u8>>,
    receiver: Receiver<Vec<u8>>,
}

impl MapRendezvous {
    /// Relies on crossbeam_channel::bounded with capacity one: a fresh
    /// channel holds no message.
    #[verifier::external_body]
    pub fn new() -> (r: MapRendezvous)
        ensures
            rendezvous_slot(r) is None,
    {
        let (sender, receiver) = crossbeam_channel::bounded(1);
        MapRendezvous { sender, receiver }
    }

    /// Fires the completion: the mapped bytes fill the empty slot. Relies on
    /// crossbeam_channel::Sender::try_send: on a channel of capacity one
    /// holding no message it delivers the message without blocking.
    #[verifier::external_body]
    pub fn complete(&mut self, bytes: Vec<u8>)
        requires
            rendezvous_slot(*old(self)) is None,
        ensures
            rendezvous_slot(*final(self)) == Some(bytes@),
    {
        self.sender
            .try_send(bytes)
            .expect("one-shot send into an empty rendezvous");
    }

    /// Takes the value out of the filled slot, leaving it empty for nothing:
    /// a rendezvous is used once. Relies on crossbeam_channel::Receiver::recv:
    /// it returns the queued message, and with the slot known to be filled it
    /// does not block.
    #[verifier::external_body]
    pub fn wait(&mut self) -> (bytes: Vec<u8>)
        requires
            rendezvous_slot(*old(self)) is Some,
        ensures
            Some(bytes@) == rendezvous_slot(*old(self)),
            rendezvous_slot(*final(self)) is None,
    {
        self.receiver.recv().expect("receive from a completed rendezvous")
    }
}

/// The producer-side bridge step after the device signalled completion:
/// takes the mapped bytes out of the rendezvous and pushes them, as one
/// owned frame, into the transport to the consumer context. The rendezvous
/// is left empty on every path, ready to be dropped before the buffer is
/// unmapped.
pub fn forward_mapped_bytes(rendezvous: &mut MapRendezvous, channel: &mut LatestFrameChannel)
    requires
        rendezvous_slot(*old(rendezvous)) is Some,
    ensures
        rendezvous_slot(*final(rendezvous)) is None,
        channel_frames(*final(channel)) == channel_frames(*old(channel)).push(
            rendezvous_slot(*old(rendezvous)).unwrap(),
        ),
{
    let bytes = rendezvous.wait();
    channel.push(bytes);
}

} // verus!
