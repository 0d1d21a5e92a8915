//! Latest-frame transport between the producer context and the consumer
//! context. The producer pushes every completed frame without ever blocking;
//! the consumer drains the queue without blocking and keeps only the newest
//! frame, discarding the stale ones. The queue itself is a crossbeam channel;
//! its per-operation behaviour is trusted, the drain policies on top of it
//! are verified.

use vstd::prelude::*;
use crossbeam_channel::Receiver;
use crossbeam_channel::Sender;

verus! {

/// The frames queued in the channel, oldest first.
pub uninterp spec fn channel_frames(c: LatestFrameChannel) -> Seq<Seq<u8>>;

/// Unbounded frame queue from the producer context to the consumer context.
/// It owns both endpoints, so no other party can observe or disturb the
/// queue: sends cannot fail and the drained order is exactly the push order.
#[verifier::external_body]
pub struct LatestFrameChannel {
    sender: Sender<Vec<u8>>,
    receiver: Receiver<Vec<u8>>,
}

impl LatestFrameChannel {
    /// Relies on crossbeam_channel::unbounded: a fresh channel holds no
    /// messages.
    #[verifier::external_body]
    pub fn new() -> (c: LatestFrameChannel)
        ensures
            channel_frames(c) == Seq::<Seq<u8>>::empty(),
    {
        let (sender, receiver) = crossbeam_channel::unbounded();
        LatestFrameChannel { sender, receiver }
    }

    /// Relies on crossbeam_channel::Sender::send: on a channel with unbounded
    /// capacity it appends the message without blocking, and fails only when
    /// every receiver is gone — this value owns its receiver, so the send
    /// always succeeds.
    #[verifier::external_body]
    pub fn push(&mut self, frame: Vec<u8>)
        ensures
            channel_frames(*final(self)) == channel_frames(*old(self)).push(frame@),
    {
        self.sender
            .send(frame)
            .expect("send on an owned, undisconnected channel");
    }

    /// Relies on crossbeam_channel::Receiver::try_recv: without blocking it
    /// takes the oldest queued message, or reports the queue empty — never
    /// disconnected, since this value owns its sender.
    #[verifier::external_body]
    fn try_pop(&mut self) -> (r: Option<Vec<u8>>)
        ensures
            channel_frames(*old(self)).len() == 0 ==> r is None && channel_frames(*final(self))
                == channel_frames(*old(self)),
            channel_frames(*old(self)).len() > 0 ==> (r matches Some(frame)
                && frame@ == channel_frames(*old(self))[0] && channel_frames(*final(self))
                == channel_frames(*old(self)).drop_first()),
    {
        self.receiver.try_recv().ok()
    }

    /// Drains the queue without blocking and returns the newest frame that
    /// was pending, or nothing if the queue was empty: a consumer that has
    /// fallen behind sees only the latest frame, never a stale one.
    pub fn drain_latest(&mut self) -> (r: Option<Vec<u8>>)
        ensures
            channel_frames(*final(self)).len() == 0,
            channel_frames(*old(self)).len() == 0 ==> r is None,
            channel_frames(*old(self)).len() > 0 ==> (r matches Some(frame)
                && frame@ == channel_frames(*old(self)).last()),
    {
        let ghost pending = channel_frames(*self);
        let mut latest: Option<Vec<u8>> = None;
        let ghost mut i: int = 0;
        proof {
            assert(channel_frames(*self) =~= pending.subrange(0, pending.len() as int));
        }
        loop
            invariant
                0 <= i <= pending.len(),
                channel_frames(*self) == pending.subrange(i, pending.len() as int),
                i == 0 ==> latest is None,
                i > 0 ==> (latest matches Some(frame) && frame@ == pending[i - 1]),
            ensures
                channel_frames(*self).len() == 0,
                pending.len() == 0 ==> latest is None,
                pending.len() > 0 ==> (latest matches Some(frame)
                    && frame@ == pending.last()),
            decreases pending.len() - i,
        {
            match self.try_pop() {
                Some(frame) => {
                    proof {
                        assert(channel_frames(*self)
                            =~= pending.subrange(i + 1, pending.len() as int));
                    }
                    latest = Some(frame);
                    proof {
                        i = i + 1;
                    }
                }
                None => {
                    break;
                }
            }
        }
        latest
    }

    /// Drains the queue without blocking and discards everything that was
    /// pending: frames produced while the capture is not yet accepting are
    /// thrown away unseen.
    pub fn drain_and_discard(&mut self)
        ensures
            channel_frames(*final(self)).len() == 0,
    {
        let ghost pending = channel_frames(*self);
        let ghost mut i: int = 0;
        proof {
            assert(channel_frames(*self) =~= pending.subrange(0, pending.len() as int));
        }
        loop
            invariant
                0 <= i <= pending.len(),
                channel_frames(*self) == pending.subrange(i, pending.len() as int),
            ensures
                channel_frames(*self).len() == 0,
            decreases pending.len() - i,
        {
            match self.try_pop() {
                Some(_) => {
                    proof {
                        assert(channel_frames(*self)
                            =~= pending.subrange(i + 1, pending.len() as int));
                        i = i + 1;
                    }
                }
                None => {
                    break;
                }
            }
        }
    }
}

} // verus!
