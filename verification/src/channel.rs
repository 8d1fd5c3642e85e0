//! A same-thread, ordered message queue for scoring events.
//!
//! Boundary-exit detection and score aggregation are decoupled: the
//! detector sends point values on a channel, and the aggregator drains
//! them once per frame.  The channel is a plain FIFO queue; its view is
//! the sequence of pending messages, oldest first.

use vstd::prelude::*;

verus! {

/// An ordered queue of pending scoring messages (point values).
#[derive(Debug, PartialEq, Eq)]
pub struct ScoreChannel {
    pending: Vec<u64>,
}

impl View for ScoreChannel {
    type V = Seq<u64>;

    /// The pending messages, oldest first.
    closed spec fn view(&self) -> Seq<u64> {
        self.pending@
    }
}

impl ScoreChannel {
    /// An empty channel.
    pub fn new() -> (c: ScoreChannel)
        ensures
            c@ == Seq::<u64>::empty(),
    {
        ScoreChannel { pending: Vec::new() }
    }

    /// Number of pending messages.
    pub fn len(&self) -> (n: usize)
        ensures
            n == self@.len(),
    {
        self.pending.len()
    }

    /// Append one message at the back of the queue.
    pub fn send(&mut self, points: u64)
        ensures
            final(self)@ == old(self)@.push(points),
    {
        self.pending.push(points);
    }

    /// Take the oldest pending message, if any.
    pub fn try_recv(&mut self) -> (m: Option<u64>)
        ensures
            old(self)@.len() == 0 ==> m is None && final(self)@ == old(self)@,
            old(self)@.len() > 0 ==> m == Some(old(self)@[0]) && final(self)@ == old(self)@.drop_first(),
    {
        if self.pending.len() == 0 {
            None
        } else {
            let ghost pre = self.pending@;
            let m = self.pending.remove(0);
            proof {
                assert(self.pending@ =~= pre.drop_first());
            }
            Some(m)
        }
    }
}

} // verus!
