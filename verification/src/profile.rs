//! How a ring is scheduled. The protocol is the same for every scheduler;
//! a [`Profile`] records the choices in which the variants differ.

use vstd::prelude::*;

verus! {

/// How many tokens a mailbox takes before a sender has to wait.
#[derive(Clone, Copy, Debug, PartialEq, Eq, Structural)]
pub enum Capacity {
    /// A send never waits.
    Unbounded,
    /// `buffer` shared slots, and one more for each sender.
    Bounded(usize),
}

/// How a worker gets a token into its outbound mailbox.
#[derive(Clone, Copy, Debug, PartialEq, Eq, Structural)]
pub enum Forwarding {
    /// The worker sends it itself, without waiting.
    Inline,
    /// The send is handed to the scheduler and not waited for.
    Detached,
    /// The send is handed to the scheduler and the worker waits for it.
    Awaited,
}

/// Where the scheduler may run a task.
#[derive(Clone, Copy, Debug, PartialEq, Eq, Structural)]
pub enum Locality {
    /// On any thread of a pool.
    Pooled,
    /// Only on the thread that launched it.
    Confined,
}

/// How the ring's driver learns that the run is over.
#[derive(Clone, Copy, Debug, PartialEq, Eq, Structural)]
pub enum Completion {
    /// The worker that counts the last lap sends the completion signal.
    LastLap,
    /// Every worker checks out after closing its mailbox; the last one to
    /// check out sends the completion signal.
    LastExit,
    /// No signal is sent: the driver waits for every worker's task.
    Joined,
}

#[derive(Clone, Copy, Debug, PartialEq, Eq, Structural)]
pub struct Profile {
    pub capacity: Capacity,
    pub forwarding: Forwarding,
    pub locality: Locality,
    pub completion: Completion,
}

/// The largest `buffer` a bounded mailbox can be made with, exclusive.
pub open spec fn buffer_limit() -> int {
    (usize::MAX as int) / 4
}

impl Capacity {
    /// Whether a mailbox of this capacity can be made.
    pub open spec fn constructible(self) -> bool {
        self matches Capacity::Bounded(buffer) ==> buffer < buffer_limit()
    }
}

impl Profile {
    /// Whether a worker that has sent a token goes on only when the mailbox
    /// has room again: the mailbox is bounded and somebody waits for the
    /// send.
    pub open spec fn waits_for_room(self) -> bool {
        self.capacity is Bounded && self.forwarding != Forwarding::Detached
    }

    /// The tokens that a mailbox holds without making a sender wait.
    pub open spec fn buffer(self) -> nat {
        match self.capacity {
            Capacity::Bounded(buffer) => buffer as nat,
            Capacity::Unbounded => 0,
        }
    }

    /// Whether a ring of this profile cannot get stuck: where workers wait
    /// for room, a mailbox must take one token without making its sender
    /// wait. Without that, every worker may wait for its first token to be
    /// taken by a successor that waits in the same way.
    pub open spec fn roomy(self) -> bool {
        self.waits_for_room() ==> self.buffer() >= 1
    }

    pub fn is_roomy(&self) -> (b: bool)
        ensures
            b == self.roomy(),
    {
        match self.capacity {
            Capacity::Unbounded => true,
            Capacity::Bounded(buffer) => self.forwarding == Forwarding::Detached || buffer >= 1,
        }
    }
}

} // verus!
