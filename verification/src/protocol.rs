//! The whole ring as a transition system.
//!
//! A [`RingState`] holds every worker, every mailbox and the tally. One
//! step lets one worker's pending action happen and hands the worker the
//! event, which it takes in as [`WorkerView::respond`] says: the same
//! function that [`crate::worker::Worker::handle`] is proved to compute.
//! Any interleaving of the workers is a sequence of such steps, a
//! [`schedule`](valid_schedule).
//!
//! A token is in a mailbox from the step in which the worker hands it in.
//! Where the send is a task that nobody waits for, the scheduler decides
//! when that task runs, so the tokens of one mailbox may come out in any
//! order; everywhere else they come out in the order in which they went
//! in. Where somebody waits for the send (see [`Profile::waits_for_room`])
//! the worker hands the token in with one step and goes on with another,
//! which can happen only when the mailbox holds no more than its buffer.

use vstd::prelude::*;
use crate::cycle::successor;
use crate::profile::{Forwarding, Profile};
use crate::worker::{Event, Phase, WorkerView};

verus! {

/// The index of the station before `i` in a ring of `n`.
pub open spec fn predecessor(i: int, n: int) -> int {
    if i == 0 {
        n - 1
    } else {
        i - 1
    }
}

/// One step of a run: the worker that takes it and, where that worker
/// receives a token, which of the tokens in its mailbox it gets, counted
/// from the oldest.
pub struct Move {
    pub worker: int,
    pub pick: int,
}

pub struct RingState {
    /// The number of workers.
    pub size: nat,
    pub profile: Profile,
    /// The workers, the one at position `i + 1` at index `i`.
    pub workers: Seq<WorkerView>,
    /// For each worker the tokens in its inbound mailbox, oldest first.
    pub inboxes: Seq<Seq<usize>>,
    /// For each worker whether it has closed its outbound mailbox.
    pub closed: Seq<bool>,
    /// For each worker whether it has handed in a token and waits for the
    /// mailbox to have room again.
    pub flushing: Seq<bool>,
    /// What the shared tally holds.
    pub tally: int,
    /// How many completion signals have been sent.
    pub signals: nat,
}

impl RingState {
    /// The ring as it is launched: every worker about to send its first
    /// token, every mailbox empty and open, the tally at zero.
    pub open spec fn initial(size: nat, profile: Profile) -> RingState {
        RingState {
            size,
            profile,
            workers: Seq::new(size, |i: int| WorkerView::fresh((i + 1) as nat, size, profile)),
            inboxes: Seq::new(size, |i: int| Seq::<usize>::empty()),
            closed: Seq::new(size, |i: int| false),
            flushing: Seq::new(size, |i: int| false),
            tally: 0,
            signals: 0,
        }
    }

    pub open spec fn phase(self, i: int) -> Phase {
        self.workers[i].phase
    }

    /// The index of the worker after `i`.
    pub open spec fn next(self, i: int) -> int {
        successor(i, self.size as int)
    }

    /// The index of the worker before `i`.
    pub open spec fn before(self, i: int) -> int {
        predecessor(i, self.size as int)
    }

    /// Whether worker `i` is about to hand a token in, and will have to
    /// wait for room afterwards.
    pub open spec fn hands_in(self, i: int) -> bool {
        self.phase(i) is Sending && self.profile.waits_for_room() && !self.flushing[i]
    }

    /// Whether token number `pick` of the inbound mailbox of worker `i` can
    /// be the next to come out.
    pub open spec fn deliverable(self, i: int, pick: int) -> bool {
        &&& 0 <= pick < self.inboxes[i].len()
        &&& self.profile.forwarding != Forwarding::Detached ==> pick == 0
    }

    /// Whether the step `m` can happen now. A worker that listens may have
    /// to wait for a token, or for its predecessor to close the mailbox;
    /// one that has handed in a token may have to wait for room. A retired
    /// worker does nothing.
    pub open spec fn enabled(self, m: Move) -> bool {
        &&& 0 <= m.worker < self.size
        &&& match self.phase(m.worker) {
            Phase::Sending(_) => !self.flushing[m.worker] || self.inboxes[self.next(
                m.worker,
            )].len() <= self.profile.buffer(),
            Phase::Listening => if self.inboxes[m.worker].len() > 0 {
                self.deliverable(m.worker, m.pick)
            } else {
                self.closed[self.before(m.worker)]
            },
            Phase::Retired => false,
            _ => true,
        }
    }

    /// What the worker is told once the pending action of the step `m` has
    /// happened.
    pub open spec fn outcome(self, m: Move) -> Event {
        match self.phase(m.worker) {
            Phase::Sending(_) => Event::Emitted,
            Phase::Listening => if self.inboxes[m.worker].len() > 0 {
                Event::Delivered(Some(self.inboxes[m.worker][m.pick]))
            } else {
                Event::Delivered(None)
            },
            Phase::Counting => Event::Counted(self.tally as usize),
            Phase::Signalling => Event::Signalled,
            Phase::Closing => Event::Closed,
            Phase::Leaving => Event::Left(self.tally as usize),
            Phase::Announcing => Event::Signalled,
            Phase::Retired => Event::Closed,
        }
    }

    /// Whether the step `m` would fail: the worker is handed a token larger
    /// than the ring, or it sends into a mailbox that is closed or whose
    /// receiver has retired.
    pub open spec fn fails(self, m: Move) -> bool {
        ||| !self.hands_in(m.worker) && self.workers[m.worker].respond(self.outcome(m)) is Err
        ||| self.phase(m.worker) is Sending && !self.flushing[m.worker] && (self.closed[m.worker]
            || self.phase(self.next(m.worker)) == Phase::Retired)
    }

    /// The ring after the step `m`: the pending action of the worker has
    /// happened and the worker has taken in the event; or it has handed in
    /// a token and waits for room.
    pub open spec fn step(self, m: Move) -> RingState {
        let i = m.worker;
        let worker = self.workers[i];
        let next = self.next(i);
        RingState {
            size: self.size,
            profile: self.profile,
            workers: if self.hands_in(i) {
                self.workers
            } else {
                match worker.respond(self.outcome(m)) {
                    Ok(moved) => self.workers.update(i, moved),
                    Err(_) => self.workers,
                }
            },
            inboxes: match worker.phase {
                Phase::Sending(token) => if self.flushing[i] {
                    self.inboxes
                } else {
                    self.inboxes.update(next, self.inboxes[next].push(token))
                },
                Phase::Listening => if self.inboxes[i].len() > 0 {
                    self.inboxes.update(i, self.inboxes[i].remove(m.pick))
                } else {
                    self.inboxes
                },
                _ => self.inboxes,
            },
            closed: if worker.phase == Phase::Closing {
                self.closed.update(i, true)
            } else {
                self.closed
            },
            flushing: self.flushing.update(i, self.hands_in(i)),
            tally: match worker.phase {
                Phase::Counting => self.tally + 1,
                Phase::Leaving => self.tally - 1,
                _ => self.tally,
            },
            signals: if worker.phase == Phase::Signalling || worker.phase == Phase::Announcing {
                self.signals + 1
            } else {
                self.signals
            },
        }
    }

    /// Every worker has retired.
    pub open spec fn finished(self) -> bool {
        forall|i: int| 0 <= i < self.size ==> #[trigger] self.phase(i) == Phase::Retired
    }

    /// Some step can happen.
    pub open spec fn can_move(self) -> bool {
        exists|m: Move| #[trigger] self.enabled(m)
    }
}

/// The ring after the steps of `schedule`, in that order.
pub open spec fn run(start: RingState, schedule: Seq<Move>) -> RingState
    decreases schedule.len(),
{
    if schedule.len() == 0 {
        start
    } else {
        run(start, schedule.drop_last()).step(schedule.last())
    }
}

/// Every step of `schedule` can happen when its turn comes.
pub open spec fn valid_schedule(start: RingState, schedule: Seq<Move>) -> bool
    decreases schedule.len(),
{
    schedule.len() > 0 ==> {
        &&& valid_schedule(start, schedule.drop_last())
        &&& run(start, schedule.drop_last()).enabled(schedule.last())
    }
}

} // verus!
