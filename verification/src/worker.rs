//! One worker of the ring, as a state machine.
//!
//! A worker never waits by itself. It names the next thing to be done for
//! it, an [`Action`]; whoever runs the worker does it and reports back with
//! the matching [`Event`]; [`Worker::handle`] then moves the worker on and
//! names the next action. What happens on each event is `respond`, and the
//! executable code is proved to do exactly that.

use vstd::prelude::*;
use crate::error::RingError;
use crate::profile::{Completion, Profile};

verus! {

/// Where a worker stands in its life.
#[derive(Clone, Copy, Debug, PartialEq, Eq, Structural)]
pub enum Phase {
    /// A token is on its way into the outbound mailbox: the first one, or
    /// one that is passed on.
    Sending(usize),
    /// Waiting for the inbound mailbox.
    Listening,
    /// A token has come back after a full lap and is being counted.
    Counting,
    /// This worker counted the last lap and is sending the completion signal.
    Signalling,
    /// The receive loop is over and the outbound mailbox is being closed.
    Closing,
    /// The mailbox is closed and the worker is checking out.
    Leaving,
    /// This worker checked out last and is sending the completion signal.
    Announcing,
    /// Nothing is left to do.
    Retired,
}

/// What has to be done for a worker next.
#[derive(Clone, Copy, Debug, PartialEq, Eq, Structural)]
pub enum Action {
    /// Put this token into the outbound mailbox.
    Emit(usize),
    /// Take the next token from the inbound mailbox.
    Receive,
    /// Add one to the shared tally and report what it held before.
    Count,
    /// Send the completion signal.
    Signal,
    /// Close the outbound mailbox.
    Close,
    /// Take one from the shared tally and report what it held before.
    Leave,
    /// Nothing: the worker's task ends.
    Retire,
}

/// What came of an action.
#[derive(Clone, Copy, Debug, PartialEq, Eq)]
pub enum Event {
    /// The token is in the outbound mailbox, or on its way there.
    Emitted,
    /// The inbound mailbox gave a token, or `None` once it is closed and
    /// empty.
    Delivered(Option<usize>),
    /// The tally was raised; it held this value before.
    Counted(usize),
    /// The completion signal is sent.
    Signalled,
    /// The outbound mailbox is closed.
    Closed,
    /// The tally was lowered; it held this value before.
    Left(usize),
}

/// A worker as the contracts see it.
pub struct WorkerView {
    /// Its place in the ring, counted from one.
    pub position: nat,
    /// The number of workers in the ring.
    pub ring_size: nat,
    /// How the ring it belongs to is scheduled.
    pub profile: Profile,
    pub phase: Phase,
}

/// The action that a worker in `phase` waits on.
pub open spec fn pending(phase: Phase) -> Action {
    match phase {
        Phase::Sending(token) => Action::Emit(token),
        Phase::Listening => Action::Receive,
        Phase::Counting => Action::Count,
        Phase::Signalling => Action::Signal,
        Phase::Closing => Action::Close,
        Phase::Leaving => Action::Leave,
        Phase::Announcing => Action::Signal,
        Phase::Retired => Action::Retire,
    }
}

/// Whether the count that found `before` on the tally was the last one of
/// a ring of `ring_size` workers.
pub open spec fn is_last_lap(ring_size: nat, before: usize) -> bool {
    before + 1 == ring_size
}

/// Whether the worker that found `before` on the tally when it checked out
/// was the last one to do so.
pub open spec fn is_last_exit(before: usize) -> bool {
    before == 1
}

/// The phase after a token arrived at a listening worker: a token that has
/// made its lap is counted, a smaller one is passed on, one larger.
pub open spec fn after_token(ring_size: nat, token: usize) -> Result<Phase, RingError> {
    if token > ring_size {
        Err(RingError::TokenOutOfRange { token, ring_size: ring_size as usize })
    } else if token == ring_size {
        Ok(Phase::Counting)
    } else {
        Ok(Phase::Sending((token + 1) as usize))
    }
}

/// The phase after a lap was counted.
pub open spec fn after_count(ring_size: nat, completion: Completion, before: usize) -> Phase {
    if !is_last_lap(ring_size, before) {
        Phase::Listening
    } else if completion == Completion::LastLap {
        Phase::Signalling
    } else {
        Phase::Closing
    }
}

/// The phase that `event` takes a worker to, or the error it is refused
/// with. An event is refused when it does not answer `pending(phase)`.
pub open spec fn next_phase(
    ring_size: nat,
    completion: Completion,
    phase: Phase,
    event: Event,
) -> Result<Phase, RingError> {
    match (phase, event) {
        (Phase::Sending(_), Event::Emitted) => Ok(Phase::Listening),
        (Phase::Listening, Event::Delivered(Some(token))) => after_token(ring_size, token),
        (Phase::Listening, Event::Delivered(None)) => Ok(Phase::Closing),
        (Phase::Counting, Event::Counted(before)) => Ok(after_count(ring_size, completion, before)),
        (Phase::Signalling, Event::Signalled) => Ok(Phase::Closing),
        (Phase::Closing, Event::Closed) => Ok(
            if completion == Completion::LastExit {
                Phase::Leaving
            } else {
                Phase::Retired
            },
        ),
        (Phase::Leaving, Event::Left(before)) => Ok(
            if is_last_exit(before) {
                Phase::Announcing
            } else {
                Phase::Retired
            },
        ),
        (Phase::Announcing, Event::Signalled) => Ok(Phase::Retired),
        _ => Err(RingError::UnexpectedEvent),
    }
}

impl WorkerView {
    /// The same worker in another phase.
    pub open spec fn at(self, phase: Phase) -> WorkerView {
        WorkerView { phase, ..self }
    }

    /// The worker after `event`, or the error that `event` is refused with.
    pub open spec fn respond(self, event: Event) -> Result<WorkerView, RingError> {
        match next_phase(self.ring_size, self.profile.completion, self.phase, event) {
            Ok(phase) => Ok(self.at(phase)),
            Err(e) => Err(e),
        }
    }

    /// A worker as it is made: about to send its first token.
    pub open spec fn fresh(position: nat, ring_size: nat, profile: Profile) -> WorkerView {
        WorkerView { position, ring_size, profile, phase: Phase::Sending(1) }
    }
}

/// The state of one worker: who it is, and how far it has come.
#[derive(Clone, Copy, Debug)]
pub struct Worker {
    position: usize,
    ring_size: usize,
    profile: Profile,
    phase: Phase,
}

impl View for Worker {
    type V = WorkerView;

    closed spec fn view(&self) -> WorkerView {
        WorkerView {
            position: self.position as nat,
            ring_size: self.ring_size as nat,
            profile: self.profile,
            phase: self.phase,
        }
    }
}

impl Worker {
    /// The worker at `position` of a ring of `ring_size`, about to send its
    /// first token, which has the value one.
    pub fn new(position: usize, ring_size: usize, profile: Profile) -> (worker: Worker)
        ensures
            worker@ == WorkerView::fresh(position as nat, ring_size as nat, profile),
    {
        Worker { position, ring_size, profile, phase: Phase::Sending(1) }
    }

    pub fn position(&self) -> (position: usize)
        ensures
            position == self@.position,
    {
        self.position
    }

    pub fn ring_size(&self) -> (ring_size: usize)
        ensures
            ring_size == self@.ring_size,
    {
        self.ring_size
    }

    pub fn profile(&self) -> (profile: Profile)
        ensures
            profile == self@.profile,
    {
        self.profile
    }

    pub fn phase(&self) -> (phase: Phase)
        ensures
            phase == self@.phase,
    {
        self.phase
    }

    pub fn is_retired(&self) -> (retired: bool)
        ensures
            retired == (self@.phase == Phase::Retired),
    {
        self.phase == Phase::Retired
    }

    /// The action this worker waits on.
    pub fn next_action(&self) -> (action: Action)
        ensures
            action == pending(self@.phase),
    {
        match self.phase {
            Phase::Sending(token) => Action::Emit(token),
            Phase::Listening => Action::Receive,
            Phase::Counting => Action::Count,
            Phase::Signalling => Action::Signal,
            Phase::Closing => Action::Close,
            Phase::Leaving => Action::Leave,
            Phase::Announcing => Action::Signal,
            Phase::Retired => Action::Retire,
        }
    }

    /// Takes in what came of the pending action and names the next one.
    ///
    /// The worker moves as `respond` says. An event that does not answer
    /// the pending action, and a token larger than the ring, are refused
    /// and leave the worker as it was.
    pub fn handle(&mut self, event: Event) -> (result: Result<Action, RingError>)
        ensures
            match old(self)@.respond(event) {
                Ok(next) => final(self)@ == next && result == Ok::<Action, RingError>(
                    pending(next.phase),
                ),
                Err(e) => final(self)@ == old(self)@ && result == Err::<Action, RingError>(e),
            },
    {
        let n: usize = self.ring_size;
        let next: Phase = match (self.phase, event) {
            (Phase::Sending(_), Event::Emitted) => Phase::Listening,
            (Phase::Listening, Event::Delivered(Some(token))) => {
                if token > n {
                    return Err(RingError::TokenOutOfRange { token, ring_size: n });
                } else if token == n {
                    Phase::Counting
                } else {
                    Phase::Sending(token + 1)
                }
            },
            (Phase::Listening, Event::Delivered(None)) => Phase::Closing,
            (Phase::Counting, Event::Counted(before)) => {
                if !(n > 0 && before == n - 1) {
                    Phase::Listening
                } else if self.profile.completion == Completion::LastLap {
                    Phase::Signalling
                } else {
                    Phase::Closing
                }
            },
            (Phase::Signalling, Event::Signalled) => Phase::Closing,
            (Phase::Closing, Event::Closed) => {
                if self.profile.completion == Completion::LastExit {
                    Phase::Leaving
                } else {
                    Phase::Retired
                }
            },
            (Phase::Leaving, Event::Left(before)) => {
                if before == 1 {
                    Phase::Announcing
                } else {
                    Phase::Retired
                }
            },
            (Phase::Announcing, Event::Signalled) => Phase::Retired,
            _ => {
                return Err(RingError::UnexpectedEvent);
            },
        };
        self.phase = next;
        Ok(self.next_action())
    }
}

} // verus!
