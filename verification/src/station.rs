//! A worker together with its two mailbox ends, and the part of its run
//! that needs no scheduler.

use vstd::prelude::*;
use crate::error::RingError;
use crate::mailbox::{Inbox, Outbox};
use crate::profile::{Forwarding, Profile};
use crate::tally::Tally;
use crate::worker::{
    after_count,
    is_last_exit,
    pending,
    Action,
    Event,
    Phase,
    Worker,
    WorkerView,
};

verus! {

/// One position of the ring as it is handed to the scheduler: the worker's
/// state, the sending end of the mailbox to its successor, and the
/// receiving end of the mailbox from its predecessor.
pub struct Station {
    pub worker: Worker,
    pub outbox: Outbox,
    pub inbox: Inbox,
}

/// Whether `action` can be done on the spot, by the worker's own task:
/// the tally is always at hand, a token can be sent without waiting only
/// where the profile asks for it and the mailbox is unbounded.
pub open spec fn immediate(action: Action, profile: Profile, outbox: Outbox) -> bool {
    match action {
        Action::Count => true,
        Action::Leave => true,
        Action::Emit(_) => profile.forwarding == Forwarding::Inline && outbox is Unbounded,
        _ => false,
    }
}

/// What `proceed` may leave behind for the worker `start`: the worker `end`
/// and the answer `result`.
///
/// Where the pending action has to be waited on nothing happens. Where it
/// is immediate it has been done: the tally held some value `before`,
/// whatever the other workers made of it, and the worker went on from
/// there as `respond` says; a token sent on the spot either went out or
/// found the mailbox closed.
pub open spec fn proceeded(
    start: WorkerView,
    outbox: Outbox,
    end: WorkerView,
    result: Result<Action, RingError>,
) -> bool {
    if !immediate(pending(start.phase), start.profile, outbox) {
        end == start && result == Ok::<Action, RingError>(pending(start.phase))
    } else {
        match start.phase {
            Phase::Counting => exists|before: usize|
                {
                    &&& end == start.at(
                        #[trigger] after_count(start.ring_size, start.profile.completion, before),
                    )
                    &&& result == Ok::<Action, RingError>(pending(end.phase))
                },
            Phase::Leaving => exists|before: usize|
                {
                    &&& end == start.at(
                        if #[trigger] is_last_exit(before) {
                            Phase::Announcing
                        } else {
                            Phase::Retired
                        },
                    )
                    &&& result == Ok::<Action, RingError>(pending(end.phase))
                },
            _ => {
                ||| end == start && result == Err::<Action, RingError>(RingError::MailboxClosed)
                ||| end == start.at(Phase::Listening) && result == Ok::<Action, RingError>(
                    Action::Receive,
                )
            },
        }
    }
}

/// What `settle` may leave behind when it is given `event` for the worker
/// `start`: a refused event changes nothing, any other is taken in as
/// `respond` says and the worker proceeds from there.
pub open spec fn settled(
    start: WorkerView,
    event: Event,
    outbox: Outbox,
    end: WorkerView,
    result: Result<Action, RingError>,
) -> bool {
    match start.respond(event) {
        Err(e) => end == start && result == Err::<Action, RingError>(e),
        Ok(mid) => proceeded(mid, outbox, end, result),
    }
}

/// Does the pending action of `worker` if it can be done on the spot, and
/// names the action that has to be waited on.
///
/// The action it returns is never `Count` or `Leave`, and never `Emit` for
/// a worker that sends inline into an unbounded mailbox. A run begins with
/// this call, for the first token. In a ring that is wired and run as
/// [`crate::protocol`] describes, no mailbox is closed while a token is
/// sent into it.
pub fn proceed(worker: &mut Worker, tally: &Tally, outbox: &Outbox) -> (result: Result<
    Action,
    RingError,
>)
    ensures
        proceeded(old(worker)@, *outbox, final(worker)@, result),
        result matches Ok(action) ==> !immediate(action, final(worker)@.profile, *outbox),
{
    let ghost start = worker@;
    match worker.next_action() {
        Action::Count => {
            let before: usize = tally.count_lap();
            let next = worker.handle(Event::Counted(before));
            assert(worker@ == start.at(
                after_count(start.ring_size, start.profile.completion, before),
            ));
            next
        },
        Action::Leave => {
            let before: usize = tally.count_exit();
            worker.handle(Event::Left(before))
        },
        Action::Emit(token) => {
            if worker.profile().forwarding == Forwarding::Inline && outbox.is_unbounded() {
                match outbox.post(token) {
                    Ok(()) => worker.handle(Event::Emitted),
                    Err(e) => Err(e),
                }
            } else {
                Ok(Action::Emit(token))
            }
        },
        action => Ok(action),
    }
}

/// Takes in `event`, then proceeds as far as the worker can go without
/// waiting, and names the action that has to be waited on.
pub fn settle(worker: &mut Worker, event: Event, tally: &Tally, outbox: &Outbox) -> (result: Result<
    Action,
    RingError,
>)
    ensures
        settled(old(worker)@, event, *outbox, final(worker)@, result),
        result matches Ok(action) ==> !immediate(action, final(worker)@.profile, *outbox),
{
    match worker.handle(event) {
        Ok(_) => proceed(worker, tally, outbox),
        Err(e) => Err(e),
    }
}

} // verus!
