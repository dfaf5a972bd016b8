//! What holds of the ring in every state it can reach, and the proof that
//! every step keeps it.
//!
//! The heart is a conservation law. Every worker starts one token and every
//! token is counted once, so the tokens still under way, the laps counted
//! and not yet taken off again, and the workers that have taken theirs off
//! add up to the size of the ring.

use vstd::prelude::*;
use crate::cycle::successor;
use crate::profile::{Completion, Profile};
use crate::protocol::{Move, RingState};
use crate::sums::{lemma_total_bounds, lemma_total_one, lemma_total_two, lemma_total_zero, total};
use crate::worker::Phase;

verus! {

/// The receive loop is over for a worker in this phase.
pub open spec fn left_loop(phase: Phase) -> bool {
    match phase {
        Phase::Sending(_) => false,
        Phase::Listening => false,
        Phase::Counting => false,
        _ => true,
    }
}

/// A worker in this phase has closed its outbound mailbox.
pub open spec fn has_closed(phase: Phase) -> bool {
    phase == Phase::Leaving || phase == Phase::Announcing || phase == Phase::Retired
}

impl RingState {
    /// The tokens that worker `i` has on its hands: those in its inbound
    /// mailbox, and the one it is about to send or to count.
    pub open spec fn load(self, i: int) -> int {
        self.inboxes[i].len() + if (self.phase(i) is Sending && !self.flushing[i]) || self.phase(i)
            == Phase::Counting {
            1int
        } else {
            0int
        }
    }

    /// One for a worker that has checked out, where workers check out.
    pub open spec fn gone(self, i: int) -> int {
        if self.profile.completion == Completion::LastExit && (self.phase(i) == Phase::Announcing
            || self.phase(i) == Phase::Retired) {
            1
        } else {
            0
        }
    }

    /// One for a worker that is sending the completion signal.
    pub open spec fn signalling(self, i: int) -> int {
        if self.phase(i) == Phase::Signalling || self.phase(i) == Phase::Announcing {
            1
        } else {
            0
        }
    }

    pub open spec fn loads(self) -> spec_fn(int) -> int {
        |i: int| self.load(i)
    }

    pub open spec fn gones(self) -> spec_fn(int) -> int {
        |i: int| self.gone(i)
    }

    pub open spec fn signallings(self) -> spec_fn(int) -> int {
        |i: int| self.signalling(i)
    }

    /// The tokens that are still under way.
    pub open spec fn held(self) -> int {
        total(self.loads(), self.size)
    }

    /// The workers that have checked out.
    pub open spec fn departed(self) -> int {
        total(self.gones(), self.size)
    }

    /// The completion signals that are due by now: one, once the event
    /// that the profile names has happened.
    pub open spec fn owed(self) -> int {
        match self.profile.completion {
            Completion::LastLap => if self.held() == 0 {
                1
            } else {
                0
            },
            Completion::LastExit => if self.held() == 0 && self.tally == 0 {
                1
            } else {
                0
            },
            Completion::Joined => 0,
        }
    }

    /// The sequences have one entry for each worker, and each worker knows
    /// its place, the ring's size and the ring's profile.
    pub open spec fn shaped(self) -> bool {
        &&& 1 < self.size <= usize::MAX
        &&& self.workers.len() == self.size
        &&& self.inboxes.len() == self.size
        &&& self.closed.len() == self.size
        &&& self.flushing.len() == self.size
        &&& forall|i: int|
            0 <= i < self.size ==> {
                &&& (#[trigger] self.workers[i]).position == i + 1
                &&& self.workers[i].ring_size == self.size
                &&& self.workers[i].profile == self.profile
            }
    }

    /// No token, in a mailbox or on its way into one, is smaller than one
    /// or larger than the ring.
    pub open spec fn tokens_in_range(self) -> bool {
        &&& forall|i: int|
            0 <= i < self.size ==> (#[trigger] self.phase(i) matches Phase::Sending(token) ==> 1
                <= token <= self.size)
        &&& forall|i: int, k: int|
            0 <= i < self.size && 0 <= k < self.inboxes[i].len() ==> 1
                <= #[trigger] self.inboxes[i][k] <= self.size
    }

    /// A worker signals after the last lap, or checks out, only where the
    /// profile says so.
    pub open spec fn in_mode(self) -> bool {
        forall|i: int|
            0 <= i < self.size ==> {
                &&& #[trigger] self.phase(i) == Phase::Signalling ==> self.profile.completion
                    == Completion::LastLap
                &&& self.phase(i) == Phase::Leaving || self.phase(i) == Phase::Announcing
                    ==> self.profile.completion == Completion::LastExit
            }
    }

    /// Once a worker has left its receive loop no token is under way.
    pub open spec fn quiet_after_exit(self) -> bool {
        forall|i: int, j: int|
            0 <= i < self.size && 0 <= j < self.size && left_loop(#[trigger] self.phase(i))
                ==> #[trigger] self.load(j) == 0
    }

    /// Once no token is under way some worker has left its receive loop.
    pub open spec fn someone_left(self) -> bool {
        self.held() == 0 ==> exists|i: int|
            0 <= i < self.size && left_loop(#[trigger] self.phase(i))
    }

    /// Only a worker that sends, in a ring where sends are waited for,
    /// waits for room.
    pub open spec fn flushing_in_step(self) -> bool {
        forall|i: int|
            0 <= i < self.size && #[trigger] self.flushing[i] ==> self.phase(i) is Sending
                && self.profile.waits_for_room()
    }

    /// A mailbox is closed exactly where its sender has got that far.
    pub open spec fn closed_in_step(self) -> bool {
        forall|i: int| 0 <= i < self.size ==> #[trigger] self.closed[i] == has_closed(self.phase(i))
    }

    /// What every reachable state satisfies.
    pub open spec fn inv(self) -> bool {
        &&& self.shaped()
        &&& self.tokens_in_range()
        &&& self.in_mode()
        &&& self.quiet_after_exit()
        &&& self.someone_left()
        &&& self.closed_in_step()
        &&& self.flushing_in_step()
        &&& 0 <= self.tally
        &&& self.held() + self.tally + self.departed() == self.size
        &&& self.signals + total(self.signallings(), self.size) == self.owed()
    }
}

/// The three sums are sums of values that are zero or more, the second and
/// third of values that are at most one.
pub proof fn lemma_sums_bounded(s: RingState)
    requires
        s.shaped(),
    ensures
        0 <= s.held(),
        0 <= s.departed() <= s.size,
        0 <= total(s.signallings(), s.size) <= s.size,
        s.held() == 0 <==> forall|i: int| 0 <= i < s.size ==> #[trigger] s.load(i) == 0,
        s.departed() == 0 <==> forall|i: int| 0 <= i < s.size ==> #[trigger] s.gone(i) == 0,
        s.departed() == s.size ==> forall|i: int| 0 <= i < s.size ==> #[trigger] s.gone(i) == 1,
        total(s.signallings(), s.size) == 0 <==> forall|i: int|
            0 <= i < s.size ==> #[trigger] s.signalling(i) == 0,
{
    let n = s.size;
    assert forall|i: int| 0 <= i < n implies 0 <= #[trigger] (s.loads())(i) by {}
    assert forall|i: int| 0 <= i < n implies 0 <= #[trigger] (s.gones())(i) <= 1 by {}
    assert forall|i: int| 0 <= i < n implies 0 <= #[trigger] (s.signallings())(i) <= 1 by {}
    lemma_total_zero(s.loads(), n);
    lemma_total_zero(s.gones(), n);
    lemma_total_zero(s.signallings(), n);
    lemma_total_bounds(s.gones(), n, 0, 1);
    lemma_total_bounds(s.signallings(), n, 0, 1);
    // From the functions that are summed to the values of the workers,
    // and back.
    if s.held() == 0 {
        assert forall|i: int| 0 <= i < n implies #[trigger] s.load(i) == 0 by {
            assert((s.loads())(i) == 0);
        }
    } else if forall|i: int| 0 <= i < n ==> #[trigger] s.load(i) == 0 {
        assert forall|i: int| 0 <= i < n implies #[trigger] (s.loads())(i) == 0 by {}
    }
    if s.departed() == 0 {
        assert forall|i: int| 0 <= i < n implies #[trigger] s.gone(i) == 0 by {
            assert((s.gones())(i) == 0);
        }
    } else if forall|i: int| 0 <= i < n ==> #[trigger] s.gone(i) == 0 {
        assert forall|i: int| 0 <= i < n implies #[trigger] (s.gones())(i) == 0 by {}
    }
    if s.departed() == n {
        assert forall|i: int| 0 <= i < n implies #[trigger] s.gone(i) == 1 by {
            assert((s.gones())(i) == 1);
        }
    }
    if total(s.signallings(), n) == 0 {
        assert forall|i: int| 0 <= i < n implies #[trigger] s.signalling(i) == 0 by {
            assert((s.signallings())(i) == 0);
        }
    } else if forall|i: int| 0 <= i < n ==> #[trigger] s.signalling(i) == 0 {
        assert forall|i: int| 0 <= i < n implies #[trigger] (s.signallings())(i) == 0 by {}
    }
}

/// A ring as it is launched satisfies the invariant.
pub proof fn lemma_initial_inv(size: nat, profile: Profile)
    requires
        1 < size <= usize::MAX,
    ensures
        RingState::initial(size, profile).inv(),
        RingState::initial(size, profile).held() == size,
{
    let s = RingState::initial(size, profile);
    assert forall|i: int| 0 <= i < size implies 1 <= #[trigger] (s.loads())(i) <= 1 by {}
    lemma_total_bounds(s.loads(), size, 1, 1);
    assert forall|i: int| 0 <= i < size implies #[trigger] s.phase(i) == Phase::Sending(1) by {}
    lemma_sums_bounded(s);
}

/// A step touches nothing but the worker that takes it, that worker's
/// inbound mailbox and the one of its successor.
pub proof fn lemma_step_frame(s: RingState, m: Move)
    requires
        s.shaped(),
        0 <= m.worker < s.size,
    ensures
        s.step(m).shaped(),
        forall|j: int|
            #![trigger s.step(m).phase(j)]
            #![trigger s.step(m).gone(j)]
            #![trigger s.step(m).signalling(j)]
            #![trigger s.step(m).closed[j]]
            #![trigger s.step(m).flushing[j]]
            0 <= j < s.size && j != m.worker ==> {
                &&& s.step(m).phase(j) == s.phase(j)
                &&& s.step(m).gone(j) == s.gone(j)
                &&& s.step(m).signalling(j) == s.signalling(j)
                &&& s.step(m).closed[j] == s.closed[j]
                &&& s.step(m).flushing[j] == s.flushing[j]
            },
        forall|j: int|
            #![trigger s.step(m).inboxes[j]]
            #![trigger s.step(m).load(j)]
            0 <= j < s.size && j != m.worker && j != s.next(m.worker) ==> {
                &&& s.step(m).inboxes[j] == s.inboxes[j]
                &&& s.step(m).load(j) == s.load(j)
            },
{
    let t = s.step(m);
    assert forall|j: int| 0 <= j < t.size implies {
        &&& (#[trigger] t.workers[j]).position == j + 1
        &&& t.workers[j].ring_size == t.size
        &&& t.workers[j].profile == t.profile
    } by {}
}

/// How a step changes the three sums.
pub proof fn lemma_step_sums(s: RingState, m: Move)
    requires
        s.shaped(),
        0 <= m.worker < s.size,
    ensures
        s.step(m).held() - s.held() == (s.step(m).load(m.worker) - s.load(m.worker)) + (s.step(
            m,
        ).load(s.next(m.worker)) - s.load(s.next(m.worker))),
        s.step(m).departed() - s.departed() == s.step(m).gone(m.worker) - s.gone(m.worker),
        total(s.step(m).signallings(), s.size) - total(s.signallings(), s.size) == s.step(
            m,
        ).signalling(m.worker) - s.signalling(m.worker),
{
    let i = m.worker;
    let t = s.step(m);
    let next = s.next(i);
    lemma_step_frame(s, m);
    assert forall|j: int| 0 <= j < s.size && j != i && j != next implies #[trigger] (s.loads())(j)
        == (t.loads())(j) by {}
    lemma_total_two(s.loads(), t.loads(), s.size, i, next);
    assert forall|j: int| 0 <= j < s.size && j != i implies #[trigger] (s.gones())(j) == (
    t.gones())(j) by {}
    lemma_total_one(s.gones(), t.gones(), s.size, i);
    assert forall|j: int| 0 <= j < s.size && j != i implies #[trigger] (s.signallings())(j) == (
    t.signallings())(j) by {}
    lemma_total_one(s.signallings(), t.signallings(), s.size, i);
}

/// While tokens are under way nobody has left the receive loop, closed a
/// mailbox or checked out.
pub proof fn lemma_busy(s: RingState)
    requires
        s.inv(),
        s.held() != 0,
    ensures
        forall|i: int| 0 <= i < s.size ==> !left_loop(#[trigger] s.phase(i)),
        forall|i: int| 0 <= i < s.size ==> !#[trigger] s.closed[i],
        s.departed() == 0,
        s.held() + s.tally == s.size,
{
    lemma_sums_bounded(s);
    let j = choose|j: int| 0 <= j < s.size && #[trigger] s.load(j) != 0;
    assert forall|i: int| 0 <= i < s.size implies !left_loop(#[trigger] s.phase(i)) by {}
    assert forall|i: int| 0 <= i < s.size implies !#[trigger] s.closed[i] by {}
    assert forall|i: int| 0 <= i < s.size implies #[trigger] s.gone(i) == 0 by {}
}

/// Every step that can happen keeps the invariant, and does not fail: the
/// worker is handed no token larger than the ring, and sends into no
/// mailbox that is closed or whose receiver has retired.
pub proof fn lemma_step_inv(s: RingState, m: Move)
    requires
        s.inv(),
        s.enabled(m),
    ensures
        s.step(m).inv(),
        !s.fails(m),
{
    let i = m.worker;
    let t = s.step(m);
    lemma_step_frame(s, m);
    lemma_step_sums(s, m);
    lemma_sums_bounded(s);
    lemma_sums_bounded(t);
    if s.held() != 0 {
        // Nobody has left its loop yet; if anybody does so now, it is the
        // worker that counts the last lap.
        lemma_busy(s);
    } else {
        // The loops are over for good: whoever has left its loop stays out.
        let w = choose|w: int| 0 <= w < s.size && left_loop(#[trigger] s.phase(w));
        assert(left_loop(t.phase(w)));
    }
    assert(t.tokens_in_range()) by {
        assert forall|j: int, k: int| 0 <= j < t.size && 0 <= k < t.inboxes[j].len() implies 1
            <= #[trigger] t.inboxes[j][k] <= t.size by {
            if j == i && s.phase(i) == Phase::Listening && k >= m.pick {
                assert(t.inboxes[j][k] == s.inboxes[j][k + 1]);
            } else if k < s.inboxes[j].len() {
                assert(t.inboxes[j][k] == s.inboxes[j][k]);
            }
        }
    }
}

} // verus!
