//! Why a run ends: every step uses up some of the work that is left, and
//! as long as a worker has not retired some worker can take a step.

use vstd::prelude::*;
use crate::cycle::successor;
use crate::profile::Profile;
use crate::protocol::{Move, RingState};
use crate::safety::{
    has_closed,
    left_loop,
    lemma_busy,
    lemma_step_frame,
    lemma_step_inv,
    lemma_sums_bounded,
};
use crate::sums::{
    lemma_total_bounds,
    lemma_total_one,
    lemma_total_same,
    lemma_total_skip,
    lemma_total_two,
    lemma_total_zero,
    total,
};
use crate::worker::Phase;

verus! {

/// The steps that a token with this value still asks for in a ring of
/// `size`, at most: three for each hop that is left, to receive it, to
/// hand it in and to wait for room, and two to receive and to count it at
/// the end.
pub open spec fn token_cost(size: nat, token: usize) -> int {
    3 * (size - token) + 2
}

/// The steps that a worker in this phase still has to take, at most, not
/// counting those for tokens that have yet to reach it. A worker that
/// sends has handed the token in where `flushing` is set.
pub open spec fn phase_cost(size: nat, phase: Phase, flushing: bool) -> int {
    match phase {
        Phase::Sending(token) => if flushing {
            6
        } else {
            7 + token_cost(size, token)
        },
        Phase::Listening => 5,
        Phase::Counting => 6,
        Phase::Signalling => 4,
        Phase::Closing => 3,
        Phase::Leaving => 2,
        Phase::Announcing => 1,
        Phase::Retired => 0,
    }
}

pub open spec fn token_costs(size: nat, queue: Seq<usize>) -> spec_fn(int) -> int {
    |k: int| token_cost(size, queue[k])
}

/// The steps that the tokens in a mailbox still ask for.
pub open spec fn queue_cost(size: nat, queue: Seq<usize>) -> int {
    total(token_costs(size, queue), queue.len())
}

impl RingState {
    /// The steps still to be taken on account of worker `i` and of the
    /// tokens in its inbound mailbox.
    pub open spec fn effort(self, i: int) -> int {
        phase_cost(self.size, self.phase(i), self.flushing[i]) + queue_cost(
            self.size,
            self.inboxes[i],
        )
    }

    pub open spec fn efforts(self) -> spec_fn(int) -> int {
        |i: int| self.effort(i)
    }

    /// An upper bound on the steps that are left in this state.
    pub open spec fn remaining(self) -> int {
        total(self.efforts(), self.size)
    }
}

/// The steps that a ring of `size` takes at most, from launch to the
/// retirement of its last worker.
pub open spec fn step_bound(size: nat) -> nat {
    size * (3 * size + 6)
}

pub proof fn lemma_queue_push(size: nat, queue: Seq<usize>, token: usize)
    ensures
        queue_cost(size, queue.push(token)) == queue_cost(size, queue) + token_cost(size, token),
{
    let longer = queue.push(token);
    assert forall|k: int| 0 <= k < queue.len() implies #[trigger] token_costs(size, queue)(k)
        == token_costs(size, longer)(k) by {}
    lemma_total_same(token_costs(size, queue), token_costs(size, longer), queue.len());
}

pub proof fn lemma_queue_take(size: nat, queue: Seq<usize>, pick: int)
    requires
        0 <= pick < queue.len(),
    ensures
        queue_cost(size, queue.remove(pick)) == queue_cost(size, queue) - token_cost(
            size,
            queue[pick],
        ),
{
    let shorter = queue.remove(pick);
    assert forall|k: int| 0 <= k < pick implies #[trigger] token_costs(size, shorter)(k)
        == token_costs(size, queue)(k) by {}
    assert forall|k: int| pick <= k < shorter.len() implies #[trigger] token_costs(size, shorter)(
        k,
    ) == token_costs(size, queue)(k + 1) by {}
    lemma_total_skip(token_costs(size, queue), token_costs(size, shorter), shorter.len(), pick);
}

/// Tokens that are not larger than the ring ask for no negative number of
/// steps.
pub proof fn lemma_queue_cost_positive(size: nat, queue: Seq<usize>)
    requires
        forall|k: int| 0 <= k < queue.len() ==> #[trigger] queue[k] <= size,
    ensures
        0 <= queue_cost(size, queue),
{
    assert forall|k: int| 0 <= k < queue.len() implies 0 <= #[trigger] token_costs(size, queue)(
        k,
    ) by {}
    lemma_total_zero(token_costs(size, queue), queue.len());
}

/// Nothing is left to do once every worker has retired, and never less
/// than nothing.
pub proof fn lemma_remaining_positive(s: RingState)
    requires
        s.inv(),
    ensures
        0 <= s.remaining(),
{
    assert forall|i: int| 0 <= i < s.size implies 0 <= #[trigger] (s.efforts())(i) by {
        assert forall|k: int| 0 <= k < s.inboxes[i].len() implies #[trigger] s.inboxes[i][k]
            <= s.size by {}
        lemma_queue_cost_positive(s.size, s.inboxes[i]);
    }
    lemma_total_zero(s.efforts(), s.size);
}

/// A ring as it is launched has `step_bound` steps before it.
pub proof fn lemma_initial_remaining(size: nat, profile: Profile)
    requires
        1 < size <= usize::MAX,
    ensures
        RingState::initial(size, profile).remaining() == step_bound(size),
{
    let s = RingState::initial(size, profile);
    let each: int = 3 * (size as int) + 6;
    assert forall|i: int| 0 <= i < size implies each <= #[trigger] (s.efforts())(i) <= each by {}
    lemma_total_bounds(s.efforts(), size, each, each);
}

/// Every step that can happen uses up at least one of the steps that are
/// left.
pub proof fn lemma_step_decreases(s: RingState, m: Move)
    requires
        s.inv(),
        s.enabled(m),
    ensures
        s.step(m).remaining() < s.remaining(),
{
    let i = m.worker;
    let t = s.step(m);
    let next = successor(i, s.size as int);
    lemma_step_frame(s, m);
    lemma_step_inv(s, m);
    assert forall|j: int| 0 <= j < s.size && j != i && j != next implies #[trigger] (s.efforts())(j)
        == (t.efforts())(j) by {}
    lemma_total_two(s.efforts(), t.efforts(), s.size, i, next);
    match s.phase(i) {
        Phase::Sending(token) => {
            lemma_queue_push(s.size, s.inboxes[next], token);
        },
        Phase::Listening => {
            if s.inboxes[i].len() > 0 {
                lemma_queue_take(s.size, s.inboxes[i], m.pick);
            }
        },
        _ => {},
    }
}

/// Where every worker listens whose predecessor listens, and one listens,
/// all those before it in the sequence listen too.
proof fn lemma_listening_down(s: RingState, top: int, j: int)
    requires
        s.shaped(),
        0 <= j <= top < s.size,
        s.phase(top) == Phase::Listening,
        forall|i: int|
            0 <= i < s.size && #[trigger] s.phase(i) == Phase::Listening ==> s.phase(s.before(i))
                == Phase::Listening,
    ensures
        s.phase(j) == Phase::Listening,
    decreases top - j,
{
    if j < top {
        lemma_listening_down(s, top, j + 1);
    }
}

impl RingState {
    /// Worker `i` has handed in a token and the mailbox is still over its
    /// buffer.
    pub open spec fn cramped(self, i: int) -> bool {
        self.flushing[i] && self.inboxes[self.next(i)].len() > self.profile.buffer()
    }
}

/// Where every worker waits for room whose predecessor does, and one
/// does, all those after it in the sequence do too.
proof fn lemma_cramped_up(s: RingState, bottom: int, j: int)
    requires
        s.shaped(),
        0 <= bottom <= j < s.size,
        s.cramped(bottom),
        forall|i: int| 0 <= i < s.size && #[trigger] s.cramped(i) ==> s.cramped(s.next(i)),
    ensures
        s.cramped(j),
    decreases j - bottom,
{
    if bottom < j {
        lemma_cramped_up(s, bottom, j - 1);
    }
}

/// No deadlock: as long as a worker has not retired, some worker can take
/// a step. This asks for a profile with room: see [`Profile::roomy`].
pub proof fn lemma_progress(s: RingState)
    requires
        s.inv(),
        s.profile.roomy(),
        !s.finished(),
    ensures
        s.can_move(),
{
    let n = s.size as int;
    lemma_sums_bounded(s);
    if !s.can_move() {
        // Then every worker has retired, or listens in vain, or waits for
        // room in vain.
        assert forall|i: int| 0 <= i < s.size implies {
            ||| #[trigger] s.phase(i) == Phase::Retired
            ||| s.phase(i) == Phase::Listening && s.inboxes[i].len() == 0 && !s.closed[s.before(i)]
            ||| s.phase(i) is Sending && s.cramped(i)
        } by {
            assert(!s.enabled(Move { worker: i, pick: 0 }));
        }
        let k = choose|k: int| 0 <= k < s.size && #[trigger] s.phase(k) != Phase::Retired;
        if s.held() != 0 {
            // A token is under way, so nobody has retired, and it lies in
            // the inbound mailbox of a worker that waits for room. Then
            // its successor waits for room as well, and so on around the
            // ring: more tokens than workers.
            lemma_busy(s);
            let j = choose|j: int| 0 <= j < s.size && #[trigger] s.load(j) != 0;
            assert forall|i: int| 0 <= i < s.size && #[trigger] s.cramped(i) implies s.cramped(
                s.next(i),
            ) by {
                assert(!left_loop(s.phase(s.next(i))));
            }
            lemma_cramped_up(s, j, n - 1);
            assert forall|i: int| 0 <= i < s.size implies 2 <= #[trigger] (s.loads())(i) <= 2
                * n by {
                lemma_cramped_up(s, 0, s.before(i));
                lemma_load_below_held(s, i);
            }
            lemma_total_bounds(s.loads(), s.size, 2, 2 * n);
            assert(n * 2 > n) by (nonlinear_arith)
                requires
                    n > 1,
            ;
        } else {
            // No token is under way, so nobody waits for room, and some
            // worker has left its loop and, being stuck, retired. But a
            // worker that listens in vain has a predecessor that listens
            // too, and so on around the ring.
            let w = choose|w: int| 0 <= w < s.size && left_loop(#[trigger] s.phase(w));
            assert forall|i: int|
                0 <= i < s.size && #[trigger] s.phase(i) == Phase::Listening implies s.phase(
                s.before(i),
            ) == Phase::Listening by {}
            assert(s.load(s.next(k)) == 0);
            lemma_listening_down(s, k, 0);
            lemma_listening_down(s, n - 1, w);
        }
    }
}

/// No worker has more tokens on its hands than are under way.
proof fn lemma_load_below_held(s: RingState, i: int)
    requires
        s.shaped(),
        0 <= i < s.size,
    ensures
        s.load(i) <= s.held(),
{
    let rest = |j: int| if j == i { 0int } else { s.load(j) };
    assert forall|j: int| 0 <= j < s.size && j != i implies #[trigger] rest(j) == (s.loads())(
        j,
    ) by {}
    lemma_total_one(rest, s.loads(), s.size, i);
    assert forall|j: int| 0 <= j < s.size implies 0 <= #[trigger] rest(j) by {}
    lemma_total_zero(rest, s.size);
}

} // verus!
