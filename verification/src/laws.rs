//! What holds of every run of a ring, whatever the scheduler does.
//!
//! A run is a [`valid_schedule`] from [`RingState::initial`]: the workers
//! take their steps in any order, each when its pending action can happen.

use vstd::prelude::*;
use crate::async_std_bounded_ring::AsyncStdNativeRing;
use crate::bounded_ring::BoundedRing;
use crate::cycle::CycleView;
use crate::handle_ring::HandleRing;
use crate::handle_ring_os::HandleRingOs;
use crate::local_handle_ring::LocalHandleRing;
use crate::local_handle_ring_os::LocalHandleRingOs;
use crate::local_ring::LocalRing;
use crate::profile::{Completion, Profile};
use crate::progress::{
    lemma_initial_remaining,
    lemma_progress,
    lemma_remaining_positive,
    lemma_step_decreases,
    step_bound,
};
use crate::protocol::{run, valid_schedule, Move, RingState};
use crate::ring::Ring;
use crate::safety::{lemma_initial_inv, lemma_step_inv, lemma_sums_bounded, left_loop};
use crate::sums::{lemma_total_bounds, total};
use crate::station::Station;
use crate::tokio_ct_bounded_ring::TokioCtNativeRing;
use crate::tokio_tp_bounded_ring::TokioTpNativeRing;
use crate::worker::{Phase, WorkerView};

verus! {

/// The signals that a finished run of this profile has sent.
pub open spec fn signals_due(profile: Profile) -> nat {
    if profile.completion == Completion::Joined {
        0
    } else {
        1
    }
}

/// Every state of a run satisfies the invariant, and the steps taken and
/// the steps left never add up to more than the bound.
pub proof fn lemma_run_inv(size: nat, profile: Profile, schedule: Seq<Move>)
    requires
        1 < size <= usize::MAX,
        valid_schedule(RingState::initial(size, profile), schedule),
    ensures
        run(RingState::initial(size, profile), schedule).inv(),
        run(RingState::initial(size, profile), schedule).size == size,
        run(RingState::initial(size, profile), schedule).profile == profile,
        0 <= run(RingState::initial(size, profile), schedule).remaining(),
        run(RingState::initial(size, profile), schedule).remaining() + schedule.len()
            <= step_bound(size),
    decreases schedule.len(),
{
    let start = RingState::initial(size, profile);
    if schedule.len() == 0 {
        lemma_initial_inv(size, profile);
        lemma_initial_remaining(size, profile);
    } else {
        lemma_run_inv(size, profile, schedule.drop_last());
        let before = run(start, schedule.drop_last());
        lemma_step_inv(before, schedule.last());
        lemma_step_decreases(before, schedule.last());
    }
    lemma_remaining_positive(run(start, schedule));
}

/// When every worker has retired no token is under way, nobody is sending
/// the completion signal, and where the workers check out all of them have.
proof fn lemma_finished(s: RingState)
    requires
        s.inv(),
        s.finished(),
    ensures
        s.held() == 0,
        total(s.signallings(), s.size) == 0,
        s.profile.completion == Completion::LastExit ==> s.departed() == s.size,
{
    lemma_sums_bounded(s);
    assert forall|i: int| 0 <= i < s.size implies #[trigger] s.signalling(i) == 0 by {}
    assert forall|i: int| 0 <= i < s.size implies #[trigger] s.load(i) == 0 by {}
    if s.profile.completion == Completion::LastExit {
        assert forall|i: int| 0 <= i < s.size implies 1 <= #[trigger] (s.gones())(i) <= 1 by {}
        lemma_total_bounds(s.gones(), s.size, 1, 1);
    }
}

/// Every run ends. However the workers of a ring of `size` are
/// interleaved, they take no more than `step_bound(size)` steps between
/// them.
pub proof fn law_every_run_ends(size: nat, profile: Profile, schedule: Seq<Move>)
    requires
        1 < size <= usize::MAX,
        valid_schedule(RingState::initial(size, profile), schedule),
    ensures
        schedule.len() <= step_bound(size),
{
    lemma_run_inv(size, profile, schedule);
}

/// No run gets stuck. In a ring whose profile has room, after any
/// interleaving either some worker can take a step or every worker has
/// retired.
pub proof fn law_no_deadlock(size: nat, profile: Profile, schedule: Seq<Move>)
    requires
        1 < size <= usize::MAX,
        profile.roomy(),
        valid_schedule(RingState::initial(size, profile), schedule),
    ensures
        run(RingState::initial(size, profile), schedule).can_move() || run(
            RingState::initial(size, profile),
            schedule,
        ).finished(),
{
    lemma_run_inv(size, profile, schedule);
    let s = run(RingState::initial(size, profile), schedule);
    if !s.finished() {
        lemma_progress(s);
    }
}

/// The completion signal is sent once. At no point of a run has more than
/// one signal been sent; none has been sent while a token is under way;
/// and when every worker has retired exactly one has been sent, or none
/// where the driver waits for the workers instead.
pub proof fn law_one_completion_signal(size: nat, profile: Profile, schedule: Seq<Move>)
    requires
        1 < size <= usize::MAX,
        valid_schedule(RingState::initial(size, profile), schedule),
    ensures
        run(RingState::initial(size, profile), schedule).signals <= signals_due(profile),
        run(RingState::initial(size, profile), schedule).held() != 0 ==> run(
            RingState::initial(size, profile),
            schedule,
        ).signals == 0,
        run(RingState::initial(size, profile), schedule).finished() ==> run(
            RingState::initial(size, profile),
            schedule,
        ).signals == signals_due(profile),
{
    lemma_run_inv(size, profile, schedule);
    let s = run(RingState::initial(size, profile), schedule);
    lemma_sums_bounded(s);
    if s.finished() {
        lemma_finished(s);
    }
}

/// The tally counts the tokens that have come home. It is never below
/// zero and never above the size of the ring; together with the tokens
/// under way and the workers that have checked out it makes up the size of
/// the ring; in a ring whose last lap is signalled it shows the size of
/// the ring while the signal is sent and ever after; and when every worker
/// has retired it shows the size of the ring, or zero where the workers
/// check out.
pub proof fn law_tally_reaches_size(size: nat, profile: Profile, schedule: Seq<Move>)
    requires
        1 < size <= usize::MAX,
        valid_schedule(RingState::initial(size, profile), schedule),
    ensures
        0 <= run(RingState::initial(size, profile), schedule).tally <= size,
        run(RingState::initial(size, profile), schedule).held() + run(
            RingState::initial(size, profile),
            schedule,
        ).tally + run(RingState::initial(size, profile), schedule).departed() == size,
        profile.completion != Completion::LastExit ==> run(
            RingState::initial(size, profile),
            schedule,
        ).departed() == 0,
        profile.completion == Completion::LastLap ==> forall|i: int|
            0 <= i < size && #[trigger] run(RingState::initial(size, profile), schedule).phase(i)
                == Phase::Signalling ==> run(RingState::initial(size, profile), schedule).tally
                == size,
        profile.completion == Completion::LastLap && run(
            RingState::initial(size, profile),
            schedule,
        ).signals > 0 ==> run(RingState::initial(size, profile), schedule).tally == size,
        run(RingState::initial(size, profile), schedule).finished() ==> run(
            RingState::initial(size, profile),
            schedule,
        ).tally == if profile.completion == Completion::LastExit {
            0
        } else {
            size as int
        },
{
    lemma_run_inv(size, profile, schedule);
    let s = run(RingState::initial(size, profile), schedule);
    lemma_sums_bounded(s);
    if profile.completion != Completion::LastExit {
        assert forall|i: int| 0 <= i < s.size implies #[trigger] s.gone(i) == 0 by {}
    }
    if s.finished() {
        lemma_finished(s);
    }
    if profile.completion == Completion::LastLap {
        assert forall|i: int|
            0 <= i < size && #[trigger] s.phase(i) == Phase::Signalling implies s.tally
            == size by {
            assert forall|j: int| 0 <= j < s.size implies #[trigger] s.load(j) == 0 by {}
        }
    }
}

/// No worker ever sees a token larger than the ring. In every state of a
/// run the tokens in the mailboxes and on their way into one lie between
/// one and the size of the ring, and no step that can happen fails: no
/// worker is handed a token out of range, and none sends into a mailbox
/// that is closed or whose receiver has retired.
pub proof fn law_tokens_stay_in_range(size: nat, profile: Profile, schedule: Seq<Move>, m: Move)
    requires
        1 < size <= usize::MAX,
        valid_schedule(RingState::initial(size, profile), schedule),
    ensures
        run(RingState::initial(size, profile), schedule).tokens_in_range(),
        run(RingState::initial(size, profile), schedule).enabled(m) ==> !run(
            RingState::initial(size, profile),
            schedule,
        ).fails(m),
{
    lemma_run_inv(size, profile, schedule);
    let s = run(RingState::initial(size, profile), schedule);
    if s.enabled(m) {
        lemma_step_inv(s, m);
    }
}

/// Every ring of this crate has a profile with room, so none of them gets
/// stuck.
pub proof fn law_every_variant_has_room()
    ensures
        Ring::scheduling().roomy(),
        BoundedRing::scheduling().roomy(),
        LocalRing::scheduling().roomy(),
        HandleRing::scheduling().roomy(),
        HandleRingOs::scheduling().roomy(),
        LocalHandleRing::scheduling().roomy(),
        LocalHandleRingOs::scheduling().roomy(),
        AsyncStdNativeRing::scheduling().roomy(),
        TokioTpNativeRing::scheduling().roomy(),
        TokioCtNativeRing::scheduling().roomy(),
{
}

/// What a ring hands out at its launch is the initial state of the
/// protocol: the workers of a well-formed ring that has not been launched
/// are those of `RingState::initial`, in the same order.
pub proof fn law_launch_starts_at_initial(ring: CycleView)
    requires
        ring.wf(),
        !ring.launched(),
    ensures
        ring.stations->0.map_values(|s: Station| s.worker@)
            == RingState::initial(ring.size, ring.profile).workers,
{
    let stations = ring.stations->0;
    let workers = stations.map_values(|s: Station| s.worker@);
    let start = RingState::initial(ring.size, ring.profile);
    assert forall|i: int| 0 <= i < workers.len() implies workers[i] == start.workers[i] by {
        assert(stations[i].worker@ == WorkerView::fresh(
            (i + 1) as nat,
            stations.len(),
            ring.profile,
        ));
    }
}

} // verus!
