use std::collections::VecDeque;

use executor_benchmarks::bounded_ring::BoundedRing;
use executor_benchmarks::handle_ring::HandleRing;
use executor_benchmarks::local_ring::LocalRing;
use executor_benchmarks::profile::{Capacity, Completion, Forwarding, Locality, Profile};
use executor_benchmarks::ring::Ring;
use executor_benchmarks::tokio_ct_bounded_ring::TokioCtNativeRing;
use executor_benchmarks::worker::{Action, Event, Phase, Worker};

/// A ring on one thread, with queues for mailboxes: one step at a time,
/// the worker that takes it picked by the test.
struct Ring1 {
    profile: Profile,
    workers: Vec<Worker>,
    inboxes: Vec<VecDeque<usize>>,
    closed: Vec<bool>,
    flushing: Vec<bool>,
    tally: usize,
    signals: usize,
    steps: usize,
    laps: usize,
    largest_token: usize,
    largest_tally: usize,
    tally_at_signal: Vec<usize>,
}

fn waits_for_room(profile: Profile) -> bool {
    matches!(profile.capacity, Capacity::Bounded(_)) && profile.forwarding != Forwarding::Detached
}

fn buffer(profile: Profile) -> usize {
    match profile.capacity {
        Capacity::Bounded(buffer) => buffer,
        Capacity::Unbounded => 0,
    }
}

impl Ring1 {
    fn new(n: usize, profile: Profile) -> Ring1 {
        Ring1 {
            profile,
            workers: (1..=n).map(|position| Worker::new(position, n, profile)).collect(),
            inboxes: vec![VecDeque::new(); n],
            closed: vec![false; n],
            flushing: vec![false; n],
            tally: 0,
            signals: 0,
            steps: 0,
            laps: 0,
            largest_token: 0,
            largest_tally: 0,
            tally_at_signal: Vec::new(),
        }
    }

    fn size(&self) -> usize {
        self.workers.len()
    }

    fn enabled(&self, i: usize) -> bool {
        let n = self.size();
        match self.workers[i].next_action() {
            Action::Emit(_) => {
                !self.flushing[i] || self.inboxes[(i + 1) % n].len() <= buffer(self.profile)
            }
            Action::Receive => !self.inboxes[i].is_empty() || self.closed[(i + n - 1) % n],
            Action::Retire => false,
            _ => true,
        }
    }

    fn step(&mut self, i: usize) {
        self.step_picking(i, 0);
    }

    /// The step of worker `i`; where it receives a token it gets the one
    /// at `pick`, counted from the oldest.
    fn step_picking(&mut self, i: usize, pick: usize) {
        let n = self.size();
        self.steps += 1;
        let event = match self.workers[i].next_action() {
            Action::Emit(token) => {
                if !self.flushing[i] {
                    assert!(!self.closed[i]);
                    assert!(!self.workers[(i + 1) % n].is_retired());
                    self.inboxes[(i + 1) % n].push_back(token);
                    if waits_for_room(self.profile) {
                        self.flushing[i] = true;
                        return;
                    }
                }
                self.flushing[i] = false;
                Event::Emitted
            }
            Action::Receive => {
                let token = self.inboxes[i].remove(pick);
                if let Some(token) = token {
                    self.largest_token = self.largest_token.max(token);
                }
                Event::Delivered(token)
            }
            Action::Count => {
                let before = self.tally;
                self.tally += 1;
                self.laps += 1;
                self.largest_tally = self.largest_tally.max(self.tally);
                Event::Counted(before)
            }
            Action::Signal => {
                self.signals += 1;
                self.tally_at_signal.push(self.tally);
                Event::Signalled
            }
            Action::Close => {
                self.closed[i] = true;
                Event::Closed
            }
            Action::Leave => {
                let before = self.tally;
                self.tally -= 1;
                Event::Left(before)
            }
            Action::Retire => panic!("a retired worker takes no step"),
        };
        self.workers[i].handle(event).expect("no step fails");
    }

    fn finished(&self) -> bool {
        self.workers.iter().all(|worker| worker.is_retired())
    }

    /// Takes steps until no worker can; `pick` chooses among those that
    /// can. Returns whether every worker has retired.
    fn run(&mut self, mut pick: impl FnMut(&[usize]) -> usize) -> bool {
        loop {
            let n = self.size();
            let able: Vec<usize> = (0..n).filter(|i| self.enabled(*i)).collect();
            if able.is_empty() {
                return self.finished();
            }
            let i = pick(&able);
            // Sends that nobody waits for may overtake each other.
            let waiting = self.inboxes[i].len();
            if self.profile.forwarding == Forwarding::Detached && waiting > 1 {
                let which = pick(&(0..waiting).collect::<Vec<usize>>());
                self.step_picking(i, which);
            } else {
                self.step(i);
            }
            assert!(self.steps <= n * (3 * n + 6));
            assert!(self.tally <= n);
            assert!(self.signals <= 1);
            assert!(self.largest_token <= n);
        }
    }
}

fn first(able: &[usize]) -> usize {
    able[0]
}

fn last(able: &[usize]) -> usize {
    able[able.len() - 1]
}

/// A schedule that jumps about, the same on every run.
fn shuffled(seed: u64) -> impl FnMut(&[usize]) -> usize {
    let mut state = seed;
    move |able: &[usize]| {
        state = state.wrapping_mul(6364136223846793005).wrapping_add(1442695040888963407);
        able[((state >> 33) as usize) % able.len()]
    }
}

fn variants() -> Vec<Profile> {
    vec![
        Ring::profile(),
        BoundedRing::profile(),
        LocalRing::profile(),
        HandleRing::profile(),
        TokioCtNativeRing::profile(),
    ]
}

fn signals_due(profile: Profile) -> usize {
    if profile.completion == Completion::Joined {
        0
    } else {
        1
    }
}

fn check_finished(ring: &Ring1) {
    let n = ring.size();
    assert!(ring.finished());
    assert_eq!(signals_due(ring.profile), ring.signals);
    assert_eq!(n, ring.laps);
    assert_eq!(n, ring.largest_tally);
    assert_eq!(n, ring.largest_token);
    assert!(ring.inboxes.iter().all(|inbox| inbox.is_empty()));
    assert!(ring.closed.iter().all(|closed| *closed));
    match ring.profile.completion {
        Completion::LastLap => {
            assert_eq!(n, ring.tally);
            assert_eq!(vec![n], ring.tally_at_signal);
        }
        Completion::LastExit => {
            assert_eq!(0, ring.tally);
            assert_eq!(vec![0], ring.tally_at_signal);
        }
        Completion::Joined => assert_eq!(n, ring.tally),
    }
}

#[test]
fn every_schedule_tried_ends_with_every_worker_retired() {
    for profile in variants() {
        for n in [2usize, 3, 4, 10, 31] {
            let mut ring = Ring1::new(n, profile);
            assert!(ring.run(first));
            check_finished(&ring);

            let mut ring = Ring1::new(n, profile);
            assert!(ring.run(last));
            check_finished(&ring);

            for seed in 0..20 {
                let mut ring = Ring1::new(n, profile);
                assert!(ring.run(shuffled(seed)));
                check_finished(&ring);
            }
        }
    }
}

#[test]
fn a_run_takes_the_same_number_of_steps_on_every_schedule() {
    for n in [2usize, 3, 10] {
        for seed in 0..10 {
            // Each token is received and sent once by every worker and
            // counted once; then every worker signals or finds its inbox
            // closed, and closes its own.
            let mut ring = Ring1::new(n, Ring::profile());
            assert!(ring.run(shuffled(seed)));
            assert_eq!(n * (2 * n + 1) + 2 * n, ring.steps);

            // Where workers check out that is one more step each, and the
            // worker that counted last does not signal: the last to leave
            // does.
            let mut ring = Ring1::new(n, LocalRing::profile());
            assert!(ring.run(shuffled(seed)));
            assert_eq!(n * (2 * n + 1) + 3 * n, ring.steps);

            // Where sends are waited for each takes two steps, and where
            // the driver joins nobody signals.
            let mut ring = Ring1::new(n, HandleRing::profile());
            assert!(ring.run(shuffled(seed)));
            assert_eq!(n * (3 * n + 1) + 2 * n - 1, ring.steps);
        }
    }
}

#[test]
fn two_workers() {
    let mut ring = Ring1::new(2, Ring::profile());
    assert!(ring.run(first));
    assert_eq!(14, ring.steps);
    assert_eq!(2, ring.laps);
    assert_eq!(1, ring.signals);
    assert_eq!(vec![2], ring.tally_at_signal);
    assert!(ring.finished());
}

#[test]
fn two_workers_step_by_step() {
    let mut ring = Ring1::new(2, BoundedRing::profile());
    // Both send their first token.
    ring.step(0);
    ring.step(1);
    assert_eq!(vec![1], Vec::from(ring.inboxes[0].clone()));
    assert_eq!(vec![1], Vec::from(ring.inboxes[1].clone()));
    // The first receives the 1 that the second sent, and passes on a 2.
    ring.step(0);
    assert_eq!(Phase::Sending(2), ring.workers[0].phase());
    ring.step(0);
    assert_eq!(vec![1, 2], Vec::from(ring.inboxes[1].clone()));
    // The second passes on the first's 1 as a 2, then finds its own token
    // back and counts it: one of two.
    ring.step(1);
    ring.step(1);
    ring.step(1);
    assert_eq!(Phase::Counting, ring.workers[1].phase());
    ring.step(1);
    assert_eq!(1, ring.tally);
    assert_eq!(Phase::Listening, ring.workers[1].phase());
    assert!(!ring.enabled(1));
    // The first finds its own token back: two of two. It signals.
    ring.step(0);
    ring.step(0);
    assert_eq!(2, ring.tally);
    assert_eq!(Phase::Signalling, ring.workers[0].phase());
    assert_eq!(0, ring.signals);
    ring.step(0);
    assert_eq!(1, ring.signals);
    assert!(!ring.enabled(1));
    ring.step(0);
    assert!(ring.workers[0].is_retired());
    // Its mailbox is closed, which lets the second leave its loop.
    assert!(ring.enabled(1));
    ring.step(1);
    assert_eq!(Phase::Closing, ring.workers[1].phase());
    ring.step(1);
    assert!(ring.finished());
    assert_eq!(1, ring.signals);
    assert_eq!(14, ring.steps);
    assert!(!ring.enabled(0) && !ring.enabled(1));
}

#[test]
fn three_workers_count_three_laps_and_the_third_count_signals() {
    for seed in 0..50 {
        let mut ring = Ring1::new(3, BoundedRing::profile());
        assert!(ring.run(shuffled(seed)));
        assert_eq!(3, ring.laps);
        assert_eq!(1, ring.signals);
        assert_eq!(vec![3], ring.tally_at_signal);
        assert_eq!(27, ring.steps);
    }
}

#[test]
fn waiting_for_room_without_a_buffer_gets_stuck() {
    let profile = Profile {
        capacity: Capacity::Bounded(0),
        forwarding: Forwarding::Awaited,
        locality: Locality::Pooled,
        completion: Completion::Joined,
    };
    assert!(!profile.is_roomy());
    let mut ring = Ring1::new(3, profile);
    // Every worker hands in its first token and waits for its successor to
    // take it, which waits in the same way.
    assert!(!ring.run(first));
    assert_eq!(3, ring.steps);
    assert!(ring.flushing.iter().all(|flushing| *flushing));
    assert_eq!(0, ring.laps);
}

#[test]
fn with_a_buffer_of_one_waiting_for_room_does_not_get_stuck() {
    for forwarding in [Forwarding::Awaited, Forwarding::Inline] {
        let profile = Profile {
            capacity: Capacity::Bounded(1),
            forwarding,
            locality: Locality::Pooled,
            completion: Completion::LastLap,
        };
        assert!(profile.is_roomy());
        for n in [2usize, 3, 10] {
            for seed in 0..20 {
                let mut ring = Ring1::new(n, profile);
                assert!(ring.run(shuffled(seed)));
                check_finished(&ring);
            }
        }
    }
}

#[test]
fn profiles_with_room() {
    for profile in variants() {
        assert!(profile.is_roomy());
    }
    let zero = Profile {
        capacity: Capacity::Bounded(0),
        forwarding: Forwarding::Inline,
        locality: Locality::Confined,
        completion: Completion::LastLap,
    };
    assert!(!zero.is_roomy());
    assert!(Profile { forwarding: Forwarding::Detached, ..zero }.is_roomy());
    assert!(Profile { capacity: Capacity::Unbounded, ..zero }.is_roomy());
    assert!(Profile { capacity: Capacity::Bounded(1), ..zero }.is_roomy());
    assert!(!Profile { forwarding: Forwarding::Awaited, ..zero }.is_roomy());
}
