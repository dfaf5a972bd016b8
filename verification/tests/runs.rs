use std::sync::atomic::{AtomicUsize, Ordering};
use std::sync::Arc;

use executor_benchmarks::bounded_ring::BoundedRing;
use executor_benchmarks::cycle::{Cycle, Launch};
use executor_benchmarks::handle_ring::HandleRing;
use executor_benchmarks::local_handle_ring::LocalHandleRing;
use executor_benchmarks::local_ring::LocalRing;
use executor_benchmarks::mailbox::{Inbox, Outbox};
use executor_benchmarks::profile::{Capacity, Completion, Forwarding, Locality, Profile};
use executor_benchmarks::ring::Ring;
use executor_benchmarks::station::{proceed, settle, Station};
use executor_benchmarks::tally::Tally;
use executor_benchmarks::tokio_ct_bounded_ring::TokioCtNativeRing;
use executor_benchmarks::worker::{Action, Event};
use futures::channel::mpsc;
use std::future::Future;

use futures::executor::{block_on, LocalPool, LocalSpawner, ThreadPool};
use futures::future::{join_all, RemoteHandle};
use futures::task::{LocalSpawnExt, SpawnExt};
use futures::{SinkExt, StreamExt};

/// What a run is watched for.
#[derive(Clone)]
struct Watch {
    largest_token: Arc<AtomicUsize>,
    laps: Arc<AtomicUsize>,
}

impl Watch {
    fn new() -> Watch {
        Watch {
            largest_token: Arc::new(AtomicUsize::new(0)),
            laps: Arc::new(AtomicUsize::new(0)),
        }
    }
}

/// A scheduler, as far as a run needs one.
trait Runner: Clone + 'static {
    /// Runs `send` as a task that nobody waits for.
    fn detach(&self, send: impl Future<Output = ()> + Send + 'static);
    /// Runs `send` as a task and returns a handle to wait on.
    fn attach(&self, send: impl Future<Output = ()> + Send + 'static) -> RemoteHandle<()>;
    /// Runs a worker as a task of its own.
    fn start(
        &self,
        station: Station,
        tally: Tally,
        done: mpsc::Sender<()>,
        watch: Watch,
    ) -> RemoteHandle<()>;
}

impl Runner for ThreadPool {
    fn detach(&self, send: impl Future<Output = ()> + Send + 'static) {
        self.spawn(send).expect("spawn forward");
    }

    fn attach(&self, send: impl Future<Output = ()> + Send + 'static) -> RemoteHandle<()> {
        self.spawn_with_handle(send).expect("spawn forward")
    }

    fn start(
        &self,
        station: Station,
        tally: Tally,
        done: mpsc::Sender<()>,
        watch: Watch,
    ) -> RemoteHandle<()> {
        self.spawn_with_handle(work(station, tally, done, self.clone(), watch)).expect("spawn node")
    }
}

impl Runner for LocalSpawner {
    fn detach(&self, send: impl Future<Output = ()> + Send + 'static) {
        self.spawn_local(send).expect("spawn forward");
    }

    fn attach(&self, send: impl Future<Output = ()> + Send + 'static) -> RemoteHandle<()> {
        self.spawn_local_with_handle(send).expect("spawn forward")
    }

    fn start(
        &self,
        station: Station,
        tally: Tally,
        done: mpsc::Sender<()>,
        watch: Watch,
    ) -> RemoteHandle<()> {
        self.spawn_local_with_handle(work(station, tally, done, self.clone(), watch))
            .expect("spawn node")
    }
}

/// Runs one worker to its retirement: does what the worker asks for and
/// tells it what came of it.
async fn work<E: Runner>(
    station: Station,
    tally: Tally,
    mut done: mpsc::Sender<()>,
    exec: E,
    watch: Watch,
) {
    let Station { mut worker, mut outbox, mut inbox } = station;
    let forwarding = worker.profile().forwarding;
    let ring_size = worker.ring_size();
    let mut action = proceed(&mut worker, &tally, &outbox).expect("first token");
    loop {
        let event = match action {
            Action::Emit(token) => {
                let mut tx = match &outbox {
                    Outbox::Bounded(tx) => tx.clone(),
                    Outbox::Unbounded(_) => unreachable!("done by settle"),
                };
                let send = async move { tx.send(token).await.expect("forward message") };
                match forwarding {
                    Forwarding::Inline => send.await,
                    Forwarding::Detached => exec.detach(send),
                    Forwarding::Awaited => exec.attach(send).await,
                }
                Event::Emitted
            }
            Action::Receive => {
                let token = match &mut inbox {
                    Inbox::Unbounded(rx) => rx.next().await,
                    Inbox::Bounded(rx) => rx.next().await,
                };
                if let Some(token) = token {
                    watch.largest_token.fetch_max(token, Ordering::SeqCst);
                    if token == ring_size {
                        watch.laps.fetch_add(1, Ordering::SeqCst);
                    }
                }
                Event::Delivered(token)
            }
            Action::Signal => {
                done.send(()).await.expect("send done");
                Event::Signalled
            }
            Action::Close => {
                match &mut outbox {
                    Outbox::Unbounded(tx) => tx.close().await.expect("close channel"),
                    Outbox::Bounded(tx) => tx.close().await.expect("close channel"),
                }
                Event::Closed
            }
            Action::Retire => break,
            Action::Count | Action::Leave => unreachable!("done by settle"),
        };
        action = settle(&mut worker, event, &tally, &outbox).expect("protocol");
    }
}

/// Launches every worker as a task of its own and waits for the
/// completion signal; then goes on listening until every worker has let
/// go of the signal channel, and returns the number of signals.
async fn run_signalled(launch: Launch, exec: impl Runner, watch: Watch) -> usize {
    let (done_tx, mut done_rx) = mpsc::channel(0);
    let Launch { stations, tally } = launch;
    for station in stations {
        exec.start(station, tally.clone(), done_tx.clone(), watch.clone()).forget();
    }
    drop(done_tx);
    let first = done_rx.next().await;
    assert!(first.is_some());
    let mut signals = 1;
    while done_rx.next().await.is_some() {
        signals += 1;
    }
    signals
}

/// Launches every worker as a task of its own and waits for all of them;
/// returns the number of signals, which is zero where the driver joins.
async fn run_joined(launch: Launch, exec: impl Runner, watch: Watch) -> usize {
    let (done_tx, mut done_rx) = mpsc::channel(0);
    let Launch { stations, tally } = launch;
    let mut handles = Vec::with_capacity(stations.len());
    for station in stations {
        handles.push(exec.start(station, tally.clone(), done_tx.clone(), watch.clone()));
    }
    drop(done_tx);
    join_all(handles).await;
    let mut signals = 0;
    while done_rx.next().await.is_some() {
        signals += 1;
    }
    signals
}

fn check(watch: &Watch, n: usize) {
    assert_eq!(n, watch.largest_token.load(Ordering::SeqCst));
    assert_eq!(n, watch.laps.load(Ordering::SeqCst));
}

#[test]
fn basic() {
    let mut pool = LocalPool::new();
    let spawner = pool.spawner();
    let exec = spawner.clone();
    let watch = Watch::new();
    let seen = watch.clone();

    let bench = async move {
        let mut ring = Ring::new(3);
        let launch = ring.launch().expect("launch");
        let tally = launch.tally.clone();
        assert_eq!(1, run_signalled(launch, exec, seen).await);
        assert_eq!(3, tally.load());
    };

    spawner.spawn_local(bench).expect("spawn bench");

    pool.run();
    check(&watch, 3);
}

#[test]
fn ring_threadpool() {
    for _ in 1..2 {
        let pool = ThreadPool::new().expect("create threadpool");
        let mut ring = Ring::new(2);
        let launch = ring.launch().expect("launch");
        let tally = launch.tally.clone();
        let watch = Watch::new();

        assert_eq!(1, block_on(run_signalled(launch, pool, watch.clone())));
        assert_eq!(2, tally.load());
        check(&watch, 2);
    }
}

#[test]
fn bounded_ring_threadpool() {
    for _ in 1..2 {
        let pool = ThreadPool::new().expect("create threadpool");
        let mut ring = BoundedRing::new(2);
        let launch = ring.launch().expect("launch");
        let tally = launch.tally.clone();
        let watch = Watch::new();

        assert_eq!(1, block_on(run_signalled(launch, pool, watch.clone())));
        assert_eq!(2, tally.load());
        check(&watch, 2);
    }
}

#[test]
fn rings_of_several_sizes_complete_with_one_signal() {
    for n in [2usize, 3, 10, 100] {
        let pool = ThreadPool::new().expect("create threadpool");
        let mut ring = Ring::new(n);
        let launch = ring.launch().expect("launch");
        let tally = launch.tally.clone();
        let watch = Watch::new();
        assert_eq!(1, block_on(run_signalled(launch, pool, watch.clone())));
        assert_eq!(n, tally.load());
        check(&watch, n);
    }
}

#[test]
fn three_workers_count_three_laps() {
    let pool = ThreadPool::new().expect("create threadpool");
    let mut ring = BoundedRing::new(3);
    let launch = ring.launch().expect("launch");
    let tally = launch.tally.clone();
    let watch = Watch::new();
    assert_eq!(1, block_on(run_signalled(launch, pool, watch.clone())));
    assert_eq!(3, watch.laps.load(Ordering::SeqCst));
    assert_eq!(3, tally.load());
    assert_eq!(3, watch.largest_token.load(Ordering::SeqCst));
}

#[test]
fn a_hundred_workers_over_mailboxes_without_slack_complete() {
    let pool = ThreadPool::new().expect("create threadpool");
    let mut ring = BoundedRing::new(100);
    assert_eq!(Capacity::Bounded(0), ring.cycle().profile().capacity);
    let launch = ring.launch().expect("launch");
    let tally = launch.tally.clone();
    let watch = Watch::new();
    assert_eq!(1, block_on(run_signalled(launch, pool, watch.clone())));
    assert_eq!(100, tally.load());
    check(&watch, 100);
}

#[test]
fn a_hundred_workers_without_slack_complete_on_one_thread() {
    let mut pool = LocalPool::new();
    let spawner = pool.spawner();
    let mut ring = BoundedRing::new(100);
    let launch = ring.launch().expect("launch");
    let tally = launch.tally.clone();
    let watch = Watch::new();
    assert_eq!(1, pool.run_until(run_signalled(launch, spawner, watch.clone())));
    assert_eq!(100, tally.load());
    check(&watch, 100);
}

#[test]
fn sends_made_by_the_worker_itself_wait_for_room() {
    // Bounded mailboxes and no task per send: a worker that finds its
    // outbound mailbox over its buffer waits in the middle of its loop.
    let profile = Profile {
        capacity: Capacity::Bounded(1),
        forwarding: Forwarding::Inline,
        locality: Locality::Pooled,
        completion: Completion::LastLap,
    };
    assert!(profile.is_roomy());
    for n in [2usize, 3, 17] {
        let pool = ThreadPool::new().expect("create threadpool");
        let mut ring = Cycle::new(n, profile);
        let launch = ring.launch().expect("launch");
        let tally = launch.tally.clone();
        let watch = Watch::new();
        assert_eq!(1, block_on(run_signalled(launch, pool, watch.clone())));
        assert_eq!(n, tally.load());
        check(&watch, n);
    }
}

#[test]
fn running_again_completes_again() {
    let pool = ThreadPool::new().expect("create threadpool");
    for run in 0..5 {
        let n = 4 + run;
        let mut ring = BoundedRing::new(n);
        let launch = ring.launch().expect("launch");
        let tally = launch.tally.clone();
        assert_eq!(0, tally.load());
        let watch = Watch::new();
        assert_eq!(1, block_on(run_signalled(launch, pool.clone(), watch.clone())));
        assert_eq!(n, tally.load());
        check(&watch, n);
        assert!(ring.launch().is_err());
    }
}

#[test]
fn where_workers_check_out_the_signal_comes_after_the_last_has_left() {
    for n in [2usize, 3, 10] {
        let mut pool = LocalPool::new();
        let spawner = pool.spawner();
        let mut ring = LocalRing::new(n);
        let launch = ring.launch().expect("launch");
        let tally = launch.tally.clone();
        let watch = Watch::new();
        assert_eq!(1, pool.run_until(run_signalled(launch, spawner, watch.clone())));
        // Every lap was counted and every worker has taken its own off.
        assert_eq!(0, tally.load());
        check(&watch, n);
    }
}

#[test]
fn where_the_driver_joins_no_signal_is_sent() {
    for n in [2usize, 3, 10] {
        let pool = ThreadPool::new().expect("create threadpool");
        let mut ring = HandleRing::new(n);
        let launch = ring.launch().expect("launch");
        let tally = launch.tally.clone();
        let watch = Watch::new();
        assert_eq!(0, block_on(run_joined(launch, pool, watch.clone())));
        assert_eq!(n, tally.load());
        check(&watch, n);
    }
}

#[test]
fn joined_rings_complete_on_one_thread() {
    for n in [2usize, 5] {
        let mut pool = LocalPool::new();
        let mut ring = LocalHandleRing::new(n);
        let launch = ring.launch().expect("launch");
        let tally = launch.tally.clone();
        let watch = Watch::new();
        let spawner = pool.spawner();
        assert_eq!(0, pool.run_until(run_joined(launch, spawner, watch.clone())));
        assert_eq!(n, tally.load());
        check(&watch, n);

        let mut pool = LocalPool::new();
        let mut ring = TokioCtNativeRing::new(n);
        let launch = ring.launch().expect("launch");
        let tally = launch.tally.clone();
        let watch = Watch::new();
        let spawner = pool.spawner();
        assert_eq!(0, pool.run_until(run_joined(launch, spawner, watch.clone())));
        assert_eq!(n, tally.load());
        check(&watch, n);
    }
}
