//! The ring itself: `n` stations wired into one cycle.
//!
//! A [`Cycle`] builds the mailboxes, keeps the stations until the run
//! starts, and hands them out once. Every ring of this crate is a `Cycle`
//! with its own [`Profile`].

use vstd::prelude::*;
use crate::error::RingError;
use crate::mailbox::{feeds, mailbox};
use crate::profile::Profile;
use crate::station::Station;
use crate::tally::Tally;
use crate::worker::{Worker, WorkerView};

verus! {

/// The index of the station after `i` in a ring of `n`: `(i + 1) mod n`.
pub open spec fn successor(i: int, n: int) -> int {
    if i + 1 == n {
        0
    } else {
        i + 1
    }
}

/// Every station's outbox feeds the inbox of the next one, and the last
/// one's feeds the first.
pub open spec fn linked(stations: Seq<Station>) -> bool {
    forall|i: int|
        0 <= i < stations.len() ==> feeds(
            (#[trigger] stations[i]).outbox,
            stations[successor(i, stations.len() as int)].inbox,
        )
}

/// Every worker is as it was made: at position `i + 1`, with the ring's
/// size and profile, about to send its first token.
pub open spec fn staffed(stations: Seq<Station>, profile: Profile) -> bool {
    forall|i: int|
        0 <= i < stations.len() ==> (#[trigger] stations[i]).worker@ == WorkerView::fresh(
            (i + 1) as nat,
            stations.len(),
            profile,
        )
}

/// Every mailbox is of the kind that the profile asks for.
pub open spec fn fitted(stations: Seq<Station>, profile: Profile) -> bool {
    forall|i: int|
        0 <= i < stations.len() ==> ((#[trigger] stations[i]).outbox is Unbounded
            <==> profile.capacity is Unbounded)
}

/// A ring as the contracts see it.
pub struct CycleView {
    /// The number of workers.
    pub size: nat,
    pub profile: Profile,
    /// The stations, until they are handed out.
    pub stations: Option<Seq<Station>>,
}

impl CycleView {
    pub open spec fn launched(self) -> bool {
        self.stations is None
    }

    /// A ring has at least two workers, and while it holds its stations
    /// they are all there, fresh, and wired into one cycle.
    pub open spec fn wf(self) -> bool {
        &&& self.size > 1
        &&& self.stations matches Some(stations) ==> {
            &&& stations.len() == self.size
            &&& staffed(stations, self.profile)
            &&& fitted(stations, self.profile)
            &&& linked(stations)
        }
    }
}

/// A ring of workers: it holds the stations until it is launched, and the
/// tally that its workers will share.
pub struct Cycle {
    size: usize,
    profile: Profile,
    tally: Tally,
    stations: Option<Vec<Station>>,
}

impl View for Cycle {
    type V = CycleView;

    closed spec fn view(&self) -> CycleView {
        CycleView {
            size: self.size as nat,
            profile: self.profile,
            stations: match self.stations {
                Some(stations) => Some(stations@),
                None => None,
            },
        }
    }
}

/// What a ring hands out when it is launched: its stations, in ring order,
/// and the tally they share, set to zero.
pub struct Launch {
    pub stations: Vec<Station>,
    pub tally: Tally,
}

impl Cycle {
    /// Builds a ring of `n` workers: `n` mailboxes, the `i`-th from worker
    /// `i` to worker `i + 1` and the last one back to the first.
    pub fn new(n: usize, profile: Profile) -> (ring: Cycle)
        requires
            n > 1,
            profile.capacity.constructible(),
        ensures
            ring@.wf(),
            ring@.size == n,
            ring@.profile == profile,
            !ring@.launched(),
    {
        let mut stations: Vec<Station> = Vec::new();
        // The mailbox from the last worker to the first.
        let (last_tx, last_rx) = mailbox(profile.capacity);
        let (tx, mut next_rx) = mailbox(profile.capacity);
        stations.push(Station { worker: Worker::new(1, n, profile), outbox: tx, inbox: last_rx });
        let mut id: usize = 2;
        // With two workers there is nobody between the first and the last.
        while id < n
            invariant
                2 <= id <= n,
                profile.capacity.constructible(),
                stations.len() == id - 1,
                feeds(last_tx, stations@[0].inbox),
                feeds(stations@[id - 2].outbox, next_rx),
                forall|i: int|
                    0 <= i < id - 2 ==> feeds(
                        (#[trigger] stations@[i]).outbox,
                        stations@[i + 1].inbox,
                    ),
                forall|i: int|
                    0 <= i < id - 1 ==> (#[trigger] stations@[i]).worker@ == WorkerView::fresh(
                        (i + 1) as nat,
                        n as nat,
                        profile,
                    ),
                forall|i: int|
                    0 <= i < id - 1 ==> ((#[trigger] stations@[i]).outbox is Unbounded
                        <==> profile.capacity is Unbounded),
                last_tx is Unbounded <==> profile.capacity is Unbounded,
            decreases n - id,
        {
            let (tx, rx) = mailbox(profile.capacity);
            let worker = Worker::new(id, n, profile);
            stations.push(Station { worker, outbox: tx, inbox: next_rx });
            next_rx = rx;
            id = id + 1;
        }
        let worker = Worker::new(n, n, profile);
        stations.push(Station { worker, outbox: last_tx, inbox: next_rx });
        Cycle { size: n, profile, tally: Tally::new(), stations: Some(stations) }
    }

    /// The number of workers.
    pub fn size(&self) -> (size: usize)
        ensures
            size == self@.size,
    {
        self.size
    }

    pub fn profile(&self) -> (profile: Profile)
        ensures
            profile == self@.profile,
    {
        self.profile
    }

    /// The stations, as long as the ring holds them.
    pub fn nodes(&self) -> (nodes: &Option<Vec<Station>>)
        ensures
            match *nodes {
                Some(stations) => self@.stations == Some(stations@),
                None => self@.stations is None,
            },
    {
        &self.stations
    }

    pub fn is_launched(&self) -> (launched: bool)
        ensures
            launched == self@.launched(),
    {
        self.stations.is_none()
    }

    /// Asks the mailboxes themselves whether they form one cycle.
    pub fn forms_cycle(&self) -> (closed: bool)
        ensures
            closed == (self@.stations matches Some(stations) && linked(stations)),
    {
        match &self.stations {
            None => false,
            Some(stations) => {
                let n: usize = stations.len();
                let mut i: usize = 0;
                while i < n
                    invariant
                        i <= n,
                        n == stations@.len(),
                        self@.stations == Some(stations@),
                        forall|j: int|
                            0 <= j < i ==> feeds(
                                (#[trigger] stations@[j]).outbox,
                                stations@[successor(j, n as int)].inbox,
                            ),
                    decreases n - i,
                {
                    let next: usize = if i + 1 == n {
                        0
                    } else {
                        i + 1
                    };
                    if !stations[i].outbox.feeds_into(&stations[next].inbox) {
                        assert(!linked(stations@)) by {
                            assert(!feeds(
                                stations@[i as int].outbox,
                                stations@[successor(i as int, stations@.len() as int)].inbox,
                            ));
                        }
                        return false;
                    }
                    i = i + 1;
                }
                true
            },
        }
    }

    /// Starts the run: sets the tally to zero and hands out the stations.
    /// A ring runs once; a second launch is refused.
    pub fn launch(&mut self) -> (result: Result<Launch, RingError>)
        ensures
            final(self)@.size == old(self)@.size,
            final(self)@.profile == old(self)@.profile,
            final(self)@.launched(),
            old(self)@.wf() ==> final(self)@.wf(),
            match old(self)@.stations {
                Some(stations) => result matches Ok(launch) && launch.stations@ == stations,
                None => result matches Err(e) && e == RingError::AlreadyLaunched,
            },
    {
        match self.stations.take() {
            Some(stations) => {
                self.tally.reset();
                Ok(Launch { stations, tally: self.tally.clone() })
            },
            None => Err(RingError::AlreadyLaunched),
        }
    }
}

} // verus!
