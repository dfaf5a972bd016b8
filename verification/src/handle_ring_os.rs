//! As [`crate::handle_ring`], for a scheduler that is used through a trait
//! object and takes boxed tasks.

use vstd::prelude::*;
use crate::cycle::{Cycle, CycleView, Launch};
use crate::error::RingError;
use crate::profile::{Capacity, Completion, Forwarding, Locality, Profile};
use crate::station::Station;

verus! {

/// A station of a [`HandleRingOs`].
pub type HandleNodeOs = Station;

pub struct HandleRingOs {
    cycle: Cycle,
}

impl View for HandleRingOs {
    type V = CycleView;

    closed spec fn view(&self) -> CycleView {
        self.cycle@
    }
}

impl HandleRingOs {
    /// How this ring is scheduled.
    pub open spec fn scheduling() -> Profile {
        Profile {
            capacity: Capacity::Bounded(1),
            forwarding: Forwarding::Awaited,
            locality: Locality::Pooled,
            completion: Completion::Joined,
        }
    }

    pub fn profile() -> (profile: Profile)
        ensures
            profile == Self::scheduling(),
    {
        Profile {
            capacity: Capacity::Bounded(1),
            forwarding: Forwarding::Awaited,
            locality: Locality::Pooled,
            completion: Completion::Joined,
        }
    }

    /// Creates the mailboxes between all the workers of a ring of `n`.
    pub fn new(n: usize) -> (ring: Self)
        requires
            n > 1,
        ensures
            ring@.wf(),
            ring@.size == n,
            ring@.profile == Self::scheduling(),
            !ring@.launched(),
    {
        HandleRingOs { cycle: Cycle::new(n, Self::profile()) }
    }

    /// The ring behind this variant.
    pub fn cycle(&self) -> (cycle: &Cycle)
        ensures
            cycle@ == self@,
    {
        &self.cycle
    }

    /// The stations, as long as the ring holds them.
    pub fn nodes(&self) -> (nodes: &Option<Vec<HandleNodeOs>>)
        ensures
            match *nodes {
                Some(stations) => self@.stations == Some(stations@),
                None => self@.stations is None,
            },
    {
        self.cycle.nodes()
    }

    /// Starts the run: sets the tally to zero and hands out the stations.
    /// A ring runs once; a second launch is refused.
    pub fn launch(&mut self) -> (result: Result<Launch, RingError>)
        ensures
            final(self)@.size == old(self)@.size,
            final(self)@.profile == old(self)@.profile,
            final(self)@.launched(),
            old(self)@.wf() ==> final(self)@.wf(),
            match old(self)@.stations {
                Some(stations) => result matches Ok(launch) && launch.stations@ == stations,
                None => result matches Err(e) && e == RingError::AlreadyLaunched,
            },
    {
        self.cycle.launch()
    }
}

} // verus!
