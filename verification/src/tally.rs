//! The tally that all workers of one run share: the number of tokens that
//! have come home.
//!
//! It is an atomic counter, and every access is sequentially consistent: a
//! worker that saw a stale value could miss that its count was the last
//! one. What a worker finds on the tally depends on the other workers, so
//! nothing is promised of the values here; what a worker does with a value
//! is decided, and proved, in [`crate::worker`].

use vstd::prelude::*;
use std::sync::Arc;
use std::sync::atomic::{AtomicUsize, Ordering};

verus! {

/// A handle to the tally of one ring. Clones share the counter.
#[derive(Clone)]
pub struct Tally {
    count: Arc<AtomicUsize>,
}

impl Tally {
    /// A tally that holds zero.
    pub fn new() -> Tally {
        Tally { count: Arc::new(AtomicUsize::new(0)) }
    }

    /// Sets the tally back to zero, before a run.
    pub(crate) fn reset(&self) {
        self.count.store(0, Ordering::SeqCst);
    }

    /// What the tally holds now.
    pub fn load(&self) -> usize {
        self.count.load(Ordering::SeqCst)
    }

    /// Adds one and returns what the tally held before.
    pub(crate) fn count_lap(&self) -> usize {
        self.count.fetch_add(1, Ordering::SeqCst)
    }

    /// Takes one off and returns what the tally held before.
    pub(crate) fn count_exit(&self) -> usize {
        self.count.fetch_sub(1, Ordering::SeqCst)
    }
}

} // verus!
