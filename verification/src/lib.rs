//! Termination detection for a ring of concurrent workers.
//!
//! `N` workers stand in a directed cycle, each with a mailbox from its
//! predecessor and one to its successor. Every worker starts a token with
//! the value `1`; a worker that receives a token smaller than `N` passes it
//! on, one larger; a token that arrives with the value `N` has been handled
//! by every worker and is counted on a shared tally. The worker whose count
//! is the `N`-th knows that the whole ring is done.
//!
//! The crate holds the decisions of that protocol and proves them. Waiting
//! on a mailbox and handing work to a scheduler is left to the caller: a
//! [`worker::Worker`] names the next [`worker::Action`], the caller performs
//! it and answers with an [`worker::Event`].
//!
//! - [`worker`]: one worker as a state machine.
//! - [`station`]: a worker with its two mailbox ends, and what it can do
//!   without a scheduler.
//! - [`cycle`]: the ring, which wires the mailboxes and is launched once.
//! - [`ring`], [`bounded_ring`], [`local_ring`], [`handle_ring`] and the
//!   other rings: one kind of ring for each way of scheduling, each with
//!   its [`profile::Profile`].
//! - [`mailbox`], [`tally`]: what the workers share, channels and an atomic
//!   counter.
//! - [`protocol`]: the whole ring as a transition system; [`safety`] and
//!   [`progress`]: what every reachable state satisfies and why every run
//!   ends; [`laws`]: the theorems on runs.

pub mod async_std_bounded_ring;
pub mod bounded_ring;
pub mod cycle;
pub mod error;
pub mod handle_ring;
pub mod handle_ring_os;
pub mod laws;
pub mod local_handle_ring;
pub mod local_handle_ring_os;
pub mod local_ring;
pub mod mailbox;
pub mod profile;
pub mod progress;
pub mod protocol;
pub mod ring;
pub mod safety;
pub mod station;
pub mod sums;
pub mod tally;
pub mod tokio_ct_bounded_ring;
pub mod tokio_tp_bounded_ring;
pub mod worker;
