//! The mailboxes between neighbours: channels of `futures::channel::mpsc`.
//!
//! A channel has two ends, and which sender belongs to which receiver is all
//! that the ring's wiring is about. The channel crate can tell
//! (`is_connected_to`); its answer gets a name here, so that the wiring can
//! be stated and proved. What a mailbox holds at a given moment depends on
//! the other tasks and is stated nowhere.

use vstd::prelude::*;
use futures::channel::mpsc::{
    Receiver,
    Sender,
    TrySendError,
    UnboundedReceiver,
    UnboundedSender,
};
use crate::error::RingError;
use crate::profile::{buffer_limit, Capacity};

verus! {

#[verifier::external_type_specification]
#[verifier::external_body]
#[verifier::reject_recursive_types(T)]
pub struct ExSender<T>(Sender<T>);

#[verifier::external_type_specification]
#[verifier::external_body]
#[verifier::reject_recursive_types(T)]
pub struct ExReceiver<T>(Receiver<T>);

#[verifier::external_type_specification]
#[verifier::external_body]
#[verifier::reject_recursive_types(T)]
pub struct ExUnboundedSender<T>(UnboundedSender<T>);

#[verifier::external_type_specification]
#[verifier::external_body]
#[verifier::reject_recursive_types(T)]
pub struct ExUnboundedReceiver<T>(UnboundedReceiver<T>);

#[verifier::external_type_specification]
#[verifier::external_body]
#[verifier::reject_recursive_types(T)]
pub struct ExTrySendError<T>(TrySendError<T>);

/// What `Sender::is_connected_to` answers for `tx` and `rx`: whether they
/// are the two ends of one bounded channel.
pub uninterp spec fn bounded_connected(tx: Sender<usize>, rx: Receiver<usize>) -> bool;

/// What `UnboundedSender::is_connected_to` answers for `tx` and `rx`:
/// whether they are the two ends of one unbounded channel.
pub uninterp spec fn unbounded_connected(
    tx: UnboundedSender<usize>,
    rx: UnboundedReceiver<usize>,
) -> bool;

/// `futures::channel::mpsc::channel`. It panics on a `buffer` of a quarter
/// of the address space or more, which is left out. Believed: the sender
/// and the receiver that it returns are connected to each other.
#[verifier::external_body]
fn bounded_channel(buffer: usize) -> (ends: (Sender<usize>, Receiver<usize>))
    requires
        buffer < buffer_limit(),
    ensures
        bounded_connected(ends.0, ends.1),
{
    futures::channel::mpsc::channel(buffer)
}

/// `futures::channel::mpsc::unbounded`. Believed: the sender and the
/// receiver that it returns are connected to each other.
#[verifier::external_body]
fn unbounded_channel() -> (ends: (UnboundedSender<usize>, UnboundedReceiver<usize>))
    ensures
        unbounded_connected(ends.0, ends.1),
{
    futures::channel::mpsc::unbounded()
}

/// `Sender::is_connected_to`. Believed: the answer depends on the two ends
/// alone.
#[verifier::external_body]
fn bounded_is_connected(tx: &Sender<usize>, rx: &Receiver<usize>) -> (connected: bool)
    ensures
        connected == bounded_connected(*tx, *rx),
{
    tx.is_connected_to(rx)
}

/// `UnboundedSender::is_connected_to`. Believed: the answer depends on the
/// two ends alone.
#[verifier::external_body]
fn unbounded_is_connected(tx: &UnboundedSender<usize>, rx: &UnboundedReceiver<usize>) -> (connected:
    bool)
    ensures
        connected == unbounded_connected(*tx, *rx),
{
    tx.is_connected_to(rx)
}

/// `UnboundedSender::unbounded_send`. Nothing is believed of the result: it
/// depends on whether the receiver is still there. (The call panics once
/// half the address space of messages is queued, which memory rules out.)
#[verifier::external_body]
fn unbounded_send(tx: &UnboundedSender<usize>, token: usize) -> (sent: Result<
    (),
    TrySendError<usize>,
>) {
    tx.unbounded_send(token)
}

/// The sending end of a mailbox.
pub enum Outbox {
    Unbounded(UnboundedSender<usize>),
    Bounded(Sender<usize>),
}

/// The receiving end of a mailbox.
pub enum Inbox {
    Unbounded(UnboundedReceiver<usize>),
    Bounded(Receiver<usize>),
}

/// Whether what is sent into `outbox` arrives at `inbox`.
pub open spec fn feeds(outbox: Outbox, inbox: Inbox) -> bool {
    match (outbox, inbox) {
        (Outbox::Unbounded(tx), Inbox::Unbounded(rx)) => unbounded_connected(tx, rx),
        (Outbox::Bounded(tx), Inbox::Bounded(rx)) => bounded_connected(tx, rx),
        _ => false,
    }
}

/// Makes a mailbox and returns its two ends.
pub fn mailbox(capacity: Capacity) -> (ends: (Outbox, Inbox))
    requires
        capacity.constructible(),
    ensures
        feeds(ends.0, ends.1),
        ends.0 is Unbounded <==> capacity is Unbounded,
{
    match capacity {
        Capacity::Unbounded => {
            let (tx, rx) = unbounded_channel();
            (Outbox::Unbounded(tx), Inbox::Unbounded(rx))
        },
        Capacity::Bounded(buffer) => {
            let (tx, rx) = bounded_channel(buffer);
            (Outbox::Bounded(tx), Inbox::Bounded(rx))
        },
    }
}

/// What became of a token that was sent without waiting, for each answer
/// of the channel: the token is in the mailbox, or the mailbox is closed.
/// An unbounded mailbox refuses a token for no other reason.
pub fn delivery(sent: Result<(), TrySendError<usize>>) -> (posted: Result<(), RingError>)
    ensures
        sent is Ok ==> posted == Ok::<(), RingError>(()),
        sent is Err ==> posted == Err::<(), RingError>(RingError::MailboxClosed),
{
    match sent {
        Ok(()) => Ok(()),
        Err(_) => Err(RingError::MailboxClosed),
    }
}

impl Outbox {
    pub fn is_unbounded(&self) -> (unbounded: bool)
        ensures
            unbounded == (*self is Unbounded),
    {
        match self {
            Outbox::Unbounded(_) => true,
            Outbox::Bounded(_) => false,
        }
    }

    /// Whether what is sent here arrives at `inbox`.
    pub fn feeds_into(&self, inbox: &Inbox) -> (connected: bool)
        ensures
            connected == feeds(*self, *inbox),
    {
        match (self, inbox) {
            (Outbox::Unbounded(tx), Inbox::Unbounded(rx)) => unbounded_is_connected(tx, rx),
            (Outbox::Bounded(tx), Inbox::Bounded(rx)) => bounded_is_connected(tx, rx),
            _ => false,
        }
    }

    /// Puts `token` into an unbounded mailbox, which never makes the sender
    /// wait. Whether the token gets in is for the channel to say, and
    /// depends on whether the receiver is still there; the answer is the
    /// `delivery` of what the channel said.
    pub(crate) fn post(&self, token: usize) -> (posted: Result<(), RingError>)
        requires
            *self is Unbounded,
        ensures
            posted is Err ==> posted == Err::<(), RingError>(RingError::MailboxClosed),
    {
        match self {
            Outbox::Unbounded(tx) => delivery(unbounded_send(tx, token)),
            Outbox::Bounded(_) => Ok(()),
        }
    }
}

} // verus!
