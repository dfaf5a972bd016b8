//! What can go wrong while a ring runs. None of it is recoverable: a run
//! either completes or is abandoned.

use vstd::prelude::*;

verus! {

#[derive(Clone, Copy, Debug, PartialEq, Eq, Structural)]
pub enum RingError {
    /// A token arrived whose value is larger than the ring. Tokens start at
    /// one and grow by one per hop, so this means the ring was wired wrongly.
    TokenOutOfRange { token: usize, ring_size: usize },
    /// A token was sent into a mailbox whose receiver is gone.
    MailboxClosed,
    /// The event does not answer the action the worker was waiting on.
    UnexpectedEvent,
    /// The ring has handed out its workers before.
    AlreadyLaunched,
}

impl RingError {
    /// A short text for logs and panics.
    pub fn message(&self) -> (text: &'static str)
        ensures
            text@.len() > 0,
            *self is TokenOutOfRange ==> text@ == "token larger than the ring"@,
            *self is MailboxClosed ==> text@ == "mailbox closed"@,
            *self is UnexpectedEvent ==> text@ == "event does not match the pending action"@,
            *self is AlreadyLaunched ==> text@ == "ring already launched"@,
    {
        proof {
            reveal_strlit("token larger than the ring");
            reveal_strlit("mailbox closed");
            reveal_strlit("event does not match the pending action");
            reveal_strlit("ring already launched");
        }
        match self {
            RingError::TokenOutOfRange { .. } => "token larger than the ring",
            RingError::MailboxClosed => "mailbox closed",
            RingError::UnexpectedEvent => "event does not match the pending action",
            RingError::AlreadyLaunched => "ring already launched",
        }
    }
}

} // verus!
