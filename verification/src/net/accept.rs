//! Polling an accept on a TCP listener.
use std::sync::Arc;
use vstd::prelude::*;
use crate::runtime::outcome::IoErrorKind;
use crate::runtime::state::{IoRegistry, IoState, registered, slot_limit};

verus! {

/// What a poll of an accept future does after the non-blocking accept.
pub enum AcceptStep {
    /// A connection came in and its stream was registered under `token`; the
    /// caller asks the poller to watch the stream under that token.
    Accepted { token: usize, io_state: Arc<IoState> },
    /// No connection is waiting: register the task's waker on the listener's
    /// reads and stay pending.
    Wait,
    /// The accept failed: the future is ready with that error.
    Fail,
}

/// One poll of an accept future, after the non-blocking accept came back with
/// `result`.
pub fn poll_accept(registry: &mut IoRegistry, result: Result<(), IoErrorKind>) -> (step: AcceptStep)
    requires
        result is Ok ==> old(registry).count() < slot_limit(),
    ensures
        result is Ok ==> (step matches AcceptStep::Accepted { token, io_state }
            && token == old(registry).count()
            && !old(registry).entries().dom().contains(token)
            && final(registry).count() == old(registry).count() + 1
            && final(registry).entries() == registered(old(registry).entries(), token, io_state)),
        result == Err::<(), IoErrorKind>(IoErrorKind::WouldBlock) ==> step is Wait
            && *final(registry) == *old(registry),
        (result is Err && result != Err::<(), IoErrorKind>(IoErrorKind::WouldBlock))
            ==> step is Fail && *final(registry) == *old(registry),
{
    match result {
        Ok(()) => {
            let (token, io_state) = registry.register();
            AcceptStep::Accepted { token, io_state }
        },
        Err(IoErrorKind::WouldBlock) => AcceptStep::Wait,
        Err(_) => AcceptStep::Fail,
    }
}

} // verus!
