//! The decisions of the TCP futures: what a poll of an accept, a read or a
//! write does with what the non-blocking socket call came back with.
pub mod accept;
pub mod read;
pub mod write;

use vstd::prelude::*;
use crate::runtime::outcome::IoErrorKind;

verus! {

/// What a poll of a read or a write future does after its socket call.
#[derive(Clone, Copy, Debug, PartialEq, Eq, Structural)]
pub enum IoStep {
    /// The call moved this many bytes: the future is ready with that count.
    Complete(usize),
    /// The socket is not ready: register the task's waker and stay pending.
    Wait,
    /// The call failed: the future is ready with that error.
    Fail,
}

/// The step for a socket call that came back with `result`.
pub open spec fn io_step_of(result: Result<usize, IoErrorKind>) -> IoStep {
    match result {
        Ok(n) => IoStep::Complete(n),
        Err(IoErrorKind::WouldBlock) => IoStep::Wait,
        Err(_) => IoStep::Fail,
    }
}

/// The number of bytes that a socket call that came back with `result` moved.
pub open spec fn moved_bytes(result: Result<usize, IoErrorKind>) -> int {
    match result {
        Ok(n) => n as int,
        Err(_) => 0,
    }
}

/// Law: a call that moved `n` bytes completes the future with exactly `n`
/// and counts exactly `n` bytes; a call that would block waits and counts
/// nothing; any other error fails and counts nothing.
pub proof fn lemma_io_step_follows_result(result: Result<usize, IoErrorKind>)
    ensures
        forall|n: usize| result == Ok::<usize, IoErrorKind>(n) ==> io_step_of(result) == IoStep::Complete(n)
            && moved_bytes(result) == n as int,
        result == Err::<usize, IoErrorKind>(IoErrorKind::WouldBlock) ==> io_step_of(result) == IoStep::Wait
            && moved_bytes(result) == 0,
        result == Err::<usize, IoErrorKind>(IoErrorKind::Interrupted) ==> io_step_of(result) == IoStep::Fail
            && moved_bytes(result) == 0,
        result == Err::<usize, IoErrorKind>(IoErrorKind::Other) ==> io_step_of(result) == IoStep::Fail
            && moved_bytes(result) == 0,
{
}

} // verus!
