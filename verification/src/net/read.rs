//! Polling a read from a TCP stream.
use vstd::prelude::*;
use crate::net::{IoStep, io_step_of, moved_bytes};
use crate::runtime::metrics::{Metrics, bumped, bytes_read};
use crate::runtime::outcome::IoErrorKind;

verus! {

/// One poll of a read future, after the non-blocking read came back with
/// `result`: a read of `n` bytes (0 at the end of the stream) completes the
/// future and counts the bytes; a read that would block leaves it pending, to
/// be woken when the stream becomes readable; any other error completes it with
/// that error.
pub fn poll_read(result: Result<usize, IoErrorKind>, metrics: &mut Metrics) -> (step: IoStep)
    ensures
        step == io_step_of(result),
        *final(metrics) == old(metrics).with_bytes_read(
            bumped(old(metrics).bytes_read, moved_bytes(result)),
        ),
        forall|n: usize| result == Ok::<usize, IoErrorKind>(n) ==> step == IoStep::Complete(n)
            && final(metrics).bytes_read == (if old(metrics).bytes_read + n > u64::MAX {
                u64::MAX
            } else {
                (old(metrics).bytes_read + n) as u64
            }),
        result == Err::<usize, IoErrorKind>(IoErrorKind::WouldBlock) ==> step == IoStep::Wait
            && *final(metrics) == *old(metrics),
        (result is Err && result != Err::<usize, IoErrorKind>(IoErrorKind::WouldBlock)) ==> step
            == IoStep::Fail && *final(metrics) == *old(metrics),
{
    match result {
        Ok(n) => {
            if n > 0 {
                bytes_read(metrics, n as u64);
            }
            IoStep::Complete(n)
        },
        Err(IoErrorKind::WouldBlock) => IoStep::Wait,
        Err(_) => IoStep::Fail,
    }
}

} // verus!
