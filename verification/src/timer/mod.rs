//! Polling a timer future.
use std::sync::Arc;
use vstd::prelude::*;
use crate::runtime::state::{IoRegistry, IoState, registered, share, slot_limit};

verus! {

/// What a poll of a timer does.
#[derive(Clone, Copy, Debug, PartialEq, Eq, Structural)]
pub enum TimerStep {
    /// The deadline has passed: the timer is ready.
    Ready,
    /// The deadline is still ahead: register the task's waker and stay pending.
    Pending,
}

/// One poll of a timer whose state is `io_state` and whose registration token,
/// once it has one, is `slab_key`.
///
/// When the deadline has passed the timer is ready and nothing changes.
/// Otherwise it stays pending and, the first time only, registers its state
/// with the reactor and keeps the token it got.
pub fn poll_timer(
    registry: &mut IoRegistry,
    deadline_reached: bool,
    slab_key: &mut Option<usize>,
    io_state: &Arc<IoState>,
) -> (step: TimerStep)
    requires
        !deadline_reached && (*old(slab_key)) is None ==> old(registry).count() < slot_limit(),
    ensures
        deadline_reached ==> step == TimerStep::Ready && *final(registry) == *old(registry)
            && *final(slab_key) == *old(slab_key),
        !deadline_reached ==> step == TimerStep::Pending,
        !deadline_reached && (*old(slab_key)) is Some ==> *final(registry) == *old(registry)
            && *final(slab_key) == *old(slab_key),
        !deadline_reached && (*old(slab_key)) is None ==> *final(slab_key) == Some(
            old(registry).count() as usize,
        ) && !old(registry).entries().dom().contains(old(registry).count() as usize) && final(registry).count() == old(registry).count() + 1 && final(registry).entries()
            == registered(old(registry).entries(), old(registry).count() as usize, *io_state),
{
    if deadline_reached {
        return TimerStep::Ready;
    }
    if slab_key.is_none() {
        let token = registry.insert(share(io_state));
        *slab_key = Some(token);
    }
    TimerStep::Pending
}

} // verus!
