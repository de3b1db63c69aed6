//! A small async runtime: a last-in-first-out executor, a reactor that wakes
//! tasks on readiness, and TCP and timer futures. The decisions that these take
//! are the verified part; waiting, polling futures and socket calls are done by
//! the caller around them.
pub mod net;
pub mod runtime;
pub mod timer;

use vstd::prelude::*;

verus! {

/// Installs the runtime's log output. Without a log backend this does nothing.
pub fn init_tracing() {
}

} // verus!
