//! Runtime counters: how many tasks were spawned and completed, how much I/O
//! the reactor saw. Every counter saturates at its maximum instead of wrapping.
use vstd::prelude::*;

verus! {

/// The counters that the runtime emits while it runs.
pub struct Metrics {
    pub tasks_spawned: u64,
    pub tasks_completed: u64,
    pub tasks_panicked: u64,
    pub io_events_processed: u64,
    pub bytes_read: u64,
    pub bytes_written: u64,
    pub reactor_polls: u64,
    /// A gauge rather than a counter: the last value that was set.
    pub tasks_in_progress: usize,
}

/// `count + by`, held at `u64::MAX` where it would overflow.
pub open spec fn bumped(count: u64, by: int) -> u64 {
    if count + by > u64::MAX {
        u64::MAX
    } else {
        (count + by) as u64
    }
}

/// Law: bumping a counter adds exactly the amount to it while the sum fits,
/// and holds it at `u64::MAX` once the sum would not fit.
pub proof fn lemma_bumped_adds_or_saturates(count: u64, by: int)
    requires
        by >= 0,
    ensures
        count + by <= u64::MAX ==> bumped(count, by) == count + by,
        count + by > u64::MAX ==> bumped(count, by) == u64::MAX,
        bumped(count, 0) == count,
{
}

/// Law: a counter never goes down, and bumping it by `a` and then by `b` is
/// bumping it by `a + b` at once.
pub proof fn lemma_bumps_compose(count: u64, a: int, b: int)
    requires
        a >= 0,
        b >= 0,
    ensures
        bumped(count, a) >= count,
        bumped(bumped(count, a), b) == bumped(count, a + b),
{
}

impl Metrics {
    /// All counters at zero.
    pub open spec fn zero() -> Metrics {
        Metrics {
            tasks_spawned: 0,
            tasks_completed: 0,
            tasks_panicked: 0,
            io_events_processed: 0,
            bytes_read: 0,
            bytes_written: 0,
            reactor_polls: 0,
            tasks_in_progress: 0,
        }
    }

    pub fn new() -> (m: Metrics)
        ensures
            m == Metrics::zero(),
    {
        Metrics {
            tasks_spawned: 0,
            tasks_completed: 0,
            tasks_panicked: 0,
            io_events_processed: 0,
            bytes_read: 0,
            bytes_written: 0,
            reactor_polls: 0,
            tasks_in_progress: 0,
        }
    }

    pub open spec fn with_tasks_spawned(self, v: u64) -> Metrics {
        Metrics { tasks_spawned: v, ..self }
    }

    pub open spec fn with_tasks_completed(self, v: u64) -> Metrics {
        Metrics { tasks_completed: v, ..self }
    }

    pub open spec fn with_tasks_panicked(self, v: u64) -> Metrics {
        Metrics { tasks_panicked: v, ..self }
    }

    pub open spec fn with_io_events_processed(self, v: u64) -> Metrics {
        Metrics { io_events_processed: v, ..self }
    }

    pub open spec fn with_bytes_read(self, v: u64) -> Metrics {
        Metrics { bytes_read: v, ..self }
    }

    pub open spec fn with_bytes_written(self, v: u64) -> Metrics {
        Metrics { bytes_written: v, ..self }
    }

    pub open spec fn with_reactor_polls(self, v: u64) -> Metrics {
        Metrics { reactor_polls: v, ..self }
    }

    pub open spec fn with_tasks_in_progress(self, v: usize) -> Metrics {
        Metrics { tasks_in_progress: v, ..self }
    }
}

/// A task was handed to the runtime.
pub fn task_spawned(m: &mut Metrics)
    ensures
        *final(m) == old(m).with_tasks_spawned(bumped(old(m).tasks_spawned, 1)),
{
    m.tasks_spawned = m.tasks_spawned.saturating_add(1);
}

/// A task's future returned `Ready`.
pub fn task_completed(m: &mut Metrics)
    ensures
        *final(m) == old(m).with_tasks_completed(bumped(old(m).tasks_completed, 1)),
{
    m.tasks_completed = m.tasks_completed.saturating_add(1);
}

/// A task's future panicked.
pub fn task_panicked(m: &mut Metrics)
    ensures
        *final(m) == old(m).with_tasks_panicked(bumped(old(m).tasks_panicked, 1)),
{
    m.tasks_panicked = m.tasks_panicked.saturating_add(1);
}

/// The reactor handed one readiness event to a registered I/O source.
pub fn io_event_processed(m: &mut Metrics)
    ensures
        *final(m) == old(m).with_io_events_processed(bumped(old(m).io_events_processed, 1)),
{
    m.io_events_processed = m.io_events_processed.saturating_add(1);
}

/// `n` bytes were read from a stream.
pub fn bytes_read(m: &mut Metrics, n: u64)
    ensures
        *final(m) == old(m).with_bytes_read(bumped(old(m).bytes_read, n as int)),
{
    m.bytes_read = m.bytes_read.saturating_add(n);
}

/// `n` bytes were written to a stream.
pub fn bytes_written(m: &mut Metrics, n: u64)
    ensures
        *final(m) == old(m).with_bytes_written(bumped(old(m).bytes_written, n as int)),
{
    m.bytes_written = m.bytes_written.saturating_add(n);
}

/// The reactor came back from one successful wait for readiness.
pub fn reactor_poll(m: &mut Metrics)
    ensures
        *final(m) == old(m).with_reactor_polls(bumped(old(m).reactor_polls, 1)),
{
    m.reactor_polls = m.reactor_polls.saturating_add(1);
}

/// Sets the gauge of tasks in progress to `n`.
pub fn tasks_in_progress(m: &mut Metrics, n: usize)
    ensures
        *final(m) == old(m).with_tasks_in_progress(n),
{
    m.tasks_in_progress = n;
}

} // verus!
