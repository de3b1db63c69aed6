//! The reactor's decision after each wait for readiness: which tasks to wake.
use std::sync::Arc;
use vstd::prelude::*;
use crate::runtime::metrics::{Metrics, bumped, io_event_processed, reactor_poll};
use crate::runtime::outcome::IoErrorKind;
use crate::runtime::state::{IoRegistry, IoState, looked_up};

verus! {

/// One readiness event as the poller reports it: the token that the source was
/// registered under, and whether it became readable and writable.
#[derive(Clone, Copy, Debug, PartialEq, Eq, Structural)]
pub struct ReadyEvent {
    pub token: usize,
    pub readable: bool,
    pub writable: bool,
}

/// What to do for one readiness event.
pub enum Dispatch {
    /// Wake the task waiting to read from the source (when `read`) and the one
    /// waiting to write to it (when `write`).
    Wake { io_state: Arc<IoState>, read: bool, write: bool },
    /// No source is registered under the token: report it and go on.
    Unknown { token: usize },
}

/// The reactor's decision after one wait for readiness.
pub enum ReactorStep {
    /// The wait was interrupted before anything happened: wait again.
    Retry,
    /// The wait failed: the reactor cannot go on.
    Fatal,
    /// The wait succeeded: carry out these dispatches, one per event, in order.
    Dispatch(Vec<Dispatch>),
    /// The runtime is shutting down: the reactor thread ends.
    Stop,
}

/// The dispatch for one event, given the registered I/O states.
pub open spec fn dispatch_of(entries: Map<usize, Arc<IoState>>, event: ReadyEvent) -> Dispatch {
    match looked_up(entries, event.token) {
        Some(io_state) => Dispatch::Wake { io_state, read: event.readable, write: event.writable },
        None => Dispatch::Unknown { token: event.token },
    }
}

/// How many of `events` name a registered token.
pub open spec fn known_events(entries: Map<usize, Arc<IoState>>, events: Seq<ReadyEvent>) -> nat
    decreases events.len(),
{
    if events.len() == 0 {
        0
    } else {
        known_events(entries, events.drop_last()) + if entries.dom().contains(events.last().token) {
            1nat
        } else {
            0nat
        }
    }
}

/// Law: the dispatch for an event of a registered source wakes that source's
/// reader exactly when the event is readable and its writer exactly when it
/// is writable; an event of any other token is reported with that token.
pub proof fn lemma_dispatch_wakes_exactly(entries: Map<usize, Arc<IoState>>, event: ReadyEvent)
    ensures
        entries.dom().contains(event.token) ==> dispatch_of(entries, event) == (Dispatch::Wake {
            io_state: entries[event.token],
            read: event.readable,
            write: event.writable,
        }),
        !entries.dom().contains(event.token) ==> dispatch_of(entries, event) == (Dispatch::Unknown {
            token: event.token,
        }),
{
}

/// Law: every event of a registered source counts as one processed event,
/// whatever its readiness, and an event of an unknown token counts as none;
/// so the count of a batch is at most its length.
pub proof fn lemma_known_events_counts_registered(
    entries: Map<usize, Arc<IoState>>,
    events: Seq<ReadyEvent>,
    event: ReadyEvent,
)
    ensures
        known_events(entries, Seq::empty()) == 0,
        entries.dom().contains(event.token) ==> known_events(entries, events.push(event))
            == known_events(entries, events) + 1,
        !entries.dom().contains(event.token) ==> known_events(entries, events.push(event))
            == known_events(entries, events),
        known_events(entries, events) <= events.len(),
    decreases events.len(),
{
    assert(events.push(event).drop_last() =~= events);
    if events.len() > 0 {
        lemma_known_events_counts_registered(entries, events.drop_last(), events.last());
    }
}

/// The counters after a successful wait that reported `events`: one more
/// reactor poll, and one more processed I/O event per event of a registered
/// source.
pub open spec fn counted_events(
    m: Metrics,
    entries: Map<usize, Arc<IoState>>,
    events: Seq<ReadyEvent>,
) -> Metrics {
    m.with_reactor_polls(bumped(m.reactor_polls, 1)).with_io_events_processed(
        bumped(m.io_events_processed, known_events(entries, events) as int),
    )
}

/// One turn of the reactor loop, after the wait for readiness came back with
/// `poll_result` and, when it succeeded, with `events`.
///
/// When the runtime is `stopping` (its `block_on` has returned and woke the
/// wait to say so) the reactor stops and counts nothing. Otherwise an interrupted wait is retried and changes nothing; any other failure is
/// fatal. After a successful wait every event is looked up by its token: the
/// source registered under it gets its reader woken when the event is
/// readable and its writer woken when it is writable, and an event of an
/// unknown token is reported.
pub fn run_reactor(
    registry: &IoRegistry,
    poll_result: Result<(), IoErrorKind>,
    events: &Vec<ReadyEvent>,
    stopping: bool,
    metrics: &mut Metrics,
) -> (step: ReactorStep)
    ensures
        stopping ==> step is Stop && *final(metrics) == *old(metrics),
        !stopping && poll_result == Err::<(), IoErrorKind>(IoErrorKind::Interrupted) ==> step is Retry
            && *final(metrics) == *old(metrics),
        !stopping && (poll_result is Err && poll_result != Err::<(), IoErrorKind>(IoErrorKind::Interrupted))
            ==> step is Fatal && *final(metrics) == *old(metrics),
        !stopping && poll_result is Ok ==> step is Dispatch
            && *final(metrics) == counted_events(*old(metrics), registry.entries(), events@),
        step matches ReactorStep::Dispatch(d) ==> d@.len() == events@.len() && forall|i: int|
            0 <= i < events@.len() ==> #[trigger] d@[i] == dispatch_of(registry.entries(), events@[i]),
        step matches ReactorStep::Dispatch(d) ==> forall|i: int|
            0 <= i < events@.len() && registry.entries().dom().contains(events@[i].token)
                ==> (#[trigger] d@[i] matches Dispatch::Wake { io_state, read, write }
                && io_state == registry.entries()[events@[i].token]
                && read == events@[i].readable && write == events@[i].writable),
        step matches ReactorStep::Dispatch(d) ==> forall|i: int|
            0 <= i < events@.len() && !registry.entries().dom().contains(events@[i].token)
                ==> (#[trigger] d@[i] matches Dispatch::Unknown { token }
                && token == events@[i].token),
        !stopping && poll_result is Ok ==> final(metrics).reactor_polls == (if old(metrics).reactor_polls
            == u64::MAX {
            u64::MAX
        } else {
            (old(metrics).reactor_polls + 1) as u64
        }) && final(metrics).io_events_processed == (if old(metrics).io_events_processed
            + known_events(registry.entries(), events@) > u64::MAX {
            u64::MAX
        } else {
            (old(metrics).io_events_processed + known_events(registry.entries(), events@)) as u64
        }),
{
    if stopping {
        return ReactorStep::Stop;
    }
    match poll_result {
        Err(IoErrorKind::Interrupted) => {
            return ReactorStep::Retry;
        },
        Err(_) => {
            return ReactorStep::Fatal;
        },
        Ok(()) => {},
    }
    reactor_poll(metrics);
    let ghost polled = *metrics;
    let mut dispatches: Vec<Dispatch> = Vec::new();
    let mut i: usize = 0;
    while i < events.len()
        invariant
            i <= events@.len(),
            dispatches@.len() == i,
            forall|j: int| 0 <= j < i ==> #[trigger] dispatches@[j] == dispatch_of(
                registry.entries(),
                events@[j],
            ),
            *metrics == polled.with_io_events_processed(
                bumped(polled.io_events_processed, known_events(registry.entries(), events@.take(i as int)) as int),
            ),
        decreases events@.len() - i,
    {
        let event = events[i];
        proof {
            assert(events@.take(i as int + 1).drop_last() =~= events@.take(i as int));
        }
        match registry.lookup(event.token) {
            Some(io_state) => {
                io_event_processed(metrics);
                dispatches.push(
                    Dispatch::Wake { io_state, read: event.readable, write: event.writable },
                );
            },
            None => {
                dispatches.push(Dispatch::Unknown { token: event.token });
            },
        }
        i = i + 1;
    }
    proof {
        assert(events@.take(events@.len() as int) =~= events@);
    }
    ReactorStep::Dispatch(dispatches)
}

} // verus!
