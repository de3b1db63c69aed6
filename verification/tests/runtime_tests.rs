use std::sync::Arc;

use tokio_lite::init_tracing;
use tokio_lite::runtime::context::{enter, leave, state};
use tokio_lite::runtime::executor::{run_executor, spawn, ExecutorStep, PollOutcome, TaskQueue};
use tokio_lite::runtime::metrics::{
    bytes_read, bytes_written, io_event_processed, reactor_poll, task_completed, task_panicked,
    task_spawned, tasks_in_progress, Metrics,
};
use tokio_lite::runtime::outcome::IoErrorKind;
use tokio_lite::runtime::reactor::{run_reactor, Dispatch, ReactorStep, ReadyEvent};
use tokio_lite::runtime::state::{IoRegistry, IoState};

#[test]
fn init_tracing_is_harmless() {
    init_tracing();
    init_tracing();
}

#[test]
fn metrics_start_at_zero() {
    let m = Metrics::new();
    assert_eq!(m.tasks_spawned, 0);
    assert_eq!(m.tasks_completed, 0);
    assert_eq!(m.tasks_panicked, 0);
    assert_eq!(m.io_events_processed, 0);
    assert_eq!(m.bytes_read, 0);
    assert_eq!(m.bytes_written, 0);
    assert_eq!(m.reactor_polls, 0);
    assert_eq!(m.tasks_in_progress, 0);
}

#[test]
fn each_metric_counts_only_its_own_event() {
    let mut m = Metrics::new();
    task_spawned(&mut m);
    task_spawned(&mut m);
    task_completed(&mut m);
    task_panicked(&mut m);
    io_event_processed(&mut m);
    bytes_read(&mut m, 10);
    bytes_read(&mut m, 5);
    bytes_written(&mut m, 7);
    reactor_poll(&mut m);
    tasks_in_progress(&mut m, 3);
    tasks_in_progress(&mut m, 2);
    assert_eq!(m.tasks_spawned, 2);
    assert_eq!(m.tasks_completed, 1);
    assert_eq!(m.tasks_panicked, 1);
    assert_eq!(m.io_events_processed, 1);
    assert_eq!(m.bytes_read, 15);
    assert_eq!(m.bytes_written, 7);
    assert_eq!(m.reactor_polls, 1);
    assert_eq!(m.tasks_in_progress, 2);
}

#[test]
fn counters_saturate_at_max() {
    let mut m = Metrics::new();
    bytes_read(&mut m, u64::MAX - 1);
    bytes_read(&mut m, 5);
    assert_eq!(m.bytes_read, u64::MAX);
    m.tasks_spawned = u64::MAX;
    task_spawned(&mut m);
    assert_eq!(m.tasks_spawned, u64::MAX);
    assert_eq!(m.bytes_written, 0);
}

#[test]
fn queue_pops_last_pushed_first() {
    let mut q: TaskQueue<u32> = TaskQueue::new();
    assert_eq!(q.pop(), None);
    q.push(1);
    q.push(2);
    q.push(3);
    assert_eq!(q.len(), 3);
    assert_eq!(q.pop(), Some(3));
    assert_eq!(q.pop(), Some(2));
    q.push(4);
    assert_eq!(q.pop(), Some(4));
    assert_eq!(q.pop(), Some(1));
    assert_eq!(q.pop(), None);
    assert_eq!(q.len(), 0);
}

#[test]
fn pop_after_push_restores_queue() {
    let mut q: TaskQueue<&str> = TaskQueue::new();
    q.push("a");
    q.push("b");
    q.push("c");
    assert_eq!(q.pop(), Some("c"));
    assert_eq!(q.len(), 2);
    assert_eq!(q.pop(), Some("b"));
}

#[test]
fn spawn_counts_and_queues() {
    let mut q: TaskQueue<u8> = TaskQueue::new();
    let mut m = Metrics::new();
    spawn(&mut q, &mut m, 9);
    assert_eq!(m.tasks_spawned, 1);
    assert_eq!(q.len(), 1);
    assert_eq!(q.pop(), Some(9));
}

#[test]
fn executor_turn_takes_tasks_last_queued_first() {
    let mut q: TaskQueue<u8> = TaskQueue::new();
    let mut m = Metrics::new();
    spawn(&mut q, &mut m, 1);
    q.push(2);

    assert!(matches!(run_executor(&mut q, &mut m, None), ExecutorStep::Poll(2)));
    assert_eq!(m.tasks_completed, 0);
    assert!(matches!(run_executor(&mut q, &mut m, Some(PollOutcome::Pending)), ExecutorStep::Poll(1)));
    assert!(matches!(run_executor(&mut q, &mut m, Some(PollOutcome::Pending)), ExecutorStep::Idle));
    assert!(matches!(run_executor(&mut q, &mut m, None), ExecutorStep::Idle));
    assert_eq!(m.tasks_completed, 0);
    assert_eq!(m.tasks_spawned, 1);
}

#[test]
fn executor_stops_once_the_task_is_ready() {
    let mut q: TaskQueue<u8> = TaskQueue::new();
    let mut m = Metrics::new();
    spawn(&mut q, &mut m, 1);
    assert!(matches!(run_executor(&mut q, &mut m, None), ExecutorStep::Poll(1)));
    // The task woke itself while it was polled, then finished.
    q.push(1);
    assert!(matches!(run_executor(&mut q, &mut m, Some(PollOutcome::Ready)), ExecutorStep::Done));
    assert_eq!(m.tasks_completed, 1);
    assert_eq!(q.len(), 1);
}

#[test]
fn registry_hands_out_consecutive_tokens() {
    let mut r = IoRegistry::new();
    assert_eq!(r.len(), 0);
    assert!(r.has_room());
    let (t0, s0) = r.register();
    let (t1, s1) = r.register();
    let t2 = r.insert(Arc::new(IoState::new()));
    assert_eq!((t0, t1, t2), (0, 1, 2));
    assert_eq!(r.len(), 3);
    assert!(Arc::ptr_eq(&r.lookup(0).unwrap(), &s0));
    assert!(Arc::ptr_eq(&r.lookup(1).unwrap(), &s1));
    assert!(!Arc::ptr_eq(&r.lookup(0).unwrap(), &s1));
    assert!(r.lookup(3).is_none());
    assert!(r.lookup(usize::MAX).is_none());
}

#[test]
fn registry_stores_the_given_state() {
    let mut r = IoRegistry::new();
    let s = Arc::new(IoState::new());
    let t = r.insert(s.clone());
    assert_eq!(t, 0);
    assert!(Arc::ptr_eq(&r.lookup(t).unwrap(), &s));
    assert_eq!(Arc::strong_count(&s), 2);
}

#[test]
fn reactor_retries_after_interrupt() {
    let r = IoRegistry::new();
    let mut m = Metrics::new();
    let events = vec![ReadyEvent { token: 0, readable: true, writable: false }];
    let step = run_reactor(&r, Err(IoErrorKind::Interrupted), &events, false, &mut m);
    assert!(matches!(step, ReactorStep::Retry));
    assert_eq!(m.reactor_polls, 0);
    assert_eq!(m.io_events_processed, 0);
}

#[test]
fn reactor_gives_up_on_other_errors() {
    let r = IoRegistry::new();
    let mut m = Metrics::new();
    let events = vec![];
    assert!(matches!(run_reactor(&r, Err(IoErrorKind::Other), &events, false, &mut m), ReactorStep::Fatal));
    assert!(matches!(
        run_reactor(&r, Err(IoErrorKind::WouldBlock), &events, false, &mut m),
        ReactorStep::Fatal
    ));
    assert_eq!(m.reactor_polls, 0);
}

#[test]
fn reactor_dispatches_each_event() {
    let mut r = IoRegistry::new();
    let (t0, s0) = r.register();
    let (t1, s1) = r.register();
    let mut m = Metrics::new();
    let events = vec![
        ReadyEvent { token: t1, readable: true, writable: true },
        ReadyEvent { token: 7, readable: true, writable: false },
        ReadyEvent { token: t0, readable: false, writable: true },
    ];
    let step = run_reactor(&r, Ok(()), &events, false, &mut m);
    let dispatches = match step {
        ReactorStep::Dispatch(d) => d,
        _ => panic!("expected dispatches"),
    };
    assert_eq!(dispatches.len(), 3);
    match &dispatches[0] {
        Dispatch::Wake { io_state, read, write } => {
            assert!(Arc::ptr_eq(io_state, &s1));
            assert!(*read && *write);
        }
        _ => panic!("expected a wake"),
    }
    match &dispatches[1] {
        Dispatch::Unknown { token } => assert_eq!(*token, 7),
        _ => panic!("expected an unknown token"),
    }
    match &dispatches[2] {
        Dispatch::Wake { io_state, read, write } => {
            assert!(Arc::ptr_eq(io_state, &s0));
            assert!(!*read && *write);
        }
        _ => panic!("expected a wake"),
    }
    assert_eq!(m.reactor_polls, 1);
    assert_eq!(m.io_events_processed, 2);
}

#[test]
fn reactor_with_no_events_still_counts_the_poll() {
    let r = IoRegistry::new();
    let mut m = Metrics::new();
    let step = run_reactor(&r, Ok(()), &vec![], false, &mut m);
    match step {
        ReactorStep::Dispatch(d) => assert!(d.is_empty()),
        _ => panic!("expected dispatches"),
    }
    assert_eq!(m.reactor_polls, 1);
    assert_eq!(m.io_events_processed, 0);
}

#[test]
fn leaving_restores_the_outer_context() {
    let mut ctx: Option<&str> = None;
    let outer = enter(&mut ctx, "outer");
    assert_eq!(ctx, Some("outer"));
    assert_eq!(*state(&ctx), "outer");
    let inner = enter(&mut ctx, "inner");
    assert_eq!(*state(&ctx), "inner");
    leave(&mut ctx, inner);
    assert_eq!(ctx, Some("outer"));
    leave(&mut ctx, outer);
    assert_eq!(ctx, None);
}

#[test]
fn reactor_stops_when_the_runtime_shuts_down() {
    let mut r = IoRegistry::new();
    let (t0, _) = r.register();
    let mut m = Metrics::new();
    let events = vec![ReadyEvent { token: t0, readable: true, writable: true }];
    assert!(matches!(run_reactor(&r, Ok(()), &events, true, &mut m), ReactorStep::Stop));
    assert!(matches!(
        run_reactor(&r, Err(IoErrorKind::Other), &events, true, &mut m),
        ReactorStep::Stop
    ));
    assert_eq!(m.reactor_polls, 0);
    assert_eq!(m.io_events_processed, 0);
}

#[test]
fn registered_tokens_were_free_and_stay_distinct() {
    let mut r = IoRegistry::new();
    let (a, sa) = r.register();
    let (b, sb) = r.register();
    assert_ne!(a, b);
    assert!(Arc::ptr_eq(&r.lookup(a).unwrap(), &sa));
    assert!(Arc::ptr_eq(&r.lookup(b).unwrap(), &sb));
    assert!(r.lookup(r.len()).is_none());
}
