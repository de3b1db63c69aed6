//! The executor's run queue and the decision it takes on each turn of its loop.
//!
//! The queue is last-in, first-out: the task woken or spawned most recently is
//! the one polled next.
use vstd::prelude::*;
use crate::runtime::metrics::{Metrics, bumped, task_completed, task_spawned};

verus! {

/// The tasks waiting to be polled, in the order they were pushed.
pub struct TaskQueue<T> {
    tasks: Vec<T>,
}

/// The queue after `task` was pushed onto `queue`.
pub open spec fn pushed<T>(queue: Seq<T>, task: T) -> Seq<T> {
    queue.push(task)
}

/// The queue after one pop, and what the pop handed out: the last task pushed,
/// or nothing when the queue was empty.
pub open spec fn popped<T>(queue: Seq<T>) -> (Seq<T>, Option<T>) {
    if queue.len() == 0 {
        (queue, None)
    } else {
        (queue.drop_last(), Some(queue.last()))
    }
}

impl<T> View for TaskQueue<T> {
    type V = Seq<T>;

    closed spec fn view(&self) -> Seq<T> {
        self.tasks@
    }
}

impl<T> TaskQueue<T> {
    pub fn new() -> (q: TaskQueue<T>)
        ensures
            q@ == Seq::<T>::empty(),
    {
        TaskQueue { tasks: Vec::new() }
    }

    /// Puts a task on the queue: what waking a task does.
    pub fn push(&mut self, task: T)
        ensures
            final(self)@ == pushed(old(self)@, task),
    {
        self.tasks.push(task);
    }

    /// Takes the most recently pushed task off the queue.
    pub fn pop(&mut self) -> (task: Option<T>)
        ensures
            (final(self)@, task) == popped(old(self)@),
    {
        self.tasks.pop()
    }

    pub fn len(&self) -> (n: usize)
        ensures
            n == self@.len(),
    {
        self.tasks.len()
    }
}

/// What a poll of a task's future came back with.
pub enum PollOutcome {
    Ready,
    Pending,
}

/// The counters after the outcome of a poll was taken into account: one more
/// completed task for `Ready`, nothing for `Pending` or when nothing was polled.
pub open spec fn counted_outcome(m: Metrics, polled: Option<PollOutcome>) -> Metrics {
    match polled {
        Some(PollOutcome::Ready) => m.with_tasks_completed(bumped(m.tasks_completed, 1)),
        _ => m,
    }
}

/// Hands a new task to the runtime: counts it as spawned and queues it.
pub fn spawn<T>(queue: &mut TaskQueue<T>, metrics: &mut Metrics, task: T)
    ensures
        final(queue)@ == pushed(old(queue)@, task),
        *final(metrics) == old(metrics).with_tasks_spawned(bumped(old(metrics).tasks_spawned, 1)),
{
    task_spawned(metrics);
    queue.push(task);
}

/// What the executor does next.
pub enum ExecutorStep<T> {
    /// The next task to run. The caller runs it without holding the queue's
    /// lock, since the task may put itself back on the queue meanwhile.
    Poll(T),
    /// The queue is empty: nothing to poll on this turn.
    Idle,
    /// The runtime's task has finished: the executor stops and `block_on`
    /// returns.
    Done,
}

/// The queue and the step after one turn of the executor loop.
///
/// A runtime runs one task, the future handed to `block_on`; waking it only
/// puts that same task on the queue again. So a poll that came back `Ready`
/// means the future has finished, and the executor stops, leaving any stale
/// wake-ups in the queue unpolled. Otherwise the turn takes the most recently
/// queued task, or finds nothing to do.
pub open spec fn executor_turn<T>(queue: Seq<T>, polled: Option<PollOutcome>) -> (Seq<T>, ExecutorStep<T>) {
    match polled {
        Some(PollOutcome::Ready) => (queue, ExecutorStep::Done),
        _ => match popped(queue).1 {
            Some(task) => (popped(queue).0, ExecutorStep::Poll(task)),
            None => (queue, ExecutorStep::Idle),
        },
    }
}

/// One turn of the executor loop.
///
/// `polled` is what the poll of the previous turn's task returned (`None` when
/// the previous turn found the queue empty, or on the first turn). The turn
/// counts that outcome as `counted_outcome` says and then decides as
/// `executor_turn` says.
pub fn run_executor<T>(
    queue: &mut TaskQueue<T>,
    metrics: &mut Metrics,
    polled: Option<PollOutcome>,
) -> (step: ExecutorStep<T>)
    ensures
        *final(metrics) == counted_outcome(*old(metrics), polled),
        (final(queue)@, step) == executor_turn(old(queue)@, polled),
{
    match polled {
        Some(PollOutcome::Ready) => {
            task_completed(metrics);
            ExecutorStep::Done
        },
        _ => match queue.pop() {
            Some(task) => ExecutorStep::Poll(task),
            None => ExecutorStep::Idle,
        },
    }
}

/// Law: the executor stops exactly when the last poll finished the runtime's
/// task, and it polls exactly the tasks that the queue hands out, last queued
/// first.
pub proof fn lemma_executor_stops_after_ready<T>(queue: Seq<T>, polled: Option<PollOutcome>)
    ensures
        (executor_turn(queue, polled).1 is Done) <==> polled == Some(PollOutcome::Ready),
        polled != Some(PollOutcome::Ready) && queue.len() > 0 ==> executor_turn(queue, polled)
            == (queue.drop_last(), ExecutorStep::Poll(queue.last())),
        polled != Some(PollOutcome::Ready) && queue.len() == 0 ==> executor_turn(queue, polled)
            == (queue, ExecutorStep::<T>::Idle),
{
}

/// Law: a pop right after a push hands out the task just pushed and leaves the
/// queue as it was before the push.
pub proof fn lemma_pop_undoes_push<T>(queue: Seq<T>, task: T)
    ensures
        popped(pushed(queue, task)) == (queue, Some(task)),
{
    assert(pushed(queue, task).drop_last() =~= queue);
}

/// Law: a pop never loses or invents a task; the queue before it is the queue
/// after it with the handed-out task put back on top.
pub proof fn lemma_pop_keeps_tasks<T>(queue: Seq<T>)
    ensures
        popped(queue).1 is None <==> queue.len() == 0,
        popped(queue).1 is Some ==> pushed(popped(queue).0, popped(queue).1->0) == queue,
        popped(queue).1 is None ==> popped(queue).0 == queue,
{
    if queue.len() > 0 {
        assert(queue.drop_last().push(queue.last()) =~= queue);
    }
}

} // verus!
