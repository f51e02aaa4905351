use std::collections::VecDeque;
use vstd::prelude::*;

use crate::state::State;
use crate::status::Status;
use crate::task::{failures, run_all, Task, TaskBehavior, TaskState};
use crate::worker::{restamp, Hammer, Worker};

verus! {

/// How many submitted tasks may wait for the worker at once.
pub const CHANNEL_CAPACITY: usize = 100;

/// Why a submission was not taken; the task is handed back.
pub enum SubmitError<B> {
    /// The buffer holds as many tasks as it can; submit again once a task has
    /// been executed.
    Full(Task<B>),
    /// The scheduler was closed and takes no more tasks.
    Closed(Task<B>),
}

/// Whether a scheduler that is `closed` or not, with room for `capacity`
/// waiting tasks of which `pending` are taken, accepts one more.
pub open spec fn accepts(closed: bool, capacity: usize, pending: nat) -> bool {
    !closed && pending < capacity
}

/// A bounded first-in first-out submission buffer in front of a single
/// worker, which executes buffered tasks one at a time in arrival order.
pub struct TaskScheduler<B> {
    pub buffer: VecDeque<Task<B>>,
    pub capacity: usize,
    pub closed: bool,
    pub worker: Worker<B>,
}

impl<B: TaskBehavior> TaskScheduler<B> {
    /// The buffer stays within its capacity and the worker can take a task.
    pub open spec fn wf(&self) -> bool {
        &&& 0 < self.capacity
        &&& self.buffer@.len() <= self.capacity
        &&& self.worker.ready()
    }

    /// An open scheduler with the default capacity whose worker holds `state`.
    pub fn new(state: State) -> (r: Self)
        ensures
            r.wf(),
            r.capacity == CHANNEL_CAPACITY,
            r.buffer@.len() == 0,
            !r.closed,
            r.worker.shared() == state,
            r.worker.next_slot() == 0,
            r.worker.slots() == Map::<usize, Task<B>>::empty(),
    {
        TaskScheduler::with_capacity(state, CHANNEL_CAPACITY)
    }

    /// An open scheduler whose buffer holds up to `capacity` waiting tasks
    /// and whose worker holds `state`.
    pub fn with_capacity(state: State, capacity: usize) -> (r: Self)
        requires
            capacity > 0,
        ensures
            r.wf(),
            r.capacity == capacity,
            r.buffer@.len() == 0,
            !r.closed,
            r.worker.shared() == state,
            r.worker.next_slot() == 0,
            r.worker.slots() == Map::<usize, Task<B>>::empty(),
    {
        TaskScheduler {
            buffer: VecDeque::new(),
            capacity,
            closed: false,
            worker: Worker::new(state),
        }
    }

    /// Submits `task`. It joins the back of the buffer when the scheduler is
    /// open and the buffer has room; otherwise it is handed back, marked as
    /// refused for want of room or because the scheduler is closed.
    pub fn add(&mut self, task: Task<B>) -> (r: Result<(), SubmitError<B>>)
        requires
            old(self).wf(),
        ensures
            add_step(*old(self), task, *final(self), r),
    {
        if self.closed {
            Err(SubmitError::Closed(task))
        } else if self.buffer.len() >= self.capacity {
            Err(SubmitError::Full(task))
        } else {
            self.buffer.push_back(task);
            Ok(())
        }
    }

    /// Takes the oldest buffered task, executes it on the worker, clears its
    /// state handle, and returns its final status record; `None` when no task
    /// is waiting.
    pub fn process_next(&mut self) -> (r: Option<TaskState>)
        requires
            old(self).wf(),
        ensures
            dispatch_step(*old(self), *final(self), r),
    {
        match self.buffer.pop_front() {
            Some(mut task) => {
                let record = self.worker.execute(&mut task);
                task._state = None;
                Some(record)
            },
            None => None,
        }
    }

    /// Stops taking submissions; tasks already buffered are still executed.
    pub fn close(&mut self)
        requires
            old(self).wf(),
        ensures
            final(self).wf(),
            final(self).closed,
            final(self).capacity == old(self).capacity,
            final(self).buffer@ == old(self).buffer@,
            final(self).worker == old(self).worker,
    {
        self.closed = true;
    }

    /// How many submitted tasks wait for the worker.
    pub fn pending(&self) -> (r: usize)
        ensures
            r == self.buffer@.len(),
    {
        self.buffer.len()
    }

    /// Whether the execution loop is done: closed, with nothing left to run.
    pub fn is_finished(&self) -> (r: bool)
        ensures
            r == (self.closed && self.buffer@.len() == 0),
    {
        self.closed && self.buffer.len() == 0
    }

    /// The shared state as the worker holds it.
    pub fn state(&self) -> (r: &State)
        ensures
            *r == self.worker.shared(),
    {
        &self.worker._state
    }
}

/// What one call of `add` does: `after` is the scheduler that `add(task)`
/// leaves when called on `before`, and `r` is what it returns. The task joins
/// the back of the buffer exactly when the scheduler accepts one more;
/// otherwise it is handed back, refused as closed or for want of room.
pub open spec fn add_step<B: TaskBehavior>(
    before: TaskScheduler<B>,
    task: Task<B>,
    after: TaskScheduler<B>,
    r: Result<(), SubmitError<B>>,
) -> bool {
    &&& after.wf()
    &&& after.capacity == before.capacity
    &&& after.closed == before.closed
    &&& after.worker == before.worker
    &&& accepts(before.closed, before.capacity, before.buffer@.len()) ==> {
        &&& r is Ok
        &&& after.buffer@ == before.buffer@.push(task)
    }
    &&& !accepts(before.closed, before.capacity, before.buffer@.len()) ==> {
        &&& after.buffer@ == before.buffer@
        &&& before.closed ==> r == Err::<(), SubmitError<B>>(SubmitError::Closed(task))
        &&& !before.closed ==> r == Err::<(), SubmitError<B>>(SubmitError::Full(task))
    }
}

/// What one call of `process_next` does: `after` is the scheduler that it
/// leaves when called on `before`, and `r` is what it returns. With a task
/// waiting, the oldest one leaves the buffer and is executed on the worker,
/// and its completed record is returned; with none, nothing changes.
pub open spec fn dispatch_step<B: TaskBehavior>(
    before: TaskScheduler<B>,
    after: TaskScheduler<B>,
    r: Option<TaskState>,
) -> bool {
    &&& after.wf()
    &&& after.capacity == before.capacity
    &&& after.closed == before.closed
    &&& after.worker.next_slot() == before.worker.next_slot()
    &&& before.buffer@.len() == 0 ==> {
        &&& r is None
        &&& after.buffer@ == before.buffer@
        &&& after.worker == before.worker
    }
    &&& before.buffer@.len() > 0 ==> {
        let front = before.buffer@[0];
        let slot = before.worker.next_slot();
        let queued = restamp(front.task_state, Status::Queued, slot);
        &&& after.buffer@ == before.buffer@.drop_first()
        &&& r == Some(restamp(front.task_state, Status::Completed, slot))
        &&& after.worker.shared() == run_all(front.behaviors@, queued, before.worker.shared())
        &&& after.worker.journal().len() == before.worker.journal().len() + failures(
            front.behaviors@,
            queued,
            before.worker.shared(),
        )
        &&& after.worker.slots() == before.worker.slots().insert(
            slot,
            Task { behaviors: front.behaviors, task_state: queued, _state: None },
        )
    }
}

/// One call made on a scheduler, with what it returned.
pub enum Step<B> {
    /// `add` of the task, with its result.
    Submit(Task<B>, Result<(), SubmitError<B>>),
    /// `process_next`, with its result.
    Run(Option<TaskState>),
}

/// `states[k + 1]` is what the `k`-th call of `steps` left when made on
/// `states[k]`, for every call.
pub open spec fn valid_trace<B: TaskBehavior>(
    states: Seq<TaskScheduler<B>>,
    steps: Seq<Step<B>>,
) -> bool {
    &&& states.len() == steps.len() + 1
    &&& forall|k: int|
        0 <= k < steps.len() ==> match #[trigger] steps[k] {
            Step::Submit(t, r) => add_step(states[k], t, states[k + 1], r),
            Step::Run(r) => dispatch_step(states[k], states[k + 1], r),
        }
}

/// The tasks whose submission succeeded, in the order of the calls.
pub open spec fn accepted_tasks<B>(steps: Seq<Step<B>>) -> Seq<Task<B>>
    decreases steps.len(),
{
    if steps.len() == 0 {
        Seq::empty()
    } else {
        let earlier = accepted_tasks(steps.drop_last());
        match steps.last() {
            Step::Submit(t, Ok(_)) => earlier.push(t),
            _ => earlier,
        }
    }
}

/// The records that executions returned, in the order of the calls.
pub open spec fn completed_records<B>(steps: Seq<Step<B>>) -> Seq<TaskState>
    decreases steps.len(),
{
    if steps.len() == 0 {
        Seq::empty()
    } else {
        let earlier = completed_records(steps.drop_last());
        match steps.last() {
            Step::Run(Some(rec)) => earlier.push(rec),
            _ => earlier,
        }
    }
}

proof fn lemma_trace_prefix<B: TaskBehavior>(
    states: Seq<TaskScheduler<B>>,
    steps: Seq<Step<B>>,
    k: int,
)
    requires
        valid_trace(states, steps),
        states[0].buffer@.len() == 0,
        0 <= k <= steps.len(),
    ensures
        ({
            let acc = accepted_tasks(steps.take(k));
            let done = completed_records(steps.take(k));
            &&& done.len() <= acc.len()
            &&& states[k].buffer@ == acc.subrange(done.len() as int, acc.len() as int)
            &&& states[k].worker.next_slot() == states[0].worker.next_slot()
            &&& forall|j: int|
                0 <= j < done.len() ==> #[trigger] done[j] == restamp(
                    acc[j].task_state,
                    Status::Completed,
                    states[0].worker.next_slot(),
                )
        }),
    decreases k,
{
    if k == 0 {
        assert(steps.take(0) =~= Seq::<Step<B>>::empty());
        assert(states[0].buffer@ =~= Seq::<Task<B>>::empty().subrange(0, 0));
    } else {
        lemma_trace_prefix(states, steps, k - 1);
        let prev = steps.take(k - 1);
        let cur = steps.take(k);
        assert(cur.drop_last() =~= prev);
        assert(cur.last() == steps[k - 1]);
        let acc0 = accepted_tasks(prev);
        let done0 = completed_records(prev);
        let acc = accepted_tasks(cur);
        let done = completed_records(cur);
        let before = states[k - 1];
        let after = states[k];
        match steps[k - 1] {
            Step::Submit(t, r) => {
                assert(add_step(before, t, after, r));
                assert(done == done0);
                if accepts(before.closed, before.capacity, before.buffer@.len()) {
                    assert(acc == acc0.push(t));
                    assert(after.buffer@ =~= acc.subrange(done.len() as int, acc.len() as int));
                } else {
                    assert(acc == acc0);
                }
            },
            Step::Run(r) => {
                assert(dispatch_step(before, after, r));
                assert(acc == acc0);
                if before.buffer@.len() > 0 {
                    assert(before.buffer@[0] == acc0[done0.len() as int]);
                    assert(done == done0.push(r->Some_0));
                    assert(after.buffer@ =~= acc.subrange(done.len() as int, acc.len() as int));
                } else {
                    assert(done == done0);
                }
            },
        }
    }
}

/// Tasks are executed in the order in which their submissions succeeded.
/// Along any sequence of `add` and `process_next` calls that starts from an
/// empty buffer, the `j`-th record that `process_next` returns is the
/// completed record of the `j`-th task that `add` accepted.
pub proof fn lemma_fifo<B: TaskBehavior>(states: Seq<TaskScheduler<B>>, steps: Seq<Step<B>>)
    requires
        valid_trace(states, steps),
        states[0].buffer@.len() == 0,
    ensures
        completed_records(steps).len() <= accepted_tasks(steps).len(),
        forall|j: int|
            0 <= j < completed_records(steps).len() ==> #[trigger] completed_records(steps)[j]
                == restamp(
                accepted_tasks(steps)[j].task_state,
                Status::Completed,
                states[0].worker.next_slot(),
            ),
{
    lemma_trace_prefix(states, steps, steps.len() as int);
    assert(steps.take(steps.len() as int) =~= steps);
}

/// With a full buffer on an open scheduler, `add` is refused for want of
/// room and hands the task back; once `process_next` has executed a waiting
/// task, the same `add` is accepted.
pub proof fn lemma_backpressure<B: TaskBehavior>(
    full: TaskScheduler<B>,
    task: Task<B>,
    refused: TaskScheduler<B>,
    r1: Result<(), SubmitError<B>>,
    drained: TaskScheduler<B>,
    done: Option<TaskState>,
    accepted: TaskScheduler<B>,
    r2: Result<(), SubmitError<B>>,
)
    requires
        full.wf(),
        !full.closed,
        full.buffer@.len() == full.capacity,
        add_step(full, task, refused, r1),
        dispatch_step(refused, drained, done),
        add_step(drained, task, accepted, r2),
    ensures
        r1 == Err::<(), SubmitError<B>>(SubmitError::Full(task)),
        refused.buffer@ == full.buffer@,
        done is Some,
        r2 is Ok,
        accepted.buffer@ == full.buffer@.drop_first().push(task),
{
}

/// Starting from an empty, open scheduler with room for `capacity` tasks,
/// the first `capacity` submissions are accepted and the next one is
/// refused for want of room.
pub proof fn lemma_fills_to_capacity<B: TaskBehavior>(
    states: Seq<TaskScheduler<B>>,
    steps: Seq<Step<B>>,
)
    requires
        valid_trace(states, steps),
        states[0].buffer@.len() == 0,
        !states[0].closed,
        steps.len() == states[0].capacity + 1,
        forall|k: int| 0 <= k < steps.len() ==> #[trigger] steps[k] is Submit,
    ensures
        forall|k: int|
            0 <= k < states[0].capacity ==> #[trigger] steps[k]->Submit_1 is Ok,
        steps[states[0].capacity as int]->Submit_1 == Err::<(), SubmitError<B>>(
            SubmitError::Full(steps[states[0].capacity as int]->Submit_0),
        ),
{
    let cap = states[0].capacity;
    assert forall|k: int| 0 <= k <= cap implies #[trigger] states[k].buffer@.len() == k
        && !states[k].closed && states[k].capacity == cap by {
        lemma_fill(states, steps, k);
    }
    assert forall|k: int| 0 <= k < cap implies #[trigger] steps[k]->Submit_1 is Ok by {
        lemma_fill(states, steps, k);
        assert(add_step(states[k], steps[k]->Submit_0, states[k + 1], steps[k]->Submit_1));
    }
    lemma_fill(states, steps, cap as int);
    assert(add_step(states[cap as int], steps[cap as int]->Submit_0, states[cap + 1], steps[cap as int]->Submit_1));
}

proof fn lemma_fill<B: TaskBehavior>(states: Seq<TaskScheduler<B>>, steps: Seq<Step<B>>, k: int)
    requires
        valid_trace(states, steps),
        states[0].buffer@.len() == 0,
        !states[0].closed,
        steps.len() == states[0].capacity + 1,
        forall|i: int| 0 <= i < steps.len() ==> #[trigger] steps[i] is Submit,
        0 <= k <= states[0].capacity,
    ensures
        states[k].buffer@.len() == k,
        !states[k].closed,
        states[k].capacity == states[0].capacity,
    decreases k,
{
    if k > 0 {
        lemma_fill(states, steps, k - 1);
        assert(steps[k - 1] is Submit);
        assert(add_step(states[k - 1], steps[k - 1]->Submit_0, states[k], steps[k - 1]->Submit_1));
    }
}

} // verus!
