use vstd::prelude::*;

use crate::logger::{is_error, LogMessage};
use crate::queue::Queue;
use crate::state::State;
use crate::status::Status;
use crate::task::{failures, run_all, Task, TaskBehavior, TaskState};

verus! {

broadcast use vstd::std_specs::hash::group_hash_axioms;

/// `record` with its status and queue slot replaced.
pub open spec fn restamp(record: TaskState, status: Status, slot: usize) -> TaskState {
    TaskState {
        status: status,
        queue_id: slot,
        start_time: record.start_time,
        end_time: record.end_time,
        result: record.result,
        err: record.err,
        etc: record.etc,
    }
}

/// Something that runs a task's behaviors to completion.
pub trait Hammer<B: TaskBehavior> {
    /// Whether the executor can take a task.
    spec fn ready(&self) -> bool;

    /// The slot that the next dispatched task is given.
    spec fn next_slot(&self) -> usize;

    /// The shared state that behaviors act on.
    spec fn shared(&self) -> State;

    /// The tasks filed by slot, as they were when dispatched.
    spec fn slots(&self) -> Map<usize, Task<B>>;

    /// The messages logged and not yet taken, oldest first.
    spec fn journal(&self) -> Seq<LogMessage>;

    /// Dispatches `task` under the next slot, runs each of its behaviors in
    /// order against the shared state, logs one error message for each
    /// behavior that reports an error, detaches the state and marks the task
    /// completed. Returns the final status record.
    fn execute(&mut self, task: &mut Task<B>) -> (r: TaskState)
        requires
            old(self).ready(),
        ensures
            final(self).ready(),
            final(self).next_slot() == old(self).next_slot(),
            final(self).slots() == old(self).slots().insert(
                old(self).next_slot(),
                Task {
                    behaviors: old(task).behaviors,
                    task_state: restamp(old(task).task_state, Status::Queued, old(self).next_slot()),
                    _state: None,
                },
            ),
            final(self).shared() == run_all(
                old(task).behaviors@,
                restamp(old(task).task_state, Status::Queued, old(self).next_slot()),
                old(self).shared(),
            ),
            final(task).behaviors == old(task).behaviors,
            final(task).task_state == restamp(
                old(task).task_state,
                Status::Completed,
                old(self).next_slot(),
            ),
            final(task)._state is None,
            r == final(task).task_state,
            old(self).journal().is_prefix_of(final(self).journal()),
            final(self).journal().len() == old(self).journal().len() + failures(
                old(task).behaviors@,
                restamp(old(task).task_state, Status::Queued, old(self).next_slot()),
                old(self).shared(),
            ),
            forall|i: int|
                old(self).journal().len() <= i < final(self).journal().len() ==> is_error(
                    #[trigger] final(self).journal()[i],
                ),
    ;
}

/// Executes one task at a time against the shared state it holds.
pub struct Worker<B> {
    pub tasks: Queue<B>,
    pub _state: State,
    /// Messages about behavior errors, oldest first, until taken.
    pub log: Vec<LogMessage>,
}

impl<B: TaskBehavior> Worker<B> {
    /// A worker that holds `state` and has issued no slot yet.
    pub fn new(state: State) -> (r: Self)
        ensures
            r.tasks.queue@ == Map::<usize, Task<B>>::empty(),
            r.tasks.next_key == 0,
            r._state == state,
            r.log@.len() == 0,
    {
        Worker { tasks: Queue::new(), _state: state, log: Vec::new() }
    }

    /// Hands out the messages logged so far and starts a fresh log.
    pub fn take_log(&mut self) -> (r: Vec<LogMessage>)
        ensures
            r@ == old(self).log@,
            final(self).log@.len() == 0,
            final(self).tasks == old(self).tasks,
            final(self)._state == old(self)._state,
    {
        let mut out: Vec<LogMessage> = Vec::new();
        std::mem::swap(&mut out, &mut self.log);
        out
    }

    /// Marks `task` as queued under the current `next_key`.
    fn update_task_state(&self, task: &mut Task<B>)
        ensures
            final(task).behaviors == old(task).behaviors,
            final(task)._state == old(task)._state,
            final(task).task_state == restamp(
                old(task).task_state,
                Status::Queued,
                self.tasks.next_key,
            ),
    {
        task.task_state.status = Status::Queued;
        task.task_state.queue_id = self.tasks.next_key;
    }

    /// Attaches the shared state to `task`, runs every behavior in order,
    /// logs each behavior error, and detaches the state again.
    fn execute_behaviors(&mut self, task: &mut Task<B>)
        ensures
            final(task).behaviors == old(task).behaviors,
            final(task).task_state == old(task).task_state,
            final(task)._state is None,
            final(self).tasks == old(self).tasks,
            old(self).log@.is_prefix_of(final(self).log@),
            final(self).log@.len() == old(self).log@.len() + failures(
                old(task).behaviors@,
                old(task).task_state,
                old(self)._state,
            ),
            forall|j: int|
                old(self).log@.len() <= j < final(self).log@.len() ==> is_error(
                    #[trigger] final(self).log@[j],
                ),
            final(self)._state == run_all(
                old(task).behaviors@,
                old(task).task_state,
                old(self)._state,
            ),
    {
        let mut lent = State::new();
        std::mem::swap(&mut lent, &mut self._state);
        task._state = Some(lent);
        let n: usize = task.behaviors.len();
        let mut i: usize = 0;
        while i < n
            invariant
                n == task.behaviors@.len(),
                i <= n,
                task.behaviors == old(task).behaviors,
                task.task_state == old(task).task_state,
                self.tasks == old(self).tasks,
                old(self).log@.is_prefix_of(self.log@),
                self.log@.len() == old(self).log@.len() + failures(
                    task.behaviors@.take(i as int),
                    task.task_state,
                    old(self)._state,
                ),
                forall|j: int|
                    old(self).log@.len() <= j < self.log@.len() ==> is_error(
                        #[trigger] self.log@[j],
                    ),
                task._state == Some(
                    run_all(task.behaviors@.take(i as int), task.task_state, old(self)._state),
                ),
            decreases n - i,
        {
            let outcome = task.behaviors[i].on_event(&task.task_state, &mut task._state);
            match outcome {
                Ok(_) => {},
                Err(e) => {
                    self.log.push(LogMessage::Error(e));
                },
            }
            proof {
                assert(task.behaviors@.take(i + 1).drop_last() =~= task.behaviors@.take(i as int));
            }
            i = i + 1;
        }
        proof {
            assert(task.behaviors@.take(n as int) =~= task.behaviors@);
        }
        let back = task._state.take();
        match back {
            Some(s) => {
                self._state = s;
            },
            None => {},
        }
    }
}

impl<B: TaskBehavior> Hammer<B> for Worker<B> {
    open spec fn ready(&self) -> bool {
        &&& self.tasks.next_key < usize::MAX
        &&& self.tasks.wf()
    }

    open spec fn next_slot(&self) -> usize {
        self.tasks.next_key
    }

    open spec fn shared(&self) -> State {
        self._state
    }

    open spec fn slots(&self) -> Map<usize, Task<B>> {
        self.tasks.queue@
    }

    open spec fn journal(&self) -> Seq<LogMessage> {
        self.log@
    }

    fn execute(&mut self, task: &mut Task<B>) -> (r: TaskState) {
        self.update_task_state(task);
        self.tasks.push(task.clone());
        self.execute_behaviors(task);
        task.task_state.status = Status::Completed;
        self.tasks.release();
        task.task_state.clone()
    }
}

} // verus!
