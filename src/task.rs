use std::sync::Arc;
use std::time::{Duration, SystemTime, UNIX_EPOCH};
use vstd::prelude::*;
use vstd::string::*;

use crate::state::State;
use crate::status::Status;

verus! {

/// Descriptive metadata of a task.
#[derive(Debug)]
pub struct TaskEtc {
    pub name: String,
    pub id: usize,
}

impl Clone for TaskEtc {
    fn clone(&self) -> (r: Self)
        ensures
            r == *self,
    {
        TaskEtc { name: self.name.clone(), id: self.id }
    }
}

/// The mutable status record of a task.
#[derive(Debug)]
pub struct TaskState {
    /// Lifecycle stage.
    pub status: Status,
    /// Queue slot recorded when the task was dispatched.
    pub queue_id: usize,
    /// Creation time, in seconds since the Unix epoch.
    pub start_time: u64,
    /// Completion time; set equal to the creation time and not updated.
    pub end_time: u64,
    pub result: String,
    pub err: String,
    pub etc: TaskEtc,
}

impl Clone for TaskState {
    fn clone(&self) -> (r: Self)
        ensures
            r == *self,
    {
        TaskState {
            status: self.status,
            queue_id: self.queue_id,
            start_time: self.start_time,
            end_time: self.end_time,
            result: self.result.clone(),
            err: self.err.clone(),
            etc: self.etc.clone(),
        }
    }
}

/// A pluggable piece of logic that a worker runs against a task.
///
/// While the task is executing, `handle` holds the shared state and the
/// behavior may change it; outside execution it is empty. A behavior must
/// leave the handle attached or detached as it found it. Its error is
/// reported and otherwise ignored by the worker.
pub trait TaskBehavior: Sized {
    /// The shared state after this behavior has run on a task whose record is
    /// `task`, starting from `before`.
    spec fn effect(&self, task: TaskState, before: State) -> State;

    /// Whether this behavior reports an error when run on a task whose
    /// record is `task`, with the shared state at `before`.
    spec fn fails(&self, task: TaskState, before: State) -> bool;

    fn on_event(&self, task: &TaskState, handle: &mut Option<State>) -> (r: Result<
        TaskState,
        String,
    >)
        ensures
            final(handle).is_some() == old(handle).is_some(),
            old(handle).is_some() ==> final(handle).unwrap() == self.effect(
                *task,
                old(handle).unwrap(),
            ),
            old(handle).is_some() ==> (r is Err <==> self.fails(*task, old(handle).unwrap())),
    ;
}

/// The shared state after every behavior of `bs` has run, in order, on a task
/// whose record is `task`.
pub open spec fn run_all<B: TaskBehavior>(bs: Seq<B>, task: TaskState, s: State) -> State
    decreases bs.len(),
{
    if bs.len() == 0 {
        s
    } else {
        bs.last().effect(task, run_all(bs.drop_last(), task, s))
    }
}

/// How many behaviors of `bs` report an error when they run, in order, on a
/// task whose record is `task`, starting from the shared state `s`.
pub open spec fn failures<B: TaskBehavior>(bs: Seq<B>, task: TaskState, s: State) -> nat
    decreases bs.len(),
{
    if bs.len() == 0 {
        0
    } else {
        failures(bs.drop_last(), task, s) + if bs.last().fails(
            task,
            run_all(bs.drop_last(), task, s),
        ) {
            1nat
        } else {
            0nat
        }
    }
}

/// A unit of work: an immutable, shared list of behaviors, a status record,
/// and a handle to the shared state that is attached only while it executes.
#[derive(Debug)]
pub struct Task<B> {
    pub behaviors: Arc<Vec<B>>,
    pub task_state: TaskState,
    pub _state: Option<State>,
}

/// The character of a decimal digit.
pub open spec fn digit_char(d: nat) -> char {
    if d == 0 {
        '0'
    } else if d == 1 {
        '1'
    } else if d == 2 {
        '2'
    } else if d == 3 {
        '3'
    } else if d == 4 {
        '4'
    } else if d == 5 {
        '5'
    } else if d == 6 {
        '6'
    } else if d == 7 {
        '7'
    } else if d == 8 {
        '8'
    } else {
        '9'
    }
}

/// The decimal notation of `n`, without leading zeros.
pub open spec fn decimal(n: nat) -> Seq<char>
    decreases n,
{
    if n < 10 {
        seq![digit_char(n)]
    } else {
        decimal(n / 10) + seq![digit_char(n % 10)]
    }
}

/// The display name given to a task with numeric id `id`.
pub open spec fn display_name(id: usize) -> Seq<char> {
    seq!['N', 'a', 'm', 'e', ':'] + decimal(id as nat)
}

fn digit_str(d: usize) -> (r: &'static str)
    requires
        d < 10,
    ensures
        r@ == seq![digit_char(d as nat)],
{
    proof {
        reveal_strlit("0");
        reveal_strlit("1");
        reveal_strlit("2");
        reveal_strlit("3");
        reveal_strlit("4");
        reveal_strlit("5");
        reveal_strlit("6");
        reveal_strlit("7");
        reveal_strlit("8");
        reveal_strlit("9");
    }
    if d == 0 {
        "0"
    } else if d == 1 {
        "1"
    } else if d == 2 {
        "2"
    } else if d == 3 {
        "3"
    } else if d == 4 {
        "4"
    } else if d == 5 {
        "5"
    } else if d == 6 {
        "6"
    } else if d == 7 {
        "7"
    } else if d == 8 {
        "8"
    } else {
        "9"
    }
}

/// Appends the decimal notation of `n` to `out`.
pub fn push_decimal(out: &mut String, n: usize)
    ensures
        final(out)@ == old(out)@ + decimal(n as nat),
    decreases n,
{
    if n >= 10 {
        push_decimal(out, n / 10);
    }
    out.append(digit_str(n % 10));
    proof {
        assert(final(out)@ =~= old(out)@ + decimal(n as nat));
    }
}

/// Relies on `Arc::clone`: the new handle points at the same allocation, so
/// it reads as the same value.
#[verifier::external_body]
fn share<T>(a: &Arc<T>) -> (r: Arc<T>)
    ensures
        r == *a,
{
    Arc::clone(a)
}

/// Relies on rand's `random`; nothing is known of the value drawn.
pub assume_specification<T>[ rand::random::<T> ]() -> (r: T)
    where
        rand::distributions::Standard: rand::distributions::Distribution<T>,
;

#[verifier::external_type_specification]
#[verifier::external_body]
pub struct ExSystemTime(SystemTime);

/// Relies on `SystemTime::now`: a reading of the system clock, of which
/// nothing is known in advance.
#[verifier::external_body]
fn clock_now() -> (r: SystemTime) {
    SystemTime::now()
}

/// Relies on `SystemTime::duration_since`: the time elapsed from the Unix
/// epoch to `t`, or `None` when `t` lies before the epoch.
#[verifier::external_body]
fn elapsed_since_epoch(t: &SystemTime) -> (r: Option<Duration>) {
    match t.duration_since(UNIX_EPOCH) {
        Ok(d) => Some(d),
        Err(_) => None,
    }
}

/// Relies on `Duration::as_secs`: the whole seconds of a duration.
pub assume_specification[ Duration::as_secs ](d: &Duration) -> (r: u64);

impl<B: TaskBehavior> Task<B> {
    /// Builds a pending task from its behaviors, a random numeric id and the
    /// current time in whole seconds since the Unix epoch (zero when the clock
    /// reads earlier than the epoch).
    ///
    /// The display name is composed from the id; `_name` is accepted for
    /// callers that label their tasks and is not stored.
    pub fn new(behaviors: Vec<B>, _name: String) -> (r: Task<B>)
        ensures
            r.behaviors@ == behaviors@,
            r.task_state.status == Status::Pending,
            r.task_state.queue_id == 0,
            r.task_state.start_time == r.task_state.end_time,
            r.task_state.etc.id < 256,
            r.task_state.etc.name@ == display_name(r.task_state.etc.id),
            r.task_state.result@.len() == 0,
            r.task_state.err@.len() == 0,
            r._state is None,
    {
        let id: u8 = rand::random::<u8>();
        let clock = clock_now();
        let now: u64 = match elapsed_since_epoch(&clock) {
            Some(d) => d.as_secs(),
            None => 0,
        };
        Task::with_identity(behaviors, id as usize, now)
    }

    /// Builds a pending task from its behaviors, a numeric id and a creation
    /// time in seconds since the Unix epoch.
    pub fn with_identity(behaviors: Vec<B>, id: usize, created_at: u64) -> (r: Task<B>)
        ensures
            r.behaviors@ == behaviors@,
            r.task_state.status == Status::Pending,
            r.task_state.queue_id == 0,
            r.task_state.start_time == created_at,
            r.task_state.end_time == created_at,
            r.task_state.result@.len() == 0,
            r.task_state.err@.len() == 0,
            r.task_state.etc.id == id,
            r.task_state.etc.name@ == display_name(id),
            r._state is None,
    {
        let mut name = String::new();
        name.append("Name:");
        push_decimal(&mut name, id);
        proof {
            reveal_strlit("Name:");
            assert(name@ =~= display_name(id));
        }
        let task_state = TaskState {
            status: Status::Pending,
            queue_id: 0,
            start_time: created_at,
            end_time: created_at,
            result: String::new(),
            err: String::new(),
            etc: TaskEtc { name, id },
        };
        Task { behaviors: Arc::new(behaviors), task_state, _state: None }
    }
}

impl<B> Clone for Task<B> {
    /// Shares the behavior list, copies the status record, and leaves the
    /// state handle empty.
    fn clone(&self) -> (r: Self)
        ensures
            r.behaviors == self.behaviors,
            r.task_state == self.task_state,
            r._state is None,
    {
        Task { behaviors: share(&self.behaviors), task_state: self.task_state.clone(), _state: None }
    }
}

} // verus!
