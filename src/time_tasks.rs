use vstd::prelude::*;
use vstd::string::*;

use crate::state::{State, TimeData};
use crate::task::{TaskBehavior, TaskState};

verus! {

/// Advances the shared tick counter by one each time it runs. At the
/// counter's maximum it leaves the state as it is and reports an error.
#[derive(Clone, Copy, Debug)]
pub struct IncrementTickBehavior;

/// The state after one tick.
pub open spec fn ticked(before: State) -> State {
    if before._time.tick_count < u64::MAX {
        State { _time: TimeData { tick_count: (before._time.tick_count + 1) as u64 } }
    } else {
        before
    }
}

impl TaskBehavior for IncrementTickBehavior {
    open spec fn effect(&self, task: TaskState, before: State) -> State {
        ticked(before)
    }

    open spec fn fails(&self, task: TaskState, before: State) -> bool {
        before._time.tick_count == u64::MAX
    }

    fn on_event(&self, task: &TaskState, handle: &mut Option<State>) -> (r: Result<
        TaskState,
        String,
    >)
        ensures
            old(handle).is_none() || old(handle).unwrap()._time.tick_count < u64::MAX ==> r == Ok::<
                TaskState,
                String,
            >(*task),
            old(handle).is_some() && old(handle).unwrap()._time.tick_count == u64::MAX ==> r is Err,
    {
        let current = handle.take();
        match current {
            Some(mut s) => {
                if s._time.tick_count < u64::MAX {
                    s._time.tick_count = s._time.tick_count + 1;
                    *handle = Some(s);
                    Ok(task.clone())
                } else {
                    *handle = Some(s);
                    Err(String::from_str("tick counter is at its maximum"))
                }
            },
            None => Ok(task.clone()),
        }
    }
}

} // verus!
