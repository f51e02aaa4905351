use vstd::prelude::*;

verus! {

/// Clock-related part of the shared application state.
#[derive(Debug)]
pub struct TimeData {
    pub tick_count: u64,
}

/// The process-wide mutable record that behaviors read and write while a
/// task is being executed.
#[derive(Debug)]
pub struct State {
    pub _time: TimeData,
}

impl State {
    /// A fresh state whose tick counter is zero.
    pub fn new() -> (r: State)
        ensures
            r._time.tick_count == 0,
    {
        State { _time: TimeData { tick_count: 0 } }
    }
}

} // verus!
