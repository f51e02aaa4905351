use std::collections::HashMap;
use vstd::prelude::*;

use crate::task::Task;

verus! {

broadcast use vstd::std_specs::hash::group_hash_axioms;

/// Slot allocator for in-flight tasks: each pushed task is filed under the
/// current `next_key`, which then advances.
#[derive(Debug)]
pub struct Queue<B> {
    pub queue: HashMap<usize, Task<B>>,
    pub next_key: usize,
}

impl<B> Queue<B> {
    /// No filed task holds an attached state handle.
    pub open spec fn wf(&self) -> bool {
        forall|k: usize| #[trigger] self.queue@.contains_key(k) ==> self.queue@[k]._state is None
    }

    /// An empty queue whose first slot is zero.
    pub fn new() -> (r: Self)
        ensures
            r.queue@ == Map::<usize, Task<B>>::empty(),
            r.next_key == 0,
    {
        Queue { queue: HashMap::new(), next_key: 0 }
    }

    /// Files `task` under the current `next_key`, advances the counter, and
    /// returns the key used.
    pub fn push(&mut self, task: Task<B>) -> (r: usize)
        requires
            old(self).next_key < usize::MAX,
        ensures
            r == old(self).next_key,
            final(self).queue@ == old(self).queue@.insert(r, task),
            final(self).next_key == old(self).next_key + 1,
            old(self).wf() && task._state is None ==> final(self).wf(),
    {
        let key = self.next_key;
        self.queue.insert(key, task);
        self.next_key = self.next_key + 1;
        key
    }

    /// Gives back the most recently issued slot by stepping `next_key` down.
    /// The entry filed under it stays in the map.
    pub fn release(&mut self)
        requires
            old(self).next_key > 0,
        ensures
            final(self).queue@ == old(self).queue@,
            final(self).next_key == old(self).next_key - 1,
    {
        self.next_key = self.next_key - 1;
    }
}

impl<B> Clone for Queue<B> {
    /// Copies each filed task as `Task::clone` does: the copy has the same
    /// keys, and under each the same behaviors and status record. Handles
    /// are not copied, so the copy equals the queue when none is attached.
    fn clone(&self) -> (r: Self)
        ensures
            r.queue@.dom() == self.queue@.dom(),
            forall|k: usize| #[trigger]
                r.queue@.contains_key(k) ==> r.queue@[k].behaviors == self.queue@[k].behaviors
                    && r.queue@[k].task_state == self.queue@[k].task_state,
            self.wf() ==> r.queue@ == self.queue@,
            r.next_key == self.next_key,
    {
        Queue { queue: self.queue.clone(), next_key: self.next_key }
    }
}

impl<B> Default for Queue<B> {
    fn default() -> (r: Self)
        ensures
            r.queue@ == Map::<usize, Task<B>>::empty(),
            r.next_key == 0,
    {
        Queue::new()
    }
}

} // verus!
