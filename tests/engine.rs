use std::sync::Arc;

use task_engine::logger::LogMessage;
use task_engine::queue::Queue;
use task_engine::state::State;
use task_engine::status::Status;
use task_engine::task::{push_decimal, Task, TaskBehavior, TaskState};
use task_engine::task_scheduler::{SubmitError, TaskScheduler, CHANNEL_CAPACITY};
use task_engine::time_tasks::IncrementTickBehavior;
use task_engine::worker::{Hammer, Worker};

fn tick_task(id: usize) -> Task<IncrementTickBehavior> {
    Task::with_identity(vec![IncrementTickBehavior], id, 1_700_000_000)
}

#[test]
fn one_tick_task_advances_counter() {
    let mut worker: Worker<IncrementTickBehavior> = Worker::new(State::new());
    assert_eq!(worker._state._time.tick_count, 0);
    let mut task = tick_task(1);
    let record = worker.execute(&mut task);
    assert_eq!(worker._state._time.tick_count, 1);
    assert_eq!(record.status, Status::Completed);
}

#[test]
fn five_tick_tasks_in_sequence() {
    let mut scheduler = TaskScheduler::new(State::new());
    for id in 0..5 {
        assert!(scheduler.add(tick_task(id)).is_ok());
    }
    while let Some(record) = scheduler.process_next() {
        assert_eq!(record.status, Status::Completed);
    }
    assert_eq!(scheduler.state()._time.tick_count, 5);
}

#[test]
fn third_add_waits_for_first_execution() {
    let mut scheduler = TaskScheduler::with_capacity(State::new(), 2);
    assert!(scheduler.add(tick_task(1)).is_ok());
    assert!(scheduler.add(tick_task(2)).is_ok());
    let third = match scheduler.add(tick_task(3)) {
        Err(SubmitError::Full(t)) => t,
        _ => panic!("the third submission should wait for room"),
    };
    assert_eq!(third.task_state.etc.id, 3);
    let first = scheduler.process_next().unwrap();
    assert_eq!(first.etc.id, 1);
    assert_eq!(first.status, Status::Completed);
    assert!(scheduler.add(third).is_ok());
    assert_eq!(scheduler.pending(), 2);
}

#[test]
fn fifo_execution_order() {
    let mut scheduler = TaskScheduler::new(State::new());
    let ids = [9usize, 4, 7, 1, 8];
    for id in ids {
        assert!(scheduler.add(tick_task(id)).is_ok());
    }
    let mut order = Vec::new();
    while let Some(record) = scheduler.process_next() {
        order.push(record.etc.id);
    }
    assert_eq!(order, ids.to_vec());
}

#[test]
fn backpressure_at_capacity() {
    let capacity = 3;
    let mut scheduler = TaskScheduler::with_capacity(State::new(), capacity);
    for id in 0..capacity {
        assert!(scheduler.add(tick_task(id)).is_ok());
    }
    let extra = match scheduler.add(tick_task(capacity)) {
        Err(SubmitError::Full(t)) => t,
        _ => panic!("a full buffer should refuse"),
    };
    assert_eq!(scheduler.pending(), capacity);
    assert!(scheduler.process_next().is_some());
    assert!(scheduler.add(extra).is_ok());
    assert_eq!(scheduler.pending(), capacity);
}

#[test]
fn default_capacity_is_one_hundred() {
    let mut scheduler = TaskScheduler::new(State::new());
    assert_eq!(CHANNEL_CAPACITY, 100);
    for id in 0..100 {
        assert!(scheduler.add(tick_task(id)).is_ok());
    }
    assert!(matches!(scheduler.add(tick_task(100)), Err(SubmitError::Full(_))));
}

#[test]
fn closed_scheduler_refuses_and_drains() {
    let mut scheduler = TaskScheduler::new(State::new());
    assert!(scheduler.add(tick_task(1)).is_ok());
    scheduler.close();
    assert!(!scheduler.is_finished());
    match scheduler.add(tick_task(2)) {
        Err(SubmitError::Closed(t)) => assert_eq!(t.task_state.etc.id, 2),
        _ => panic!("a closed scheduler should refuse"),
    }
    assert!(scheduler.process_next().is_some());
    assert!(scheduler.is_finished());
    assert!(scheduler.process_next().is_none());
    assert_eq!(scheduler.state()._time.tick_count, 1);
}

#[test]
fn completion_clears_state_handle() {
    let mut worker: Worker<IncrementTickBehavior> = Worker::new(State::new());
    let mut task = tick_task(5);
    let record = worker.execute(&mut task);
    assert!(task._state.is_none());
    assert_eq!(task.task_state.status, Status::Completed);
    assert_eq!(record.status, Status::Completed);
    assert_eq!(record.etc.id, 5);
}

#[test]
fn slot_matches_next_key_before_push() {
    let mut worker: Worker<IncrementTickBehavior> = Worker::new(State::new());
    worker.tasks.next_key = 6;
    let mut task = tick_task(2);
    let record = worker.execute(&mut task);
    assert_eq!(record.queue_id, 6);
    assert_eq!(worker.tasks.next_key, 6);
    let filed = worker.tasks.queue.get(&6).unwrap();
    assert_eq!(filed.task_state.status, Status::Queued);
    assert_eq!(filed.task_state.queue_id, 6);
}

#[test]
fn sequential_tasks_reuse_slot_zero() {
    let mut worker: Worker<IncrementTickBehavior> = Worker::new(State::new());
    for id in 0..3 {
        let mut task = tick_task(id);
        assert_eq!(worker.execute(&mut task).queue_id, 0);
    }
    assert_eq!(worker.tasks.next_key, 0);
    assert_eq!(worker.tasks.queue.len(), 1);
}

#[test]
fn clone_shares_behaviors_and_drops_handle() {
    let mut source = tick_task(11);
    source._state = Some(State::new());
    source.task_state.status = Status::Queued;
    let mut copy = source.clone();
    assert!(Arc::ptr_eq(&copy.behaviors, &source.behaviors));
    assert!(copy._state.is_none());
    assert_eq!(copy.task_state.status, Status::Queued);
    assert_eq!(copy.task_state.etc.name, source.task_state.etc.name);
    copy.task_state.status = Status::Completed;
    assert_eq!(source.task_state.status, Status::Queued);
}

#[test]
fn state_record_clone_is_equal() {
    let task = tick_task(3);
    let copy: TaskState = task.task_state.clone();
    assert_eq!(copy.etc.name, "Name:3");
    assert_eq!(copy.start_time, 1_700_000_000);
}

#[test]
fn with_identity_fields() {
    let task = tick_task(42);
    assert_eq!(task.task_state.status, Status::Pending);
    assert_eq!(task.task_state.queue_id, 0);
    assert_eq!(task.task_state.start_time, task.task_state.end_time);
    assert_eq!(task.task_state.etc.name, "Name:42");
    assert_eq!(task.task_state.result, "");
    assert_eq!(task.task_state.err, "");
    assert!(task._state.is_none());
    assert_eq!(task.behaviors.len(), 1);
}

#[test]
fn new_task_draws_id_and_reads_clock() {
    let task = Task::new(vec![IncrementTickBehavior, IncrementTickBehavior], String::from("IncrementTick"));
    assert!(task.task_state.etc.id < 256);
    assert_eq!(task.task_state.etc.name, format!("Name:{}", task.task_state.etc.id));
    assert!(task.task_state.start_time > 1_600_000_000);
    assert_eq!(task.task_state.start_time, task.task_state.end_time);
    assert_eq!(task.task_state.status, Status::Pending);
    assert_eq!(task.behaviors.len(), 2);
}

#[test]
fn decimal_names() {
    let mut s = String::from("x");
    push_decimal(&mut s, 0);
    assert_eq!(s, "x0");
    let mut t = String::new();
    push_decimal(&mut t, 255);
    assert_eq!(t, "255");
    let mut u = String::new();
    push_decimal(&mut u, 1_000_070);
    assert_eq!(u, "1000070");
}

#[test]
fn tick_behavior_without_handle_leaves_nothing() {
    let task = tick_task(1);
    let mut handle: Option<State> = None;
    let r = IncrementTickBehavior.on_event(&task.task_state, &mut handle);
    assert!(r.is_ok());
    assert!(handle.is_none());
}

#[test]
fn tick_overflow_is_logged_and_execution_completes() {
    let mut state = State::new();
    state._time.tick_count = u64::MAX;
    let mut worker = Worker::new(state);
    let mut task = Task::with_identity(vec![IncrementTickBehavior, IncrementTickBehavior], 1, 0);
    let record = worker.execute(&mut task);
    assert_eq!(record.status, Status::Completed);
    assert_eq!(worker._state._time.tick_count, u64::MAX);
    let log = worker.take_log();
    assert_eq!(log.len(), 2);
    assert_eq!(log[0].line(), "ERROR: tick counter is at its maximum");
    assert!(worker.take_log().is_empty());
}

#[test]
fn two_behaviors_tick_twice() {
    let mut worker = Worker::new(State::new());
    let mut task = Task::with_identity(vec![IncrementTickBehavior, IncrementTickBehavior], 1, 0);
    worker.execute(&mut task);
    assert_eq!(worker._state._time.tick_count, 2);
    assert!(worker.take_log().is_empty());
}

#[test]
fn log_lines() {
    assert_eq!(LogMessage::Info(String::from("up")).line(), "INFO: up");
    assert_eq!(LogMessage::Warning(String::from("slow")).line(), "WARNING: slow");
    assert_eq!(LogMessage::Error(String::from("")).line(), "ERROR: ");
}

#[test]
fn queue_push_and_release() {
    let mut queue: Queue<IncrementTickBehavior> = Queue::new();
    assert_eq!(queue.push(tick_task(1)), 0);
    assert_eq!(queue.push(tick_task(2)), 1);
    assert_eq!(queue.next_key, 2);
    queue.release();
    assert_eq!(queue.next_key, 1);
    assert_eq!(queue.queue.len(), 2);
    let copy = queue.clone();
    assert_eq!(copy.next_key, 1);
    assert_eq!(copy.queue.len(), 2);
    let empty: Queue<IncrementTickBehavior> = Queue::default();
    assert_eq!(empty.next_key, 0);
    assert!(empty.queue.is_empty());
}

#[test]
fn status_default_is_pending() {
    assert_eq!(Status::default(), Status::Pending);
}

#[test]
fn fresh_state_has_zero_ticks() {
    assert_eq!(State::new()._time.tick_count, 0);
}

#[test]
fn status_labels() {
    assert_eq!(Status::Pending.label(), "Pending");
    assert_eq!(Status::Queued.label(), "Queued");
    assert_eq!(Status::InProgress.label(), "In Progress");
    assert_eq!(Status::Completed.label(), "Completed");
    assert_eq!(Status::Failed.label(), "Failed");
    assert_eq!(Status::Cancelled.label(), "Cancelled");
}

#[test]
fn tick_behavior_reports_record_and_overflow() {
    let task = tick_task(8);
    let mut handle = Some(State::new());
    let r = IncrementTickBehavior.on_event(&task.task_state, &mut handle);
    assert_eq!(r.unwrap().etc.id, 8);
    assert_eq!(handle.as_ref().unwrap()._time.tick_count, 1);
    handle.as_mut().unwrap()._time.tick_count = u64::MAX;
    assert!(IncrementTickBehavior.on_event(&task.task_state, &mut handle).is_err());
    assert_eq!(handle.unwrap()._time.tick_count, u64::MAX);
}

#[test]
fn queue_clone_drops_attached_handles() {
    let mut queue: Queue<IncrementTickBehavior> = Queue::new();
    let mut task = tick_task(4);
    task._state = Some(State::new());
    let key = queue.push(task);
    let copy = queue.clone();
    assert!(queue.queue.get(&key).unwrap()._state.is_some());
    let filed = copy.queue.get(&key).unwrap();
    assert!(filed._state.is_none());
    assert_eq!(filed.task_state.etc.id, 4);
    assert!(Arc::ptr_eq(&filed.behaviors, &queue.queue.get(&key).unwrap().behaviors));
}

#[test]
fn one_message_per_failing_behavior() {
    let mut state = State::new();
    state._time.tick_count = u64::MAX - 1;
    let mut worker = Worker::new(state);
    let mut task =
        Task::with_identity(vec![IncrementTickBehavior, IncrementTickBehavior, IncrementTickBehavior], 1, 0);
    let record = worker.execute(&mut task);
    assert_eq!(record.status, Status::Completed);
    assert_eq!(worker._state._time.tick_count, u64::MAX);
    let log = worker.take_log();
    assert_eq!(log.len(), 2);
    assert!(log.iter().all(|m| matches!(m, LogMessage::Error(_))));
}
