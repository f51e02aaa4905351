//! A task-execution engine: tasks carry an ordered list of behaviors, a
//! bounded first-in first-out buffer takes submissions, and a single worker
//! executes them one at a time against one shared state.

pub mod logger;
pub mod queue;
pub mod state;
pub mod status;
pub mod task;
pub mod task_scheduler;
pub mod time_tasks;
pub mod worker;

pub use logger::LogMessage;
pub use queue::Queue;
pub use state::{State, TimeData};
pub use status::Status;
pub use task::{Task, TaskBehavior, TaskEtc, TaskState};
pub use task_scheduler::{SubmitError, TaskScheduler};
pub use time_tasks::IncrementTickBehavior;
pub use worker::{Hammer, Worker};
