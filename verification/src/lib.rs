//! A cooperative, non-preemptive task scheduler with a fixed number of
//! tasks, driven by a tick counter.
//!
//! Tasks are registered once, in the order in which they are to be
//! examined. A task fires when its cycle has elapsed and when events are
//! pending for it. The scheduler decides what fires; the embedding
//! application runs what the scheduler hands out.

pub mod laws;
pub mod model;
pub mod port;
pub mod scheduler;
pub mod task;
mod task_list;

pub use crate::model::{
    ConfigError, EventMask, IdleRunnable, InitRunnable, Invocation, ProcessRunnable, RunnableId,
    TaskName,
};
pub use crate::port::{critical_section, CriticalSection, SysTick};
pub use crate::scheduler::Scheduler;
pub use crate::task::{Firing, Task};
