//! The startup configuration schema: task timing settings, in
//! milliseconds.  Loading the file itself is left to the embedding
//! program; these are the plain values it hands over.

use vstd::prelude::*;

verus! {

/// Timing bounds for tasks, in milliseconds.
#[derive(Clone, Copy, Debug, PartialEq, Eq, Structural)]
pub struct TaskSetting {
    pub max_work_time_for_not_cycle_task: u64,
    pub return_time_work: u64,
}

/// The whole configuration document.
#[derive(Clone, Copy, Debug, PartialEq, Eq, Structural)]
pub struct General {
    pub task_setting: TaskSetting,
}

} // verus!
