//! What the front door shows of a task.

use vstd::prelude::*;
use vstd::std_specs::convert::FromSpecImpl;
use crate::todo::task::{TaskPriority, TaskStatus, TodoTask};

verus! {

/// A task as it is shown to a caller: the task's fields, one for one.
#[derive(Debug, PartialEq)]
pub struct TaskResponse {
    pub id: String,
    pub description: String,
    pub enhanced_description: Option<String>,
    pub priority: TaskPriority,
    pub project: Option<String>,
    pub source_agent: Option<String>,
    pub target_agent: String,
    pub status: TaskStatus,
    pub created_at: i64,
    pub completed_at: Option<i64>,
}

impl From<TodoTask> for TaskResponse {
    fn from(task: TodoTask) -> (r: Self) {
        Self {
            id: task.id,
            description: task.description,
            enhanced_description: task.enhanced_description,
            priority: task.priority,
            project: task.project,
            source_agent: task.source_agent,
            target_agent: task.target_agent,
            status: task.status,
            created_at: task.created_at,
            completed_at: task.completed_at,
        }
    }
}

impl FromSpecImpl<TodoTask> for TaskResponse {
    open spec fn obeys_from_spec() -> bool {
        true
    }

    open spec fn from_spec(task: TodoTask) -> TaskResponse {
        TaskResponse {
            id: task.id,
            description: task.description,
            enhanced_description: task.enhanced_description,
            priority: task.priority,
            project: task.project,
            source_agent: task.source_agent,
            target_agent: task.target_agent,
            status: task.status,
            created_at: task.created_at,
            completed_at: task.completed_at,
        }
    }
}

} // verus!
