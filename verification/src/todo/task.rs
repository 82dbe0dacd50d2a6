//! A task and its life cycle.

use vstd::prelude::*;
use crate::text::copy_opt_text;

verus! {

/// How urgent a task is.
#[derive(Debug, Clone, Copy, PartialEq, Eq, Structural)]
pub enum TaskPriority {
    Low,
    Medium,
    High,
}

/// Where a task stands in its life cycle: `Pending`, then `InProgress`, then
/// `Completed` or `Failed`. A task may skip a stage, but never goes back.
#[derive(Debug, Clone, Copy, PartialEq, Eq, Structural)]
pub enum TaskStatus {
    Pending,
    InProgress,
    Completed,
    Failed,
}

impl TaskStatus {
    /// How far along the life cycle a status is: 0 for `Pending`, 1 for
    /// `InProgress`, 2 for the two final statuses.
    pub open spec fn rank(self) -> nat {
        match self {
            TaskStatus::Pending => 0,
            TaskStatus::InProgress => 1,
            TaskStatus::Completed => 2,
            TaskStatus::Failed => 2,
        }
    }

    /// Whether a task in this status may pass to `next`: only forward, to a
    /// status that comes later in the cycle. A final status is never left.
    pub open spec fn may_become(self, next: TaskStatus) -> bool {
        self.rank() < next.rank()
    }

    /// Whether the status is final.
    pub open spec fn is_final(self) -> bool {
        self == TaskStatus::Completed || self == TaskStatus::Failed
    }

    /// Whether a task in this status may pass to `next`.
    pub fn can_become(self, next: TaskStatus) -> (r: bool)
        ensures
            r == self.may_become(next),
    {
        match (self, next) {
            (TaskStatus::Pending, TaskStatus::Pending) => false,
            (TaskStatus::Pending, _) => true,
            (TaskStatus::InProgress, TaskStatus::Completed) => true,
            (TaskStatus::InProgress, TaskStatus::Failed) => true,
            _ => false,
        }
    }

    /// Whether the status is final.
    pub fn is_terminal(self) -> (r: bool)
        ensures
            r == self.is_final(),
    {
        match self {
            TaskStatus::Completed => true,
            TaskStatus::Failed => true,
            _ => false,
        }
    }

    /// The name of the status.
    pub open spec fn name(self) -> Seq<char> {
        match self {
            TaskStatus::Pending => "Pending"@,
            TaskStatus::InProgress => "InProgress"@,
            TaskStatus::Completed => "Completed"@,
            TaskStatus::Failed => "Failed"@,
        }
    }

    /// The name of the status.
    pub fn as_str(self) -> (r: &'static str)
        ensures
            r@ == self.name(),
    {
        match self {
            TaskStatus::Pending => "Pending",
            TaskStatus::InProgress => "InProgress",
            TaskStatus::Completed => "Completed",
            TaskStatus::Failed => "Failed",
        }
    }
}

/// A sequence of statuses in which each one may pass to the next.
pub open spec fn is_life_cycle(trace: Seq<TaskStatus>) -> bool {
    forall|i: int| 0 <= i < trace.len() - 1 ==> (#[trigger] trace[i]).may_become(trace[i + 1])
}

/// Every step of a life cycle moves strictly forward.
pub proof fn lemma_step_moves_forward(from: TaskStatus, to: TaskStatus)
    requires
        from.may_become(to),
    ensures
        from.rank() < to.rank(),
        !from.is_final(),
{
}

/// Along a life cycle the rank rises with each step, so a later status is
/// never an earlier one again.
pub proof fn lemma_life_cycle_rises(trace: Seq<TaskStatus>, i: int, j: int)
    requires
        is_life_cycle(trace),
        0 <= i <= j < trace.len(),
    ensures
        trace[j].rank() >= trace[i].rank() + (j - i),
    decreases j - i,
{
    if i < j {
        lemma_life_cycle_rises(trace, i, j - 1);
        assert(trace[j - 1].may_become(trace[j - 1 + 1]));
    }
}

/// The statuses that a task is seen in, in order, are taken from `Pending`,
/// `InProgress`, then `Completed` or `Failed`, in that order: at most three,
/// each later in the cycle than the one before, and nothing follows a final
/// one.
pub proof fn lemma_life_cycle_shape(trace: Seq<TaskStatus>)
    requires
        is_life_cycle(trace),
    ensures
        trace.len() <= 3,
        forall|i: int, j: int| 0 <= i < j < trace.len() ==> trace[i].rank() < trace[j].rank(),
        forall|i: int| 0 <= i < trace.len() - 1 ==> !trace[i].is_final(),
        trace.len() == 3 ==> trace[0] == TaskStatus::Pending && trace[1] == TaskStatus::InProgress
            && trace[2].is_final(),
{
    assert forall|i: int, j: int| 0 <= i < j < trace.len() implies trace[i].rank()
        < trace[j].rank() by {
        lemma_life_cycle_rises(trace, i, j);
    }
    if trace.len() > 3 {
        lemma_life_cycle_rises(trace, 0, 3);
    }
    assert forall|i: int| 0 <= i < trace.len() - 1 implies !trace[i].is_final() by {
        assert(trace[i].may_become(trace[i + 1]));
    }
    if trace.len() == 3 {
        lemma_life_cycle_rises(trace, 0, 1);
        lemma_life_cycle_rises(trace, 1, 2);
        lemma_life_cycle_rises(trace, 0, 2);
    }
}

/// A unit of background work addressed to an agent.
#[derive(Debug, PartialEq)]
pub struct TodoTask {
    pub id: String,
    pub description: String,
    pub enhanced_description: Option<String>,
    pub priority: TaskPriority,
    pub project: Option<String>,
    pub source_agent: Option<String>,
    pub target_agent: String,
    pub status: TaskStatus,
    pub created_at: i64,
    pub completed_at: Option<i64>,
}

/// What a `TodoTask` holds, as mathematical values.
pub struct TodoTaskView {
    pub id: Seq<char>,
    pub description: Seq<char>,
    pub enhanced_description: Option<Seq<char>>,
    pub priority: TaskPriority,
    pub project: Option<Seq<char>>,
    pub source_agent: Option<Seq<char>>,
    pub target_agent: Seq<char>,
    pub status: TaskStatus,
    pub created_at: i64,
    pub completed_at: Option<i64>,
}

impl DeepView for TodoTask {
    type V = TodoTaskView;

    open spec fn deep_view(&self) -> TodoTaskView {
        TodoTaskView {
            id: self.id@,
            description: self.description@,
            enhanced_description: self.enhanced_description.deep_view(),
            priority: self.priority,
            project: self.project.deep_view(),
            source_agent: self.source_agent.deep_view(),
            target_agent: self.target_agent@,
            status: self.status,
            created_at: self.created_at,
            completed_at: self.completed_at,
        }
    }
}

impl View for TodoTask {
    type V = TodoTaskView;

    open spec fn view(&self) -> TodoTaskView {
        self.deep_view()
    }
}

impl Clone for TodoTask {
    fn clone(&self) -> (r: Self)
        ensures
            r@ == self@,
    {
        TodoTask {
            id: self.id.clone(),
            description: self.description.clone(),
            enhanced_description: copy_opt_text(&self.enhanced_description),
            priority: self.priority,
            project: copy_opt_text(&self.project),
            source_agent: copy_opt_text(&self.source_agent),
            target_agent: self.target_agent.clone(),
            status: self.status,
            created_at: self.created_at,
            completed_at: self.completed_at,
        }
    }
}

impl TodoTaskView {
    /// The text that the target agent is given: the enhanced description
    /// where there is one that is not empty, else the raw description.
    pub open spec fn message_text(self) -> Seq<char> {
        match self.enhanced_description {
            Some(e) => if e.len() > 0 {
                e
            } else {
                self.description
            },
            None => self.description,
        }
    }

    /// The task after a change of status at `now`. A final status records
    /// `now` as the time of completion.
    pub open spec fn moved_to(self, status: TaskStatus, now: i64) -> TodoTaskView {
        TodoTaskView {
            status,
            completed_at: if status.is_final() {
                Some(now)
            } else {
                self.completed_at
            },
            ..self
        }
    }
}

impl TodoTask {
    /// The text that the target agent is given: the enhanced description
    /// where there is one that is not empty, else the raw description.
    pub fn message_text(&self) -> (r: String)
        ensures
            r@ == self@.message_text(),
    {
        match &self.enhanced_description {
            Some(e) => {
                if e.as_str().is_empty() {
                    self.description.clone()
                } else {
                    e.clone()
                }
            },
            None => self.description.clone(),
        }
    }

    /// Moves the task to `status` at `now`, if the life cycle allows it.
    /// Returns whether it did; a refused move leaves the task as it was.
    pub fn advance(&mut self, status: TaskStatus, now: i64) -> (moved: bool)
        ensures
            moved == old(self).status.may_become(status),
            moved ==> final(self)@ == old(self)@.moved_to(status, now),
            !moved ==> *final(self) == *old(self),
    {
        if self.status.can_become(status) {
            self.status = status;
            if status.is_terminal() {
                self.completed_at = Some(now);
            }
            true
        } else {
            false
        }
    }
}

} // verus!
