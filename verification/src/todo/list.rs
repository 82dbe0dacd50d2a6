//! A task list: tasks in the order in which they came, each under an id of
//! its own.

use vstd::prelude::*;
use crate::agent::Agent;
use crate::clock::{unix_now, utc_text};
use crate::error::{Error, StorageError};
use crate::text::same_text;
use crate::todo::store::{
    added_text, after_first_insert, after_retry, lemma_discriminated_differs, second_try,
    InsertStep, STAMP_PATTERN,
};
use crate::todo::task::{TaskStatus, TodoTask, TodoTaskView};
use crate::types::{Message, MessageView};

verus! {

/// The ids of a sequence of tasks, in order.
pub open spec fn ids_of(tasks: Seq<TodoTaskView>) -> Seq<Seq<char>> {
    tasks.map_values(|t: TodoTaskView| t.id)
}

/// What a list holds after a task was handed in: the task at the end under
/// its own id where that id is free; else under its discriminated id, where
/// there is one and it is free; else what it held before.
pub open spec fn submitted(before: Seq<TodoTaskView>, task: TodoTaskView) -> Seq<TodoTaskView> {
    if !ids_of(before).contains(task.id) {
        before.push(task)
    } else {
        match second_try(task) {
            Some(again) => if !ids_of(before).contains(again.id) {
                before.push(again)
            } else {
                before
            },
            None => before,
        }
    }
}

/// Whether handing a task in stores it.
pub open spec fn is_accepted(before: Seq<TodoTaskView>, task: TodoTaskView) -> bool {
    ||| !ids_of(before).contains(task.id)
    ||| second_try(task) matches Some(again) && !ids_of(before).contains(again.id)
}

/// Whether a task waits for the agent `agent`: it is `Pending` and
/// addressed to that agent.
pub open spec fn is_due(task: TodoTaskView, agent: Seq<char>) -> bool {
    task.status == TaskStatus::Pending && task.target_agent == agent
}

/// The ids of the tasks that wait for `agent`, in the order of the list.
pub open spec fn due_ids(tasks: Seq<TodoTaskView>, agent: Seq<char>) -> Seq<Seq<char>>
    decreases tasks.len(),
{
    if tasks.len() == 0 {
        Seq::empty()
    } else if is_due(tasks.last(), agent) {
        due_ids(tasks.drop_last(), agent).push(tasks.last().id)
    } else {
        due_ids(tasks.drop_last(), agent)
    }
}

/// A task after the agent has dealt with it at `now`: `Completed` where the
/// agent answered, `Failed` where it did not, finished at `now`.
pub open spec fn finished(task: TodoTaskView, answered: bool, now: i64) -> TodoTaskView {
    task.moved_to(TaskStatus::InProgress, now).moved_to(
        if answered {
            TaskStatus::Completed
        } else {
            TaskStatus::Failed
        },
        now,
    )
}

/// The list after one round for `agent` at `now`: each task that waited for
/// the agent is finished according to its verdict, the verdicts taken in
/// the order of the list; every other task is as it was.
pub open spec fn settled(
    tasks: Seq<TodoTaskView>,
    agent: Seq<char>,
    now: i64,
    verdicts: Seq<bool>,
) -> Seq<TodoTaskView>
    decreases tasks.len(),
{
    if tasks.len() == 0 {
        Seq::empty()
    } else if is_due(tasks.last(), agent) && verdicts.len() > 0 {
        settled(tasks.drop_last(), agent, now, verdicts.drop_last()).push(
            finished(tasks.last(), verdicts.last(), now),
        )
    } else {
        settled(tasks.drop_last(), agent, now, verdicts).push(tasks.last())
    }
}

/// The tasks that wait for `agent`, in the order of the list.
pub open spec fn due_tasks(tasks: Seq<TodoTaskView>, agent: Seq<char>) -> Seq<TodoTaskView>
    decreases tasks.len(),
{
    if tasks.len() == 0 {
        Seq::empty()
    } else if is_due(tasks.last(), agent) {
        due_tasks(tasks.drop_last(), agent).push(tasks.last())
    } else {
        due_tasks(tasks.drop_last(), agent)
    }
}

/// Picks out of `tasks` those that wait for the agent named `agent_name`,
/// keeping their order.
pub fn pending_for(tasks: &Vec<TodoTask>, agent_name: &str) -> (r: Vec<TodoTask>)
    ensures
        r.deep_view() == due_tasks(tasks.deep_view(), agent_name@),
{
    let mut out: Vec<TodoTask> = Vec::new();
    let mut i: usize = 0;
    assert(tasks.deep_view().take(0) =~= Seq::<TodoTaskView>::empty());
    assert(out.deep_view() =~= Seq::<TodoTaskView>::empty());
    while i < tasks.len()
        invariant
            i <= tasks.len(),
            out.deep_view() == due_tasks(tasks.deep_view().take(i as int), agent_name@),
        decreases tasks.len() - i,
    {
        let ghost before = out.deep_view();
        proof {
            let next = tasks.deep_view().take(i + 1);
            assert(next.drop_last() =~= tasks.deep_view().take(i as int));
            assert(next.last() == tasks.deep_view()[i as int]);
        }
        if tasks[i].status == TaskStatus::Pending && same_text(
            tasks[i].target_agent.as_str(),
            agent_name,
        ) {
            out.push(tasks[i].clone());
            assert(out.deep_view() =~= before.push(tasks.deep_view()[i as int]));
        }
        i += 1;
    }
    assert(tasks.deep_view().take(i as int) =~= tasks.deep_view());
    out
}

/// Whether a task was taken for processing, given what the store said when
/// it was asked to mark the task as under way: it was, where the store
/// changed exactly one task. A store that failed, or changed none because
/// the task had moved on meanwhile, leaves the task to others.
pub fn was_claimed(marked: &Result<u64, Error>) -> (r: bool)
    ensures
        r == (*marked matches Ok(n) && n == 1),
{
    match marked {
        Ok(n) => *n == 1,
        Err(_) => false,
    }
}

/// The status that a task ends in: `Completed` where the agent answered,
/// `Failed` where it did not.
pub fn final_status(answered: bool) -> (r: TaskStatus)
    ensures
        r.is_final(),
        r == TaskStatus::Completed <==> answered,
{
    if answered {
        TaskStatus::Completed
    } else {
        TaskStatus::Failed
    }
}

/// Whether `reports` are what an agent answered in one round at `now`:
/// `trail` holds the agent as it was before each task and after the last,
/// from `start` to `end`, and for each of the `due` tasks in turn the
/// report's outcome is what the agent, as it then was, answered to that
/// task's message.
pub open spec fn follows_trail<A: Agent>(
    trail: Seq<A>,
    start: A,
    end: A,
    due: Seq<TodoTaskView>,
    now: i64,
    reports: Seq<TaskReport>,
) -> bool {
    &&& due.len() == reports.len()
    &&& trail.len() == reports.len() + 1
    &&& trail[0] == start
    &&& trail.last() == end
    &&& forall|k: int|
        0 <= k < reports.len() ==> trail[k].answers(
            task_message_view(due[k], now),
            trail[k + 1],
            (#[trigger] reports[k]).outcome,
        )
}

/// Whether `reports` are what the agent answered in one round at `now`,
/// task by task: it began as `start`, was asked about each of the `due`
/// tasks in their order, each time as the task before had left it, and
/// ended as `end`.
pub open spec fn answered_in_turn<A: Agent>(
    start: A,
    end: A,
    due: Seq<TodoTaskView>,
    now: i64,
    reports: Seq<TaskReport>,
) -> bool {
    exists|trail: Seq<A>| #[trigger] follows_trail(trail, start, end, due, now, reports)
}

/// What came of one task in a round: its id, and the agent's answer or the
/// error it failed with.
#[derive(Debug, PartialEq)]
pub struct TaskReport {
    pub id: String,
    pub outcome: Result<Message, Error>,
}

/// The ids of a sequence of reports, in order.
pub open spec fn report_ids(reports: Seq<TaskReport>) -> Seq<Seq<char>> {
    reports.map_values(|r: TaskReport| r.id@)
}

/// Whether the agent answered, for each of a sequence of reports.
pub open spec fn verdicts_of(reports: Seq<TaskReport>) -> Seq<bool> {
    reports.map_values(|r: TaskReport| r.outcome is Ok)
}

/// How long an agent's processor sleeps between two rounds, in seconds.
pub const CHECK_INTERVAL_SECS: u64 = 30;

/// The message that an agent is given for a task: the task's text, from the
/// assistant, stamped `now`.
pub open spec fn task_message_view(task: TodoTaskView, now: i64) -> MessageView {
    MessageView {
        content: task.message_text(),
        metadata: None,
        role: Some("assistant"@),
        timestamp: Some(now),
    }
}

/// Builds the message that an agent is given for a task.
pub fn task_message(task: &TodoTask, now: i64) -> (r: Message)
    ensures
        r@ == task_message_view(task@, now),
{
    Message::at(task.message_text(), now)
}

/// Lets `agent` deal with one task: the agent is given the message that
/// `task_message` makes, and what it answers is the result.
pub fn process_task<A: Agent>(agent: &mut A, task: &TodoTask, now: i64) -> (r: Result<
    Message,
    Error,
>)
    ensures
        final(agent).config_view() == old(agent).config_view(),
        old(agent).answers(task_message_view(task@, now), *final(agent), r),
{
    agent.process_message(task_message(task, now))
}

/// What handing `task` in to a list does: the list afterwards holds what
/// `submitted` gives, and the result says that the task was added, or, where
/// the list took it under neither id, fails with `DuplicateKey`.
pub open spec fn handed_in_to(
    before: Seq<TodoTaskView>,
    after: Seq<TodoTaskView>,
    r: Result<String, Error>,
    task: TodoTaskView,
) -> bool {
    &&& after == submitted(before, task)
    &&& is_accepted(before, task) ==> (r matches Ok(m) && m@ == added_text(task.description))
    &&& !is_accepted(before, task) ==> r matches Err(
        Error::StorageError(StorageError::DuplicateKey),
    )
}

/// Tasks in the order in which they were stored. No two tasks share an id:
/// the id is the key that the list holds unique, and the key that a second
/// try discriminates. Two tasks may share a description.
pub struct TodoList {
    tasks: Vec<TodoTask>,
}

impl View for TodoList {
    type V = Seq<TodoTaskView>;

    closed spec fn view(&self) -> Seq<TodoTaskView> {
        self.tasks.deep_view()
    }
}

impl TodoList {
    #[verifier::type_invariant]
    spec fn ids_are_unique(self) -> bool {
        ids_of(self.tasks.deep_view()).no_duplicates()
    }

    /// An empty list.
    pub fn new() -> (r: Self)
        ensures
            r@ == Seq::<TodoTaskView>::empty(),
    {
        let r = TodoList { tasks: Vec::new() };
        assert(r.tasks.deep_view() =~= Seq::<TodoTaskView>::empty());
        r
    }

    /// How many tasks the list holds.
    pub fn len(&self) -> (n: usize)
        ensures
            n == self@.len(),
    {
        self.tasks.len()
    }

    /// Where the task with this id stands.
    fn slot(&self, id: &str) -> (r: Option<usize>)
        ensures
            ids_of(self@).no_duplicates(),
            match r {
                Some(i) => i < self@.len() && self@[i as int].id == id@ && ids_of(self@).index_of(
                    id@,
                ) == i && ids_of(self@).contains(id@),
                None => !ids_of(self@).contains(id@),
            },
    {
        proof {
            use_type_invariant(self);
        }
        let mut i: usize = 0;
        while i < self.tasks.len()
            invariant
                i <= self.tasks.len(),
                ids_of(self@).no_duplicates(),
                self@ == self.tasks.deep_view(),
                forall|j: int| 0 <= j < i ==> ids_of(self@)[j] != id@,
            decreases self.tasks.len() - i,
        {
            if same_text(self.tasks[i].id.as_str(), id) {
                proof {
                    let ids = ids_of(self@);
                    assert(ids[i as int] == id@);
                    assert(ids.contains(id@));
                    let k = ids.index_of(id@);
                    assert(0 <= k < ids.len() && ids[k] == id@);
                }
                return Some(i);
            }
            i += 1;
        }
        None
    }

    /// Stores `task` at the end, unless its id is taken.
    pub fn insert(&mut self, task: TodoTask) -> (r: Result<(), StorageError>)
        ensures
            ids_of(old(self)@).contains(task@.id) ==> r == Err::<(), StorageError>(
                StorageError::DuplicateKey,
            ) && final(self)@ == old(self)@,
            !ids_of(old(self)@).contains(task@.id) ==> r is Ok && final(self)@ == old(self)@.push(
                task@,
            ),
    {
        match self.slot(task.id.as_str()) {
            Some(_) => Err(StorageError::DuplicateKey),
            None => {
                let mut taken = TodoList { tasks: Vec::new() };
                proof {
                    assert(taken.tasks.deep_view() =~= Seq::<TodoTaskView>::empty());
                }
                std::mem::swap(self, &mut taken);
                let TodoList { mut tasks } = taken;
                let ghost before = tasks.deep_view();
                tasks.push(task);
                proof {
                    assert(tasks.deep_view() =~= before.push(task@));
                    lemma_ids_push(before, task@);
                }
                *self = TodoList { tasks };
                Ok(())
            },
        }
    }

    /// Hands a task in: stores it under its id, or, where that id is taken,
    /// tries exactly once more under the discriminated id. A second
    /// collision is final.
    pub fn add_task(&mut self, task: TodoTask) -> (r: Result<String, Error>)
        ensures
            handed_in_to(old(self)@, final(self)@, r, task@),
    {
        let copy = task.clone();
        let first = self.insert(task);
        match after_first_insert(copy, first) {
            InsertStep::Stored(m) => Ok(m),
            InsertStep::Retry(again) => {
                let description = again.description.clone();
                let second = self.insert(again);
                after_retry(description.as_str(), second)
            },
            InsertStep::Failed(e) => Err(e),
        }
    }

    /// A copy of every task, in the order of the list.
    pub fn find_all(&self) -> (r: Vec<TodoTask>)
        ensures
            r.deep_view() == self@,
    {
        let mut out: Vec<TodoTask> = Vec::new();
        let mut i: usize = 0;
        while i < self.tasks.len()
            invariant
                i <= self.tasks.len(),
                out.len() == i,
                forall|j: int| 0 <= j < i ==> out@[j]@ == self.tasks@[j]@,
            decreases self.tasks.len() - i,
        {
            out.push(self.tasks[i].clone());
            i += 1;
        }
        assert(out.deep_view() =~= self.tasks.deep_view());
        out
    }

    /// The status of the task with this id.
    pub fn status_of(&self, id: &str) -> (r: Option<TaskStatus>)
        ensures
            ids_of(self@).no_duplicates(),
            match r {
                Some(s) => ids_of(self@).contains(id@) && s == self@[ids_of(self@).index_of(
                    id@,
                )].status,
                None => !ids_of(self@).contains(id@),
            },
    {
        match self.slot(id) {
            Some(i) => Some(self.tasks[i].status),
            None => None,
        }
    }

    /// The id of the first task with this description.
    pub fn id_of_description(&self, description: &str) -> (r: Option<String>)
        ensures
            ids_of(self@).no_duplicates(),
            match r {
                Some(id) => exists|i: int|
                    {
                        &&& 0 <= i < self@.len()
                        &&& #[trigger] self@[i].description == description@
                        &&& self@[i].id == id@
                        &&& forall|j: int| 0 <= j < i ==> self@[j].description != description@
                    },
                None => forall|j: int| 0 <= j < self@.len() ==> self@[j].description != description@,
            },
    {
        proof {
            use_type_invariant(self);
        }
        let mut i: usize = 0;
        while i < self.tasks.len()
            invariant
                i <= self.tasks.len(),
                self@ == self.tasks.deep_view(),
                ids_of(self@).no_duplicates(),
                forall|j: int| 0 <= j < i ==> self@[j].description != description@,
            decreases self.tasks.len() - i,
        {
            if same_text(self.tasks[i].description.as_str(), description) {
                assert(self@[i as int].description == description@);
                return Some(self.tasks[i].id.clone());
            }
            i += 1;
        }
        None
    }

    /// Moves the task with this id to `status` at `now`, if there is such a
    /// task and its life cycle allows the move. Returns how many tasks
    /// changed: one or none.
    pub fn update_status(&mut self, id: &str, status: TaskStatus, now: i64) -> (modified: usize)
        ensures
            final(self)@.len() == old(self)@.len(),
            ids_of(final(self)@) == ids_of(old(self)@),
            !ids_of(old(self)@).contains(id@) ==> modified == 0 && final(self)@ == old(self)@,
            ids_of(old(self)@).contains(id@) ==> {
                let i = ids_of(old(self)@).index_of(id@);
                if old(self)@[i].status.may_become(status) {
                    modified == 1 && final(self)@ == old(self)@.update(
                        i,
                        old(self)@[i].moved_to(status, now),
                    )
                } else {
                    modified == 0 && final(self)@ == old(self)@
                }
            },
    {
        match self.slot(id) {
            None => 0,
            Some(i) => {
                let mut taken = TodoList { tasks: Vec::new() };
                proof {
                    assert(taken.tasks.deep_view() =~= Seq::<TodoTaskView>::empty());
                }
                std::mem::swap(self, &mut taken);
                let TodoList { mut tasks } = taken;
                let ghost before = tasks.deep_view();
                let moved = tasks[i].advance(status, now);
                proof {
                    if moved {
                        assert(tasks.deep_view() =~= before.update(
                            i as int,
                            before[i as int].moved_to(status, now),
                        ));
                    } else {
                        assert(tasks.deep_view() =~= before);
                    }
                    assert(ids_of(tasks.deep_view()) =~= ids_of(before));
                }
                *self = TodoList { tasks };
                if moved {
                    1
                } else {
                    0
                }
            },
        }
    }
}

impl TodoList {
    /// One round of the processor of the agent named `agent_name`, at `now`.
    ///
    /// Every task that is `Pending` and addressed to the agent is taken, in
    /// the order of the list: it goes to `InProgress`, the agent is given its
    /// text, and it ends `Completed` where the agent answered and `Failed`
    /// where it did not. A failure stops nothing: the round goes on with the
    /// next task. The reports come in the order in which the tasks were
    /// taken, and each holds what the agent answered to that task's
    /// message; every other task is left as it was.
    pub fn run_pending_at<A: Agent>(&mut self, agent_name: &str, agent: &mut A, now: i64) -> (reports:
        Vec<TaskReport>)
        ensures
            final(agent).config_view() == old(agent).config_view(),
            answered_in_turn(
                *old(agent),
                *final(agent),
                due_tasks(old(self)@, agent_name@),
                now,
                reports@,
            ),
            report_ids(reports@) == due_ids(old(self)@, agent_name@),
            final(self)@ == settled(old(self)@, agent_name@, now, verdicts_of(reports@)),
            final(self)@.len() == old(self)@.len(),
            due_ids(final(self)@, agent_name@) == Seq::<Seq<char>>::empty(),
            forall|i: int|
                0 <= i < old(self)@.len() && !is_due(old(self)@[i], agent_name@)
                    ==> final(self)@[i] == old(self)@[i],
            forall|i: int|
                0 <= i < old(self)@.len() && is_due(old(self)@[i], agent_name@) ==> {
                    &&& (#[trigger] final(self)@[i]).status.is_final()
                    &&& final(self)@[i] == finished(
                        old(self)@[i],
                        final(self)@[i].status == TaskStatus::Completed,
                        now,
                    )
                },
    {
        proof {
            use_type_invariant(&*self);
        }
        let mut taken = TodoList { tasks: Vec::new() };
        proof {
            assert(taken.tasks.deep_view() =~= Seq::<TodoTaskView>::empty());
        }
        std::mem::swap(self, &mut taken);
        let TodoList { mut tasks } = taken;
        let ghost before = tasks.deep_view();
        let mut reports: Vec<TaskReport> = Vec::new();
        let mut i: usize = 0;
        let ghost mut trail: Seq<A> = seq![*agent];
        proof {
            assert(before.take(0) =~= Seq::<TodoTaskView>::empty());
            assert(tasks.deep_view().take(0) =~= Seq::<TodoTaskView>::empty());
            assert(report_ids(reports@) =~= Seq::<Seq<char>>::empty());
        }
        while i < tasks.len()
            invariant
                i <= tasks.len(),
                tasks.len() == before.len(),
                agent.config_view() == old(agent).config_view(),
                follows_trail(
                    trail,
                    *old(agent),
                    *agent,
                    due_tasks(before.take(i as int), agent_name@),
                    now,
                    reports@,
                ),
                ids_of(tasks.deep_view()) == ids_of(before),
                report_ids(reports@) == due_ids(before.take(i as int), agent_name@),
                tasks.deep_view().take(i as int) == settled(
                    before.take(i as int),
                    agent_name@,
                    now,
                    verdicts_of(reports@),
                ),
                forall|j: int| i <= j < before.len() ==> tasks.deep_view()[j] == before[j],
                forall|j: int|
                    0 <= j < i && !is_due(before[j], agent_name@) ==> tasks.deep_view()[j]
                        == before[j],
                forall|j: int|
                    0 <= j < i && is_due(before[j], agent_name@) ==> {
                        &&& (#[trigger] tasks.deep_view()[j]).status.is_final()
                        &&& tasks.deep_view()[j] == finished(
                            before[j],
                            tasks.deep_view()[j].status == TaskStatus::Completed,
                            now,
                        )
                    },
            decreases tasks.len() - i,
        {
            let ghost so_far = tasks.deep_view();
            let ghost said = reports@;
            let due = tasks[i].status == TaskStatus::Pending && same_text(
                tasks[i].target_agent.as_str(),
                agent_name,
            );
            proof {
                assert(before.take(i + 1).drop_last() =~= before.take(i as int));
                assert(before.take(i + 1).last() == before[i as int]);
            }
            if due {
                let ghost asked = *agent;
                let ghost walked = trail;
                let ghost waiting = due_tasks(before.take(i as int), agent_name@);
                tasks[i].advance(TaskStatus::InProgress, now);
                assert(task_message_view(tasks.deep_view()[i as int], now) == task_message_view(
                    before[i as int],
                    now,
                ));
                let outcome = process_task(agent, &tasks[i], now);
                let answered = outcome.is_ok();
                tasks[i].advance(final_status(answered), now);
                reports.push(TaskReport { id: tasks[i].id.clone(), outcome });
                proof {
                    trail = walked.push(*agent);
                    let waiting_now = due_tasks(before.take(i + 1), agent_name@);
                    assert(waiting_now == waiting.push(before[i as int]));
                    assert forall|k: int| 0 <= k < reports@.len() implies trail[k].answers(
                        task_message_view(waiting_now[k], now),
                        trail[k + 1],
                        (#[trigger] reports@[k]).outcome,
                    ) by {
                        if k < said.len() {
                            assert(reports@[k] == said[k]);
                            assert(trail[k] == walked[k]);
                            assert(trail[k + 1] == walked[k + 1]);
                            assert(waiting_now[k] == waiting[k]);
                        } else {
                            assert(trail[k] == asked);
                        }
                    }
                    let done = finished(before[i as int], answered, now);
                    assert(tasks.deep_view() =~= so_far.update(i as int, done));
                    assert(ids_of(tasks.deep_view()) =~= ids_of(before));
                    assert(report_ids(reports@) =~= report_ids(said).push(before[i as int].id));
                    assert(verdicts_of(reports@) =~= verdicts_of(said).push(answered));
                    assert(verdicts_of(reports@).drop_last() =~= verdicts_of(said));
                    assert(tasks.deep_view().take(i + 1) =~= so_far.take(i as int).push(done));
                }
            } else {
                proof {
                    assert(tasks.deep_view().take(i + 1) =~= so_far.take(i as int).push(
                        before[i as int],
                    ));
                }
            }
            i += 1;
        }
        proof {
            assert(before.take(i as int) =~= before);
            assert(tasks.deep_view().take(i as int) =~= tasks.deep_view());
            assert forall|j: int| 0 <= j < tasks.deep_view().len() implies !is_due(
                #[trigger] tasks.deep_view()[j],
                agent_name@,
            ) by {
                if is_due(before[j], agent_name@) {
                    assert(tasks.deep_view()[j].status.is_final());
                }
            }
            lemma_nothing_due(tasks.deep_view(), agent_name@);
        }
        *self = TodoList { tasks };
        reports
    }

    /// One round of the processor of the agent named `agent_name`, at the
    /// time of the call. The time is read from the system clock, which
    /// gives up on a machine whose clock stands before 1970.
    pub fn run_pending<A: Agent>(&mut self, agent_name: &str, agent: &mut A) -> (reports: Vec<
        TaskReport,
    >)
        ensures
            final(agent).config_view() == old(agent).config_view(),
            report_ids(reports@) == due_ids(old(self)@, agent_name@),
            due_ids(final(self)@, agent_name@) == Seq::<Seq<char>>::empty(),
            exists|now: i64|
                {
                    &&& #[trigger] answered_in_turn(
                        *old(agent),
                        *final(agent),
                        due_tasks(old(self)@, agent_name@),
                        now,
                        reports@,
                    )
                    &&& final(self)@ == settled(
                        old(self)@,
                        agent_name@,
                        now,
                        verdicts_of(reports@),
                    )
                },
    {
        let now = unix_now();
        let reports = self.run_pending_at(agent_name, agent, now);
        assert(answered_in_turn(
            *old(agent),
            *agent,
            due_tasks(old(self)@, agent_name@),
            now,
            reports@,
        ));
        reports
    }
}

/// Three submissions of one task to a list that has neither of its ids: the
/// first is stored under the task's id, the second under the discriminated
/// id, and the third is refused and changes nothing.
pub proof fn lemma_three_submissions(before: Seq<TodoTaskView>, task: TodoTaskView)
    requires
        ids_of(before).no_duplicates(),
        !ids_of(before).contains(task.id),
        second_try(task) is Some,
        !ids_of(before).contains(second_try(task)->0.id),
    ensures
        is_accepted(before, task),
        submitted(before, task) == before.push(task),
        is_accepted(before.push(task), task),
        submitted(before.push(task), task) == before.push(task).push(second_try(task)->0),
        !is_accepted(before.push(task).push(second_try(task)->0), task),
        submitted(before.push(task).push(second_try(task)->0), task) == before.push(task).push(
            second_try(task)->0,
        ),
{
    let again = second_try(task)->0;
    let once = before.push(task);
    let twice = once.push(again);
    lemma_ids_push(before, task);
    lemma_discriminated_differs(
        task.id,
        utc_text(task.created_at as int, STAMP_PATTERN@)->0,
    );
    assert(ids_of(once)[before.len() as int] == task.id);
    assert(ids_of(once).contains(task.id));
    assert(!ids_of(once).contains(again.id)) by {
        if ids_of(once).contains(again.id) {
            let j = ids_of(once).index_of(again.id);
            if j < before.len() {
                assert(ids_of(before)[j] == again.id);
                assert(ids_of(before).contains(again.id));
            }
        }
    }
    lemma_ids_push(once, again);
    assert(ids_of(twice)[before.len() as int] == task.id);
    assert(ids_of(twice)[before.len() as int + 1] == again.id);
    assert(ids_of(twice).contains(task.id));
    assert(ids_of(twice).contains(again.id));
}

/// Where no task waits for an agent, no id is due.
pub proof fn lemma_nothing_due(tasks: Seq<TodoTaskView>, agent: Seq<char>)
    requires
        forall|i: int| 0 <= i < tasks.len() ==> !is_due(#[trigger] tasks[i], agent),
    ensures
        due_ids(tasks, agent) == Seq::<Seq<char>>::empty(),
    decreases tasks.len(),
{
    if tasks.len() > 0 {
        lemma_nothing_due(tasks.drop_last(), agent);
    }
}

/// A new id at the end keeps the ids distinct.
pub proof fn lemma_ids_push(before: Seq<TodoTaskView>, task: TodoTaskView)
    requires
        ids_of(before).no_duplicates(),
        !ids_of(before).contains(task.id),
    ensures
        ids_of(before.push(task)).no_duplicates(),
        ids_of(before.push(task)) == ids_of(before).push(task.id),
{
    let ids = ids_of(before);
    let ids2 = ids_of(before.push(task));
    assert(ids2 =~= ids.push(task.id));
    assert forall|i: int, j: int| 0 <= i < ids2.len() && 0 <= j < ids2.len() && i != j implies ids2[i]
        != ids2[j] by {
        if i < ids.len() {
            assert(ids.contains(ids[i]));
        }
        if j < ids.len() {
            assert(ids.contains(ids[j]));
        }
    }
}

} // verus!
