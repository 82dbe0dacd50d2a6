//! The task tool: commands that add, list, complete and fail tasks.

use vstd::prelude::*;
use vstd::string::StringExecFns;
use crate::ai::{AiProvider, NoAiClient};
use crate::clock::unix_now;
use crate::error::Error;
use crate::ident::fresh_id;
use crate::lookup::{find_slot, value_of};
use crate::text::same_text;
use crate::todo::enrich::{
    enrich, enriched, fallback, merge_project, merged_project, Enrichment, EnrichmentView,
    ProjectCatalog, ProjectCatalogView,
};
use crate::todo::list::{handed_in_to, ids_of, TodoList};
use crate::todo::task::{TaskStatus, TodoTask, TodoTaskView};

verus! {

/// Who hands in the tasks that come through the tool.
pub const TASK_SOURCE: &'static str = "mcp_server";

/// The agent that a task goes to when the command names none.
pub const DEFAULT_TARGET: &'static str = "user";

/// A new task as it is first stored: `Pending`, from the tool, with the
/// enriched description and priority, under the project that the caller
/// gave or else the predicted one.
pub open spec fn new_task_view(
    id: Seq<char>,
    description: Seq<char>,
    enrichment: EnrichmentView,
    supplied_project: Option<Seq<char>>,
    target_agent: Seq<char>,
    now: i64,
) -> TodoTaskView {
    TodoTaskView {
        id,
        description,
        enhanced_description: Some(enrichment.description),
        priority: enrichment.priority,
        project: Some(merged_project(supplied_project, enrichment.project)),
        source_agent: Some(TASK_SOURCE@),
        target_agent,
        status: TaskStatus::Pending,
        created_at: now,
        completed_at: None,
    }
}

/// Puts a new task together from its parts.
pub fn assemble_task(
    id: String,
    description: &str,
    enrichment: Enrichment,
    supplied_project: Option<&str>,
    target_agent: &str,
    now: i64,
) -> (r: TodoTask)
    ensures
        r@ == new_task_view(
            id@,
            description@,
            enrichment@,
            supplied_project.deep_view(),
            target_agent@,
            now,
        ),
{
    TodoTask {
        id,
        description: description.to_owned(),
        enhanced_description: Some(enrichment.description),
        priority: enrichment.priority,
        project: Some(merge_project(supplied_project, enrichment.project)),
        source_agent: Some(TASK_SOURCE.to_owned()),
        target_agent: target_agent.to_owned(),
        status: TaskStatus::Pending,
        created_at: now,
        completed_at: None,
    }
}

/// A new task under a fresh id of 36 characters, created at the time of
/// the call.
///
/// The id is drawn from the system's source of randomness and the time is
/// read from its clock: on a machine that has no such source, or whose
/// clock stands before 1970, the call does not return.
pub fn new_task(
    description: &str,
    enrichment: Enrichment,
    supplied_project: Option<&str>,
    target_agent: &str,
) -> (r: TodoTask)
    ensures
        r@.id.len() == 36,
        r@ == new_task_view(
            r@.id,
            description@,
            enrichment@,
            supplied_project.deep_view(),
            target_agent@,
            r@.created_at,
        ),
{
    assemble_task(
        fresh_id(),
        description,
        enrichment,
        supplied_project,
        target_agent,
        unix_now(),
    )
}

/// A command for the task tool.
#[derive(Debug, PartialEq)]
pub enum TodoCommand {
    Add {
        description: String,
        context: Option<String>,
        target_agent: String,
        project: Option<String>,
    },
    List,
    Complete { description: String },
    Fail { description: String },
}

/// A command for the task tool, as mathematical value.
pub enum TodoCommandView {
    Add {
        description: Seq<char>,
        context: Option<Seq<char>>,
        target_agent: Seq<char>,
        project: Option<Seq<char>>,
    },
    List,
    Complete { description: Seq<char> },
    Fail { description: Seq<char> },
}

impl DeepView for TodoCommand {
    type V = TodoCommandView;

    open spec fn deep_view(&self) -> TodoCommandView {
        match *self {
            TodoCommand::Add { description, context, target_agent, project } => TodoCommandView::Add {
                description: description@,
                context: context.deep_view(),
                target_agent: target_agent@,
                project: project.deep_view(),
            },
            TodoCommand::List => TodoCommandView::List,
            TodoCommand::Complete { description } => TodoCommandView::Complete {
                description: description@,
            },
            TodoCommand::Fail { description } => TodoCommandView::Fail { description: description@ },
        }
    }
}

impl View for TodoCommand {
    type V = TodoCommandView;

    open spec fn view(&self) -> TodoCommandView {
        self.deep_view()
    }
}

/// The command that a list of named parameters stands for, or why it stands
/// for none.
///
/// `command` says what to do: `add`, `list`, `complete` or `fail`. All but
/// `list` need a `description`. `add` also takes `context`, `target_agent`
/// (else the default target) and `project`.
pub open spec fn command_of(params: Seq<(Seq<char>, Seq<char>)>) -> Result<
    TodoCommandView,
    Seq<char>,
> {
    match value_of(params, "command"@) {
        None => Err("Missing command parameter"@),
        Some(command) => if command == "add"@ {
            match value_of(params, "description"@) {
                None => Err("Missing todo description"@),
                Some(description) => Ok(
                    TodoCommandView::Add {
                        description,
                        context: value_of(params, "context"@),
                        target_agent: match value_of(params, "target_agent"@) {
                            Some(t) => t,
                            None => DEFAULT_TARGET@,
                        },
                        project: value_of(params, "project"@),
                    },
                ),
            }
        } else if command == "list"@ {
            Ok(TodoCommandView::List)
        } else if command == "complete"@ {
            match value_of(params, "description"@) {
                None => Err("Missing todo description"@),
                Some(description) => Ok(TodoCommandView::Complete { description }),
            }
        } else if command == "fail"@ {
            match value_of(params, "description"@) {
                None => Err("Missing todo description"@),
                Some(description) => Ok(TodoCommandView::Fail { description }),
            }
        } else {
            Err("Unknown todo command"@)
        },
    }
}

/// The value of a named parameter.
pub fn param<'a>(params: &'a Vec<(String, String)>, name: &str) -> (r: Option<&'a String>)
    ensures
        r.deep_view() == value_of(params.deep_view(), name@),
{
    match find_slot(params, name) {
        Some(i) => Some(&params[i].1),
        None => None,
    }
}

/// A copy of the value of a named parameter.
fn param_owned(params: &Vec<(String, String)>, name: &str) -> (r: Option<String>)
    ensures
        r.deep_view() == value_of(params.deep_view(), name@),
{
    match param(params, name) {
        Some(v) => Some(v.clone()),
        None => None,
    }
}

/// Reads a command from named parameters. What is wrong with the parameters
/// comes back as a `ToolError`.
pub fn parse_command(params: &Vec<(String, String)>) -> (r: Result<TodoCommand, Error>)
    ensures
        match command_of(params.deep_view()) {
            Ok(c) => r matches Ok(x) && x@ == c,
            Err(why) => r matches Err(Error::ToolError(w)) && w@ == why,
        },
{
    let command = match param(params, "command") {
        Some(c) => c,
        None => {
            return Err(Error::ToolError("Missing command parameter".to_owned()));
        },
    };
    if same_text(command.as_str(), "add") {
        match param_owned(params, "description") {
            None => Err(Error::ToolError("Missing todo description".to_owned())),
            Some(description) => Ok(
                TodoCommand::Add {
                    description,
                    context: param_owned(params, "context"),
                    target_agent: match param_owned(params, "target_agent") {
                        Some(t) => t,
                        None => DEFAULT_TARGET.to_owned(),
                    },
                    project: param_owned(params, "project"),
                },
            ),
        }
    } else if same_text(command.as_str(), "list") {
        Ok(TodoCommand::List)
    } else if same_text(command.as_str(), "complete") {
        match param_owned(params, "description") {
            None => Err(Error::ToolError("Missing todo description".to_owned())),
            Some(description) => Ok(TodoCommand::Complete { description }),
        }
    } else if same_text(command.as_str(), "fail") {
        match param_owned(params, "description") {
            None => Err(Error::ToolError("Missing todo description".to_owned())),
            Some(description) => Ok(TodoCommand::Fail { description }),
        }
    } else {
        Err(Error::ToolError("Unknown todo command".to_owned()))
    }
}

/// One line `- description (Status)` for each task.
pub open spec fn task_lines(tasks: Seq<TodoTaskView>) -> Seq<char>
    decreases tasks.len(),
{
    if tasks.len() == 0 {
        Seq::empty()
    } else {
        task_lines(tasks.drop_last()) + "- "@ + tasks.last().description + " ("@
            + tasks.last().status.name() + ")\n"@
    }
}

/// The listing of a sequence of tasks.
pub open spec fn listing_of(tasks: Seq<TodoTaskView>) -> Seq<char> {
    if tasks.len() == 0 {
        "No todos found."@
    } else {
        "Current todos:\n"@ + task_lines(tasks)
    }
}

/// Renders the listing of the tasks.
pub fn render_todos(tasks: &Vec<TodoTask>) -> (r: String)
    ensures
        r@ == listing_of(tasks.deep_view()),
{
    if tasks.len() == 0 {
        return "No todos found.".to_owned();
    }
    let mut lines = String::new();
    let mut i: usize = 0;
    while i < tasks.len()
        invariant
            i <= tasks.len(),
            lines@ == task_lines(tasks.deep_view().take(i as int)),
        decreases tasks.len() - i,
    {
        proof {
            let next = tasks.deep_view().take(i + 1);
            assert(next.drop_last() =~= tasks.deep_view().take(i as int));
            assert(next.last() == tasks.deep_view()[i as int]);
        }
        lines = lines.concat("- ").concat(tasks[i].description.as_str()).concat(" (").concat(
            tasks[i].status.as_str(),
        ).concat(")\n");
        i += 1;
    }
    assert(tasks.deep_view().take(i as int) =~= tasks.deep_view());
    "Current todos:\n".to_owned().concat(lines.as_str())
}

/// What is said of a move that the life cycle refuses.
pub open spec fn refusal_text(from: TaskStatus, to: TaskStatus) -> Seq<char> {
    "Cannot move a todo from "@ + from.name() + " to "@ + to.name()
}

/// What is said after a change of status, given the status that the task
/// was found in, if it was found, and how many tasks the store then
/// changed.
///
/// A task that is not there is `NotFound`. A task that is there, in a
/// status that may not pass to the new one, is a `ValidationError` that
/// names the two statuses. Else the task has moved where the store changed
/// exactly one task, and is `NotFound` where it changed none after all.
pub fn status_update_result(
    description: &str,
    current: Option<TaskStatus>,
    status: TaskStatus,
    modified_count: u64,
) -> (r: Result<String, Error>)
    ensures
        match current {
            None => r matches Err(Error::NotFound(d)) && d@ == description@,
            Some(from) => if !from.may_become(status) {
                r matches Err(Error::ValidationError(w)) && w@ == refusal_text(from, status)
            } else if modified_count == 1 {
                r matches Ok(m) && m@ == "Updated todo status to "@ + status.name()
            } else {
                r matches Err(Error::NotFound(d)) && d@ == description@
            },
        },
{
    match current {
        None => Err(Error::NotFound(description.to_owned())),
        Some(from) => {
            if !from.can_become(status) {
                Err(
                    Error::ValidationError(
                        "Cannot move a todo from ".to_owned().concat(from.as_str()).concat(
                            " to ",
                        ).concat(status.as_str()),
                    ),
                )
            } else if modified_count == 1 {
                Ok("Updated todo status to ".to_owned().concat(status.as_str()))
            } else {
                Err(Error::NotFound(description.to_owned()))
            }
        },
    }
}

/// What adding a task does to the tasks of a tool: some new task, made from
/// the description, an enrichment, the caller's project and the target, is
/// handed in. The enrichment is what the pipeline gives against the text
/// service `client`, so its project is one that the catalog knows; with
/// the service out of reach it is the fallback.
pub open spec fn added_to<C: AiProvider>(
    before: Seq<TodoTaskView>,
    after: Seq<TodoTaskView>,
    r: Result<String, Error>,
    client: C,
    catalog: ProjectCatalogView,
    description: Seq<char>,
    project: Option<Seq<char>>,
    target_agent: Seq<char>,
) -> bool {
    exists|enrichment: EnrichmentView, id: Seq<char>, now: i64|
        {
            &&& id.len() == 36
            &&& #[trigger] handed_in_to(
                before,
                after,
                r,
                new_task_view(id, description, enrichment, project, target_agent, now),
            )
            &&& enriched(client, description, catalog, enrichment)
            &&& catalog.knows(enrichment.project)
            &&& catalog.is_named() ==> enrichment.project.len() > 0
            &&& client.is_unreachable() ==> enrichment == fallback(
                description,
                catalog.default_project,
            )
        }
}

/// What a change of status by description does to the tasks of a tool: the
/// first task with the description moves to the status where its life cycle
/// allows it. Where there is no such task, nothing changes and the result
/// is `NotFound`; where the task may not move, nothing changes and the
/// result is a `ValidationError` that names the two statuses.
pub open spec fn status_set(
    before: Seq<TodoTaskView>,
    after: Seq<TodoTaskView>,
    r: Result<String, Error>,
    description: Seq<char>,
    status: TaskStatus,
) -> bool {
    &&& after.len() == before.len()
    &&& (forall|j: int| 0 <= j < before.len() ==> before[j].description != description) ==> {
        &&& r matches Err(Error::NotFound(d)) && d@ == description
        &&& after == before
    }
    &&& forall|i: int|
        first_described(before, description, i) ==> if before[i].status.may_become(status) {
            &&& r matches Ok(m) && m@ == "Updated todo status to "@ + status.name()
            &&& exists|now: i64| after == before.update(i, before[i].moved_to(status, now))
        } else {
            &&& r matches Err(Error::ValidationError(w)) && w@ == refusal_text(
                before[i].status,
                status,
            )
            &&& after == before
        }
}

/// Index of the first task with this description, if there is one.
pub open spec fn first_described(tasks: Seq<TodoTaskView>, description: Seq<char>, i: int) -> bool {
    &&& 0 <= i < tasks.len()
    &&& tasks[i].description == description
    &&& forall|j: int| 0 <= j < i ==> tasks[j].description != description
}

/// The task tool: a task list, the text service that enriches new tasks,
/// and the catalog of projects that they are filed under.
pub struct TodoTool<C: AiProvider> {
    list: TodoList,
    ai_client: C,
    catalog: ProjectCatalog,
}

impl TodoTool<NoAiClient> {
    /// A tool with no tasks and no text service.
    pub fn new(catalog: ProjectCatalog) -> (r: Self)
        ensures
            r.tasks() == Seq::<TodoTaskView>::empty(),
            r.catalog_view() == catalog@,
            r.client().is_unreachable(),
    {
        TodoTool { list: TodoList::new(), ai_client: NoAiClient, catalog }
    }
}

impl<C: AiProvider> TodoTool<C> {
    /// The tasks that the tool holds, in the order in which they came.
    pub closed spec fn tasks(&self) -> Seq<TodoTaskView> {
        self.list@
    }

    /// The catalog of projects.
    pub closed spec fn catalog_view(&self) -> ProjectCatalogView {
        self.catalog@
    }

    /// The text service.
    pub closed spec fn client(&self) -> C {
        self.ai_client
    }

    /// The same tool with another text service.
    pub fn with_ai_client<T: AiProvider>(self, client: T) -> (r: TodoTool<T>)
        ensures
            r.tasks() == self.tasks(),
            r.catalog_view() == self.catalog_view(),
            r.client() == client,
    {
        TodoTool { list: self.list, ai_client: client, catalog: self.catalog }
    }

    /// The tasks, for reading.
    pub fn todo_list(&self) -> (r: &TodoList)
        ensures
            r@ == self.tasks(),
    {
        &self.list
    }

    /// Adds a task: enriches the description, files the task under the
    /// caller's project or else the predicted one, and hands it in.
    ///
    /// Enrichment never fails the command: with the text service out of
    /// reach, the task keeps its description, is `Medium`, and goes to the
    /// default project unless the caller named one. The task's id and time
    /// are drawn as `new_task` draws them.
    pub fn add_todo(
        &mut self,
        description: &str,
        context: Option<&str>,
        target_agent: &str,
        project: Option<&str>,
    ) -> (r: Result<String, Error>)
        ensures
            final(self).catalog_view() == old(self).catalog_view(),
            final(self).client() == old(self).client(),
            added_to(
                old(self).tasks(),
                final(self).tasks(),
                r,
                old(self).client(),
                old(self).catalog_view(),
                description@,
                project.deep_view(),
                target_agent@,
            ),
    {
        let enrichment = enrich(&self.ai_client, description, &self.catalog);
        let ghost e = enrichment@;
        let task = new_task(description, enrichment, project, target_agent);
        let ghost t = task@;
        let r = self.list.add_task(task);
        proof {
            assert(handed_in_to(
                old(self).tasks(),
                self.tasks(),
                r,
                new_task_view(
                    t.id,
                    description@,
                    e,
                    project.deep_view(),
                    target_agent@,
                    t.created_at,
                ),
            ));
        }
        r
    }

    /// The listing of all tasks.
    pub fn list_todos(&self) -> (r: String)
        ensures
            r@ == listing_of(self.tasks()),
    {
        let all = self.list.find_all();
        render_todos(&all)
    }

    /// Moves the first task with this description to `status`.
    ///
    /// Succeeds exactly when there is such a task and its life cycle allows
    /// the move; that task is then in the new status, and nothing else has
    /// changed. Otherwise nothing has changed: the result is `NotFound`
    /// where no task has the description, and a `ValidationError` where the
    /// task may not move. The time of the move is read from the system
    /// clock, as `Message::new` reads it.
    pub fn update_todo_status(&mut self, description: &str, status: TaskStatus) -> (r: Result<
        String,
        Error,
    >)
        ensures
            final(self).catalog_view() == old(self).catalog_view(),
            final(self).client() == old(self).client(),
            status_set(old(self).tasks(), final(self).tasks(), r, description@, status),
    {
        match self.list.id_of_description(description) {
            Some(id) => {
                let now = unix_now();
                let ghost before = self.list@;
                let current = self.list.status_of(id.as_str());
                let n = self.list.update_status(id.as_str(), status, now);
                proof {
                    let ids = ids_of(before);
                    let k = choose|k: int|
                        {
                            &&& 0 <= k < before.len()
                            &&& #[trigger] before[k].description == description@
                            &&& before[k].id == id@
                            &&& forall|j: int| 0 <= j < k ==> before[j].description != description@
                        };
                    assert(ids[k] == id@);
                    assert(ids.contains(id@));
                    let at = ids.index_of(id@);
                    assert(0 <= at < ids.len() && ids[at] == id@);
                    lemma_same_id_same_slot(before, k, at);
                    assert forall|i: int| first_described(before, description@, i) implies i
                        == k by {
                        if i < k {
                        } else if k < i {
                        }
                    }
                }
                status_update_result(description, current, status, n as u64)
            },
            None => Err(Error::NotFound(description.to_owned())),
        }
    }

    /// Runs a command given as named parameters.
    ///
    /// Parameters that stand for no command fail with a `ToolError` and
    /// change nothing. Else the command is run: `add` goes to `add_todo`,
    /// `list` to `list_todos`, `complete` and `fail` to `update_todo_status`.
    pub fn execute(&mut self, params: &Vec<(String, String)>) -> (r: Result<String, Error>)
        ensures
            final(self).catalog_view() == old(self).catalog_view(),
            final(self).client() == old(self).client(),
            match command_of(params.deep_view()) {
                Err(why) => {
                    &&& r matches Err(Error::ToolError(w)) && w@ == why
                    &&& final(self).tasks() == old(self).tasks()
                },
                Ok(TodoCommandView::List) => {
                    &&& r matches Ok(m) && m@ == listing_of(old(self).tasks())
                    &&& final(self).tasks() == old(self).tasks()
                },
                Ok(TodoCommandView::Add { description, context, target_agent, project }) => added_to(
                    old(self).tasks(),
                    final(self).tasks(),
                    r,
                    old(self).client(),
                    old(self).catalog_view(),
                    description,
                    project,
                    target_agent,
                ),
                Ok(TodoCommandView::Complete { description }) => status_set(
                    old(self).tasks(),
                    final(self).tasks(),
                    r,
                    description,
                    TaskStatus::Completed,
                ),
                Ok(TodoCommandView::Fail { description }) => status_set(
                    old(self).tasks(),
                    final(self).tasks(),
                    r,
                    description,
                    TaskStatus::Failed,
                ),
            },
    {
        match parse_command(params) {
            Err(e) => Err(e),
            Ok(TodoCommand::Add { description, context, target_agent, project }) => {
                let context_ref: Option<&str> = match &context {
                    Some(c) => Some(c.as_str()),
                    None => None,
                };
                let project_ref: Option<&str> = match &project {
                    Some(p) => Some(p.as_str()),
                    None => None,
                };
                self.add_todo(
                    description.as_str(),
                    context_ref,
                    target_agent.as_str(),
                    project_ref,
                )
            },
            Ok(TodoCommand::List) => Ok(self.list_todos()),
            Ok(TodoCommand::Complete { description }) => self.update_todo_status(
                description.as_str(),
                TaskStatus::Completed,
            ),
            Ok(TodoCommand::Fail { description }) => self.update_todo_status(
                description.as_str(),
                TaskStatus::Failed,
            ),
        }
    }
}

/// Two places of a list that hold the same id are the same place.
pub proof fn lemma_same_id_same_slot(tasks: Seq<TodoTaskView>, a: int, b: int)
    requires
        ids_of(tasks).no_duplicates(),
        0 <= a < tasks.len(),
        0 <= b < tasks.len(),
        tasks[a].id == tasks[b].id,
    ensures
        a == b,
{
    let ids = ids_of(tasks);
    assert(ids[a] == ids[b]);
}

} // verus!
