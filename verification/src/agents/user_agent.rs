//! The user agent: stands for the person at the keyboard, and decides which
//! agent a to-do item should go to.

use std::collections::HashMap;
use vstd::prelude::*;
use vstd::string::StringExecFns;
use crate::agent::Agent;
use crate::agents::haiku::tool_report;
use crate::clock::unix_now;
use crate::error::Error;
use crate::ident::fresh_id;
use crate::text::{
    contains_name, contains_text, copy_opt_text, debug_params, lowercase, lowercase_of, occurs_in,
};
use crate::types::{
    AgentConfig, AgentConfigView, Message, MessageView, State, StateView, Tool, ToolView,
};

verus! {

/// Where a to-do item stands.
#[derive(Debug, Clone, Copy, PartialEq, Eq, Structural)]
pub enum TodoStatus {
    Pending,
    InProgress,
    Completed,
    Failed,
}

/// Something the user wants done.
#[derive(Debug, PartialEq)]
pub struct TodoItem {
    pub description: String,
    pub status: TodoStatus,
    pub assigned_agent: Option<String>,
    pub context: Option<String>,
    pub error: Option<String>,
    pub created_at: i64,
    pub updated_at: i64,
}

/// What a `TodoItem` holds, as mathematical values.
pub struct TodoItemView {
    pub description: Seq<char>,
    pub status: TodoStatus,
    pub assigned_agent: Option<Seq<char>>,
    pub context: Option<Seq<char>>,
    pub error: Option<Seq<char>>,
    pub created_at: i64,
    pub updated_at: i64,
}

impl DeepView for TodoItem {
    type V = TodoItemView;

    open spec fn deep_view(&self) -> TodoItemView {
        TodoItemView {
            description: self.description@,
            status: self.status,
            assigned_agent: self.assigned_agent.deep_view(),
            context: self.context.deep_view(),
            error: self.error.deep_view(),
            created_at: self.created_at,
            updated_at: self.updated_at,
        }
    }
}

impl View for TodoItem {
    type V = TodoItemView;

    open spec fn view(&self) -> TodoItemView {
        self.deep_view()
    }
}

impl Clone for TodoItem {
    fn clone(&self) -> (r: Self)
        ensures
            r@ == self@,
    {
        TodoItem {
            description: self.description.clone(),
            status: self.status,
            assigned_agent: copy_opt_text(&self.assigned_agent),
            context: copy_opt_text(&self.context),
            error: copy_opt_text(&self.error),
            created_at: self.created_at,
            updated_at: self.updated_at,
        }
    }
}

/// The agent that a description in lower case points to, by the words that
/// occur in it. The first rule that applies decides: version control, then
/// project setup, then writing, then the browser, then greeting.
pub open spec fn agent_for(lowered: Seq<char>) -> Option<Seq<char>> {
    if occurs_in("git"@, lowered) || occurs_in("commit"@, lowered) || occurs_in(
        "branch"@,
        lowered,
    ) || occurs_in("repo"@, lowered) {
        Some("git"@)
    } else if occurs_in("project"@, lowered) || occurs_in("init"@, lowered) || occurs_in(
        "create"@,
        lowered,
    ) || occurs_in("setup"@, lowered) || occurs_in("new"@, lowered) {
        Some("project-init"@)
    } else if occurs_in("doc"@, lowered) || occurs_in("haiku"@, lowered) || occurs_in(
        "poem"@,
        lowered,
    ) || occurs_in("write"@, lowered) {
        Some("haiku"@)
    } else if occurs_in("browser"@, lowered) || occurs_in("web"@, lowered) || occurs_in(
        "page"@,
        lowered,
    ) || occurs_in("site"@, lowered) {
        Some("browser"@)
    } else if occurs_in("hello"@, lowered) || occurs_in("hi"@, lowered) || occurs_in(
        "greet"@,
        lowered,
    ) || occurs_in("welcome"@, lowered) {
        Some("greeter"@)
    } else {
        None
    }
}

/// Picks the agent for a description that is already in lower case.
pub fn suggest_agent(lowered: &str) -> (r: Option<String>)
    ensures
        r.deep_view() == agent_for(lowered@),
{
    if contains_text(lowered, "git") || contains_text(lowered, "commit") || contains_text(
        lowered,
        "branch",
    ) || contains_text(lowered, "repo") {
        Some("git".to_owned())
    } else if contains_text(lowered, "project") || contains_text(lowered, "init")
        || contains_text(lowered, "create") || contains_text(lowered, "setup") || contains_text(
        lowered,
        "new",
    ) {
        Some("project-init".to_owned())
    } else if contains_text(lowered, "doc") || contains_text(lowered, "haiku") || contains_text(
        lowered,
        "poem",
    ) || contains_text(lowered, "write") {
        Some("haiku".to_owned())
    } else if contains_text(lowered, "browser") || contains_text(lowered, "web") || contains_text(
        lowered,
        "page",
    ) || contains_text(lowered, "site") {
        Some("browser".to_owned())
    } else if contains_text(lowered, "hello") || contains_text(lowered, "hi") || contains_text(
        lowered,
        "greet",
    ) || contains_text(lowered, "welcome") {
        Some("greeter".to_owned())
    } else {
        None
    }
}

/// The user agent.
#[derive(Debug, PartialEq)]
pub struct UserAgent {
    pub id: String,
    pub name: String,
    pub description: String,
    pub image_url: Option<String>,
    pub created_at: i64,
    pub updated_at: i64,
    pub config: AgentConfig,
}

/// What the user agent says to a message.
pub open spec fn user_reply(content: Seq<char>) -> Seq<char> {
    "User received: "@ + content
}

impl UserAgent {
    /// A user agent with the given id, made at `now`: named and described as
    /// its configuration says, without an image.
    pub fn assemble(id: String, config: AgentConfig, now: i64) -> (r: Self)
        ensures
            r.id@ == id@,
            r.name@ == config@.name,
            r.description@ == config@.public_description,
            r.image_url is None,
            r.created_at == now,
            r.updated_at == now,
            r.config@ == config@,
    {
        let name = config.name.clone();
        let description = config.public_description.clone();
        Self { id, name, description, image_url: None, created_at: now, updated_at: now, config }
    }

    /// A user agent under a fresh id of 36 characters, made at the time of
    /// the call.
    ///
    /// The id is drawn from the system's source of randomness and the time
    /// is read from its clock: on a machine that has no such source, or
    /// whose clock stands before 1970, the call does not return.
    pub fn new(config: AgentConfig) -> (r: Self)
        ensures
            r.id@.len() == 36,
            r.name@ == config@.name,
            r.description@ == config@.public_description,
            r.image_url is None,
            r.created_at == r.updated_at,
            r.config@ == config@,
    {
        Self::assemble(fresh_id(), config, unix_now())
    }

    /// When the agent was made, in seconds since the Unix epoch.
    pub fn get_created_at(&self) -> (r: i64)
        ensures
            r == self.created_at,
    {
        self.created_at
    }

    /// When the agent was last changed, in seconds since the Unix epoch.
    pub fn get_updated_at(&self) -> (r: i64)
        ensures
            r == self.updated_at,
    {
        self.updated_at
    }

    /// Which agent should take a to-do item, going by the words in its
    /// description; `None` where no agent fits.
    pub fn determine_next_agent(&self, todo: &TodoItem) -> (r: Option<String>)
        ensures
            r.deep_view() == agent_for(lowercase_of(todo@.description)),
    {
        let lowered = lowercase(todo.description.as_str());
        suggest_agent(lowered.as_str())
    }
}

impl Agent for UserAgent {
    open spec fn config_view(&self) -> AgentConfigView {
        self.config@
    }

    /// The user agent has no conversational state.
    open spec fn state_view(&self) -> Option<StateView> {
        None
    }

    /// The user agent acknowledges every message, as the assistant and
    /// without metadata, and is left as it was.
    open spec fn answers(
        &self,
        message: MessageView,
        after: Self,
        r: Result<Message, Error>,
    ) -> bool {
        &&& after == *self
        &&& r matches Ok(m) && m@.content == user_reply(message.content) && m@.metadata is None
            && m@.role == Some("assistant"@) && m@.timestamp is Some
    }

    /// A handover to an agent on the downstream list succeeds and passes the
    /// message on as it is; any other target is refused. Either way the
    /// agent is left as it was.
    open spec fn hands_over(
        &self,
        target: Seq<char>,
        message: MessageView,
        after: Self,
        r: Result<Message, Error>,
    ) -> bool {
        &&& after == *self
        &&& if self.config_view().allows(target) {
            r matches Ok(m) && m@ == message
        } else {
            r matches Err(Error::InvalidTransferTarget(t)) && t@ == target
        }
    }

    /// Every call is reported, by the tool's name and the parameters as
    /// they print; the agent is left as it was.
    open spec fn tool_gives(
        &self,
        tool: ToolView,
        params: Map<String, String>,
        after: Self,
        r: Result<String, Error>,
    ) -> bool {
        &&& after == *self
        &&& r matches Ok(m) && exists|printed: Seq<char>|
            m@ == #[trigger] tool_report(tool.name, printed)
    }

    /// Acknowledges the message.
    fn process_message(&mut self, message: Message) -> (r: Result<Message, Error>) {
        Ok(Message::new("User received: ".to_owned().concat(message.content.as_str())))
    }

    /// Passes the message on to a downstream agent as it is.
    fn transfer_to(&mut self, target_agent: String, message: Message) -> (r: Result<
        Message,
        Error,
    >)
        ensures
            *final(self) == *old(self),
            old(self).config@.allows(target_agent@) ==> r == Ok::<
                Message,
                Error,
            >(message),
    {
        if !contains_name(&self.config.downstream_agents, target_agent.as_str()) {
            Err(Error::InvalidTransferTarget(target_agent))
        } else {
            Ok(message)
        }
    }

    /// Reports the call: the tool's name, then the parameters as they print.
    fn call_tool(&mut self, tool: &Tool, params: HashMap<String, String>) -> (r: Result<
        String,
        Error,
    >) {
        let printed = debug_params(&params);
        let m = "Called tool ".to_owned().concat(tool.name.as_str()).concat(
            " with params ",
        ).concat(printed.as_str());
        assert(m@ == tool_report(tool@.name, printed@));
        Ok(m)
    }

    /// The user agent has no conversational state.
    fn get_current_state(&self) -> (r: Option<State>) {
        None
    }

    fn get_config(&self) -> (r: AgentConfig) {
        self.config.clone()
    }
}

/// What the user agent keeps between runs.
#[derive(Debug, PartialEq)]
pub struct UserAgentState {
    pub config: AgentConfig,
    pub state: String,
    pub state_file: String,
    todos: Vec<TodoItem>,
    last_processed: Option<i64>,
}

/// The name of the file that an agent's state is kept in.
pub open spec fn state_file_of(name: Seq<char>) -> Seq<char> {
    name + ".json"@
}

impl UserAgentState {
    /// The configuration of the agent that the state belongs to.
    pub closed spec fn config_view(&self) -> AgentConfigView {
        self.config@
    }

    /// The name of the state the agent is in.
    pub closed spec fn state_name(&self) -> Seq<char> {
        self.state@
    }

    /// The name of the file that the state is kept in.
    pub closed spec fn file_name(&self) -> Seq<char> {
        self.state_file@
    }

    /// The to-do items.
    pub closed spec fn todos(&self) -> Seq<TodoItemView> {
        self.todos.deep_view()
    }

    /// When the items were last gone through.
    pub closed spec fn last_processed(&self) -> Option<i64> {
        self.last_processed
    }

    /// A fresh state for an agent: no items, never processed, kept in the
    /// file named after the agent.
    pub fn new(config: AgentConfig) -> (r: Self)
        ensures
            r.config_view() == config@,
            r.state_name() == Seq::<char>::empty(),
            r.file_name() == state_file_of(config@.name),
            r.todos() == Seq::<TodoItemView>::empty(),
            r.last_processed() is None,
    {
        let state_file = config.name.clone().concat(".json");
        let r = Self {
            config,
            state: String::new(),
            state_file,
            todos: Vec::new(),
            last_processed: None,
        };
        assert(r.todos.deep_view() =~= Seq::<TodoItemView>::empty());
        r
    }

    /// A state put together from its parts, as read back from where it was
    /// kept.
    pub fn from_parts(
        config: AgentConfig,
        state: String,
        state_file: String,
        todos: Vec<TodoItem>,
        last_processed: Option<i64>,
    ) -> (r: Self)
        ensures
            r.config_view() == config@,
            r.state_name() == state@,
            r.file_name() == state_file@,
            r.todos() == todos.deep_view(),
            r.last_processed() == last_processed,
    {
        Self { config, state, state_file, todos, last_processed }
    }

    /// A copy of the to-do items.
    pub fn get_todos(&self) -> (r: Vec<TodoItem>)
        ensures
            r.deep_view() == self.todos(),
    {
        let mut out: Vec<TodoItem> = Vec::new();
        let mut i: usize = 0;
        while i < self.todos.len()
            invariant
                i <= self.todos.len(),
                out.len() == i,
                forall|j: int| 0 <= j < i ==> out@[j]@ == self.todos@[j]@,
            decreases self.todos.len() - i,
        {
            out.push(self.todos[i].clone());
            i += 1;
        }
        assert(out.deep_view() =~= self.todos.deep_view());
        out
    }

    /// When the items were last gone through.
    pub fn get_last_processed(&self) -> (r: Option<i64>)
        ensures
            r == self.last_processed(),
    {
        self.last_processed
    }

    /// Records `now` as the time the items were last gone through.
    pub fn mark_processed(&mut self, now: i64)
        ensures
            final(self).last_processed() == Some(now),
            final(self).todos() == old(self).todos(),
            final(self).config_view() == old(self).config_view(),
            final(self).state_name() == old(self).state_name(),
            final(self).file_name() == old(self).file_name(),
    {
        self.last_processed = Some(now);
    }

    /// Records the time of the call as the time the items were last gone
    /// through. The time is read from the system clock, as `Message::new`
    /// reads it.
    pub fn update_last_processed(&mut self)
        ensures
            final(self).last_processed() is Some,
            final(self).todos() == old(self).todos(),
            final(self).config_view() == old(self).config_view(),
            final(self).state_name() == old(self).state_name(),
            final(self).file_name() == old(self).file_name(),
    {
        self.mark_processed(unix_now());
    }
}

} // verus!
