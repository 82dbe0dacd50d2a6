//! An agent together with the tasks addressed to it.

use std::collections::HashMap;
use vstd::prelude::*;
use crate::agent::Agent;
use crate::clock::unix_now;
use crate::error::Error;
use crate::registry::AgentRegistry;
use crate::todo::list::{
    answered_in_turn, due_ids, due_tasks, handed_in_to, process_task, report_ids, settled,
    task_message_view, verdicts_of, TaskReport, TodoList, CHECK_INTERVAL_SECS,
};
use crate::todo::task::{TodoTask, TodoTaskView};
use crate::types::{
    AgentConfig, AgentConfigView, Message, MessageView, State, StateView, Tool, ToolView,
};

verus! {

/// An agent and its task list. The wrapper is an agent itself: whatever it
/// is asked, the agent inside answers.
pub struct AgentWrapper<A: Agent> {
    inner: A,
    todo_list: TodoList,
}

impl<A: Agent> AgentWrapper<A> {
    /// The agent inside.
    pub closed spec fn inner(&self) -> A {
        self.inner
    }

    /// The tasks addressed to the agent, in the order in which they came.
    pub closed spec fn tasks(&self) -> Seq<TodoTaskView> {
        self.todo_list@
    }

    /// Wraps an agent, with an empty task list.
    pub fn new(agent: A) -> (r: Self)
        ensures
            r.inner() == agent,
            r.tasks() == Seq::<TodoTaskView>::empty(),
    {
        Self { inner: agent, todo_list: TodoList::new() }
    }

    /// Lets the agent deal with one task, at the time of the call: the
    /// agent inside is given the task's message, stamped with that time, and
    /// what it answers is the result. The task list stays. The time is read
    /// from the system clock, as `Message::new` reads it.
    pub fn process_task(&mut self, task: &TodoTask) -> (r: Result<Message, Error>)
        ensures
            final(self).inner().config_view() == old(self).inner().config_view(),
            final(self).tasks() == old(self).tasks(),
            exists|now: i64|
                old(self).inner().answers(
                    #[trigger] task_message_view(task@, now),
                    final(self).inner(),
                    r,
                ),
    {
        let now = unix_now();
        let r = process_task(&mut self.inner, task, now);
        assert(old(self).inner().answers(task_message_view(task@, now), self.inner(), r));
        r
    }

    /// How long the processor sleeps between two rounds, in seconds.
    pub fn get_check_interval(&self) -> (secs: u64)
        ensures
            secs == CHECK_INTERVAL_SECS,
    {
        CHECK_INTERVAL_SECS
    }

    /// The agent's task list.
    pub fn get_todo_list(&self) -> (r: &TodoList)
        ensures
            r@ == self.tasks(),
    {
        &self.todo_list
    }

    /// Hands a task in to the agent's list, with one disambiguated retry
    /// where its id is taken.
    pub fn add_task(&mut self, task: TodoTask) -> (r: Result<String, Error>)
        ensures
            final(self).inner() == old(self).inner(),
            handed_in_to(old(self).tasks(), final(self).tasks(), r, task@),
    {
        self.todo_list.add_task(task)
    }

    /// One round of the agent's processor, at `now`: every `Pending` task
    /// in the list that is addressed to the agent, by the name that its own
    /// configuration declares, is worked through in order. Each report holds
    /// what the agent inside answered to that task's message.
    pub fn run_once_at(&mut self, now: i64) -> (reports: Vec<TaskReport>)
        ensures
            final(self).inner().config_view() == old(self).inner().config_view(),
            report_ids(reports@) == due_ids(
                old(self).tasks(),
                old(self).inner().config_view().name,
            ),
            final(self).tasks() == settled(
                old(self).tasks(),
                old(self).inner().config_view().name,
                now,
                verdicts_of(reports@),
            ),
            answered_in_turn(
                old(self).inner(),
                final(self).inner(),
                due_tasks(old(self).tasks(), old(self).inner().config_view().name),
                now,
                reports@,
            ),
    {
        let config = self.inner.get_config();
        self.todo_list.run_pending_at(config.name.as_str(), &mut self.inner, now)
    }
}

impl<A: Agent> Agent for AgentWrapper<A> {
    open spec fn config_view(&self) -> AgentConfigView {
        self.inner().config_view()
    }

    /// The state that the agent inside shows.
    open spec fn state_view(&self) -> Option<StateView> {
        self.inner().state_view()
    }

    /// The wrapper answers what the agent inside answers, and its task list
    /// stays.
    open spec fn answers(
        &self,
        message: MessageView,
        after: Self,
        r: Result<Message, Error>,
    ) -> bool {
        &&& self.inner().answers(message, after.inner(), r)
        &&& after.tasks() == self.tasks()
    }

    /// The wrapper hands over as the agent inside does, and its task list
    /// stays.
    open spec fn hands_over(
        &self,
        target: Seq<char>,
        message: MessageView,
        after: Self,
        r: Result<Message, Error>,
    ) -> bool {
        &&& self.inner().hands_over(target, message, after.inner(), r)
        &&& after.tasks() == self.tasks()
    }

    /// The wrapper's tools give what those of the agent inside give, and
    /// its task list stays.
    open spec fn tool_gives(
        &self,
        tool: ToolView,
        params: Map<String, String>,
        after: Self,
        r: Result<String, Error>,
    ) -> bool {
        &&& self.inner().tool_gives(tool, params, after.inner(), r)
        &&& after.tasks() == self.tasks()
    }

    /// Lets the agent inside answer.
    fn process_message(&mut self, message: Message) -> (r: Result<Message, Error>)
        ensures
            final(self).tasks() == old(self).tasks(),
    {
        self.inner.process_message(message)
    }

    /// Lets the agent inside hand the conversation over.
    fn transfer_to(&mut self, target_agent: String, message: Message) -> (r: Result<
        Message,
        Error,
    >)
        ensures
            final(self).tasks() == old(self).tasks(),
    {
        self.inner.transfer_to(target_agent, message)
    }

    /// Lets the agent inside run the tool.
    fn call_tool(&mut self, tool: &Tool, params: HashMap<String, String>) -> (r: Result<
        String,
        Error,
    >)
        ensures
            final(self).tasks() == old(self).tasks(),
    {
        self.inner.call_tool(tool, params)
    }

    /// The state that the agent inside shows.
    fn get_current_state(&self) -> (r: Option<State>) {
        self.inner.get_current_state()
    }

    fn get_config(&self) -> (r: AgentConfig) {
        self.inner.get_config()
    }
}

/// Hands a task to the agent it is addressed to.
///
/// Fails with `NotFound` where no agent goes by the target's name, and
/// nothing has changed. Else the task is handed in to that agent's list,
/// and nothing else has changed.
pub fn delegate_task<A: Agent>(registry: &mut AgentRegistry<AgentWrapper<A>>, task: TodoTask) -> (r:
    Result<String, Error>)
    ensures
        final(registry).current() == old(registry).current(),
        final(registry).names() == old(registry).names(),
        !old(registry)@.contains_key(task@.target_agent) ==> {
            &&& r matches Err(Error::NotFound(n)) && n@ == task@.target_agent
            &&& final(registry)@ == old(registry)@
        },
        old(registry)@.contains_key(task@.target_agent) ==> {
            let target = task@.target_agent;
            &&& final(registry)@.dom() == old(registry)@.dom()
            &&& forall|k: Seq<char>|
                old(registry)@.contains_key(k) && k != target ==> final(registry)@[k] == old(
                    registry,
                )@[k]
            &&& final(registry)@[target].inner() == old(registry)@[target].inner()
            &&& handed_in_to(
                old(registry)@[target].tasks(),
                final(registry)@[target].tasks(),
                r,
                task@,
            )
        },
{
    let target = task.target_agent.clone();
    let ghost before = registry@;
    let r = match registry.get_mut(target.as_str()) {
        Some(wrapper) => wrapper.add_task(task),
        None => Err(Error::NotFound(target)),
    };
    proof {
        assert(registry@.dom() =~= before.dom());
    }
    r
}

} // verus!
