//! What every agent can do.

use std::collections::HashMap;
use vstd::prelude::*;
use crate::error::Error;
use crate::types::{
    AgentConfig, AgentConfigView, Message, MessageView, State, StateView, Tool, ToolView,
};

verus! {

/// The capability interface of an agent.
///
/// An agent answers messages, hands a conversation over to one of the agents
/// on its downstream list, runs its tools, and shows its configuration and
/// its current conversational state.
pub trait Agent: Sized {
    /// The agent's configuration. An agent says what it is; one that does
    /// not leaves it open.
    open spec fn config_view(&self) -> AgentConfigView {
        arbitrary()
    }

    /// The state that the agent shows: what its cursor points at, if it has
    /// one. An agent says what it is; one that does not leaves it open.
    open spec fn state_view(&self) -> Option<StateView> {
        arbitrary()
    }

    /// Whether the agent, given `message`, may answer with `r` and be left
    /// as `after`. An agent says what its answers are; one that does not
    /// leaves it open.
    open spec fn answers(
        &self,
        message: MessageView,
        after: Self,
        r: Result<Message, Error>,
    ) -> bool {
        true
    }

    /// Whether the agent, asked to hand `message` over to `target`, may
    /// give `r` and be left as `after`. An agent says what its handovers
    /// give; one that does not leaves it open.
    open spec fn hands_over(
        &self,
        target: Seq<char>,
        message: MessageView,
        after: Self,
        r: Result<Message, Error>,
    ) -> bool {
        true
    }

    /// Whether the agent, asked to run `tool` with `params`, may give `r`
    /// and be left as `after`. An agent says what its tools give; one that
    /// does not leaves it open.
    open spec fn tool_gives(
        &self,
        tool: ToolView,
        params: Map<String, String>,
        after: Self,
        r: Result<String, Error>,
    ) -> bool {
        true
    }

    /// Answers a message. The answer may depend on, and change, the agent's
    /// conversational state; the configuration stays. What the answer is, is
    /// for the agent to say, in `answers`.
    fn process_message(&mut self, message: Message) -> (r: Result<Message, Error>)
        ensures
            final(self).config_view() == old(self).config_view(),
            old(self).answers(message@, *final(self), r),
    ;

    /// Hands the conversation over to `target_agent`.
    ///
    /// A target that is not on the downstream list is refused with
    /// `InvalidTransferTarget`, and the agent is then left exactly as it was.
    /// What comes of an allowed handover is for the agent to say, in
    /// `hands_over`.
    fn transfer_to(&mut self, target_agent: String, message: Message) -> (r: Result<
        Message,
        Error,
    >)
        ensures
            final(self).config_view() == old(self).config_view(),
            old(self).hands_over(target_agent@, message@, *final(self), r),
            !old(self).config_view().allows(target_agent@) ==> {
                &&& r matches Err(Error::InvalidTransferTarget(t)) && t@ == target_agent@
                &&& *final(self) == *old(self)
            },
            old(self).config_view().allows(target_agent@) ==> !(r matches Err(
                Error::InvalidTransferTarget(_),
            )),
    ;

    /// Runs one of the agent's tools. What comes of it is for the agent to
    /// say, in `tool_gives`.
    fn call_tool(&mut self, tool: &Tool, params: HashMap<String, String>) -> (r: Result<
        String,
        Error,
    >)
        ensures
            final(self).config_view() == old(self).config_view(),
            old(self).tool_gives(tool@, params@, *final(self), r),
    ;

    /// A snapshot of the current conversational state, if the agent has one.
    fn get_current_state(&self) -> (r: Option<State>)
        ensures
            r.deep_view() == self.state_view(),
    ;

    /// A copy of the agent's configuration.
    fn get_config(&self) -> (r: AgentConfig)
        ensures
            r@ == self.config_view(),
    ;
}

} // verus!
