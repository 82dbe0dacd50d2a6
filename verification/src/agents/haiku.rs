//! The haiku agent: turns a topic into a verse with the help of a text
//! service.

use std::collections::HashMap;
use vstd::prelude::*;
use vstd::string::StringExecFns;
use crate::agent::Agent;
use crate::ai::{ask, may_say, single_turn, AiProvider, ChatRequest, NoAiClient};
use crate::clock::unix_now;
use crate::error::Error;
use crate::lookup::{lemma_slot_is, lemma_slot_none, lemma_slot_of};
use crate::state::{cursor_after, AgentStateManager};
use crate::text::{contains_name, debug_params};
use crate::types::{
    AgentConfig, AgentConfigView, Message, MessageMetadata, MessageMetadataView, MessageView,
    State, StateMachine, StateMachineView, StateView, Tool, ToolView,
};

verus! {

pub const AWAITING_PROMPT: &'static str = "🌸 What shall we crystallize into algorithmic verse today?";

pub const COMPLETE_PROMPT: &'static str = "✨ Shall we compute another poetic sequence?";

pub const FAREWELL_PROMPT: &'static str = "🌟 May your algorithms flow like cherry blossoms in the digital wind...";

pub const ANSWER_PATTERN: &'static str = "^(yes|no)$";

pub const ANSWER_HINT: &'static str = "Please respond with 'yes' to continue our poetic computations, or 'no' to conclude.";

/// The instructions that frame a request for a haiku.
pub const HAIKU_PROMPT: &'static str = "You are a poetic AI that creates haikus. A haiku is a three-line poem with 5 syllables in the first line, 7 in the second, and 5 in the third. Create a haiku that blends nature imagery with technical concepts.";

/// The haiku agent's conversation: a topic received in `awaiting_topic`
/// leads to `complete`; from there `yes` leads back and `no` to `goodbye`,
/// which is final.
pub open spec fn haiku_machine() -> StateMachineView {
    StateMachineView {
        states: seq![
            (
                "awaiting_topic"@,
                StateView {
                    name: "awaiting_topic"@,
                    data: None,
                    prompt: Some(AWAITING_PROMPT@),
                    transitions: Some(seq![("topic_received"@, "complete"@)]),
                    validation: None,
                },
            ),
            (
                "complete"@,
                StateView {
                    name: "complete"@,
                    data: None,
                    prompt: Some(COMPLETE_PROMPT@),
                    transitions: Some(seq![("yes"@, "awaiting_topic"@), ("no"@, "goodbye"@)]),
                    validation: Some(seq![ANSWER_PATTERN@, ANSWER_HINT@]),
                },
            ),
            (
                "goodbye"@,
                StateView {
                    name: "goodbye"@,
                    data: None,
                    prompt: Some(FAREWELL_PROMPT@),
                    transitions: None,
                    validation: None,
                },
            ),
        ],
        initial_state: "awaiting_topic"@,
    }
}

/// Where the haiku agent's machine leads, written out: which event moves it
/// from which state to which, and that nothing else moves it.
pub open spec fn haiku_successor(from: Seq<char>, event: Seq<char>) -> Option<Seq<char>> {
    if from == "awaiting_topic"@ && event == "topic_received"@ {
        Some("complete"@)
    } else if from == "complete"@ && event == "yes"@ {
        Some("awaiting_topic"@)
    } else if from == "complete"@ && event == "no"@ {
        Some("goodbye"@)
    } else {
        None
    }
}

/// The haiku agent's machine is well-formed, and it moves exactly as
/// `haiku_successor` says.
pub proof fn lemma_haiku_machine(from: Seq<char>, event: Seq<char>)
    ensures
        haiku_machine().well_formed(),
        haiku_machine().successor(from, event) == haiku_successor(from, event),
{
    reveal_strlit("awaiting_topic");
    reveal_strlit("complete");
    reveal_strlit("goodbye");
    reveal_strlit("yes");
    reveal_strlit("no");
    assert("awaiting_topic"@.len() == 14);
    assert("complete"@.len() == 8);
    assert("goodbye"@.len() == 7);
    assert("yes"@.len() == 3);
    assert("no"@.len() == 2);
    let m = haiku_machine();
    let states = m.states;
    lemma_slot_is(states, "awaiting_topic"@, 0);
    lemma_slot_is(states, "complete"@, 1);
    lemma_slot_is(states, "goodbye"@, 2);
    let t0 = states[0].1.transitions->0;
    let t1 = states[1].1.transitions->0;
    assert(t0.len() == 1 && t1.len() == 2);
    assert(states[2].1.transitions is None);
    assert(m.well_formed()) by {
        assert forall|i: int, k: int|
            0 <= i < states.len() && states[i].1.transitions is Some && 0 <= k
                < states[i].1.transitions->0.len() implies m.declares(
            #[trigger] states[i].1.transitions->0[k].1,
        ) by {
            if i == 0 {
                assert(k == 0);
            } else if i == 1 {
                assert(k == 0 || k == 1);
            }
        }
    }
    lemma_slot_of(states, from);
    if from == "awaiting_topic"@ {
        lemma_slot_of(t0, event);
        if event == "topic_received"@ {
            lemma_slot_is(t0, event, 0);
        } else {
            lemma_slot_none(t0, event);
        }
    } else if from == "complete"@ {
        lemma_slot_of(t1, event);
        if event == "yes"@ {
            lemma_slot_is(t1, event, 0);
        } else if event == "no"@ {
            lemma_slot_is(t1, event, 1);
        } else {
            lemma_slot_none(t1, event);
        }
    } else if from == "goodbye"@ {
    } else {
        lemma_slot_none(states, from);
    }
}

/// Builds the haiku agent's machine.
fn build_machine() -> (r: StateMachine)
    ensures
        r@ == haiku_machine(),
{
    let mut from_awaiting: Vec<(String, String)> = Vec::new();
    from_awaiting.push(("topic_received".to_owned(), "complete".to_owned()));
    assert(from_awaiting.deep_view() =~= seq![("topic_received"@, "complete"@)]);
    let mut from_complete: Vec<(String, String)> = Vec::new();
    from_complete.push(("yes".to_owned(), "awaiting_topic".to_owned()));
    from_complete.push(("no".to_owned(), "goodbye".to_owned()));
    assert(from_complete.deep_view() =~= seq![("yes"@, "awaiting_topic"@), ("no"@, "goodbye"@)]);
    let mut validation: Vec<String> = Vec::new();
    validation.push(ANSWER_PATTERN.to_owned());
    validation.push(ANSWER_HINT.to_owned());
    assert(validation.deep_view() =~= seq![ANSWER_PATTERN@, ANSWER_HINT@]);
    let mut states: Vec<(String, State)> = Vec::new();
    states.push(
        (
            "awaiting_topic".to_owned(),
            State {
                name: "awaiting_topic".to_owned(),
                data: None,
                prompt: Some(AWAITING_PROMPT.to_owned()),
                transitions: Some(from_awaiting),
                validation: None,
            },
        ),
    );
    states.push(
        (
            "complete".to_owned(),
            State {
                name: "complete".to_owned(),
                data: None,
                prompt: Some(COMPLETE_PROMPT.to_owned()),
                transitions: Some(from_complete),
                validation: Some(validation),
            },
        ),
    );
    states.push(
        (
            "goodbye".to_owned(),
            State {
                name: "goodbye".to_owned(),
                data: None,
                prompt: Some(FAREWELL_PROMPT.to_owned()),
                transitions: None,
                validation: None,
            },
        ),
    );
    assert(states.deep_view() =~= haiku_machine().states);
    StateMachine { states, initial_state: "awaiting_topic".to_owned() }
}

/// The traits that the haiku agent signs its messages with.
pub open spec fn haiku_traits() -> Seq<Seq<char>> {
    seq![
        "poetic"@,
        "algorithmic"@,
        "zen_like"@,
        "pattern_seeking"@,
        "mad_tinker_inspired"@,
    ]
}

/// The message that the haiku agent sends: from the assistant, at `now`,
/// naming the agent, its state (`awaiting_topic` where it has none) and its
/// traits.
pub open spec fn haiku_message(
    name: Seq<char>,
    content: Seq<char>,
    state: Option<Seq<char>>,
    now: i64,
) -> MessageView {
    MessageView {
        content,
        metadata: Some(
            MessageMetadataView {
                agent: name,
                state: Some(
                    match state {
                        Some(s) => s,
                        None => "awaiting_topic"@,
                    },
                ),
                personality_traits: Some(haiku_traits()),
                transfer_target: None,
                context: None,
                tool_results: None,
            },
        ),
        role: Some("assistant"@),
        timestamp: Some(now),
    }
}

/// What the user says when a haiku is asked for.
pub open spec fn haiku_content(topic: Seq<char>) -> Seq<char> {
    "Create a haiku about: "@ + topic
}

/// The request for a haiku about `topic`.
pub fn haiku_request(topic: &str) -> (r: ChatRequest)
    ensures
        r@ == single_turn(HAIKU_PROMPT@, haiku_content(topic@)),
{
    ChatRequest::from_user(
        HAIKU_PROMPT.to_owned(),
        "Create a haiku about: ".to_owned().concat(topic),
    )
}

/// Where the haiku agent's cursor stands after a reply of the text service:
/// a verse counts as the event `topic_received`; a failure moves nothing.
pub open spec fn cursor_after_reply(
    machine: Option<StateMachineView>,
    current: Option<Seq<char>>,
    answered: bool,
) -> Option<Seq<char>> {
    if answered {
        cursor_after(machine, current, "topic_received"@)
    } else {
        current
    }
}

/// Whether `reply` is what the text service `client` may say when it is
/// asked for a haiku about `topic`: an outcome of its `chat`, given the
/// haiku instructions and the one request that `haiku_request` makes.
pub open spec fn may_reply<C: AiProvider>(
    client: C,
    topic: Seq<char>,
    reply: Result<String, String>,
) -> bool {
    may_say(client, single_turn(HAIKU_PROMPT@, haiku_content(topic)), reply)
}

/// The report of a tool call: the tool's name, then its parameters as they
/// print.
pub open spec fn tool_report(name: Seq<char>, printed: Seq<char>) -> Seq<char> {
    "Called tool "@ + name + " with params "@ + printed
}

/// The haiku agent.
pub struct HaikuAgent<C: AiProvider> {
    config: AgentConfig,
    state_manager: AgentStateManager,
    ai_client: C,
}

impl HaikuAgent<NoAiClient> {
    /// A haiku agent in its `awaiting_topic` state, with no text service yet.
    pub fn new(config: AgentConfig) -> (r: Self)
        ensures
            r.config() == config@,
            r.machine() == Some(haiku_machine()),
            r.current() == Some("awaiting_topic"@),
            r.client().is_unreachable(),
    {
        Self {
            config,
            state_manager: AgentStateManager::new(Some(build_machine())),
            ai_client: NoAiClient,
        }
    }
}

impl<C: AiProvider> HaikuAgent<C> {
    /// The agent's configuration.
    pub closed spec fn config(&self) -> AgentConfigView {
        self.config@
    }

    /// The machine that the agent runs.
    pub closed spec fn machine(&self) -> Option<StateMachineView> {
        self.state_manager.machine()
    }

    /// The id of the state that the agent is in.
    pub closed spec fn current(&self) -> Option<Seq<char>> {
        self.state_manager.current()
    }

    /// The text service that the agent asks.
    pub closed spec fn client(&self) -> C {
        self.ai_client
    }

    /// The same agent with another text service.
    pub fn with_ai_client<T: AiProvider>(self, client: T) -> (r: HaikuAgent<T>)
        ensures
            r.config() == self.config(),
            r.machine() == self.machine(),
            r.current() == self.current(),
            r.client() == client,
    {
        HaikuAgent { config: self.config, state_manager: self.state_manager, ai_client: client }
    }

    /// Whether the agent, asked about `topic`, may answer `r` and be left as
    /// `after`, where the text service said `reply` and the answer is sent
    /// at `now`: a verse moves the agent on by `topic_received` and is the
    /// content of the answer; a failure comes back as an
    /// `ExternalServiceError` and moves nothing.
    pub open spec fn answers_with(
        &self,
        topic: Seq<char>,
        after: Self,
        r: Result<Message, Error>,
        reply: Result<String, String>,
        now: i64,
    ) -> bool {
        &&& may_reply(self.client(), topic, reply)
        &&& after.config() == self.config()
        &&& after.machine() == self.machine()
        &&& after.client() == self.client()
        &&& after.current() == cursor_after_reply(self.machine(), self.current(), reply is Ok)
        &&& match reply {
            Ok(verse) => r matches Ok(m) && m@ == haiku_message(
                self.config().name,
                verse@,
                after.current(),
                now,
            ),
            Err(why) => r matches Err(Error::ExternalServiceError(w)) && w@ == why@,
        }
    }

    /// Asks the text service for a haiku about `topic`: the result is what
    /// the service says to the request that `haiku_request` makes.
    pub fn generate_haiku(&self, topic: &str) -> (r: Result<String, String>)
        ensures
            may_reply(self.client(), topic@, r),
            self.client().is_unreachable() ==> r is Err,
    {
        ask(&self.ai_client, haiku_request(topic))
    }

    /// The agent's message with this content, as sent at `now`.
    pub fn response_at(&self, content: String, now: i64) -> (r: Message)
        ensures
            r@ == haiku_message(self.config().name, content@, self.current(), now),
    {
        let state = match self.state_manager.get_current_state_name() {
            Some(s) => s.to_owned(),
            None => "awaiting_topic".to_owned(),
        };
        let mut traits: Vec<String> = Vec::new();
        traits.push("poetic".to_owned());
        traits.push("algorithmic".to_owned());
        traits.push("zen_like".to_owned());
        traits.push("pattern_seeking".to_owned());
        traits.push("mad_tinker_inspired".to_owned());
        assert(traits.deep_view() =~= haiku_traits());
        let metadata = MessageMetadata::new(self.config.name.clone()).with_state(
            state,
        ).with_personality(traits);
        Message::at(content, now).with_metadata(metadata)
    }

    /// The agent's message with this content, stamped with the time of the
    /// call. The time is read from the system clock, as `Message::new`
    /// reads it.
    pub fn create_response(&self, content: String) -> (r: Message)
        ensures
            exists|now: i64|
                r@ == haiku_message(self.config().name, content@, self.current(), now),
    {
        self.response_at(content, unix_now())
    }

    /// Deals with what the text service said: a verse moves the agent on by
    /// `topic_received` and is sent as the answer; a failure comes back as
    /// an `ExternalServiceError` and moves nothing.
    pub fn respond(&mut self, reply: Result<String, String>, now: i64) -> (r: Result<
        Message,
        Error,
    >)
        ensures
            final(self).config() == old(self).config(),
            final(self).machine() == old(self).machine(),
            final(self).client() == old(self).client(),
            final(self).current() == cursor_after_reply(
                old(self).machine(),
                old(self).current(),
                reply is Ok,
            ),
            match reply {
                Ok(verse) => r matches Ok(m) && m@ == haiku_message(
                    old(self).config().name,
                    verse@,
                    final(self).current(),
                    now,
                ),
                Err(why) => r matches Err(Error::ExternalServiceError(w)) && w@ == why@,
            },
    {
        match reply {
            Ok(verse) => {
                self.state_manager.transition("topic_received");
                Ok(self.response_at(verse, now))
            },
            Err(why) => Err(Error::ExternalServiceError(why)),
        }
    }
}

impl<C: AiProvider> Agent for HaikuAgent<C> {
    open spec fn config_view(&self) -> AgentConfigView {
        self.config()
    }

    /// The state that the agent's cursor points at.
    open spec fn state_view(&self) -> Option<StateView> {
        match (self.machine(), self.current()) {
            (Some(m), Some(c)) => m.state_at(c),
            _ => None,
        }
    }

    /// The agent answers with what the text service says about the
    /// message's content, as `answers_with` has it. With the service out of
    /// reach the agent fails.
    open spec fn answers(
        &self,
        message: MessageView,
        after: Self,
        r: Result<Message, Error>,
    ) -> bool {
        &&& exists|reply: Result<String, String>, now: i64| #[trigger]
            self.answers_with(message.content, after, r, reply, now)
        &&& self.client().is_unreachable() ==> r is Err
    }

    /// A handover to an agent on the downstream list succeeds and passes the
    /// message on as it is; any other target is refused. Either way the
    /// agent is left as it was.
    open spec fn hands_over(
        &self,
        target: Seq<char>,
        message: MessageView,
        after: Self,
        r: Result<Message, Error>,
    ) -> bool {
        &&& after == *self
        &&& if self.config_view().allows(target) {
            r matches Ok(m) && m@ == message
        } else {
            r matches Err(Error::InvalidTransferTarget(t)) && t@ == target
        }
    }

    /// Every call is reported, by the tool's name and the parameters as
    /// they print; the agent is left as it was.
    open spec fn tool_gives(
        &self,
        tool: ToolView,
        params: Map<String, String>,
        after: Self,
        r: Result<String, Error>,
    ) -> bool {
        &&& after == *self
        &&& r matches Ok(m) && exists|printed: Seq<char>|
            m@ == #[trigger] tool_report(tool.name, printed)
    }

    /// Asks the text service for a haiku about the message's content and
    /// answers with it, as `answers` says.
    fn process_message(&mut self, message: Message) -> (r: Result<Message, Error>) {
        let reply = self.generate_haiku(message.content.as_str());
        let ghost said = reply;
        let now = unix_now();
        let r = self.respond(reply, now);
        proof {
            assert(old(self).answers_with(message@.content, *self, r, said, now));
        }
        r
    }

    /// Passes the message on to a downstream agent as it is.
    fn transfer_to(&mut self, target_agent: String, message: Message) -> (r: Result<
        Message,
        Error,
    >)
        ensures
            *final(self) == *old(self),
            old(self).config().allows(target_agent@) ==> r == Ok::<
                Message,
                Error,
            >(message),
    {
        if !contains_name(&self.config.downstream_agents, target_agent.as_str()) {
            Err(Error::InvalidTransferTarget(target_agent))
        } else {
            Ok(message)
        }
    }

    /// Reports the call: the tool's name, then the parameters as they print.
    fn call_tool(&mut self, tool: &Tool, params: HashMap<String, String>) -> (r: Result<
        String,
        Error,
    >) {
        let printed = debug_params(&params);
        let m = "Called tool ".to_owned().concat(tool.name.as_str()).concat(
            " with params ",
        ).concat(printed.as_str());
        assert(m@ == tool_report(tool@.name, printed@));
        Ok(m)
    }

    fn get_current_state(&self) -> (r: Option<State>) {
        match self.state_manager.get_current_state() {
            Some(s) => Some(s.clone()),
            None => None,
        }
    }

    fn get_config(&self) -> (r: AgentConfig) {
        self.config.clone()
    }
}

} // verus!
