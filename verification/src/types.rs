//! The data that agents exchange and are configured with.

use std::collections::HashMap;
use vstd::prelude::*;
use crate::clock::unix_now;
use crate::lookup::{find_slot, keys_are_distinct, keys_of, lemma_slot_of, slot_of, value_of};
use crate::text::{copy_names, copy_opt_text, copy_pairs};

verus! {

/// One conversational stage of an agent.
///
/// `transitions` pairs an event name with the id of the state it leads to; the
/// first pair for an event counts. `validation` holds advisory patterns that
/// the engine never enforces.
#[derive(Debug, PartialEq)]
pub struct State {
    pub name: String,
    pub data: Option<String>,
    pub prompt: Option<String>,
    pub transitions: Option<Vec<(String, String)>>,
    pub validation: Option<Vec<String>>,
}

/// What a `State` holds, as mathematical values.
pub struct StateView {
    pub name: Seq<char>,
    pub data: Option<Seq<char>>,
    pub prompt: Option<Seq<char>>,
    pub transitions: Option<Seq<(Seq<char>, Seq<char>)>>,
    pub validation: Option<Seq<Seq<char>>>,
}

impl DeepView for State {
    type V = StateView;

    open spec fn deep_view(&self) -> StateView {
        StateView {
            name: self.name@,
            data: self.data.deep_view(),
            prompt: self.prompt.deep_view(),
            transitions: self.transitions.deep_view(),
            validation: self.validation.deep_view(),
        }
    }
}

impl View for State {
    type V = StateView;

    open spec fn view(&self) -> StateView {
        self.deep_view()
    }
}

impl Clone for State {
    fn clone(&self) -> (r: Self)
        ensures
            r@ == self@,
    {
        State {
            name: self.name.clone(),
            data: copy_opt_text(&self.data),
            prompt: copy_opt_text(&self.prompt),
            transitions: match &self.transitions {
                Some(t) => Some(copy_pairs(t)),
                None => None,
            },
            validation: match &self.validation {
                Some(v) => Some(copy_names(v)),
                None => None,
            },
        }
    }
}

impl StateView {
    /// The id of the state that `event` leads to from this state, if this
    /// state declares a transition for `event`.
    pub open spec fn target_of(self, event: Seq<char>) -> Option<Seq<char>> {
        match self.transitions {
            Some(t) => value_of(t, event),
            None => None,
        }
    }
}

impl State {
    /// A state with the given name and nothing else: no prompt, no
    /// transitions, no validation.
    pub fn from_str(s: &str) -> (r: State)
        ensures
            r@ == (StateView {
                name: s@,
                data: None,
                prompt: None,
                transitions: None,
                validation: None,
            }),
    {
        State { name: s.to_owned(), data: None, prompt: None, transitions: None, validation: None }
    }

    /// Looks up the transition for `event`.
    pub fn find_target(&self, event: &str) -> (r: Option<&String>)
        ensures
            r.deep_view() == self@.target_of(event@),
    {
        match &self.transitions {
            Some(t) => match find_slot(t, event) {
                Some(i) => Some(&t[i].1),
                None => None,
            },
            None => None,
        }
    }
}

/// A finite automaton: states by id, and the id of the initial state.
///
/// `states` pairs a state id with its state; the first pair for an id counts.
#[derive(Debug, PartialEq)]
pub struct StateMachine {
    pub states: Vec<(String, State)>,
    pub initial_state: String,
}

/// What a `StateMachine` holds, as mathematical values.
pub struct StateMachineView {
    pub states: Seq<(Seq<char>, StateView)>,
    pub initial_state: Seq<char>,
}

impl DeepView for StateMachine {
    type V = StateMachineView;

    open spec fn deep_view(&self) -> StateMachineView {
        StateMachineView {
            states: self.states.deep_view(),
            initial_state: self.initial_state@,
        }
    }
}

impl View for StateMachine {
    type V = StateMachineView;

    open spec fn view(&self) -> StateMachineView {
        self.deep_view()
    }
}

impl Clone for StateMachine {
    fn clone(&self) -> (r: Self)
        ensures
            r@ == self@,
    {
        let mut states: Vec<(String, State)> = Vec::new();
        let mut i: usize = 0;
        while i < self.states.len()
            invariant
                i <= self.states.len(),
                states.len() == i,
                forall|j: int|
                    0 <= j < i ==> states@[j].0@ == self.states@[j].0@ && states@[j].1@
                        == self.states@[j].1@,
            decreases self.states.len() - i,
        {
            states.push((self.states[i].0.clone(), self.states[i].1.clone()));
            i += 1;
        }
        assert(states.deep_view() =~= self.states.deep_view());
        StateMachine { states, initial_state: self.initial_state.clone() }
    }
}

impl StateMachineView {
    /// Whether the machine has a state with this id.
    pub open spec fn declares(self, id: Seq<char>) -> bool {
        slot_of(self.states, id) is Some
    }

    /// The state with this id, if the machine has one.
    pub open spec fn state_at(self, id: Seq<char>) -> Option<StateView> {
        value_of(self.states, id)
    }

    /// Where `event` leads from the state `from`: the declared target of the
    /// transition, if `from` is a state of the machine, has a transition for
    /// `event`, and the target is a state of the machine too.
    pub open spec fn successor(self, from: Seq<char>, event: Seq<char>) -> Option<Seq<char>> {
        match self.state_at(from) {
            Some(s) => match s.target_of(event) {
                Some(t) => if self.declares(t) {
                    Some(t)
                } else {
                    None
                },
                None => None,
            },
            None => None,
        }
    }

    /// No state id is listed twice, and no state lists an event twice; the
    /// initial state is a state of the machine, and so is the target of
    /// every transition of every listed state.
    pub open spec fn well_formed(self) -> bool {
        &&& keys_of(self.states).no_duplicates()
        &&& forall|i: int|
            0 <= i < self.states.len() && (#[trigger] self.states[i]).1.transitions is Some
                ==> keys_of(self.states[i].1.transitions->0).no_duplicates()
        &&& self.declares(self.initial_state)
        &&& forall|i: int, k: int|
            0 <= i < self.states.len() && self.states[i].1.transitions is Some && 0 <= k
                < self.states[i].1.transitions->0.len() ==> self.declares(
                #[trigger] self.states[i].1.transitions->0[k].1,
            )
    }
}

/// In a well-formed machine every declared transition can be taken: from a
/// state of the machine, an event that the state declares leads to the
/// declared target.
pub proof fn lemma_well_formed_moves(machine: StateMachineView, from: Seq<char>, event: Seq<char>)
    requires
        machine.well_formed(),
        machine.state_at(from) is Some,
        machine.state_at(from)->0.target_of(event) is Some,
    ensures
        machine.successor(from, event) == machine.state_at(from)->0.target_of(event),
{
    lemma_slot_of(machine.states, from);
    let i = slot_of(machine.states, from)->0;
    let transitions = machine.states[i].1.transitions->0;
    lemma_slot_of(transitions, event);
    let k = slot_of(transitions, event)->0;
    assert(machine.declares(machine.states[i].1.transitions->0[k].1));
}

impl StateMachine {
    /// Whether every transition of the listed states leads to a state of
    /// the machine.
    fn targets_are_declared(&self) -> (r: bool)
        ensures
            r == forall|i: int, k: int|
                0 <= i < self@.states.len() && self@.states[i].1.transitions is Some && 0 <= k
                    < self@.states[i].1.transitions->0.len() ==> self@.declares(
                    #[trigger] self@.states[i].1.transitions->0[k].1,
                ),
    {
        let mut i: usize = 0;
        while i < self.states.len()
            invariant
                i <= self.states.len(),
                forall|a: int, k: int|
                    0 <= a < i && self@.states[a].1.transitions is Some && 0 <= k
                        < self@.states[a].1.transitions->0.len() ==> self@.declares(
                        #[trigger] self@.states[a].1.transitions->0[k].1,
                    ),
            decreases self.states.len() - i,
        {
            match &self.states[i].1.transitions {
                Some(transitions) => {
                    assert(self@.states[i as int].1.transitions == Some(transitions.deep_view()));
                    let mut k: usize = 0;
                    while k < transitions.len()
                        invariant
                            k <= transitions.len(),
                            i < self.states.len(),
                            self@.states[i as int].1.transitions == Some(transitions.deep_view()),
                            forall|b: int|
                                0 <= b < k ==> self@.declares(
                                    #[trigger] transitions.deep_view()[b].1,
                                ),
                        decreases transitions.len() - k,
                    {
                        let target = transitions[k].1.as_str();
                        assert(transitions.deep_view()[k as int].1 == target@);
                        if self.find_state(target).is_none() {
                            assert(!self@.declares(
                                self@.states[i as int].1.transitions->0[k as int].1,
                            ));
                            return false;
                        }
                        k += 1;
                    }
                },
                None => {
                    assert(self@.states[i as int].1.transitions is None);
                },
            }
            i += 1;
        }
        true
    }

    /// Whether no state lists an event twice.
    fn events_are_distinct(&self) -> (r: bool)
        ensures
            r == forall|i: int|
                0 <= i < self@.states.len() && (#[trigger] self@.states[i]).1.transitions is Some
                    ==> keys_of(self@.states[i].1.transitions->0).no_duplicates(),
    {
        let mut i: usize = 0;
        while i < self.states.len()
            invariant
                i <= self.states.len(),
                forall|a: int|
                    0 <= a < i && (#[trigger] self@.states[a]).1.transitions is Some ==> keys_of(
                        self@.states[a].1.transitions->0,
                    ).no_duplicates(),
            decreases self.states.len() - i,
        {
            match &self.states[i].1.transitions {
                Some(transitions) => {
                    assert(self@.states[i as int].1.transitions == Some(transitions.deep_view()));
                    if !keys_are_distinct(transitions) {
                        return false;
                    }
                },
                None => {
                    assert(self@.states[i as int].1.transitions is None);
                },
            }
            i += 1;
        }
        true
    }

    /// Whether the machine is well-formed: no state id and no event of a
    /// state is listed twice, and the initial state and the target of every
    /// transition are states of the machine.
    pub fn is_well_formed(&self) -> (r: bool)
        ensures
            r == self@.well_formed(),
    {
        keys_are_distinct(&self.states) && self.events_are_distinct() && self.find_state(
            self.initial_state.as_str(),
        ).is_some() && self.targets_are_declared()
    }

    /// Looks up a state by id.
    pub fn find_state(&self, id: &str) -> (r: Option<&State>)
        ensures
            r.deep_view() == self@.state_at(id@),
            r is Some <==> self@.declares(id@),
    {
        match find_slot(&self.states, id) {
            Some(i) => Some(&self.states[i].1),
            None => None,
        }
    }
}


/// The schema of one tool parameter.
#[derive(Debug, PartialEq)]
pub struct ToolParameter {
    pub param_type: String,
    pub description: Option<String>,
    pub enum_values: Option<Vec<String>>,
    pub pattern: Option<String>,
    pub properties: Option<Vec<(String, ToolParameter)>>,
    pub required: Option<Vec<String>>,
    pub additional_properties: Option<bool>,
    pub items: Option<Box<ToolParameter>>,
}

/// A tool that an agent declares: its name, what it does, and its parameters
/// by name.
#[derive(Debug, PartialEq)]
pub struct Tool {
    pub name: String,
    pub description: String,
    pub parameters: HashMap<String, String>,
}

/// What a `Tool` holds, as mathematical values.
pub struct ToolView {
    pub name: Seq<char>,
    pub description: Seq<char>,
    pub parameters: Map<String, String>,
}

impl DeepView for Tool {
    type V = ToolView;

    open spec fn deep_view(&self) -> ToolView {
        ToolView { name: self.name@, description: self.description@, parameters: self.parameters@ }
    }
}

impl View for Tool {
    type V = ToolView;

    open spec fn view(&self) -> ToolView {
        self.deep_view()
    }
}

impl Clone for Tool {
    fn clone(&self) -> (r: Self)
        ensures
            r@ == self@,
    {
        Tool {
            name: self.name.clone(),
            description: self.description.clone(),
            parameters: self.parameters.clone(),
        }
    }
}

/// A copy of a list of tools.
pub fn copy_tools(v: &Vec<Tool>) -> (r: Vec<Tool>)
    ensures
        r.deep_view() == v.deep_view(),
{
    let mut out: Vec<Tool> = Vec::new();
    let mut i: usize = 0;
    while i < v.len()
        invariant
            i <= v.len(),
            out.len() == i,
            forall|j: int| 0 <= j < i ==> out@[j]@ == v@[j]@,
        decreases v.len() - i,
    {
        out.push(v[i].clone());
        i += 1;
    }
    assert(out.deep_view() =~= v.deep_view());
    out
}

/// How an agent is set up: its unique name, what it tells the outside about
/// itself, its instructions, its tools, the agents it may hand a
/// conversation to, and optionally a personality and a state machine.
#[derive(Debug, PartialEq)]
pub struct AgentConfig {
    pub name: String,
    pub public_description: String,
    pub instructions: String,
    pub tools: Vec<Tool>,
    pub downstream_agents: Vec<String>,
    pub personality: Option<String>,
    pub state_machine: Option<StateMachine>,
}

/// What an `AgentConfig` holds, as mathematical values.
pub struct AgentConfigView {
    pub name: Seq<char>,
    pub public_description: Seq<char>,
    pub instructions: Seq<char>,
    pub tools: Seq<ToolView>,
    pub downstream_agents: Seq<Seq<char>>,
    pub personality: Option<Seq<char>>,
    pub state_machine: Option<StateMachineView>,
}

impl DeepView for AgentConfig {
    type V = AgentConfigView;

    open spec fn deep_view(&self) -> AgentConfigView {
        AgentConfigView {
            name: self.name@,
            public_description: self.public_description@,
            instructions: self.instructions@,
            tools: self.tools.deep_view(),
            downstream_agents: self.downstream_agents.deep_view(),
            personality: self.personality.deep_view(),
            state_machine: self.state_machine.deep_view(),
        }
    }
}

impl View for AgentConfig {
    type V = AgentConfigView;

    open spec fn view(&self) -> AgentConfigView {
        self.deep_view()
    }
}

impl Clone for AgentConfig {
    fn clone(&self) -> (r: Self)
        ensures
            r@ == self@,
    {
        AgentConfig {
            name: self.name.clone(),
            public_description: self.public_description.clone(),
            instructions: self.instructions.clone(),
            tools: copy_tools(&self.tools),
            downstream_agents: copy_names(&self.downstream_agents),
            personality: copy_opt_text(&self.personality),
            state_machine: match &self.state_machine {
                Some(m) => Some(m.clone()),
                None => None,
            },
        }
    }
}

impl AgentConfigView {
    /// Whether `target` is on the list of downstream agents.
    pub open spec fn allows(self, target: Seq<char>) -> bool {
        self.downstream_agents.contains(target)
    }
}

/// A tool together with the arguments of one call and, once made, its result.
#[derive(Debug, Clone, PartialEq)]
pub struct ToolCall {
    pub tool: Tool,
    pub parameters: HashMap<String, String>,
    pub result: Option<String>,
}

/// An advisory check on input: a pattern and what to say when it fails.
#[derive(Debug, Clone, PartialEq)]
pub struct ValidationRule {
    pub pattern: String,
    pub error_message: String,
}

/// A JSON value of any shape. Nothing is known of what is inside one.
#[verifier::external_type_specification]
#[verifier::external_body]
pub struct ExJsonValue(serde_json::Value);

/// One entry of a conversation's transcript, as a front end shows it.
#[derive(Debug, Clone, PartialEq)]
pub struct TranscriptItem {
    pub item_id: String,
    pub item_type: String,
    pub role: Option<String>,
    pub title: Option<String>,
    pub data: Option<HashMap<String, serde_json::Value>>,
    pub expanded: bool,
    pub timestamp: String,
    pub created_at_ms: i64,
    pub status: String,
    pub is_hidden: bool,
}

/// A marker for what is not built yet.
pub struct Unimplemented;

/// What an agent shows of itself in a listing.
#[derive(Debug, Clone, PartialEq)]
pub struct AgentInfo {
    pub name: String,
    pub description: String,
    pub instructions: String,
    pub tools: Vec<Tool>,
    pub downstream_agents: Vec<String>,
}


/// What travels with a message: who sent it and in which state, and whatever
/// the sender attached.
#[derive(Debug, PartialEq)]
pub struct MessageMetadata {
    pub agent: String,
    pub state: Option<String>,
    pub personality_traits: Option<Vec<String>>,
    pub transfer_target: Option<String>,
    pub context: Option<HashMap<String, String>>,
    pub tool_results: Option<HashMap<String, String>>,
}

/// What a `MessageMetadata` holds, as mathematical values.
pub struct MessageMetadataView {
    pub agent: Seq<char>,
    pub state: Option<Seq<char>>,
    pub personality_traits: Option<Seq<Seq<char>>>,
    pub transfer_target: Option<Seq<char>>,
    pub context: Option<Map<String, String>>,
    pub tool_results: Option<Map<String, String>>,
}

impl DeepView for MessageMetadata {
    type V = MessageMetadataView;

    open spec fn deep_view(&self) -> MessageMetadataView {
        MessageMetadataView {
            agent: self.agent@,
            state: self.state.deep_view(),
            personality_traits: self.personality_traits.deep_view(),
            transfer_target: self.transfer_target.deep_view(),
            context: match self.context {
                Some(c) => Some(c@),
                None => None,
            },
            tool_results: match self.tool_results {
                Some(c) => Some(c@),
                None => None,
            },
        }
    }
}

impl View for MessageMetadata {
    type V = MessageMetadataView;

    open spec fn view(&self) -> MessageMetadataView {
        self.deep_view()
    }
}

impl Clone for MessageMetadata {
    fn clone(&self) -> (r: Self)
        ensures
            r@ == self@,
    {
        MessageMetadata {
            agent: self.agent.clone(),
            state: copy_opt_text(&self.state),
            personality_traits: match &self.personality_traits {
                Some(t) => Some(copy_names(t)),
                None => None,
            },
            transfer_target: copy_opt_text(&self.transfer_target),
            context: match &self.context {
                Some(c) => Some(c.clone()),
                None => None,
            },
            tool_results: match &self.tool_results {
                Some(c) => Some(c.clone()),
                None => None,
            },
        }
    }
}

impl MessageMetadata {
    /// Metadata that names the sending agent and nothing else.
    pub fn new(agent: String) -> (r: Self)
        ensures
            r@ == (MessageMetadataView {
                agent: agent@,
                state: None,
                personality_traits: None,
                transfer_target: None,
                context: None,
                tool_results: None,
            }),
    {
        Self {
            agent,
            state: None,
            personality_traits: None,
            transfer_target: None,
            context: None,
            tool_results: None,
        }
    }

    /// Sets the state; every other field stays.
    pub fn with_state(self, state: String) -> (r: Self)
        ensures
            r@ == (MessageMetadataView { state: Some(state@), ..self@ }),
    {
        let mut m = self;
        m.state = Some(state);
        m
    }

    /// Sets the personality traits; every other field stays.
    pub fn with_personality(self, traits: Vec<String>) -> (r: Self)
        ensures
            r@ == (MessageMetadataView {
                personality_traits: Some(traits.deep_view()),
                ..self@
            }),
    {
        let mut m = self;
        m.personality_traits = Some(traits);
        m
    }

    /// Sets the transfer target; every other field stays.
    pub fn with_transfer_target(self, target: String) -> (r: Self)
        ensures
            r@ == (MessageMetadataView { transfer_target: Some(target@), ..self@ }),
    {
        let mut m = self;
        m.transfer_target = Some(target);
        m
    }

    /// Sets the context; every other field stays.
    pub fn with_context(self, context: HashMap<String, String>) -> (r: Self)
        ensures
            r@ == (MessageMetadataView { context: Some(context@), ..self@ }),
    {
        let mut m = self;
        m.context = Some(context);
        m
    }

    /// Sets the tool results; every other field stays.
    pub fn with_tool_results(self, results: HashMap<String, String>) -> (r: Self)
        ensures
            r@ == (MessageMetadataView { tool_results: Some(results@), ..self@ }),
    {
        let mut m = self;
        m.tool_results = Some(results);
        m
    }
}

/// One turn of a conversation.
#[derive(Debug, PartialEq)]
pub struct Message {
    pub content: String,
    pub metadata: Option<MessageMetadata>,
    pub role: Option<String>,
    pub timestamp: Option<i64>,
}

/// What a `Message` holds, as mathematical values.
pub struct MessageView {
    pub content: Seq<char>,
    pub metadata: Option<MessageMetadataView>,
    pub role: Option<Seq<char>>,
    pub timestamp: Option<i64>,
}

impl DeepView for Message {
    type V = MessageView;

    open spec fn deep_view(&self) -> MessageView {
        MessageView {
            content: self.content@,
            metadata: self.metadata.deep_view(),
            role: self.role.deep_view(),
            timestamp: self.timestamp,
        }
    }
}

impl View for Message {
    type V = MessageView;

    open spec fn view(&self) -> MessageView {
        self.deep_view()
    }
}

impl Clone for Message {
    fn clone(&self) -> (r: Self)
        ensures
            r@ == self@,
    {
        Message {
            content: self.content.clone(),
            metadata: match &self.metadata {
                Some(m) => Some(m.clone()),
                None => None,
            },
            role: copy_opt_text(&self.role),
            timestamp: self.timestamp,
        }
    }
}

impl Message {
    /// A message from the assistant, sent at `timestamp`, without metadata.
    pub fn at(content: String, timestamp: i64) -> (r: Self)
        ensures
            r@ == (MessageView {
                content: content@,
                metadata: None,
                role: Some("assistant"@),
                timestamp: Some(timestamp),
            }),
    {
        Self {
            content,
            metadata: None,
            role: Some("assistant".to_owned()),
            timestamp: Some(timestamp),
        }
    }

    /// A message from the assistant, stamped with the time of the call,
    /// without metadata.
    ///
    /// The time is read from the system clock: on a machine whose clock
    /// stands before 1970 the call does not return.
    pub fn new(content: String) -> (r: Self)
        ensures
            r@.content == content@,
            r@.metadata is None,
            r@.role == Some("assistant"@),
            r@.timestamp is Some,
    {
        Self::at(content, unix_now())
    }

    /// Sets the metadata; every other field stays.
    pub fn with_metadata(self, metadata: MessageMetadata) -> (r: Self)
        ensures
            r@ == (MessageView { metadata: Some(metadata@), ..self@ }),
    {
        let mut m = self;
        m.metadata = Some(metadata);
        m
    }

    /// Sets the role; every other field stays.
    pub fn with_role(self, role: Option<String>) -> (r: Self)
        ensures
            r@ == (MessageView { role: role.deep_view(), ..self@ }),
    {
        let mut m = self;
        m.role = role;
        m
    }

    /// Sets the timestamp; every other field stays.
    pub fn with_timestamp(self, timestamp: Option<i64>) -> (r: Self)
        ensures
            r@ == (MessageView { timestamp: timestamp, ..self@ }),
    {
        let mut m = self;
        m.timestamp = timestamp;
        m
    }

    /// The message as text: its content.
    pub fn to_text(&self) -> (r: String)
        ensures
            r@ == self@.content,
    {
        self.content.clone()
    }
}

} // verus!
