//! The greeter: welcomes a user and routes them on.

use std::collections::HashMap;
use vstd::prelude::*;
use crate::agent::Agent;
use crate::clock::unix_now;
use crate::error::Error;
use crate::lookup::{lemma_slot_is, lemma_slot_none, lemma_slot_of};
use crate::state::{cursor_after, AgentStateManager};
use crate::text::{contains_name, lowercase, lowercase_of, same_text};
use crate::types::{
    AgentConfig, AgentConfigView, Message, MessageMetadata, MessageMetadataView, MessageView,
    State, StateMachine, StateMachineView, StateView, Tool, ToolView,
};

verus! {

/// The prompt of the `greeting` state.
pub const GREETING_PROMPT: &'static str = "Welcome to the laboratory! Don't mind the sparks, they're mostly decorative.";

/// The prompt of the `help` state.
pub const HELP_PROMPT: &'static str = "Questions! Excellent! That's how all the best mad science begins.";

/// The prompt of the `transfer_to_haiku` state, and what is said on the way there.
pub const HANDOVER_PROMPT: &'static str = "Ah, this looks like a job for our specialized haiku tinkerer! Let me transfer you to the right department...";

/// The prompt of the `goodbye` state, and what is said on the way there.
pub const GOODBYE_PROMPT: &'static str = "Farewell, fellow tinkerer! May your code compile and your tests pass... mostly!";

/// What is said to a call for help.
pub const TOUR_TEXT: &'static str = "Let me illuminate the path through our wonderful chaos! We've got tools and agents for all sorts of fascinating experiments:\n- Project Initialization Expert: For creating new experiments and research spaces\n- Git Operations Specialist: For managing and documenting our mad science\n- Haiku Engineering Department: For when you need your chaos in 5-7-5 format";

/// What is said in `greeting` to anything else.
pub const INVITATION_TEXT: &'static str = "Step right in! The mad science is perfectly calibrated today... probably. Would you like me to summon our haiku specialist, or can I help you navigate our laboratory of wonders? (Try: 'help', 'haiku', or 'goodbye')";

/// What is said in `help` to anything else.
pub const DEPARTMENTS_TEXT: &'static str = "Which department of mad science interests you? We have specialists in project creation, git operations, and haiku engineering! (Try: 'haiku' or 'goodbye')";

/// What is said once the user is on the way to the haiku agent.
pub const TRANSFERRING_TEXT: &'static str = "Calibrating the haiku matrices... transferring you to our resident verse engineer!";

/// What is said after the farewell.
pub const PARTING_TEXT: &'static str = "Off to new experiments! Remember: if something explodes, it was definitely intentional!";

/// What is said where the greeter has no state to go by.
pub const WELCOME_TEXT: &'static str = "Welcome to the laboratory! Don't mind the sparks, they're mostly decorative. How may I assist you today? (Try: 'help', 'haiku', or 'goodbye')";

/// A state of the greeter's machine: a name, a prompt and transitions.
pub open spec fn greeter_state(
    name: Seq<char>,
    prompt: Seq<char>,
    transitions: Seq<(Seq<char>, Seq<char>)>,
) -> StateView {
    StateView {
        name,
        data: None,
        prompt: Some(prompt),
        transitions: Some(transitions),
        validation: None,
    }
}

/// The greeter's conversation: from `greeting`, `help` leads to `help`,
/// `transfer` to `transfer_to_haiku` and `farewell` to `goodbye`; from
/// `help`, `transfer` and `farewell` lead on in the same way; the other two
/// states are final.
pub open spec fn greeter_machine() -> StateMachineView {
    StateMachineView {
        states: seq![
            (
                "greeting"@,
                greeter_state(
                    "greeting"@,
                    GREETING_PROMPT@,
                    seq![
                        ("help"@, "help"@),
                        ("transfer"@, "transfer_to_haiku"@),
                        ("farewell"@, "goodbye"@),
                    ],
                ),
            ),
            (
                "help"@,
                greeter_state(
                    "help"@,
                    HELP_PROMPT@,
                    seq![("transfer"@, "transfer_to_haiku"@), ("farewell"@, "goodbye"@)],
                ),
            ),
            (
                "transfer_to_haiku"@,
                greeter_state("transfer_to_haiku"@, HANDOVER_PROMPT@, seq![]),
            ),
            ("goodbye"@, greeter_state("goodbye"@, GOODBYE_PROMPT@, seq![])),
        ],
        initial_state: "greeting"@,
    }
}

/// Where the greeter's machine leads, written out: which event moves it
/// from which state to which, and that nothing else moves it.
pub open spec fn greeter_successor(from: Seq<char>, event: Seq<char>) -> Option<Seq<char>> {
    if from == "greeting"@ && event == "help"@ {
        Some("help"@)
    } else if (from == "greeting"@ || from == "help"@) && event == "transfer"@ {
        Some("transfer_to_haiku"@)
    } else if (from == "greeting"@ || from == "help"@) && event == "farewell"@ {
        Some("goodbye"@)
    } else {
        None
    }
}

/// The four state ids are four different texts, and so are the three
/// events.
proof fn lemma_greeter_names_differ()
    ensures
        "greeting"@ != "help"@,
        "greeting"@ != "transfer_to_haiku"@,
        "greeting"@ != "goodbye"@,
        "help"@ != "transfer_to_haiku"@,
        "help"@ != "goodbye"@,
        "transfer_to_haiku"@ != "goodbye"@,
        "help"@ != "transfer"@,
        "help"@ != "farewell"@,
        "transfer"@ != "farewell"@,
{
    reveal_strlit("greeting");
    reveal_strlit("help");
    reveal_strlit("transfer_to_haiku");
    reveal_strlit("goodbye");
    reveal_strlit("transfer");
    reveal_strlit("farewell");
    assert("greeting"@.len() == 8);
    assert("help"@.len() == 4);
    assert("transfer_to_haiku"@.len() == 17);
    assert("goodbye"@.len() == 7);
    assert("transfer"@.len() == 8);
    assert("farewell"@.len() == 8);
    assert("transfer"@[0] == 't');
    assert("farewell"@[0] == 'f');
}

/// The greeter's machine is well-formed, and it moves exactly as
/// `greeter_successor` says.
pub proof fn lemma_greeter_machine(from: Seq<char>, event: Seq<char>)
    ensures
        greeter_machine().well_formed(),
        greeter_machine().successor(from, event) == greeter_successor(from, event),
{
    lemma_greeter_names_differ();
    let m = greeter_machine();
    let states = m.states;
    lemma_slot_is(states, "greeting"@, 0);
    lemma_slot_is(states, "help"@, 1);
    lemma_slot_is(states, "transfer_to_haiku"@, 2);
    lemma_slot_is(states, "goodbye"@, 3);
    let t0 = states[0].1.transitions->0;
    let t1 = states[1].1.transitions->0;
    let t2 = states[2].1.transitions->0;
    let t3 = states[3].1.transitions->0;
    assert(t0.len() == 3 && t1.len() == 2 && t2.len() == 0 && t3.len() == 0);
    assert(m.well_formed()) by {
        assert forall|i: int, k: int|
            0 <= i < states.len() && states[i].1.transitions is Some && 0 <= k
                < states[i].1.transitions->0.len() implies m.declares(
            #[trigger] states[i].1.transitions->0[k].1,
        ) by {
            if i == 0 {
                assert(k == 0 || k == 1 || k == 2);
            } else if i == 1 {
                assert(k == 0 || k == 1);
            }
        }
    }
    lemma_slot_of(states, from);
    if from == "greeting"@ {
        lemma_slot_of(t0, event);
        if event == "help"@ {
            lemma_slot_is(t0, event, 0);
        } else if event == "transfer"@ {
            lemma_slot_is(t0, event, 1);
        } else if event == "farewell"@ {
            lemma_slot_is(t0, event, 2);
        } else {
            lemma_slot_none(t0, event);
        }
    } else if from == "help"@ {
        lemma_slot_of(t1, event);
        if event == "transfer"@ {
            lemma_slot_is(t1, event, 0);
        } else if event == "farewell"@ {
            lemma_slot_is(t1, event, 1);
        } else {
            lemma_slot_none(t1, event);
        }
    } else if from == "transfer_to_haiku"@ {
        lemma_slot_none(t2, event);
    } else if from == "goodbye"@ {
        lemma_slot_none(t3, event);
    } else {
        lemma_slot_none(states, from);
    }
}

/// Builds one state of the greeter's machine.
fn make_state(name: &str, prompt: &str, transitions: Vec<(String, String)>) -> (r: (String, State))
    ensures
        r.0@ == name@,
        r.1@ == greeter_state(name@, prompt@, transitions.deep_view()),
{
    (
        name.to_owned(),
        State {
            name: name.to_owned(),
            data: None,
            prompt: Some(prompt.to_owned()),
            transitions: Some(transitions),
            validation: None,
        },
    )
}

/// Builds one transition.
fn arrow(event: &str, target: &str) -> (r: (String, String))
    ensures
        r.0@ == event@,
        r.1@ == target@,
{
    (event.to_owned(), target.to_owned())
}

/// Builds the greeter's machine.
fn build_machine() -> (r: StateMachine)
    ensures
        r@ == greeter_machine(),
{
    let mut from_greeting: Vec<(String, String)> = Vec::new();
    from_greeting.push(arrow("help", "help"));
    from_greeting.push(arrow("transfer", "transfer_to_haiku"));
    from_greeting.push(arrow("farewell", "goodbye"));
    assert(from_greeting.deep_view() =~= seq![
        ("help"@, "help"@),
        ("transfer"@, "transfer_to_haiku"@),
        ("farewell"@, "goodbye"@),
    ]);
    let mut from_help: Vec<(String, String)> = Vec::new();
    from_help.push(arrow("transfer", "transfer_to_haiku"));
    from_help.push(arrow("farewell", "goodbye"));
    assert(from_help.deep_view() =~= seq![
        ("transfer"@, "transfer_to_haiku"@),
        ("farewell"@, "goodbye"@),
    ]);
    let none_a: Vec<(String, String)> = Vec::new();
    let none_b: Vec<(String, String)> = Vec::new();
    assert(none_a.deep_view() =~= Seq::<(Seq<char>, Seq<char>)>::empty());
    assert(none_b.deep_view() =~= Seq::<(Seq<char>, Seq<char>)>::empty());
    let mut states: Vec<(String, State)> = Vec::new();
    states.push(
        make_state(
            "greeting",
            GREETING_PROMPT,
            from_greeting,
        ),
    );
    states.push(
        make_state(
            "help",
            HELP_PROMPT,
            from_help,
        ),
    );
    states.push(
        make_state(
            "transfer_to_haiku",
            HANDOVER_PROMPT,
            none_a,
        ),
    );
    states.push(
        make_state(
            "goodbye",
            GOODBYE_PROMPT,
            none_b,
        ),
    );
    assert(states.deep_view() =~= greeter_machine().states);
    StateMachine { states, initial_state: "greeting".to_owned() }
}

/// The greeter agent: a front desk that welcomes users and sends them on.
pub struct GreeterAgent {
    config: AgentConfig,
    state_manager: AgentStateManager,
}

/// The event that the greeter fires on an input in lower case, given the
/// state it is in.
pub open spec fn greeter_event(state: Option<Seq<char>>, lowered: Seq<char>) -> Option<Seq<char>> {
    if state == Some("greeting"@) {
        if lowered == "help"@ {
            Some("help"@)
        } else if lowered == "yes"@ || lowered == "haiku"@ {
            Some("transfer"@)
        } else if lowered == "goodbye"@ || lowered == "exit"@ || lowered == "quit"@ || lowered
            == "no"@ {
            Some("farewell"@)
        } else {
            None
        }
    } else if state == Some("help"@) {
        if lowered == "haiku"@ || lowered == "yes"@ {
            Some("transfer"@)
        } else if lowered == "goodbye"@ || lowered == "exit"@ || lowered == "quit"@ || lowered
            == "no"@ {
            Some("farewell"@)
        } else {
            None
        }
    } else {
        None
    }
}

/// What the greeter says on an input in lower case, given the state it is in.
pub open spec fn greeter_text(state: Option<Seq<char>>, lowered: Seq<char>) -> Seq<char> {
    if state == Some("greeting"@) {
        if lowered == "help"@ {
            TOUR_TEXT@
        } else if lowered == "yes"@ || lowered == "haiku"@ {
            HANDOVER_PROMPT@
        } else if lowered == "goodbye"@ || lowered == "exit"@ || lowered == "quit"@ || lowered
            == "no"@ {
            GOODBYE_PROMPT@
        } else {
            INVITATION_TEXT@
        }
    } else if state == Some("help"@) {
        if lowered == "haiku"@ || lowered == "yes"@ {
            HANDOVER_PROMPT@
        } else if lowered == "goodbye"@ || lowered == "exit"@ || lowered == "quit"@ || lowered
            == "no"@ {
            GOODBYE_PROMPT@
        } else {
            DEPARTMENTS_TEXT@
        }
    } else if state == Some("transfer_to_haiku"@) {
        TRANSFERRING_TEXT@
    } else if state == Some("goodbye"@) {
        PARTING_TEXT@
    } else {
        WELCOME_TEXT@
    }
}

/// Where a cursor stands after an optional event: where the event takes
/// it, or where it was.
pub open spec fn cursor_after_maybe(
    machine: Option<StateMachineView>,
    current: Option<Seq<char>>,
    event: Option<Seq<char>>,
) -> Option<Seq<char>> {
    match event {
        Some(e) => cursor_after(machine, current, e),
        None => current,
    }
}

/// The state that the greeter is in after an input in lower case, written
/// out: in `greeting`, `help` leads to `help`; in `greeting` and `help`,
/// `yes` and `haiku` lead to `transfer_to_haiku`, and `goodbye`, `exit`,
/// `quit` and `no` to `goodbye`; anything else leaves the greeter where it
/// is.
pub open spec fn greeter_next(state: Option<Seq<char>>, lowered: Seq<char>) -> Option<Seq<char>> {
    match (state, greeter_event(state, lowered)) {
        (Some(s), Some(e)) => match greeter_successor(s, e) {
            Some(t) => Some(t),
            None => state,
        },
        _ => state,
    }
}

/// On the greeter's own machine, the cursor goes where `greeter_next` says.
pub proof fn lemma_greeter_reaction(state: Option<Seq<char>>, lowered: Seq<char>)
    ensures
        cursor_after_maybe(Some(greeter_machine()), state, greeter_event(state, lowered))
            == greeter_next(state, lowered),
{
    match (state, greeter_event(state, lowered)) {
        (Some(s), Some(e)) => {
            lemma_greeter_machine(s, e);
        },
        _ => {},
    }
}

/// The prompt of the state that a cursor points at.
pub open spec fn prompt_at(machine: Option<StateMachineView>, current: Option<Seq<char>>) -> Option<
    Seq<char>,
> {
    match (machine, current) {
        (Some(m), Some(c)) => match m.state_at(c) {
            Some(s) => s.prompt,
            None => None,
        },
        _ => None,
    }
}

/// The message that the greeter sends: from the assistant, at `now`, naming
/// the greeter and carrying the prompt of its state.
pub open spec fn greeter_message(
    name: Seq<char>,
    content: Seq<char>,
    prompt: Option<Seq<char>>,
    now: i64,
) -> MessageView {
    MessageView {
        content,
        metadata: Some(
            MessageMetadataView {
                agent: name,
                state: prompt,
                personality_traits: None,
                transfer_target: None,
                context: None,
                tool_results: None,
            },
        ),
        role: Some("assistant"@),
        timestamp: Some(now),
    }
}

impl GreeterAgent {
    /// The greeter's configuration.
    pub closed spec fn config(&self) -> AgentConfigView {
        self.config@
    }

    /// The machine that the greeter runs.
    pub closed spec fn machine(&self) -> Option<StateMachineView> {
        self.state_manager.machine()
    }

    /// The id of the state that the greeter is in.
    pub closed spec fn current(&self) -> Option<Seq<char>> {
        self.state_manager.current()
    }

    /// A greeter in its `greeting` state. Whatever state machine `config`
    /// brings is replaced by the greeter's own.
    pub fn new(config: AgentConfig) -> (r: Self)
        ensures
            r.config() == (AgentConfigView { state_machine: Some(greeter_machine()), ..config@ }),
            r.machine() == Some(greeter_machine()),
            r.current() == Some("greeting"@),
    {
        let machine = build_machine();
        let mut config = config;
        config.state_machine = Some(machine.clone());
        Self { config, state_manager: AgentStateManager::new(Some(machine)) }
    }

    /// The greeter's message with this content, as sent at `now`.
    pub fn response_at(&self, content: String, now: i64) -> (r: Message)
        ensures
            r@ == greeter_message(
                self.config().name,
                content@,
                prompt_at(self.machine(), self.current()),
                now,
            ),
    {
        let prompt = match self.state_manager.get_current_state() {
            Some(s) => match &s.prompt {
                Some(p) => Some(p.clone()),
                None => None,
            },
            None => None,
        };
        let mut metadata = MessageMetadata::new(self.config.name.clone());
        metadata.state = prompt;
        Message::at(content, now).with_metadata(metadata)
    }

    /// The greeter's message with this content, stamped with the time of the
    /// call. The time is read from the system clock, as `Message::new`
    /// reads it.
    pub fn create_response(&self, content: String) -> (r: Message)
        ensures
            exists|now: i64|
                r@ == greeter_message(
                    self.config().name,
                    content@,
                    prompt_at(self.machine(), self.current()),
                    now,
                ),
    {
        self.response_at(content, unix_now())
    }

    /// Reacts to an input already in lower case: fires the event that the
    /// input stands for in the current state, then answers from the state
    /// reached.
    pub fn react(&mut self, lowered: &str, now: i64) -> (r: Message)
        ensures
            final(self).config() == old(self).config(),
            final(self).machine() == old(self).machine(),
            final(self).current() == cursor_after_maybe(
                old(self).machine(),
                old(self).current(),
                greeter_event(old(self).current(), lowered@),
            ),
            r@ == greeter_message(
                old(self).config().name,
                greeter_text(old(self).current(), lowered@),
                prompt_at(final(self).machine(), final(self).current()),
                now,
            ),
    {
        let in_greeting = match self.state_manager.get_current_state_name() {
            Some(n) => same_text(n, "greeting"),
            None => false,
        };
        let in_help = match self.state_manager.get_current_state_name() {
            Some(n) => same_text(n, "help"),
            None => false,
        };
        let in_handover = match self.state_manager.get_current_state_name() {
            Some(n) => same_text(n, "transfer_to_haiku"),
            None => false,
        };
        let in_goodbye = match self.state_manager.get_current_state_name() {
            Some(n) => same_text(n, "goodbye"),
            None => false,
        };
        let wants_help = same_text(lowered, "help");
        let wants_haiku = same_text(lowered, "yes") || same_text(lowered, "haiku");
        let wants_out = same_text(lowered, "goodbye") || same_text(lowered, "exit") || same_text(
            lowered,
            "quit",
        ) || same_text(lowered, "no");
        if in_greeting {
            if wants_help {
                self.state_manager.transition("help");
                self.response_at(
                    TOUR_TEXT.to_owned(),
                    now,
                )
            } else if wants_haiku {
                self.state_manager.transition("transfer");
                self.response_at(
                    HANDOVER_PROMPT.to_owned(),
                    now,
                )
            } else if wants_out {
                self.state_manager.transition("farewell");
                self.response_at(
                    GOODBYE_PROMPT.to_owned(),
                    now,
                )
            } else {
                self.response_at(
                    INVITATION_TEXT.to_owned(),
                    now,
                )
            }
        } else if in_help {
            if wants_haiku {
                self.state_manager.transition("transfer");
                self.response_at(
                    HANDOVER_PROMPT.to_owned(),
                    now,
                )
            } else if wants_out {
                self.state_manager.transition("farewell");
                self.response_at(
                    GOODBYE_PROMPT.to_owned(),
                    now,
                )
            } else {
                self.response_at(
                    DEPARTMENTS_TEXT.to_owned(),
                    now,
                )
            }
        } else if in_handover {
            self.response_at(
                TRANSFERRING_TEXT.to_owned(),
                now,
            )
        } else if in_goodbye {
            self.response_at(
                PARTING_TEXT.to_owned(),
                now,
            )
        } else {
            self.response_at(
                WELCOME_TEXT.to_owned(),
                now,
            )
        }
    }
}

impl Agent for GreeterAgent {
    open spec fn config_view(&self) -> AgentConfigView {
        self.config()
    }

    /// The state that the greeter's cursor points at.
    open spec fn state_view(&self) -> Option<StateView> {
        match (self.machine(), self.current()) {
            (Some(m), Some(c)) => m.state_at(c),
            _ => None,
        }
    }

    /// The greeter always answers. The input counts in its lower-case form:
    /// the event that it stands for in the current state is fired, and the
    /// answer is the text for it, sent from the state reached.
    open spec fn answers(
        &self,
        message: MessageView,
        after: Self,
        r: Result<Message, Error>,
    ) -> bool {
        &&& after.config() == self.config()
        &&& after.machine() == self.machine()
        &&& after.current() == cursor_after_maybe(
            self.machine(),
            self.current(),
            greeter_event(self.current(), lowercase_of(message.content)),
        )
        &&& r matches Ok(m) && exists|now: i64|
            m@ == greeter_message(
                self.config().name,
                greeter_text(self.current(), lowercase_of(message.content)),
                prompt_at(after.machine(), after.current()),
                now,
            )
    }

    /// A handover to an agent on the downstream list succeeds: the greeter
    /// fires `transfer` and passes the message on as it is. Any other target
    /// is refused, and the greeter is left as it was.
    open spec fn hands_over(
        &self,
        target: Seq<char>,
        message: MessageView,
        after: Self,
        r: Result<Message, Error>,
    ) -> bool {
        if self.config().allows(target) {
            &&& after.config() == self.config()
            &&& after.machine() == self.machine()
            &&& after.current() == cursor_after(self.machine(), self.current(), "transfer"@)
            &&& r matches Ok(m) && m@ == message
        } else {
            &&& after == *self
            &&& r matches Err(Error::InvalidTransferTarget(t)) && t@ == target
        }
    }

    /// The greeter has no tools: every call is refused, and the greeter is
    /// left as it was.
    open spec fn tool_gives(
        &self,
        tool: ToolView,
        params: Map<String, String>,
        after: Self,
        r: Result<String, Error>,
    ) -> bool {
        &&& after == *self
        &&& r matches Err(Error::ToolError(what)) && what@ == "Tool calling not yet implemented"@
    }

    /// Answers from the current state, as `answers` says.
    fn process_message(&mut self, message: Message) -> (r: Result<Message, Error>) {
        let lowered = lowercase(message.content.as_str());
        Ok(self.react(lowered.as_str(), unix_now()))
    }

    /// Hands over to a downstream agent: fires `transfer` and passes the
    /// message on as it is.
    fn transfer_to(&mut self, target_agent: String, message: Message) -> (r: Result<
        Message,
        Error,
    >)
        ensures
            final(self).machine() == old(self).machine(),
            old(self).config().allows(target_agent@) ==> {
                &&& r == Ok::<Message, Error>(message)
                &&& final(self).current() == cursor_after(
                    old(self).machine(),
                    old(self).current(),
                    "transfer"@,
                )
            },
    {
        if !contains_name(&self.config.downstream_agents, target_agent.as_str()) {
            return Err(Error::InvalidTransferTarget(target_agent));
        }
        self.state_manager.transition("transfer");
        Ok(message)
    }

    /// The greeter has no tools: every call is refused.
    fn call_tool(&mut self, tool: &Tool, params: HashMap<String, String>) -> (r: Result<
        String,
        Error,
    >) {
        Err(Error::ToolError("Tool calling not yet implemented".to_owned()))
    }

    fn get_current_state(&self) -> (r: Option<State>) {
        match self.state_manager.get_current_state() {
            Some(s) => Some(s.clone()),
            None => None,
        }
    }

    fn get_config(&self) -> (r: AgentConfig) {
        self.config.clone()
    }
}

} // verus!
