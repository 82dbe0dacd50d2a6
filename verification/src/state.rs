//! The state machine engine: one cursor over a `StateMachine`, moved only by
//! named events.

use vstd::prelude::*;
use crate::types::{State, StateMachine, StateMachineView, StateView};

verus! {

/// Tracks which state of its machine an agent is in.
///
/// Without a machine there is no current state. With one, the cursor starts
/// at the machine's initial state and moves only through `transition`.
pub struct AgentStateManager {
    current_state: Option<String>,
    state_machine: Option<StateMachine>,
}

/// Where the cursor stands after `event`, when it moves at all: the machine's
/// successor of the current state.
pub open spec fn move_target(
    machine: Option<StateMachineView>,
    current: Option<Seq<char>>,
    event: Seq<char>,
) -> Option<Seq<char>> {
    match (machine, current) {
        (Some(m), Some(c)) => m.successor(c, event),
        _ => None,
    }
}

/// Where the cursor stands after `event`: at the target where it moves,
/// else where it stood.
pub open spec fn cursor_after(
    machine: Option<StateMachineView>,
    current: Option<Seq<char>>,
    event: Seq<char>,
) -> Option<Seq<char>> {
    match move_target(machine, current, event) {
        Some(t) => Some(t),
        None => current,
    }
}

impl AgentStateManager {
    /// The machine this manager runs, if any.
    pub closed spec fn machine(&self) -> Option<StateMachineView> {
        self.state_machine.deep_view()
    }

    /// The id of the current state, if any.
    pub closed spec fn current(&self) -> Option<Seq<char>> {
        self.current_state.deep_view()
    }

    /// The state that the cursor points at, if the machine has it.
    pub open spec fn current_state_spec(&self) -> Option<StateView> {
        match (self.machine(), self.current()) {
            (Some(m), Some(c)) => m.state_at(c),
            _ => None,
        }
    }

    /// Starts at the machine's initial state; with no machine, nowhere.
    pub fn new(state_machine: Option<StateMachine>) -> (r: Self)
        ensures
            r.machine() == state_machine.deep_view(),
            r.current() == match state_machine {
                Some(m) => Some(m.initial_state@),
                None => None,
            },
    {
        let current_state = match &state_machine {
            Some(sm) => Some(sm.initial_state.clone()),
            None => None,
        };
        Self { current_state, state_machine }
    }

    /// Follows the transition that the current state declares for `event`.
    ///
    /// The cursor moves, and the new state is returned, exactly when the
    /// current state is a state of the machine, declares a transition for
    /// `event`, and that transition's target is a state of the machine.
    /// Otherwise nothing changes and the result is `None`. Either way the
    /// cursor never comes to rest on an id that the machine does not have,
    /// unless it already stood there.
    pub fn transition(&mut self, event: &str) -> (r: Option<&State>)
        ensures
            final(self).machine() == old(self).machine(),
            final(self).current() == cursor_after(
                old(self).machine(),
                old(self).current(),
                event@,
            ),
            match move_target(old(self).machine(), old(self).current(), event@) {
                Some(t) => r is Some && r.deep_view() == old(self).machine()->0.state_at(t),
                None => r is None,
            },
            final(self).current() == old(self).current() || (final(self).machine() is Some
                && final(self).current() is Some && final(self).machine()->0.declares(
                final(self).current()->0,
            )),
    {
        let next: Option<String> = match (&self.state_machine, &self.current_state) {
            (Some(machine), Some(current)) => match machine.find_state(current.as_str()) {
                Some(state) => match state.find_target(event) {
                    Some(target) => match machine.find_state(target.as_str()) {
                        Some(_) => Some(target.clone()),
                        None => None,
                    },
                    None => None,
                },
                None => None,
            },
            _ => None,
        };
        match next {
            Some(target) => {
                self.current_state = Some(target);
                match (&self.state_machine, &self.current_state) {
                    (Some(machine), Some(current)) => machine.find_state(current.as_str()),
                    _ => None,
                }
            },
            None => None,
        }
    }

    /// The state that the cursor points at, if the machine has it.
    pub fn get_current_state(&self) -> (r: Option<&State>)
        ensures
            r.deep_view() == self.current_state_spec(),
    {
        match (&self.state_machine, &self.current_state) {
            (Some(machine), Some(current)) => machine.find_state(current.as_str()),
            _ => None,
        }
    }

    /// The id of the current state.
    pub fn get_current_state_name(&self) -> (r: Option<&str>)
        ensures
            r.deep_view() == self.current(),
    {
        match &self.current_state {
            Some(s) => Some(s.as_str()),
            None => None,
        }
    }
}

/// From any cursor position and for any event, one step of the engine either
/// leaves the position as it was or lands on a state that the machine has.
pub proof fn lemma_step_stays_declared(
    machine: Option<StateMachineView>,
    current: Option<Seq<char>>,
    event: Seq<char>,
)
    ensures
        cursor_after(machine, current, event) == current || (machine is Some && cursor_after(
            machine,
            current,
            event,
        ) is Some && machine->0.declares(cursor_after(machine, current, event)->0)),
{
}

/// A cursor that stands on a state of the machine still does so after any
/// sequence of events.
pub proof fn lemma_run_stays_declared(
    machine: StateMachineView,
    start: Seq<char>,
    events: Seq<Seq<char>>,
)
    requires
        machine.declares(start),
    ensures
        cursor_after_all(Some(machine), Some(start), events) is Some,
        machine.declares(cursor_after_all(Some(machine), Some(start), events)->0),
    decreases events.len(),
{
    if events.len() > 0 {
        lemma_run_stays_declared(machine, start, events.drop_last());
    }
}

/// Where the cursor stands after a sequence of events, taken in order.
pub open spec fn cursor_after_all(
    machine: Option<StateMachineView>,
    current: Option<Seq<char>>,
    events: Seq<Seq<char>>,
) -> Option<Seq<char>>
    decreases events.len(),
{
    if events.len() == 0 {
        current
    } else {
        cursor_after(machine, cursor_after_all(machine, current, events.drop_last()), events.last())
    }
}

} // verus!
