//! Validated handoff of a conversation between two registered agents.

use vstd::prelude::*;
use crate::agent::Agent;
use crate::error::Error;
use crate::registry::AgentRegistry;
use crate::types::Message;

verus! {

/// Routes messages to the current agent and hands conversations from one
/// registered agent to another.
pub struct TransferService<A: Agent> {
    registry: AgentRegistry<A>,
}

impl<A: Agent> TransferService<A> {
    /// The registered agents by name.
    pub closed spec fn agents(&self) -> Map<Seq<char>, A> {
        self.registry@
    }

    /// The registered names, in the order in which they were first registered.
    pub closed spec fn names(&self) -> Seq<Seq<char>> {
        self.registry.names()
    }

    /// The name of the current agent, if one was set.
    pub closed spec fn current(&self) -> Option<Seq<char>> {
        self.registry.current()
    }

    /// A service over the agents of `registry`.
    pub fn new(registry: AgentRegistry<A>) -> (r: Self)
        ensures
            r.agents() == registry@,
            r.names() == registry.names(),
            r.current() == registry.current(),
    {
        Self { registry }
    }

    /// Hands `message` from the agent `from` over to the agent `to`.
    ///
    /// Both names are looked up first; a missing one fails with `NotFound`,
    /// the source before the target, and nothing has changed. The source
    /// agent is then asked to hand over, once, with the target and the
    /// message as given, and what it gives is the result: a target outside
    /// its downstream list fails with `InvalidTransferTarget`, and again
    /// nothing has changed. Whatever the outcome, only the source agent may
    /// differ afterwards, its configuration is the same, and the current
    /// agent stays what it was.
    pub fn transfer(&mut self, from: &str, to: &str, message: Message) -> (r: Result<
        Message,
        Error,
    >)
        ensures
            final(self).current() == old(self).current(),
            final(self).names() == old(self).names(),
            !old(self).agents().contains_key(from@) ==> {
                &&& r matches Err(Error::NotFound(n)) && n@ == from@
                &&& final(self).agents() == old(self).agents()
            },
            old(self).agents().contains_key(from@) && !old(self).agents().contains_key(to@) ==> {
                &&& r matches Err(Error::NotFound(n)) && n@ == to@
                &&& final(self).agents() == old(self).agents()
            },
            old(self).agents().contains_key(from@) && old(self).agents().contains_key(to@) ==> {
                let source = old(self).agents()[from@];
                &&& final(self).agents().dom() == old(self).agents().dom()
                &&& forall|k: Seq<char>|
                    old(self).agents().contains_key(k) && k != from@ ==> final(self).agents()[k]
                        == old(self).agents()[k]
                &&& final(self).agents()[from@].config_view() == source.config_view()
                &&& source.hands_over(to@, message@, final(self).agents()[from@], r)
                &&& !source.config_view().allows(to@) ==> {
                    &&& r matches Err(Error::InvalidTransferTarget(t)) && t@ == to@
                    &&& final(self).agents() == old(self).agents()
                }
                &&& source.config_view().allows(to@) ==> !(r matches Err(
                    Error::InvalidTransferTarget(_),
                ))
            },
    {
        if !self.registry.contains(from) {
            return Err(Error::NotFound(from.to_owned()));
        }
        if !self.registry.contains(to) {
            return Err(Error::NotFound(to.to_owned()));
        }
        let ghost before = self.registry@;
        let r = match self.registry.get_mut(from) {
            Some(source) => source.transfer_to(to.to_owned(), message),
            None => Err(Error::NotFound(from.to_owned())),
        };
        proof {
            assert(self.registry@.dom() =~= before.dom());
            if !before[from@].config_view().allows(to@) {
                assert(self.registry@ =~= before);
            }
        }
        r
    }

    /// Lets the current agent answer `message`.
    ///
    /// Fails with `NotFound` when no current agent is set or the name that is
    /// set has no agent. Otherwise the current agent is asked, what it
    /// answers is the result, and only that agent may differ afterwards.
    pub fn process_message(&mut self, message: Message) -> (r: Result<Message, Error>)
        ensures
            final(self).current() == old(self).current(),
            final(self).names() == old(self).names(),
            final(self).agents().dom() == old(self).agents().dom(),
            match old(self).current() {
                Some(c) => if old(self).agents().contains_key(c) {
                    &&& old(self).agents()[c].answers(message@, final(self).agents()[c], r)
                    &&& forall|k: Seq<char>|
                        old(self).agents().contains_key(k) && k != c ==> final(self).agents()[k]
                            == old(self).agents()[k]
                    &&& final(self).agents()[c].config_view() == old(
                        self,
                    ).agents()[c].config_view()
                } else {
                    &&& r matches Err(Error::NotFound(n)) && n@ == c
                    &&& final(self).agents() == old(self).agents()
                },
                None => {
                    &&& r matches Err(Error::NotFound(n)) && n@ == "current agent"@
                    &&& final(self).agents() == old(self).agents()
                },
            },
    {
        let name: String = match self.registry.get_current_agent() {
            Some(n) => n.to_owned(),
            None => {
                return Err(Error::NotFound("current agent".to_owned()));
            },
        };
        let ghost before = self.registry@;
        let r = match self.registry.get_mut(name.as_str()) {
            Some(agent) => agent.process_message(message),
            None => Err(Error::NotFound(name)),
        };
        proof {
            assert(self.registry@.dom() =~= before.dom());
        }
        r
    }

    /// The agent registered under `name`, or `NotFound`.
    pub fn get_agent(&self, name: &str) -> (r: Result<&A, Error>)
        ensures
            match r {
                Ok(a) => self.agents().contains_key(name@) && self.agents()[name@] == *a,
                Err(e) => {
                    &&& !self.agents().contains_key(name@)
                    &&& e matches Error::NotFound(n) && n@ == name@
                },
            },
    {
        match self.registry.get_agent(name) {
            Some(a) => Ok(a),
            None => Err(Error::NotFound(name.to_owned())),
        }
    }

    /// The name of the current agent, or `NotFound` when none is set.
    pub fn get_current_agent_name(&self) -> (r: Result<String, Error>)
        ensures
            match r {
                Ok(n) => self.current() == Some(n@),
                Err(e) => {
                    &&& self.current() is None
                    &&& e matches Error::NotFound(n) && n@ == "current agent"@
                },
            },
    {
        match self.registry.get_current_agent() {
            Some(n) => Ok(n.to_owned()),
            None => Err(Error::NotFound("current agent".to_owned())),
        }
    }

    /// Makes the registered agent `target` the current one. An unregistered
    /// name fails with `NotFound` and changes nothing.
    pub fn set_current_agent_name(&mut self, target: &str) -> (r: Result<(), Error>)
        ensures
            final(self).agents() == old(self).agents(),
            final(self).names() == old(self).names(),
            old(self).agents().contains_key(target@) ==> r is Ok && final(self).current() == Some(
                target@,
            ),
            !old(self).agents().contains_key(target@) ==> {
                &&& r matches Err(Error::NotFound(n)) && n@ == target@
                &&& final(self).current() == old(self).current()
            },
    {
        if self.registry.contains(target) {
            self.registry.set_current_agent(target.to_owned());
            Ok(())
        } else {
            Err(Error::NotFound(target.to_owned()))
        }
    }
}

} // verus!
