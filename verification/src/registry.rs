//! The agent registry: agents by unique name, and which one is current.

use vstd::prelude::*;
use crate::agent::Agent;
use crate::error::Error;
use crate::text::{copy_names, same_text};
use crate::types::{AgentConfig, AgentConfigView};

verus! {

/// Agents by name, and the name of the agent that interactive input goes to.
///
/// A name stands for at most one agent. Registering under a name that is
/// taken replaces the agent that had it.
pub struct AgentRegistry<A> {
    names: Vec<String>,
    agents: Vec<A>,
    current: Option<String>,
}

impl<A> View for AgentRegistry<A> {
    type V = Map<Seq<char>, A>;

    closed spec fn view(&self) -> Map<Seq<char>, A> {
        paired(self.names.deep_view(), self.agents@)
    }
}

/// The map that takes each name to the agent at the same position.
pub open spec fn paired<A>(names: Seq<Seq<char>>, agents: Seq<A>) -> Map<Seq<char>, A> {
    Map::new(|k: Seq<char>| names.contains(k), |k: Seq<char>| agents[names.index_of(k)])
}

/// A new name with its agent, put at the end, adds that pair and nothing else.
pub proof fn lemma_paired_push<A>(names: Seq<Seq<char>>, agents: Seq<A>, name: Seq<char>, a: A)
    requires
        names.no_duplicates(),
        names.len() == agents.len(),
        !names.contains(name),
    ensures
        names.push(name).no_duplicates(),
        paired(names.push(name), agents.push(a)) == paired(names, agents).insert(name, a),
{
    let names2 = names.push(name);
    let lhs = paired(names2, agents.push(a));
    let rhs = paired(names, agents).insert(name, a);
    assert forall|i: int, j: int|
        0 <= i < names2.len() && 0 <= j < names2.len() && i != j implies names2[i]
        != names2[j] by {
        if i < names.len() {
            assert(names.contains(names[i]));
        }
        if j < names.len() {
            assert(names.contains(names[j]));
        }
    }
    assert(names2[names.len() as int] == name);
    assert forall|k: Seq<char>| lhs.contains_key(k) <==> rhs.contains_key(k) by {
        if names2.contains(k) {
            let j = names2.index_of(k);
            if j < names.len() {
                assert(names[j] == k);
            }
        }
        if names.contains(k) {
            let j = names.index_of(k);
            assert(names2[j] == k);
        }
    }
    assert forall|k: Seq<char>| lhs.contains_key(k) implies lhs[k] == rhs[k] by {
        let j = names2.index_of(k);
        assert(0 <= j < names2.len() && names2[j] == k);
        if k != name {
            assert(names[j] == k);
            let j2 = names.index_of(k);
            assert(names[j2] == k);
        }
    }
    assert(lhs =~= rhs);
}

/// Replacing the agent at the position of a name replaces what the name
/// stands for, and nothing else.
pub proof fn lemma_paired_update<A>(names: Seq<Seq<char>>, agents: Seq<A>, i: int, a: A)
    requires
        names.no_duplicates(),
        names.len() == agents.len(),
        0 <= i < names.len(),
    ensures
        paired(names, agents.update(i, a)) == paired(names, agents).insert(names[i], a),
{
    let lhs = paired(names, agents.update(i, a));
    let rhs = paired(names, agents).insert(names[i], a);
    assert(names.contains(names[i]));
    assert forall|k: Seq<char>| lhs.contains_key(k) <==> rhs.contains_key(k) by {}
    assert forall|k: Seq<char>| lhs.contains_key(k) implies lhs[k] == rhs[k] by {
        let j = names.index_of(k);
        assert(0 <= j < names.len() && names[j] == k);
    }
    assert(lhs =~= rhs);
}

impl<A> AgentRegistry<A> {
    #[verifier::type_invariant]
    spec fn inv(self) -> bool {
        &&& self.names@.len() == self.agents@.len()
        &&& self.names.deep_view().no_duplicates()
    }

    /// The registered names, in the order in which they were first registered.
    pub closed spec fn names(&self) -> Seq<Seq<char>> {
        self.names.deep_view()
    }

    /// The name of the current agent, if one was set.
    pub closed spec fn current(&self) -> Option<Seq<char>> {
        self.current.deep_view()
    }

    /// An empty registry with no current agent.
    pub fn new() -> (r: Self)
        ensures
            r@ == Map::<Seq<char>, A>::empty(),
            r.names() == Seq::<Seq<char>>::empty(),
            r.current() is None,
    {
        let r = Self { names: Vec::new(), agents: Vec::new(), current: None };
        proof {
            assert(r.names.deep_view() =~= Seq::<Seq<char>>::empty());
            assert(r@ =~= Map::<Seq<char>, A>::empty());
        }
        r
    }

    /// Where `name` stands in the list of names.
    fn slot(&self, name: &str) -> (r: Option<usize>)
        ensures
            match r {
                Some(i) => i < self.names@.len() && self.names.deep_view()[i as int] == name@
                    && self.names.deep_view().index_of(name@) == i,
                None => !self.names.deep_view().contains(name@),
            },
            self.names@.len() == self.agents@.len(),
            self.names.deep_view().no_duplicates(),
    {
        proof {
            use_type_invariant(self);
        }
        let mut i: usize = 0;
        while i < self.names.len()
            invariant
                i <= self.names.len(),
                self.names@.len() == self.agents@.len(),
                self.names.deep_view().no_duplicates(),
                forall|j: int| 0 <= j < i ==> self.names.deep_view()[j] != name@,
            decreases self.names.len() - i,
        {
            if same_text(self.names[i].as_str(), name) {
                proof {
                    let keys = self.names.deep_view();
                    assert(keys[i as int] == name@);
                    assert(keys.contains(name@));
                    let k = keys.index_of(name@);
                    assert(0 <= k < keys.len() && keys[k] == name@);
                }
                return Some(i);
            }
            i += 1;
        }
        None
    }

    /// The agent registered under `name`.
    pub fn get_agent(&self, name: &str) -> (r: Option<&A>)
        ensures
            match r {
                Some(a) => self@.contains_key(name@) && self@[name@] == *a,
                None => !self@.contains_key(name@),
            },
    {
        match self.slot(name) {
            Some(i) => Some(&self.agents[i]),
            None => None,
        }
    }

    /// The agent registered under `name`, for changing it in place.
    pub fn get_mut(&mut self, name: &str) -> (r: Option<&mut A>)
        ensures
            final(self).current() == old(self).current(),
            final(self).names() == old(self).names(),
            match r {
                Some(a) => {
                    &&& old(self)@.contains_key(name@)
                    &&& *a == old(self)@[name@]
                    &&& final(self)@ == old(self)@.insert(name@, *final(a))
                },
                None => !old(self)@.contains_key(name@) && final(self)@ == old(self)@,
            },
    {
        match self.slot(name) {
            Some(i) => {
                proof {
                    let names = self.names.deep_view();
                    let agents = self.agents@;
                    assert forall|x: A| #[trigger]
                        paired(names, agents.update(i as int, x)) == paired(names, agents).insert(
                            name@,
                            x,
                        ) by {
                        lemma_paired_update(names, agents, i as int, x);
                    }
                }
                Some(&mut self.agents[i])
            },
            None => None,
        }
    }

    /// Registers `agent` under `name`. An agent that had the name is replaced;
    /// every other name keeps its agent, and the current agent stays.
    pub fn register(&mut self, name: String, agent: A)
        ensures
            final(self)@ == old(self)@.insert(name@, agent),
            final(self).current() == old(self).current(),
            final(self).names() == if old(self)@.contains_key(name@) {
                old(self).names()
            } else {
                old(self).names().push(name@)
            },
    {
        match self.slot(name.as_str()) {
            Some(i) => {
                proof {
                    lemma_paired_update(self.names.deep_view(), self.agents@, i as int, agent);
                }
                self.agents[i] = agent;
            },
            None => {
                let mut taken = Self { names: Vec::new(), agents: Vec::new(), current: None };
                proof {
                    assert(taken.names.deep_view() =~= Seq::<Seq<char>>::empty());
                }
                std::mem::swap(self, &mut taken);
                let Self { mut names, mut agents, current } = taken;
                let ghost before_names = names.deep_view();
                let ghost before_agents = agents@;
                names.push(name);
                agents.push(agent);
                proof {
                    assert(names.deep_view() =~= before_names.push(name@));
                    lemma_paired_push(before_names, before_agents, name@, agent);
                }
                *self = Self { names, agents, current };
            },
        }
    }

    /// The name of the current agent, if one was set.
    pub fn get_current_agent(&self) -> (r: Option<&str>)
        ensures
            match r {
                Some(s) => self.current() == Some(s@),
                None => self.current() is None,
            },
    {
        match &self.current {
            Some(s) => Some(s.as_str()),
            None => None,
        }
    }

    /// Makes `name` the current agent. The agents stay as they are.
    pub fn set_current_agent(&mut self, name: String)
        ensures
            final(self)@ == old(self)@,
            final(self).names() == old(self).names(),
            final(self).current() == Some(name@),
    {
        proof {
            use_type_invariant(&*self);
        }
        self.current = Some(name);
    }

    /// Whether an agent is registered under `name`.
    pub fn contains(&self, name: &str) -> (r: bool)
        ensures
            r == self@.contains_key(name@),
    {
        self.slot(name).is_some()
    }

    /// The registered names, in the order in which they were first registered.
    pub fn list_agents(&self) -> (r: Vec<String>)
        ensures
            r.deep_view() == self.names(),
            r.deep_view().no_duplicates(),
            forall|k: Seq<char>| r.deep_view().contains(k) <==> self@.contains_key(k),
    {
        proof {
            use_type_invariant(self);
        }
        copy_names(&self.names)
    }
}

impl<A: Agent> AgentRegistry<A> {
    /// Registers an agent under the name that its own configuration
    /// declares. An agent that had the name is replaced.
    pub fn register_agent(&mut self, agent: A)
        ensures
            final(self)@ == old(self)@.insert(agent.config_view().name, agent),
            final(self).current() == old(self).current(),
            final(self).names() == if old(self)@.contains_key(agent.config_view().name) {
                old(self).names()
            } else {
                old(self).names().push(agent.config_view().name)
            },
    {
        let config = agent.get_config();
        self.register(config.name, agent);
    }

    /// A registry of the given agents, each under its declared name, with no
    /// current agent. Where several agents declare one name, the last of
    /// them stands.
    pub fn from_agents(agents: Vec<A>) -> (r: Self)
        ensures
            r.current() is None,
            forall|k: Seq<char>|
                r@.contains_key(k) <==> exists|i: int|
                    0 <= i < agents@.len() && (#[trigger] agents@[i]).config_view().name == k,
            forall|k: Seq<char>|
                r@.contains_key(k) ==> exists|i: int|
                    stands_for(agents@, agents@.len() as int, k, i) && r@[k] == agents@[i],
            r.names() == declared_names(agents@),
    {
        let mut registry = Self::new();
        let ghost all = agents@;
        proof {
            assert(all.take(0) =~= Seq::<A>::empty());
        }
        for agent in it: agents.into_iter()
            invariant
                it.seq() == all,
                registry.current() is None,
                forall|k: Seq<char>|
                    registry@.contains_key(k) <==> exists|i: int|
                        0 <= i < it.index() && (#[trigger] all[i]).config_view().name == k,
                forall|k: Seq<char>|
                    registry@.contains_key(k) ==> exists|i: int|
                        stands_for(all, it.index() as int, k, i) && registry@[k] == all[i],
                registry.names() == declared_names(all.take(it.index() as int)),
        {
            let ghost before = registry@;
            let ghost at = it.index() as int;
            let ghost name = agent.config_view().name;
            proof {
                let seen = all.take(at);
                lemma_declared_names(seen, name);
                assert(all.take(at + 1).drop_last() =~= seen);
                assert(all.take(at + 1).last() == agent);
                if before.contains_key(name) {
                    let i = choose|i: int|
                        0 <= i < at && (#[trigger] all[i]).config_view().name == name;
                    assert(seen[i].config_view().name == name);
                }
                if declared_names(seen).contains(name) {
                    let i = choose|i: int|
                        0 <= i < seen.len() && (#[trigger] seen[i]).config_view().name == name;
                    assert(all[i].config_view().name == name);
                }
                assert(before.contains_key(name) <==> declared_names(seen).contains(name));
            }
            registry.register_agent(agent);
            proof {
                assert(all[at] == agent);
                assert forall|k: Seq<char>| registry@.contains_key(k) implies exists|i: int|
                    stands_for(all, at + 1, k, i) && registry@[k] == all[i] by {
                    if k == name {
                        assert(stands_for(all, at + 1, k, at));
                    } else {
                        assert(before.contains_key(k));
                        let i = choose|i: int| stands_for(all, at, k, i) && before[k] == all[i];
                        assert(stands_for(all, at + 1, k, i));
                    }
                }
                assert forall|k: Seq<char>| registry@.contains_key(k) implies exists|i: int|
                    0 <= i < at + 1 && (#[trigger] all[i]).config_view().name == k by {
                    let i = choose|i: int| stands_for(all, at + 1, k, i) && registry@[k] == all[i];
                    assert(all[i].config_view().name == k);
                }
                assert forall|k: Seq<char>|
                    (exists|i: int|
                        0 <= i < at + 1 && (#[trigger] all[i]).config_view().name
                            == k) implies registry@.contains_key(k) by {
                    let i = choose|i: int|
                        0 <= i < at + 1 && (#[trigger] all[i]).config_view().name == k;
                    if i < at {
                        assert(before.contains_key(k));
                    }
                }
            }
        }
        proof {
            assert(all.take(all.len() as int) =~= all);
        }
        registry
    }
}

/// The names that a sequence of agents declares, each once, in the order
/// in which they first occur.
pub open spec fn declared_names<A: Agent>(agents: Seq<A>) -> Seq<Seq<char>>
    decreases agents.len(),
{
    if agents.len() == 0 {
        Seq::empty()
    } else {
        let before = declared_names(agents.drop_last());
        let name = agents.last().config_view().name;
        if before.contains(name) {
            before
        } else {
            before.push(name)
        }
    }
}

/// A name is among the declared names exactly when some agent declares it.
pub proof fn lemma_declared_names<A: Agent>(agents: Seq<A>, name: Seq<char>)
    ensures
        declared_names(agents).contains(name) <==> exists|i: int|
            0 <= i < agents.len() && (#[trigger] agents[i]).config_view().name == name,
    decreases agents.len(),
{
    if agents.len() > 0 {
        let rest = agents.drop_last();
        let before = declared_names(rest);
        let last = agents.last().config_view().name;
        lemma_declared_names(rest, name);
        if declared_names(agents).contains(name) {
            if before.contains(name) {
                let i = choose|i: int|
                    0 <= i < rest.len() && (#[trigger] rest[i]).config_view().name == name;
                assert(agents[i].config_view().name == name);
            } else {
                let j = declared_names(agents).index_of(name);
                assert(declared_names(agents) == before.push(last));
                if j < before.len() {
                    assert(before[j] == name);
                    assert(before.contains(name));
                }
                assert(agents[agents.len() - 1].config_view().name == name);
            }
        }
        if exists|i: int| 0 <= i < agents.len() && (#[trigger] agents[i]).config_view().name == name {
            let i = choose|i: int|
                0 <= i < agents.len() && (#[trigger] agents[i]).config_view().name == name;
            if i < rest.len() {
                assert(rest[i].config_view().name == name);
                assert(before.contains(name));
                if !before.contains(last) {
                    let j = before.index_of(name);
                    assert(before.push(last)[j] == name);
                }
            } else {
                if !before.contains(last) {
                    assert(before.push(last)[before.len() as int] == name);
                }
            }
        }
    }
}

/// Whether, among the first `upto` of `agents`, the one at `i` is the last
/// that declares the name `k`.
pub open spec fn stands_for<A: Agent>(agents: Seq<A>, upto: int, k: Seq<char>, i: int) -> bool {
    &&& 0 <= i < upto <= agents.len()
    &&& agents[i].config_view().name == k
    &&& forall|j: int| i < j < upto ==> (#[trigger] agents[j]).config_view().name != k
}

/// What a lookup gives right after a registration: the agent just
/// registered under its name, and under every other name what was there
/// before, or nothing where nothing was.
pub proof fn lemma_lookup_after_register<A>(
    before: Map<Seq<char>, A>,
    name: Seq<char>,
    agent: A,
    asked: Seq<char>,
)
    ensures
        before.insert(name, agent).contains_key(name),
        before.insert(name, agent)[name] == agent,
        asked != name ==> before.insert(name, agent).contains_key(asked) == before.contains_key(
            asked,
        ),
        asked != name && before.contains_key(asked) ==> before.insert(name, agent)[asked]
            == before[asked],
        Map::<Seq<char>, A>::empty().contains_key(asked) == false,
{
}

/// The kinds of agent that come with the system.
#[derive(Debug, Clone, Copy, PartialEq, Eq, Structural)]
pub enum AgentKind {
    ProjectInit,
    Git,
    Greeter,
    Haiku,
    Browser,
}

/// The kind of agent that a name stands for.
pub open spec fn kind_named(name: Seq<char>) -> Option<AgentKind> {
    if name == "project-init"@ {
        Some(AgentKind::ProjectInit)
    } else if name == "git"@ {
        Some(AgentKind::Git)
    } else if name == "greeter"@ {
        Some(AgentKind::Greeter)
    } else if name == "haiku"@ {
        Some(AgentKind::Haiku)
    } else if name == "browser"@ {
        Some(AgentKind::Browser)
    } else {
        None
    }
}

/// Which kind of agent a configuration asks for, going by its name. A name
/// that stands for none fails with `NotFound`.
pub fn agent_kind(config: &AgentConfig) -> (r: Result<AgentKind, Error>)
    ensures
        match kind_named(config@.name) {
            Some(k) => r == Ok::<AgentKind, Error>(k),
            None => r matches Err(Error::NotFound(n)) && n@ == config@.name,
        },
{
    let name = config.name.as_str();
    if same_text(name, "project-init") {
        Ok(AgentKind::ProjectInit)
    } else if same_text(name, "git") {
        Ok(AgentKind::Git)
    } else if same_text(name, "greeter") {
        Ok(AgentKind::Greeter)
    } else if same_text(name, "haiku") {
        Ok(AgentKind::Haiku)
    } else if same_text(name, "browser") {
        Ok(AgentKind::Browser)
    } else {
        Err(Error::NotFound(config.name.clone()))
    }
}

/// A configuration with a name, a description and instructions, and nothing
/// else: no tools, no downstream agents, no personality, no state machine.
pub open spec fn plain_config(
    name: Seq<char>,
    public_description: Seq<char>,
    instructions: Seq<char>,
) -> AgentConfigView {
    AgentConfigView {
        name,
        public_description,
        instructions,
        tools: Seq::empty(),
        downstream_agents: Seq::empty(),
        personality: None,
        state_machine: None,
    }
}

/// Builds a plain configuration.
fn make_config(name: &str, public_description: &str, instructions: &str) -> (r: AgentConfig)
    ensures
        r@ == plain_config(name@, public_description@, instructions@),
{
    let r = AgentConfig {
        name: name.to_owned(),
        public_description: public_description.to_owned(),
        instructions: instructions.to_owned(),
        tools: Vec::new(),
        downstream_agents: Vec::new(),
        personality: None,
        state_machine: None,
    };
    assert(r.tools.deep_view() =~= Seq::empty());
    assert(r.downstream_agents.deep_view() =~= Seq::empty());
    r
}

/// The configurations of the agents that come with the system.
pub open spec fn default_agent_views() -> Seq<AgentConfigView> {
    seq![
        plain_config(
            "greeter"@,
            "Agent that greets the user."@,
            "Greet users and make them feel welcome."@,
        ),
        plain_config(
            "haiku"@,
            "Agent that creates haikus."@,
            "Create haikus based on user input."@,
        ),
        plain_config(
            "git"@,
            "Agent that helps with git operations."@,
            "Help users with git operations like commit, branch, merge etc."@,
        ),
        plain_config(
            "project-init"@,
            "Agent that helps initialize new projects."@,
            "Help users create new projects with proper structure and configuration."@,
        ),
        plain_config(
            "browser"@,
            "Agent that controls browser automation."@,
            "Help users with browser automation tasks."@,
        ),
    ]
}

/// The configurations of the agents that come with the system: greeter,
/// haiku, git, project-init and browser, in that order.
pub fn default_agents() -> (r: Vec<AgentConfig>)
    ensures
        r.deep_view() == default_agent_views(),
{
    let mut agents: Vec<AgentConfig> = Vec::new();
    agents.push(
        make_config("greeter", "Agent that greets the user.", "Greet users and make them feel welcome."),
    );
    agents.push(
        make_config("haiku", "Agent that creates haikus.", "Create haikus based on user input."),
    );
    agents.push(
        make_config(
            "git",
            "Agent that helps with git operations.",
            "Help users with git operations like commit, branch, merge etc.",
        ),
    );
    agents.push(
        make_config(
            "project-init",
            "Agent that helps initialize new projects.",
            "Help users create new projects with proper structure and configuration.",
        ),
    );
    agents.push(
        make_config(
            "browser",
            "Agent that controls browser automation.",
            "Help users with browser automation tasks.",
        ),
    );
    assert(agents.deep_view() =~= default_agent_views());
    agents
}

} // verus!
