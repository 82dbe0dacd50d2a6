//! The browser agent's configuration holder. Driving a browser is left to
//! the caller.

use vstd::prelude::*;
use crate::types::{AgentConfig, AgentConfigView};

verus! {

/// The browser agent: what it is configured with.
pub struct BrowserAgentWrapper {
    config: AgentConfig,
}

impl BrowserAgentWrapper {
    /// The agent's configuration.
    pub closed spec fn config(&self) -> AgentConfigView {
        self.config@
    }

    /// A browser agent with this configuration.
    pub fn new(config: AgentConfig) -> (r: Self)
        ensures
            r.config() == config@,
    {
        Self { config }
    }

    /// The instructions that the browser is driven by.
    pub fn instructions(&self) -> (r: &str)
        ensures
            r@ == self.config().instructions,
    {
        self.config.instructions.as_str()
    }

    /// A copy of the agent's configuration.
    pub fn get_config(&self) -> (r: AgentConfig)
        ensures
            r@ == self.config(),
    {
        self.config.clone()
    }
}

} // verus!
