//! The agent's static configuration and the command line's options. The
//! configuration carries nothing today; it exists so that the process can
//! accept and ignore a configuration text.

use vstd::prelude::*;

verus! {

/// The agent's static configuration. Every configuration text parses to
/// the same empty configuration; no behaviour depends on it.
#[derive(Debug, Clone, Copy, PartialEq, Eq, Structural)]
pub struct AgentConfig {}

impl Default for AgentConfig {
    fn default() -> (r: Self)
        ensures
            r == (AgentConfig {  }),
    {
        AgentConfig {  }
    }
}

impl<'a> From<&'a str> for AgentConfig {
    fn from(_s: &'a str) -> (r: Self) {
        AgentConfig {  }
    }
}

impl<'a> vstd::std_specs::convert::FromSpecImpl<&'a str> for AgentConfig {
    open spec fn obeys_from_spec() -> bool {
        true
    }

    open spec fn from_spec(s: &'a str) -> Self {
        AgentConfig {  }
    }
}

/// The command line's options: an optional JSON configuration text.
pub struct Args {
    pub config: Option<String>,
}

impl Args {
    /// The configuration the arguments ask for; with or without a text it
    /// is the empty one.
    pub fn agent_config(&self) -> (r: AgentConfig)
        ensures
            r == (AgentConfig {  }),
    {
        match &self.config {
            Some(s) => AgentConfig::from(s.as_str()),
            None => AgentConfig::default(),
        }
    }
}

} // verus!
