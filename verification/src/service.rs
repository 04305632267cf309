//! What a job knows about the service it runs in.

use crate::ports::PortRegistry;
use vstd::prelude::*;
use vstd::string::*;

verus! {

/// The directory agents are kept under when none is configured.
pub open spec fn default_agents_dir() -> Seq<char> {
    "./agents"@
}

/// Settings and shared state handed to every job.
#[derive(Debug, PartialEq, Eq)]
pub struct ServiceContext {
    /// Identifier of the call being served, when there is one.
    pub call_id: Option<u64>,
    /// Directory under which every agent gets its own directory.
    pub agents_base_dir: Option<String>,
    /// Whether agents are deployed to the remote provider.
    pub tee_enabled: Option<bool>,
    /// Base URL of the remote provider's API.
    pub phala_tee_api_endpoint: Option<String>,
    /// Credential for the remote provider's API.
    pub phala_tee_api_key: Option<String>,
    /// Port pairs of the agents created so far.
    pub agent_ports: Option<PortRegistry>,
}

impl ServiceContext {
    /// The directory agents are kept under.
    pub open spec fn base_dir(&self) -> Seq<char> {
        match self.agents_base_dir {
            Some(dir) => dir@,
            None => default_agents_dir(),
        }
    }

    /// The directory agents are kept under: the configured one, or
    /// `./agents`.
    pub fn agents_dir(&self) -> (r: String)
        ensures
            r@ == self.base_dir(),
    {
        match &self.agents_base_dir {
            Some(dir) => dir.clone(),
            None => String::from_str("./agents"),
        }
    }
}

} // verus!
