//! Provisioning and deployment rules for containerised agents, with the
//! readiness poller that decides when a freshly launched agent is usable.
//!
//! Nothing in this crate sleeps, sends a request or starts a process:
//! callers do that, and hand what they observed back to the rules here.

pub mod agent_endpoint;
pub mod backoff;
pub mod create_agent;
pub mod deploy_agent;
pub mod docker;
pub mod helpers;
pub mod poller;
pub mod ports;
pub mod probe;
pub mod service;
pub mod text;
pub mod types;

pub use create_agent::create_env_file;
pub use deploy_agent::{create_env_content, get_required_ports};
pub use helpers::check_agent_health;
pub use ports::AgentPortConfig;
pub use service::ServiceContext;
pub use types::{
    AgentConfig, AgentCreationResult, AgentDeploymentResult, AgentMode, ApiKeyConfig,
    CreateAgentParams, DeployAgentParams, DeploymentConfig,
};
