//! Parameters and results of the two jobs: creating an agent and deploying
//! one.

use crate::text::{copy_text, copy_texts};
use vstd::prelude::*;
use vstd::string::*;

verus! {

/// How an agent decides when to act.
#[derive(Clone, Copy, Debug, PartialEq, Eq, Structural)]
pub enum AgentMode {
    /// Acts on its own schedule.
    Autonomous,
    /// Answers messages.
    Chat,
}

impl AgentMode {
    /// The name of the mode as written in reports.
    pub open spec fn name(&self) -> Seq<char> {
        match *self {
            AgentMode::Autonomous => "Autonomous"@,
            AgentMode::Chat => "Chat"@,
        }
    }

    /// The name of the mode as written in environment files.
    pub open spec fn env_name(&self) -> Seq<char> {
        match *self {
            AgentMode::Autonomous => "autonomous"@,
            AgentMode::Chat => "chat"@,
        }
    }

    /// The name of the mode as written in reports.
    pub fn to_string(&self) -> (r: String)
        ensures
            r@ == self.name(),
    {
        match self {
            AgentMode::Autonomous => String::from_str("Autonomous"),
            AgentMode::Chat => String::from_str("Chat"),
        }
    }

    /// The name of the mode in lower case, as environment files carry it.
    pub fn env_value(&self) -> (r: &'static str)
        ensures
            r@ == self.env_name(),
    {
        match self {
            AgentMode::Autonomous => "autonomous",
            AgentMode::Chat => "chat",
        }
    }
}

/// What kind of agent to create.
#[derive(Debug, PartialEq, Eq)]
pub struct AgentConfig {
    pub mode: AgentMode,
    pub model: String,
}

/// Where and how an agent is to run.
#[derive(Debug, PartialEq, Eq)]
pub struct DeploymentConfig {
    pub tee_enabled: bool,
    pub docker_compose_path: Option<String>,
    pub http_port: Option<u16>,
}

/// Credentials an agent needs at run time.
#[derive(Debug, PartialEq, Eq)]
pub struct ApiKeyConfig {
    pub openai_api_key: Option<String>,
    pub cdp_api_key_name: Option<String>,
    pub cdp_api_key_private_key: Option<String>,
}

/// Parameters of the job that creates an agent.
#[derive(Debug, PartialEq, Eq)]
pub struct CreateAgentParams {
    pub name: String,
    pub agent_config: AgentConfig,
    pub deployment_config: DeploymentConfig,
    pub api_key_config: ApiKeyConfig,
}

/// Parameters of the job that deploys an agent.
#[derive(Debug, PartialEq, Eq)]
pub struct DeployAgentParams {
    pub agent_id: String,
    pub api_key_config: Option<ApiKeyConfig>,
    pub encrypted_env: Option<String>,
    pub tee_pubkey: Option<String>,
    pub tee_app_id: Option<String>,
    pub tee_salt: Option<String>,
}

/// Result of the job that creates an agent.
#[derive(Debug, PartialEq, Eq)]
pub struct AgentCreationResult {
    pub agent_id: String,
    pub files_created: Vec<String>,
    pub tee_pubkey: Option<String>,
    pub tee_app_id: Option<String>,
    pub tee_salt: Option<String>,
}

/// Result of the job that deploys an agent.
#[derive(Debug, PartialEq, Eq)]
pub struct AgentDeploymentResult {
    pub agent_id: String,
    pub tee_pubkey: Option<String>,
    pub tee_app_id: Option<String>,
}

impl Clone for AgentConfig {
    fn clone(&self) -> (r: Self)
        ensures
            r == *self,
    {
        AgentConfig { mode: self.mode, model: self.model.clone() }
    }
}

impl Clone for DeploymentConfig {
    fn clone(&self) -> (r: Self)
        ensures
            r == *self,
    {
        DeploymentConfig {
            tee_enabled: self.tee_enabled,
            docker_compose_path: copy_text(&self.docker_compose_path),
            http_port: self.http_port,
        }
    }
}

impl Clone for ApiKeyConfig {
    fn clone(&self) -> (r: Self)
        ensures
            r == *self,
    {
        ApiKeyConfig {
            openai_api_key: copy_text(&self.openai_api_key),
            cdp_api_key_name: copy_text(&self.cdp_api_key_name),
            cdp_api_key_private_key: copy_text(&self.cdp_api_key_private_key),
        }
    }
}

impl Clone for CreateAgentParams {
    fn clone(&self) -> (r: Self)
        ensures
            r == *self,
    {
        CreateAgentParams {
            name: self.name.clone(),
            agent_config: self.agent_config.clone(),
            deployment_config: self.deployment_config.clone(),
            api_key_config: self.api_key_config.clone(),
        }
    }
}

impl Clone for DeployAgentParams {
    fn clone(&self) -> (r: Self)
        ensures
            r == *self,
    {
        DeployAgentParams {
            agent_id: self.agent_id.clone(),
            api_key_config: match &self.api_key_config {
                Some(config) => Some(config.clone()),
                None => None,
            },
            encrypted_env: copy_text(&self.encrypted_env),
            tee_pubkey: copy_text(&self.tee_pubkey),
            tee_app_id: copy_text(&self.tee_app_id),
            tee_salt: copy_text(&self.tee_salt),
        }
    }
}

impl Clone for AgentCreationResult {
    fn clone(&self) -> (r: Self)
        ensures
            r.agent_id == self.agent_id,
            r.files_created@ == self.files_created@,
            r.tee_pubkey == self.tee_pubkey,
            r.tee_app_id == self.tee_app_id,
            r.tee_salt == self.tee_salt,
    {
        AgentCreationResult {
            agent_id: self.agent_id.clone(),
            files_created: copy_texts(&self.files_created),
            tee_pubkey: copy_text(&self.tee_pubkey),
            tee_app_id: copy_text(&self.tee_app_id),
            tee_salt: copy_text(&self.tee_salt),
        }
    }
}

impl Clone for AgentDeploymentResult {
    fn clone(&self) -> (r: Self)
        ensures
            r == *self,
    {
        AgentDeploymentResult {
            agent_id: self.agent_id.clone(),
            tee_pubkey: copy_text(&self.tee_pubkey),
            tee_app_id: copy_text(&self.tee_app_id),
        }
    }
}

} // verus!
