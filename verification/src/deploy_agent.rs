//! The decisions of the job that deploys an agent: which kind of deployment
//! to run, what each kind needs before it can start, what the local
//! container's environment file holds, and what a health verdict means for
//! the job.

use crate::agent_endpoint::{unhealthy_message, unhealthy_text, DeploymentType};
use crate::poller::PollVerdict;
use crate::probe::text_view;
use crate::service::ServiceContext;
use crate::text::{blank, copy_text, decimal, is_blank, to_decimal};
use crate::types::{AgentDeploymentResult, ApiKeyConfig, DeployAgentParams};
use vstd::prelude::*;
use vstd::string::*;

verus! {

/// Why no environment file could be written for a local container.
#[derive(Clone, Copy, Debug, PartialEq, Eq, Structural)]
pub enum EnvContentError {
    /// The job carries no credentials at all.
    MissingApiKeyConfig,
    /// No OpenAI key in the job or in the process environment.
    MissingOpenAiKey,
    /// No CDP key name in the job or in the process environment.
    MissingCdpKeyName,
    /// No CDP private key in the job or in the process environment.
    MissingCdpPrivateKey,
    /// The CDP key name holds nothing but white space.
    EmptyCdpKeyName,
    /// The CDP private key holds nothing but white space.
    EmptyCdpPrivateKey,
}

/// Why a deployment cannot go ahead, or did not succeed.
#[derive(Debug, PartialEq, Eq)]
pub enum DeployError {
    /// The service has no credential for the remote provider.
    MissingTeeApiKey,
    /// The service does not know the remote provider's API.
    MissingTeeApiEndpoint,
    /// The job carries no encrypted environment.
    MissingEncryptedEnv,
    /// The job lacks the public key, salt or application identifier that
    /// creating the agent returned.
    MissingTeeKeyMaterial,
    /// The agent was never given ports.
    NoPortConfiguration { agent_id: String },
    /// The agent did not become healthy and the caller treats that as fatal.
    Unhealthy { reason: String },
}

/// The values the process environment holds for the three credentials.
#[derive(Debug, PartialEq, Eq)]
pub struct EnvFallback {
    pub openai_api_key: Option<String>,
    pub cdp_api_key_name: Option<String>,
    pub cdp_api_key_private_key: Option<String>,
}

/// The credentials for the remote provider.
#[derive(Debug, PartialEq, Eq)]
pub struct TeeCredentials {
    pub api_key: String,
    pub api_endpoint: String,
}

/// What is submitted to the remote provider for one agent.
#[derive(Debug, PartialEq, Eq)]
pub struct TeeSubmission {
    /// Name of the application to create.
    pub app_name: String,
    /// Number of virtual CPUs.
    pub vcpu: u64,
    /// Memory in megabytes.
    pub memory_mb: u64,
    /// Disk size in gigabytes.
    pub disk_gb: u64,
    /// The environment, already encrypted for the instance.
    pub encrypted_env: String,
    /// The key the environment was encrypted for.
    pub tee_pubkey: String,
    /// The application identifier that belongs to the key.
    pub tee_app_id: String,
    /// The salt that belongs to the key.
    pub tee_salt: String,
}

/// How a deployment ended for the caller.
#[derive(Debug, PartialEq, Eq)]
pub enum DeploymentStatus {
    /// The agent answered its health check.
    Healthy,
    /// The agent was started but never answered; the caller chose to go on.
    StartedUnverified { attempts_made: u32 },
}

pub const TEE_VCPU: u64 = 2;

pub const TEE_MEMORY_MB: u64 = 2048;

pub const TEE_DISK_GB: u64 = 10;

/// The kind of deployment a service setting selects: remote only when it is
/// switched on.
pub fn select_deployment(tee_enabled: Option<bool>) -> (r: DeploymentType)
    ensures
        r == if tee_enabled == Some(true) {
            DeploymentType::Tee
        } else {
            DeploymentType::Local
        },
{
    match tee_enabled {
        Some(true) => DeploymentType::Tee,
        _ => DeploymentType::Local,
    }
}

/// The name of the container, and of the remote application, of an agent.
pub open spec fn container_name_of(agent_id: Seq<char>) -> Seq<char> {
    "coinbase-agent-"@ + agent_id
}

/// The name of the container, and of the remote application, of an agent.
pub fn container_name(agent_id: &str) -> (r: String)
    ensures
        r@ == container_name_of(agent_id@),
{
    let mut name = String::from_str("coinbase-agent-");
    name.append(agent_id);
    name
}

/// The ports registered for an agent, HTTP first. An error where the
/// service keeps no registry or the registry does not hold the agent.
pub fn get_required_ports(agent_id: &str, context: &ServiceContext) -> (r: Result<
    (u16, u16),
    DeployError,
>)
    ensures
        match context.agent_ports {
            Some(registry) if registry@.contains_key(agent_id@) => r == Ok::<
                (u16, u16),
                DeployError,
            >((registry@[agent_id@].http_port, registry@[agent_id@].websocket_port)),
            _ => r matches Err(DeployError::NoPortConfiguration { agent_id: id }) && id@
                == agent_id@,
        },
{
    match &context.agent_ports {
        Some(registry) => match registry.get(agent_id) {
            Some(ports) => Ok((ports.http_port, ports.websocket_port)),
            None => Err(DeployError::NoPortConfiguration { agent_id: String::from_str(agent_id) }),
        },
        None => Err(DeployError::NoPortConfiguration { agent_id: String::from_str(agent_id) }),
    }
}

/// A credential as the job gives it, or else as the environment holds it.
pub open spec fn resolved(configured: Option<String>, fallback: Option<String>) -> Option<
    Seq<char>,
> {
    match configured {
        Some(v) => Some(v@),
        None => text_view(fallback),
    }
}

/// A credential as the job gives it, or else as the environment holds it.
pub fn resolve(configured: &Option<String>, fallback: &Option<String>) -> (r: Option<String>)
    ensures
        text_view(r) == resolved(*configured, *fallback),
{
    match configured {
        Some(v) => Some(v.clone()),
        None => match fallback {
            Some(v) => Some(v.clone()),
            None => None,
        },
    }
}

/// The environment file of a local container.
pub open spec fn env_content(
    port: u16,
    websocket_port: u16,
    container_name: Seq<char>,
    openai_api_key: Seq<char>,
    cdp_api_key_name: Seq<char>,
    cdp_api_key_private_key: Seq<char>,
) -> Seq<char> {
    "PORT="@ + decimal(port as nat) + "\nWEBSOCKET_PORT="@ + decimal(websocket_port as nat)
        + "\nCONTAINER_NAME="@ + container_name
        + "\nNODE_ENV=development\nAGENT_MODE=http\nMODEL=gpt-4o-mini\nLOG_LEVEL=debug\nWEBSOCKET_URL=ws://localhost:"@
        + decimal(websocket_port as nat) + "\nOPENAI_API_KEY="@ + openai_api_key
        + "\nCDP_API_KEY_NAME="@ + cdp_api_key_name + "\nCDP_API_KEY_PRIVATE_KEY="@
        + cdp_api_key_private_key + "\n"@
}

/// What writing the environment file comes to: the first missing or blank
/// credential as an error, the file's text otherwise.
pub open spec fn env_content_outcome(
    port: u16,
    websocket_port: u16,
    container_name: Seq<char>,
    api_key_config: Option<ApiKeyConfig>,
    fallback: EnvFallback,
) -> Result<Seq<char>, EnvContentError> {
    match api_key_config {
        None => Err(EnvContentError::MissingApiKeyConfig),
        Some(config) => {
            let openai = resolved(config.openai_api_key, fallback.openai_api_key);
            let name = resolved(config.cdp_api_key_name, fallback.cdp_api_key_name);
            let key = resolved(config.cdp_api_key_private_key, fallback.cdp_api_key_private_key);
            if openai is None {
                Err(EnvContentError::MissingOpenAiKey)
            } else if name is None {
                Err(EnvContentError::MissingCdpKeyName)
            } else if key is None {
                Err(EnvContentError::MissingCdpPrivateKey)
            } else if blank(name->Some_0) {
                Err(EnvContentError::EmptyCdpKeyName)
            } else if blank(key->Some_0) {
                Err(EnvContentError::EmptyCdpPrivateKey)
            } else {
                Ok(
                    env_content(
                        port,
                        websocket_port,
                        container_name,
                        openai->Some_0,
                        name->Some_0,
                        key->Some_0,
                    ),
                )
            }
        },
    }
}

/// The view of the result of writing an environment file.
pub open spec fn content_view(r: Result<String, EnvContentError>) -> Result<
    Seq<char>,
    EnvContentError,
> {
    match r {
        Ok(text) => Ok(text@),
        Err(e) => Err(e),
    }
}

/// Writes the environment file of a local container. Each credential is
/// taken from the job, or else from `fallback`.
pub fn create_env_content(
    port: u16,
    websocket_port: u16,
    container_name: &str,
    params: &DeployAgentParams,
    fallback: &EnvFallback,
) -> (r: Result<String, EnvContentError>)
    ensures
        content_view(r) == env_content_outcome(
            port,
            websocket_port,
            container_name@,
            params.api_key_config,
            *fallback,
        ),
{
    let config = match &params.api_key_config {
        Some(c) => c,
        None => {
            return Err(EnvContentError::MissingApiKeyConfig);
        },
    };
    let openai = match resolve(&config.openai_api_key, &fallback.openai_api_key) {
        Some(v) => v,
        None => {
            return Err(EnvContentError::MissingOpenAiKey);
        },
    };
    let name = match resolve(&config.cdp_api_key_name, &fallback.cdp_api_key_name) {
        Some(v) => v,
        None => {
            return Err(EnvContentError::MissingCdpKeyName);
        },
    };
    let key = match resolve(&config.cdp_api_key_private_key, &fallback.cdp_api_key_private_key) {
        Some(v) => v,
        None => {
            return Err(EnvContentError::MissingCdpPrivateKey);
        },
    };
    if is_blank(name.as_str()) {
        return Err(EnvContentError::EmptyCdpKeyName);
    }
    if is_blank(key.as_str()) {
        return Err(EnvContentError::EmptyCdpPrivateKey);
    }
    let port_text = to_decimal(port as u64);
    let websocket_text = to_decimal(websocket_port as u64);
    let mut text = String::from_str("PORT=");
    text.append(port_text.as_str());
    text.append("\nWEBSOCKET_PORT=");
    text.append(websocket_text.as_str());
    text.append("\nCONTAINER_NAME=");
    text.append(container_name);
    text.append(
        "\nNODE_ENV=development\nAGENT_MODE=http\nMODEL=gpt-4o-mini\nLOG_LEVEL=debug\nWEBSOCKET_URL=ws://localhost:",
    );
    text.append(websocket_text.as_str());
    text.append("\nOPENAI_API_KEY=");
    text.append(openai.as_str());
    text.append("\nCDP_API_KEY_NAME=");
    text.append(name.as_str());
    text.append("\nCDP_API_KEY_PRIVATE_KEY=");
    text.append(key.as_str());
    text.append("\n");
    Ok(text)
}

/// The credentials for the remote provider, the key checked first.
pub fn tee_credentials(context: &ServiceContext) -> (r: Result<TeeCredentials, DeployError>)
    ensures
        context.phala_tee_api_key is None ==> r == Err::<TeeCredentials, DeployError>(
            DeployError::MissingTeeApiKey,
        ),
        context.phala_tee_api_key is Some && context.phala_tee_api_endpoint is None ==> r == Err::<
            TeeCredentials,
            DeployError,
        >(DeployError::MissingTeeApiEndpoint),
        context.phala_tee_api_key is Some && context.phala_tee_api_endpoint is Some ==> r == Ok::<
            TeeCredentials,
            DeployError,
        >(
            (TeeCredentials {
                api_key: context.phala_tee_api_key->Some_0,
                api_endpoint: context.phala_tee_api_endpoint->Some_0,
            }),
        ),
{
    match &context.phala_tee_api_key {
        None => Err(DeployError::MissingTeeApiKey),
        Some(key) => match &context.phala_tee_api_endpoint {
            None => Err(DeployError::MissingTeeApiEndpoint),
            Some(endpoint) => Ok(
                TeeCredentials { api_key: key.clone(), api_endpoint: endpoint.clone() },
            ),
        },
    }
}

/// What a remote deployment submits for the agent of `params`: an
/// application named after the agent, on two virtual CPUs with 2048 MB of
/// memory and 10 GB of disk, with the job's encrypted environment and key
/// material. The encrypted environment is checked first.
pub fn tee_submission(params: &DeployAgentParams) -> (r: Result<TeeSubmission, DeployError>)
    ensures
        params.encrypted_env is None ==> r == Err::<TeeSubmission, DeployError>(
            DeployError::MissingEncryptedEnv,
        ),
        params.encrypted_env is Some && (params.tee_pubkey is None || params.tee_salt is None
            || params.tee_app_id is None) ==> r == Err::<TeeSubmission, DeployError>(
            DeployError::MissingTeeKeyMaterial,
        ),
        params.encrypted_env is Some && params.tee_pubkey is Some && params.tee_salt is Some
            && params.tee_app_id is Some ==> (r matches Ok(s) && {
            &&& s.app_name@ == container_name_of(params.agent_id@)
            &&& s.vcpu == TEE_VCPU
            &&& s.memory_mb == TEE_MEMORY_MB
            &&& s.disk_gb == TEE_DISK_GB
            &&& s.encrypted_env == params.encrypted_env->Some_0
            &&& s.tee_pubkey == params.tee_pubkey->Some_0
            &&& s.tee_app_id == params.tee_app_id->Some_0
            &&& s.tee_salt == params.tee_salt->Some_0
        }),
{
    let encrypted_env = match &params.encrypted_env {
        Some(v) => v.clone(),
        None => {
            return Err(DeployError::MissingEncryptedEnv);
        },
    };
    match (&params.tee_pubkey, &params.tee_salt, &params.tee_app_id) {
        (Some(pubkey), Some(salt), Some(app_id)) => Ok(
            TeeSubmission {
                app_name: container_name(params.agent_id.as_str()),
                vcpu: TEE_VCPU,
                memory_mb: TEE_MEMORY_MB,
                disk_gb: TEE_DISK_GB,
                encrypted_env,
                tee_pubkey: pubkey.clone(),
                tee_app_id: app_id.clone(),
                tee_salt: salt.clone(),
            },
        ),
        _ => Err(DeployError::MissingTeeKeyMaterial),
    }
}

/// What a health verdict means for the deployment. A ready agent is
/// healthy. A failed wait is an error when the caller treats it as fatal,
/// and otherwise leaves the deployment started but unverified.
pub fn settle_deployment(verdict: &PollVerdict, fail_deployment_on_unhealthy: bool) -> (r: Result<
    DeploymentStatus,
    DeployError,
>)
    ensures
        *verdict is Ready ==> r == Ok::<DeploymentStatus, DeployError>(DeploymentStatus::Healthy),
        *verdict matches PollVerdict::Failed { attempts_made, .. } ==> if fail_deployment_on_unhealthy {
            r matches Err(DeployError::Unhealthy { reason }) && reason@ == unhealthy_text(
                attempts_made,
            )
        } else {
            r == Ok::<DeploymentStatus, DeployError>(
                DeploymentStatus::StartedUnverified { attempts_made },
            )
        },
{
    match verdict {
        PollVerdict::Ready => Ok(DeploymentStatus::Healthy),
        PollVerdict::Failed { attempts_made, .. } => {
            if fail_deployment_on_unhealthy {
                Err(DeployError::Unhealthy { reason: unhealthy_message(*attempts_made) })
            } else {
                Ok(DeploymentStatus::StartedUnverified { attempts_made: *attempts_made })
            }
        },
    }
}

/// The result the job reports for a deployment of the given kind: the key
/// material is reported for a remote deployment only.
pub fn deployment_result(kind: DeploymentType, params: &DeployAgentParams) -> (r:
    AgentDeploymentResult)
    ensures
        r.agent_id == params.agent_id,
        kind == DeploymentType::Local ==> r.tee_pubkey is None && r.tee_app_id is None,
        kind == DeploymentType::Tee ==> r.tee_pubkey == params.tee_pubkey && r.tee_app_id
            == params.tee_app_id,
{
    match kind {
        DeploymentType::Local => AgentDeploymentResult {
            agent_id: params.agent_id.clone(),
            tee_pubkey: None,
            tee_app_id: None,
        },
        DeploymentType::Tee => AgentDeploymentResult {
            agent_id: params.agent_id.clone(),
            tee_pubkey: copy_text(&params.tee_pubkey),
            tee_app_id: copy_text(&params.tee_app_id),
        },
    }
}

impl EnvContentError {
    /// The text of the error.
    pub open spec fn text(&self) -> Seq<char> {
        match *self {
            EnvContentError::MissingApiKeyConfig => "API key configuration is required"@,
            EnvContentError::MissingOpenAiKey => "OPENAI_API_KEY not found in config or environment"@,
            EnvContentError::MissingCdpKeyName => "CDP_API_KEY_NAME not found in config or environment"@,
            EnvContentError::MissingCdpPrivateKey => "CDP_API_KEY_PRIVATE_KEY not found in config or environment"@,
            EnvContentError::EmptyCdpKeyName => "CDP_API_KEY_NAME is empty"@,
            EnvContentError::EmptyCdpPrivateKey => "CDP_API_KEY_PRIVATE_KEY is empty"@,
        }
    }

    /// The text of the error.
    pub fn message(&self) -> (r: &'static str)
        ensures
            r@ == self.text(),
    {
        match self {
            EnvContentError::MissingApiKeyConfig => "API key configuration is required",
            EnvContentError::MissingOpenAiKey => "OPENAI_API_KEY not found in config or environment",
            EnvContentError::MissingCdpKeyName => "CDP_API_KEY_NAME not found in config or environment",
            EnvContentError::MissingCdpPrivateKey => "CDP_API_KEY_PRIVATE_KEY not found in config or environment",
            EnvContentError::EmptyCdpKeyName => "CDP_API_KEY_NAME is empty",
            EnvContentError::EmptyCdpPrivateKey => "CDP_API_KEY_PRIVATE_KEY is empty",
        }
    }
}

impl DeployError {
    /// The text of the error.
    pub open spec fn text(&self) -> Seq<char> {
        match *self {
            DeployError::MissingTeeApiKey => "PHALA_CLOUD_API_KEY not set"@,
            DeployError::MissingTeeApiEndpoint => "PHALA_CLOUD_API_ENDPOINT not set"@,
            DeployError::MissingEncryptedEnv => "No encrypted environment variables provided for TEE deployment"@,
            DeployError::MissingTeeKeyMaterial => "TEE public key, salt or application identifier missing"@,
            DeployError::NoPortConfiguration { agent_id } => "No port configuration found for agent "@
                + agent_id@,
            DeployError::Unhealthy { reason } => "Deployment failed: "@ + reason@,
        }
    }

    /// The text of the error.
    pub fn message(&self) -> (r: String)
        ensures
            r@ == self.text(),
    {
        match self {
            DeployError::MissingTeeApiKey => String::from_str("PHALA_CLOUD_API_KEY not set"),
            DeployError::MissingTeeApiEndpoint => String::from_str(
                "PHALA_CLOUD_API_ENDPOINT not set",
            ),
            DeployError::MissingEncryptedEnv => String::from_str(
                "No encrypted environment variables provided for TEE deployment",
            ),
            DeployError::MissingTeeKeyMaterial => String::from_str(
                "TEE public key, salt or application identifier missing",
            ),
            DeployError::NoPortConfiguration { agent_id } => {
                let mut text = String::from_str("No port configuration found for agent ");
                text.append(agent_id.as_str());
                text
            },
            DeployError::Unhealthy { reason } => {
                let mut text = String::from_str("Deployment failed: ");
                text.append(reason.as_str());
                text
            },
        }
    }
}

} // verus!
