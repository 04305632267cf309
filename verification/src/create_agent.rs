//! The decisions of the job that creates an agent: its identifier and
//! names, its ports, which template entries are copied, what its
//! environment file holds, and the result the job reports.

use crate::deploy_agent::{container_name, container_name_of};
use crate::ports::{derive_ports, http_port_for, AgentPortConfig, PortError};
use crate::probe::text_view;
use crate::service::ServiceContext;
use crate::text::{decimal, replace_all, replaced, same_text, to_decimal};
use crate::types::{AgentCreationResult, AgentMode, CreateAgentParams};
use vstd::prelude::*;
use vstd::string::*;

verus! {

/// Whether `c` is a decimal digit or one of the letters `a` to `f`.
pub open spec fn lower_hex(c: char) -> bool {
    ('0' <= c <= '9') || ('a' <= c <= 'f')
}

/// Whether `s` has the shape of a random identifier in its usual writing:
/// 36 characters, hyphens after the 8th, 12th, 16th and 20th digit, lower
/// case hexadecimal digits elsewhere, and the version digit `4`.
pub open spec fn is_uuid_text(s: Seq<char>) -> bool {
    &&& s.len() == 36
    &&& forall|i: int|
        0 <= i < 36 ==> if i == 8 || i == 13 || i == 18 || i == 23 {
            #[trigger] s[i] == '-'
        } else {
            lower_hex(s[i])
        }
    &&& s[14] == '4'
}

/// Calls `uuid::Uuid::new_v4` and writes the result with `to_string`. The
/// value is random, so only the shape of the text is promised: the
/// hyphenated lower-case form of a version 4 identifier.
#[verifier::external_body]
fn random_uuid_text() -> (r: String)
    ensures
        is_uuid_text(r@),
{
    uuid::Uuid::new_v4().to_string()
}

/// The place a new agent is given.
#[derive(Debug, PartialEq, Eq)]
pub struct AgentSlot {
    /// The agent's identifier.
    pub agent_id: String,
    /// The directory under which the agent's own directory is created.
    pub base_dir: String,
    /// The name of the agent's container and remote application.
    pub app_name: String,
}

/// Gives a new agent its place: a fresh random identifier, the directory to
/// create it under, and the name derived from the identifier.
pub fn allocate_agent(context: &ServiceContext) -> (r: AgentSlot)
    ensures
        is_uuid_text(r.agent_id@),
        r.base_dir@ == context.base_dir(),
        r.app_name@ == container_name_of(r.agent_id@),
{
    let agent_id = random_uuid_text();
    place_agent(agent_id, context)
}

/// The place of the agent with the given identifier.
pub fn place_agent(agent_id: String, context: &ServiceContext) -> (r: AgentSlot)
    ensures
        r.agent_id == agent_id,
        r.base_dir@ == context.base_dir(),
        r.app_name@ == container_name_of(agent_id@),
{
    let app_name = container_name(agent_id.as_str());
    AgentSlot { agent_id, base_dir: context.agents_dir(), app_name }
}

/// Derives the ports of a new agent and records them in the service's
/// registry, where it keeps one. Nothing is recorded when no pair can be
/// derived.
pub fn register_agent_ports(
    agent_id: &str,
    requested_http_port: Option<u16>,
    context: &mut ServiceContext,
) -> (r: Result<AgentPortConfig, PortError>)
    ensures
        final(context).call_id == old(context).call_id,
        final(context).agents_base_dir == old(context).agents_base_dir,
        final(context).tee_enabled == old(context).tee_enabled,
        final(context).phala_tee_api_endpoint == old(context).phala_tee_api_endpoint,
        final(context).phala_tee_api_key == old(context).phala_tee_api_key,
        http_port_for(requested_http_port) == u16::MAX ==> r == Err::<AgentPortConfig, PortError>(
            PortError::NoCompanionPort,
        ) && *final(context) == *old(context),
        http_port_for(requested_http_port) < u16::MAX ==> r == Ok::<AgentPortConfig, PortError>(
            (AgentPortConfig {
                http_port: http_port_for(requested_http_port),
                websocket_port: (http_port_for(requested_http_port) + 1) as u16,
            }),
        ),
        r matches Ok(ports) ==> match old(context).agent_ports {
            Some(before) => final(context).agent_ports matches Some(after) && after@
                == before@.insert(agent_id@, ports),
            None => final(context).agent_ports is None,
        },
{
    match derive_ports(requested_http_port) {
        Err(e) => Err(e),
        Ok(ports) => {
            match &mut context.agent_ports {
                Some(registry) => {
                    registry.set(String::from_str(agent_id), ports);
                },
                None => {},
            }
            Ok(ports)
        },
    }
}

/// Whether an entry of the starter template is left out of a new agent's
/// directory: the dependency tree and the package manager's cache.
pub fn skips_template_entry(file_name: &str) -> (r: bool)
    ensures
        r == (file_name@ == "node_modules"@ || file_name@ == ".yarn"@),
{
    same_text(file_name, "node_modules") || same_text(file_name, ".yarn")
}

/// The environment file of a new agent: the template with the placeholder
/// settings replaced, each wherever it occurs. The key and the port are
/// replaced only when given; the mode is written in lower case.
pub open spec fn rendered_env(
    template: Seq<char>,
    openai_api_key: Option<Seq<char>>,
    mode: AgentMode,
    model: Seq<char>,
    http_port: Option<u16>,
) -> Seq<char> {
    let with_key = match openai_api_key {
        Some(key) => replaced(
            template,
            "OPENAI_API_KEY=your_openai_api_key_here"@,
            "OPENAI_API_KEY="@ + key,
        ),
        None => template,
    };
    let with_mode = replaced(with_key, "AGENT_MODE=cli-chat"@, "AGENT_MODE="@ + mode.env_name());
    let with_model = replaced(with_mode, "# MODEL=gpt-4o-mini"@, "MODEL="@ + model);
    match http_port {
        Some(port) => replaced(
            with_model,
            "AGENT_PORT=3000"@,
            "AGENT_PORT="@ + decimal(port as nat),
        ),
        None => with_model,
    }
}

/// Writes the environment file of a new agent from the template's text.
pub fn create_env_file(params: &CreateAgentParams, template: &str) -> (r: String)
    ensures
        r@ == rendered_env(
            template@,
            text_view(params.api_key_config.openai_api_key),
            params.agent_config.mode,
            params.agent_config.model@,
            params.deployment_config.http_port,
        ),
{
    let with_key: String = match &params.api_key_config.openai_api_key {
        Some(key) => {
            let mut setting = String::from_str("OPENAI_API_KEY=");
            setting.append(key.as_str());
            replace_all(template, "OPENAI_API_KEY=your_openai_api_key_here", setting.as_str())
        },
        None => String::from_str(template),
    };
    let mut mode_setting = String::from_str("AGENT_MODE=");
    mode_setting.append(params.agent_config.mode.env_value());
    let with_mode = replace_all(with_key.as_str(), "AGENT_MODE=cli-chat", mode_setting.as_str());
    let mut model_setting = String::from_str("MODEL=");
    model_setting.append(params.agent_config.model.as_str());
    let with_model = replace_all(
        with_mode.as_str(),
        "# MODEL=gpt-4o-mini",
        model_setting.as_str(),
    );
    match params.deployment_config.http_port {
        Some(port) => {
            let mut port_setting = String::from_str("AGENT_PORT=");
            let digits = to_decimal(port as u64);
            port_setting.append(digits.as_str());
            replace_all(with_model.as_str(), "AGENT_PORT=3000", port_setting.as_str())
        },
        None => with_model,
    }
}

/// The key material the remote provider returns for a new agent.
#[derive(Debug, PartialEq, Eq)]
pub struct TeeKey {
    pub pubkey: String,
    pub app_id: String,
    pub salt: String,
}

/// The result the job reports: the identifier, the three files written, in
/// the order environment file, package manifest, compose file, and the key
/// material where the provider returned any.
pub fn creation_result(
    agent_id: String,
    env_path: String,
    package_path: String,
    compose_path: String,
    tee: Option<TeeKey>,
) -> (r: AgentCreationResult)
    ensures
        r.agent_id == agent_id,
        r.files_created@ == seq![env_path, package_path, compose_path],
        match tee {
            Some(key) => r.tee_pubkey == Some(key.pubkey) && r.tee_app_id == Some(key.app_id)
                && r.tee_salt == Some(key.salt),
            None => r.tee_pubkey is None && r.tee_app_id is None && r.tee_salt is None,
        },
{
    let mut files: Vec<String> = Vec::new();
    files.push(env_path);
    files.push(package_path);
    files.push(compose_path);
    assert(files@ =~= seq![env_path, package_path, compose_path]);
    match tee {
        Some(key) => AgentCreationResult {
            agent_id,
            files_created: files,
            tee_pubkey: Some(key.pubkey),
            tee_app_id: Some(key.app_id),
            tee_salt: Some(key.salt),
        },
        None => AgentCreationResult {
            agent_id,
            files_created: files,
            tee_pubkey: None,
            tee_app_id: None,
            tee_salt: None,
        },
    }
}

} // verus!
