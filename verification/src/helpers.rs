//! Health checking of a freshly started agent: the policy each kind of
//! deployment is polled under, the address its TCP reachability is tested
//! at, and the small decisions the check takes along the way.

use crate::agent_endpoint::{AgentEndpoint, DeploymentType, HealthWait};
use crate::backoff::PollPolicy;
use crate::poller::initial_state;
use crate::probe::{is_success_status, success_status, text_view};
use crate::text::{
    contains, decimal, find, occurs, occurs_at, same_text, to_decimal, trim, trimmed,
};
use vstd::prelude::*;
use vstd::string::*;

verus! {

/// The port a URL without an explicit port is reached at.
pub const DEFAULT_TCP_PORT: u16 = 80;

/// The parts of a parsed URL that the health check reads.
#[derive(Debug, PartialEq, Eq)]
pub struct UrlParts {
    /// The host, where the URL has one.
    pub host: Option<String>,
    /// The port, where the URL names one that is not its scheme's default.
    pub port: Option<u16>,
}

/// Why an endpoint cannot be health checked.
#[derive(Debug, PartialEq, Eq)]
pub enum EndpointError {
    /// The endpoint is not an absolute URL. `reason` is the parser's text.
    InvalidUrl { reason: String },
    /// The URL has no host to connect to.
    NoHost,
}

/// The text of the parser's error for `input`, or `None` where `input`
/// parses as an absolute URL.
pub uninterp spec fn url_parse_failure(input: Seq<char>) -> Option<Seq<char>>;

/// The host of the URL that `input` parses to, if it has one.
pub uninterp spec fn url_host(input: Seq<char>) -> Option<Seq<char>>;

/// The explicit port of the URL that `input` parses to, if it has one.
pub uninterp spec fn url_port(input: Seq<char>) -> Option<u16>;

/// Runs `url::Url::parse` on the input and reads `host_str` and `port` off
/// the result; a parse error is returned as its display text. The parser
/// reads nothing but its argument, so all three are fixed functions of the
/// input; the URL grammar itself is not spelled out here.
#[verifier::external_body]
fn split_url(input: &str) -> (r: Result<UrlParts, String>)
    ensures
        r matches Ok(parts) ==> url_parse_failure(input@) is None && text_view(parts.host)
            == url_host(input@) && parts.port == url_port(input@),
        r matches Err(reason) ==> url_parse_failure(input@) == Some(reason@),
{
    match url::Url::parse(input) {
        Ok(parsed) => Ok(
            UrlParts { host: parsed.host_str().map(|h| h.to_string()), port: parsed.port() },
        ),
        Err(e) => Err(e.to_string()),
    }
}

/// The `host:port` address of a URL with the given parts, port 80 standing
/// in where the URL names none.
pub open spec fn address_of(host: Seq<char>, port: Option<u16>) -> Seq<char> {
    host + ":"@ + decimal(
        match port {
            Some(p) => p as nat,
            None => DEFAULT_TCP_PORT as nat,
        },
    )
}

/// The address to test TCP reachability at, from the parts of a parsed URL.
pub fn tcp_address_of(parts: &UrlParts) -> (r: Result<String, EndpointError>)
    ensures
        parts.host is None ==> r == Err::<String, EndpointError>(EndpointError::NoHost),
        parts.host matches Some(h) ==> r matches Ok(address) && address@ == address_of(
            h@,
            parts.port,
        ),
{
    match &parts.host {
        None => Err(EndpointError::NoHost),
        Some(h) => {
            let port: u16 = match parts.port {
                Some(p) => p,
                None => DEFAULT_TCP_PORT,
            };
            let mut address = h.clone();
            address.append(":");
            let digits = to_decimal(port as u64);
            address.append(digits.as_str());
            Ok(address)
        },
    }
}

/// The address to test TCP reachability at for `endpoint`: an error where
/// the endpoint does not parse or has no host, the host and port otherwise.
pub fn tcp_address(endpoint: &str) -> (r: Result<String, EndpointError>)
    ensures
        url_parse_failure(endpoint@) matches Some(reason) ==> r matches Err(
            EndpointError::InvalidUrl { reason: text },
        ) && text@ == reason,
        url_parse_failure(endpoint@) is None && url_host(endpoint@) is None ==> r == Err::<
            String,
            EndpointError,
        >(EndpointError::NoHost),
        url_host(endpoint@) matches Some(h) ==> (url_parse_failure(endpoint@) is None ==> (r matches Ok(
            address,
        ) && address@ == address_of(h, url_port(endpoint@)))),
{
    match split_url(endpoint) {
        Err(reason) => Err(EndpointError::InvalidUrl { reason }),
        Ok(parts) => tcp_address_of(&parts),
    }
}

impl EndpointError {
    /// The text of the error.
    pub open spec fn text(&self) -> Seq<char> {
        match *self {
            EndpointError::InvalidUrl { reason } => "Invalid URL: "@ + reason@,
            EndpointError::NoHost => "No host in URL"@,
        }
    }

    /// The text of the error.
    pub fn message(&self) -> (r: String)
        ensures
            r@ == self.text(),
    {
        match self {
            EndpointError::InvalidUrl { reason } => {
                let mut text = String::from_str("Invalid URL: ");
                text.append(reason.as_str());
                text
            },
            EndpointError::NoHost => String::from_str("No host in URL"),
        }
    }
}

/// The policy an agent is polled under after deployment. A remote instance
/// starts cold, so it gets twice the attempts and three times the longest
/// wait of a local container.
pub open spec fn deployment_policy(kind: DeploymentType) -> PollPolicy {
    match kind {
        DeploymentType::Local => PollPolicy {
            max_attempts: 15,
            startup_delay_ms: 0,
            initial_delay_ms: 1000,
            backoff_per_mille: 1500,
            max_delay_ms: Some(5000u64),
            per_attempt_timeout_ms: 5000,
            accept_malformed: false,
        },
        DeploymentType::Tee => PollPolicy {
            max_attempts: 30,
            startup_delay_ms: 0,
            initial_delay_ms: 1000,
            backoff_per_mille: 1500,
            max_delay_ms: Some(15000u64),
            per_attempt_timeout_ms: 5000,
            accept_malformed: false,
        },
    }
}

/// The policy an agent is polled under after deployment.
pub fn policy_for(kind: DeploymentType) -> (r: PollPolicy)
    ensures
        r == deployment_policy(kind),
        r.wf(),
{
    match kind {
        DeploymentType::Local => PollPolicy {
            max_attempts: 15,
            startup_delay_ms: 0,
            initial_delay_ms: 1000,
            backoff_per_mille: 1500,
            max_delay_ms: Some(5000u64),
            per_attempt_timeout_ms: 5000,
            accept_malformed: false,
        },
        DeploymentType::Tee => PollPolicy {
            max_attempts: 30,
            startup_delay_ms: 0,
            initial_delay_ms: 1000,
            backoff_per_mille: 1500,
            max_delay_ms: Some(15000u64),
            per_attempt_timeout_ms: 5000,
            accept_malformed: false,
        },
    }
}

/// A remote deployment is polled more patiently than a local one: with more
/// attempts and a higher cap on the wait between them, and otherwise alike.
/// Both policies are well formed.
pub proof fn lemma_remote_policy_more_patient()
    ensures
        deployment_policy(DeploymentType::Tee).max_attempts > deployment_policy(
            DeploymentType::Local,
        ).max_attempts,
        deployment_policy(DeploymentType::Tee).ceiling() > deployment_policy(
            DeploymentType::Local,
        ).ceiling(),
        deployment_policy(DeploymentType::Tee).initial_delay_ms == deployment_policy(
            DeploymentType::Local,
        ).initial_delay_ms,
        deployment_policy(DeploymentType::Tee).backoff_per_mille == deployment_policy(
            DeploymentType::Local,
        ).backoff_per_mille,
        deployment_policy(DeploymentType::Tee).wf(),
        deployment_policy(DeploymentType::Local).wf(),
{
}

/// Everything the driver of a local health check needs.
#[derive(Debug, PartialEq, Eq)]
pub struct LocalHealthCheck {
    /// Where to test TCP reachability before the first probe.
    pub tcp_address: String,
    /// The poll session to drive.
    pub wait: HealthWait,
}

/// Prepares the health check of a locally deployed agent at `endpoint`:
/// rejects an endpoint that is no URL or has no host, and otherwise opens a
/// poll session under the local policy.
pub fn check_agent_health(endpoint: &str) -> (r: Result<LocalHealthCheck, EndpointError>)
    ensures
        url_parse_failure(endpoint@) matches Some(reason) ==> r matches Err(
            EndpointError::InvalidUrl { reason: text },
        ) && text@ == reason,
        url_parse_failure(endpoint@) is None && url_host(endpoint@) is None ==> r == Err::<
            LocalHealthCheck,
            EndpointError,
        >(EndpointError::NoHost),
        url_host(endpoint@) matches Some(h) ==> (url_parse_failure(endpoint@) is None ==> (r matches Ok(
            check,
        ) && {
            &&& check.tcp_address@ == address_of(h, url_port(endpoint@))
            &&& check.wait.health_url@ == endpoint@ + "/health"@
            &&& check.wait.policy == deployment_policy(DeploymentType::Local)
            &&& check.wait.state == initial_state(check.wait.policy)
            &&& check.wait.state.wf(check.wait.policy)
        })),
{
    match tcp_address(endpoint) {
        Err(e) => Err(e),
        Ok(address) => {
            let agent = AgentEndpoint::new(endpoint);
            let wait = agent.poll_health(policy_for(DeploymentType::Local));
            Ok(LocalHealthCheck { tcp_address: address, wait })
        },
    }
}

/// Whether the attempt also sends a plain request to the base URL, to tell
/// a server that is down from one that lacks the health path: the first
/// attempt and every third after it.
pub fn probes_base_url(attempt: u32) -> (r: bool)
    ensures
        r == (attempt % 3 == 1),
{
    attempt % 3 == 1
}

/// Whether a status returned for the base URL shows that a server is
/// answering: any success, and also "not found", which only means that the
/// path is missing.
pub fn server_is_responding(status: u16) -> (r: bool)
    ensures
        r == (success_status(status) || status == 404),
{
    is_success_status(status) || status == 404
}

/// Whether container logs show that the agent could not set up its wallet,
/// the usual sign of missing or invalid credentials.
pub fn wallet_setup_failed(logs: &str) -> (r: bool)
    ensures
        r == contains(logs@, "Failed to initialize wallet: APIError"@),
{
    find(logs, "Failed to initialize wallet: APIError")
}

/// The text that reports a container that is not running.
pub open spec fn not_running_text(status: Seq<char>) -> Seq<char> {
    "Container is not running, current status: "@ + status
}

/// Checks the status that the container runtime printed: white space around
/// it is ignored, and anything but `running` is an error that names it.
pub fn require_running(status_output: &str) -> (r: Result<(), String>)
    ensures
        trimmed(status_output@) == "running"@ ==> r == Ok::<(), String>(()),
        trimmed(status_output@) != "running"@ ==> (r matches Err(text) && text@ == not_running_text(
            trimmed(status_output@),
        )),
{
    let status = trim(status_output);
    if same_text(status, "running") {
        Ok(())
    } else {
        let mut text = String::from_str("Container is not running, current status: ");
        text.append(status);
        Err(text)
    }
}

/// Whether a line of `s` starts at position `i`.
pub open spec fn line_starts_at(s: Seq<char>, i: int) -> bool {
    i == 0 || (0 < i <= s.len() && s[i - 1] == '\n')
}

/// What the report says about position `i` of the environment listing: a
/// redacted setting where a line that sets one of the two credentials starts
/// there, nothing otherwise.
pub open spec fn redaction_at(env: Seq<char>, i: int) -> Seq<char> {
    if line_starts_at(env, i) && occurs_at(env, "CDP_API_KEY_NAME="@, i) {
        "CDP_API_KEY_NAME=***REDACTED***\n"@
    } else if line_starts_at(env, i) && occurs_at(env, "CDP_API_KEY_PRIVATE_KEY="@, i) {
        "CDP_API_KEY_PRIVATE_KEY=***REDACTED***\n"@
    } else {
        Seq::<char>::empty()
    }
}

/// The redacted settings for the lines that start before position `upto`,
/// in order.
pub open spec fn redactions(env: Seq<char>, upto: int) -> Seq<char>
    decreases upto,
{
    if upto <= 0 {
        Seq::<char>::empty()
    } else {
        redactions(env, upto - 1) + redaction_at(env, upto - 1)
    }
}

/// The note about a credential that the listing does not mention at all.
pub open spec fn missing_note(env: Seq<char>, setting: Seq<char>, note: Seq<char>) -> Seq<char> {
    if contains(env, setting) {
        Seq::<char>::empty()
    } else {
        note
    }
}

/// The report on the credentials in a container's environment listing: a
/// heading, one redacted line for every line that sets a credential, and a
/// note for each credential that occurs nowhere.
pub open spec fn env_report(container_name: Seq<char>, env: Seq<char>) -> Seq<char> {
    "Environment variables in container '"@ + container_name + "':\n"@ + redactions(
        env,
        env.len() as int,
    ) + missing_note(
        env,
        "CDP_API_KEY_NAME="@,
        "CDP_API_KEY_NAME not found in container environment!\n"@,
    ) + missing_note(
        env,
        "CDP_API_KEY_PRIVATE_KEY="@,
        "CDP_API_KEY_PRIVATE_KEY not found in container environment!\n"@,
    )
}

/// Reports which credentials a container's environment listing holds,
/// without their values.
pub fn inspect_container_env(container_name: &str, env_output: &str) -> (r: String)
    ensures
        r@ == env_report(container_name@, env_output@),
{
    let mut report = String::from_str("Environment variables in container '");
    report.append(container_name);
    report.append("':\n");
    let ghost heading = report@;
    let n: usize = env_output.unicode_len();
    let mut i: usize = 0;
    assert(report@ =~= heading + redactions(env_output@, 0));
    while i < n
        invariant
            i <= n,
            n == env_output@.len(),
            report@ == heading + redactions(env_output@, i as int),
        decreases n - i,
    {
        let ghost before = redactions(env_output@, i as int);
        let at_line_start: bool = i == 0 || env_output.get_char(i - 1) == '\n';
        if at_line_start && occurs(env_output, "CDP_API_KEY_NAME=", i) {
            report.append("CDP_API_KEY_NAME=***REDACTED***\n");
        } else if at_line_start && occurs(env_output, "CDP_API_KEY_PRIVATE_KEY=", i) {
            report.append("CDP_API_KEY_PRIVATE_KEY=***REDACTED***\n");
        }
        assert(report@ =~= heading + (before + redaction_at(env_output@, i as int)));
        i = i + 1;
    }
    let ghost listed = report@;
    if !find(env_output, "CDP_API_KEY_NAME=") {
        report.append("CDP_API_KEY_NAME not found in container environment!\n");
    }
    assert(report@ =~= listed + missing_note(
        env_output@,
        "CDP_API_KEY_NAME="@,
        "CDP_API_KEY_NAME not found in container environment!\n"@,
    ));
    let ghost noted = report@;
    if !find(env_output, "CDP_API_KEY_PRIVATE_KEY=") {
        report.append("CDP_API_KEY_PRIVATE_KEY not found in container environment!\n");
    }
    assert(report@ =~= noted + missing_note(
        env_output@,
        "CDP_API_KEY_PRIVATE_KEY="@,
        "CDP_API_KEY_PRIVATE_KEY not found in container environment!\n"@,
    ));
    report
}

/// The part of the diagnostics on the ports bound inside the container.
pub open spec fn ports_section(listing: Option<Seq<char>>, port: u16) -> Seq<char> {
    match listing {
        None => Seq::<char>::empty(),
        Some(ports) => {
            let shown = "Container ports:\n"@ + ports + "\n"@;
            if contains(ports, ":"@ + decimal(port as nat)) {
                shown
            } else {
                shown + "WARNING: Expected port "@ + decimal(port as nat)
                    + " not found in netstat output\n"@
            }
        },
    }
}

/// The part of the diagnostics on the port as the host sees it.
pub open spec fn host_section(listing: Option<Seq<char>>, port: u16) -> Seq<char> {
    match listing {
        None => Seq::<char>::empty(),
        Some(host_ports) => {
            let shown = "Host port "@ + decimal(port as nat) + " status:\n"@ + host_ports + "\n"@;
            if host_ports.len() > 0 {
                shown
            } else {
                shown + "WARNING: No process is listening on port "@ + decimal(port as nat)
                    + " on the host\n"@
            }
        },
    }
}

/// The part of the diagnostics on restarts of the container.
pub open spec fn restart_section(count_output: Option<Seq<char>>) -> Seq<char> {
    match count_output {
        None => Seq::<char>::empty(),
        Some(output) => {
            let shown = "Container restart count: "@ + trimmed(output) + "\n"@;
            if trimmed(output) == "0"@ {
                shown
            } else {
                shown + "WARNING: Container has restarted, indicating potential issues\n"@
            }
        },
    }
}

/// The diagnostics on a container: its state, then one part for each
/// listing that could be obtained.
pub open spec fn diagnostics_text(
    state_output: Seq<char>,
    container_ports: Option<Seq<char>>,
    host_ports: Option<Seq<char>>,
    restart_count: Option<Seq<char>>,
    port: u16,
) -> Seq<char> {
    "Container state: "@ + trimmed(state_output) + "\n"@ + ports_section(container_ports, port)
        + host_section(host_ports, port) + restart_section(restart_count)
}

/// Writes the part of the diagnostics on the ports bound inside the
/// container, with a warning where the expected port is not among them.
pub fn describe_container_ports(listing: &Option<String>, port: u16) -> (r: String)
    ensures
        r@ == ports_section(text_view(*listing), port),
{
    match listing {
        None => String::new(),
        Some(ports) => {
            let digits = to_decimal(port as u64);
            let mut wanted = String::from_str(":");
            wanted.append(digits.as_str());
            let mut text = String::from_str("Container ports:\n");
            text.append(ports.as_str());
            text.append("\n");
            if !find(ports.as_str(), wanted.as_str()) {
                text.append("WARNING: Expected port ");
                text.append(digits.as_str());
                text.append(" not found in netstat output\n");
            }
            text
        },
    }
}

/// Writes the part of the diagnostics on the port as the host sees it, with
/// a warning where nothing listens on it.
pub fn describe_host_port(listing: &Option<String>, port: u16) -> (r: String)
    ensures
        r@ == host_section(text_view(*listing), port),
{
    match listing {
        None => String::new(),
        Some(host_ports) => {
            let digits = to_decimal(port as u64);
            let mut text = String::from_str("Host port ");
            text.append(digits.as_str());
            text.append(" status:\n");
            text.append(host_ports.as_str());
            text.append("\n");
            if host_ports.as_str().unicode_len() == 0 {
                text.append("WARNING: No process is listening on port ");
                text.append(digits.as_str());
                text.append(" on the host\n");
            }
            text
        },
    }
}

/// Writes the part of the diagnostics on restarts, with a warning where the
/// count is anything but zero.
pub fn describe_restarts(count_output: &Option<String>) -> (r: String)
    ensures
        r@ == restart_section(text_view(*count_output)),
{
    match count_output {
        None => String::new(),
        Some(output) => {
            let count = trim(output.as_str());
            let mut text = String::from_str("Container restart count: ");
            text.append(count);
            text.append("\n");
            if !same_text(count, "0") {
                text.append("WARNING: Container has restarted, indicating potential issues\n");
            }
            text
        },
    }
}

/// Collects the diagnostics on a container from what the runtime printed.
/// A listing that could not be obtained is `None` and leaves its part out.
pub fn collect_container_diagnostics(
    state_output: &str,
    container_ports: &Option<String>,
    host_ports: &Option<String>,
    restart_count: &Option<String>,
    port: u16,
) -> (r: String)
    ensures
        r@ == diagnostics_text(
            state_output@,
            text_view(*container_ports),
            text_view(*host_ports),
            text_view(*restart_count),
            port,
        ),
{
    let mut text = String::from_str("Container state: ");
    text.append(trim(state_output));
    text.append("\n");
    let ports = describe_container_ports(container_ports, port);
    text.append(ports.as_str());
    let host = describe_host_port(host_ports, port);
    text.append(host.as_str());
    let restarts = describe_restarts(restart_count);
    text.append(restarts.as_str());
    text
}

} // verus!
