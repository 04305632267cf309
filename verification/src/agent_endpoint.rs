//! The HTTP surface of a deployed agent: where its health and interaction
//! endpoints live, how a probe of it is classified, and the session that
//! waits for it to become healthy.

use crate::backoff::PollPolicy;
use crate::poller::{
    action_for, advance, initial_state, next_state, pending_action, start, PollAction, PollEvent,
    PollState,
};
use crate::probe::{
    classified_response, classify_response, classify_transport_error, json_document, text_view,
    transport_kind_of, ProbeOutcome, ProbeOutcomeView,
};
use crate::text::{decimal, to_decimal};
use vstd::prelude::*;
use vstd::string::*;

verus! {

/// Where an agent was deployed.
#[derive(Clone, Copy, Debug, PartialEq, Eq, Structural)]
pub enum DeploymentType {
    /// A container on the local Docker daemon.
    Local,
    /// An instance inside a remote trusted execution environment.
    Tee,
}

/// What the HTTP client saw when it probed the health endpoint once.
#[derive(Debug, PartialEq, Eq)]
pub enum ProbeObservation {
    /// A response arrived. `body` is `None` when it could not be read.
    Response { status: u16, body: Option<String> },
    /// No response arrived. `timed_out` is the client's deadline flag and
    /// `message` the text of its error.
    Failure { timed_out: bool, message: String },
}

/// A request to the interaction endpoint, ready to be sent.
#[derive(Debug, PartialEq, Eq)]
pub struct InteractRequest {
    /// The full URL to post to.
    pub url: String,
    /// The JSON document to post.
    pub body: String,
    /// The deadline for the whole exchange.
    pub timeout_ms: u64,
}

/// A deployed agent, identified by the base URL of its HTTP surface.
#[derive(Debug, PartialEq, Eq)]
pub struct AgentEndpoint {
    /// Scheme, host and port, for example `http://localhost:3000`.
    pub base_url: String,
}

/// A session that waits for one agent to become healthy.
#[derive(Debug, PartialEq, Eq)]
pub struct HealthWait {
    /// The URL every probe of this session requests.
    pub health_url: String,
    /// The policy the session runs under.
    pub policy: PollPolicy,
    /// Where the session stands.
    pub state: PollState,
}

/// The base URL of an agent listening on a local port.
pub open spec fn localhost_url(port: u16) -> Seq<char> {
    "http://localhost:"@ + decimal(port as nat)
}

/// The policy `wait_for_health` runs under: the initial delay doubles as the
/// startup delay, waits grow by half each time, and nothing caps them.
pub open spec fn health_wait_policy(
    max_attempts: u32,
    initial_delay_ms: u64,
    timeout_ms: u64,
) -> PollPolicy {
    PollPolicy {
        max_attempts,
        startup_delay_ms: initial_delay_ms,
        initial_delay_ms,
        backoff_per_mille: 1500,
        max_delay_ms: None,
        per_attempt_timeout_ms: timeout_ms,
        accept_malformed: false,
    }
}

/// The text a failed wait reports.
pub open spec fn unhealthy_text(attempts: u32) -> Seq<char> {
    "Agent failed to become healthy after "@ + decimal(attempts as nat) + " attempts"@
}

/// What the JSON serializer writes for the string `text`, quotes and escapes
/// included, or `None` where it reports an error.
pub uninterp spec fn json_string_literal(text: Seq<char>) -> Option<Seq<char>>;

/// Runs `serde_json::to_string` on a string slice. The serializer reads
/// nothing but its argument, so the text it writes is a fixed function of the
/// input; the escaping rules themselves are not spelled out here.
#[verifier::external_body]
fn json_quote(text: &str) -> (r: Option<String>)
    ensures
        text_view(r) == json_string_literal(text@),
{
    match serde_json::to_string(text) {
        Ok(quoted) => Some(quoted),
        Err(_) => None,
    }
}

/// The interaction document around an already quoted message.
pub open spec fn interact_document(quoted: Seq<char>) -> Seq<char> {
    "{\"message\":"@ + quoted + "}"@
}

/// Wraps an already quoted message into the interaction document.
pub fn interact_body(quoted: &str) -> (r: String)
    ensures
        r@ == interact_document(quoted@),
{
    let mut body = String::from_str("{\"message\":");
    body.append(quoted);
    body.append("}");
    body
}

impl Clone for AgentEndpoint {
    fn clone(&self) -> (r: Self)
        ensures
            r == *self,
    {
        AgentEndpoint { base_url: self.base_url.clone() }
    }
}

impl AgentEndpoint {
    /// An endpoint at `base_url`.
    pub fn new(base_url: &str) -> (r: Self)
        ensures
            r.base_url@ == base_url@,
    {
        AgentEndpoint { base_url: String::from_str(base_url) }
    }

    /// An endpoint on the local host at `port`.
    pub fn from_port(port: u16) -> (r: Self)
        ensures
            r.base_url@ == localhost_url(port),
    {
        let mut url = String::from_str("http://localhost:");
        let digits = to_decimal(port as u64);
        url.append(digits.as_str());
        AgentEndpoint { base_url: url }
    }

    /// The URL of the health endpoint.
    pub fn health_url(&self) -> (r: String)
        ensures
            r@ == self.base_url@ + "/health"@,
    {
        let mut url = self.base_url.clone();
        url.append("/health");
        url
    }

    /// The URL of the interaction endpoint.
    pub fn interact_url(&self) -> (r: String)
        ensures
            r@ == self.base_url@ + "/interact"@,
    {
        let mut url = self.base_url.clone();
        url.append("/interact");
        url
    }

    /// Classifies one observation of the health endpoint. A response with a
    /// success status is healthy exactly when its body was readable and is
    /// JSON; any other status is unhealthy; a failure is a transport error
    /// of the kind its flag and text indicate.
    pub fn check_health(&self, observed: ProbeObservation) -> (r: ProbeOutcome)
        ensures
            observed matches ProbeObservation::Response { status, body } ==> r@
                == classified_response(
                status,
                text_view(body),
                body is Some && json_document(body->Some_0@),
            ),
            observed matches ProbeObservation::Failure { timed_out, message } ==> r@ == (
            ProbeOutcomeView::TransportError {
                kind: transport_kind_of(timed_out, message@),
                message: message@,
            }),
    {
        match observed {
            ProbeObservation::Response { status, body } => classify_response(status, body),
            ProbeObservation::Failure { timed_out, message } => classify_transport_error(
                timed_out,
                message,
            ),
        }
    }

    /// Opens a session that waits for this agent to become healthy, probing
    /// at most `max_attempts` times. The first probe follows a wait of
    /// `initial_delay_ms`; later waits start from the same value and grow by
    /// half after every failure.
    pub fn wait_for_health(&self, max_attempts: u32, initial_delay_ms: u64, timeout_ms: u64) -> (r:
        HealthWait)
        ensures
            r.health_url@ == self.base_url@ + "/health"@,
            r.policy == health_wait_policy(max_attempts, initial_delay_ms, timeout_ms),
            r.state == initial_state(r.policy),
            r.state.wf(r.policy),
    {
        let policy = PollPolicy {
            max_attempts,
            startup_delay_ms: initial_delay_ms,
            initial_delay_ms,
            backoff_per_mille: 1500,
            max_delay_ms: None,
            per_attempt_timeout_ms: timeout_ms,
            accept_malformed: false,
        };
        self.poll_health(policy)
    }

    /// Opens a session that waits for this agent under any policy.
    pub fn poll_health(&self, policy: PollPolicy) -> (r: HealthWait)
        ensures
            r.health_url@ == self.base_url@ + "/health"@,
            r.policy == policy,
            r.state == initial_state(policy),
            r.state.wf(policy),
    {
        let state = start(&policy);
        HealthWait { health_url: self.health_url(), policy, state }
    }

    /// The request that sends `message` to the agent: a post to the
    /// interaction endpoint of a JSON object whose only member, `message`,
    /// holds the text. `None` only where the serializer rejects the text.
    pub fn interact(&self, message: &str, timeout_ms: u64) -> (r: Option<InteractRequest>)
        ensures
            r is Some <==> json_string_literal(message@) is Some,
            r matches Some(req) ==> {
                &&& req.url@ == self.base_url@ + "/interact"@
                &&& req.body@ == interact_document(json_string_literal(message@)->Some_0)
                &&& req.timeout_ms == timeout_ms
            },
    {
        match json_quote(message) {
            Some(quoted) => Some(
                InteractRequest {
                    url: self.interact_url(),
                    body: interact_body(quoted.as_str()),
                    timeout_ms,
                },
            ),
            None => None,
        }
    }
}

impl HealthWait {
    /// What the driver must do next.
    pub fn next_action(&self) -> (r: PollAction)
        ensures
            r == pending_action(self.policy, self.state),
            self.state.terminal() <==> r is Stop,
    {
        action_for(&self.policy, &self.state)
    }

    /// Feeds one event to the session.
    pub fn observe(self, event: PollEvent) -> (r: HealthWait)
        ensures
            r.health_url == self.health_url,
            r.policy == self.policy,
            r.state == next_state(self.policy, self.state, event),
            self.state.wf(self.policy) ==> r.state.wf(r.policy),
    {
        let HealthWait { health_url, policy, state } = self;
        let next = advance(&policy, state, event);
        HealthWait { health_url, policy, state: next }
    }

    /// The result of a finished session: success when a probe found the agent
    /// healthy, otherwise an error text that names the number of attempts.
    /// `None` while the session is still running.
    pub fn result(&self) -> (r: Option<Result<(), String>>)
        ensures
            r is Some <==> self.state.terminal(),
            self.state is Ready ==> r == Some(Ok::<(), String>(())),
            self.state matches PollState::Failed { attempts_made, .. } ==> r matches Some(Err(text))
                && text@ == unhealthy_text(attempts_made),
    {
        match &self.state {
            PollState::Ready { .. } => Some(Ok(())),
            PollState::Failed { attempts_made, .. } => Some(Err(unhealthy_message(*attempts_made))),
            _ => None,
        }
    }
}

/// The text a wait reports after `attempts` failed probes.
pub fn unhealthy_message(attempts: u32) -> (r: String)
    ensures
        r@ == unhealthy_text(attempts),
{
    let mut text = String::from_str("Agent failed to become healthy after ");
    let digits = to_decimal(attempts as u64);
    text.append(digits.as_str());
    text.append(" attempts");
    text
}

} // verus!
