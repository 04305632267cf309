//! Outcomes of a single health probe, and the rules that classify what the
//! HTTP client observed into one of them.

use crate::text::{contains, find};
use vstd::prelude::*;
use vstd::string::*;

verus! {

/// Why a probe never got an HTTP response.
#[derive(Clone, Copy, Debug, PartialEq, Eq, Structural)]
pub enum TransportKind {
    /// The deadline passed first.
    Timeout,
    /// Nothing was listening on the target port.
    ConnectionRefused,
    /// The peer reset or closed the connection.
    ConnectionReset,
    /// Any other transport failure.
    Other,
}

/// What one probe found.
#[derive(Debug, PartialEq, Eq)]
pub enum ProbeOutcome {
    /// A success status with a JSON body.
    Healthy { body: String },
    /// A success status whose body could not be read as JSON.
    MalformedResponse { status: u16, body: String },
    /// Any other status, with the body text that came with it.
    Unhealthy { status: u16, body: String },
    /// No response at all.
    TransportError { kind: TransportKind, message: String },
}

/// The mathematical content of a [`ProbeOutcome`].
pub enum ProbeOutcomeView {
    Healthy { body: Seq<char> },
    MalformedResponse { status: u16, body: Seq<char> },
    Unhealthy { status: u16, body: Seq<char> },
    TransportError { kind: TransportKind, message: Seq<char> },
}

impl View for ProbeOutcome {
    type V = ProbeOutcomeView;

    open spec fn view(&self) -> ProbeOutcomeView {
        match *self {
            ProbeOutcome::Healthy { body } => ProbeOutcomeView::Healthy { body: body@ },
            ProbeOutcome::MalformedResponse { status, body } => ProbeOutcomeView::MalformedResponse {
                status,
                body: body@,
            },
            ProbeOutcome::Unhealthy { status, body } => ProbeOutcomeView::Unhealthy {
                status,
                body: body@,
            },
            ProbeOutcome::TransportError { kind, message } => ProbeOutcomeView::TransportError {
                kind,
                message: message@,
            },
        }
    }
}

impl Clone for ProbeOutcome {
    fn clone(&self) -> (r: Self)
        ensures
            r == *self,
    {
        match self {
            ProbeOutcome::Healthy { body } => ProbeOutcome::Healthy { body: body.clone() },
            ProbeOutcome::MalformedResponse { status, body } => ProbeOutcome::MalformedResponse {
                status: *status,
                body: body.clone(),
            },
            ProbeOutcome::Unhealthy { status, body } => ProbeOutcome::Unhealthy {
                status: *status,
                body: body.clone(),
            },
            ProbeOutcome::TransportError { kind, message } => ProbeOutcome::TransportError {
                kind: *kind,
                message: message.clone(),
            },
        }
    }
}

impl ProbeOutcome {
    /// Whether this outcome ends a poll with success: a healthy response
    /// always does, a malformed one only when the caller accepts it.
    pub open spec fn ready(&self, accept_malformed: bool) -> bool {
        match *self {
            ProbeOutcome::Healthy { .. } => true,
            ProbeOutcome::MalformedResponse { .. } => accept_malformed,
            _ => false,
        }
    }

    /// Whether this outcome ends a poll with success.
    pub fn is_ready(&self, accept_malformed: bool) -> (r: bool)
        ensures
            r == self.ready(accept_malformed),
    {
        match self {
            ProbeOutcome::Healthy { .. } => true,
            ProbeOutcome::MalformedResponse { .. } => accept_malformed,
            _ => false,
        }
    }

    /// Whether a poll may probe again after this outcome. Every outcome that
    /// is not ready is retryable; none aborts a poll.
    pub fn is_retryable(&self, accept_malformed: bool) -> (r: bool)
        ensures
            r == !self.ready(accept_malformed),
    {
        !self.is_ready(accept_malformed)
    }
}

/// Whether an HTTP status code is in the success class.
pub open spec fn success_status(status: u16) -> bool {
    200 <= status < 300
}

/// Whether an HTTP status code is in the success class.
pub fn is_success_status(status: u16) -> (r: bool)
    ensures
        r == success_status(status),
{
    200 <= status && status < 300
}

/// Whether the JSON parser accepts `text` as one complete document.
pub uninterp spec fn json_document(text: Seq<char>) -> bool;

/// Runs `serde_json::from_str::<serde_json::Value>` on the body and reports
/// whether it returned `Ok`. The parser reads nothing but its argument, so
/// the answer is a fixed property of the text; which texts it accepts is not
/// spelled out here.
#[verifier::external_body]
fn parses_as_json(body: &str) -> (r: bool)
    ensures
        r == json_document(body@),
{
    serde_json::from_str::<serde_json::Value>(body).is_ok()
}

/// The body text recorded when a response body could not be read.
pub open spec fn unreadable_body() -> Seq<char> {
    "Could not read response body"@
}

/// The outcome that a response stands for, given whether its body parsed.
pub open spec fn classified_response(
    status: u16,
    body: Option<Seq<char>>,
    body_is_json: bool,
) -> ProbeOutcomeView {
    let text = match body {
        Some(b) => b,
        None => unreadable_body(),
    };
    if !success_status(status) {
        ProbeOutcomeView::Unhealthy { status, body: text }
    } else if body is Some && body_is_json {
        ProbeOutcomeView::Healthy { body: text }
    } else {
        ProbeOutcomeView::MalformedResponse { status, body: text }
    }
}

/// The view of an optional text.
pub open spec fn text_view(t: Option<String>) -> Option<Seq<char>> {
    match t {
        Some(s) => Some(s@),
        None => None,
    }
}

/// Classifies a response whose body has already been checked for JSON.
/// `body` is `None` when the body could not be read.
pub fn classify_parsed_response(status: u16, body: Option<String>, body_is_json: bool) -> (r:
    ProbeOutcome)
    ensures
        r@ == classified_response(status, text_view(body), body_is_json),
{
    let readable: bool = body.is_some();
    let text: String = match body {
        Some(b) => b,
        None => String::from_str("Could not read response body"),
    };
    if !is_success_status(status) {
        ProbeOutcome::Unhealthy { status, body: text }
    } else if readable && body_is_json {
        ProbeOutcome::Healthy { body: text }
    } else {
        ProbeOutcome::MalformedResponse { status, body: text }
    }
}

/// Classifies a response. A success status is healthy exactly when the body
/// was readable and parses as JSON; any other status is unhealthy whatever
/// the body holds.
pub fn classify_response(status: u16, body: Option<String>) -> (r: ProbeOutcome)
    ensures
        r@ == classified_response(
            status,
            text_view(body),
            body is Some && json_document(body->Some_0@),
        ),
{
    let body_is_json: bool = match &body {
        Some(b) => is_success_status(status) && parses_as_json(b.as_str()),
        None => false,
    };
    classify_parsed_response(status, body, body_is_json)
}

/// The kind of a transport failure, from the client's deadline flag and the
/// text of the error. The flag wins; otherwise the text is searched for the
/// usual operating-system phrases, in either capitalisation of their first
/// letter.
pub open spec fn transport_kind_of(timed_out: bool, message: Seq<char>) -> TransportKind {
    if timed_out {
        TransportKind::Timeout
    } else if contains(message, "connection refused"@) || contains(
        message,
        "Connection refused"@,
    ) {
        TransportKind::ConnectionRefused
    } else if contains(message, "connection reset"@) || contains(message, "Connection reset"@)
        || contains(message, "connection closed"@) || contains(message, "Connection closed"@)
        || contains(message, "broken pipe"@) || contains(message, "Broken pipe"@) {
        TransportKind::ConnectionReset
    } else if contains(message, "timed out"@) {
        TransportKind::Timeout
    } else {
        TransportKind::Other
    }
}

/// Classifies a transport failure, keeping the raw message for diagnostics.
pub fn classify_transport_error(timed_out: bool, message: String) -> (r: ProbeOutcome)
    ensures
        r@ == (ProbeOutcomeView::TransportError {
            kind: transport_kind_of(timed_out, message@),
            message: message@,
        }),
{
    let m: &str = message.as_str();
    let kind: TransportKind = if timed_out {
        TransportKind::Timeout
    } else if find(m, "connection refused") || find(m, "Connection refused") {
        TransportKind::ConnectionRefused
    } else if find(m, "connection reset") || find(m, "Connection reset") || find(
        m,
        "connection closed",
    ) || find(m, "Connection closed") || find(m, "broken pipe") || find(m, "Broken pipe") {
        TransportKind::ConnectionReset
    } else if find(m, "timed out") {
        TransportKind::Timeout
    } else {
        TransportKind::Other
    };
    ProbeOutcome::TransportError { kind, message }
}

} // verus!
