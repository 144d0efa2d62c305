//! The backend gateway: each named operation maps to exactly one HTTP
//! request against a fixed backend origin, and every failure is classified
//! into one uniform error shape.
//!
//! The network round-trip itself is performed by the surrounding
//! application; this module decides everything around it: which method and
//! path an operation uses, that the query operation is gated by the input
//! validator before any request exists, how each failure kind is worded, and
//! how a query response becomes a display string or a backend error.

use vstd::prelude::*;

use crate::model::QueryRequest;
use crate::model::QueryResponse;
use crate::render::render_spec;
use crate::render::render_success;
use crate::security::blacklisted;
use crate::security::contains_at;
use crate::security::contains_sub;
use crate::security::validate_input;

verus! {

/// The HTTP method of an operation.
#[derive(Clone, Copy, Debug, PartialEq, Eq, Structural)]
pub enum HttpMethod {
    Get,
    Post,
}

/// The six named operations the gateway offers.
#[derive(Clone, Copy, Debug, PartialEq, Eq, Structural)]
pub enum Operation {
    SubmitQuestion,
    ListDrivers,
    ConnectDatabase,
    DisconnectDatabase,
    GetDatabaseStatus,
    CreateSampleData,
}

/// The HTTP method each operation uses.
pub open spec fn method_spec(op: Operation) -> HttpMethod {
    match op {
        Operation::SubmitQuestion => HttpMethod::Post,
        Operation::ListDrivers => HttpMethod::Get,
        Operation::ConnectDatabase => HttpMethod::Post,
        Operation::DisconnectDatabase => HttpMethod::Post,
        Operation::GetDatabaseStatus => HttpMethod::Get,
        Operation::CreateSampleData => HttpMethod::Post,
    }
}

/// The path each operation requests under the backend origin.
pub open spec fn path_spec(op: Operation) -> Seq<char> {
    match op {
        Operation::SubmitQuestion => "/ai/process"@,
        Operation::ListDrivers => "/drivers"@,
        Operation::ConnectDatabase => "/database/connect"@,
        Operation::DisconnectDatabase => "/database/disconnect"@,
        Operation::GetDatabaseStatus => "/database/status"@,
        Operation::CreateSampleData => "/database/sample-data"@,
    }
}

/// Whether an operation sends a JSON request body.
pub open spec fn sends_body_spec(op: Operation) -> bool {
    match op {
        Operation::SubmitQuestion => true,
        Operation::ConnectDatabase => true,
        _ => false,
    }
}

impl Operation {
    /// The HTTP method this operation uses.
    pub fn method(&self) -> (m: HttpMethod)
        ensures
            m == method_spec(*self),
    {
        match self {
            Operation::SubmitQuestion => HttpMethod::Post,
            Operation::ListDrivers => HttpMethod::Get,
            Operation::ConnectDatabase => HttpMethod::Post,
            Operation::DisconnectDatabase => HttpMethod::Post,
            Operation::GetDatabaseStatus => HttpMethod::Get,
            Operation::CreateSampleData => HttpMethod::Post,
        }
    }

    /// The path this operation requests under the backend origin.
    pub fn path(&self) -> (p: String)
        ensures
            p@ == path_spec(*self),
    {
        match self {
            Operation::SubmitQuestion => String::from_str("/ai/process"),
            Operation::ListDrivers => String::from_str("/drivers"),
            Operation::ConnectDatabase => String::from_str("/database/connect"),
            Operation::DisconnectDatabase => String::from_str("/database/disconnect"),
            Operation::GetDatabaseStatus => String::from_str("/database/status"),
            Operation::CreateSampleData => String::from_str("/database/sample-data"),
        }
    }

    /// Whether this operation sends a JSON request body.
    pub fn sends_body(&self) -> (b: bool)
        ensures
            b == sends_body_spec(*self),
    {
        match self {
            Operation::SubmitQuestion => true,
            Operation::ConnectDatabase => true,
            _ => false,
        }
    }
}

/// The full request URL for an operation: the backend origin followed by
/// the operation's path.
pub fn request_url(base: &str, op: Operation) -> (url: String)
    ensures
        url@ == base@ + path_spec(op),
{
    let mut url = base.to_owned();
    let path = op.path();
    url.append(path.as_str());
    url
}

/// How an operation failed. Every operation either fully succeeds or yields
/// one of these; nothing is retried and nothing is fatal.
pub enum GatewayError {
    /// The input validator blocked the question; no request was made.
    InputRejected,
    /// The backend could not be reached; carries the transport-level cause.
    Transport { cause: String },
    /// The backend answered, but the body did not parse into the expected
    /// shape; carries the parser's complaint and the raw body text.
    Deserialization { detail: String, body: String },
    /// The backend answered with an application-level failure.
    Backend { message: String },
}

/// The descriptive text of each failure, as surfaced to the caller.
pub open spec fn message_spec(e: GatewayError) -> Seq<char> {
    match e {
        GatewayError::InputRejected => "Input blocked by security validation"@,
        GatewayError::Transport { cause } => "Could not reach backend: "@ + cause@,
        GatewayError::Deserialization { detail, body } => "Failed to parse backend response: "@
            + detail@ + " - Response: "@ + body@,
        GatewayError::Backend { message } => message@,
    }
}

impl GatewayError {
    /// The descriptive text of this failure.
    pub fn message(&self) -> (m: String)
        ensures
            m@ == message_spec(*self),
    {
        match self {
            GatewayError::InputRejected => String::from_str(
                "Input blocked by security validation",
            ),
            GatewayError::Transport { cause } => {
                let mut m = String::from_str("Could not reach backend: ");
                m.append(cause.as_str());
                m
            },
            GatewayError::Deserialization { detail, body } => {
                let mut m = String::from_str("Failed to parse backend response: ");
                m.append(detail.as_str());
                m.append(" - Response: ");
                m.append(body.as_str());
                proof {
                    assert(m@ =~= message_spec(*self));
                }
                m
            },
            GatewayError::Backend { message } => message.clone(),
        }
    }
}

/// A transport failure's message preserves the underlying cause: the cause
/// text stands in the message as a substring, whatever it is.
pub proof fn lemma_transport_message_preserves_cause(cause: String)
    ensures
        contains_sub(message_spec(GatewayError::Transport { cause }), cause@),
{
    let prefix = "Could not reach backend: "@;
    let msg = message_spec(GatewayError::Transport { cause });
    assert(msg.subrange(prefix.len() as int, prefix.len() + cause@.len() as int) =~= cause@);
    assert(contains_at(msg, cause@, prefix.len() as int));
}

/// A deserialization failure's message preserves the raw response body: the
/// body text stands in the message as a substring, whatever it is.
pub proof fn lemma_deserialization_message_preserves_body(detail: String, body: String)
    ensures
        contains_sub(message_spec(GatewayError::Deserialization { detail, body }), body@),
{
    let head = "Failed to parse backend response: "@ + detail@ + " - Response: "@;
    let msg = message_spec(GatewayError::Deserialization { detail, body });
    assert(msg.subrange(head.len() as int, head.len() + body@.len() as int) =~= body@);
    assert(contains_at(msg, body@, head.len() as int));
}

/// Gates the query operation: the question passes the input validator
/// exactly when it contains no blacklisted keyword, and a blocked question
/// is rejected before any request exists.
pub fn prepare_query(question: String) -> (r: Result<QueryRequest, GatewayError>)
    ensures
        !blacklisted(question@) ==> (r matches Ok(q) && q.question == question),
        blacklisted(question@) ==> (r matches Err(e) && e is InputRejected),
{
    if validate_input(question.as_str()) {
        Ok(QueryRequest { question })
    } else {
        Err(GatewayError::InputRejected)
    }
}

/// The expected error text of a failed query response: the backend's
/// `error` field when present, else a generic fallback.
pub open spec fn backend_error_spec(r: QueryResponse) -> Seq<char> {
    match r.error {
        Option::Some(e) => e@,
        Option::None => "Unknown error"@,
    }
}

/// Interprets a deserialized query response: a successful one becomes its
/// display string, a failed one becomes a backend error carrying the
/// backend's own reason, or a generic fallback when none was sent.
pub fn format_query_response(r: &QueryResponse) -> (res: Result<String, GatewayError>)
    ensures
        r.success ==> (res matches Ok(out) && out@ == render_spec(*r)),
        !r.success ==> (res matches Err(e) && e matches GatewayError::Backend { message }
            && message@ == backend_error_spec(*r)),
{
    if r.success {
        Ok(render_success(r))
    } else {
        match &r.error {
            Some(e) => Err(GatewayError::Backend { message: e.clone() }),
            None => Err(GatewayError::Backend { message: String::from_str("Unknown error") }),
        }
    }
}

} // verus!
