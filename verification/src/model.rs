//! The transient request/response values exchanged with the backend.
//!
//! Every entity lives for a single call: there is no session object and no
//! shared state. The `result` payload of a query is held as plain text
//! already rendered per record, so that the formatting logic can be stated
//! and checked over ordinary strings; the surrounding application converts
//! whatever JSON value the backend sent into this shape.

use vstd::prelude::*;

verus! {

/// The body of the query operation's request: the user's question.
pub struct QueryRequest {
    pub question: String,
}

/// The `result` payload of a query response: either a list of records, each
/// as its textual form, or a single value as its textual form.
pub enum ResultValue {
    List(Vec<String>),
    Scalar(String),
}

/// The backend's answer to the query operation. When `success` is false,
/// `error` should carry the reason; every other field is optional and any
/// subset may be present.
pub struct QueryResponse {
    pub success: bool,
    pub sql: Option<String>,
    pub result: Option<ResultValue>,
    pub ai_response: Option<String>,
    pub error: Option<String>,
    pub tables_available: Option<Vec<String>>,
    pub row_count: Option<usize>,
}

/// One database driver the backend offers, with the configuration fields it
/// requires and each field's type name.
pub struct DriverDescriptor {
    pub name: String,
    pub description: String,
    pub required_fields: Vec<String>,
    pub field_types: Vec<(String, String)>,
}

/// The backend's answer to the connect operation.
pub struct DatabaseConnectionResult {
    pub success: bool,
    pub message: String,
    pub driver_type: Option<String>,
    pub tables: Vec<String>,
}

/// The backend's answer to the disconnect and sample-data operations.
pub struct SimpleResult {
    pub success: bool,
    pub message: String,
}

/// The backend's answer to the status operation.
pub struct DatabaseStatus {
    pub connected: bool,
    pub driver_type: Option<String>,
    pub tables: Vec<String>,
}

} // verus!
