//! A verified request/response command-dispatch layer for a natural-language
//! database query client: input validation, operation-to-HTTP-request
//! mapping, error classification, and response formatting.

pub mod decimal;
pub mod gateway;
pub mod model;
pub mod render;
pub mod security;
