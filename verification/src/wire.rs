//! The wire-level request and response carriers.
//!
//! The core never interprets a payload beyond handing it to the extraction
//! and conversion implementations of a concrete operation.  A request carries
//! the routing key (its path), an uninterpreted textual payload, and two typed
//! extension slots standing for request-scoped values that middleware may have
//! attached ahead of dispatch.

use vstd::prelude::*;

verus! {

/// An inbound wire request.
pub struct WireRequest {
    /// The routing key, e.g. the request path.
    pub path: String,
    /// The operation payload, uninterpreted by the core.
    pub body: String,
    /// A numeric request-scoped extension slot.
    pub ext_number: Option<u64>,
    /// A textual request-scoped extension slot.
    pub ext_label: Option<String>,
}

/// An outbound wire response.
pub struct WireResponse {
    /// The protocol status code.
    pub status: u16,
    /// The response payload; `None` stands for an empty body.
    pub body: Option<String>,
}

} // verus!
