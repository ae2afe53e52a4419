//! The empty operation: no input payload, no output payload, no domain
//! error.  Its shape and its wire conversions under the REST-JSON protocol.

use vstd::prelude::*;
use crate::conversions::{FromRequest, IntoResponse};
use crate::protocols::AWSRestJsonV1;
use crate::shape::OperationShape;
use crate::structures::{EmptyOperationInput, EmptyOperationOutput};
use crate::wire::{WireRequest, WireResponse};
use core::convert::Infallible;

verus! {

/// The empty operation.
#[derive(Clone)]
pub struct EmptyOperation;

impl OperationShape for EmptyOperation {
    type Input = EmptyOperationInput;

    type Output = EmptyOperationOutput;

    type Error = Infallible;

    open spec fn name_spec() -> Seq<char> {
        "EmptyOperation"@
    }

    fn name() -> (r: &'static str) {
        "EmptyOperation"
    }
}

/// The extraction failure of the empty operation's input: the request
/// carried a payload where none belongs.
pub struct FromRequestError;

impl IntoResponse<AWSRestJsonV1, EmptyOperation> for FromRequestError {
    open spec fn response_spec(&self) -> WireResponse {
        WireResponse { status: 400, body: None }
    }

    fn into_response(self) -> (r: WireResponse) {
        WireResponse { status: 400, body: None }
    }
}

/// The empty operation takes no payload: extraction succeeds exactly when
/// the request body is empty.
impl FromRequest<AWSRestJsonV1, EmptyOperation> for EmptyOperationInput {
    type Error = FromRequestError;

    open spec fn extract_spec(req: WireRequest) -> (
        Result<EmptyOperationInput, FromRequestError>,
        WireRequest,
    ) {
        if req.body@.len() == 0 {
            (Ok(EmptyOperationInput), req)
        } else {
            (Err(FromRequestError), req)
        }
    }

    fn from_request(req: &mut WireRequest) -> (r: Result<EmptyOperationInput, FromRequestError>) {
        if req.body.as_str().is_empty() {
            Ok(EmptyOperationInput)
        } else {
            Err(FromRequestError)
        }
    }
}

impl IntoResponse<AWSRestJsonV1, EmptyOperation> for EmptyOperationOutput {
    open spec fn response_spec(&self) -> WireResponse {
        WireResponse { status: 200, body: None }
    }

    fn into_response(self) -> (r: WireResponse) {
        WireResponse { status: 200, body: None }
    }
}

} // verus!
