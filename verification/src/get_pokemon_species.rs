//! The species lookup operation: its shape and its wire conversions under
//! the REST-JSON protocol.

use vstd::prelude::*;
use crate::conversions::{FromRequest, IntoResponse};
use crate::protocols::AWSRestJsonV1;
use crate::shape::OperationShape;
use crate::structures::{
    GetPokemonSpeciesInput, GetPokemonSpeciesOutput, ResourceNotFoundException,
};
use crate::wire::{WireRequest, WireResponse};

verus! {

/// The species lookup operation.
#[derive(Clone)]
pub struct GetPokemonSpecies;

impl OperationShape for GetPokemonSpecies {
    type Input = GetPokemonSpeciesInput;

    type Output = GetPokemonSpeciesOutput;

    type Error = ResourceNotFoundException;

    open spec fn name_spec() -> Seq<char> {
        "GetPokemonSpecies"@
    }

    fn name() -> (r: &'static str) {
        "GetPokemonSpecies"
    }
}

/// The extraction failure of the species lookup input: the request carried
/// no species name.
pub struct FromRequestError;

impl IntoResponse<AWSRestJsonV1, GetPokemonSpecies> for FromRequestError {
    open spec fn response_spec(&self) -> WireResponse {
        WireResponse { status: 400, body: None }
    }

    fn into_response(self) -> (r: WireResponse) {
        WireResponse { status: 400, body: None }
    }
}

/// The species name is the request body; an empty body is rejected before
/// the operation is ever invoked.
impl FromRequest<AWSRestJsonV1, GetPokemonSpecies> for GetPokemonSpeciesInput {
    type Error = FromRequestError;

    open spec fn extract_spec(req: WireRequest) -> (
        Result<GetPokemonSpeciesInput, FromRequestError>,
        WireRequest,
    ) {
        if req.body@.len() == 0 {
            (Err(FromRequestError), req)
        } else {
            (Ok(GetPokemonSpeciesInput { name: req.body }), req)
        }
    }

    fn from_request(req: &mut WireRequest) -> (r: Result<
        GetPokemonSpeciesInput,
        FromRequestError,
    >) {
        if req.body.as_str().is_empty() {
            Err(FromRequestError)
        } else {
            Ok(GetPokemonSpeciesInput { name: req.body.clone() })
        }
    }
}

impl IntoResponse<AWSRestJsonV1, GetPokemonSpecies> for GetPokemonSpeciesOutput {
    open spec fn response_spec(&self) -> WireResponse {
        WireResponse { status: 200, body: Some(self.flavor_text) }
    }

    fn into_response(self) -> (r: WireResponse) {
        WireResponse { status: 200, body: Some(self.flavor_text) }
    }
}

impl IntoResponse<AWSRestJsonV1, GetPokemonSpecies> for ResourceNotFoundException {
    open spec fn response_spec(&self) -> WireResponse {
        WireResponse { status: 404, body: Some(self.message) }
    }

    fn into_response(self) -> (r: WireResponse) {
        WireResponse { status: 404, body: Some(self.message) }
    }
}

} // verus!
