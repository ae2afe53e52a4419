//! Extraction of request-scoped context values: single and paired
//! extensions, the either-of-two failure arms, and state-closed handlers.

use rpc_runtime::conversions::Extension;
use rpc_runtime::get_pokemon_species::GetPokemonSpecies;
use rpc_runtime::handler::{AdjoinState, Handler, StateHandler, StatefulHandler};
use rpc_runtime::operation::Operation;
use rpc_runtime::pokemon_service::PokemonService;
use rpc_runtime::service::WireService;
use rpc_runtime::structures::{
    EmptyOperationInput, EmptyOperationOutput, GetPokemonSpeciesInput, GetPokemonSpeciesOutput,
    ResourceNotFoundException,
};
use rpc_runtime::wire::{WireRequest, WireResponse};

use std::convert::Infallible;

struct EmptyHandler;

impl Handler<rpc_runtime::empty_operation::EmptyOperation, ()> for EmptyHandler {
    fn wf(&self) -> bool {
        true
    }

    fn call_spec(
        &self,
        _input: EmptyOperationInput,
        _exts: (),
    ) -> Result<EmptyOperationOutput, Infallible> {
        Ok(EmptyOperationOutput)
    }

    fn call(
        &mut self,
        _input: EmptyOperationInput,
        _exts: (),
    ) -> Result<EmptyOperationOutput, Infallible> {
        Ok(EmptyOperationOutput)
    }
}

/// A handler that folds one numeric context value into its output.
struct NumberedHandler;

impl Handler<GetPokemonSpecies, (Extension<u64>,)> for NumberedHandler {
    fn wf(&self) -> bool {
        true
    }

    fn call_spec(
        &self,
        input: GetPokemonSpeciesInput,
        exts: (Extension<u64>,),
    ) -> Result<GetPokemonSpeciesOutput, ResourceNotFoundException> {
        Ok(GetPokemonSpeciesOutput {
            flavor_text: format!("{}#{}", input.name, exts.0 .0),
        })
    }

    fn call(
        &mut self,
        input: GetPokemonSpeciesInput,
        exts: (Extension<u64>,),
    ) -> Result<GetPokemonSpeciesOutput, ResourceNotFoundException> {
        Ok(GetPokemonSpeciesOutput {
            flavor_text: format!("{}#{}", input.name, exts.0 .0),
        })
    }
}

/// A handler over two context values: a number and a label.
struct LabelledHandler;

impl Handler<GetPokemonSpecies, (Extension<u64>, Extension<String>)> for LabelledHandler {
    fn wf(&self) -> bool {
        true
    }

    fn call_spec(
        &self,
        input: GetPokemonSpeciesInput,
        exts: (Extension<u64>, Extension<String>),
    ) -> Result<GetPokemonSpeciesOutput, ResourceNotFoundException> {
        Ok(GetPokemonSpeciesOutput {
            flavor_text: format!("{}#{}@{}", input.name, exts.0 .0, exts.1 .0),
        })
    }

    fn call(
        &mut self,
        input: GetPokemonSpeciesInput,
        exts: (Extension<u64>, Extension<String>),
    ) -> Result<GetPokemonSpeciesOutput, ResourceNotFoundException> {
        Ok(GetPokemonSpeciesOutput {
            flavor_text: format!("{}#{}@{}", input.name, exts.0 .0, exts.1 .0),
        })
    }
}

fn ok<E>(r: Result<WireResponse, E>) -> WireResponse {
    match r {
        Ok(resp) => resp,
        Err(_) => panic!("an infrastructure failure must not occur here"),
    }
}

fn request(path: &str, body: &str) -> WireRequest {
    WireRequest {
        path: path.to_owned(),
        body: body.to_owned(),
        ext_number: None,
        ext_label: None,
    }
}

#[test]
fn a_single_extension_is_extracted_and_handed_to_the_handler() {
    let mut svc = PokemonService::<()>::builder()
        .get_pokemon_species(Operation::from_handler(NumberedHandler))
        .empty_operation(Operation::from_handler(EmptyHandler))
        .build::<(Extension<u64>,), ()>();

    let mut req = request("GetPokemonSpecies", "ditto");
    req.ext_number = Some(42);
    let resp = ok(svc.call(req));
    assert_eq!(resp.status, 200);
    assert_eq!(resp.body, Some("ditto#42".to_owned()));
}

#[test]
fn a_missing_extension_is_an_extraction_failure_not_a_handler_error() {
    let mut svc = PokemonService::<()>::builder()
        .get_pokemon_species(Operation::from_handler(NumberedHandler))
        .empty_operation(Operation::from_handler(EmptyHandler))
        .build::<(Extension<u64>,), ()>();

    let resp = ok(svc.call(request("GetPokemonSpecies", "ditto")));
    assert_eq!(resp.status, 500);
    assert_eq!(resp.body, None);
}

#[test]
fn two_extensions_are_both_extracted() {
    let mut svc = PokemonService::<()>::builder()
        .get_pokemon_species(Operation::from_handler(LabelledHandler))
        .empty_operation(Operation::from_handler(EmptyHandler))
        .build::<(Extension<u64>, Extension<String>), ()>();

    let mut req = request("GetPokemonSpecies", "ditto");
    req.ext_number = Some(7);
    req.ext_label = Some("field".to_owned());
    let resp = ok(svc.call(req));
    assert_eq!(resp.status, 200);
    assert_eq!(resp.body, Some("ditto#7@field".to_owned()));
}

#[test]
fn a_missing_second_extension_fails_on_its_own_arm() {
    let mut svc = PokemonService::<()>::builder()
        .get_pokemon_species(Operation::from_handler(LabelledHandler))
        .empty_operation(Operation::from_handler(EmptyHandler))
        .build::<(Extension<u64>, Extension<String>), ()>();

    let mut req = request("GetPokemonSpecies", "ditto");
    req.ext_number = Some(7);
    let resp = ok(svc.call(req));
    assert_eq!(resp.status, 500);
    assert_eq!(resp.body, None);
}

/// A species lookup written over injected state: the state is the flavor
/// text served for every species.
struct StatefulSpecies;

impl StateHandler<GetPokemonSpecies, String, ()> for StatefulSpecies {
    fn wf(&self) -> bool {
        true
    }

    fn call_spec(
        &self,
        input: GetPokemonSpeciesInput,
        state: String,
        _exts: (),
    ) -> Result<GetPokemonSpeciesOutput, ResourceNotFoundException> {
        Ok(GetPokemonSpeciesOutput {
            flavor_text: format!("{}: {}", input.name, state),
        })
    }

    fn call(
        &mut self,
        input: GetPokemonSpeciesInput,
        state: &String,
        _exts: (),
    ) -> Result<GetPokemonSpeciesOutput, ResourceNotFoundException> {
        Ok(GetPokemonSpeciesOutput {
            flavor_text: format!("{}: {}", input.name, state),
        })
    }
}

#[test]
fn a_state_closed_handler_sees_its_state_on_every_call() {
    let handler: StatefulHandler<StatefulSpecies, String> =
        StatefulSpecies.with_state("shared".to_owned());
    let mut svc = PokemonService::<()>::builder()
        .get_pokemon_species(Operation::from_handler(handler))
        .empty_operation(Operation::from_handler(EmptyHandler))
        .build::<(), ()>();

    let first = ok(svc.call(request("GetPokemonSpecies", "abra")));
    let second = ok(svc.call(request("GetPokemonSpecies", "kadabra")));
    assert_eq!(first.body, Some("abra: shared".to_owned()));
    assert_eq!(second.body, Some("kadabra: shared".to_owned()));
}
