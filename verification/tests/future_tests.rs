//! The two-phase unit of work: stepping an in-flight upgraded call through
//! extraction and invocation, and the connection factory.

use rpc_runtime::get_pokemon_species::GetPokemonSpecies;
use rpc_runtime::handler::{Handler, HandlerExt, IntoService};
use rpc_runtime::operation::Operation;
use rpc_runtime::pokemon_service::PokemonService;
use rpc_runtime::protocols::AWSRestJsonV1;
use rpc_runtime::service::WireService;
use rpc_runtime::structures::{
    EmptyOperationInput, EmptyOperationOutput, GetPokemonSpeciesInput, GetPokemonSpeciesOutput,
    ResourceNotFoundException,
};
use rpc_runtime::upgrade::{UpgradeFuture, UpgradeState};
use rpc_runtime::wire::{WireRequest, WireResponse};

use std::cell::Cell;
use std::convert::Infallible;
use std::rc::Rc;

#[derive(Clone)]
struct CountingHandler {
    calls: Rc<Cell<u64>>,
}

impl Handler<GetPokemonSpecies, ()> for CountingHandler {
    fn wf(&self) -> bool {
        true
    }

    fn call_spec(
        &self,
        input: GetPokemonSpeciesInput,
        _exts: (),
    ) -> Result<GetPokemonSpeciesOutput, ResourceNotFoundException> {
        Ok(GetPokemonSpeciesOutput {
            flavor_text: input.name,
        })
    }

    fn call(
        &mut self,
        input: GetPokemonSpeciesInput,
        _exts: (),
    ) -> Result<GetPokemonSpeciesOutput, ResourceNotFoundException> {
        self.calls.set(self.calls.get() + 1);
        Ok(GetPokemonSpeciesOutput {
            flavor_text: input.name,
        })
    }
}

#[derive(Clone)]
struct EmptyHandler;

impl Handler<rpc_runtime::empty_operation::EmptyOperation, ()> for EmptyHandler {
    fn wf(&self) -> bool {
        true
    }

    fn call_spec(
        &self,
        _input: EmptyOperationInput,
        _exts: (),
    ) -> Result<EmptyOperationOutput, Infallible> {
        Ok(EmptyOperationOutput)
    }

    fn call(
        &mut self,
        _input: EmptyOperationInput,
        _exts: (),
    ) -> Result<EmptyOperationOutput, Infallible> {
        Ok(EmptyOperationOutput)
    }
}

fn request(body: &str) -> WireRequest {
    WireRequest {
        path: "GetPokemonSpecies".to_owned(),
        body: body.to_owned(),
        ext_number: None,
        ext_label: None,
    }
}

type SpeciesFuture = UpgradeFuture<
    AWSRestJsonV1,
    GetPokemonSpecies,
    (),
    IntoService<GetPokemonSpecies, CountingHandler>,
>;

#[test]
fn a_call_takes_one_transition_per_step_and_two_steps_in_all() {
    let service = CountingHandler {
        calls: Rc::new(Cell::new(0)),
    }
    .into_service();
    let mut future: SpeciesFuture = UpgradeFuture::new(service, request("eevee"));
    assert!(matches!(future.state, UpgradeState::Extracting(_)));

    let first = future.step();
    assert!(first.is_none());
    assert!(matches!(future.state, UpgradeState::Invoking(_, _)));

    let second = future.step();
    let resp: WireResponse = second.expect("the second step must produce the response");
    assert!(matches!(future.state, UpgradeState::Complete));
    assert_eq!(resp.status, 200);
    assert_eq!(resp.body, Some("eevee".to_owned()));

    assert!(future.step().is_none());
}

#[test]
fn an_extraction_failure_completes_in_one_step_without_invoking_the_service() {
    let calls = Rc::new(Cell::new(0));
    let service = CountingHandler {
        calls: calls.clone(),
    }
    .into_service();
    let mut future: SpeciesFuture = UpgradeFuture::new(service, request(""));

    let first = future.step();
    let resp = first.expect("a failed extraction must answer on the first step");
    assert!(matches!(future.state, UpgradeState::Complete));
    assert_eq!(resp.status, 400);
    assert_eq!(calls.get(), 0);
}

#[test]
fn run_drives_the_call_to_its_response() {
    let service = CountingHandler {
        calls: Rc::new(Cell::new(0)),
    }
    .into_service();
    let mut future: SpeciesFuture = UpgradeFuture::new(service, request("mewtwo"));
    let resp = future.run();
    assert_eq!(resp.status, 200);
    assert_eq!(resp.body, Some("mewtwo".to_owned()));
}

#[test]
fn an_upgraded_service_yields_a_future_that_answers_the_request() {
    let upgraded = Operation::from_handler(CountingHandler {
        calls: Rc::new(Cell::new(0)),
    })
    .upgrade::<AWSRestJsonV1, GetPokemonSpecies, ()>();
    let mut future = upgraded.into_future(request("snorlax"));
    let resp = future.run();
    assert_eq!(resp.status, 200);
    assert_eq!(resp.body, Some("snorlax".to_owned()));
}

#[test]
fn the_connection_factory_hands_out_independent_working_handles() {
    let svc = PokemonService::<()>::builder()
        .get_pokemon_species(Operation::from_handler(CountingHandler {
            calls: Rc::new(Cell::new(0)),
        }))
        .empty_operation(Operation::from_handler(EmptyHandler))
        .build::<(), ()>();
    let mut factory = svc.into_make_service();
    assert!(factory.poll_ready().is_ok());

    let mut first_conn = factory.call("connection-1");
    let mut second_conn = factory.call("connection-2");
    let first = match first_conn.call(request("pikachu")) {
        Ok(resp) => resp,
        Err(_) => panic!("an infrastructure failure must not occur here"),
    };
    let second = match second_conn.call(request("raichu")) {
        Ok(resp) => resp,
        Err(_) => panic!("an infrastructure failure must not occur here"),
    };
    assert_eq!(first.body, Some("pikachu".to_owned()));
    assert_eq!(second.body, Some("raichu".to_owned()));
}
