//! Middleware tests: model-level layers observe calls in the order they
//! were supplied, and wire-level layers apply uniformly across routes.

use rpc_runtime::get_pokemon_species::GetPokemonSpecies;
use rpc_runtime::handler::{Handler, OperationError};
use rpc_runtime::layer::Layer;
use rpc_runtime::operation::Operation;
use rpc_runtime::pokemon_service::PokemonService;
use rpc_runtime::service::{OperationService, WireService};
use rpc_runtime::structures::{
    EmptyOperationInput, EmptyOperationOutput, GetPokemonSpeciesInput, GetPokemonSpeciesOutput,
    ResourceNotFoundException,
};
use rpc_runtime::wire::{WireRequest, WireResponse};

use std::cell::RefCell;
use std::convert::Infallible;
use std::rc::Rc;

struct SpeciesHandler;

impl Handler<GetPokemonSpecies, ()> for SpeciesHandler {
    fn wf(&self) -> bool {
        true
    }

    fn call_spec(
        &self,
        input: GetPokemonSpeciesInput,
        _exts: (),
    ) -> Result<GetPokemonSpeciesOutput, ResourceNotFoundException> {
        Ok(GetPokemonSpeciesOutput {
            flavor_text: input.name,
        })
    }

    fn call(
        &mut self,
        input: GetPokemonSpeciesInput,
        _exts: (),
    ) -> Result<GetPokemonSpeciesOutput, ResourceNotFoundException> {
        Ok(GetPokemonSpeciesOutput {
            flavor_text: input.name,
        })
    }
}

struct EmptyHandler;

impl Handler<rpc_runtime::empty_operation::EmptyOperation, ()> for EmptyHandler {
    fn wf(&self) -> bool {
        true
    }

    fn call_spec(
        &self,
        _input: EmptyOperationInput,
        _exts: (),
    ) -> Result<EmptyOperationOutput, Infallible> {
        Ok(EmptyOperationOutput)
    }

    fn call(
        &mut self,
        _input: EmptyOperationInput,
        _exts: (),
    ) -> Result<EmptyOperationOutput, Infallible> {
        Ok(EmptyOperationOutput)
    }
}

/// A model-level middleware layer that records when a call enters and
/// leaves it.
struct RecordingLayer {
    tag: &'static str,
    log: Rc<RefCell<Vec<String>>>,
}

struct RecordingService<S> {
    tag: &'static str,
    log: Rc<RefCell<Vec<String>>>,
    inner: S,
}

impl<S> Layer<S> for RecordingLayer {
    type Service = RecordingService<S>;

    fn layer_spec(&self, inner: S) -> RecordingService<S> {
        RecordingService {
            tag: self.tag,
            log: self.log.clone(),
            inner,
        }
    }

    fn layer(&self, inner: S) -> RecordingService<S> {
        self.layer_spec(inner)
    }
}

impl<S> OperationService<(GetPokemonSpeciesInput, ())> for RecordingService<S>
where
    S: OperationService<
        (GetPokemonSpeciesInput, ()),
        Output = GetPokemonSpeciesOutput,
        DomainError = ResourceNotFoundException,
        PollError = Infallible,
    >,
{
    type Output = GetPokemonSpeciesOutput;
    type DomainError = ResourceNotFoundException;
    type PollError = Infallible;

    fn wf(&self) -> bool {
        true
    }

    fn ready_spec(&self) -> Result<(), Infallible> {
        Ok(())
    }

    fn call_spec(
        &self,
        req: (GetPokemonSpeciesInput, ()),
    ) -> Result<GetPokemonSpeciesOutput, ResourceNotFoundException> {
        self.inner.call_spec(req)
    }

    fn poll_ready(&mut self) -> Result<(), OperationError<Infallible, ResourceNotFoundException>> {
        self.inner.poll_ready()
    }

    fn call(
        &mut self,
        req: (GetPokemonSpeciesInput, ()),
    ) -> Result<GetPokemonSpeciesOutput, OperationError<Infallible, ResourceNotFoundException>>
    {
        self.log.borrow_mut().push(format!("{}:in", self.tag));
        let r = self.inner.call(req);
        self.log.borrow_mut().push(format!("{}:out", self.tag));
        r
    }
}

fn ok<E>(r: Result<WireResponse, E>) -> WireResponse {
    match r {
        Ok(resp) => resp,
        Err(_) => panic!("an infrastructure failure must not occur here"),
    }
}

fn request(path: &str, body: &str) -> WireRequest {
    WireRequest {
        path: path.to_owned(),
        body: body.to_owned(),
        ext_number: None,
        ext_label: None,
    }
}

#[test]
fn model_layers_observe_the_call_in_the_order_supplied() {
    let log = Rc::new(RefCell::new(Vec::new()));
    let first = RecordingLayer {
        tag: "L1",
        log: log.clone(),
    };
    let second = RecordingLayer {
        tag: "L2",
        log: log.clone(),
    };
    let species = Operation::from_handler(SpeciesHandler)
        .layer(first)
        .layer(second);
    let mut svc = PokemonService::<()>::builder()
        .get_pokemon_species(species)
        .empty_operation(Operation::from_handler(EmptyHandler))
        .build::<(), ()>();

    let resp = ok(svc.call(request("GetPokemonSpecies", "bulbasaur")));
    assert_eq!(resp.status, 200);
    assert_eq!(resp.body, Some("bulbasaur".to_owned()));
    assert_eq!(
        *log.borrow(),
        vec![
            "L1:in".to_owned(),
            "L2:in".to_owned(),
            "L2:out".to_owned(),
            "L1:out".to_owned()
        ],
    );
}

#[test]
fn model_layers_are_skipped_entirely_when_extraction_fails() {
    let log = Rc::new(RefCell::new(Vec::new()));
    let first = RecordingLayer {
        tag: "L1",
        log: log.clone(),
    };
    let species = Operation::from_handler(SpeciesHandler).layer(first);
    let mut svc = PokemonService::<()>::builder()
        .get_pokemon_species(species)
        .empty_operation(Operation::from_handler(EmptyHandler))
        .build::<(), ()>();

    let resp = ok(svc.call(request("GetPokemonSpecies", "")));
    assert_eq!(resp.status, 400);
    assert!(log.borrow().is_empty());
}

/// A wire-level middleware layer that counts the requests passing through
/// it, whatever route they take.
struct CountingWireLayer {
    calls: Rc<RefCell<u64>>,
}

struct CountingWireService<S> {
    calls: Rc<RefCell<u64>>,
    inner: S,
}

impl<S> Layer<S> for CountingWireLayer {
    type Service = CountingWireService<S>;

    fn layer_spec(&self, inner: S) -> CountingWireService<S> {
        CountingWireService {
            calls: self.calls.clone(),
            inner,
        }
    }

    fn layer(&self, inner: S) -> CountingWireService<S> {
        self.layer_spec(inner)
    }
}

impl<S: WireService> WireService for CountingWireService<S> {
    type PollError = S::PollError;

    fn wf(&self) -> bool {
        true
    }

    fn ready_spec(&self) -> Result<(), S::PollError> {
        self.inner.ready_spec()
    }

    fn call_spec(&self, req: WireRequest) -> Result<WireResponse, S::PollError> {
        self.inner.call_spec(req)
    }

    fn poll_ready(&mut self) -> Result<(), S::PollError> {
        self.inner.poll_ready()
    }

    fn call(&mut self, req: WireRequest) -> Result<WireResponse, S::PollError> {
        *self.calls.borrow_mut() += 1;
        self.inner.call(req)
    }
}

#[test]
fn a_wire_layer_applies_uniformly_across_all_routes() {
    let calls = Rc::new(RefCell::new(0));
    let svc = PokemonService::<()>::builder()
        .get_pokemon_species(Operation::from_handler(SpeciesHandler))
        .empty_operation(Operation::from_handler(EmptyHandler))
        .build::<(), ()>();
    let mut svc = svc.layer(&CountingWireLayer {
        calls: calls.clone(),
    });

    let species_resp = ok(svc.call(request("GetPokemonSpecies", "mew")));
    let empty_resp = ok(svc.call(request("EmptyOperation", "")));
    assert_eq!(species_resp.status, 200);
    assert_eq!(empty_resp.status, 200);
    assert_eq!(*calls.borrow(), 2);
}
