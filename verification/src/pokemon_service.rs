//! The composed service: a route per declared operation, assembled by a
//! builder that cannot be finalized until every operation has been set.

use vstd::prelude::*;
use crate::conversions::{Either, FromRequest, IntoResponse};
use crate::empty_operation::EmptyOperation;
use crate::get_pokemon_species::GetPokemonSpecies;
use crate::handler::IntoService;
use crate::layer::Layer;
use crate::make_service::IntoMakeService;
use crate::operation::{Operation, OperationNotSet};
use crate::protocols::AWSRestJsonV1;
use crate::router::Router;
use crate::service::{OperationService, ServiceError, WireService};
use crate::shape::OperationShape;
use crate::structures::{
    EmptyOperationInput, EmptyOperationOutput, GetPokemonSpeciesInput, GetPokemonSpeciesOutput,
    ResourceNotFoundException,
};
use crate::upgrade::Upgrade;
use crate::wire::{WireRequest, WireResponse};
use core::convert::Infallible;

verus! {

/// One route of the composed service: the sum of the per-operation upgraded
/// services, so that every route has one type.  Their infrastructure
/// failures are kept apart on the two arms of [`Either`].
#[derive(Clone)]
pub enum PokemonRoute<A, B> {
    /// The species lookup route.
    GetPokemonSpecies(A),
    /// The empty operation route.
    EmptyOperation(B),
}

impl<A, B> WireService for PokemonRoute<A, B> where A: WireService, B: WireService {
    type PollError = Either<A::PollError, B::PollError>;

    open spec fn wf(&self) -> bool {
        match self {
            PokemonRoute::GetPokemonSpecies(a) => a.wf(),
            PokemonRoute::EmptyOperation(b) => b.wf(),
        }
    }

    open spec fn ready_spec(&self) -> Result<(), Either<A::PollError, B::PollError>> {
        match self {
            PokemonRoute::GetPokemonSpecies(a) => match a.ready_spec() {
                Ok(u) => Ok(u),
                Err(e) => Err(Either::Left(e)),
            },
            PokemonRoute::EmptyOperation(b) => match b.ready_spec() {
                Ok(u) => Ok(u),
                Err(e) => Err(Either::Right(e)),
            },
        }
    }

    open spec fn call_spec(&self, req: WireRequest) -> Result<
        WireResponse,
        Either<A::PollError, B::PollError>,
    > {
        match self {
            PokemonRoute::GetPokemonSpecies(a) => match a.call_spec(req) {
                Ok(resp) => Ok(resp),
                Err(e) => Err(Either::Left(e)),
            },
            PokemonRoute::EmptyOperation(b) => match b.call_spec(req) {
                Ok(resp) => Ok(resp),
                Err(e) => Err(Either::Right(e)),
            },
        }
    }

    fn poll_ready(&mut self) -> (r: Result<(), Either<A::PollError, B::PollError>>) {
        match self {
            PokemonRoute::GetPokemonSpecies(a) => match a.poll_ready() {
                Ok(u) => Ok(u),
                Err(e) => Err(Either::Left(e)),
            },
            PokemonRoute::EmptyOperation(b) => match b.poll_ready() {
                Ok(u) => Ok(u),
                Err(e) => Err(Either::Right(e)),
            },
        }
    }

    fn call(&mut self, req: WireRequest) -> (r: Result<
        WireResponse,
        Either<A::PollError, B::PollError>,
    >) {
        match self {
            PokemonRoute::GetPokemonSpecies(a) => match a.call(req) {
                Ok(resp) => Ok(resp),
                Err(e) => Err(Either::Left(e)),
            },
            PokemonRoute::EmptyOperation(b) => match b.call(req) {
                Ok(resp) => Ok(resp),
                Err(e) => Err(Either::Right(e)),
            },
        }
    }
}

/// The process-wide composed service: routes each wire request to the
/// operation registered under its key.  A routing failure is answered like
/// any domain error — as a response — and never surfaces as an
/// infrastructure failure.
#[derive(Clone)]
pub struct PokemonService<S> {
    /// The route table.
    pub router: Router<S>,
}

impl<S: WireService> WireService for PokemonService<S> {
    type PollError = S::PollError;

    open spec fn wf(&self) -> bool {
        self.router.routes_wf()
    }

    open spec fn ready_spec(&self) -> Result<(), S::PollError> {
        Ok(())
    }

    open spec fn call_spec(&self, req: WireRequest) -> Result<WireResponse, S::PollError> {
        match self.router.dispatch_spec(req) {
            Ok(resp) => Ok(resp),
            Err(ServiceError::Poll(e)) => Err(e),
            Err(ServiceError::Routing(e)) => Ok(
                <crate::router::RoutingError as IntoResponse<(), ()>>::response_spec(&e),
            ),
        }
    }

    fn poll_ready(&mut self) -> (r: Result<(), S::PollError>) {
        Ok(())
    }

    fn call(&mut self, req: WireRequest) -> (r: Result<WireResponse, S::PollError>) {
        match self.router.dispatch(req) {
            Ok(resp) => Ok(resp),
            Err(ServiceError::Poll(e)) => Err(e),
            Err(ServiceError::Routing(e)) => Ok(
                IntoResponse::<(), ()>::into_response(e),
            ),
        }
    }
}

impl<S> PokemonService<S> {
    /// Applies a wire-level layer uniformly across all routes.
    pub fn layer<L: Layer<S>>(self, layer: &L) -> (r: PokemonService<L::Service>)
        ensures
            r.router.routes@.len() == self.router.routes@.len(),
            forall|i: int|
                0 <= i < self.router.routes@.len() ==> {
                    &&& (#[trigger] r.router.routes@[i]).0 == self.router.routes@[i].0
                    &&& r.router.routes@[i].1 == layer.layer_spec(self.router.routes@[i].1)
                },
    {
        PokemonService { router: self.router.layer(layer) }
    }

    /// Adapts the composed service into a connection factory.
    pub fn into_make_service(self) -> (r: IntoMakeService<PokemonService<S>>)
        ensures
            r.svc == self,
    {
        IntoMakeService::new(self)
    }
}

impl PokemonService<()> {
    /// Creates an empty builder: no operation is set.
    pub fn builder() -> (r: PokemonServiceBuilder<OperationNotSet, OperationNotSet>)
        ensures
            r == (PokemonServiceBuilder {
                get_pokemon_species: OperationNotSet,
                empty_operation: OperationNotSet,
            }),
    {
        PokemonServiceBuilder {
            get_pokemon_species: OperationNotSet,
            empty_operation: OperationNotSet,
        }
    }
}

/// Routing through the built service: a request keyed with the species
/// operation's name is dispatched to the species route, one keyed with the
/// empty operation's name to the empty route, and one carrying any other key
/// is answered with the routing-failure response without any route being
/// consulted.
pub proof fn lemma_built_routing<A: WireService, B: WireService>(
    service: PokemonService<PokemonRoute<A, B>>,
    req: WireRequest,
)
    requires
        service.router.routes@.len() == 2,
        service.router.routes@[0].0@ == GetPokemonSpecies::name_spec(),
        service.router.routes@[1].0@ == EmptyOperation::name_spec(),
    ensures
        req.path@ == GetPokemonSpecies::name_spec() ==> crate::router::lookup_spec(
            service.router.routes@,
            req.path@,
        ) == Some(0int),
        req.path@ == EmptyOperation::name_spec() ==> crate::router::lookup_spec(
            service.router.routes@,
            req.path@,
        ) == Some(1int),
        req.path@ != GetPokemonSpecies::name_spec() && req.path@ != EmptyOperation::name_spec()
            ==> service.call_spec(req) == Ok::<WireResponse, <PokemonRoute<A, B> as WireService>::PollError>(
            WireResponse { status: 404, body: None },
        ),
{
    reveal_strlit("GetPokemonSpecies");
    reveal_strlit("EmptyOperation");
    assert("GetPokemonSpecies"@.len() == 17);
    assert("EmptyOperation"@.len() == 14);
    assert(GetPokemonSpecies::name_spec() != EmptyOperation::name_spec());
    if req.path@ == GetPokemonSpecies::name_spec() {
        crate::router::lemma_route_match(service.router, req, 0int);
    } else if req.path@ == EmptyOperation::name_spec() {
        crate::router::lemma_route_match(service.router, req, 1int);
    } else {
        crate::router::lemma_route_missing(service.router, req);
    }
}

/// Round trip through the whole composed stack, for a species lookup built
/// from a handler: a request keyed with the species operation's name and
/// carrying a species name is answered with the conversion of exactly what
/// the handler returns for that name — its output on success, its domain
/// error otherwise — and one carrying no species name is answered with the
/// extraction failure's response, the handler never consulted.
pub proof fn lemma_composed_species_round_trip<H1, B>(
    service: PokemonService<
        PokemonRoute<
            Upgrade<AWSRestJsonV1, GetPokemonSpecies, (), IntoService<GetPokemonSpecies, H1>>,
            B,
        >,
    >,
    req: WireRequest,
) where H1: crate::handler::Handler<GetPokemonSpecies, ()>, B: WireService
    requires
        service.router.routes@.len() == 2,
        service.router.routes@[0].0@ == GetPokemonSpecies::name_spec(),
        service.router.routes@[0].1 is GetPokemonSpecies,
        req.path@ == GetPokemonSpecies::name_spec(),
    ensures
        ({
            let handler = service.router.routes@[0].1->GetPokemonSpecies_0.inner.handler;
            service.call_spec(req) == Ok::<WireResponse, Either<Infallible, B::PollError>>(
                if req.body@.len() == 0 {
                    WireResponse { status: 400, body: None }
                } else {
                    match handler.call_spec(GetPokemonSpeciesInput { name: req.body }, ()) {
                        Ok(output) => WireResponse { status: 200, body: Some(output.flavor_text) },
                        Err(err) => WireResponse { status: 404, body: Some(err.message) },
                    }
                },
            )
        }),
{
    crate::router::lemma_route_match(service.router, req, 0int);
}

/// The composed service's builder.  Each slot is typed: it carries either
/// [`OperationNotSet`] or the operation composite set for it, so a service
/// can only be built once every slot has been set — a builder with a
/// missing slot has no `build`.
pub struct PokemonServiceBuilder<Op1, Op2> {
    /// The species lookup slot.
    pub get_pokemon_species: Op1,
    /// The empty operation slot.
    pub empty_operation: Op2,
}

impl<Op1, Op2> PokemonServiceBuilder<Op1, Op2> {
    /// Sets the species lookup operation.
    pub fn get_pokemon_species<S, L>(self, operation: Operation<S, L>) -> (r:
        PokemonServiceBuilder<Operation<S, L>, Op2>)
        ensures
            r.get_pokemon_species == operation,
            r.empty_operation == self.empty_operation,
    {
        PokemonServiceBuilder {
            get_pokemon_species: operation,
            empty_operation: self.empty_operation,
        }
    }

    /// Sets the empty operation.
    pub fn empty_operation<S, L>(self, operation: Operation<S, L>) -> (r: PokemonServiceBuilder<
        Op1,
        Operation<S, L>,
    >)
        ensures
            r.empty_operation == operation,
            r.get_pokemon_species == self.get_pokemon_species,
    {
        PokemonServiceBuilder {
            get_pokemon_species: self.get_pokemon_species,
            empty_operation: operation,
        }
    }
}

impl<S1, L1, S2, L2> PokemonServiceBuilder<Operation<S1, L1>, Operation<S2, L2>> {
    /// Builds the composed service: upgrades each operation composite for
    /// its protocol and registers it under its operation's name.  Only a
    /// builder with every slot set has this method.
    pub fn build<Exts1, Exts2>(self) -> (r: PokemonService<
        PokemonRoute<
            Upgrade<AWSRestJsonV1, GetPokemonSpecies, Exts1, L1::Service>,
            Upgrade<AWSRestJsonV1, EmptyOperation, Exts2, L2::Service>,
        >,
    >) where
        L1: Layer<S1>,
        Exts1: FromRequest<AWSRestJsonV1, GetPokemonSpecies>,
        <Exts1 as FromRequest<AWSRestJsonV1, GetPokemonSpecies>>::Error: IntoResponse<
            AWSRestJsonV1,
            GetPokemonSpecies,
        >,
        L1::Service: OperationService<
            (GetPokemonSpeciesInput, Exts1),
            Output = GetPokemonSpeciesOutput,
            DomainError = ResourceNotFoundException,
        >,
        L2: Layer<S2>,
        Exts2: FromRequest<AWSRestJsonV1, EmptyOperation>,
        <Exts2 as FromRequest<AWSRestJsonV1, EmptyOperation>>::Error: IntoResponse<
            AWSRestJsonV1,
            EmptyOperation,
        >,
        L2::Service: OperationService<
            (EmptyOperationInput, Exts2),
            Output = EmptyOperationOutput,
            DomainError = Infallible,
        >,

        ensures
            r.router.routes@.len() == 2,
            r.router.routes@[0].0@ == GetPokemonSpecies::name_spec(),
            r.router.routes@[1].0@ == EmptyOperation::name_spec(),
            r.router.routes@[0].1 matches PokemonRoute::GetPokemonSpecies(a)
                && a.inner == self.get_pokemon_species.layer.layer_spec(
                self.get_pokemon_species.inner,
            ),
            r.router.routes@[1].1 matches PokemonRoute::EmptyOperation(b)
                && b.inner == self.empty_operation.layer.layer_spec(self.empty_operation.inner),
    {
        let PokemonServiceBuilder { get_pokemon_species, empty_operation } = self;
        let upgraded_species = get_pokemon_species.upgrade::<
            AWSRestJsonV1,
            GetPokemonSpecies,
            Exts1,
        >();
        let upgraded_empty = empty_operation.upgrade::<AWSRestJsonV1, EmptyOperation, Exts2>();
        let mut routes: Vec<
            (
                String,
                PokemonRoute<
                    Upgrade<AWSRestJsonV1, GetPokemonSpecies, Exts1, L1::Service>,
                    Upgrade<AWSRestJsonV1, EmptyOperation, Exts2, L2::Service>,
                >,
            ),
        > = Vec::new();
        routes.push(
            (GetPokemonSpecies::name().to_owned(), PokemonRoute::GetPokemonSpecies(
                upgraded_species,
            )),
        );
        routes.push(
            (EmptyOperation::name().to_owned(), PokemonRoute::EmptyOperation(upgraded_empty)),
        );
        PokemonService { router: Router::from_routes(routes) }
    }
}

} // verus!
