//! The protocol upgrade adapter: bridges a typed operation service to a
//! wire-level service.
//!
//! An upgraded service extracts the typed input and context from the wire
//! request, invokes the inner typed service, and converts the outcome —
//! output or domain error — into a wire response.  An extraction failure
//! short-circuits: its response is produced without the inner service ever
//! being invoked.  [`UpgradeFuture`] is the per-request unit of work an
//! external driver steps to completion; it suspends at exactly the two
//! points named by its state.

use vstd::prelude::*;
use vstd::pervasive::unreached;
use crate::shape::OperationShape;
use crate::service::{OperationService, WireService};
use crate::handler::OperationError;
use crate::conversions::{FromRequest, IntoResponse};
use crate::layer::Layer;
use crate::wire::{WireRequest, WireResponse};
use core::marker::PhantomData;

verus! {

/// What an upgraded service answers to a wire request: the conversion of the
/// extraction failure, of the domain error, or of the output, with the inner
/// service consulted exactly when extraction succeeds.
pub open spec fn upgrade_response_spec<P, Op, Exts, S>(service: S, req: WireRequest) -> WireResponse where
    Op: OperationShape,
    Op::Input: FromRequest<P, Op>,
    Exts: FromRequest<P, Op>,
    <Op::Input as FromRequest<P, Op>>::Error: IntoResponse<P, Op>,
    <Exts as FromRequest<P, Op>>::Error: IntoResponse<P, Op>,
    Op::Output: IntoResponse<P, Op>,
    Op::Error: IntoResponse<P, Op>,
    S: OperationService<(Op::Input, Exts), Output = Op::Output, DomainError = Op::Error>,
{
    let extracted = <(Op::Input, Exts) as FromRequest<P, Op>>::extract_spec(req).0;
    match extracted {
        Err(e) => e.response_spec(),
        Ok(pair) => match service.call_spec(pair) {
            Ok(output) => output.response_spec(),
            Err(err) => err.response_spec(),
        },
    }
}

/// Round trip: for every wire request matching the operation's shape,
/// extraction followed by the inner handler and response conversion answers
/// exactly what a direct handler invocation on the extracted typed input
/// would produce, converted; and an extraction failure answers its own
/// conversion.
pub proof fn lemma_handler_round_trip<P, Op, Exts, H>(
    service: crate::handler::IntoService<Op, H>,
    req: WireRequest,
) where
    Op: OperationShape,
    Op::Input: FromRequest<P, Op>,
    Exts: FromRequest<P, Op>,
    <Op::Input as FromRequest<P, Op>>::Error: IntoResponse<P, Op>,
    <Exts as FromRequest<P, Op>>::Error: IntoResponse<P, Op>,
    Op::Output: IntoResponse<P, Op>,
    Op::Error: IntoResponse<P, Op>,
    H: crate::handler::Handler<Op, Exts>,

    ensures
        upgrade_response_spec::<P, Op, Exts, crate::handler::IntoService<Op, H>>(service, req)
            == ({
            let extracted = <(Op::Input, Exts) as FromRequest<P, Op>>::extract_spec(req).0;
            match extracted {
                Err(e) => e.response_spec(),
                Ok(pair) => match service.handler.call_spec(pair.0, pair.1) {
                    Ok(output) => output.response_spec(),
                    Err(err) => err.response_spec(),
                },
            }
        }),
{
}

/// Extraction-failure short circuit: when extraction fails, the response is
/// the failure's own conversion, whatever the inner service is — the inner
/// service contributes nothing to it.
pub proof fn lemma_extraction_short_circuit<P, Op, Exts, S>(service: S, other: S, req: WireRequest) where
    Op: OperationShape,
    Op::Input: FromRequest<P, Op>,
    Exts: FromRequest<P, Op>,
    <Op::Input as FromRequest<P, Op>>::Error: IntoResponse<P, Op>,
    <Exts as FromRequest<P, Op>>::Error: IntoResponse<P, Op>,
    Op::Output: IntoResponse<P, Op>,
    Op::Error: IntoResponse<P, Op>,
    S: OperationService<(Op::Input, Exts), Output = Op::Output, DomainError = Op::Error>,

    requires
        <(Op::Input, Exts) as FromRequest<P, Op>>::extract_spec(req).0 is Err,
    ensures
        upgrade_response_spec::<P, Op, Exts, S>(service, req) == <(Op::Input, Exts) as FromRequest<
            P,
            Op,
        >>::extract_spec(req).0->Err_0.response_spec(),
        upgrade_response_spec::<P, Op, Exts, S>(service, req) == upgrade_response_spec::<
            P,
            Op,
            Exts,
            S,
        >(other, req),
{
}

/// A [`Layer`] turning an operation service that accepts and returns typed
/// values into a service that accepts and returns wire values.
#[derive(Clone)]
pub struct UpgradeLayer<P, Op, Exts> {
    /// Marker tying the layer to its protocol, operation and context shape.
    pub _marker: PhantomData<(P, Op, Exts)>,
}

impl<P, Op, Exts> Default for UpgradeLayer<P, Op, Exts> {
    fn default() -> (r: UpgradeLayer<P, Op, Exts>)
        ensures
            r == (UpgradeLayer::<P, Op, Exts> { _marker: PhantomData }),
    {
        UpgradeLayer { _marker: PhantomData }
    }
}

impl<P, Op, Exts> UpgradeLayer<P, Op, Exts> {
    /// Creates a new upgrade layer.
    pub fn new() -> (r: UpgradeLayer<P, Op, Exts>)
        ensures
            r == (UpgradeLayer::<P, Op, Exts> { _marker: PhantomData }),
    {
        UpgradeLayer { _marker: PhantomData }
    }
}

impl<P, Op, Exts, S> Layer<S> for UpgradeLayer<P, Op, Exts> {
    type Service = Upgrade<P, Op, Exts, S>;

    open spec fn layer_spec(&self, inner: S) -> Upgrade<P, Op, Exts, S> {
        Upgrade { inner, _marker: PhantomData }
    }

    fn layer(&self, inner: S) -> (r: Upgrade<P, Op, Exts, S>) {
        Upgrade { inner, _marker: PhantomData }
    }
}

/// The service an [`UpgradeLayer`] produces for an inner service.
pub type UpgradedService<P, Op, Exts, S> = Upgrade<P, Op, Exts, S>;

/// A wire-level service wrapping a typed operation service for a specific
/// protocol and operation.
#[derive(Clone)]
pub struct Upgrade<P, Op, Exts, S> {
    /// The wrapped typed operation service.
    pub inner: S,
    /// Marker tying the adapter to its protocol, operation and context shape.
    pub _marker: PhantomData<(P, Op, Exts)>,
}

impl<P, Op, Exts, S> WireService for Upgrade<P, Op, Exts, S> where
    Op: OperationShape,
    Op::Input: FromRequest<P, Op>,
    Exts: FromRequest<P, Op>,
    <Op::Input as FromRequest<P, Op>>::Error: IntoResponse<P, Op>,
    <Exts as FromRequest<P, Op>>::Error: IntoResponse<P, Op>,
    Op::Output: IntoResponse<P, Op>,
    Op::Error: IntoResponse<P, Op>,
    S: OperationService<(Op::Input, Exts), Output = Op::Output, DomainError = Op::Error>,
 {
    type PollError = S::PollError;

    open spec fn wf(&self) -> bool {
        self.inner.wf()
    }

    open spec fn ready_spec(&self) -> Result<(), S::PollError> {
        self.inner.ready_spec()
    }

    open spec fn call_spec(&self, req: WireRequest) -> Result<WireResponse, S::PollError> {
        Ok(upgrade_response_spec::<P, Op, Exts, S>(self.inner, req))
    }

    /// Delegates to the inner readiness check, passing its infrastructure
    /// failure through unchanged.  A domain failure cannot occur at
    /// readiness time: the inner contract rules it out.
    fn poll_ready(&mut self) -> (r: Result<(), S::PollError>) {
        match self.inner.poll_ready() {
            Ok(u) => Ok(u),
            Err(OperationError::Poll(e)) => Err(e),
            Err(OperationError::Smithy(_)) => unreached(),
        }
    }

    /// Extracts, invokes, converts.  An infrastructure failure cannot occur
    /// during invocation: the inner contract rules it out, so every call
    /// produces a response.
    fn call(&mut self, req: WireRequest) -> (r: Result<WireResponse, S::PollError>) {
        let mut request = req;
        match <(Op::Input, Exts) as FromRequest<P, Op>>::from_request(&mut request) {
            Err(err) => Ok(err.into_response()),
            Ok(pair) => match self.inner.call(pair) {
                Ok(output) => Ok(output.into_response()),
                Err(OperationError::Smithy(err)) => Ok(err.into_response()),
                Err(OperationError::Poll(_)) => unreached(),
            },
        }
    }
}

impl<P, Op: OperationShape, Exts, S> Upgrade<P, Op, Exts, S> {
    /// Carves one in-flight call out of the service: the returned unit of
    /// work owns this handle and, when driven, answers the given request.
    pub fn into_future(self, request: WireRequest) -> (r: UpgradeFuture<P, Op, Exts, S>)
        ensures
            r.service == self.inner,
            r.state == UpgradeState::<Op::Input, Exts>::Extracting(request),
    {
        UpgradeFuture {
            service: self.inner,
            state: UpgradeState::Extracting(request),
            _marker: PhantomData,
        }
    }
}

/// Where one in-flight upgraded call stands: extraction pending, inner
/// invocation pending, or finished.
pub enum UpgradeState<In, Exts> {
    /// The wire request is still to be decomposed.
    Extracting(WireRequest),
    /// Extraction succeeded; the inner call on its result is pending.
    Invoking(In, Exts),
    /// A response has been produced.
    Complete,
}

/// The per-request unit of work of an upgraded service: a two-phase state
/// machine an external driver steps until it yields the response.
pub struct UpgradeFuture<P, Op: OperationShape, Exts, S> {
    /// The service handle owned by this in-flight call.
    pub service: S,
    /// Where the call stands.
    pub state: UpgradeState<Op::Input, Exts>,
    /// Marker tying the future to its protocol.
    pub _marker: PhantomData<P>,
}

impl<P, Op, Exts, S> UpgradeFuture<P, Op, Exts, S> where
    Op: OperationShape,
    Op::Input: FromRequest<P, Op>,
    Exts: FromRequest<P, Op>,
    <Op::Input as FromRequest<P, Op>>::Error: IntoResponse<P, Op>,
    <Exts as FromRequest<P, Op>>::Error: IntoResponse<P, Op>,
    Op::Output: IntoResponse<P, Op>,
    Op::Error: IntoResponse<P, Op>,
    S: OperationService<(Op::Input, Exts), Output = Op::Output, DomainError = Op::Error>,
 {
    /// Starts one upgraded call: the given service handle will be driven on
    /// the given request.
    pub fn new(service: S, request: WireRequest) -> (r: UpgradeFuture<P, Op, Exts, S>)
        ensures
            r.service == service,
            r.state == UpgradeState::<Op::Input, Exts>::Extracting(request),
    {
        UpgradeFuture { service, state: UpgradeState::Extracting(request), _marker: PhantomData }
    }

    /// The future's well-formedness invariant.
    pub open spec fn wf(&self) -> bool {
        self.service.wf()
    }

    /// Performs one phase of work; returns the response once one is
    /// produced.  Exactly one state transition happens per step.
    ///
    /// If extraction fails, the step yields the extraction failure's
    /// response and leaves the service untouched: the inner service is never
    /// invoked.
    pub fn step(&mut self) -> (r: Option<WireResponse>)
        requires
            old(self).wf(),
        ensures
            final(self).wf(),
            match old(self).state {
                UpgradeState::Extracting(req) => {
                    let extracted = <(Op::Input, Exts) as FromRequest<P, Op>>::extract_spec(
                        req,
                    ).0;
                    match extracted {
                        Err(e) => {
                            &&& r == Some(e.response_spec())
                            &&& final(self).state is Complete
                            &&& final(self).service == old(self).service
                        },
                        Ok(pair) => {
                            &&& r is None
                            &&& final(self).state == UpgradeState::<Op::Input, Exts>::Invoking(
                                pair.0,
                                pair.1,
                            )
                            &&& final(self).service == old(self).service
                        },
                    }
                },
                UpgradeState::Invoking(input, exts) => {
                    &&& r == Some(
                        match old(self).service.call_spec((input, exts)) {
                            Ok(output) => output.response_spec(),
                            Err(err) => err.response_spec(),
                        },
                    )
                    &&& final(self).state is Complete
                },
                UpgradeState::Complete => {
                    &&& r is None
                    &&& *final(self) == *old(self)
                },
            },
    {
        let mut state = UpgradeState::Complete;
        core::mem::swap(&mut state, &mut self.state);
        match state {
            UpgradeState::Extracting(req) => {
                let mut request = req;
                match <(Op::Input, Exts) as FromRequest<P, Op>>::from_request(&mut request) {
                    Err(err) => Some(err.into_response()),
                    Ok(pair) => {
                        let (input, exts) = pair;
                        self.state = UpgradeState::Invoking(input, exts);
                        None
                    },
                }
            },
            UpgradeState::Invoking(input, exts) => {
                match self.service.call((input, exts)) {
                    Ok(output) => Some(output.into_response()),
                    Err(OperationError::Smithy(err)) => Some(err.into_response()),
                    Err(OperationError::Poll(_)) => unreached(),
                }
            },
            UpgradeState::Complete => None,
        }
    }

    /// Drives the call to completion: the driver's poll loop.
    pub fn run(&mut self) -> (r: WireResponse)
        requires
            old(self).wf(),
            old(self).state is Extracting,
        ensures
            final(self).wf(),
            final(self).state is Complete,
            r == upgrade_response_spec::<P, Op, Exts, S>(
                old(self).service,
                old(self).state->Extracting_0,
            ),
    {
        match self.step() {
            Some(response) => response,
            None => match self.step() {
                Some(response) => response,
                None => unreached(),
            },
        }
    }
}

} // verus!
