//! The two service contracts of the runtime.
//!
//! An operation service works on typed values and distinguishes the two
//! failure classes of [`OperationError`]: its readiness check can only fail
//! at the infrastructure level, and its invocation can only fail at the
//! domain level.  A wire service works on wire requests and responses and
//! reports infrastructure failures alone; everything modelled is already a
//! response by the time it leaves a wire service.

use vstd::prelude::*;
use crate::handler::OperationError;
use crate::wire::{WireRequest, WireResponse};

verus! {

/// The failure of a composed service: either no route matched, or the
/// matched route's own machinery failed.
pub enum ServiceError<Route, Poll> {
    /// No route matched the request key.
    Routing(Route),
    /// The matched route's readiness check or call failed.
    Poll(Poll),
}

/// Lifts a readiness result into the operation error type: a readiness check
/// can only fail at the infrastructure level.
pub open spec fn ready_result<P, D>(r: Result<(), P>) -> Result<(), OperationError<P, D>> {
    match r {
        Ok(u) => Ok(u),
        Err(e) => Err(OperationError::Poll(e)),
    }
}

/// Lifts a modelled result into the operation error type: an invocation can
/// only fail at the domain level.
pub open spec fn call_result<O, P, D>(r: Result<O, D>) -> Result<O, OperationError<P, D>> {
    match r {
        Ok(o) => Ok(o),
        Err(e) => Err(OperationError::Smithy(e)),
    }
}

/// A typed operation service: the canonical form every handler and every raw
/// operation service is normalized into.
///
/// The contract bakes in the two-class error discipline: `ready_spec` can
/// only report an infrastructure failure, `call_spec` only a domain failure,
/// and the readiness check does not change the service.
pub trait OperationService<Request>: Sized {
    /// The modelled output type.
    type Output;

    /// The modelled (domain) error type.
    type DomainError;

    /// The infrastructure failure type of the readiness check.
    type PollError;

    /// The service's well-formedness invariant.
    spec fn wf(&self) -> bool;

    /// What the readiness check reports.
    spec fn ready_spec(&self) -> Result<(), Self::PollError>;

    /// What a call returns for a given request.
    spec fn call_spec(&self, req: Request) -> Result<Self::Output, Self::DomainError>;

    /// The readiness check.  Observes the service without changing it.
    fn poll_ready(&mut self) -> (r: Result<(), OperationError<Self::PollError, Self::DomainError>>)
        requires
            old(self).wf(),
        ensures
            *final(self) == *old(self),
            r == ready_result::<Self::PollError, Self::DomainError>(old(self).ready_spec()),
    ;

    /// Run the service on one request.
    fn call(&mut self, req: Request) -> (r: Result<
        Self::Output,
        OperationError<Self::PollError, Self::DomainError>,
    >)
        requires
            old(self).wf(),
        ensures
            final(self).wf(),
            r == call_result::<Self::Output, Self::PollError, Self::DomainError>(
                old(self).call_spec(req),
            ),
    ;
}

/// A wire-level service: takes a wire request, returns a wire response, and
/// can only fail at the infrastructure level.  Its readiness check does not
/// change the service.
pub trait WireService: Sized {
    /// The infrastructure failure type.
    type PollError;

    /// The service's well-formedness invariant.
    spec fn wf(&self) -> bool;

    /// What the readiness check reports.
    spec fn ready_spec(&self) -> Result<(), Self::PollError>;

    /// What a call returns for a given request.
    spec fn call_spec(&self, req: WireRequest) -> Result<WireResponse, Self::PollError>;

    /// The readiness check.  Observes the service without changing it.
    fn poll_ready(&mut self) -> (r: Result<(), Self::PollError>)
        requires
            old(self).wf(),
        ensures
            *final(self) == *old(self),
            r == old(self).ready_spec(),
    ;

    /// Run the service on one request.
    fn call(&mut self, req: WireRequest) -> (r: Result<WireResponse, Self::PollError>)
        requires
            old(self).wf(),
        ensures
            final(self).wf(),
            r == old(self).call_spec(req),
    ;
}

} // verus!
