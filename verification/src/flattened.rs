//! Multi-arity flattening: adapts services written over an arity-specific
//! argument list — `Input`, `(Input, Arg0)` or `(Input, Arg0, Arg1)` — to
//! the canonical `(Input, exts-tuple)` form that the upgrade adapter
//! produces.  A purely structural adapter: it introduces no failure modes.

use vstd::prelude::*;
use crate::shape::OperationShape;
use crate::service::OperationService;
use crate::handler::OperationError;
use core::marker::PhantomData;

verus! {

/// A service over an arity-specific argument list, together with the
/// reversible mapping from the canonical `(Input, exts-tuple)` shape onto
/// that list.
pub trait Flattened<Op: OperationShape, Exts, PollError>: OperationService<
    Self::Flattened,
    Output = Op::Output,
    DomainError = Op::Error,
    PollError = PollError,
> {
    /// The arity-specific request shape this service accepts.
    type Flattened;

    /// How the canonical shape maps onto the arity-specific one.
    spec fn unflatten_spec(input: Op::Input, exts: Exts) -> Self::Flattened;

    /// Map the canonical shape onto the arity-specific one.
    fn unflatten(input: Op::Input, exts: Exts) -> (r: Self::Flattened)
        ensures
            r == Self::unflatten_spec(input, exts),
    ;
}

/// A service over the bare input has no context values.
impl<Op, PollError, S> Flattened<Op, (), PollError> for S where
    Op: OperationShape,
    S: OperationService<Op::Input, Output = Op::Output, DomainError = Op::Error, PollError = PollError>,
 {
    type Flattened = Op::Input;

    open spec fn unflatten_spec(input: Op::Input, exts: ()) -> Op::Input {
        input
    }

    fn unflatten(input: Op::Input, exts: ()) -> (r: Op::Input) {
        input
    }
}

/// A service over `(Input, Arg0)` takes one context value.
impl<Op, Arg0, PollError, S> Flattened<Op, (Arg0,), PollError> for S where
    Op: OperationShape,
    S: OperationService<
        (Op::Input, Arg0),
        Output = Op::Output,
        DomainError = Op::Error,
        PollError = PollError,
    >,
 {
    type Flattened = (Op::Input, Arg0);

    open spec fn unflatten_spec(input: Op::Input, exts: (Arg0,)) -> (Op::Input, Arg0) {
        (input, exts.0)
    }

    fn unflatten(input: Op::Input, exts: (Arg0,)) -> (r: (Op::Input, Arg0)) {
        (input, exts.0)
    }
}

/// A service over `(Input, Arg0, Arg1)` takes two context values.
impl<Op, Arg0, Arg1, PollError, S> Flattened<Op, (Arg0, Arg1), PollError> for S where
    Op: OperationShape,
    S: OperationService<
        (Op::Input, Arg0, Arg1),
        Output = Op::Output,
        DomainError = Op::Error,
        PollError = PollError,
    >,
 {
    type Flattened = (Op::Input, Arg0, Arg1);

    open spec fn unflatten_spec(input: Op::Input, exts: (Arg0, Arg1)) -> (
        Op::Input,
        Arg0,
        Arg1,
    ) {
        (input, exts.0, exts.1)
    }

    fn unflatten(input: Op::Input, exts: (Arg0, Arg1)) -> (r: (Op::Input, Arg0, Arg1)) {
        (input, exts.0, exts.1)
    }
}

/// An extension trait canonicalizing every [`Flattened`] service.
pub trait FlattenedExt<Op: OperationShape, Exts, PollError>: Flattened<Op, Exts, PollError> {
    /// Wrap the service so that it accepts the canonical shape.
    fn into_unflatten(self) -> (r: IntoUnflattened<Op, Self, PollError>)
        ensures
            r.inner == self,
    ;
}

impl<Op, Exts, PollError, S> FlattenedExt<Op, Exts, PollError> for S where
    Op: OperationShape,
    S: Flattened<Op, Exts, PollError>,
 {
    fn into_unflatten(self) -> (r: IntoUnflattened<Op, S, PollError>) {
        IntoUnflattened { inner: self, _operation: PhantomData }
    }
}

/// A service accepting the canonical `(Input, exts-tuple)` shape by
/// un-tupling it before calling the wrapped arity-specific service.
#[derive(Clone)]
pub struct IntoUnflattened<Op, S, PollError> {
    /// The wrapped arity-specific service.
    pub inner: S,
    /// Marker tying the adapter to its operation shape and failure type.
    pub _operation: PhantomData<(Op, PollError)>,
}

impl<Op, S, Exts, PollError> OperationService<(Op::Input, Exts)> for IntoUnflattened<
    Op,
    S,
    PollError,
> where Op: OperationShape, S: Flattened<Op, Exts, PollError> {
    type Output = Op::Output;

    type DomainError = Op::Error;

    type PollError = PollError;

    open spec fn wf(&self) -> bool {
        self.inner.wf()
    }

    open spec fn ready_spec(&self) -> Result<(), PollError> {
        self.inner.ready_spec()
    }

    open spec fn call_spec(&self, req: (Op::Input, Exts)) -> Result<Op::Output, Op::Error> {
        self.inner.call_spec(S::unflatten_spec(req.0, req.1))
    }

    fn poll_ready(&mut self) -> (r: Result<(), OperationError<PollError, Op::Error>>) {
        self.inner.poll_ready()
    }

    fn call(&mut self, req: (Op::Input, Exts)) -> (r: Result<
        Op::Output,
        OperationError<PollError, Op::Error>,
    >) {
        let (input, exts) = req;
        let flat = S::unflatten(input, exts);
        self.inner.call(flat)
    }
}

} // verus!
