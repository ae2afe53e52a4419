//! Handler normalization: the uniform calling convention for operation
//! implementations, and the adapter that turns a handler into a service.

use vstd::prelude::*;
use crate::shape::OperationShape;
use crate::service::OperationService;
use core::convert::Infallible;
use core::marker::PhantomData;

verus! {

/// The two classes of failure an operation service distinguishes: failures of
/// the readiness check (infrastructure) and failures modelled by the
/// operation itself (domain).
pub enum OperationError<PollError, SmithyError> {
    /// A readiness-check failure occurred.
    Poll(PollError),
    /// An error modelled by the operation occurred.
    Smithy(SmithyError),
}

/// The uniform interface of an operation handler: a callable from the
/// operation input, together with any extracted context values, to the
/// operation's modelled result.
///
/// Implementations state their behaviour with `call_spec`; `call` must agree
/// with it.  A handler may own state, but a call leaves it well formed.
pub trait Handler<Op: OperationShape, Exts>: Sized {
    /// The handler's well-formedness invariant.
    spec fn wf(&self) -> bool;

    /// What the handler returns for a given input and context.
    spec fn call_spec(&self, input: Op::Input, exts: Exts) -> Result<Op::Output, Op::Error>;

    /// Run the handler.
    fn call(&mut self, input: Op::Input, exts: Exts) -> (r: Result<Op::Output, Op::Error>)
        requires
            old(self).wf(),
        ensures
            final(self).wf(),
            r == old(self).call_spec(input, exts),
    ;
}

/// The interface of a handler written over an injected piece of state, such
/// as shared application state, in addition to the operation input.
pub trait StateHandler<Op: OperationShape, T, Exts>: Sized {
    /// The callable's well-formedness invariant.
    spec fn wf(&self) -> bool;

    /// What the callable returns for a given input, state and context.
    spec fn call_spec(&self, input: Op::Input, state: T, exts: Exts) -> Result<
        Op::Output,
        Op::Error,
    >;

    /// Run the callable.
    fn call(&mut self, input: Op::Input, state: &T, exts: Exts) -> (r: Result<
        Op::Output,
        Op::Error,
    >)
        requires
            old(self).wf(),
        ensures
            final(self).wf(),
            r == old(self).call_spec(input, *state, exts),
    ;
}

/// Adjoins state to a state-taking callable, producing a [`Handler`] closed
/// over that state.
#[derive(Clone)]
pub struct StatefulHandler<F, T> {
    /// The state-taking callable.
    pub f: F,
    /// The injected state, shared by every call.
    pub state: T,
}

impl<Op, T, Exts, F> Handler<Op, Exts> for StatefulHandler<F, T> where
    Op: OperationShape,
    F: StateHandler<Op, T, Exts>,
 {
    open spec fn wf(&self) -> bool {
        self.f.wf()
    }

    open spec fn call_spec(&self, input: Op::Input, exts: Exts) -> Result<Op::Output, Op::Error> {
        self.f.call_spec(input, self.state, exts)
    }

    fn call(&mut self, input: Op::Input, exts: Exts) -> (r: Result<Op::Output, Op::Error>) {
        self.f.call(input, &self.state, exts)
    }
}

/// Lets a state-taking callable be closed over a piece of state, turning it
/// into a [`Handler`] via [`StatefulHandler`].
pub trait AdjoinState<T>: Sized {
    /// Close `self` over `state`.
    fn with_state(self, state: T) -> (r: StatefulHandler<Self, T>)
        ensures
            r.f == self,
            r.state == state,
    ;
}

impl<T, F> AdjoinState<T> for F {
    fn with_state(self, state: T) -> (r: StatefulHandler<F, T>) {
        StatefulHandler { f: self, state }
    }
}

/// A [`crate::service::OperationService`] provided for every [`Handler`].
///
/// Its readiness check always succeeds immediately, so its infrastructure
/// failure type is the uninhabited [`Infallible`].
#[derive(Clone)]
pub struct IntoService<Op, H> {
    /// The wrapped handler.
    pub handler: H,
    /// Marker tying the service to its operation shape.
    pub _operation: PhantomData<Op>,
}

impl<Op, Exts, H> OperationService<(Op::Input, Exts)> for IntoService<Op, H> where
    Op: OperationShape,
    H: Handler<Op, Exts>,
 {
    type Output = Op::Output;

    type DomainError = Op::Error;

    type PollError = Infallible;

    open spec fn wf(&self) -> bool {
        self.handler.wf()
    }

    open spec fn ready_spec(&self) -> Result<(), Infallible> {
        Ok(())
    }

    open spec fn call_spec(&self, req: (Op::Input, Exts)) -> Result<Op::Output, Op::Error> {
        self.handler.call_spec(req.0, req.1)
    }

    fn poll_ready(&mut self) -> (r: Result<(), OperationError<Infallible, Op::Error>>) {
        Ok(())
    }

    fn call(&mut self, req: (Op::Input, Exts)) -> (r: Result<
        Op::Output,
        OperationError<Infallible, Op::Error>,
    >) {
        let (input, exts) = req;
        match self.handler.call(input, exts) {
            Ok(output) => Ok(output),
            Err(err) => Err(OperationError::Smithy(err)),
        }
    }
}

/// An extension trait normalizing every [`Handler`] into an
/// [`crate::service::OperationService`].
pub trait HandlerExt<Op: OperationShape, Exts>: Handler<Op, Exts> {
    /// Wrap the handler as a service.
    fn into_service(self) -> (r: IntoService<Op, Self>)
        ensures
            r.handler == self,
    ;
}

impl<Op, Exts, H> HandlerExt<Op, Exts> for H where Op: OperationShape, H: Handler<Op, Exts> {
    fn into_service(self) -> (r: IntoService<Op, H>) {
        IntoService { handler: self, _operation: PhantomData }
    }
}

} // verus!
