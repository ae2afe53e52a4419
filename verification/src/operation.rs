//! The operation composite: a typed operation service coupled with an
//! ordered chain of model-level middleware, and its upgrade into a
//! wire-level service.

use vstd::prelude::*;
use crate::shape::OperationShape;
use crate::handler::{Handler, HandlerExt, IntoService};
use crate::flattened::{Flattened, FlattenedExt, IntoUnflattened};
use crate::layer::{Identity, Layer, Stack};
use crate::upgrade::{Upgrade, UpgradeLayer};

verus! {

/// An operation composite: the inner typed service together with the chain
/// of model-level middleware applied to it on upgrade.
pub struct Operation<S, L = Identity> {
    /// The inner typed operation service.
    pub inner: S,
    /// The model-level middleware chain, in the order supplied.
    pub layer: L,
}

/// A marker indicating an operation has not been set in a service builder.
pub struct OperationNotSet;

impl<Op, H> Operation<IntoService<Op, H>, Identity> {
    /// Creates an operation composite from a [`Handler`], with an empty
    /// middleware chain.
    pub fn from_handler<Exts>(handler: H) -> (r: Operation<IntoService<Op, H>, Identity>) where
        Op: OperationShape,
        H: Handler<Op, Exts>,

        ensures
            r.inner.handler == handler,
            r.layer == (Identity {}),
    {
        Operation { inner: handler.into_service(), layer: Identity::new() }
    }
}

impl<Op, S, PollError> Operation<IntoUnflattened<Op, S, PollError>, Identity> {
    /// Creates an operation composite from an arity-specific raw service,
    /// with an empty middleware chain.
    pub fn from_service<Exts>(inner: S) -> (r: Operation<
        IntoUnflattened<Op, S, PollError>,
        Identity,
    >) where Op: OperationShape, S: Flattened<Op, Exts, PollError>
        ensures
            r.inner.inner == inner,
            r.layer == (Identity {}),
    {
        Operation { inner: inner.into_unflatten(), layer: Identity::new() }
    }
}

impl<S, L> Operation<S, L> {
    /// Appends a model-level middleware layer to the chain.  Middleware
    /// wraps the service in the order supplied: the layer appended first
    /// ends up outermost.
    pub fn layer<NewL>(self, layer: NewL) -> (r: Operation<S, Stack<L, NewL>>)
        ensures
            r.inner == self.inner,
            r.layer == (Stack { inner: self.layer, outer: layer }),
    {
        Operation { inner: self.inner, layer: Stack::new(self.layer, layer) }
    }

    /// Consumes the composite and produces a wire-level service: the
    /// middleware chain is applied to the inner typed service, and the
    /// upgrade adapter is inserted at the seam, so model middleware sees
    /// typed values and anything layered on the result sees wire values.
    pub fn upgrade<P, Op, Exts>(self) -> (r: Upgrade<P, Op, Exts, L::Service>) where
        L: Layer<S>,

        ensures
            r.inner == self.layer.layer_spec(self.inner),
    {
        let Operation { inner, layer } = self;
        let typed = layer.layer(inner);
        UpgradeLayer::new().layer(typed)
    }
}

/// An extension trait over [`OperationShape`]: creates operation composites
/// named after the shape.
pub trait OperationShapeExt: OperationShape + Sized {
    /// Creates an operation composite from a [`Handler`] of this shape.
    fn from_handler<H, Exts>(handler: H) -> (r: Operation<IntoService<Self, H>, Identity>) where
        H: Handler<Self, Exts>,

        ensures
            r.inner.handler == handler,
            r.layer == (Identity {}),
    ;

    /// Creates an operation composite from a raw service of this shape.
    fn from_service<S, Exts, PollError>(svc: S) -> (r: Operation<
        IntoUnflattened<Self, S, PollError>,
        Identity,
    >) where S: Flattened<Self, Exts, PollError>
        ensures
            r.inner.inner == svc,
            r.layer == (Identity {}),
    ;
}

impl<Op: OperationShape + Sized> OperationShapeExt for Op {
    fn from_handler<H, Exts>(handler: H) -> (r: Operation<IntoService<Op, H>, Identity>) where
        H: Handler<Op, Exts>,
     {
        Operation::from_handler(handler)
    }

    fn from_service<S, Exts, PollError>(svc: S) -> (r: Operation<
        IntoUnflattened<Op, S, PollError>,
        Identity,
    >) where S: Flattened<Op, Exts, PollError> {
        Operation::from_service(svc)
    }
}

/// Idempotence of layering: a composite whose middleware chain is empty
/// responds, once upgraded, exactly as the unwrapped base service does.
pub proof fn lemma_no_middleware<P, Op, Exts, S>(chain: Identity, base: S, req: crate::wire::WireRequest) where
    Op: OperationShape,
    Op::Input: crate::conversions::FromRequest<P, Op>,
    Exts: crate::conversions::FromRequest<P, Op>,
    <Op::Input as crate::conversions::FromRequest<P, Op>>::Error: crate::conversions::IntoResponse<
        P,
        Op,
    >,
    <Exts as crate::conversions::FromRequest<P, Op>>::Error: crate::conversions::IntoResponse<
        P,
        Op,
    >,
    Op::Output: crate::conversions::IntoResponse<P, Op>,
    Op::Error: crate::conversions::IntoResponse<P, Op>,
    S: crate::service::OperationService<
        (Op::Input, Exts),
        Output = Op::Output,
        DomainError = Op::Error,
    >,

    ensures
        crate::upgrade::upgrade_response_spec::<P, Op, Exts, S>(chain.layer_spec(base), req)
            == crate::upgrade::upgrade_response_spec::<P, Op, Exts, S>(base, req),
{
}

/// Middleware ordering: appending `first` and then `second` to a composite
/// yields a chain that wraps the base service with `second` first and
/// `first` outermost — middleware observes the call in the order it was
/// supplied.
pub proof fn lemma_middleware_order<S, L1, L2>(first: L1, second: L2, base: S) where
    L2: Layer<S>,
    L1: Layer<L2::Service>,

    ensures
        (Stack { inner: Stack { inner: Identity, outer: first }, outer: second }).layer_spec(base)
            == first.layer_spec(second.layer_spec(base)),
{
}

} // verus!
