//! Middleware layers: pure transformations from one service to another, and
//! the combinators that chain them.

use vstd::prelude::*;

verus! {

/// A middleware layer: a pure transformation of a service into a wrapped
/// service.  `layer_spec` pins the transformation down; the behaviour of the
/// wrapped service is given by that service's own contract.
pub trait Layer<S> {
    /// The wrapped service type.
    type Service;

    /// The value produced by applying the layer.
    spec fn layer_spec(&self, inner: S) -> Self::Service;

    /// Apply the layer.
    fn layer(&self, inner: S) -> (r: Self::Service)
        ensures
            r == self.layer_spec(inner),
    ;
}

/// The identity layer: wraps nothing.
#[derive(Clone)]
pub struct Identity;

impl Identity {
    /// Creates the identity layer.
    pub fn new() -> (r: Identity)
        ensures
            r == (Identity {}),
    {
        Identity {}
    }
}

impl<S> Layer<S> for Identity {
    type Service = S;

    open spec fn layer_spec(&self, inner: S) -> S {
        inner
    }

    fn layer(&self, inner: S) -> (r: S) {
        inner
    }
}

/// Two layers chained.  The earlier chain wraps the result of the newest
/// layer, so middleware wraps the service in the order it was added: the
/// first layer added ends up outermost.
#[derive(Clone)]
pub struct Stack<Inner, Outer> {
    /// The chain built so far; it ends up wrapping the rest.
    pub inner: Inner,
    /// The layer added last; it wraps the service first.
    pub outer: Outer,
}

impl<Inner, Outer> Stack<Inner, Outer> {
    /// Chains `outer` onto the existing chain `inner`.
    pub fn new(inner: Inner, outer: Outer) -> (r: Stack<Inner, Outer>)
        ensures
            r == (Stack { inner, outer }),
    {
        Stack { inner, outer }
    }
}

impl<S, Inner, Outer> Layer<S> for Stack<Inner, Outer> where
    Outer: Layer<S>,
    Inner: Layer<Outer::Service>,
 {
    type Service = Inner::Service;

    open spec fn layer_spec(&self, inner: S) -> Inner::Service {
        self.inner.layer_spec(self.outer.layer_spec(inner))
    }

    fn layer(&self, inner: S) -> (r: Inner::Service) {
        let once = self.outer.layer(inner);
        self.inner.layer(once)
    }
}

} // verus!
