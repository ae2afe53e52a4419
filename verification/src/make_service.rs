//! Adapts a composed service into a connection factory: a service that, for
//! every inbound connection, yields a fresh handle of the wrapped service.

use vstd::prelude::*;
use vstd::pervasive::cloned;
use core::convert::Infallible;

verus! {

/// A connection factory over a cloneable service.
pub struct IntoMakeService<S> {
    /// The service handed out, one clone per connection.
    pub svc: S,
}

impl<S> IntoMakeService<S> {
    /// Wraps a service as a connection factory.
    pub fn new(svc: S) -> (r: IntoMakeService<S>)
        ensures
            r.svc == svc,
    {
        IntoMakeService { svc }
    }
}

impl<S: Clone> IntoMakeService<S> {
    /// The factory itself is always ready.
    pub fn poll_ready(&mut self) -> (r: Result<(), Infallible>)
        ensures
            *final(self) == *old(self),
            r is Ok,
    {
        Ok(())
    }

    /// Yields a fresh handle of the wrapped service for one connection,
    /// whatever the connection-identifying value is.
    pub fn call<T>(&mut self, _target: T) -> (r: S)
        ensures
            *final(self) == *old(self),
            cloned(old(self).svc, r),
    {
        self.svc.clone()
    }
}

} // verus!
