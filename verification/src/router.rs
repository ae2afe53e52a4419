//! The router: dispatches a wire request to the service registered under its
//! routing key, and owns the "no match" failure mode.
//!
//! A missing route is a first-class [`RoutingError`], convertible into a
//! response like any domain error; it never surfaces as an infrastructure
//! failure.  The router's own readiness is always immediate, because the
//! matched downstream service is not known until the request arrives.

use vstd::prelude::*;
use crate::conversions::IntoResponse;
use crate::service::{ServiceError, WireService};
use crate::wire::{WireRequest, WireResponse};

verus! {

/// The routing failure mode.
pub enum RoutingError {
    /// No route matched the request key.
    Missing,
}

impl<P, Op> IntoResponse<P, Op> for RoutingError {
    open spec fn response_spec(&self) -> WireResponse {
        WireResponse { status: 404, body: None }
    }

    fn into_response(self) -> (r: WireResponse) {
        WireResponse { status: 404, body: None }
    }
}

/// The index of the first route whose key is `path`, if any.
pub open spec fn lookup_spec<S>(routes: Seq<(String, S)>, path: Seq<char>) -> Option<int>
    decreases routes.len(),
{
    if routes.len() == 0 {
        None
    } else if routes[0].0@ == path {
        Some(0int)
    } else {
        match lookup_spec(routes.skip(1), path) {
            None => None,
            Some(i) => Some(i + 1),
        }
    }
}

/// What [`lookup_spec`] finds: the first index whose key matches, and
/// nothing when no key matches.
pub proof fn lemma_lookup_spec<S>(routes: Seq<(String, S)>, path: Seq<char>)
    ensures
        match lookup_spec(routes, path) {
            Some(i) => {
                &&& 0 <= i < routes.len()
                &&& routes[i].0@ == path
                &&& forall|j: int| 0 <= j < i ==> routes[j].0@ != path
            },
            None => forall|j: int| 0 <= j < routes.len() ==> routes[j].0@ != path,
        },
    decreases routes.len(),
{
    if routes.len() != 0 && routes[0].0@ != path {
        let rest = routes.skip(1);
        lemma_lookup_spec(rest, path);
        assert forall|j: int| 0 <= j < rest.len() implies rest[j] == routes[j + 1] by {}
        match lookup_spec(rest, path) {
            None => {
                assert forall|j: int| 0 <= j < routes.len() implies routes[j].0@ != path by {
                    if j > 0 {
                        assert(routes[j] == rest[j - 1]);
                    }
                }
            },
            Some(k) => {
                assert(routes[k + 1] == rest[k]);
                assert forall|j: int| 0 <= j < k + 1 implies routes[j].0@ != path by {
                    if j > 0 {
                        assert(routes[j] == rest[j - 1]);
                    }
                }
            },
        }
    }
}

/// A route table: a mapping from routing key to wire-level service, built
/// once at assembly time and immutable but for the services' own state.
#[derive(Clone)]
pub struct Router<S> {
    /// The routes, looked up by first matching key.
    pub routes: Vec<(String, S)>,
}

impl<S> Router<S> {
    /// Builds a router from its routes.
    pub fn from_routes(routes: Vec<(String, S)>) -> (r: Router<S>)
        ensures
            r.routes == routes,
    {
        Router { routes }
    }

    /// Applies a layer uniformly across all routes.
    pub fn layer<L: crate::layer::Layer<S>>(self, layer: &L) -> (r: Router<L::Service>)
        ensures
            r.routes@.len() == self.routes@.len(),
            forall|i: int|
                0 <= i < self.routes@.len() ==> {
                    &&& (#[trigger] r.routes@[i]).0 == self.routes@[i].0
                    &&& r.routes@[i].1 == layer.layer_spec(self.routes@[i].1)
                },
    {
        let mut rest = self.routes;
        let mut layered: Vec<(String, L::Service)> = Vec::new();
        let ghost original = rest@;
        while rest.len() > 0
            invariant
                original.len() == layered@.len() + rest@.len(),
                forall|j: int|
                    0 <= j < rest@.len() ==> rest@[j] == original[layered@.len() + j],
                forall|j: int|
                    0 <= j < layered@.len() ==> {
                        &&& (#[trigger] layered@[j]).0 == original[j].0
                        &&& layered@[j].1 == layer.layer_spec(original[j].1)
                    },
            decreases rest.len(),
        {
            let (key, svc) = rest.remove(0);
            layered.push((key, layer.layer(svc)));
        }
        Router { routes: layered }
    }
}

impl<S: WireService> Router<S> {
    /// Every registered service is well formed.
    pub open spec fn routes_wf(&self) -> bool {
        forall|i: int| 0 <= i < self.routes@.len() ==> (#[trigger] self.routes@[i]).1.wf()
    }

    /// What dispatch answers: the matched service's own outcome, with its
    /// readiness or call failure propagated as an infrastructure failure,
    /// and a first-class routing failure when no key matches.
    pub open spec fn dispatch_spec(&self, req: WireRequest) -> Result<
        WireResponse,
        ServiceError<RoutingError, S::PollError>,
    > {
        match lookup_spec(self.routes@, req.path@) {
            None => Err(ServiceError::Routing(RoutingError::Missing)),
            Some(i) => match self.routes@[i].1.ready_spec() {
                Err(e) => Err(ServiceError::Poll(e)),
                Ok(u) => match self.routes@[i].1.call_spec(req) {
                    Ok(resp) => Ok(resp),
                    Err(e) => Err(ServiceError::Poll(e)),
                },
            },
        }
    }

    /// Looks the key up at call time and drives the matched service:
    /// readiness first, then the call.  Touches no route but the matched
    /// one, and none at all when no key matches.
    pub fn dispatch(&mut self, req: WireRequest) -> (r: Result<
        WireResponse,
        ServiceError<RoutingError, S::PollError>,
    >)
        requires
            old(self).routes_wf(),
        ensures
            final(self).routes_wf(),
            r == old(self).dispatch_spec(req),
            final(self).routes@.len() == old(self).routes@.len(),
            forall|j: int|
                0 <= j < old(self).routes@.len() ==> (#[trigger] final(self).routes@[j]).0
                    == old(self).routes@[j].0,
            match lookup_spec(old(self).routes@, req.path@) {
                None => final(self).routes@ == old(self).routes@,
                Some(i) => forall|j: int|
                    0 <= j < old(self).routes@.len() && j != i
                        ==> (#[trigger] final(self).routes@[j]) == old(self).routes@[j],
            },
    {
        proof {
            lemma_lookup_spec(self.routes@, req.path@);
        }
        let n = self.routes.len();
        let mut i: usize = 0;
        let mut found: bool = false;
        while !found && i < n
            invariant
                n == self.routes@.len(),
                0 <= i <= n,
                self.routes@ == old(self).routes@,
                forall|j: int| 0 <= j < i ==> (#[trigger] self.routes@[j]).0@ != req.path@,
                found ==> i < n && self.routes@[i as int].0@ == req.path@,
            decreases n - i + (if found { 0int } else { 1int }),
        {
            if self.routes[i].0 == req.path {
                found = true;
            } else {
                i = i + 1;
            }
        }
        if !found {
            return Err(ServiceError::Routing(RoutingError::Missing));
        }
        assert(lookup_spec(self.routes@, req.path@) == Some(i as int));
        let (key, mut svc) = self.routes.remove(i);
        let outcome = match svc.poll_ready() {
            Err(e) => Err(ServiceError::Poll(e)),
            Ok(u) => match svc.call(req) {
                Ok(resp) => Ok(resp),
                Err(e) => Err(ServiceError::Poll(e)),
            },
        };
        self.routes.insert(i, (key, svc));
        proof {
            let before = old(self).routes@;
            let after = self.routes@;
            assert(after.len() == before.len());
            assert forall|j: int| 0 <= j < before.len() && j != i implies after[j] == before[j] by {
                if j < i {
                    assert(after[j] == before.remove(i as int)[j]);
                } else {
                    assert(after[j] == before.remove(i as int)[j - 1]);
                }
            }
        }
        outcome
    }
}

/// Routing: a request whose key is carried by route `i`, and by no route
/// before it, is dispatched to route `i`'s service — [`Router::dispatch_spec`]
/// then unfolds to that service's own outcome, and to no other's.
pub proof fn lemma_route_match<S: WireService>(router: Router<S>, req: WireRequest, i: int)
    requires
        0 <= i < router.routes@.len(),
        router.routes@[i].0@ == req.path@,
        forall|j: int| 0 <= j < i ==> router.routes@[j].0@ != req.path@,
    ensures
        lookup_spec(router.routes@, req.path@) == Some(i),
{
    lemma_lookup_spec(router.routes@, req.path@);
}

/// Routing: a request whose key no route carries is answered with the
/// routing failure, and no route's service is consulted.
pub proof fn lemma_route_missing<S: WireService>(router: Router<S>, req: WireRequest)
    requires
        forall|j: int|
            0 <= j < router.routes@.len() ==> (#[trigger] router.routes@[j]).0@ != req.path@,
    ensures
        router.dispatch_spec(req) == Err::<WireResponse, _>(
            ServiceError::<RoutingError, S::PollError>::Routing(RoutingError::Missing),
        ),
{
    lemma_lookup_spec(router.routes@, req.path@);
}

impl<S: WireService> WireService for Router<S> {
    type PollError = ServiceError<RoutingError, S::PollError>;

    open spec fn wf(&self) -> bool {
        self.routes_wf()
    }

    open spec fn ready_spec(&self) -> Result<(), ServiceError<RoutingError, S::PollError>> {
        Ok(())
    }

    open spec fn call_spec(&self, req: WireRequest) -> Result<
        WireResponse,
        ServiceError<RoutingError, S::PollError>,
    > {
        self.dispatch_spec(req)
    }

    /// The router is always ready: the matched downstream service is not
    /// known until the request arrives, so its readiness is checked at call
    /// time.
    fn poll_ready(&mut self) -> (r: Result<(), ServiceError<RoutingError, S::PollError>>) {
        Ok(())
    }

    fn call(&mut self, req: WireRequest) -> (r: Result<
        WireResponse,
        ServiceError<RoutingError, S::PollError>,
    >) {
        self.dispatch(req)
    }
}

} // verus!
