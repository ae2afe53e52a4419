//! Protocol- and operation-aware conversion contracts between wire types and
//! typed values.
//!
//! [`FromRequest`] decomposes a wire request into a typed value, possibly
//! consuming parts of the request; [`IntoResponse`] converts a typed value
//! into a wire response and is total.  Both are parametrized by a protocol
//! marker and an operation shape, so one typed value may convert differently
//! per protocol and operation.

use vstd::prelude::*;
use crate::wire::{WireRequest, WireResponse};
use core::convert::Infallible;

verus! {

/// A protocol- and operation-aware conversion from a wire request to a typed
/// value.
///
/// `extract_spec` gives both the outcome and the request left behind, so the
/// contract pins down exactly which parts of the request an extraction
/// consumes.
pub trait FromRequest<P, Op>: Sized {
    /// The conversion failure; it must itself convert to a response.
    type Error;

    /// The outcome of extraction and the request left behind.
    spec fn extract_spec(req: WireRequest) -> (Result<Self, Self::Error>, WireRequest);

    /// Extract a typed value from the request.
    fn from_request(req: &mut WireRequest) -> (r: Result<Self, Self::Error>)
        ensures
            r == Self::extract_spec(*old(req)).0,
            *final(req) == Self::extract_spec(*old(req)).1,
    ;
}

/// A protocol- and operation-aware conversion from a typed value to a wire
/// response.  Total: every value of the type has a response.
pub trait IntoResponse<P, Op>: Sized {
    /// The response the value converts to.
    spec fn response_spec(&self) -> WireResponse;

    /// Convert the value into its response.
    fn into_response(self) -> (r: WireResponse)
        ensures
            r == self.response_spec(),
    ;
}

/// Extracting the unit type always succeeds and consumes nothing.
impl<P, Op> FromRequest<P, Op> for () {
    type Error = Infallible;

    open spec fn extract_spec(req: WireRequest) -> (Result<(), Infallible>, WireRequest) {
        (Ok(()), req)
    }

    fn from_request(req: &mut WireRequest) -> (r: Result<(), Infallible>) {
        Ok(())
    }
}

/// A typed value cannot be produced from an uninhabited conversion failure;
/// were one ever observed, it would answer with a bare internal failure.
impl<P, Op> IntoResponse<P, Op> for Infallible {
    open spec fn response_spec(&self) -> WireResponse {
        WireResponse { status: 500, body: None }
    }

    fn into_response(self) -> (r: WireResponse) {
        WireResponse { status: 500, body: None }
    }
}

/// A wrapper for request-scoped state stored in a request's extension slots.
#[derive(Clone)]
pub struct Extension<T>(pub T);

/// The failure of extracting an [`Extension`] whose slot is unoccupied.
pub struct MissingExtension;

impl<P, Op> IntoResponse<P, Op> for MissingExtension {
    open spec fn response_spec(&self) -> WireResponse {
        WireResponse { status: 500, body: None }
    }

    fn into_response(self) -> (r: WireResponse) {
        WireResponse { status: 500, body: None }
    }
}

/// Extracting a numeric extension takes the value out of its slot; the slot
/// must be occupied.
impl<P, Op> FromRequest<P, Op> for Extension<u64> {
    type Error = MissingExtension;

    open spec fn extract_spec(req: WireRequest) -> (
        Result<Extension<u64>, MissingExtension>,
        WireRequest,
    ) {
        match req.ext_number {
            Some(v) => (Ok(Extension(v)), WireRequest { ext_number: None, ..req }),
            None => (Err(MissingExtension), req),
        }
    }

    fn from_request(req: &mut WireRequest) -> (r: Result<Extension<u64>, MissingExtension>) {
        match req.ext_number.take() {
            Some(v) => Ok(Extension(v)),
            None => Err(MissingExtension),
        }
    }
}

/// Extracting a textual extension takes the value out of its slot; the slot
/// must be occupied.
impl<P, Op> FromRequest<P, Op> for Extension<String> {
    type Error = MissingExtension;

    open spec fn extract_spec(req: WireRequest) -> (
        Result<Extension<String>, MissingExtension>,
        WireRequest,
    ) {
        match req.ext_label {
            Some(v) => (Ok(Extension(v)), WireRequest { ext_label: None, ..req }),
            None => (Err(MissingExtension), req),
        }
    }

    fn from_request(req: &mut WireRequest) -> (r: Result<Extension<String>, MissingExtension>) {
        match req.ext_label.take() {
            Some(v) => Ok(Extension(v)),
            None => Err(MissingExtension),
        }
    }
}

/// One of two errors; converts to a response whenever both sides do.
pub enum Either<A, B> {
    /// The first error.
    Left(A),
    /// The second error.
    Right(B),
}

impl<A, B, P, Op> IntoResponse<P, Op> for Either<A, B> where
    A: IntoResponse<P, Op>,
    B: IntoResponse<P, Op>,
 {
    open spec fn response_spec(&self) -> WireResponse {
        match self {
            Either::Left(left) => left.response_spec(),
            Either::Right(right) => right.response_spec(),
        }
    }

    fn into_response(self) -> (r: WireResponse) {
        match self {
            Either::Left(left) => left.into_response(),
            Either::Right(right) => right.into_response(),
        }
    }
}

/// Extracting a one-value context tuple extracts its single component.
impl<P, Op, Arg0> FromRequest<P, Op> for (Arg0,) where Arg0: FromRequest<P, Op> {
    type Error = Arg0::Error;

    open spec fn extract_spec(req: WireRequest) -> (Result<(Arg0,), Arg0::Error>, WireRequest) {
        let (r0, rest) = Arg0::extract_spec(req);
        match r0 {
            Ok(a) => (Ok((a,)), rest),
            Err(e) => (Err(e), rest),
        }
    }

    fn from_request(req: &mut WireRequest) -> (r: Result<(Arg0,), Arg0::Error>) {
        match Arg0::from_request(req) {
            Ok(a) => Ok((a,)),
            Err(e) => Err(e),
        }
    }
}

/// Extracting a two-value tuple attempts both components in order, on
/// whatever the first left behind; a failure of either side is reported on
/// its own arm of [`Either`], the first side taking precedence when both
/// fail.
impl<P, Op, Arg0, Arg1> FromRequest<P, Op> for (Arg0, Arg1) where
    Arg0: FromRequest<P, Op>,
    Arg1: FromRequest<P, Op>,
 {
    type Error = Either<Arg0::Error, Arg1::Error>;

    open spec fn extract_spec(req: WireRequest) -> (
        Result<(Arg0, Arg1), Either<Arg0::Error, Arg1::Error>>,
        WireRequest,
    ) {
        let (r0, rest0) = Arg0::extract_spec(req);
        let (r1, rest1) = Arg1::extract_spec(rest0);
        match (r0, r1) {
            (Ok(a), Ok(b)) => (Ok((a, b)), rest1),
            (Err(e), _) => (Err(Either::Left(e)), rest1),
            (Ok(_), Err(e)) => (Err(Either::Right(e)), rest1),
        }
    }

    fn from_request(req: &mut WireRequest) -> (r: Result<
        (Arg0, Arg1),
        Either<Arg0::Error, Arg1::Error>,
    >) {
        let r0 = Arg0::from_request(req);
        let r1 = Arg1::from_request(req);
        match (r0, r1) {
            (Ok(a), Ok(b)) => Ok((a, b)),
            (Err(e), _) => Err(Either::Left(e)),
            (Ok(_), Err(e)) => Err(Either::Right(e)),
        }
    }
}

} // verus!
