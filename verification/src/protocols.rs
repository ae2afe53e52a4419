//! Protocol markers.  A protocol parametrizes the extraction and response
//! conversions of every operation served under it.

use vstd::prelude::*;

verus! {

/// The REST-JSON protocol marker.
#[derive(Clone)]
pub struct AWSRestJsonV1;

} // verus!
