//! The operation shape: static metadata associating a compile-time name with
//! the three types of one RPC operation.

use vstd::prelude::*;

verus! {

/// Static metadata for one RPC operation: a name and the input, output and
/// domain error types.  Pure metadata; no behaviour.
pub trait OperationShape {
    /// The operation input.
    type Input;

    /// The operation output.
    type Output;

    /// The operation's modelled (domain) error.
    type Error;

    /// The operation's name, used as its routing key.
    spec fn name_spec() -> Seq<char>;

    /// The operation's name.
    fn name() -> (r: &'static str)
        ensures
            r@ == Self::name_spec(),
    ;
}

} // verus!
