//! Specifications for std items the crate relies on and vstd does not cover.

use vstd::prelude::*;
use core::marker::PhantomData;

verus! {

/// Relies on the std `Clone` impl of `PhantomData`: the type has exactly one
/// value, so a clone is that value.
pub assume_specification<T>[ <PhantomData<T> as Clone>::clone ](v: &PhantomData<T>) -> (r:
    PhantomData<T>)
    where
        T: core::marker::PointeeSized,
    ensures
        r == *v,
;

} // verus!
