//! The typed values of the served operations.

use vstd::prelude::*;

verus! {

/// The input of the species lookup operation.
pub struct GetPokemonSpeciesInput {
    /// The species name being looked up.
    pub name: String,
}

/// The output of the species lookup operation.
pub struct GetPokemonSpeciesOutput {
    /// The flavor text of the species.
    pub flavor_text: String,
}

/// The domain error of the species lookup operation: no such species.
pub struct ResourceNotFoundException {
    /// What was not found.
    pub message: String,
}

/// The input of the empty operation: nothing.
pub struct EmptyOperationInput;

/// The output of the empty operation: nothing.
pub struct EmptyOperationOutput;

} // verus!
