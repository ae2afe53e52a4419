//! A server-side RPC dispatch runtime.
//!
//! Given a set of named operations, each with a typed input, typed output and
//! typed domain error, this crate builds a single wire-facing service that
//! routes incoming requests to the right typed handler, converts between the
//! wire representation and typed values, and lets middleware be attached both
//! at the typed (model) layer and at the wire layer.  A type-checked builder
//! guarantees that every declared operation has been wired before the server
//! can be constructed.

pub mod support;
pub mod wire;
pub mod shape;
pub mod service;
pub mod handler;
pub mod conversions;
pub mod flattened;
pub mod layer;
pub mod upgrade;
pub mod operation;
pub mod router;
pub mod make_service;
pub mod protocols;
pub mod structures;
pub mod get_pokemon_species;
pub mod empty_operation;
pub mod pokemon_service;
