//! Strict JSON Schema documents for structured model output.
//!
//! A type declaration (a record or a closed set of unit variants) is compiled
//! once into a [`schema::CompiledType`]; a [`schema::Registry`] of compiled
//! types then renders root documents and subordinate fragments, resolving
//! references between types by name when a document is materialised.

use vstd::prelude::*;

pub mod attributes;
pub mod endpoints;
pub mod enum_gen;
pub mod error;
pub mod json_text;
pub mod schema;
pub mod struct_gen;
pub mod text;
pub mod type_model;
pub mod util;

verus! {

/// The token usage of a request.
#[derive(Clone, Copy, Debug, PartialEq, Eq, Structural)]
pub struct Usage {
    pub prompt_tokens: u32,
    pub completion_tokens: u32,
    pub total_tokens: u32,
}

} // verus!
