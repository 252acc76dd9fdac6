//! Request and response types of the service's endpoints.

use vstd::prelude::*;

pub mod chat;
pub mod chat_reasoning;
pub mod embeddings;

verus! {

/// A marker that only this library's request types carry.
pub trait Sealed {}

} // verus!
