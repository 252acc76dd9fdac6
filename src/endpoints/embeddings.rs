//! Text embeddings requests.

use vstd::prelude::*;

verus! {

/// A model for text embeddings.
#[derive(Clone, Copy, Debug, PartialEq, Eq, Structural)]
pub enum EmbeddingsModel {
    TextEmbedding3Large,
}

impl EmbeddingsModel {
    /// The identifier of the model on the wire.
    pub fn name(&self) -> (r: &'static str)
        ensures
            r@ == "text-embedding-3-large"@,
    {
        "text-embedding-3-large"
    }
}

/// A text embeddings request.
pub struct Embeddings {
    pub model: EmbeddingsModel,
    pub input: String,
}

impl Embeddings {
    /// A request for the embedding of `input` by `model`.
    pub fn new(model: EmbeddingsModel, input: String) -> (r: Embeddings)
        ensures
            r.model == model,
            r.input == input,
    {
        Embeddings { model, input }
    }
}

impl crate::endpoints::Sealed for Embeddings {}

} // verus!
