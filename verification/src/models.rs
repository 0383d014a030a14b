//! The wire-level data model: request and response shapes, token-usage
//! accounting, and the uniform error envelope.
//!
//! An embedding vector is carried as an opaque payload type `V`: the
//! pipeline never looks inside a vector, it only moves each one to its
//! index-aligned place in the response.

use vstd::prelude::*;

verus! {

/// The `input` field of an embeddings request: one text string, or an
/// ordered batch of text strings.
pub enum EmbeddingInput {
    Single(String),
    Batch(Vec<String>),
}

impl EmbeddingInput {
    /// The ordered sequence of texts this input stands for; a lone string
    /// is a one-element batch.
    pub open spec fn texts(&self) -> Seq<Seq<char>> {
        match self {
            EmbeddingInput::Single(s) => seq![s@],
            EmbeddingInput::Batch(v) => v.deep_view(),
        }
    }
}

/// One embeddings request: the texts to encode and an optional client-side
/// model hint, echoed back in the response when present.
pub struct EmbeddingRequest {
    pub input: EmbeddingInput,
    pub model: Option<String>,
}

/// One embedding of the response, at the position `index` of the input
/// order.
pub struct EmbeddingData<V> {
    pub object: String,
    pub embedding: V,
    pub index: usize,
}

/// Token accounting: both fields equal the sum of the per-text token
/// counts, as this domain has no completion cost.
pub struct Usage {
    pub prompt_tokens: usize,
    pub total_tokens: usize,
}

/// The success body of an embeddings request.
pub struct EmbeddingResponse<V> {
    pub object: String,
    pub data: Vec<EmbeddingData<V>>,
    pub model: String,
    pub usage: Usage,
}

/// The body of every non-success response.
pub struct ErrorResponse {
    pub error: ErrorDetail,
}

/// A human-readable message, a machine-readable category, and an optional
/// finer-grained machine code.
pub struct ErrorDetail {
    pub message: String,
    pub error_type: String,
    pub code: Option<String>,
}

} // verus!
