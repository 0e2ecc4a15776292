use vstd::prelude::*;

verus! {

/// Errors surfaced by the converters and backends.
#[derive(Debug, PartialEq, Eq)]
pub enum CompositeLlmError {
    /// An error reported by the native chat-completion provider.
    OpenAI(String),
    /// An error reported by, or about, the structured-turn provider.
    Bedrock(String),
    /// An error reported by, or about, the contents/parts provider.
    Vertex(String),
    /// A JSON encode or decode failure.
    Serde(String),
    /// A feature that the selected provider cannot express.
    Unsupported(String),
}

} // verus!
