//! The embedding model's configuration and the size of its vectors.

use vstd::prelude::*;
use vstd::string::StringExecFns;

use crate::error::kind::Kind;

verus! {

/// Default embedding dimension
pub const DEFAULT_DIMENSION: usize = 384;

/// Default model name
pub const DEFAULT_MODEL_NAME: &'static str = "sentence-transformers/all-MiniLM-L6-v2";

/// Generate embedding for the ConPort MCP server
pub struct Generate;

impl Generate {
    /// The number of values in an embedding.
    pub fn Dimension() -> (r: usize)
        ensures
            r == 384,
    {
        384
    }
}

/// Trait for tokenizer (allows testing with mocks)
pub trait TokenizerTrait {
    fn encode(&self, text: &str) -> Result<Vec<i64>, Kind>;

    fn decode(&self, ids: &[i64]) -> Result<String, Kind>;
}

/// Model configuration
#[derive(Debug, Clone)]
pub struct ModelConfig {
    pub ModelPath: Option<String>,
    pub ModelName: String,
    pub Dimension: usize,
    pub Device: String,
}

impl Default for ModelConfig {
    fn default() -> (r: Self)
        ensures
            r.ModelPath is None,
            r.ModelName@ == DEFAULT_MODEL_NAME@,
            r.Dimension == DEFAULT_DIMENSION,
            r.Device@ == "cpu"@,
    {
        ModelConfig {
            ModelPath: None,
            ModelName: String::from_str(DEFAULT_MODEL_NAME),
            Dimension: DEFAULT_DIMENSION,
            Device: String::from_str("cpu"),
        }
    }
}

} // verus!
