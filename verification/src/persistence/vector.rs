//! What the vector store keeps with each vector.

use vstd::prelude::*;

verus! {

/// Metadata associated with a vector
#[derive(Debug, Clone)]
pub struct VectorMetadata {
    pub Id: String,
    pub WorkspaceId: String,
    pub ItemType: String,
    pub CreatedAt: String,
}

} // verus!
