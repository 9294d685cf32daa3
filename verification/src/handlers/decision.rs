//! Decision endpoints: their query arguments, requests and status responses.

use vstd::prelude::*;

use crate::handlers::outcome::{delete_message, delete_message_text, success_status, update_message, update_message_text};

verus! {

/// The response to an update of a decision.
pub struct UpdateResponse {
    pub status: String,
    pub message: String,
}

impl UpdateResponse {
    /// The response to an update of the entry `id`: updated, or not found.
    pub fn for_entry(id: i64, updated: bool) -> (r: Self)
        ensures
            r.status@ == "success"@,
            r.message@ == update_message_text("Decision"@, id, updated),
    {
        UpdateResponse { status: success_status(), message: update_message("Decision", id, updated) }
    }
}

/// The response to a deletion of a decision.
pub struct DeleteResponse {
    pub status: String,
    pub message: String,
}

impl DeleteResponse {
    /// The response to a deletion of the entry `id`: deleted, or not found.
    pub fn for_entry(id: i64, deleted: bool) -> (r: Self)
        ensures
            r.status@ == "success"@,
            r.message@ == delete_message_text("Decision"@, id, deleted),
    {
        DeleteResponse { status: success_status(), message: delete_message("Decision", id, deleted) }
    }
}

/// Query args for decision endpoints
pub struct DecisionQueryArgs {
    pub workspace_id: String,
    pub limit: Option<i64>,
}

/// The request that creates a decision.
pub struct CreateDecisionRequest {
    pub ContextId: String,
    pub Description: String,
    pub Rationale: String,
}

} // verus!
