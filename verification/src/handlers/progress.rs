//! Progress endpoints: their status responses.

use vstd::prelude::*;

use crate::handlers::outcome::{delete_message, delete_message_text, success_status, update_message, update_message_text};

verus! {

/// The response to an update of a progress entry.
pub struct UpdateResponse {
    pub status: String,
    pub message: String,
}

impl UpdateResponse {
    /// The response to an update of the entry `id`: updated, or not found.
    pub fn for_entry(id: i64, updated: bool) -> (r: Self)
        ensures
            r.status@ == "success"@,
            r.message@ == update_message_text("Progress entry"@, id, updated),
    {
        UpdateResponse { status: success_status(), message: update_message("Progress entry", id, updated) }
    }
}

/// The response to a deletion of a progress entry.
pub struct DeleteResponse {
    pub status: String,
    pub message: String,
}

impl DeleteResponse {
    /// The response to a deletion of the entry `id`: deleted, or not found.
    pub fn for_entry(id: i64, deleted: bool) -> (r: Self)
        ensures
            r.status@ == "success"@,
            r.message@ == delete_message_text("Progress entry"@, id, deleted),
    {
        DeleteResponse { status: success_status(), message: delete_message("Progress entry", id, deleted) }
    }
}

} // verus!
