//! System pattern endpoints: their status responses.

use vstd::prelude::*;

use crate::handlers::outcome::{delete_message, delete_message_text, success_status};

verus! {

/// The response to a deletion of a system pattern.
pub struct DeleteResponse {
    pub status: String,
    pub message: String,
}

impl DeleteResponse {
    /// The response to a deletion of the entry `id`: deleted, or not found.
    pub fn for_entry(id: i64, deleted: bool) -> (r: Self)
        ensures
            r.status@ == "success"@,
            r.message@ == delete_message_text("System pattern"@, id, deleted),
    {
        DeleteResponse { status: success_status(), message: delete_message("System pattern", id, deleted) }
    }
}

} // verus!
