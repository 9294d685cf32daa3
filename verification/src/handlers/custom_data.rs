//! Custom data endpoints: their requests, the arguments they make, and the
//! answers to what the database gave back.

use vstd::prelude::*;
use vstd::std_specs::convert::FromSpec;
use vstd::string::StringExecFns;

use crate::handlers::outcome::success_status;
use crate::protocol::response::{code_number, Error, ErrorCode};
use crate::types::custom_data::{CustomData, CustomDataResponse, GetCustomDataArgs, LogCustomDataArgs};

verus! {

broadcast use vstd::string::group_string_axioms;

/// Query arguments of the custom data endpoints.
pub struct CustomDataQueryArgs {
    pub workspace_id: String,
    pub category: Option<String>,
    pub key: Option<String>,
}

/// The response to a deletion of custom data.
pub struct DeleteResponse {
    pub status: String,
    pub message: String,
}

/// The message of a deletion of the entry `(category, key)`.
pub open spec fn custom_delete_message(category: Seq<char>, key: Seq<char>, deleted: bool) -> Seq<char> {
    "CustomData ("@ + category + ", "@ + key + (if deleted {
        ") deleted successfully."@
    } else {
        ") not found in database."@
    })
}

impl DeleteResponse {
    /// The response to a deletion of the entry `(category, key)`: deleted, or
    /// not found.
    pub fn for_entry(category: &str, key: &str, deleted: bool) -> (r: Self)
        ensures
            r.status@ == "success"@,
            r.message@ == custom_delete_message(category@, key@, deleted),
    {
        let mut m = String::from_str("CustomData (");
        m.append(category);
        m.append(", ");
        m.append(key);
        if deleted {
            m.append(") deleted successfully.");
        } else {
            m.append(") not found in database.");
        }
        DeleteResponse { status: success_status(), message: m }
    }
}

/// The request that sets a custom data entry.
pub struct SetCustomDataRequest {
    pub workspace_id: String,
    pub category: String,
    pub key: String,
    pub value: serde_json::Value,
}

/// The request that names a custom data entry.
pub struct GetCustomDataRequest {
    pub workspace_id: String,
    pub category: String,
    pub key: String,
}

/// The error that answers a request for an entry that is not stored.
pub open spec fn custom_not_found(e: Error) -> bool {
    e.code == code_number(ErrorCode::NotFound) && e.message@ == "Not found: "@ + "CustomData not found"@
        && e.data is None
}

fn not_found() -> (e: Error)
    ensures
        custom_not_found(e),
{
    Error::NotFound("CustomData not found")
}

/// HandleSetCustomData - Standalone handler function for MCP protocol
pub struct HandleSetCustomData;

impl HandleSetCustomData {
    /// The arguments that store the entry of a request.
    pub fn Arguments(Payload: SetCustomDataRequest) -> (r: LogCustomDataArgs)
        ensures
            r.workspace_id == Payload.workspace_id,
            r.category == Payload.category,
            r.key == Payload.key,
            r.value == Payload.value,
    {
        LogCustomDataArgs {
            workspace_id: Payload.workspace_id,
            category: Payload.category,
            key: Payload.key,
            value: Payload.value,
        }
    }

    /// The answer with the stored entry.
    pub fn Respond(entry: CustomData) -> (r: Result<CustomDataResponse, Error>)
        ensures
            r == Ok::<CustomDataResponse, Error>(CustomDataResponse::from_spec(entry)),
    {
        Ok(CustomDataResponse::from(entry))
    }
}

/// HandleGetCustomData - Standalone handler function for MCP protocol
pub struct HandleGetCustomData;

impl HandleGetCustomData {
    /// The arguments that look up the entry of a request.
    pub fn Arguments(Payload: GetCustomDataRequest) -> (r: GetCustomDataArgs)
        ensures
            r.workspace_id == Payload.workspace_id,
            r.category == Some(Payload.category),
            r.key == Some(Payload.key),
    {
        GetCustomDataArgs {
            workspace_id: Payload.workspace_id,
            category: Some(Payload.category),
            key: Some(Payload.key),
        }
    }

    /// The answer to what the lookup found: its first entry, else not found.
    pub fn Respond(entries: Vec<CustomData>) -> (r: Result<CustomDataResponse, Error>)
        ensures
            entries@.len() > 0 ==> r == Ok::<CustomDataResponse, Error>(
                CustomDataResponse::from_spec(entries@[0]),
            ),
            entries@.len() == 0 ==> (r matches Err(e) && custom_not_found(e)),
    {
        let mut entries = entries;
        if entries.len() == 0 {
            return Err(not_found());
        }
        let first = entries.remove(0);
        Ok(CustomDataResponse::from(first))
    }
}

/// HandleDeleteCustomData - Standalone handler function for MCP protocol
pub struct HandleDeleteCustomData;

impl HandleDeleteCustomData {
    /// The answer to a deletion: done, or not found.
    pub fn Respond(deleted: bool) -> (r: Result<(), Error>)
        ensures
            deleted ==> r is Ok,
            !deleted ==> (r matches Err(e) && custom_not_found(e)),
    {
        if deleted {
            Ok(())
        } else {
            Err(not_found())
        }
    }
}


/// The message of a removal of the entry `category/key` by the custom data
/// endpoint.
pub open spec fn removal_message_text(category: Seq<char>, key: Seq<char>, deleted: bool) -> Seq<char> {
    "Custom data '"@ + category + "/"@ + key + (if deleted {
        "' deleted."@
    } else {
        "' not found for deletion."@
    })
}

/// The response of the custom data endpoint to a removal of the entry
/// `category/key`: removed, or not found.
pub fn removal_response(category: &str, key: &str, deleted: bool) -> (r: DeleteResponse)
    ensures
        r.status@ == "success"@,
        r.message@ == removal_message_text(category@, key@, deleted),
{
    let mut m = String::from_str("Custom data '");
    m.append(category);
    m.append("/");
    m.append(key);
    if deleted {
        m.append("' deleted.");
    } else {
        m.append("' not found for deletion.");
    }
    DeleteResponse { status: success_status(), message: m }
}

} // verus!
