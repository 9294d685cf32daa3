//! Link endpoints: validation of link requests, the link a request makes,
//! and the responses.

use vstd::prelude::*;
use vstd::string::StringExecFns;

use crate::protocol::response::{code_number, Error, ErrorCode};
use crate::text::str_eq;
use crate::types::context_link::item_type::{is_valid, names};
use crate::types::context_link::{ContextLink, LinkResponse};

verus! {

broadcast use vstd::string::group_string_axioms;

/// Request for linking two items
pub struct LinkItemsRequest {
    pub WorkspaceId: String,
    pub SourceItemType: String,
    pub SourceItemId: String,
    pub TargetItemType: String,
    pub TargetItemId: String,
    pub RelationshipType: String,
    pub Description: Option<String>,
}

/// Response for linking items
pub struct LinkItemsResponse {
    pub Link: LinkResponse,
    pub Message: String,
}

/// Request for getting linked items
pub struct GetLinkedItemsRequest {
    pub WorkspaceId: String,
    pub ItemType: String,
    pub ItemId: String,
    pub RelationshipTypeFilter: Option<String>,
    pub LinkedItemTypeFilter: Option<String>,
    pub Limit: Option<usize>,
}

/// Response for getting linked items
pub struct GetLinkedItemsResponse {
    pub Links: Vec<LinkResponse>,
    pub Total: usize,
    pub SourceItemType: String,
    pub SourceItemId: String,
}

/// Request for removing a link
pub struct UnlinkItemsRequest {
    pub WorkspaceId: String,
    pub SourceItemType: String,
    pub SourceItemId: String,
    pub TargetItemType: String,
    pub TargetItemId: String,
}

/// The error that refuses a request as malformed, with its message.
pub open spec fn bad_request(e: Error, message: Seq<char>) -> bool {
    e.code == code_number(ErrorCode::InvalidParams) && e.message@ == message && e.data is None
}

fn refuse(prefix: &str, value: &str) -> (e: Error)
    ensures
        bad_request(e, prefix@ + value@),
{
    let mut m = String::from_str(prefix);
    m.append(value);
    Error::WithMessage(ErrorCode::InvalidParams, m.as_str())
}

/// HandleLinkItems - Create a link between two ConPort items
pub struct HandleLinkItems;

impl HandleLinkItems {
    /// Checks the request, in this order: a known source type, a known
    /// target type, and not an item linked to itself; then makes the link.
    pub fn Execute(Payload: LinkItemsRequest) -> (r: Result<LinkItemsResponse, Error>)
        ensures
            !names().contains(Payload.SourceItemType@) ==> (r matches Err(e) && bad_request(
                e,
                "Invalid source item type: "@ + Payload.SourceItemType@,
            )),
            names().contains(Payload.SourceItemType@) && !names().contains(Payload.TargetItemType@)
                ==> (r matches Err(e) && bad_request(
                e,
                "Invalid target item type: "@ + Payload.TargetItemType@,
            )),
            names().contains(Payload.SourceItemType@) && names().contains(Payload.TargetItemType@) && (
            Payload.SourceItemId@ == Payload.TargetItemId@ && Payload.SourceItemType@
                == Payload.TargetItemType@) ==> (r matches Err(e) && bad_request(
                e,
                "Cannot link an item to itself"@,
            )),
            names().contains(Payload.SourceItemType@) && names().contains(Payload.TargetItemType@) && !(
            Payload.SourceItemId@ == Payload.TargetItemId@ && Payload.SourceItemType@
                == Payload.TargetItemType@) ==> (r matches Ok(resp) && resp.Message@
                == "Link created successfully"@ && resp.Link.id@.len() == 36
                && resp.Link.workspace_id == Payload.WorkspaceId && resp.Link.source_item_type
                == Payload.SourceItemType && resp.Link.source_item_id == Payload.SourceItemId
                && resp.Link.target_item_type == Payload.TargetItemType && resp.Link.target_item_id
                == Payload.TargetItemId && resp.Link.relationship_type == Payload.RelationshipType
                && resp.Link.description == Payload.Description),
    {
        if !is_valid(Payload.SourceItemType.as_str()) {
            return Err(refuse("Invalid source item type: ", Payload.SourceItemType.as_str()));
        }
        if !is_valid(Payload.TargetItemType.as_str()) {
            return Err(refuse("Invalid target item type: ", Payload.TargetItemType.as_str()));
        }
        if str_eq(Payload.SourceItemId.as_str(), Payload.TargetItemId.as_str()) && str_eq(
            Payload.SourceItemType.as_str(),
            Payload.TargetItemType.as_str(),
        ) {
            return Err(Error::WithMessage(ErrorCode::InvalidParams, "Cannot link an item to itself"));
        }
        let link = ContextLink::New(
            Payload.WorkspaceId,
            Payload.SourceItemType,
            Payload.SourceItemId,
            Payload.TargetItemType,
            Payload.TargetItemId,
            Payload.RelationshipType,
            Payload.Description,
        );
        Ok(LinkItemsResponse {
            Link: LinkResponse::from(link),
            Message: String::from_str("Link created successfully"),
        })
    }
}

/// HandleGetLinkedItems - Get all items linked to a specific item
pub struct HandleGetLinkedItems;

impl HandleGetLinkedItems {
    /// Checks the item type and gives the number of links to read: the
    /// limit asked for, ten by default.
    pub fn Prepare(Payload: &GetLinkedItemsRequest) -> (r: Result<usize, Error>)
        ensures
            !names().contains(Payload.ItemType@) ==> (r matches Err(e) && bad_request(
                e,
                "Invalid item type: "@ + Payload.ItemType@,
            )),
            names().contains(Payload.ItemType@) ==> r == Ok::<usize, Error>(
                match Payload.Limit {
                    Some(l) => l,
                    None => 10,
                },
            ),
    {
        if !is_valid(Payload.ItemType.as_str()) {
            return Err(refuse("Invalid item type: ", Payload.ItemType.as_str()));
        }
        match Payload.Limit {
            Some(l) => Ok(l),
            None => Ok(10),
        }
    }

    /// The response with the links that were read.
    pub fn Respond(Payload: GetLinkedItemsRequest, Links: Vec<LinkResponse>) -> (r: GetLinkedItemsResponse)
        ensures
            r.Links@ == Links@,
            r.Total == Links@.len(),
            r.SourceItemType == Payload.ItemType,
            r.SourceItemId == Payload.ItemId,
    {
        let Total = Links.len();
        GetLinkedItemsResponse {
            Links,
            Total,
            SourceItemType: Payload.ItemType,
            SourceItemId: Payload.ItemId,
        }
    }
}

/// HandleUnlinkItems - Remove a link between two items
pub struct HandleUnlinkItems;

impl HandleUnlinkItems {
    /// The message that answers a removal.
    pub fn Message() -> (r: String)
        ensures
            r@ == "Link removed successfully"@,
    {
        String::from_str("Link removed successfully")
    }
}

} // verus!
