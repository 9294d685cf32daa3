//! Links between ConPort items.

pub mod item_type;
pub mod relationship;

use vstd::prelude::*;
use vstd::string::StringExecFns;

use crate::clock::{new_uuid, now_rfc3339, utc_rfc3339_text, uuid_v4_text};

verus! {

/// Main ContextLink structure for linking ConPort items
pub struct ContextLink {
    pub Id: String,
    pub WorkspaceId: String,
    pub Timestamp: String,
    pub SourceItemType: String,
    pub SourceItemId: String,
    pub TargetItemType: String,
    pub TargetItemId: String,
    pub RelationshipType: String,
    pub Description: Option<String>,
}

impl ContextLink {
    /// A new link with a fresh identifier and the current time.
    pub fn New(
        WorkspaceId: String,
        SourceItemType: String,
        SourceItemId: String,
        TargetItemType: String,
        TargetItemId: String,
        RelationshipType: String,
        Description: Option<String>,
    ) -> (r: Self)
        ensures
            uuid_v4_text(r.Id@),
            utc_rfc3339_text(r.Timestamp@),
            r.WorkspaceId == WorkspaceId,
            r.SourceItemType == SourceItemType,
            r.SourceItemId == SourceItemId,
            r.TargetItemType == TargetItemType,
            r.TargetItemId == TargetItemId,
            r.RelationshipType == RelationshipType,
            r.Description == Description,
    {
        ContextLink {
            Id: new_uuid(),
            WorkspaceId,
            Timestamp: now_rfc3339(),
            SourceItemType,
            SourceItemId,
            TargetItemType,
            TargetItemId,
            RelationshipType,
            Description,
        }
    }

    /// A link with the given identifier and the current time.
    pub fn with_id(
        Id: String,
        WorkspaceId: String,
        SourceItemType: String,
        SourceItemId: String,
        TargetItemType: String,
        TargetItemId: String,
        RelationshipType: String,
        Description: Option<String>,
    ) -> (r: Self)
        ensures
            r.Id == Id,
            utc_rfc3339_text(r.Timestamp@),
            r.WorkspaceId == WorkspaceId,
            r.SourceItemType == SourceItemType,
            r.SourceItemId == SourceItemId,
            r.TargetItemType == TargetItemType,
            r.TargetItemId == TargetItemId,
            r.RelationshipType == RelationshipType,
            r.Description == Description,
    {
        ContextLink {
            Id,
            WorkspaceId,
            Timestamp: now_rfc3339(),
            SourceItemType,
            SourceItemId,
            TargetItemType,
            TargetItemId,
            RelationshipType,
            Description,
        }
    }
}

/// HTTP response type for ContextLink
pub struct LinkResponse {
    pub id: String,
    pub workspace_id: String,
    pub timestamp: String,
    pub source_item_type: String,
    pub source_item_id: String,
    pub target_item_type: String,
    pub target_item_id: String,
    pub relationship_type: String,
    pub description: Option<String>,
}

impl From<ContextLink> for LinkResponse {
    fn from(l: ContextLink) -> (r: Self) {
        LinkResponse {
            id: l.Id,
            workspace_id: l.WorkspaceId,
            timestamp: l.Timestamp,
            source_item_type: l.SourceItemType,
            source_item_id: l.SourceItemId,
            target_item_type: l.TargetItemType,
            target_item_id: l.TargetItemId,
            relationship_type: l.RelationshipType,
            description: l.Description,
        }
    }
}

impl vstd::std_specs::convert::FromSpecImpl<ContextLink> for LinkResponse {
    open spec fn obeys_from_spec() -> bool {
        true
    }

    open spec fn from_spec(l: ContextLink) -> Self {
        LinkResponse {
            id: l.Id,
            workspace_id: l.WorkspaceId,
            timestamp: l.Timestamp,
            source_item_type: l.SourceItemType,
            source_item_id: l.SourceItemId,
            target_item_type: l.TargetItemType,
            target_item_id: l.TargetItemId,
            relationship_type: l.RelationshipType,
            description: l.Description,
        }
    }
}

// ============================================================================
// Tool Argument Types
// ============================================================================

/// Arguments for creating a link between two ConPort items
pub struct LinkConportItemsArgs {
    pub workspace_id: String,
    pub source_item_type: String,
    pub source_item_id: String,
    pub target_item_type: String,
    pub target_item_id: String,
    pub relationship_type: String,
    pub description: Option<String>,
}

impl LinkConportItemsArgs {
    /// Checks, in order: both item types are known, both identifiers and the
    /// relationship type are not empty.
    pub fn validate(&self) -> (r: Result<(), String>)
        ensures
            if !item_type::names().contains(self.source_item_type@) {
                r matches Err(e) && e@ == "Invalid source_item_type: "@ + self.source_item_type@
            } else if !item_type::names().contains(self.target_item_type@) {
                r matches Err(e) && e@ == "Invalid target_item_type: "@ + self.target_item_type@
            } else if self.source_item_id@.len() == 0 {
                r matches Err(e) && e@ == "source_item_id is required"@
            } else if self.target_item_id@.len() == 0 {
                r matches Err(e) && e@ == "target_item_id is required"@
            } else if self.relationship_type@.len() == 0 {
                r matches Err(e) && e@ == "relationship_type is required"@
            } else {
                r is Ok
            },
    {
        if !item_type::is_valid(self.source_item_type.as_str()) {
            let mut m = String::from_str("Invalid source_item_type: ");
            m.append(self.source_item_type.as_str());
            return Err(m);
        }
        if !item_type::is_valid(self.target_item_type.as_str()) {
            let mut m = String::from_str("Invalid target_item_type: ");
            m.append(self.target_item_type.as_str());
            return Err(m);
        }
        if self.source_item_id.as_str().is_empty() {
            return Err(String::from_str("source_item_id is required"));
        }
        if self.target_item_id.as_str().is_empty() {
            return Err(String::from_str("target_item_id is required"));
        }
        if self.relationship_type.as_str().is_empty() {
            return Err(String::from_str("relationship_type is required"));
        }
        Ok(())
    }
}

/// Arguments for retrieving links for a ConPort item
pub struct GetLinkedItemsArgs {
    pub workspace_id: String,
    pub item_type: String,
    pub item_id: String,
    pub relationship_type_filter: Option<String>,
    pub linked_item_type_filter: Option<String>,
    pub limit: Option<i64>,
}

impl GetLinkedItemsArgs {
    pub fn limit_value(&self) -> (r: i64)
        ensures
            r == match self.limit {
                Some(l) => l,
                None => 50,
            },
    {
        match self.limit {
            Some(l) => l,
            None => 50,
        }
    }

    /// Checks, in order: the item type is known, the identifier is not empty
    /// and a given limit is at least 1.
    pub fn validate(&self) -> (r: Result<(), String>)
        ensures
            if !item_type::names().contains(self.item_type@) {
                r matches Err(e) && e@ == "Invalid item_type: "@ + self.item_type@
            } else if self.item_id@.len() == 0 {
                r matches Err(e) && e@ == "item_id is required"@
            } else if self.limit matches Some(l) && l < 1 {
                r matches Err(e) && e@ == "limit must be greater than or equal to 1"@
            } else {
                r is Ok
            },
    {
        if !item_type::is_valid(self.item_type.as_str()) {
            let mut m = String::from_str("Invalid item_type: ");
            m.append(self.item_type.as_str());
            return Err(m);
        }
        if self.item_id.as_str().is_empty() {
            return Err(String::from_str("item_id is required"));
        }
        if let Some(limit) = self.limit {
            if limit < 1 {
                return Err(String::from_str("limit must be greater than or equal to 1"));
            }
        }
        Ok(())
    }
}

/// Response type for link operations
pub struct LinkOperationResponse {
    pub status: String,
    pub message: String,
    pub link: Option<LinkResponse>,
}

} // verus!
