//! Progress entries and the arguments of the progress tools.

pub mod status;

use vstd::prelude::*;
use vstd::string::StringExecFns;

use crate::clock::{new_uuid, now_rfc3339, utc_rfc3339_text, uuid_v4_text};

verus! {

/// Main Progress entry structure representing a task/progress item
pub struct Progress {
    pub Id: String,
    pub WorkspaceId: String,
    pub Timestamp: String,
    pub Status: String,
    pub Description: String,
    pub ParentId: Option<i64>,
    pub CreatedAt: String,
    pub UpdatedAt: String,
}

impl Progress {
    /// A new entry with a fresh identifier; its three timestamps are the
    /// same current time.
    pub fn New(WorkspaceId: String, Description: String, Status: String, ParentId: Option<i64>) -> (r:
        Self)
        ensures
            uuid_v4_text(r.Id@),
            r.WorkspaceId == WorkspaceId,
            r.Description == Description,
            r.Status == Status,
            r.ParentId == ParentId,
            r.CreatedAt == r.Timestamp,
            r.UpdatedAt == r.Timestamp,
            utc_rfc3339_text(r.Timestamp@),
    {
        let now = now_rfc3339();
        Progress {
            Id: new_uuid(),
            WorkspaceId,
            Timestamp: now.clone(),
            Status,
            Description,
            ParentId,
            CreatedAt: now.clone(),
            UpdatedAt: now,
        }
    }

    /// An entry with the given identifier; its three timestamps are the same
    /// current time.
    pub fn with_id(
        Id: String,
        WorkspaceId: String,
        Description: String,
        Status: String,
        ParentId: Option<i64>,
    ) -> (r: Self)
        ensures
            r.Id == Id,
            r.WorkspaceId == WorkspaceId,
            r.Description == Description,
            r.Status == Status,
            r.ParentId == ParentId,
            r.CreatedAt == r.Timestamp,
            r.UpdatedAt == r.Timestamp,
            utc_rfc3339_text(r.Timestamp@),
    {
        let now = now_rfc3339();
        Progress {
            Id,
            WorkspaceId,
            Timestamp: now.clone(),
            Status,
            Description,
            ParentId,
            CreatedAt: now.clone(),
            UpdatedAt: now,
        }
    }
}

/// HTTP response type for Progress
pub struct ProgressResponse {
    pub id: String,
    pub workspace_id: String,
    pub timestamp: String,
    pub status: String,
    pub description: String,
    pub parent_id: Option<i64>,
    pub created_at: String,
    pub updated_at: String,
}

impl From<Progress> for ProgressResponse {
    fn from(p: Progress) -> (r: Self) {
        ProgressResponse {
            id: p.Id,
            workspace_id: p.WorkspaceId,
            timestamp: p.Timestamp,
            status: p.Status,
            description: p.Description,
            parent_id: p.ParentId,
            created_at: p.CreatedAt,
            updated_at: p.UpdatedAt,
        }
    }
}

impl vstd::std_specs::convert::FromSpecImpl<Progress> for ProgressResponse {
    open spec fn obeys_from_spec() -> bool {
        true
    }

    open spec fn from_spec(p: Progress) -> Self {
        ProgressResponse {
            id: p.Id,
            workspace_id: p.WorkspaceId,
            timestamp: p.Timestamp,
            status: p.Status,
            description: p.Description,
            parent_id: p.ParentId,
            created_at: p.CreatedAt,
            updated_at: p.UpdatedAt,
        }
    }
}

// ============================================================================
// Tool Argument Types
// ============================================================================

/// Arguments for logging/creating a new progress entry
pub struct LogProgressArgs {
    pub workspace_id: String,
    pub status: String,
    pub description: String,
    pub parent_id: Option<i64>,
    pub linked_item_type: Option<String>,
    pub linked_item_id: Option<String>,
    pub link_relationship_type: Option<String>,
}

impl LogProgressArgs {
    /// Checks, in order: the status and the description are not empty, and a
    /// linked item type and a linked item id come together or not at all.
    pub fn validate(&self) -> (r: Result<(), String>)
        ensures
            if self.status@.len() == 0 {
                r matches Err(e) && e@ == "status is required"@
            } else if self.description@.len() == 0 {
                r matches Err(e) && e@ == "description is required"@
            } else if (self.linked_item_type is Some) != (self.linked_item_id is Some) {
                r matches Err(e) && e@
                    == "Both linked_item_type and linked_item_id must be provided together, or neither"@
            } else {
                r is Ok
            },
    {
        if self.status.as_str().is_empty() {
            return Err(String::from_str("status is required"));
        }
        if self.description.as_str().is_empty() {
            return Err(String::from_str("description is required"));
        }
        match (&self.linked_item_type, &self.linked_item_id) {
            (Some(_), None) | (None, Some(_)) => Err(
                String::from_str(
                    "Both linked_item_type and linked_item_id must be provided together, or neither",
                ),
            ),
            _ => Ok(()),
        }
    }
}

/// Arguments for retrieving progress entries
pub struct GetProgressArgs {
    pub workspace_id: String,
    pub status_filter: Option<String>,
    pub parent_id_filter: Option<i64>,
    pub limit: Option<i64>,
}

impl GetProgressArgs {
    pub fn limit_value(&self) -> (r: i64)
        ensures
            r == match self.limit {
                Some(l) => l,
                None => 50,
            },
    {
        match self.limit {
            Some(l) => l,
            None => 50,
        }
    }
}

/// Arguments for updating a progress entry
pub struct UpdateProgressArgs {
    pub workspace_id: String,
    pub progress_id: i64,
    pub status: Option<String>,
    pub description: Option<String>,
    pub parent_id: Option<i64>,
}

impl UpdateProgressArgs {
    /// Checks, in order: the identifier is at least 1 and at least one field
    /// is given.
    pub fn validate(&self) -> (r: Result<(), String>)
        ensures
            if self.progress_id < 1 {
                r matches Err(e) && e@ == "progress_id must be greater than or equal to 1"@
            } else if self.status is None && self.description is None && self.parent_id is None {
                r matches Err(e) && e@
                    == "At least one field ('status', 'description', or 'parent_id') must be provided for update"@
            } else {
                r is Ok
            },
    {
        if self.progress_id < 1 {
            return Err(String::from_str("progress_id must be greater than or equal to 1"));
        }
        if self.status.is_none() && self.description.is_none() && self.parent_id.is_none() {
            return Err(
                String::from_str(
                    "At least one field ('status', 'description', or 'parent_id') must be provided for update",
                ),
            );
        }
        Ok(())
    }
}

/// Arguments for deleting a progress entry by ID
pub struct DeleteProgressByIdArgs {
    pub workspace_id: String,
    pub progress_id: i64,
}

impl DeleteProgressByIdArgs {
    /// The identifier must be at least 1.
    pub fn validate(&self) -> (r: Result<(), String>)
        ensures
            if self.progress_id < 1 {
                r matches Err(e) && e@ == "progress_id must be greater than or equal to 1"@
            } else {
                r is Ok
            },
    {
        if self.progress_id < 1 {
            return Err(String::from_str("progress_id must be greater than or equal to 1"));
        }
        Ok(())
    }
}

/// Response type for update operations
pub struct UpdateProgressResponse {
    pub status: String,
    pub message: String,
}

/// Response type for delete operations
pub struct DeleteProgressResponse {
    pub status: String,
    pub message: String,
}

} // verus!
