//! Reusable patterns and discoveries recorded per workspace.

use vstd::prelude::*;
use vstd::string::StringExecFns;

use crate::clock::{new_uuid, now_rfc3339, utc_rfc3339_text, uuid_v4_text};
use crate::json::{decode_strings, encode_strings, json_of_strings, strings_of_json};
use crate::text::views;

verus! {

/// Main SystemPattern structure representing a reusable pattern/discovery
pub struct SystemPattern {
    pub Id: String,
    pub WorkspaceId: String,
    pub Timestamp: String,
    pub Name: String,
    pub Description: Option<String>,
    pub Tags: Option<Vec<String>>,
    pub CreatedAt: String,
}

impl SystemPattern {
    /// A new pattern with a fresh identifier and the current time.
    pub fn New(
        WorkspaceId: String,
        Name: String,
        Description: Option<String>,
        Tags: Option<Vec<String>>,
    ) -> (r: Self)
        ensures
            uuid_v4_text(r.Id@),
            utc_rfc3339_text(r.Timestamp@),
            r.WorkspaceId == WorkspaceId,
            r.Name == Name,
            r.Description == Description,
            r.Tags == Tags,
            r.CreatedAt == r.Timestamp,
    {
        let now = now_rfc3339();
        SystemPattern {
            Id: new_uuid(),
            WorkspaceId,
            Timestamp: now.clone(),
            Name,
            Description,
            Tags,
            CreatedAt: now,
        }
    }

    /// A pattern with the given identifier and the current time.
    pub fn with_id(
        Id: String,
        WorkspaceId: String,
        Name: String,
        Description: Option<String>,
        Tags: Option<Vec<String>>,
    ) -> (r: Self)
        ensures
            r.Id == Id,
            utc_rfc3339_text(r.Timestamp@),
            r.WorkspaceId == WorkspaceId,
            r.Name == Name,
            r.Description == Description,
            r.Tags == Tags,
            r.CreatedAt == r.Timestamp,
    {
        let now = now_rfc3339();
        SystemPattern {
            Id,
            WorkspaceId,
            Timestamp: now.clone(),
            Name,
            Description,
            Tags,
            CreatedAt: now,
        }
    }

    /// Serialize tags to JSON string for database storage
    pub fn tags_to_json(&self) -> (r: Option<String>)
        ensures
            match self.Tags {
                Some(t) => r matches Some(s) && s@ == json_of_strings(views(t@)),
                None => r is None,
            },
    {
        match &self.Tags {
            Some(tags) => Some(encode_strings(tags)),
            None => None,
        }
    }

    /// Deserialize tags from JSON string from database: none for an empty
    /// string or a text that is not a JSON array of strings.
    pub fn tags_from_json(json: &str) -> (r: Option<Vec<String>>)
        ensures
            json@.len() == 0 ==> r is None,
            json@.len() > 0 ==> match r {
                Some(v) => strings_of_json(json@) == Some(views(v@)),
                None => strings_of_json(json@) is None,
            },
    {
        if json.is_empty() {
            return None;
        }
        decode_strings(json)
    }
}

/// HTTP response type for SystemPattern
pub struct SystemPatternResponse {
    pub id: String,
    pub workspace_id: String,
    pub timestamp: String,
    pub name: String,
    pub description: Option<String>,
    pub tags: Option<Vec<String>>,
    pub created_at: String,
}

impl From<SystemPattern> for SystemPatternResponse {
    fn from(p: SystemPattern) -> (r: Self) {
        SystemPatternResponse {
            id: p.Id,
            workspace_id: p.WorkspaceId,
            timestamp: p.Timestamp,
            name: p.Name,
            description: p.Description,
            tags: p.Tags,
            created_at: p.CreatedAt,
        }
    }
}

impl vstd::std_specs::convert::FromSpecImpl<SystemPattern> for SystemPatternResponse {
    open spec fn obeys_from_spec() -> bool {
        true
    }

    open spec fn from_spec(p: SystemPattern) -> Self {
        SystemPatternResponse {
            id: p.Id,
            workspace_id: p.WorkspaceId,
            timestamp: p.Timestamp,
            name: p.Name,
            description: p.Description,
            tags: p.Tags,
            created_at: p.CreatedAt,
        }
    }
}

// ============================================================================
// Tool Argument Types
// ============================================================================

/// Arguments for logging/creating a new system pattern
pub struct LogSystemPatternArgs {
    pub workspace_id: String,
    pub name: String,
    pub description: Option<String>,
    pub tags: Option<Vec<String>>,
}

impl LogSystemPatternArgs {
    /// The name must not be empty.
    pub fn validate(&self) -> (r: Result<(), String>)
        ensures
            if self.name@.len() == 0 {
                r matches Err(e) && e@ == "name is required"@
            } else {
                r is Ok
            },
    {
        if self.name.as_str().is_empty() {
            return Err(String::from_str("name is required"));
        }
        Ok(())
    }
}

/// Arguments for retrieving system patterns
pub struct GetSystemPatternsArgs {
    pub workspace_id: String,
    pub limit: Option<i64>,
    pub tags_filter_include_all: Option<Vec<String>>,
    pub tags_filter_include_any: Option<Vec<String>>,
}

impl GetSystemPatternsArgs {
    pub fn limit_value(&self) -> (r: i64)
        ensures
            r == match self.limit {
                Some(l) => l,
                None => 50,
            },
    {
        match self.limit {
            Some(l) => l,
            None => 50,
        }
    }

    /// Checks, in order, that at most one tag filter is given (even an empty
    /// one counts) and that a given limit is at least 1.
    pub fn validate(&self) -> (r: Result<(), String>)
        ensures
            if self.tags_filter_include_all is Some && self.tags_filter_include_any is Some {
                r matches Err(e) && e@
                    == "Cannot use 'tags_filter_include_all' and 'tags_filter_include_any' simultaneously"@
            } else if self.limit matches Some(l) && l < 1 {
                r matches Err(e) && e@ == "limit must be greater than or equal to 1"@
            } else {
                r is Ok
            },
    {
        if self.tags_filter_include_all.is_some() && self.tags_filter_include_any.is_some() {
            return Err(
                String::from_str(
                    "Cannot use 'tags_filter_include_all' and 'tags_filter_include_any' simultaneously",
                ),
            );
        }
        if let Some(limit) = self.limit {
            if limit < 1 {
                return Err(String::from_str("limit must be greater than or equal to 1"));
            }
        }
        Ok(())
    }
}

/// Arguments for deleting a system pattern by ID
pub struct DeleteSystemPatternByIdArgs {
    pub workspace_id: String,
    pub pattern_id: i64,
}

impl DeleteSystemPatternByIdArgs {
    /// The identifier must be at least 1.
    pub fn validate(&self) -> (r: Result<(), String>)
        ensures
            if self.pattern_id < 1 {
                r matches Err(e) && e@ == "pattern_id must be greater than or equal to 1"@
            } else {
                r is Ok
            },
    {
        if self.pattern_id < 1 {
            return Err(String::from_str("pattern_id must be greater than or equal to 1"));
        }
        Ok(())
    }
}

/// Response type for delete operations
pub struct DeleteSystemPatternResponse {
    pub status: String,
    pub message: String,
}

} // verus!
