//! History of context changes and the arguments of the history tools.

pub mod item_type;

use vstd::prelude::*;
use vstd::string::StringExecFns;

use crate::clock::{now_rfc3339, utc_rfc3339_text};
use crate::json::{decode_value, encode_value, json_value_of, value_json_text};

verus! {

/// Main ContextHistory structure for tracking context changes
pub struct ContextHistory {
    pub Id: i64,
    pub WorkspaceId: String,
    pub Timestamp: String,
    pub Version: i64,
    pub Content: serde_json::Value,
    pub ChangeSource: Option<String>,
}

impl ContextHistory {
    /// A new history entry stamped with the current time, with the
    /// provisional identifier 1 until the database sets its own.
    pub fn New(
        WorkspaceId: String,
        Version: i64,
        Content: serde_json::Value,
        ChangeSource: Option<String>,
    ) -> (r: Self)
        ensures
            r.Id == 1,
            r.WorkspaceId == WorkspaceId,
            r.Version == Version,
            r.Content == Content,
            r.ChangeSource == ChangeSource,
            utc_rfc3339_text(r.Timestamp@),
    {
        ContextHistory { Id: 1, WorkspaceId, Timestamp: now_rfc3339(), Version, Content, ChangeSource }
    }

    /// A history entry with the given identifier, stamped with the current time.
    pub fn with_id(
        Id: i64,
        WorkspaceId: String,
        Version: i64,
        Content: serde_json::Value,
        ChangeSource: Option<String>,
    ) -> (r: Self)
        ensures
            r.Id == Id,
            r.WorkspaceId == WorkspaceId,
            r.Version == Version,
            r.Content == Content,
            r.ChangeSource == ChangeSource,
            utc_rfc3339_text(r.Timestamp@),
    {
        ContextHistory { Id, WorkspaceId, Timestamp: now_rfc3339(), Version, Content, ChangeSource }
    }

    /// Serialize content to JSON string for database storage (`{}` where it
    /// cannot be serialised)
    pub fn content_to_json(&self) -> (r: String)
        ensures
            r@ == value_json_text(self.Content),
    {
        match encode_value(&self.Content) {
            Some(s) => s,
            None => String::from_str("{}"),
        }
    }

    /// Deserialize content from JSON string from database (`Null` where the
    /// text is not JSON)
    pub fn content_from_json(json: &str) -> (r: serde_json::Value)
        ensures
            r == json_value_of(json@),
    {
        decode_value(json)
    }
}

/// HTTP response type for ContextHistory
pub struct HistoryResponse {
    pub id: i64,
    pub workspace_id: String,
    pub timestamp: String,
    pub version: i64,
    pub content: serde_json::Value,
    pub change_source: Option<String>,
}

impl From<ContextHistory> for HistoryResponse {
    fn from(h: ContextHistory) -> (r: Self) {
        HistoryResponse {
            id: h.Id,
            workspace_id: h.WorkspaceId,
            timestamp: h.Timestamp,
            version: h.Version,
            content: h.Content,
            change_source: h.ChangeSource,
        }
    }
}

impl vstd::std_specs::convert::FromSpecImpl<ContextHistory> for HistoryResponse {
    open spec fn obeys_from_spec() -> bool {
        true
    }

    open spec fn from_spec(h: ContextHistory) -> Self {
        HistoryResponse {
            id: h.Id,
            workspace_id: h.WorkspaceId,
            timestamp: h.Timestamp,
            version: h.Version,
            content: h.Content,
            change_source: h.ChangeSource,
        }
    }
}

// ============================================================================
// Tool Argument Types
// ============================================================================

/// Arguments for retrieving history of a context item
pub struct GetItemHistoryArgs {
    pub workspace_id: String,
    pub item_type: String,
    pub limit: Option<i64>,
    pub before_timestamp: Option<String>,
    pub after_timestamp: Option<String>,
    pub version: Option<i64>,
}

impl GetItemHistoryArgs {
    pub fn limit_value(&self) -> (r: i64)
        ensures
            r == match self.limit {
                Some(l) => l,
                None => 50,
            },
    {
        match self.limit {
            Some(l) => l,
            None => 50,
        }
    }

    /// Checks, in order: the item type is tracked, a given limit is at least
    /// 1 and a given version is at least 1.
    pub fn validate(&self) -> (r: Result<(), String>)
        ensures
            if !item_type::names().contains(self.item_type@) {
                r matches Err(e) && e@
                    == "item_type must be 'product_context' or 'active_context'"@
            } else if self.limit matches Some(l) && l < 1 {
                r matches Err(e) && e@ == "limit must be greater than or equal to 1"@
            } else if self.version matches Some(v) && v < 1 {
                r matches Err(e) && e@ == "version must be greater than or equal to 1"@
            } else {
                r is Ok
            },
    {
        if !item_type::is_valid(self.item_type.as_str()) {
            return Err(String::from_str("item_type must be 'product_context' or 'active_context'"));
        }
        if let Some(limit) = self.limit {
            if limit < 1 {
                return Err(String::from_str("limit must be greater than or equal to 1"));
            }
        }
        if let Some(version) = self.version {
            if version < 1 {
                return Err(String::from_str("version must be greater than or equal to 1"));
            }
        }
        Ok(())
    }
}

/// Arguments for getting recent activity summary
pub struct GetRecentActivitySummaryArgs {
    pub workspace_id: String,
    pub hours_ago: Option<i64>,
    pub since_timestamp: Option<String>,
    pub limit_per_type: Option<i64>,
}

impl GetRecentActivitySummaryArgs {
    pub fn limit_per_type_value(&self) -> (r: i64)
        ensures
            r == match self.limit_per_type {
                Some(l) => l,
                None => 5,
            },
    {
        match self.limit_per_type {
            Some(l) => l,
            None => 5,
        }
    }

    /// Checks, in order: at most one time filter, a given `hours_ago` of at
    /// least 1 and a given limit of at least 1.
    pub fn validate(&self) -> (r: Result<(), String>)
        ensures
            if self.hours_ago is Some && self.since_timestamp is Some {
                r matches Err(e) && e@
                    == "Provide either 'hours_ago' or 'since_timestamp', not both"@
            } else if self.hours_ago matches Some(h) && h < 1 {
                r matches Err(e) && e@ == "hours_ago must be greater than or equal to 1"@
            } else if self.limit_per_type matches Some(l) && l < 1 {
                r matches Err(e) && e@ == "limit_per_type must be greater than or equal to 1"@
            } else {
                r is Ok
            },
    {
        if self.hours_ago.is_some() && self.since_timestamp.is_some() {
            return Err(
                String::from_str("Provide either 'hours_ago' or 'since_timestamp', not both"),
            );
        }
        if let Some(hours) = self.hours_ago {
            if hours < 1 {
                return Err(String::from_str("hours_ago must be greater than or equal to 1"));
            }
        }
        if let Some(limit) = self.limit_per_type {
            if limit < 1 {
                return Err(String::from_str("limit_per_type must be greater than or equal to 1"));
            }
        }
        Ok(())
    }
}

/// Recent activity summary response
pub struct RecentActivitySummary {
    pub product_context: Vec<HistoryResponse>,
    pub active_context: Vec<HistoryResponse>,
    pub decisions: Vec<serde_json::Value>,
    pub progress_entries: Vec<serde_json::Value>,
    pub system_patterns: Vec<serde_json::Value>,
    pub custom_data: Vec<serde_json::Value>,
}

} // verus!
