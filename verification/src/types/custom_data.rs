//! Arbitrary key-value data kept per workspace.

use vstd::prelude::*;
use vstd::string::StringExecFns;

use crate::clock::{new_uuid, now_rfc3339, utc_rfc3339_text, uuid_v4_text};
use crate::json::{decode_value, encode_value, json_value_of, value_json_text};

verus! {

/// Main CustomData structure representing arbitrary key-value data
pub struct CustomData {
    pub Id: String,
    pub WorkspaceId: String,
    pub Timestamp: String,
    pub Category: String,
    pub Key: String,
    pub Value: serde_json::Value,
    pub CreatedAt: String,
}

impl CustomData {
    /// New data with a fresh identifier and the current time.
    pub fn New(WorkspaceId: String, Category: String, Key: String, Value: serde_json::Value) -> (r:
        Self)
        ensures
            uuid_v4_text(r.Id@),
            utc_rfc3339_text(r.Timestamp@),
            r.WorkspaceId == WorkspaceId,
            r.Category == Category,
            r.Key == Key,
            r.Value == Value,
            r.CreatedAt == r.Timestamp,
    {
        let now = now_rfc3339();
        CustomData {
            Id: new_uuid(),
            WorkspaceId,
            Timestamp: now.clone(),
            Category,
            Key,
            Value,
            CreatedAt: now,
        }
    }

    /// Data with the given identifier and the current time.
    pub fn with_id(
        Id: String,
        WorkspaceId: String,
        Category: String,
        Key: String,
        Value: serde_json::Value,
    ) -> (r: Self)
        ensures
            r.Id == Id,
            utc_rfc3339_text(r.Timestamp@),
            r.WorkspaceId == WorkspaceId,
            r.Category == Category,
            r.Key == Key,
            r.Value == Value,
            r.CreatedAt == r.Timestamp,
    {
        let now = now_rfc3339();
        CustomData { Id, WorkspaceId, Timestamp: now.clone(), Category, Key, Value, CreatedAt: now }
    }

    /// Serialize value to JSON string for database storage (empty where it
    /// cannot be serialised)
    pub fn value_to_json(&self) -> (r: String)
        ensures
            r@ == value_json_text(self.Value),
    {
        match encode_value(&self.Value) {
            Some(s) => s,
            None => String::new(),
        }
    }

    /// Deserialize value from JSON string from database (`Null` where the
    /// text is not JSON)
    pub fn value_from_json(json: &str) -> (r: serde_json::Value)
        ensures
            r == json_value_of(json@),
    {
        decode_value(json)
    }
}

/// HTTP response type for CustomData
pub struct CustomDataResponse {
    pub id: String,
    pub workspace_id: String,
    pub timestamp: String,
    pub category: String,
    pub key: String,
    pub value: serde_json::Value,
    pub created_at: String,
}

impl From<CustomData> for CustomDataResponse {
    fn from(c: CustomData) -> (r: Self) {
        CustomDataResponse {
            id: c.Id,
            workspace_id: c.WorkspaceId,
            timestamp: c.Timestamp,
            category: c.Category,
            key: c.Key,
            value: c.Value,
            created_at: c.CreatedAt,
        }
    }
}

impl vstd::std_specs::convert::FromSpecImpl<CustomData> for CustomDataResponse {
    open spec fn obeys_from_spec() -> bool {
        true
    }

    open spec fn from_spec(c: CustomData) -> Self {
        CustomDataResponse {
            id: c.Id,
            workspace_id: c.WorkspaceId,
            timestamp: c.Timestamp,
            category: c.Category,
            key: c.Key,
            value: c.Value,
            created_at: c.CreatedAt,
        }
    }
}

// ============================================================================
// Tool Argument Types
// ============================================================================

/// Arguments for logging/creating custom data
pub struct LogCustomDataArgs {
    pub workspace_id: String,
    pub category: String,
    pub key: String,
    pub value: serde_json::Value,
}

impl LogCustomDataArgs {
    /// Checks, in order, that the category and the key are not empty.
    pub fn validate(&self) -> (r: Result<(), String>)
        ensures
            if self.category@.len() == 0 {
                r matches Err(e) && e@ == "category is required"@
            } else if self.key@.len() == 0 {
                r matches Err(e) && e@ == "key is required"@
            } else {
                r is Ok
            },
    {
        if self.category.as_str().is_empty() {
            return Err(String::from_str("category is required"));
        }
        if self.key.as_str().is_empty() {
            return Err(String::from_str("key is required"));
        }
        Ok(())
    }
}

/// Arguments for retrieving custom data
pub struct GetCustomDataArgs {
    pub workspace_id: String,
    pub category: Option<String>,
    pub key: Option<String>,
}

impl GetCustomDataArgs {
    /// A key filter needs a category.
    pub fn validate(&self) -> (r: Result<(), String>)
        ensures
            if self.key is Some && self.category is None {
                r matches Err(e) && e@ == "key filter requires category to also be specified"@
            } else {
                r is Ok
            },
    {
        if self.key.is_some() && self.category.is_none() {
            return Err(String::from_str("key filter requires category to also be specified"));
        }
        Ok(())
    }
}

/// Arguments for deleting custom data
pub struct DeleteCustomDataArgs {
    pub workspace_id: String,
    pub category: String,
    pub key: String,
}

impl DeleteCustomDataArgs {
    /// Checks, in order, that the category and the key are not empty.
    pub fn validate(&self) -> (r: Result<(), String>)
        ensures
            if self.category@.len() == 0 {
                r matches Err(e) && e@ == "category is required"@
            } else if self.key@.len() == 0 {
                r matches Err(e) && e@ == "key is required"@
            } else {
                r is Ok
            },
    {
        if self.category.as_str().is_empty() {
            return Err(String::from_str("category is required"));
        }
        if self.key.as_str().is_empty() {
            return Err(String::from_str("key is required"));
        }
        Ok(())
    }
}

/// Arguments for searching custom data using FTS
pub struct SearchCustomDataValueArgs {
    pub workspace_id: String,
    pub query_term: String,
    pub category_filter: Option<String>,
    pub limit: Option<i64>,
}

impl SearchCustomDataValueArgs {
    pub fn limit_value(&self) -> (r: i64)
        ensures
            r == match self.limit {
                Some(l) => l,
                None => 10,
            },
    {
        match self.limit {
            Some(l) => l,
            None => 10,
        }
    }

    /// Checks, in order, that the query term is not empty and that a given
    /// limit is at least 1.
    pub fn validate(&self) -> (r: Result<(), String>)
        ensures
            if self.query_term@.len() == 0 {
                r matches Err(e) && e@ == "query_term is required"@
            } else if self.limit matches Some(l) && l < 1 {
                r matches Err(e) && e@ == "limit must be greater than or equal to 1"@
            } else {
                r is Ok
            },
    {
        if self.query_term.as_str().is_empty() {
            return Err(String::from_str("query_term is required"));
        }
        if let Some(limit) = self.limit {
            if limit < 1 {
                return Err(String::from_str("limit must be greater than or equal to 1"));
            }
        }
        Ok(())
    }
}

/// Response type for delete operations
pub struct DeleteCustomDataResponse {
    pub status: String,
    pub message: String,
}

} // verus!
