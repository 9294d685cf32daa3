//! Decisions and the arguments of the decision tools.

use vstd::prelude::*;
use vstd::string::StringExecFns;

use crate::clock::{now_rfc3339, utc_rfc3339_text};
use crate::json::{decode_strings, encode_strings, json_of_strings, strings_of_json};
use crate::query::filter::has_tags;
use crate::text::{decimal_int, i64_to_string, trim, trimmed, views};
use crate::types::filter::{both_tag_filters_message, check_tag_filters};

verus! {

/// A decision as stored, with its tags as JSON text.
pub struct Decision {
    pub Id: i64,
    pub WorkspaceId: String,
    pub Timestamp: String,
    pub Summary: String,
    pub Rationale: Option<String>,
    pub ImplementationDetails: Option<String>,
    pub Tags: Option<String>,
    pub CreatedAt: String,
}

/// A decision as the tools return it.
pub struct DecisionResponse {
    pub id: String,
    pub workspace_id: String,
    pub timestamp: String,
    pub summary: String,
    pub rationale: Option<String>,
    pub implementation_details: Option<String>,
    pub tags: Option<Vec<String>>,
    pub created_at: String,
}

impl From<Decision> for DecisionResponse {
    /// The identifier in decimal and the tags read from their JSON text
    /// (none where the text is not a JSON array of strings).
    fn from(d: Decision) -> (r: Self)
        ensures
            r.id@ == decimal_int(d.Id as int),
            r.workspace_id == d.WorkspaceId,
            r.timestamp == d.Timestamp,
            r.summary == d.Summary,
            r.rationale == d.Rationale,
            r.implementation_details == d.ImplementationDetails,
            r.created_at == d.CreatedAt,
            match d.Tags {
                Some(t) => match r.tags {
                    Some(v) => strings_of_json(t@) == Some(views(v@)),
                    None => strings_of_json(t@) is None,
                },
                None => r.tags is None,
            },
    {
        let tags = match &d.Tags {
            Some(t) => decode_strings(t.as_str()),
            None => None,
        };
        DecisionResponse {
            id: i64_to_string(d.Id),
            workspace_id: d.WorkspaceId,
            timestamp: d.Timestamp,
            summary: d.Summary,
            rationale: d.Rationale,
            implementation_details: d.ImplementationDetails,
            tags,
            created_at: d.CreatedAt,
        }
    }
}

/// The conversion formats the identifier in decimal, a string that no spec
/// function builds; so no spec value is claimed here, and the `ensures` of
/// `from` above states the result field by field.
impl vstd::std_specs::convert::FromSpecImpl<Decision> for DecisionResponse {
    open spec fn obeys_from_spec() -> bool {
        false
    }

    open spec fn from_spec(d: Decision) -> Self {
        arbitrary()
    }
}

/// Arguments for logging a decision
pub struct LogDecisionArgs {
    pub workspace_id: String,
    pub summary: String,
    pub rationale: Option<String>,
    pub implementation_details: Option<String>,
    pub tags: Option<Vec<String>>,
}

impl LogDecisionArgs {
    /// The summary must hold something besides whitespace.
    pub fn validate(&self) -> (r: Result<(), String>)
        ensures
            if trim(self.summary@).len() == 0 {
                r matches Err(e) && e@ == "Summary is required"@
            } else {
                r is Ok
            },
    {
        let t = trimmed(self.summary.as_str());
        if t.as_str().is_empty() {
            return Err(String::from_str("Summary is required"));
        }
        Ok(())
    }
}

/// Arguments for getting decisions
pub struct GetDecisionsArgs {
    pub workspace_id: String,
    pub limit: Option<i64>,
}

impl Default for GetDecisionsArgs {
    fn default() -> (r: Self)
        ensures
            r.workspace_id@ == Seq::<char>::empty(),
            r.limit is None,
    {
        GetDecisionsArgs { workspace_id: String::new(), limit: None }
    }
}

impl GetDecisionsArgs {
    /// Every value is accepted.
    pub fn validate(&self) -> (r: Result<(), String>)
        ensures
            r is Ok,
    {
        Ok(())
    }
}

/// Arguments for updating a decision
pub struct UpdateDecisionArgs {
    pub workspace_id: String,
    pub decision_id: i64,
    pub summary: Option<String>,
    pub rationale: Option<String>,
    pub implementation_details: Option<String>,
    pub tags: Option<Vec<String>>,
}

impl UpdateDecisionArgs {
    /// Every value is accepted.
    pub fn validate(&self) -> (r: Result<(), String>)
        ensures
            r is Ok,
    {
        Ok(())
    }
}

/// Arguments for deleting a decision
pub struct DeleteDecisionArgs {
    pub workspace_id: String,
    pub decision_id: i64,
}

impl DeleteDecisionArgs {
    /// Every value is accepted.
    pub fn validate(&self) -> (r: Result<(), String>)
        ensures
            r is Ok,
    {
        Ok(())
    }
}

/// Arguments for searching decisions
pub struct SearchDecisionsArgs {
    pub workspace_id: String,
    pub query: Option<String>,
    pub tags_filter_include_any: Option<Vec<String>>,
    pub tags_filter_include_all: Option<Vec<String>>,
    pub limit: Option<i64>,
    pub offset: Option<i64>,
}

impl Default for SearchDecisionsArgs {
    fn default() -> (r: Self)
        ensures
            r.workspace_id@ == Seq::<char>::empty(),
            r.query is None,
            r.tags_filter_include_any is None,
            r.tags_filter_include_all is None,
            r.limit is None,
            r.offset is None,
    {
        SearchDecisionsArgs {
            workspace_id: String::new(),
            query: None,
            tags_filter_include_any: None,
            tags_filter_include_all: None,
            limit: None,
            offset: None,
        }
    }
}

impl SearchDecisionsArgs {
    /// Both tag filters may not hold tags at once.
    pub fn validate(&self) -> (r: Result<(), String>)
        ensures
            r is Err <==> has_tags(self.tags_filter_include_all) && has_tags(
                self.tags_filter_include_any,
            ),
            r matches Err(e) ==> e@ == both_tag_filters_message(),
    {
        check_tag_filters(&self.tags_filter_include_all, &self.tags_filter_include_any)
    }
}

impl Decision {
    /// A new decision stamped with the current time; its identifier is left
    /// at 0 for the database to set, and its tags are stored as JSON text
    /// (the empty text where there are none).
    pub fn New(
        workspace_id: String,
        summary: String,
        rationale: Option<String>,
        implementation_details: Option<String>,
        tags: Option<Vec<String>>,
    ) -> (r: Self)
        ensures
            r.Id == 0,
            r.WorkspaceId == workspace_id,
            r.Summary == summary,
            r.Rationale == rationale,
            r.ImplementationDetails == implementation_details,
            r.CreatedAt == r.Timestamp,
            utc_rfc3339_text(r.Timestamp@),
            r.Tags matches Some(t) && t@ == match tags {
                Some(v) => json_of_strings(views(v@)),
                None => Seq::<char>::empty(),
            },
    {
        let timestamp = now_rfc3339();
        let tags_json = match &tags {
            Some(t) => encode_strings(t),
            None => String::new(),
        };
        Decision {
            Id: 0,
            WorkspaceId: workspace_id,
            Timestamp: timestamp.clone(),
            Summary: summary,
            Rationale: rationale,
            ImplementationDetails: implementation_details,
            Tags: Some(tags_json),
            CreatedAt: timestamp,
        }
    }
}

} // verus!
