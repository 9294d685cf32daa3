//! Full-text query preparation and the records of recent activity.

use vstd::prelude::*;
use vstd::string::StringExecFns;

use crate::markdown::scan::{slice_vec, trim_vec};
use crate::text::{
    append_chars, chars_of, contains_chars, contains_seq, decimal_int, push_decimal_i64,
    replace_all, replace_chars, string_of, trim, views,
};

verus! {

broadcast use vstd::string::group_string_axioms;

/// The column `c` is used as a prefix `c:` in the query.
#[verifier::opaque]
pub open spec fn prefix_used(q: Seq<char>, c: Seq<char>) -> bool {
    contains_seq(q, c + ":"@)
}

/// Some allowed column is used as a prefix in the query.
pub open spec fn has_known_prefix(q: Seq<char>, allowed: Option<Seq<Seq<char>>>) -> bool {
    allowed is Some && uses_some_column(q, allowed->0)
}

/// Some column of `cols` is used as a prefix in the query.
pub open spec fn uses_some_column(q: Seq<char>, cols: Seq<Seq<char>>) -> bool {
    exists|i: int| 0 <= i < cols.len() && #[trigger] prefix_used(q, cols[i])
}

/// The query in double quotes, with its double quotes doubled.
pub open spec fn quoted_literal(q: Seq<char>) -> Seq<char> {
    "\""@ + replace_all(q, "\""@, "\"\""@) + "\""@
}

/// The query holds a character that the full-text parser often fails on.
pub open spec fn has_special(q: Seq<char>) -> bool {
    contains_seq(q, "."@) || contains_seq(q, "/"@) || contains_seq(q, "\\"@) || contains_seq(q, "\""@)
}

/// The prepared query: the trimmed query, quoted as a literal where a colon
/// is not a known column prefix or where a special character appears
/// without one (under the default column where one is given).
pub open spec fn prepared_fts(query: Seq<char>, allowed: Option<Seq<Seq<char>>>, default_column: Option<Seq<char>>) -> Seq<char> {
    let q = trim(query);
    if q.len() == 0 {
        q
    } else if contains_seq(q, ":"@) && !has_known_prefix(q, allowed) {
        quoted_literal(q)
    } else if has_special(q) && !has_known_prefix(q, allowed) {
        match default_column {
            Some(col) => col + ":"@ + quoted_literal(q),
            None => quoted_literal(q),
        }
    } else {
        q
    }
}

pub(crate) fn quote_literal(q: &Vec<char>) -> (r: String)
    ensures
        r@ == quoted_literal(q@),
{
    let dq = chars_of("\"");
    let dq2 = chars_of("\"\"");
    let body = replace_chars(q, &dq, &dq2);
    let mut r = String::from_str("\"");
    append_chars(&mut r, &body);
    r.append("\"");
    r
}

/// Prepare an FTS query to avoid parser errors
pub fn prepare_fts_query(query: &str, allowed_columns: Option<&[&str]>, default_column: Option<&str>) -> (r: String)
    ensures
        r@ == prepared_fts(
            query@,
            match allowed_columns {
                Some(cols) => Some(cols@.map_values(|c: &str| c@)),
                None => None,
            },
            match default_column {
                Some(c) => Some(c@),
                None => None,
            },
        ),
{
    let ghost allowed = match allowed_columns {
        Some(cols) => Some(cols@.map_values(|c: &str| c@)),
        None => None::<Seq<Seq<char>>>,
    };
    let v = chars_of(query);
    let q = trim_vec(&v);
    if q.len() == 0 {
        return string_of(&q);
    }
    let known = match allowed_columns {
        Some(cols) => {
            let ghost names = cols@.map_values(|c: &str| c@);
            let mut found = false;
            let mut i: usize = 0;
            while i < cols.len()
                invariant
                    names == cols@.map_values(|c: &str| c@),
                    i <= cols.len(),
                    found == exists|k: int| 0 <= k < i && #[trigger] prefix_used(q@, names[k]),
                decreases cols.len() - i,
            {
                let mut pat = chars_of(cols[i]);
                pat.push(':');
                proof {
                    reveal_strlit(":");
                }
                assert(pat@ =~= names[i as int] + ":"@);
                let hit = contains_chars(&q, &pat);
                assert(hit == prefix_used(q@, names[i as int])) by {
                    reveal(prefix_used);
                }
                if hit {
                    found = true;
                }
                i = i + 1;
            }
            assert(names.len() == cols@.len());
            assert(allowed == Some(names));
            proof {
                if found {
                    let k = choose|k: int| 0 <= k < i && #[trigger] prefix_used(q@, names[k]);
                    assert(0 <= k < names.len() && prefix_used(q@, names[k]));
                } else {
                    assert forall|j: int| 0 <= j < names.len() implies !#[trigger] prefix_used(q@, names[j]) by {
                        assert(j < i);
                    }
                }
            }
            assert(found == uses_some_column(q@, names));
            assert(found == has_known_prefix(q@, allowed));
            found
        },
        None => false,
    };
    assert(known == has_known_prefix(q@, allowed));
    if contains_chars(&q, &chars_of(":")) && !known {
        return quote_literal(&q);
    }
    let special = contains_chars(&q, &chars_of(".")) || contains_chars(&q, &chars_of("/"))
        || contains_chars(&q, &chars_of("\\")) || contains_chars(&q, &chars_of("\""));
    if special && !known {
        match default_column {
            Some(col) => {
                let mut r = String::from_str(col);
                r.append(":");
                let lit = quote_literal(&q);
                r.append(lit.as_str());
                return r;
            },
            None => {
                return quote_literal(&q);
            },
        }
    }
    string_of(&q)
}

/// A progress entry of recent activity.
pub struct RecentProgress {
    pub Id: String,
    pub WorkspaceId: String,
    pub Timestamp: String,
    pub Status: String,
    pub Description: String,
    pub ParentId: Option<String>,
    pub CreatedAt: String,
    pub UpdatedAt: String,
}

impl RecentProgress {
    /// The entry of a row, with its numbers written in decimal.
    pub fn from_row(
        id: i64,
        WorkspaceId: String,
        Timestamp: String,
        Status: String,
        Description: String,
        parent_id: Option<i64>,
        CreatedAt: String,
        UpdatedAt: String,
    ) -> (r: Self)
        ensures
            r.Id@ == decimal_int(id as int),
            r.WorkspaceId == WorkspaceId,
            r.Timestamp == Timestamp,
            r.Status == Status,
            r.Description == Description,
            match parent_id {
                Some(p) => r.ParentId matches Some(s) && s@ == decimal_int(p as int),
                None => r.ParentId is None,
            },
            r.CreatedAt == CreatedAt,
            r.UpdatedAt == UpdatedAt,
    {
        RecentProgress {
            Id: crate::text::i64_to_string(id),
            WorkspaceId,
            Timestamp,
            Status,
            Description,
            ParentId: match parent_id {
                Some(p) => Some(crate::text::i64_to_string(p)),
                None => None,
            },
            CreatedAt,
            UpdatedAt,
        }
    }
}

/// A decision of recent activity.
pub struct RecentDecision {
    pub Id: String,
    pub WorkspaceId: String,
    pub Timestamp: String,
    pub Summary: String,
    pub Rationale: Option<String>,
    pub ImplementationDetails: Option<String>,
    pub Tags: Option<String>,
    pub CreatedAt: String,
}

impl RecentDecision {
    /// The decision of a row, with its id written in decimal.
    pub fn from_row(
        id: i64,
        WorkspaceId: String,
        Timestamp: String,
        Summary: String,
        Rationale: Option<String>,
        ImplementationDetails: Option<String>,
        Tags: Option<String>,
        CreatedAt: String,
    ) -> (r: Self)
        ensures
            r.Id@ == decimal_int(id as int),
            r.WorkspaceId == WorkspaceId,
            r.Timestamp == Timestamp,
            r.Summary == Summary,
            r.Rationale == Rationale,
            r.ImplementationDetails == ImplementationDetails,
            r.Tags == Tags,
            r.CreatedAt == CreatedAt,
    {
        RecentDecision {
            Id: crate::text::i64_to_string(id),
            WorkspaceId,
            Timestamp,
            Summary,
            Rationale,
            ImplementationDetails,
            Tags,
            CreatedAt,
        }
    }
}

/// A system pattern of recent activity.
pub struct RecentSystemPattern {
    pub Id: String,
    pub WorkspaceId: String,
    pub Timestamp: String,
    pub Name: String,
    pub Description: Option<String>,
    pub Tags: Option<Vec<String>>,
    pub CreatedAt: String,
}

impl RecentSystemPattern {
    /// The pattern of a row: its id in decimal and its tags read from their
    /// JSON text, none where the text is missing or not a list of strings.
    pub fn from_row(
        id: i64,
        WorkspaceId: String,
        Timestamp: String,
        Name: String,
        Description: Option<String>,
        tags_text: Option<String>,
        CreatedAt: String,
    ) -> (r: Self)
        ensures
            r.Id@ == decimal_int(id as int),
            r.WorkspaceId == WorkspaceId,
            r.Timestamp == Timestamp,
            r.Name == Name,
            r.Description == Description,
            match tags_text {
                Some(t) => match crate::json::strings_of_json(t@) {
                    Some(list) => r.Tags matches Some(v) && views(v@) == list,
                    None => r.Tags is None,
                },
                None => r.Tags is None,
            },
            r.CreatedAt == CreatedAt,
    {
        let Tags = match &tags_text {
            Some(t) => crate::json::decode_strings(t.as_str()),
            None => None,
        };
        RecentSystemPattern {
            Id: crate::text::i64_to_string(id),
            WorkspaceId,
            Timestamp,
            Name,
            Description,
            Tags,
            CreatedAt,
        }
    }
}

/// A link of recent activity.
pub struct RecentContextLink {
    pub Id: String,
    pub WorkspaceId: String,
    pub Timestamp: String,
    pub SourceItemType: String,
    pub SourceItemId: String,
    pub TargetItemType: String,
    pub TargetItemId: String,
    pub RelationshipType: String,
    pub Description: Option<String>,
}

impl RecentContextLink {
    /// The link of a row, with its id written in decimal.
    pub fn from_row(
        id: i64,
        WorkspaceId: String,
        Timestamp: String,
        SourceItemType: String,
        SourceItemId: String,
        TargetItemType: String,
        TargetItemId: String,
        RelationshipType: String,
        Description: Option<String>,
    ) -> (r: Self)
        ensures
            r.Id@ == decimal_int(id as int),
            r.WorkspaceId == WorkspaceId,
            r.Timestamp == Timestamp,
            r.SourceItemType == SourceItemType,
            r.SourceItemId == SourceItemId,
            r.TargetItemType == TargetItemType,
            r.TargetItemId == TargetItemId,
            r.RelationshipType == RelationshipType,
            r.Description == Description,
    {
        RecentContextLink {
            Id: crate::text::i64_to_string(id),
            WorkspaceId,
            Timestamp,
            SourceItemType,
            SourceItemId,
            TargetItemType,
            TargetItemId,
            RelationshipType,
            Description,
        }
    }
}


/// The history table of a context item type.
pub fn history_table(item_type: &str) -> (r: Result<&'static str, String>)
    ensures
        item_type@ == "product_context"@ ==> r == Ok::<&'static str, String>("ProductContextHistory"),
        item_type@ == "active_context"@ ==> r == Ok::<&'static str, String>("ActiveContextHistory"),
        item_type@ != "product_context"@ && item_type@ != "active_context"@ ==> (r matches Err(e) && e@
            == "Invalid item_type"@),
{
    proof {
        reveal_strlit("product_context");
        reveal_strlit("active_context");
        assert("product_context"@[0] != "active_context"@[0]);
    }
    if crate::text::str_eq(item_type, "product_context") {
        Ok("ProductContextHistory")
    } else if crate::text::str_eq(item_type, "active_context") {
        Ok("ActiveContextHistory")
    } else {
        Err(String::from_str("Invalid item_type"))
    }
}

} // verus!
