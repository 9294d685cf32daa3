//! The statements of the database reads and writes whose text depends on
//! their arguments: the history of a context, the links of an item, the
//! update of a decision and the full-text searches.

use vstd::prelude::*;
use vstd::string::StringExecFns;

use crate::args::decision::UpdateDecisionArgs;
use crate::args::history::GetItemHistoryArgs;
use crate::args::progress::UpdateProgressArgs;
use crate::json::{encode_strings, json_of_strings};
use crate::persistence::operations::{history_table, quote_literal, quoted_literal};
use crate::query::filter::{param_values, SqlParam, SqlValue};
use crate::text::{chars_of, decimal_int, join, push_decimal_i64, views};
use crate::types::context_link::GetLinkedItemsArgs;
use crate::types::custom_data::GetCustomDataArgs;

verus! {

broadcast use vstd::string::group_string_axioms;

/// A SQL statement and the values bound to its placeholders, in order.
pub struct Statement {
    pub Sql: String,
    pub Params: Vec<SqlParam>,
}

/// The text of a limit clause.
pub open spec fn limit_clause(limit: Option<i64>) -> Seq<char> {
    match limit {
        Some(l) => " LIMIT "@ + decimal_int(l as int),
        None => Seq::empty(),
    }
}

fn push_limit(sql: &mut String, limit: Option<i64>)
    ensures
        final(sql)@ == old(sql)@ + limit_clause(limit),
{
    match limit {
        Some(l) => {
            let ghost before = sql@;
            sql.append(" LIMIT ");
            push_decimal_i64(sql, l);
            assert(before + " LIMIT "@ + decimal_int(l as int) =~= before + (" LIMIT "@
                + decimal_int(l as int)));
        },
        None => {
            assert(sql@ + Seq::<char>::empty() =~= sql@);
        },
    }
}

fn push_value(params: &mut Vec<SqlParam>, p: SqlParam)
    ensures
        param_values(final(params)@) == param_values(old(params)@).push(p.value()),
{
    let ghost before = params@;
    params.push(p);
    assert(param_values(params@) =~= param_values(before).push(p.value()));
}

// ---------------------------------------------------------------------------
// History of a context
// ---------------------------------------------------------------------------

/// The history table of an item type, where it has one.
pub open spec fn history_table_of(item_type: Seq<char>) -> Option<Seq<char>> {
    if item_type == "product_context"@ {
        Some("ProductContextHistory"@)
    } else if item_type == "active_context"@ {
        Some("ActiveContextHistory"@)
    } else {
        None
    }
}

/// The query of the versions of a context in `table`: those of the
/// workspace, narrowed to the version, the earlier and the later time given,
/// newest version first, at most `limit` of them where one is given.
pub open spec fn history_sql(table: Seq<char>, args: GetItemHistoryArgs) -> Seq<char> {
    let s0 = "SELECT Id, WorkspaceId, Timestamp, Version, Content, ChangeSource FROM "@ + table
        + " WHERE WorkspaceId = ?1"@;
    let s1 = if args.version is Some {
        s0 + " AND Version = ?"@
    } else {
        s0
    };
    let s2 = if args.before_timestamp is Some {
        s1 + " AND Timestamp < ?"@
    } else {
        s1
    };
    let s3 = if args.after_timestamp is Some {
        s2 + " AND Timestamp > ?"@
    } else {
        s2
    };
    s3 + " ORDER BY Version DESC"@ + limit_clause(args.limit)
}

/// The values the history query binds: the workspace, then the version, the
/// earlier and the later time, each where it is given.
pub open spec fn history_values(workspace_id: Seq<char>, args: GetItemHistoryArgs) -> Seq<SqlValue> {
    let p0 = seq![SqlValue::Text(workspace_id)];
    let p1 = match args.version {
        Some(v) => p0.push(SqlValue::Integer(v as int)),
        None => p0,
    };
    let p2 = match args.before_timestamp {
        Some(b) => p1.push(SqlValue::Text(b@)),
        None => p1,
    };
    match args.after_timestamp {
        Some(a) => p2.push(SqlValue::Text(a@)),
        None => p2,
    }
}

/// The query of the history of a context of a workspace; an item type other
/// than the two contexts is refused.
pub fn history_statement(workspace_id: &str, args: &GetItemHistoryArgs) -> (r: Result<Statement, String>)
    ensures
        match history_table_of(args.item_type@) {
            Some(table) => r matches Ok(s) && s.Sql@ == history_sql(table, *args) && param_values(
                s.Params@,
            ) == history_values(workspace_id@, *args),
            None => r matches Err(e) && e@ == "Invalid item_type"@,
        },
{
    let table = match history_table(args.item_type.as_str()) {
        Ok(t) => t,
        Err(e) => {
            return Err(e);
        },
    };
    assert(history_table_of(args.item_type@) == Some(table@)) by {
        reveal_strlit("product_context");
        reveal_strlit("active_context");
        assert("product_context"@[0] != "active_context"@[0]);
    }
    let mut sql = String::from_str("SELECT Id, WorkspaceId, Timestamp, Version, Content, ChangeSource FROM ");
    sql.append(table);
    sql.append(" WHERE WorkspaceId = ?1");
    let mut params: Vec<SqlParam> = Vec::new();
    push_value(&mut params, SqlParam::Text(String::from_str(workspace_id)));
    assert(param_values(params@) =~= seq![SqlValue::Text(workspace_id@)]);
    if let Some(v) = args.version {
        sql.append(" AND Version = ?");
        push_value(&mut params, SqlParam::Integer(v));
    }
    if let Some(b) = &args.before_timestamp {
        sql.append(" AND Timestamp < ?");
        push_value(&mut params, SqlParam::Text(b.clone()));
    }
    if let Some(a) = &args.after_timestamp {
        sql.append(" AND Timestamp > ?");
        push_value(&mut params, SqlParam::Text(a.clone()));
    }
    sql.append(" ORDER BY Version DESC");
    push_limit(&mut sql, args.limit);
    Ok(Statement { Sql: sql, Params: params })
}

// ---------------------------------------------------------------------------
// Decisions and custom data of a workspace
// ---------------------------------------------------------------------------

/// The query of the decisions of a workspace, newest first, at most `limit`
/// of them where one is given.
pub open spec fn decisions_sql(limit: Option<i64>) -> Seq<char> {
    "SELECT Id, WorkspaceId, Timestamp, Summary, Rationale, ImplementationDetails, Tags, CreatedAt FROM decisions WHERE WorkspaceId = ?1 ORDER BY Timestamp DESC"@
        + limit_clause(limit)
}

/// The query of the decisions of a workspace; it binds the workspace.
pub fn decisions_statement(workspace_id: &str, limit: Option<i64>) -> (r: Statement)
    ensures
        r.Sql@ == decisions_sql(limit),
        param_values(r.Params@) == seq![SqlValue::Text(workspace_id@)],
{
    let mut sql = String::from_str(
        "SELECT Id, WorkspaceId, Timestamp, Summary, Rationale, ImplementationDetails, Tags, CreatedAt FROM decisions WHERE WorkspaceId = ?1 ORDER BY Timestamp DESC",
    );
    push_limit(&mut sql, limit);
    let mut params: Vec<SqlParam> = Vec::new();
    push_value(&mut params, SqlParam::Text(String::from_str(workspace_id)));
    assert(param_values(params@) =~= seq![SqlValue::Text(workspace_id@)]);
    Statement { Sql: sql, Params: params }
}

/// The query of the custom data of a workspace, narrowed to a category where
/// one is given and, within it, to a key where one is given; newest first.
pub open spec fn custom_data_sql(args: GetCustomDataArgs) -> Seq<char> {
    let s0 = "SELECT Id, WorkspaceId, Timestamp, Category, Key, Value, CreatedAt FROM CustomData WHERE WorkspaceId = ?1"@;
    let s1 = if args.category is Some {
        if args.key is Some {
            s0 + " AND Category = ?"@ + " AND Key = ?"@
        } else {
            s0 + " AND Category = ?"@
        }
    } else {
        s0
    };
    s1 + " ORDER BY Timestamp DESC"@
}

/// The values the custom data query binds: the workspace, then the category
/// and the key where they narrow it.
pub open spec fn custom_data_values(workspace_id: Seq<char>, args: GetCustomDataArgs) -> Seq<SqlValue> {
    let p0 = seq![SqlValue::Text(workspace_id)];
    match args.category {
        Some(c) => match args.key {
            Some(k) => p0.push(SqlValue::Text(c@)).push(SqlValue::Text(k@)),
            None => p0.push(SqlValue::Text(c@)),
        },
        None => p0,
    }
}

/// The query of the custom data of a workspace.
pub fn custom_data_statement(workspace_id: &str, args: &GetCustomDataArgs) -> (r: Statement)
    ensures
        r.Sql@ == custom_data_sql(*args),
        param_values(r.Params@) == custom_data_values(workspace_id@, *args),
{
    let mut sql = String::from_str(
        "SELECT Id, WorkspaceId, Timestamp, Category, Key, Value, CreatedAt FROM CustomData WHERE WorkspaceId = ?1",
    );
    let mut params: Vec<SqlParam> = Vec::new();
    push_value(&mut params, SqlParam::Text(String::from_str(workspace_id)));
    assert(param_values(params@) =~= seq![SqlValue::Text(workspace_id@)]);
    if let Some(c) = &args.category {
        sql.append(" AND Category = ?");
        push_value(&mut params, SqlParam::Text(c.clone()));
        if let Some(k) = &args.key {
            sql.append(" AND Key = ?");
            push_value(&mut params, SqlParam::Text(k.clone()));
        }
    }
    sql.append(" ORDER BY Timestamp DESC");
    Statement { Sql: sql, Params: params }
}

// ---------------------------------------------------------------------------
// Links of an item
// ---------------------------------------------------------------------------

/// The query of the links of an item, in either direction, narrowed to a
/// relationship type and to links with an item of a type where those are
/// given, newest first, at most `limit` of them where one is given.
pub open spec fn linked_items_sql(args: GetLinkedItemsArgs) -> Seq<char> {
    let s0 = "SELECT Id, WorkspaceId, Timestamp, SourceItemType, SourceItemId, TargetItemType, TargetItemId, RelationshipType, Description FROM ContextLinks WHERE WorkspaceId = ?1 AND (SourceItemType = ?2 AND SourceItemId = ?3 OR TargetItemType = ?2 AND TargetItemId = ?3)"@;
    let s1 = if args.relationship_type_filter is Some {
        s0 + " AND RelationshipType = ?"@
    } else {
        s0
    };
    let s2 = if args.linked_item_type_filter is Some {
        s1 + " AND (SourceItemType = ? OR TargetItemType = ?)"@
    } else {
        s1
    };
    s2 + " ORDER BY Timestamp DESC"@ + limit_clause(args.limit)
}

/// The values the links query binds: the workspace, the item's type and
/// identifier, then the relationship type and twice the linked item type,
/// each where it is given.
pub open spec fn linked_items_values(workspace_id: Seq<char>, args: GetLinkedItemsArgs) -> Seq<SqlValue> {
    let p0 = seq![
        SqlValue::Text(workspace_id),
        SqlValue::Text(args.item_type@),
        SqlValue::Text(args.item_id@),
    ];
    let p1 = match args.relationship_type_filter {
        Some(r) => p0.push(SqlValue::Text(r@)),
        None => p0,
    };
    match args.linked_item_type_filter {
        Some(t) => p1.push(SqlValue::Text(t@)).push(SqlValue::Text(t@)),
        None => p1,
    }
}

/// The query of the links of an item of a workspace.
pub fn linked_items_statement(workspace_id: &str, args: &GetLinkedItemsArgs) -> (r: Statement)
    ensures
        r.Sql@ == linked_items_sql(*args),
        param_values(r.Params@) == linked_items_values(workspace_id@, *args),
{
    let mut sql = String::from_str("SELECT Id, WorkspaceId, Timestamp, SourceItemType, SourceItemId, TargetItemType, TargetItemId, RelationshipType, Description FROM ContextLinks WHERE WorkspaceId = ?1 AND (SourceItemType = ?2 AND SourceItemId = ?3 OR TargetItemType = ?2 AND TargetItemId = ?3)");
    let mut params: Vec<SqlParam> = Vec::new();
    push_value(&mut params, SqlParam::Text(String::from_str(workspace_id)));
    push_value(&mut params, SqlParam::Text(args.item_type.clone()));
    push_value(&mut params, SqlParam::Text(args.item_id.clone()));
    assert(param_values(params@) =~= seq![
        SqlValue::Text(workspace_id@),
        SqlValue::Text(args.item_type@),
        SqlValue::Text(args.item_id@),
    ]);
    if let Some(rel) = &args.relationship_type_filter {
        sql.append(" AND RelationshipType = ?");
        push_value(&mut params, SqlParam::Text(rel.clone()));
    }
    if let Some(t) = &args.linked_item_type_filter {
        sql.append(" AND (SourceItemType = ? OR TargetItemType = ?)");
        push_value(&mut params, SqlParam::Text(t.clone()));
        push_value(&mut params, SqlParam::Text(t.clone()));
    }
    sql.append(" ORDER BY Timestamp DESC");
    push_limit(&mut sql, args.limit);
    Statement { Sql: sql, Params: params }
}

// ---------------------------------------------------------------------------
// Update of a decision
// ---------------------------------------------------------------------------

/// The assignments of a decision update: one for each field given, in the
/// order summary, rationale, implementation details, tags.
pub open spec fn decision_assignments(args: UpdateDecisionArgs) -> Seq<Seq<char>> {
    let a0 = Seq::<Seq<char>>::empty();
    let a1 = if args.summary is Some {
        a0.push("Summary = ?"@)
    } else {
        a0
    };
    let a2 = if args.rationale is Some {
        a1.push("Rationale = ?"@)
    } else {
        a1
    };
    let a3 = if args.implementation_details is Some {
        a2.push("ImplementationDetails = ?"@)
    } else {
        a2
    };
    if args.tags is Some {
        a3.push("Tags = ?"@)
    } else {
        a3
    }
}

/// The values the assignments bind, the tags written as a JSON array.
pub open spec fn decision_assigned_values(args: UpdateDecisionArgs) -> Seq<SqlValue> {
    let p0 = Seq::<SqlValue>::empty();
    let p1 = match args.summary {
        Some(x) => p0.push(SqlValue::Text(x@)),
        None => p0,
    };
    let p2 = match args.rationale {
        Some(x) => p1.push(SqlValue::Text(x@)),
        None => p1,
    };
    let p3 = match args.implementation_details {
        Some(x) => p2.push(SqlValue::Text(x@)),
        None => p2,
    };
    match args.tags {
        Some(t) => p3.push(SqlValue::Text(json_of_strings(views(t@)))),
        None => p3,
    }
}

fn push_assignment(updates: &mut Vec<String>, a: &str)
    ensures
        views(final(updates)@) == views(old(updates)@).push(a@),
{
    let ghost before = updates@;
    updates.push(String::from_str(a));
    assert(views(updates@) =~= views(before).push(a@));
}

/// The update of the given fields of a decision of a workspace, or `None`
/// where no field is given and nothing is to be written.
pub fn decision_update_statement(workspace_id: &str, args: &UpdateDecisionArgs) -> (r: Option<Statement>)
    ensures
        (args.summary is None && args.rationale is None && args.implementation_details is None
            && args.tags is None) <==> r is None,
        r matches Some(s) ==> {
            &&& s.Sql@ == "UPDATE decisions SET "@ + join(decision_assignments(*args), ", "@)
                + " WHERE Id = ? AND WorkspaceId = ?"@
            &&& param_values(s.Params@) == decision_assigned_values(*args).push(
                SqlValue::Integer(args.decision_id as int),
            ).push(SqlValue::Text(workspace_id@))
        },
{
    let mut updates: Vec<String> = Vec::new();
    let mut params: Vec<SqlParam> = Vec::new();
    assert(views(updates@) =~= Seq::<Seq<char>>::empty());
    assert(param_values(params@) =~= Seq::<SqlValue>::empty());
    if let Some(x) = &args.summary {
        push_assignment(&mut updates, "Summary = ?");
        push_value(&mut params, SqlParam::Text(x.clone()));
    }
    if let Some(x) = &args.rationale {
        push_assignment(&mut updates, "Rationale = ?");
        push_value(&mut params, SqlParam::Text(x.clone()));
    }
    if let Some(x) = &args.implementation_details {
        push_assignment(&mut updates, "ImplementationDetails = ?");
        push_value(&mut params, SqlParam::Text(x.clone()));
    }
    if let Some(t) = &args.tags {
        push_assignment(&mut updates, "Tags = ?");
        push_value(&mut params, SqlParam::Text(encode_strings(t)));
    }
    assert(views(updates@) == decision_assignments(*args));
    assert(param_values(params@) == decision_assigned_values(*args));
    if updates.len() == 0 {
        return None;
    }
    push_value(&mut params, SqlParam::Integer(args.decision_id));
    push_value(&mut params, SqlParam::Text(String::from_str(workspace_id)));
    let mut sql = String::from_str("UPDATE decisions SET ");
    let joined = crate::text::join_strings(&updates, ", ");
    sql.append(joined.as_str());
    sql.append(" WHERE Id = ? AND WorkspaceId = ?");
    Some(Statement { Sql: sql, Params: params })
}

// ---------------------------------------------------------------------------
// Update of a progress entry
// ---------------------------------------------------------------------------

/// The assignments of a progress update: one for each field given, in the
/// order status, description, parent, then the update time.
pub open spec fn progress_assignments(args: UpdateProgressArgs) -> Seq<Seq<char>> {
    let a0 = Seq::<Seq<char>>::empty();
    let a1 = if args.status is Some {
        a0.push("Status = ?"@)
    } else {
        a0
    };
    let a2 = if args.description is Some {
        a1.push("Description = ?"@)
    } else {
        a1
    };
    let a3 = if args.parent_id is Some {
        a2.push("ParentId = ?"@)
    } else {
        a2
    };
    a3.push("UpdatedAt = ?"@)
}

/// The values the assignments bind, the update time last.
pub open spec fn progress_assigned_values(args: UpdateProgressArgs, updated_at: Seq<char>) -> Seq<SqlValue> {
    let p0 = Seq::<SqlValue>::empty();
    let p1 = match args.status {
        Some(x) => p0.push(SqlValue::Text(x@)),
        None => p0,
    };
    let p2 = match args.description {
        Some(x) => p1.push(SqlValue::Text(x@)),
        None => p1,
    };
    let p3 = match args.parent_id {
        Some(n) => p2.push(SqlValue::Integer(n as int)),
        None => p2,
    };
    p3.push(SqlValue::Text(updated_at))
}

/// The update of the given fields of a progress entry of a workspace, with
/// its update time, or `None` where no field is given and nothing is to be
/// written.
pub fn progress_update_statement(workspace_id: &str, args: &UpdateProgressArgs, updated_at: &str) -> (r:
    Option<Statement>)
    ensures
        (args.status is None && args.description is None && args.parent_id is None) <==> r is None,
        r matches Some(s) ==> {
            &&& s.Sql@ == "UPDATE ProgressEntries SET "@ + join(progress_assignments(*args), ", "@)
                + " WHERE Id = ? AND WorkspaceId = ?"@
            &&& param_values(s.Params@) == progress_assigned_values(*args, updated_at@).push(
                SqlValue::Integer(args.progress_id as int),
            ).push(SqlValue::Text(workspace_id@))
        },
{
    let mut updates: Vec<String> = Vec::new();
    let mut params: Vec<SqlParam> = Vec::new();
    assert(views(updates@) =~= Seq::<Seq<char>>::empty());
    assert(param_values(params@) =~= Seq::<SqlValue>::empty());
    if let Some(x) = &args.status {
        push_assignment(&mut updates, "Status = ?");
        push_value(&mut params, SqlParam::Text(x.clone()));
    }
    if let Some(x) = &args.description {
        push_assignment(&mut updates, "Description = ?");
        push_value(&mut params, SqlParam::Text(x.clone()));
    }
    if let Some(n) = args.parent_id {
        push_assignment(&mut updates, "ParentId = ?");
        push_value(&mut params, SqlParam::Integer(n));
    }
    assert(views(updates@) == progress_assignments(*args).drop_last());
    assert(views(updates@).len() == updates@.len());
    if updates.len() == 0 {
        return None;
    }
    push_assignment(&mut updates, "UpdatedAt = ?");
    push_value(&mut params, SqlParam::Text(String::from_str(updated_at)));
    assert(views(updates@) == progress_assignments(*args));
    assert(param_values(params@) == progress_assigned_values(*args, updated_at@));
    push_value(&mut params, SqlParam::Integer(args.progress_id));
    push_value(&mut params, SqlParam::Text(String::from_str(workspace_id)));
    let mut sql = String::from_str("UPDATE ProgressEntries SET ");
    let joined = crate::text::join_strings(&updates, ", ");
    sql.append(joined.as_str());
    sql.append(" WHERE Id = ? AND WorkspaceId = ?");
    Some(Statement { Sql: sql, Params: params })
}

// ---------------------------------------------------------------------------
// Full-text searches
// ---------------------------------------------------------------------------

/// The search of custom data by a phrase, within one category where one is
/// given, newest first.
pub open spec fn custom_data_search_sql(by_category: bool) -> Seq<char> {
    if by_category {
        "SELECT c.Id, c.WorkspaceId, c.Timestamp, c.Category, c.Key, c.Value, c.CreatedAt FROM CustomData c WHERE c.WorkspaceId = ?1 AND c.Category = ?2 AND c.Id IN (SELECT rowid FROM custom_data_fts WHERE custom_data_fts MATCH ?3) ORDER BY c.Timestamp DESC LIMIT ?4"@
    } else {
        "SELECT c.Id, c.WorkspaceId, c.Timestamp, c.Category, c.Key, c.Value, c.CreatedAt FROM CustomData c WHERE c.WorkspaceId = ?1 AND c.Id IN (SELECT rowid FROM custom_data_fts WHERE custom_data_fts MATCH ?2) ORDER BY c.Timestamp DESC LIMIT ?3"@
    }
}

/// The full-text search of the custom data of a workspace for a term, taken
/// as one phrase.
pub fn custom_data_search_statement(
    workspace_id: &str,
    query_term: &str,
    category_filter: Option<&str>,
    limit: i64,
) -> (r: Statement)
    ensures
        r.Sql@ == custom_data_search_sql(category_filter is Some),
        param_values(r.Params@) == match category_filter {
            Some(c) => seq![
                SqlValue::Text(workspace_id@),
                SqlValue::Text(c@),
                SqlValue::Text(quoted_literal(query_term@)),
                SqlValue::Integer(limit as int),
            ],
            None => seq![
                SqlValue::Text(workspace_id@),
                SqlValue::Text(quoted_literal(query_term@)),
                SqlValue::Integer(limit as int),
            ],
        },
{
    let phrase = quote_literal(&chars_of(query_term));
    let mut params: Vec<SqlParam> = Vec::new();
    push_value(&mut params, SqlParam::Text(String::from_str(workspace_id)));
    let sql = match category_filter {
        Some(c) => {
            push_value(&mut params, SqlParam::Text(String::from_str(c)));
            String::from_str("SELECT c.Id, c.WorkspaceId, c.Timestamp, c.Category, c.Key, c.Value, c.CreatedAt FROM CustomData c WHERE c.WorkspaceId = ?1 AND c.Category = ?2 AND c.Id IN (SELECT rowid FROM custom_data_fts WHERE custom_data_fts MATCH ?3) ORDER BY c.Timestamp DESC LIMIT ?4")
        },
        None => String::from_str("SELECT c.Id, c.WorkspaceId, c.Timestamp, c.Category, c.Key, c.Value, c.CreatedAt FROM CustomData c WHERE c.WorkspaceId = ?1 AND c.Id IN (SELECT rowid FROM custom_data_fts WHERE custom_data_fts MATCH ?2) ORDER BY c.Timestamp DESC LIMIT ?3"),
    };
    push_value(&mut params, SqlParam::Text(phrase));
    push_value(&mut params, SqlParam::Integer(limit));
    Statement { Sql: sql, Params: params }
}

/// The search of decisions by a phrase, newest first.
pub open spec fn decision_search_sql() -> Seq<char> {
    "SELECT d.Id, d.WorkspaceId, d.Timestamp, d.Summary, d.Rationale, d.ImplementationDetails, d.Tags, d.CreatedAt FROM decisions d WHERE d.WorkspaceId = ?1 AND d.Id IN (SELECT rowid FROM decisions_fts WHERE decisions_fts MATCH ?2) ORDER BY d.Timestamp DESC LIMIT ?3"@
}

/// The full-text search of the decisions of a workspace for a term, taken as
/// one phrase.
pub fn decision_search_statement(workspace_id: &str, query_term: &str, limit: i64) -> (r: Statement)
    ensures
        r.Sql@ == decision_search_sql(),
        param_values(r.Params@) == seq![
            SqlValue::Text(workspace_id@),
            SqlValue::Text(quoted_literal(query_term@)),
            SqlValue::Integer(limit as int),
        ],
{
    let phrase = quote_literal(&chars_of(query_term));
    let mut params: Vec<SqlParam> = Vec::new();
    push_value(&mut params, SqlParam::Text(String::from_str(workspace_id)));
    push_value(&mut params, SqlParam::Text(phrase));
    push_value(&mut params, SqlParam::Integer(limit));
    Statement {
        Sql: String::from_str("SELECT d.Id, d.WorkspaceId, d.Timestamp, d.Summary, d.Rationale, d.ImplementationDetails, d.Tags, d.CreatedAt FROM decisions d WHERE d.WorkspaceId = ?1 AND d.Id IN (SELECT rowid FROM decisions_fts WHERE decisions_fts MATCH ?2) ORDER BY d.Timestamp DESC LIMIT ?3"),
        Params: params,
    }
}

} // verus!
