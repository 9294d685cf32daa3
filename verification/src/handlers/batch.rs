//! Batch endpoints: the insert each item of a batch makes, the text its
//! embedding is made from, and the tallies of a batch's outcomes.

use vstd::prelude::*;
use vstd::string::StringExecFns;

use crate::clock::new_uuid;
use crate::query::filter::{param_values, SqlParam, SqlValue};
use crate::text::{join, str_eq, views};

verus! {

broadcast use vstd::string::group_string_axioms;

/// The fields of an item's data that a batch reads, each where it is given
/// as text; `tags_json` and `value_json` are the JSON texts of the item's
/// tags and value.
pub struct BatchItemData {
    pub id: Option<String>,
    pub summary: Option<String>,
    pub rationale: Option<String>,
    pub implementation_details: Option<String>,
    pub description: Option<String>,
    pub status: Option<String>,
    pub parent_id: Option<String>,
    pub name: Option<String>,
    pub key: Option<String>,
    pub category: Option<String>,
    pub tags_json: Option<String>,
    pub value_json: Option<String>,
}

/// Single item in a batch request
pub struct BatchItem {
    pub TypeField: String,
    pub Data: BatchItemData,
}

/// Request for batch logging items
pub struct BatchLogItemsRequest {
    pub WorkspaceId: String,
    pub Items: Vec<BatchItem>,
}

/// Request for batch logging items directly to database
pub struct BatchLogItemsToDatabaseRequest {
    pub WorkspaceId: String,
    pub Items: Vec<BatchItem>,
}

/// Error for a single item in batch
pub struct BatchError {
    pub Index: usize,
    pub ItemType: String,
    pub Error: String,
}

/// Response for batch operation
pub struct BatchLogItemsResponse {
    pub Success: bool,
    pub ItemsProcessed: usize,
    pub ItemsSucceeded: usize,
    pub ItemsFailed: usize,
    pub Errors: Vec<BatchError>,
}

/// Result for a single item
pub struct BatchItemResult {
    pub Index: usize,
    pub ItemType: String,
    pub Id: String,
    pub Stored: bool,
}

/// Response for batch database operation
pub struct BatchLogItemsToDatabaseResponse {
    pub Success: bool,
    pub ItemsProcessed: usize,
    pub ItemsSucceeded: usize,
    pub ItemsFailed: usize,
    pub Errors: Vec<BatchError>,
    pub Results: Vec<BatchItemResult>,
}

/// Request for deleting several items
pub struct BatchDeleteRequest {
    pub WorkspaceId: String,
    pub Items: Vec<BatchDeleteItem>,
}

/// One item to delete
pub struct BatchDeleteItem {
    pub TypeField: String,
    pub Id: String,
}

/// Response for batch delete operation
pub struct BatchDeleteResponse {
    pub Success: bool,
    pub ItemsDeleted: usize,
    pub ItemsFailed: usize,
    pub Errors: Vec<BatchError>,
}

/// The kinds of item a batch takes.
#[derive(Debug, Clone, Copy, PartialEq, Eq, Structural)]
pub enum BatchItemKind {
    Decision,
    ProgressEntry,
    SystemPattern,
    CustomData,
}

/// The kind that a type name names.
pub open spec fn kind_of(t: Seq<char>) -> Option<BatchItemKind> {
    if t == "decision"@ {
        Some(BatchItemKind::Decision)
    } else if t == "progress_entry"@ {
        Some(BatchItemKind::ProgressEntry)
    } else if t == "system_pattern"@ {
        Some(BatchItemKind::SystemPattern)
    } else if t == "custom_data"@ {
        Some(BatchItemKind::CustomData)
    } else {
        None
    }
}

/// The kind of an item type, if the batch takes it.
pub fn parse_kind(t: &str) -> (r: Option<BatchItemKind>)
    ensures
        r == kind_of(t@),
{
    if str_eq(t, "decision") {
        Some(BatchItemKind::Decision)
    } else if str_eq(t, "progress_entry") {
        Some(BatchItemKind::ProgressEntry)
    } else if str_eq(t, "system_pattern") {
        Some(BatchItemKind::SystemPattern)
    } else if str_eq(t, "custom_data") {
        Some(BatchItemKind::CustomData)
    } else {
        None
    }
}

/// A field's text, or `default` where it is missing.
pub open spec fn text_or(o: Option<String>, default: Seq<char>) -> Seq<char> {
    match o {
        Some(s) => s@,
        None => default,
    }
}

fn text_or_exec(o: &Option<String>, default: &str) -> (r: String)
    ensures
        r@ == text_or(*o, default@),
{
    match o {
        Some(s) => s.clone(),
        None => String::from_str(default),
    }
}

/// An insert statement, the values bound to its placeholders, and the
/// identifier of the item it stores.
pub struct PreparedInsert {
    pub Sql: String,
    pub Params: Vec<SqlParam>,
    pub Id: String,
}

/// The statement that stores an item of a kind.
pub open spec fn insert_sql(k: BatchItemKind) -> Seq<char> {
    match k {
        BatchItemKind::Decision => "INSERT OR REPLACE INTO Decisions (Id, WorkspaceId, Summary, Rationale, ImplementationDetails, Tags, CreatedAt) VALUES (?1, ?2, ?3, ?4, ?5, ?6, ?7)"@,
        BatchItemKind::ProgressEntry => "INSERT INTO ProgressEntries (WorkspaceId, Timestamp, Status, Description, ParentId, CreatedAt, UpdatedAt) VALUES (?1, ?2, ?3, ?4, ?5, ?6, ?7)"@,
        BatchItemKind::SystemPattern => "INSERT OR REPLACE INTO SystemPatterns (WorkspaceId, Timestamp, Name, Description, Tags, CreatedAt) VALUES (?1, ?2, ?3, ?4, ?5, ?6)"@,
        BatchItemKind::CustomData => "INSERT OR REPLACE INTO CustomData (WorkspaceId, Timestamp, Category, Key, Value, CreatedAt) VALUES (?1, ?2, ?3, ?4, ?5, ?6)"@,
    }
}

/// The values that the statement of a kind binds, for an item with
/// identifier `id`, stored in workspace `ws` at time `ts`.
pub open spec fn insert_values(k: BatchItemKind, d: BatchItemData, id: Seq<char>, ws: Seq<char>, ts: Seq<char>) -> Seq<SqlValue> {
    match k {
        BatchItemKind::Decision => seq![
            SqlValue::Text(id),
            SqlValue::Text(ws),
            SqlValue::Text(text_or(d.summary, ""@)),
            SqlValue::Text(text_or(d.rationale, ""@)),
            SqlValue::Text(text_or(d.implementation_details, ""@)),
            SqlValue::Text(text_or(d.tags_json, ""@)),
            SqlValue::Text(ts),
        ],
        BatchItemKind::ProgressEntry => seq![
            SqlValue::Text(ws),
            SqlValue::Text(ts),
            SqlValue::Text(text_or(d.status, "TODO"@)),
            SqlValue::Text(text_or(d.description, ""@)),
            match d.parent_id {
                Some(p) => SqlValue::Text(p@),
                None => SqlValue::Null,
            },
            SqlValue::Text(ts),
            SqlValue::Text(ts),
        ],
        BatchItemKind::SystemPattern => seq![
            SqlValue::Text(ws),
            SqlValue::Text(ts),
            SqlValue::Text(text_or(d.name, ""@)),
            SqlValue::Text(text_or(d.description, ""@)),
            SqlValue::Text(text_or(d.tags_json, ""@)),
            SqlValue::Text(ts),
        ],
        BatchItemKind::CustomData => seq![
            SqlValue::Text(ws),
            SqlValue::Text(ts),
            SqlValue::Text(text_or(d.category, "default"@)),
            SqlValue::Text(text_or(d.key, ""@)),
            SqlValue::Text(text_or(d.value_json, ""@)),
            SqlValue::Text(ts),
        ],
    }
}

/// The table an insert of a kind writes, with its conflict clause.
pub open spec fn insert_target(k: BatchItemKind) -> Seq<char> {
    match k {
        BatchItemKind::Decision => "INSERT OR REPLACE INTO Decisions"@,
        BatchItemKind::ProgressEntry => "INSERT INTO ProgressEntries"@,
        BatchItemKind::SystemPattern => "INSERT OR REPLACE INTO SystemPatterns"@,
        BatchItemKind::CustomData => "INSERT OR REPLACE INTO CustomData"@,
    }
}

/// The columns an insert of a kind names, in the order of its column list.
pub open spec fn insert_columns(k: BatchItemKind) -> Seq<Seq<char>> {
    match k {
        BatchItemKind::Decision => seq![
            "Id"@,
            "WorkspaceId"@,
            "Summary"@,
            "Rationale"@,
            "ImplementationDetails"@,
            "Tags"@,
            "CreatedAt"@,
        ],
        BatchItemKind::ProgressEntry => seq![
            "WorkspaceId"@,
            "Timestamp"@,
            "Status"@,
            "Description"@,
            "ParentId"@,
            "CreatedAt"@,
            "UpdatedAt"@,
        ],
        BatchItemKind::SystemPattern => seq![
            "WorkspaceId"@,
            "Timestamp"@,
            "Name"@,
            "Description"@,
            "Tags"@,
            "CreatedAt"@,
        ],
        BatchItemKind::CustomData => seq![
            "WorkspaceId"@,
            "Timestamp"@,
            "Category"@,
            "Key"@,
            "Value"@,
            "CreatedAt"@,
        ],
    }
}

/// The numbered placeholders `?1`, `?2`, ... of a values list of `n` entries
/// (at most seven).
pub open spec fn placeholders(n: nat) -> Seq<Seq<char>> {
    seq!["?1"@, "?2"@, "?3"@, "?4"@, "?5"@, "?6"@, "?7"@].take(n as int)
}

/// What an item stores in a column, by the column's name: the identifier,
/// the workspace, the time for the time stamps, and otherwise the item's
/// field of that name (with the status `TODO` and the category `default`
/// where those are missing, and no parent where none is given).
pub open spec fn column_value(col: Seq<char>, d: BatchItemData, id: Seq<char>, ws: Seq<char>, ts: Seq<char>) -> SqlValue {
    if col == "Id"@ {
        SqlValue::Text(id)
    } else if col == "WorkspaceId"@ {
        SqlValue::Text(ws)
    } else if col == "Timestamp"@ || col == "CreatedAt"@ || col == "UpdatedAt"@ {
        SqlValue::Text(ts)
    } else if col == "Summary"@ {
        SqlValue::Text(text_or(d.summary, ""@))
    } else if col == "Rationale"@ {
        SqlValue::Text(text_or(d.rationale, ""@))
    } else if col == "ImplementationDetails"@ {
        SqlValue::Text(text_or(d.implementation_details, ""@))
    } else if col == "Tags"@ {
        SqlValue::Text(text_or(d.tags_json, ""@))
    } else if col == "Status"@ {
        SqlValue::Text(text_or(d.status, "TODO"@))
    } else if col == "Description"@ {
        SqlValue::Text(text_or(d.description, ""@))
    } else if col == "ParentId"@ {
        match d.parent_id {
            Some(p) => SqlValue::Text(p@),
            None => SqlValue::Null,
        }
    } else if col == "Name"@ {
        SqlValue::Text(text_or(d.name, ""@))
    } else if col == "Category"@ {
        SqlValue::Text(text_or(d.category, "default"@))
    } else if col == "Key"@ {
        SqlValue::Text(text_or(d.key, ""@))
    } else if col == "Value"@ {
        SqlValue::Text(text_or(d.value_json, ""@))
    } else {
        SqlValue::Null
    }
}

#[verifier::spinoff_prover]
proof fn lemma_column_value_names(d: BatchItemData, id: Seq<char>, ws: Seq<char>, ts: Seq<char>)
    ensures
        column_value("Id"@, d, id, ws, ts) == SqlValue::Text(id),
        column_value("WorkspaceId"@, d, id, ws, ts) == SqlValue::Text(ws),
        column_value("Timestamp"@, d, id, ws, ts) == SqlValue::Text(ts),
        column_value("CreatedAt"@, d, id, ws, ts) == SqlValue::Text(ts),
        column_value("UpdatedAt"@, d, id, ws, ts) == SqlValue::Text(ts),
        column_value("Summary"@, d, id, ws, ts) == SqlValue::Text(text_or(d.summary, ""@)),
        column_value("Rationale"@, d, id, ws, ts) == SqlValue::Text(text_or(d.rationale, ""@)),
        column_value("ImplementationDetails"@, d, id, ws, ts) == SqlValue::Text(text_or(d.implementation_details, ""@)),
        column_value("Tags"@, d, id, ws, ts) == SqlValue::Text(text_or(d.tags_json, ""@)),
        column_value("Status"@, d, id, ws, ts) == SqlValue::Text(text_or(d.status, "TODO"@)),
        column_value("Description"@, d, id, ws, ts) == SqlValue::Text(text_or(d.description, ""@)),
        column_value("ParentId"@, d, id, ws, ts) == match d.parent_id {
            Some(p) => SqlValue::Text(p@),
            None => SqlValue::Null,
        },
        column_value("Name"@, d, id, ws, ts) == SqlValue::Text(text_or(d.name, ""@)),
        column_value("Category"@, d, id, ws, ts) == SqlValue::Text(text_or(d.category, "default"@)),
        column_value("Key"@, d, id, ws, ts) == SqlValue::Text(text_or(d.key, ""@)),
        column_value("Value"@, d, id, ws, ts) == SqlValue::Text(text_or(d.value_json, ""@)),
{
    reveal_strlit("Id");
    reveal_strlit("WorkspaceId");
    reveal_strlit("Timestamp");
    reveal_strlit("CreatedAt");
    reveal_strlit("UpdatedAt");
    reveal_strlit("Summary");
    reveal_strlit("Rationale");
    reveal_strlit("ImplementationDetails");
    reveal_strlit("Tags");
    reveal_strlit("Status");
    reveal_strlit("Description");
    reveal_strlit("ParentId");
    reveal_strlit("Name");
    reveal_strlit("Category");
    reveal_strlit("Key");
    reveal_strlit("Value");
    assert("Id"@.len() == 2);
    assert("WorkspaceId"@.len() == 11);
    assert("Timestamp"@.len() == 9);
    assert("CreatedAt"@.len() == 9);
    assert("UpdatedAt"@.len() == 9);
    assert("Summary"@.len() == 7);
    assert("Rationale"@.len() == 9);
    assert("ImplementationDetails"@.len() == 21);
    assert("Tags"@.len() == 4);
    assert("Status"@.len() == 6);
    assert("Description"@.len() == 11);
    assert("ParentId"@.len() == 8);
    assert("Name"@.len() == 4);
    assert("Category"@.len() == 8);
    assert("Key"@.len() == 3);
    assert("Value"@.len() == 5);
    assert("Rationale"@[0] != "Timestamp"@[0] && "Rationale"@[0] != "CreatedAt"@[0] && "Rationale"@[0]
        != "UpdatedAt"@[0]);
    assert("Description"@[0] != "WorkspaceId"@[0]);
    assert("Name"@[0] != "Tags"@[0]);
    assert("Category"@[0] != "ParentId"@[0]);
}

/// The insert of an item names its columns in a list and binds `?1`, `?2`,
/// ... in the same order; the value bound at each position is what the item
/// stores in the column named at that position.
#[verifier::rlimit(40)]
#[verifier::spinoff_prover]
pub proof fn lemma_insert_binds_columns(k: BatchItemKind, d: BatchItemData, id: Seq<char>, ws: Seq<char>, ts: Seq<char>)
    ensures
        insert_sql(k) == insert_target(k) + " ("@ + join(insert_columns(k), ", "@) + ") VALUES ("@ + join(
            placeholders(insert_columns(k).len()),
            ", "@,
        ) + ")"@,
        insert_values(k, d, id, ws, ts).len() == insert_columns(k).len(),
        forall|i: int|
            0 <= i < insert_columns(k).len() ==> #[trigger] insert_values(k, d, id, ws, ts)[i] == column_value(
                insert_columns(k)[i],
                d,
                id,
                ws,
                ts,
            ),
{
    lemma_column_value_names(d, id, ws, ts);
    reveal_strlit("Id");
    reveal_strlit("WorkspaceId");
    reveal_strlit("Timestamp");
    reveal_strlit("CreatedAt");
    reveal_strlit("UpdatedAt");
    reveal_strlit("Summary");
    reveal_strlit("Rationale");
    reveal_strlit("ImplementationDetails");
    reveal_strlit("Tags");
    reveal_strlit("Status");
    reveal_strlit("Description");
    reveal_strlit("ParentId");
    reveal_strlit("Name");
    reveal_strlit("Category");
    reveal_strlit("Key");
    reveal_strlit("Value");
    reveal_strlit(" (");
    reveal_strlit(", ");
    reveal_strlit(") VALUES (");
    reveal_strlit(")");
    reveal_strlit("?1");
    reveal_strlit("?2");
    reveal_strlit("?3");
    reveal_strlit("?4");
    reveal_strlit("?5");
    reveal_strlit("?6");
    reveal_strlit("?7");
    reveal_with_fuel(join, 8);
    let cols = insert_columns(k);
    let ph = placeholders(cols.len());
    match k {
        BatchItemKind::Decision => {
            reveal_strlit("INSERT OR REPLACE INTO Decisions");
            reveal_strlit("INSERT OR REPLACE INTO Decisions (Id, WorkspaceId, Summary, Rationale, ImplementationDetails, Tags, CreatedAt) VALUES (?1, ?2, ?3, ?4, ?5, ?6, ?7)");
            assert(ph =~= seq!["?1"@, "?2"@, "?3"@, "?4"@, "?5"@, "?6"@, "?7"@]);
            assert forall|i: int| 0 <= i < cols.len() implies #[trigger] insert_values(k, d, id, ws, ts)[i]
                == column_value(cols[i], d, id, ws, ts) by {
                if i == 0 {
                    assert(insert_values(k, d, id, ws, ts)[0] == column_value(cols[0], d, id, ws, ts));
                } else if i == 1 {
                    assert(insert_values(k, d, id, ws, ts)[1] == column_value(cols[1], d, id, ws, ts));
                } else if i == 2 {
                    assert(insert_values(k, d, id, ws, ts)[2] == column_value(cols[2], d, id, ws, ts));
                } else if i == 3 {
                    assert(insert_values(k, d, id, ws, ts)[3] == column_value(cols[3], d, id, ws, ts));
                } else if i == 4 {
                    assert(insert_values(k, d, id, ws, ts)[4] == column_value(cols[4], d, id, ws, ts));
                } else if i == 5 {
                    assert(insert_values(k, d, id, ws, ts)[5] == column_value(cols[5], d, id, ws, ts));
                } else if i == 6 {
                    assert(insert_values(k, d, id, ws, ts)[6] == column_value(cols[6], d, id, ws, ts));
                }
            }
        },
        BatchItemKind::ProgressEntry => {
            reveal_strlit("INSERT INTO ProgressEntries");
            reveal_strlit("INSERT INTO ProgressEntries (WorkspaceId, Timestamp, Status, Description, ParentId, CreatedAt, UpdatedAt) VALUES (?1, ?2, ?3, ?4, ?5, ?6, ?7)");
            assert(ph =~= seq!["?1"@, "?2"@, "?3"@, "?4"@, "?5"@, "?6"@, "?7"@]);
            assert forall|i: int| 0 <= i < cols.len() implies #[trigger] insert_values(k, d, id, ws, ts)[i]
                == column_value(cols[i], d, id, ws, ts) by {
                if i == 0 {
                    assert(insert_values(k, d, id, ws, ts)[0] == column_value(cols[0], d, id, ws, ts));
                } else if i == 1 {
                    assert(insert_values(k, d, id, ws, ts)[1] == column_value(cols[1], d, id, ws, ts));
                } else if i == 2 {
                    assert(insert_values(k, d, id, ws, ts)[2] == column_value(cols[2], d, id, ws, ts));
                } else if i == 3 {
                    assert(insert_values(k, d, id, ws, ts)[3] == column_value(cols[3], d, id, ws, ts));
                } else if i == 4 {
                    assert(insert_values(k, d, id, ws, ts)[4] == column_value(cols[4], d, id, ws, ts));
                } else if i == 5 {
                    assert(insert_values(k, d, id, ws, ts)[5] == column_value(cols[5], d, id, ws, ts));
                } else if i == 6 {
                    assert(insert_values(k, d, id, ws, ts)[6] == column_value(cols[6], d, id, ws, ts));
                }
            }
        },
        BatchItemKind::SystemPattern => {
            reveal_strlit("INSERT OR REPLACE INTO SystemPatterns");
            reveal_strlit("INSERT OR REPLACE INTO SystemPatterns (WorkspaceId, Timestamp, Name, Description, Tags, CreatedAt) VALUES (?1, ?2, ?3, ?4, ?5, ?6)");
            assert(ph =~= seq!["?1"@, "?2"@, "?3"@, "?4"@, "?5"@, "?6"@]);
            assert forall|i: int| 0 <= i < cols.len() implies #[trigger] insert_values(k, d, id, ws, ts)[i]
                == column_value(cols[i], d, id, ws, ts) by {
                if i == 0 {
                    assert(insert_values(k, d, id, ws, ts)[0] == column_value(cols[0], d, id, ws, ts));
                } else if i == 1 {
                    assert(insert_values(k, d, id, ws, ts)[1] == column_value(cols[1], d, id, ws, ts));
                } else if i == 2 {
                    assert(insert_values(k, d, id, ws, ts)[2] == column_value(cols[2], d, id, ws, ts));
                } else if i == 3 {
                    assert(insert_values(k, d, id, ws, ts)[3] == column_value(cols[3], d, id, ws, ts));
                } else if i == 4 {
                    assert(insert_values(k, d, id, ws, ts)[4] == column_value(cols[4], d, id, ws, ts));
                } else if i == 5 {
                    assert(insert_values(k, d, id, ws, ts)[5] == column_value(cols[5], d, id, ws, ts));
                }
            }
        },
        BatchItemKind::CustomData => {
            reveal_strlit("INSERT OR REPLACE INTO CustomData");
            reveal_strlit("INSERT OR REPLACE INTO CustomData (WorkspaceId, Timestamp, Category, Key, Value, CreatedAt) VALUES (?1, ?2, ?3, ?4, ?5, ?6)");
            assert(ph =~= seq!["?1"@, "?2"@, "?3"@, "?4"@, "?5"@, "?6"@]);
            assert forall|i: int| 0 <= i < cols.len() implies #[trigger] insert_values(k, d, id, ws, ts)[i]
                == column_value(cols[i], d, id, ws, ts) by {
                if i == 0 {
                    assert(insert_values(k, d, id, ws, ts)[0] == column_value(cols[0], d, id, ws, ts));
                } else if i == 1 {
                    assert(insert_values(k, d, id, ws, ts)[1] == column_value(cols[1], d, id, ws, ts));
                } else if i == 2 {
                    assert(insert_values(k, d, id, ws, ts)[2] == column_value(cols[2], d, id, ws, ts));
                } else if i == 3 {
                    assert(insert_values(k, d, id, ws, ts)[3] == column_value(cols[3], d, id, ws, ts));
                } else if i == 4 {
                    assert(insert_values(k, d, id, ws, ts)[4] == column_value(cols[4], d, id, ws, ts));
                } else if i == 5 {
                    assert(insert_values(k, d, id, ws, ts)[5] == column_value(cols[5], d, id, ws, ts));
                }
            }
        },
    }
    assert(insert_sql(k) =~= insert_target(k) + " ("@ + join(cols, ", "@) + ") VALUES ("@ + join(ph, ", "@) + ")"@);
}

fn text_param(s: &String) -> (p: SqlParam)
    ensures
        p.value() == SqlValue::Text(s@),
{
    SqlParam::Text(s.clone())
}

/// The insert that stores an item of kind `k`, with the item's own
/// identifier or a fresh one.
pub fn prepare_insert(k: BatchItemKind, d: &BatchItemData, ws: &str, ts: &str) -> (r: PreparedInsert)
    ensures
        r.Sql@ == insert_sql(k),
        match d.id {
            Some(i) => r.Id@ == i@,
            None => r.Id@.len() == 36,
        },
        param_values(r.Params@) == insert_values(k, *d, r.Id@, ws@, ts@),
{
    let id = match &d.id {
        Some(i) => i.clone(),
        None => new_uuid(),
    };
    let w = String::from_str(ws);
    let t = String::from_str(ts);
    let mut params: Vec<SqlParam> = Vec::new();
    let sql = match k {
        BatchItemKind::Decision => {
            params.push(text_param(&id));
            params.push(text_param(&w));
            params.push(text_param(&text_or_exec(&d.summary, "")));
            params.push(text_param(&text_or_exec(&d.rationale, "")));
            params.push(text_param(&text_or_exec(&d.implementation_details, "")));
            params.push(text_param(&text_or_exec(&d.tags_json, "")));
            params.push(text_param(&t));
            String::from_str("INSERT OR REPLACE INTO Decisions (Id, WorkspaceId, Summary, Rationale, ImplementationDetails, Tags, CreatedAt) VALUES (?1, ?2, ?3, ?4, ?5, ?6, ?7)")
        },
        BatchItemKind::ProgressEntry => {
            params.push(text_param(&w));
            params.push(text_param(&t));
            params.push(text_param(&text_or_exec(&d.status, "TODO")));
            params.push(text_param(&text_or_exec(&d.description, "")));
            match &d.parent_id {
                Some(p) => params.push(text_param(p)),
                None => params.push(SqlParam::Null),
            }
            params.push(text_param(&t));
            params.push(text_param(&t));
            String::from_str("INSERT INTO ProgressEntries (WorkspaceId, Timestamp, Status, Description, ParentId, CreatedAt, UpdatedAt) VALUES (?1, ?2, ?3, ?4, ?5, ?6, ?7)")
        },
        BatchItemKind::SystemPattern => {
            params.push(text_param(&w));
            params.push(text_param(&t));
            params.push(text_param(&text_or_exec(&d.name, "")));
            params.push(text_param(&text_or_exec(&d.description, "")));
            params.push(text_param(&text_or_exec(&d.tags_json, "")));
            params.push(text_param(&t));
            String::from_str("INSERT OR REPLACE INTO SystemPatterns (WorkspaceId, Timestamp, Name, Description, Tags, CreatedAt) VALUES (?1, ?2, ?3, ?4, ?5, ?6)")
        },
        BatchItemKind::CustomData => {
            params.push(text_param(&w));
            params.push(text_param(&t));
            params.push(text_param(&text_or_exec(&d.category, "default")));
            params.push(text_param(&text_or_exec(&d.key, "")));
            params.push(text_param(&text_or_exec(&d.value_json, "")));
            params.push(text_param(&t));
            String::from_str("INSERT OR REPLACE INTO CustomData (WorkspaceId, Timestamp, Category, Key, Value, CreatedAt) VALUES (?1, ?2, ?3, ?4, ?5, ?6)")
        },
    };
    assert(param_values(params@) =~= insert_values(k, *d, id@, ws@, ts@));
    PreparedInsert { Sql: sql, Params: params, Id: id }
}

/// The text that the embedding of an item is made from.
pub open spec fn embedding_text(k: BatchItemKind, d: BatchItemData) -> Seq<char> {
    match k {
        BatchItemKind::Decision => text_or(d.summary, ""@),
        BatchItemKind::ProgressEntry => text_or(d.description, ""@),
        BatchItemKind::SystemPattern => text_or(d.name, ""@) + ": "@ + text_or(d.description, ""@),
        BatchItemKind::CustomData => "["@ + text_or(d.category, "default"@) + "] "@ + text_or(d.key, ""@)
            + ": "@ + text_or(d.value_json, ""@),
    }
}

/// The message of an item whose type the batch does not take.
pub open spec fn invalid_type_message(t: Seq<char>) -> Seq<char> {
    "Invalid item type: "@ + t
}

/// HandleBatchLogItems - Log multiple items in a single request
pub struct HandleBatchLogItems;

impl HandleBatchLogItems {
    /// The kind of an item, or the message that refuses its type.
    pub fn ItemKind(item: &BatchItem) -> (r: Result<BatchItemKind, String>)
        ensures
            match kind_of(item.TypeField@) {
                Some(k) => r == Ok::<BatchItemKind, String>(k),
                None => r matches Err(e) && e@ == invalid_type_message(item.TypeField@),
            },
    {
        match parse_kind(item.TypeField.as_str()) {
            Some(k) => Ok(k),
            None => {
                let mut m = String::from_str("Invalid item type: ");
                m.append(item.TypeField.as_str());
                Err(m)
            },
        }
    }

    /// The text that the item's embedding is made from.
    pub fn EmbeddingText(k: BatchItemKind, d: &BatchItemData) -> (r: String)
        ensures
            r@ == embedding_text(k, *d),
    {
        match k {
            BatchItemKind::Decision => text_or_exec(&d.summary, ""),
            BatchItemKind::ProgressEntry => text_or_exec(&d.description, ""),
            BatchItemKind::SystemPattern => {
                let mut r = text_or_exec(&d.name, "");
                r.append(": ");
                r.append(text_or_exec(&d.description, "").as_str());
                r
            },
            BatchItemKind::CustomData => {
                let mut r = String::from_str("[");
                r.append(text_or_exec(&d.category, "default").as_str());
                r.append("] ");
                r.append(text_or_exec(&d.key, "").as_str());
                r.append(": ");
                r.append(text_or_exec(&d.value_json, "").as_str());
                r
            },
        }
    }

    /// The response to a batch, from the outcome of each item in order:
    /// every item is processed, and each failure is reported with its
    /// index, type and message.
    pub fn Summarize(items: &Vec<BatchItem>, outcomes: Vec<Result<(), String>>) -> (r: BatchLogItemsResponse)
        requires
            outcomes@.len() == items@.len(),
        ensures
            r.ItemsProcessed == items@.len(),
            r.ItemsSucceeded + r.ItemsFailed == r.ItemsProcessed,
            r.ItemsFailed == r.Errors@.len(),
            r.Success == (r.ItemsFailed == 0),
            r.ItemsFailed == failures(outcomes@).len(),
            forall|j: int| 0 <= j < r.Errors@.len() ==> {
                let i = failures(outcomes@)[j];
                &&& (#[trigger] r.Errors@[j]).Index == i
                &&& r.Errors@[j].ItemType == items@[i].TypeField
                &&& outcomes@[i] matches Err(m) && r.Errors@[j].Error == m
            },
    {
        let mut errors: Vec<BatchError> = Vec::new();
        let mut succeeded: usize = 0;
        let mut i: usize = 0;
        while i < outcomes.len()
            invariant
                outcomes@.len() == items@.len(),
                i <= outcomes.len(),
                succeeded + errors@.len() == i,
                errors@.len() == failures(outcomes@.take(i as int)).len(),
                forall|j: int| 0 <= j < errors@.len() ==> {
                    let k = failures(outcomes@.take(i as int))[j];
                    &&& (#[trigger] errors@[j]).Index == k
                    &&& errors@[j].ItemType == items@[k].TypeField
                    &&& outcomes@[k] matches Err(m) && errors@[j].Error == m
                },
                forall|j: int| 0 <= j < failures(outcomes@.take(i as int)).len() ==> 0 <= #[trigger] failures(outcomes@.take(i as int))[j] < i,
            decreases outcomes.len() - i,
        {
            proof {
                lemma_failures_step(outcomes@, i as int);
            }
            match &outcomes[i] {
                Ok(_) => {
                    succeeded = succeeded + 1;
                },
                Err(m) => {
                    errors.push(BatchError { Index: i, ItemType: items[i].TypeField.clone(), Error: m.clone() });
                },
            }
            i = i + 1;
        }
        assert(outcomes@.take(outcomes@.len() as int) =~= outcomes@);
        let failed = errors.len();
        BatchLogItemsResponse {
            Success: failed == 0,
            ItemsProcessed: items.len(),
            ItemsSucceeded: succeeded,
            ItemsFailed: failed,
            Errors: errors,
        }
    }
}

/// The indices of the failed outcomes, in order.
pub open spec fn failures<T>(outcomes: Seq<Result<T, String>>) -> Seq<int>
    decreases outcomes.len(),
{
    if outcomes.len() == 0 {
        Seq::empty()
    } else {
        failures(outcomes.drop_last()) + (if outcomes.last() is Err {
            seq![outcomes.len() - 1]
        } else {
            Seq::<int>::empty()
        })
    }
}

proof fn lemma_failures_step<T>(outcomes: Seq<Result<T, String>>, i: int)
    requires
        0 <= i < outcomes.len(),
    ensures
        failures(outcomes.take(i + 1)) == failures(outcomes.take(i)) + (if outcomes[i] is Err {
            seq![i]
        } else {
            Seq::<int>::empty()
        }),
{
    assert(outcomes.take(i + 1).drop_last() =~= outcomes.take(i));
}

/// HandleBatchLogItemsToDatabase - Log items directly to database without
/// vector store
pub struct HandleBatchLogItemsToDatabase;

impl HandleBatchLogItemsToDatabase {
    /// The insert that stores an item, or the message that refuses its type.
    pub fn PrepareItem(WorkspaceId: &str, timestamp: &str, Item: &BatchItem) -> (r: Result<PreparedInsert, String>)
        ensures
            match kind_of(Item.TypeField@) {
                Some(k) => r matches Ok(p) && p.Sql@ == insert_sql(k) && param_values(p.Params@)
                    == insert_values(k, Item.Data, p.Id@, WorkspaceId@, timestamp@) && match Item.Data.id {
                    Some(i) => p.Id@ == i@,
                    None => p.Id@.len() == 36,
                },
                None => r matches Err(e) && e@ == invalid_type_message(Item.TypeField@),
            },
    {
        match HandleBatchLogItems::ItemKind(Item) {
            Ok(k) => Ok(prepare_insert(k, &Item.Data, WorkspaceId, timestamp)),
            Err(e) => Err(e),
        }
    }

    /// The response to a batch, from the outcome of each item in order: the
    /// stored identifier or the failure's message. Every item has a result,
    /// and each failure is also reported as an error.
    pub fn Summarize(items: &Vec<BatchItem>, outcomes: Vec<Result<String, String>>) -> (r: BatchLogItemsToDatabaseResponse)
        requires
            outcomes@.len() == items@.len(),
        ensures
            r.ItemsProcessed == items@.len(),
            r.ItemsSucceeded + r.ItemsFailed == r.ItemsProcessed,
            r.ItemsFailed == r.Errors@.len(),
            r.ItemsFailed == failures(outcomes@).len(),
            r.Success == (r.ItemsFailed == 0),
            r.Results@.len() == items@.len(),
            forall|i: int| 0 <= i < items@.len() ==> {
                &&& (#[trigger] r.Results@[i]).Index == i
                &&& r.Results@[i].ItemType == items@[i].TypeField
                &&& match outcomes@[i] {
                    Ok(id) => r.Results@[i].Stored && r.Results@[i].Id == id,
                    Err(_) => !r.Results@[i].Stored && r.Results@[i].Id@.len() == 0,
                }
            },
            forall|j: int| 0 <= j < r.Errors@.len() ==> {
                let i = failures(outcomes@)[j];
                &&& (#[trigger] r.Errors@[j]).Index == i
                &&& r.Errors@[j].ItemType == items@[i].TypeField
                &&& outcomes@[i] matches Err(m) && r.Errors@[j].Error == m
            },
    {
        let mut errors: Vec<BatchError> = Vec::new();
        let mut results: Vec<BatchItemResult> = Vec::new();
        let mut succeeded: usize = 0;
        let mut i: usize = 0;
        while i < outcomes.len()
            invariant
                outcomes@.len() == items@.len(),
                i <= outcomes.len(),
                succeeded + errors@.len() == i,
                results@.len() == i,
                errors@.len() == failures(outcomes@.take(i as int)).len(),
                forall|k: int| 0 <= k < i ==> {
                    &&& (#[trigger] results@[k]).Index == k
                    &&& results@[k].ItemType == items@[k].TypeField
                    &&& match outcomes@[k] {
                        Ok(id) => results@[k].Stored && results@[k].Id == id,
                        Err(_) => !results@[k].Stored && results@[k].Id@.len() == 0,
                    }
                },
                forall|j: int| 0 <= j < errors@.len() ==> {
                    let k = failures(outcomes@.take(i as int))[j];
                    &&& (#[trigger] errors@[j]).Index == k
                    &&& errors@[j].ItemType == items@[k].TypeField
                    &&& outcomes@[k] matches Err(m) && errors@[j].Error == m
                },
                forall|j: int| 0 <= j < failures(outcomes@.take(i as int)).len() ==> 0 <= #[trigger] failures(outcomes@.take(i as int))[j] < i,
            decreases outcomes.len() - i,
        {
            proof {
                lemma_failures_step(outcomes@, i as int);
            }
            match &outcomes[i] {
                Ok(id) => {
                    succeeded = succeeded + 1;
                    results.push(BatchItemResult { Index: i, ItemType: items[i].TypeField.clone(), Id: id.clone(), Stored: true });
                },
                Err(m) => {
                    errors.push(BatchError { Index: i, ItemType: items[i].TypeField.clone(), Error: m.clone() });
                    results.push(BatchItemResult { Index: i, ItemType: items[i].TypeField.clone(), Id: String::new(), Stored: false });
                },
            }
            i = i + 1;
        }
        assert(outcomes@.take(outcomes@.len() as int) =~= outcomes@);
        let failed = errors.len();
        BatchLogItemsToDatabaseResponse {
            Success: failed == 0,
            ItemsProcessed: items.len(),
            ItemsSucceeded: succeeded,
            ItemsFailed: failed,
            Errors: errors,
            Results: results,
        }
    }
}

/// HandleBatchDelete - Delete multiple items in a single request
pub struct HandleBatchDelete;

impl HandleBatchDelete {
    /// The response to a batch deletion, from the outcome of each item in
    /// order; each failure is reported with its index, type and message.
    pub fn Summarize(items: &Vec<BatchDeleteItem>, outcomes: Vec<Result<(), String>>) -> (r: BatchDeleteResponse)
        requires
            outcomes@.len() == items@.len(),
        ensures
            r.ItemsDeleted + r.ItemsFailed == items@.len(),
            r.ItemsFailed == r.Errors@.len(),
            r.ItemsFailed == failures(outcomes@).len(),
            r.Success == (r.ItemsFailed == 0),
            forall|j: int| 0 <= j < r.Errors@.len() ==> {
                let i = failures(outcomes@)[j];
                &&& (#[trigger] r.Errors@[j]).Index == i
                &&& r.Errors@[j].ItemType == items@[i].TypeField
                &&& outcomes@[i] matches Err(m) && r.Errors@[j].Error == m
            },
    {
        let mut errors: Vec<BatchError> = Vec::new();
        let mut deleted: usize = 0;
        let mut i: usize = 0;
        while i < outcomes.len()
            invariant
                outcomes@.len() == items@.len(),
                i <= outcomes.len(),
                deleted + errors@.len() == i,
                errors@.len() == failures(outcomes@.take(i as int)).len(),
                forall|j: int| 0 <= j < errors@.len() ==> {
                    let k = failures(outcomes@.take(i as int))[j];
                    &&& (#[trigger] errors@[j]).Index == k
                    &&& errors@[j].ItemType == items@[k].TypeField
                    &&& outcomes@[k] matches Err(m) && errors@[j].Error == m
                },
                forall|j: int| 0 <= j < failures(outcomes@.take(i as int)).len() ==> 0 <= #[trigger] failures(outcomes@.take(i as int))[j] < i,
            decreases outcomes.len() - i,
        {
            proof {
                lemma_failures_step(outcomes@, i as int);
            }
            match &outcomes[i] {
                Ok(_) => {
                    deleted = deleted + 1;
                },
                Err(m) => {
                    errors.push(BatchError { Index: i, ItemType: items[i].TypeField.clone(), Error: m.clone() });
                },
            }
            i = i + 1;
        }
        assert(outcomes@.take(outcomes@.len() as int) =~= outcomes@);
        let failed = errors.len();
        BatchDeleteResponse { Success: failed == 0, ItemsDeleted: deleted, ItemsFailed: failed, Errors: errors }
    }
}

} // verus!
