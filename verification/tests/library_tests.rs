use conport::args::history::GetRecentActivitySummaryArgs;
use conport::args::int_coercion::{coerce_optional_i64, coerce_optional_u32, coerce_optional_u64};
use conport::args::schema::{SchemaField, ValidateContext, ValidateField, ValidateFieldType};
use conport::markdown::export::{ContextExport, DecisionExport, ExportContexts, ExportDecisions, ExportOptions};
use conport::protocol::request::{Method, RequestData};
use conport::protocol::response::{Error, ErrorCode, ResponseResult};
use conport::query::filter::{FilterSqlBuilder, TagFilterInput};
use conport::query::normalize::{build_fts_where_clause, PrepareFtsQueryWithColumns};
use conport::text::{str_contains, str_starts_with};
use conport::types::coerce::{
    coerce_numeric_string, coerce_optional_to_bool, coerce_optional_to_i64, coerce_optional_to_lowercase,
    coerce_optional_to_u32, coerce_optional_to_u64, coerce_optional_trim, coerce_to_lowercase, coerce_trim,
};
use conport::types::filter::{Pagination, SortDirection, SortField, Sorting};
use conport::args::context::{Context, JsonValue};

#[test]
fn text_search_helpers() {
    assert!(str_contains("hello world", "o w"));
    assert!(!str_contains("hello", "world"));
    assert!(str_contains("abc", ""));
    assert!(str_starts_with("prefix-rest", "prefix"));
    assert!(!str_starts_with("pre", "prefix"));
}

#[test]
fn coercions_of_loose_input() {
    assert_eq!(coerce_numeric_string("  42 "), Some(42));
    assert_eq!(coerce_numeric_string("4x2"), None);
    assert_eq!(coerce_optional_to_i64(Some("17".to_string())), Some(17));
    assert_eq!(coerce_optional_to_i64(None), None);
    assert_eq!(coerce_optional_to_u32(Some("4294967295".to_string())), Some(4294967295));
    assert_eq!(coerce_optional_to_u32(Some("4294967296".to_string())), None);
    assert_eq!(coerce_optional_to_u64(Some("18446744073709551615".to_string())), Some(u64::MAX));
    assert_eq!(coerce_optional_to_bool(Some("TRUE".to_string())), Some(true));
    assert_eq!(coerce_optional_to_bool(Some("0".to_string())), Some(false));
    assert_eq!(coerce_optional_to_bool(Some("maybe".to_string())), None);
    assert_eq!(coerce_trim("  padded\t"), "padded");
    assert_eq!(coerce_optional_trim(Some(" x ".to_string())), Some("x".to_string()));
    assert_eq!(coerce_to_lowercase("MiXeD"), "mixed");
    assert_eq!(coerce_optional_to_lowercase(Some("ABC".to_string())), Some("abc".to_string()));
    assert_eq!(coerce_optional_i64(Some("-5".to_string())), None);
    assert_eq!(coerce_optional_i64(Some("5".to_string())), Some(5));
    assert_eq!(coerce_optional_u32(Some("7".to_string())), Some(7));
    assert_eq!(coerce_optional_u64(Some("".to_string())), None);
}

#[test]
fn sorting_and_pagination() {
    let s = Sorting::new(Some(SortField::Name), Some(SortDirection::Asc));
    assert_eq!(s.to_sql(), "Name ASC");
    assert_eq!(Sorting::default().to_sql(), "Timestamp DESC");
    let p = Pagination::with_limit(20);
    assert_eq!(p.offset, Some(0));
    assert_eq!(p.limit, Some(20));
}

#[test]
fn full_text_clauses() {
    assert_eq!(build_fts_where_clause("database", &["summary", "rationale"]), "(summary MATCH ? OR rationale MATCH ?)");
    assert_eq!(build_fts_where_clause("   ", &["summary"]), "");
    assert!(PrepareFtsQueryWithColumns("summary:cache", vec!["summary".to_string()]).contains("summary:cache"));
}

#[test]
fn tag_filters_join_a_query() {
    let ok = FilterSqlBuilder::new("SELECT * FROM decisions")
        .with_workspace("ws")
        .with_tag_filter(&TagFilterInput::new_include_any(vec!["db".to_string()]), "Tags");
    assert!(ok.is_ok());
    let sql = ok.ok().unwrap().build(None, None, None);
    assert!(sql.starts_with("SELECT * FROM decisions WHERE WorkspaceId = ? AND "));
    let bad = FilterSqlBuilder::new("SELECT * FROM decisions")
        .with_tag_filter(&TagFilterInput::new_include_all(vec!["".to_string()]), "Tags");
    assert_eq!(bad.err(), Some("Tag cannot be empty".to_string()));
}

#[test]
fn protocol_builders() {
    let e = Error::WithData(ErrorCode::InvalidParams, "bad", serde_json::Value::Bool(true));
    assert_eq!(e.code, -32602);
    assert_eq!(e.message, "bad");
    assert_eq!(e.data, Some(serde_json::Value::Bool(true)));
    assert!(ResponseResult::Success(serde_json::Value::Null).IsSuccess());
    assert!(!ResponseResult::Error(Error::InternalError("x")).IsSuccess());
    let r = RequestData::WithParams(Method::DecisionCreate, serde_json::Value::Bool(false));
    assert_eq!(r.method, Method::DecisionCreate);
    assert_eq!(r.params, Some(serde_json::Value::Bool(false)));
}

#[test]
fn list_exports() {
    let none = ExportContexts(&[], &ExportOptions::default());
    assert_eq!(none, "# No Contexts Found\n\nNo contexts were found to export.\n");
    let two = ExportContexts(
        &[
            ContextExport::new("A".to_string(), "a".to_string(), "/w".to_string()),
            ContextExport::new("B".to_string(), "b".to_string(), "/w".to_string()),
        ],
        &ExportOptions::default().with_metadata(false),
    );
    assert!(two.starts_with("# ConPort Contexts Export\n\nExported 2 context(s)\n\n# A\n\n"));
    assert!(two.contains("\n---\n\n# B\n\n"));
    let ds = ExportDecisions(&[DecisionExport::new("1".to_string(), "Use Rust".to_string())], &ExportOptions::default());
    assert!(ds.starts_with("# ConPort Decisions Export\n\nExported 1 decision(s)\n\n## Decision: Use Rust\n\n"));
    assert!(ds.ends_with("\n---\n\n"));
}

#[test]
fn context_records_are_validated() {
    let valid = Context {
        Id: "c1".to_string(),
        Name: "Main".to_string(),
        Content: JsonValue::Object(Vec::new()),
        WorkspacePath: "/w".to_string(),
        CreatedAt: "t".to_string(),
        UpdatedAt: "t".to_string(),
    };
    assert!(ValidateContext(&valid).is_ok());
    let invalid = Context { Name: String::new(), WorkspacePath: String::new(), ..valid };
    let errors = ValidateContext(&invalid).err().unwrap();
    assert_eq!(errors.len(), 2);
}

#[test]
fn recent_activity_summary_limit() {
    let a = GetRecentActivitySummaryArgs {
        workspace_id: "w".to_string(),
        hours_ago: None,
        since_timestamp: None,
        limit_per_type: None,
    };
    assert_eq!(a.limit_per_type_value(), 5);
    let b = GetRecentActivitySummaryArgs { limit_per_type: Some(9), ..a };
    assert_eq!(b.limit_per_type_value(), 9);
}

#[test]
fn field_validation_messages() {
    let required = SchemaField {
        Name: "Name".to_string(),
        Type: "string".to_string(),
        Required: true,
        Description: "d".to_string(),
    };
    let e = ValidateField(&JsonValue::Null, &required).err().unwrap();
    assert_eq!(e.Field, "Name");
    assert_eq!(e.Message, "Field Name is required");
    let e = ValidateField(&JsonValue::Number("1".to_string()), &required).err().unwrap();
    assert_eq!(e.Message, "Field Name has invalid type. Expected string");
    assert!(ValidateField(&JsonValue::Text("x".to_string()), &required).is_ok());
    let optional = SchemaField { Required: false, ..required };
    assert!(ValidateField(&JsonValue::Null, &optional).is_ok());
    assert!(!ValidateFieldType(&JsonValue::Null, "unknown"));
    assert!(!ValidateFieldType(&JsonValue::Bool(true), "string"));
}
