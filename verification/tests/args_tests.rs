use conport::args::history::item_type as history_item_type;
use conport::args::history::{GetItemHistoryArgs, GetRecentActivitySummaryArgs};
use conport::args::int_coercion;
use conport::args::progress::status;
use conport::args::progress::{LogProgressArgs, UpdateProgressArgs};
use conport::args::context::{Context, JsonValue};
use conport::args::schema::{AllSchemas, ContextSchema, ValidateContext, ValidateFieldType, SCHEMA_VERSION};

#[test]
fn History_test_item_type_validation() {
    assert!(history_item_type::is_valid("product_context"));
    assert!(history_item_type::is_valid("active_context"));
    assert!(!history_item_type::is_valid("invalid"));
}

#[test]
fn test_get_item_history_args_validation() {
    let valid_args = GetItemHistoryArgs {
        workspace_id: "ws1".to_string(),
        item_type: "product_context".to_string(),
        limit: Some(10),
        before_timestamp: None,
        after_timestamp: None,
        version: None,
    };
    assert!(valid_args.validate().is_ok());

    let invalid_args = GetItemHistoryArgs {
        workspace_id: "ws1".to_string(),
        item_type: "invalid_type".to_string(),
        limit: None,
        before_timestamp: None,
        after_timestamp: None,
        version: None,
    };
    assert!(invalid_args.validate().is_err());

    let invalid_limit = GetItemHistoryArgs {
        workspace_id: "ws1".to_string(),
        item_type: "active_context".to_string(),
        limit: Some(0),
        before_timestamp: None,
        after_timestamp: None,
        version: None,
    };
    assert!(invalid_limit.validate().is_err());
}

#[test]
fn test_get_recent_activity_summary_args_validation() {
    let valid_args = GetRecentActivitySummaryArgs {
        workspace_id: "ws1".to_string(),
        hours_ago: Some(24),
        since_timestamp: None,
        limit_per_type: Some(5),
    };
    assert!(valid_args.validate().is_ok());

    let invalid_args = GetRecentActivitySummaryArgs {
        workspace_id: "ws1".to_string(),
        hours_ago: Some(24),
        since_timestamp: Some("2024-01-01T00:00:00Z".to_string()),
        limit_per_type: None,
    };
    assert!(invalid_args.validate().is_err());

    let invalid_hours = GetRecentActivitySummaryArgs {
        workspace_id: "ws1".to_string(),
        hours_ago: Some(0),
        since_timestamp: None,
        limit_per_type: None,
    };
    assert!(invalid_hours.validate().is_err());
}

#[test]
fn IntCoercion_test_is_digit_only() {
    assert!(int_coercion::is_digit_only("123"));
    assert!(int_coercion::is_digit_only("0"));
    assert!(!int_coercion::is_digit_only("12a"));
    assert!(!int_coercion::is_digit_only(""));
    assert!(!int_coercion::is_digit_only("12.3"));
    assert!(!int_coercion::is_digit_only("-123"));
}

#[test]
fn test_coerce_to_i32() {
    assert_eq!(int_coercion::coerce_to_i32("123"), Some(123));
    assert_eq!(int_coercion::coerce_to_i32("0"), Some(0));
    assert_eq!(int_coercion::coerce_to_i32("abc"), None);
    assert_eq!(int_coercion::coerce_to_i32(""), None);
}

#[test]
fn IntCoercion_test_coerce_optional() {
    assert_eq!(int_coercion::coerce_optional_i32(Some("123".to_string())), Some(123));
    assert_eq!(int_coercion::coerce_optional_i32(Some("".to_string())), None);
    assert_eq!(int_coercion::coerce_optional_i32(None), None);
}

#[test]
fn test_log_progress_args_validation() {
    let valid_args = LogProgressArgs {
        workspace_id: "ws1".to_string(),
        status: "TODO".to_string(),
        description: "Test".to_string(),
        parent_id: None,
        linked_item_type: None,
        linked_item_id: None,
        link_relationship_type: None,
    };
    assert!(valid_args.validate().is_ok());

    let invalid_args = LogProgressArgs {
        workspace_id: "ws1".to_string(),
        status: "TODO".to_string(),
        description: "Test".to_string(),
        parent_id: None,
        linked_item_type: Some("decision".to_string()),
        linked_item_id: None,
        link_relationship_type: None,
    };
    assert!(invalid_args.validate().is_err());
}

#[test]
fn test_update_progress_args_validation() {
    let valid_args = UpdateProgressArgs {
        workspace_id: "ws1".to_string(),
        progress_id: 1,
        status: Some("DONE".to_string()),
        description: None,
        parent_id: None,
    };
    assert!(valid_args.validate().is_ok());

    let invalid_args = UpdateProgressArgs {
        workspace_id: "ws1".to_string(),
        progress_id: 1,
        status: None,
        description: None,
        parent_id: None,
    };
    assert!(invalid_args.validate().is_err());
}

#[test]
fn test_status_validation() {
    assert!(status::is_valid("TODO"));
    assert!(status::is_valid("IN_PROGRESS"));
    assert!(status::is_valid("DONE"));
    assert!(!status::is_valid("INVALID"));
}

#[test]
fn test_schema_versions() {
    let schema = ContextSchema::default();
    assert_eq!(schema.Version, SCHEMA_VERSION);
}

#[test]
fn test_all_schemas() {
    let all = AllSchemas::default();
    assert_eq!(all.Version, SCHEMA_VERSION);
}

#[test]
fn coerce_large_and_signed_values() {
    assert_eq!(int_coercion::coerce_to_i64("1234567890123"), Some(1234567890123));
    assert_eq!(int_coercion::coerce_to_i32("2147483648"), None);
    assert_eq!(int_coercion::coerce_to_u64("18446744073709551615"), Some(u64::MAX));
    assert_eq!(int_coercion::coerce_to_u32(" 1"), None);
}

#[test]
fn test_validate_context_valid() {
    let ctx = Context::new_string(
        "test-id".to_string(),
        "Test".to_string(),
        "content".to_string(),
        "/workspace".to_string(),
    );
    assert!(ValidateContext(&ctx).is_ok());
}

#[test]
fn test_validate_context_invalid() {
    let ctx = Context {
        Id: "".to_string(),
        Name: "".to_string(),
        Content: JsonValue::Null,
        WorkspacePath: "".to_string(),
        CreatedAt: "".to_string(),
        UpdatedAt: "".to_string(),
    };
    let result = ValidateContext(&ctx);
    assert!(result.is_err());
    assert_eq!(result.unwrap_err().len(), 3);
}

#[test]
fn test_validate_field_type() {
    assert!(ValidateFieldType(&JsonValue::Text("test".to_string()), "string"));
    assert!(ValidateFieldType(&JsonValue::Number("123".to_string()), "number"));
    assert!(ValidateFieldType(&JsonValue::Bool(true), "boolean"));
    assert!(ValidateFieldType(&JsonValue::Array(Vec::new()), "array"));
    assert!(ValidateFieldType(&JsonValue::Object(Vec::new()), "object"));
    assert!(ValidateFieldType(&JsonValue::Null, "null"));
    assert!(ValidateFieldType(
        &JsonValue::Object(vec![("a".to_string(), JsonValue::Number("1".to_string()))]),
        "json"
    ));
}
