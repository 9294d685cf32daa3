use conport::types::coerce;
use conport::types::context_link::item_type;
use conport::types::context_link::{ContextLink, GetLinkedItemsArgs, LinkConportItemsArgs};
use conport::types::custom_data::{GetCustomDataArgs, SearchCustomDataValueArgs};
use conport::types::system_pattern::{GetSystemPatternsArgs, LogSystemPatternArgs, SystemPattern};

#[test]
fn Coerce_test_is_digit_only() {
    assert!(coerce::is_digit_only("123"));
    assert!(coerce::is_digit_only("0"));
    assert!(!coerce::is_digit_only("12a"));
    assert!(!coerce::is_digit_only(""));
    assert!(!coerce::is_digit_only("12.3"));
}

#[test]
fn test_coerce_string_to_int() {
    assert_eq!(coerce::coerce_to_i32("123"), Some(123));
    assert_eq!(coerce::coerce_to_i32("abc"), None);
    assert_eq!(coerce::coerce_to_i64("1234567890123"), Some(1234567890123));
}

#[test]
fn Coerce_test_coerce_optional() {
    assert_eq!(coerce::coerce_optional_to_i32(Some("123".to_string())), Some(123));
    assert_eq!(coerce::coerce_optional_to_i32(Some("".to_string())), None);
    assert_eq!(coerce::coerce_optional_to_i32(None), None);
}

#[test]
fn test_coerce_to_bool() {
    assert_eq!(coerce::coerce_to_bool("true"), Some(true));
    assert_eq!(coerce::coerce_to_bool("1"), Some(true));
    assert_eq!(coerce::coerce_to_bool("false"), Some(false));
    assert_eq!(coerce::coerce_to_bool("0"), Some(false));
    assert_eq!(coerce::coerce_to_bool("invalid"), None);
}

#[test]
fn test_context_link_creation() {
    let link = ContextLink::New(
        "workspace1".to_string(),
        "decision".to_string(),
        "123".to_string(),
        "progress_entry".to_string(),
        "456".to_string(),
        "implements".to_string(),
        Some("This progress implements decision 123".to_string()),
    );

    assert!(!link.Id.is_empty());
    assert_eq!(link.SourceItemType, "decision");
    assert_eq!(link.SourceItemId, "123");
    assert_eq!(link.TargetItemType, "progress_entry");
    assert_eq!(link.TargetItemId, "456");
    assert_eq!(link.RelationshipType, "implements");
}

#[test]
fn ContextLink_test_item_type_validation() {
    assert!(item_type::is_valid("decision"));
    assert!(item_type::is_valid("progress_entry"));
    assert!(item_type::is_valid("system_pattern"));
    assert!(item_type::is_valid("custom_data"));
    assert!(!item_type::is_valid("invalid"));
}

#[test]
fn test_link_conport_items_args_validation() {
    let valid_args = LinkConportItemsArgs {
        workspace_id: "ws1".to_string(),
        source_item_type: "decision".to_string(),
        source_item_id: "123".to_string(),
        target_item_type: "progress_entry".to_string(),
        target_item_id: "456".to_string(),
        relationship_type: "implements".to_string(),
        description: Some("Description".to_string()),
    };
    assert!(valid_args.validate().is_ok());

    let invalid_args = LinkConportItemsArgs {
        workspace_id: "ws1".to_string(),
        source_item_type: "invalid".to_string(),
        source_item_id: "123".to_string(),
        target_item_type: "progress_entry".to_string(),
        target_item_id: "456".to_string(),
        relationship_type: "relates_to".to_string(),
        description: None,
    };
    assert!(invalid_args.validate().is_err());

    let invalid_empty = LinkConportItemsArgs {
        workspace_id: "ws1".to_string(),
        source_item_type: "decision".to_string(),
        source_item_id: "".to_string(),
        target_item_type: "progress_entry".to_string(),
        target_item_id: "456".to_string(),
        relationship_type: "relates_to".to_string(),
        description: None,
    };
    assert!(invalid_empty.validate().is_err());
}

#[test]
fn test_get_linked_items_args_validation() {
    let valid_args = GetLinkedItemsArgs {
        workspace_id: "ws1".to_string(),
        item_type: "decision".to_string(),
        item_id: "123".to_string(),
        relationship_type_filter: None,
        linked_item_type_filter: None,
        limit: Some(10),
    };
    assert!(valid_args.validate().is_ok());

    let invalid_args = GetLinkedItemsArgs {
        workspace_id: "ws1".to_string(),
        item_type: "invalid".to_string(),
        item_id: "123".to_string(),
        relationship_type_filter: None,
        linked_item_type_filter: None,
        limit: None,
    };
    assert!(invalid_args.validate().is_err());

    let invalid_limit = GetLinkedItemsArgs {
        workspace_id: "ws1".to_string(),
        item_type: "decision".to_string(),
        item_id: "123".to_string(),
        relationship_type_filter: None,
        linked_item_type_filter: None,
        limit: Some(0),
    };
    assert!(invalid_limit.validate().is_err());
}

#[test]
fn test_get_custom_data_args_validation() {
    let valid_args = GetCustomDataArgs {
        workspace_id: "ws1".to_string(),
        category: Some("config".to_string()),
        key: Some("api_key".to_string()),
    };
    assert!(valid_args.validate().is_ok());

    let invalid_args = GetCustomDataArgs { workspace_id: "ws1".to_string(), category: None, key: Some("api_key".to_string()) };
    assert!(invalid_args.validate().is_err());
}

#[test]
fn test_search_custom_data_args_validation() {
    let valid_args = SearchCustomDataValueArgs {
        workspace_id: "ws1".to_string(),
        query_term: "test".to_string(),
        category_filter: None,
        limit: Some(10),
    };
    assert!(valid_args.validate().is_ok());

    let invalid_args = SearchCustomDataValueArgs {
        workspace_id: "ws1".to_string(),
        query_term: "".to_string(),
        category_filter: None,
        limit: None,
    };
    assert!(invalid_args.validate().is_err());
}

#[test]
fn test_system_pattern_creation() {
    let pattern = SystemPattern::New(
        "workspace1".to_string(),
        "Error Handling Pattern".to_string(),
        Some("A pattern for handling errors".to_string()),
        Some(vec!["error".to_string(), "handling".to_string()]),
    );

    assert!(!pattern.Id.is_empty());
    assert_eq!(pattern.Name, "Error Handling Pattern");
    assert_eq!(pattern.Description, Some("A pattern for handling errors".to_string()));
    assert_eq!(pattern.Tags, Some(vec!["error".to_string(), "handling".to_string()]));
}

#[test]
fn test_system_pattern_tags_json() {
    let pattern = SystemPattern::New(
        "workspace1".to_string(),
        "Test Pattern".to_string(),
        None,
        Some(vec!["tag1".to_string(), "tag2".to_string()]),
    );

    let json = pattern.tags_to_json();
    assert!(json.is_some());

    let tags = SystemPattern::tags_from_json(&json.unwrap());
    assert_eq!(tags, Some(vec!["tag1".to_string(), "tag2".to_string()]));
}

#[test]
fn test_log_system_pattern_args_validation() {
    let valid_args = LogSystemPatternArgs {
        workspace_id: "ws1".to_string(),
        name: "Test Pattern".to_string(),
        description: Some("Description".to_string()),
        tags: Some(vec!["tag1".to_string()]),
    };
    assert!(valid_args.validate().is_ok());

    let invalid_args = LogSystemPatternArgs {
        workspace_id: "ws1".to_string(),
        name: "".to_string(),
        description: None,
        tags: None,
    };
    assert!(invalid_args.validate().is_err());
}

#[test]
fn test_get_system_patterns_args_validation() {
    let valid_args = GetSystemPatternsArgs {
        workspace_id: "ws1".to_string(),
        limit: Some(10),
        tags_filter_include_all: None,
        tags_filter_include_any: None,
    };
    assert!(valid_args.validate().is_ok());

    let invalid_args = GetSystemPatternsArgs {
        workspace_id: "ws1".to_string(),
        limit: None,
        tags_filter_include_all: Some(vec!["tag1".to_string()]),
        tags_filter_include_any: Some(vec!["tag2".to_string()]),
    };
    assert!(invalid_args.validate().is_err());

    let invalid_limit = GetSystemPatternsArgs {
        workspace_id: "ws1".to_string(),
        limit: Some(0),
        tags_filter_include_all: None,
        tags_filter_include_any: None,
    };
    assert!(invalid_limit.validate().is_err());
}

#[test]
fn coerce_bool_words_ignore_case() {
    assert_eq!(coerce::coerce_to_bool("YES"), Some(true));
    assert_eq!(coerce::coerce_to_bool("Off"), Some(false));
}
