use conport::args::decision::Decision;
use conport::args::history::ContextHistory;
use conport::args::progress::{status, Progress};
use conport::types::custom_data::{CustomData, LogCustomDataArgs};
use serde_json::Value;

fn object(entries: Vec<(&str, Value)>) -> Value {
    let mut m = serde_json::Map::new();
    for (k, v) in entries {
        m.insert(k.to_string(), v);
    }
    Value::Object(m)
}

#[test]
fn test_progress_creation() {
    let progress = Progress::New("workspace1".to_string(), "Test task".to_string(), status::TODO.to_string(), None);

    assert!(!progress.Id.is_empty());
    assert_eq!(progress.WorkspaceId, "workspace1");
    assert_eq!(progress.Description, "Test task");
    assert_eq!(progress.Status, "TODO");
    assert!(progress.ParentId.is_none());
}

#[test]
fn test_context_history_creation() {
    let history = ContextHistory::New(
        "workspace1".to_string(),
        1,
        object(vec![("key", Value::String("value".to_string()))]),
        Some("initialization".to_string()),
    );

    assert!(history.Id > 0);
    assert_eq!(history.Version, 1);
    assert_eq!(history.Content, object(vec![("key", Value::String("value".to_string()))]));
    assert_eq!(history.ChangeSource, Some("initialization".to_string()));
}

#[test]
fn test_context_history_content_json() {
    let history = ContextHistory::New(
        "workspace1".to_string(),
        1,
        object(vec![("setting", Value::String("dark".to_string()))]),
        None,
    );

    let json = history.content_to_json();
    assert!(!json.is_empty());

    let content = ContextHistory::content_from_json(&json);
    assert_eq!(content, object(vec![("setting", Value::String("dark".to_string()))]));
}

#[test]
fn test_custom_data_creation() {
    let data = CustomData::New(
        "workspace1".to_string(),
        "config".to_string(),
        "api_key".to_string(),
        Value::String("secret123".to_string()),
    );

    assert!(!data.Id.is_empty());
    assert_eq!(data.Category, "config");
    assert_eq!(data.Key, "api_key");
    assert_eq!(data.Value, Value::String("secret123".to_string()));
}

#[test]
fn test_custom_data_value_json() {
    let value = object(vec![("theme", Value::String("dark".to_string())), ("notifications", Value::Bool(true))]);
    let data = CustomData::New("workspace1".to_string(), "settings".to_string(), "preferences".to_string(), value);

    let json = data.value_to_json();
    assert!(!json.is_empty());

    let value = CustomData::value_from_json(&json);
    assert_eq!(
        value,
        object(vec![("theme", Value::String("dark".to_string())), ("notifications", Value::Bool(true))])
    );
}

#[test]
fn test_log_custom_data_args_validation() {
    let valid_args = LogCustomDataArgs {
        workspace_id: "ws1".to_string(),
        category: "config".to_string(),
        key: "api_key".to_string(),
        value: Value::String("value".to_string()),
    };
    assert!(valid_args.validate().is_ok());

    let invalid_args = LogCustomDataArgs {
        workspace_id: "ws1".to_string(),
        category: "".to_string(),
        key: "key".to_string(),
        value: Value::Null,
    };
    assert!(invalid_args.validate().is_err());
}

#[test]
fn unreadable_json_reads_as_null() {
    assert_eq!(CustomData::value_from_json("not json"), Value::Null);
    assert_eq!(ContextHistory::content_from_json("{"), Value::Null);
}

#[test]
fn fresh_progress_has_v4_id_and_utc_stamp() {
    let progress = Progress::New("w".to_string(), "Task".to_string(), status::TODO.to_string(), None);
    let id: Vec<char> = progress.Id.chars().collect();
    assert_eq!(id.len(), 36);
    for (i, c) in id.iter().enumerate() {
        if i == 8 || i == 13 || i == 18 || i == 23 {
            assert_eq!(*c, '-');
        } else {
            assert!(c.is_ascii_digit() || ('a'..='f').contains(c));
        }
    }
    assert_eq!(id[14], '4');
    assert!(['8', '9', 'a', 'b'].contains(&id[19]));
    assert!(progress.Timestamp.len() >= 25);
    assert!(progress.Timestamp.ends_with("+00:00"));
    assert_eq!(progress.CreatedAt, progress.Timestamp);
}

#[test]
fn decision_tags_are_compact_escaped_json() {
    let d = Decision::New(
        "w".to_string(),
        "s".to_string(),
        None,
        None,
        Some(vec!["a".to_string(), "b\"c\\d\n".to_string(), "\u{1}".to_string()]),
    );
    assert_eq!(d.Tags, Some("[\"a\",\"b\\\"c\\\\d\\n\",\"\\u0001\"]".to_string()));
    assert!(d.Timestamp.ends_with("+00:00"));
    let none = Decision::New("w".to_string(), "s".to_string(), None, None, None);
    assert_eq!(none.Tags, Some(String::new()));
}
