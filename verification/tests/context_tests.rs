use conport::args::context::{Context, JsonValue, UpdateMode};
use conport::handlers::context::{updated_content, UpdateContextRequest};
use conport::error::status::Kind;
use conport::handlers::context::{context_not_found, context_table};
use conport::persistence::operations::history_table;

fn num(n: &str) -> JsonValue {
    JsonValue::Number(n.to_string())
}

fn object(members: Vec<(&str, JsonValue)>) -> JsonValue {
    JsonValue::Object(members.into_iter().map(|(k, v)| (k.to_string(), v)).collect())
}

fn lookup<'a>(v: &'a JsonValue, key: &str) -> Option<&'a JsonValue> {
    match v {
        JsonValue::Object(members) => members.iter().find(|(k, _)| k == key).map(|(_, v)| v),
        _ => None,
    }
}

#[test]
fn test_context_creation_with_json() {
    let json_content = || object(vec![
        ("title", JsonValue::Text("Test".to_string())),
        (
            "items",
            JsonValue::Array(vec![
                JsonValue::Text("a".to_string()),
                JsonValue::Text("b".to_string()),
                JsonValue::Text("c".to_string()),
            ]),
        ),
    ]);
    let ctx = Context::new(
        "test-id".to_string(),
        "Test Context".to_string(),
        json_content(),
        "/workspace".to_string(),
    );
    assert_eq!(ctx.Content, json_content());
}

#[test]
fn test_full_update_mode() {
    let mut ctx = Context::new_string(
        "test-id".to_string(),
        "Test".to_string(),
        "original".to_string(),
        "/workspace".to_string(),
    );
    ctx.update_content(JsonValue::Text("updated".to_string()), UpdateMode::FullUpdate);
    assert_eq!(ctx.content_text(), Some("updated".to_string()));
}

#[test]
fn test_patch_update_mode() {
    let mut ctx = Context::new(
        "test-id".to_string(),
        "Test".to_string(),
        object(vec![("a", num("1")), ("b", num("2"))]),
        "/workspace".to_string(),
    );
    ctx.update_content(object(vec![("b", num("3")), ("c", num("4"))]), UpdateMode::PatchUpdate);
    let expected = object(vec![("a", num("1")), ("b", num("3")), ("c", num("4"))]);
    assert_eq!(ctx.Content, expected);
}

#[test]
fn test_update_mode_default() {
    let mode: UpdateMode = UpdateMode::default();
    assert_eq!(mode, UpdateMode::FullUpdate);
}

#[test]
fn patch_merges_nested_objects_and_keeps_other_keys() {
    let mut ctx = Context::new(
        "id".to_string(),
        "n".to_string(),
        object(vec![
            ("settings", object(vec![("theme", JsonValue::Text("dark".to_string())), ("size", num("12"))])),
            ("owner", JsonValue::Text("ana".to_string())),
        ]),
        "/w".to_string(),
    );
    let created = ctx.CreatedAt.clone();
    ctx.update_content(
        object(vec![
            ("settings", object(vec![("size", num("14"))])),
            ("tags", JsonValue::Array(vec![])),
        ]),
        UpdateMode::PatchUpdate,
    );
    let settings = lookup(&ctx.Content, "settings").unwrap();
    assert_eq!(lookup(settings, "theme"), Some(&JsonValue::Text("dark".to_string())));
    assert_eq!(lookup(settings, "size"), Some(&num("14")));
    assert_eq!(lookup(&ctx.Content, "owner"), Some(&JsonValue::Text("ana".to_string())));
    assert_eq!(lookup(&ctx.Content, "tags"), Some(&JsonValue::Array(vec![])));
    assert_eq!(ctx.CreatedAt, created);
}

#[test]
fn patch_that_is_not_an_object_replaces() {
    let mut ctx = Context::new(
        "id".to_string(),
        "n".to_string(),
        object(vec![("a", num("1"))]),
        "/w".to_string(),
    );
    ctx.update_content(JsonValue::Bool(true), UpdateMode::PatchUpdate);
    assert_eq!(ctx.Content, JsonValue::Bool(true));
    ctx.update_content(object(vec![("x", JsonValue::Null)]), UpdateMode::PatchUpdate);
    assert_eq!(ctx.Content, object(vec![("x", JsonValue::Null)]));
}

#[test]
fn context_update_patches_top_level_members() {
    let current = object(vec![
        ("goal", JsonValue::Text("ship".to_string())),
        ("team", object(vec![("size", num("3")), ("lead", JsonValue::Text("ana".to_string()))])),
    ]);
    let patched = updated_content(
        current,
        UpdateContextRequest {
            workspace_id: None,
            Content: Some(JsonValue::Null),
            PatchContent: Some(object(vec![("team", object(vec![("size", num("4"))])), ("risk", JsonValue::Bool(false))])),
        },
    );
    assert_eq!(
        patched,
        object(vec![
            ("goal", JsonValue::Text("ship".to_string())),
            ("team", object(vec![("size", num("4"))])),
            ("risk", JsonValue::Bool(false)),
        ])
    );
    let replaced = updated_content(
        JsonValue::Null,
        UpdateContextRequest { workspace_id: None, Content: Some(num("7")), PatchContent: None },
    );
    assert_eq!(replaced, num("7"));
    let kept = updated_content(num("1"), UpdateContextRequest { workspace_id: None, Content: None, PatchContent: None });
    assert_eq!(kept, num("1"));
    let not_object = updated_content(
        JsonValue::Text("x".to_string()),
        UpdateContextRequest { workspace_id: None, Content: None, PatchContent: Some(object(vec![("a", num("1"))])) },
    );
    assert_eq!(not_object, JsonValue::Text("x".to_string()));
}

#[test]
fn context_tables_by_id_and_history_tables() {
    assert_eq!(context_table(1), Some("ProductContext"));
    assert_eq!(context_table(2), Some("ActiveContext"));
    assert_eq!(context_table(3), None);
    match context_not_found(-4) {
        Kind::NotFound(m) => assert_eq!(m, "Context -4 not found"),
        _ => panic!("a missing context is not found"),
    }
    assert_eq!(history_table("product_context"), Ok("ProductContextHistory"));
    assert_eq!(history_table("active_context"), Ok("ActiveContextHistory"));
    assert_eq!(history_table("decision"), Err("Invalid item_type".to_string()));
}
