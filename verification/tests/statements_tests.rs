use conport::args::decision::UpdateDecisionArgs;
use conport::args::history::GetItemHistoryArgs;
use conport::persistence::statements::{
    custom_data_search_statement, decision_search_statement, decision_update_statement, history_statement,
    linked_items_statement,
};
use conport::query::filter::SqlParam;
use conport::types::context_link::GetLinkedItemsArgs;

fn shown(p: &SqlParam) -> String {
    match p {
        SqlParam::Text(s) => format!("T:{}", s),
        SqlParam::Integer(i) => format!("I:{}", i),
        SqlParam::Null => "N".to_string(),
    }
}

fn all_shown(ps: &[SqlParam]) -> Vec<String> {
    ps.iter().map(shown).collect()
}

fn history_args(item_type: &str) -> GetItemHistoryArgs {
    GetItemHistoryArgs {
        workspace_id: "ws".to_string(),
        item_type: item_type.to_string(),
        limit: None,
        before_timestamp: None,
        after_timestamp: None,
        version: None,
    }
}

#[test]
fn history_statement_plain() {
    let s = history_statement("ws", &history_args("product_context")).ok().unwrap();
    assert_eq!(
        s.Sql,
        "SELECT Id, WorkspaceId, Timestamp, Version, Content, ChangeSource FROM ProductContextHistory WHERE WorkspaceId = ?1 ORDER BY Version DESC"
    );
    assert_eq!(all_shown(&s.Params), vec!["T:ws"]);
}

#[test]
fn history_statement_with_every_filter() {
    let mut a = history_args("active_context");
    a.version = Some(3);
    a.before_timestamp = Some("2025-02-01".to_string());
    a.after_timestamp = Some("2025-01-01".to_string());
    a.limit = Some(-7);
    let s = history_statement("ws", &a).ok().unwrap();
    assert_eq!(
        s.Sql,
        "SELECT Id, WorkspaceId, Timestamp, Version, Content, ChangeSource FROM ActiveContextHistory WHERE WorkspaceId = ?1 AND Version = ? AND Timestamp < ? AND Timestamp > ? ORDER BY Version DESC LIMIT -7"
    );
    assert_eq!(all_shown(&s.Params), vec!["T:ws", "I:3", "T:2025-02-01", "T:2025-01-01"]);
}

#[test]
fn history_statement_refuses_other_items() {
    let e = history_statement("ws", &history_args("decision")).err().unwrap();
    assert_eq!(e, "Invalid item_type");
}

#[test]
fn linked_items_statement_filters() {
    let mut a = GetLinkedItemsArgs {
        workspace_id: "ws".to_string(),
        item_type: "decision".to_string(),
        item_id: "12".to_string(),
        relationship_type_filter: None,
        linked_item_type_filter: None,
        limit: None,
    };
    let plain = linked_items_statement("ws", &a);
    assert!(plain.Sql.ends_with("OR TargetItemType = ?2 AND TargetItemId = ?3) ORDER BY Timestamp DESC"));
    assert_eq!(all_shown(&plain.Params), vec!["T:ws", "T:decision", "T:12"]);
    a.relationship_type_filter = Some("implements".to_string());
    a.linked_item_type_filter = Some("progress_entry".to_string());
    a.limit = Some(5);
    let s = linked_items_statement("ws", &a);
    assert!(s.Sql.ends_with(
        " AND RelationshipType = ? AND (SourceItemType = ? OR TargetItemType = ?) ORDER BY Timestamp DESC LIMIT 5"
    ));
    assert_eq!(
        all_shown(&s.Params),
        vec!["T:ws", "T:decision", "T:12", "T:implements", "T:progress_entry", "T:progress_entry"]
    );
}

#[test]
fn decision_update_statement_fields() {
    let mut a = UpdateDecisionArgs {
        workspace_id: "ws".to_string(),
        decision_id: 9,
        summary: None,
        rationale: None,
        implementation_details: None,
        tags: None,
    };
    assert!(decision_update_statement("ws", &a).is_none());
    a.rationale = Some("because".to_string());
    a.tags = Some(vec!["a".to_string(), "b".to_string()]);
    let s = decision_update_statement("ws", &a).unwrap();
    assert_eq!(s.Sql, "UPDATE decisions SET Rationale = ?, Tags = ? WHERE Id = ? AND WorkspaceId = ?");
    assert_eq!(all_shown(&s.Params), vec!["T:because", "T:[\"a\",\"b\"]", "I:9", "T:ws"]);
}

#[test]
fn search_statements_quote_the_phrase() {
    let s = decision_search_statement("ws", "say \"hi\"", 10);
    assert!(s.Sql.contains("decisions_fts MATCH ?2"));
    assert_eq!(all_shown(&s.Params), vec!["T:ws", "T:\"say \"\"hi\"\"\"", "I:10"]);
    let c = custom_data_search_statement("ws", "x", Some("notes"), 3);
    assert!(c.Sql.contains("c.Category = ?2"));
    assert_eq!(all_shown(&c.Params), vec!["T:ws", "T:notes", "T:\"x\"", "I:3"]);
    let n = custom_data_search_statement("ws", "x", None, 3);
    assert!(!n.Sql.contains("c.Category = "));
    assert_eq!(all_shown(&n.Params), vec!["T:ws", "T:\"x\"", "I:3"]);
}
