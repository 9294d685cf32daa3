use std::path::PathBuf;

use conport::args::progress::UpdateProgressArgs;
use conport::config::cli::{LogLevel as CliLevel, ServerMode};
use conport::config::database_path::database_path;
use conport::config::environment::LogLevel as EnvLevel;
use conport::args::context::JsonValue;
use conport::handlers::batch_tools::batch_tools;
use conport::handlers::search_tools::search_tools;
use conport::handlers::history::{sort_newest_first, RecentActivityItem};
use conport::persistence::statements::progress_update_statement;
use conport::persistence::workspace::Manager;
use conport::query::filter::{BuildTagFilterSqlJsonEach, SqlParam};
use conport::query::normalize::strip_column_prefixes;

fn shown(p: &SqlParam) -> String {
    match p {
        SqlParam::Text(s) => format!("T:{}", s),
        SqlParam::Integer(i) => format!("I:{}", i),
        SqlParam::Null => "N".to_string(),
    }
}

#[test]
fn json_each_include_all_counts_matching_values() {
    let tags = vec!["a".to_string(), "b".to_string()];
    let all = BuildTagFilterSqlJsonEach(&tags, true, "Tags").ok().unwrap();
    assert_eq!(
        all.where_clause,
        "EXISTS (SELECT 1 FROM json_each(Tags) AS je WHERE value IN (?, ?) HAVING COUNT(DISTINCT value) = 2)"
    );
    assert_eq!(all.params.iter().map(shown).collect::<Vec<_>>(), vec!["T:a", "T:b"]);
    let any = BuildTagFilterSqlJsonEach(&tags, false, "Tags").ok().unwrap();
    assert_eq!(any.where_clause, "EXISTS (SELECT 1 FROM json_each(Tags) AS je WHERE value = ? OR value = ? LIMIT 1)");
}

fn activity(id: &str, ts: &str) -> RecentActivityItem {
    RecentActivityItem { ItemType: "decision".to_string(), Id: id.to_string(), Timestamp: ts.to_string(), Summary: String::new() }
}

#[test]
fn items_of_one_time_keep_their_order() {
    let items = vec![activity("x", "2024-01-01"), activity("y", "2024-05-01"), activity("z", "2024-01-01")];
    let ids: Vec<String> = sort_newest_first(items).into_iter().map(|a| a.Id).collect();
    assert_eq!(ids, vec!["y", "x", "z"]);
}

#[test]
fn new_connection_has_the_workspace_path() {
    let mut m = Manager::New();
    let c = m.GetConnection("w1").unwrap();
    assert_eq!(c.DatabasePath, m.GetWorkspacePath("w1"));
}

#[test]
fn database_path_choices() {
    assert_eq!(database_path(Some("/x/db.sqlite".to_string()), None, &None, None), PathBuf::from("/x/db.sqlite"));
    assert_eq!(
        database_path(None, Some("/base".to_string()), &Some("/ws".to_string()), None),
        PathBuf::from("/base/context_portal/context.db")
    );
    assert_eq!(
        database_path(None, None, &Some("/ws".to_string()), Some("my.db".to_string())),
        PathBuf::from("/ws/context_portal/my.db")
    );
    assert!(database_path(None, None, &None, None).ends_with("context_portal/context.db"));
}

#[test]
fn batch_tools_names_and_schemas() {
    let tools = batch_tools();
    let names: Vec<&str> = tools.iter().map(|t| t.Name.as_str()).collect();
    assert_eq!(names, vec!["batch_log_items", "batch_log_items_to_database", "batch_delete"]);
    assert_eq!(tools[2].Description, "Delete multiple ConPort items in a single request");
}

#[test]
fn progress_update_statement_fields() {
    let mut a = UpdateProgressArgs {
        workspace_id: "ws".to_string(),
        progress_id: 7,
        status: None,
        description: None,
        parent_id: None,
    };
    assert!(progress_update_statement("ws", &a, "t").is_none());
    a.status = Some("DONE".to_string());
    a.parent_id = Some(3);
    let s = progress_update_statement("ws", &a, "t").unwrap();
    assert_eq!(s.Sql, "UPDATE ProgressEntries SET Status = ?, ParentId = ?, UpdatedAt = ? WHERE Id = ? AND WorkspaceId = ?");
    assert_eq!(s.Params.iter().map(shown).collect::<Vec<_>>(), vec!["T:DONE", "I:3", "T:t", "I:7", "T:ws"]);
}

#[test]
fn words_name_levels_and_modes() {
    assert!(matches!(EnvLevel::from_word("warning"), EnvLevel::Warn));
    assert!(matches!(EnvLevel::from_word("loud"), EnvLevel::Info));
    assert!(matches!(CliLevel::from_word("debug", "DEBUG"), Ok(CliLevel::Debug)));
    assert_eq!(CliLevel::from_word("loud", "Loud").err().unwrap(), "Invalid log level: Loud");
    assert!(matches!(ServerMode::from_word("http", "HTTP"), Ok(ServerMode::Http)));
    assert_eq!(ServerMode::from_word("ftp", "FTP").err().unwrap(), "Invalid server mode: FTP");
}

#[test]
fn unknown_column_prefixes_are_stripped() {
    let caps = vec![
        ("title:x".to_string(), "title".to_string(), "x".to_string()),
        ("summary:y".to_string(), "summary".to_string(), "y".to_string()),
    ];
    let allowed = vec!["summary".to_string()];
    assert_eq!(strip_column_prefixes("title:x summary:y", &caps, &allowed), "x summary:y");
}

fn member<'a>(v: &'a JsonValue, key: &str) -> &'a JsonValue {
    match v {
        JsonValue::Object(es) => &es.iter().find(|(k, _)| k == key).unwrap().1,
        _ => panic!("not an object"),
    }
}

#[test]
fn search_tools_names_and_schemas() {
    let tools = search_tools();
    let names: Vec<&str> = tools.iter().map(|t| t.Name.as_str()).collect();
    assert_eq!(names, vec!["search_decisions", "search_context", "semantic_search"]);
    assert_eq!(tools[2].Description, "Full-featured semantic search with filters");
    let limit = member(member(&tools[0].InputSchema, "properties"), "limit");
    assert!(matches!(member(limit, "maximum"), JsonValue::Number(n) if n == "100"));
    match member(&tools[2].InputSchema, "required") {
        JsonValue::Array(xs) => {
            let req: Vec<String> = xs
                .iter()
                .map(|x| match x {
                    JsonValue::Text(t) => t.clone(),
                    _ => String::new(),
                })
                .collect();
            assert_eq!(req, vec!["query".to_string(), "workspace_id".to_string()]);
        },
        _ => panic!("required is not an array"),
    }
    match member(&tools[0].InputSchema, "required") {
        JsonValue::Array(xs) => assert_eq!(xs.len(), 1),
        _ => panic!("required is not an array"),
    }
}
