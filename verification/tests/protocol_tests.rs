use conport::args::context::{GetContextArgs, UpdateMode};
use conport::detector::{DetectAction, Detector};
use conport::embedding::{Generate, ModelConfig, DEFAULT_DIMENSION, DEFAULT_MODEL_NAME};
use conport::error::kind::Kind;
use conport::handlers::context::ContextQueryArgs;
use conport::persistence::migration::{Execute, VersionQuery};
use conport::persistence::operations::{RecentContextLink, RecentDecision, RecentProgress};
use conport::protocol::request::{Method, RequestData, RequestId};
use conport::protocol::response::{Error, ErrorCode, Response};
use conport::server::{Route, ServerConfig, Stdio};
use conport::server::{mcp_action, tool_called_text, unknown_method_text, McpAction};

#[test]
fn error_codes_and_messages() {
    assert_eq!(ErrorCode::ParseError.Code(), -32700);
    assert_eq!(ErrorCode::InvalidParams.Code(), -32602);
    assert_eq!(ErrorCode::DatabaseError.Code(), -32000);
    assert_eq!(ErrorCode::InvalidInput.Code(), -32003);
    assert_eq!(ErrorCode::MethodNotFound.Message(), "Method not found");
    let e = Error::MethodNotFound("frobnicate");
    assert_eq!(e.code, -32601);
    assert_eq!(e.message, "Method not found: frobnicate");
    assert!(e.data.is_none());
    let e = Error::NotFound("Decision 3");
    assert_eq!(e.code, -32001);
    assert_eq!(e.message, "Not found: Decision 3");
    let e = Error::New(ErrorCode::Unauthorized);
    assert_eq!(e.message, "Unauthorized");
}

#[test]
fn request_ids_and_methods_are_written() {
    assert_eq!(RequestId::Number(-12).to_string(), "-12");
    assert_eq!(RequestId::String("abc".to_string()).to_string(), "abc");
    assert_eq!(RequestId::default(), RequestId::Number(0));
    assert_eq!(Method::ContextList.to_string(), "context/list");
    assert_eq!(Method::CustomDataSet.to_string(), "custom_data/set");
    assert_eq!(Method::Ping.to_string(), "ping");
    let r = RequestData::New(Method::Tools);
    assert_eq!(r.method, Method::Tools);
    assert!(r.params.is_none());
}

#[test]
fn stdio_reads_routes_and_answers() {
    assert_eq!(Stdio::RequestText("   \t\n"), None);
    assert_eq!(Stdio::RequestText("  {\"id\":1}\r\n"), Some("{\"id\":1}".to_string()));
    assert_eq!(Stdio::Route(Method::Ping), Route::Pong);
    assert_eq!(Stdio::Route(Method::Shutdown), Route::Shutdown);
    assert_eq!(Stdio::Route(Method::DecisionGet), Route::Dispatch);
    let ok = Stdio::Respond(RequestId::Number(5), Ok(serde_json::Value::Bool(true)));
    match ok {
        Response::JsonRpc { id, result } => {
            assert_eq!(id, RequestId::Number(5));
            assert_eq!(result.result, Some(serde_json::Value::Bool(true)));
            assert!(result.error.is_none());
        },
    }
    let err = Stdio::Respond(RequestId::Number(6), Err(Error::InternalError("boom")));
    match err {
        Response::JsonRpc { result, .. } => {
            assert!(result.result.is_none());
            assert_eq!(result.error.unwrap().code, -32603);
        },
    }
}

#[test]
fn server_config_defaults() {
    let c = ServerConfig::default();
    assert_eq!(c.Host, "127.0.0.1");
    assert_eq!(c.Port, 3000);
    assert!(c.StdioMode);
    assert_eq!(c.MaxConnections, 10);
    assert_eq!(c.DatabasePath, std::path::PathBuf::from("context.db"));
}

#[test]
fn schema_version_from_query_outcomes() {
    assert_eq!(Execute::VersionFrom(VersionQuery::Row(Some(3))).ok(), Some(3));
    assert_eq!(Execute::VersionFrom(VersionQuery::Row(None)).ok(), Some(0));
    assert_eq!(Execute::VersionFrom(VersionQuery::NoRows).ok(), Some(0));
    match Execute::VersionFrom(VersionQuery::Failed("locked".to_string())) {
        Err(Kind::Database(m)) => assert_eq!(m, "locked"),
        _ => panic!("a failed query is a database error"),
    }
    assert!(Execute::NeedsMigrationV1(Ok(0)));
    assert!(!Execute::NeedsMigrationV1(Ok(1)));
    assert!(Execute::NeedsMigrationV1(Err(Kind::Database("x".to_string()))));
    assert!(Execute::MigrateOnEnsure(0));
    assert!(!Execute::MigrateOnEnsure(2));
}

#[test]
fn recent_rows_write_numbers_in_decimal() {
    let p = RecentProgress::from_row(
        42,
        "ws".to_string(),
        "t".to_string(),
        "DONE".to_string(),
        "d".to_string(),
        Some(-7),
        "c".to_string(),
        "u".to_string(),
    );
    assert_eq!(p.Id, "42");
    assert_eq!(p.ParentId, Some("-7".to_string()));
    let d = RecentDecision::from_row(
        9,
        "ws".to_string(),
        "t".to_string(),
        "s".to_string(),
        None,
        None,
        None,
        "c".to_string(),
    );
    assert_eq!(d.Id, "9");
    let l = RecentContextLink::from_row(
        1,
        "ws".to_string(),
        "t".to_string(),
        "decision".to_string(),
        "a".to_string(),
        "decision".to_string(),
        "b".to_string(),
        "relates_to".to_string(),
        None,
    );
    assert_eq!(l.Id, "1");
}

#[test]
fn embedding_configuration() {
    assert_eq!(Generate::Dimension(), 384);
    let c = ModelConfig::default();
    assert_eq!(c.Dimension, DEFAULT_DIMENSION);
    assert_eq!(c.ModelName, DEFAULT_MODEL_NAME);
    assert_eq!(c.Device, "cpu");
    assert!(c.ModelPath.is_none());
}

#[test]
fn workspace_detection_steps() {
    assert_eq!(
        Detector::Indicators(),
        vec![".git", ".vscode", "package.json", "Cargo.toml", "pyproject.toml", "go.mod", "requirements.txt"]
    );
    assert_eq!(Detector::OnDirectory(true), DetectAction::UseStart);
    assert_eq!(Detector::OnDirectory(false), DetectAction::CheckIndicators);
    assert_eq!(Detector::AfterCheck(true, true), DetectAction::UseDirectory);
    assert_eq!(Detector::AfterCheck(false, true), DetectAction::Ascend);
    assert_eq!(Detector::AfterCheck(false, false), DetectAction::UseStart);
}

#[test]
fn context_arguments() {
    assert_eq!(UpdateMode::default(), UpdateMode::FullUpdate);
    let a = GetContextArgs { workspace_id: "ws".to_string(), context_id: None };
    assert!(a.context_id.is_none());
    let q = ContextQueryArgs { workspace_id: "ws".to_string() };
    assert_eq!(q.workspace_id, "ws");
}

#[test]
fn mcp_methods_are_dispatched_by_name() {
    assert_eq!(mcp_action("initialize"), McpAction::Initialize);
    assert_eq!(mcp_action("tools/list"), McpAction::ListTools);
    assert_eq!(mcp_action("ping"), McpAction::Pong);
    assert_eq!(mcp_action("tools/call"), McpAction::CallTool);
    assert_eq!(mcp_action("resources/list"), McpAction::ListResources);
    assert_eq!(mcp_action("prompts/list"), McpAction::ListPrompts);
    assert_eq!(mcp_action("tools"), McpAction::Unknown);
    assert_eq!(tool_called_text("log_decision"), "Tool 'log_decision' called");
    assert_eq!(unknown_method_text("x/y"), "Unknown method: x/y");
}
