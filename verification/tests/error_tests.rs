use conport::error::context::{
    create_error_context, to_error_response, to_error_response_with_context, ErrorContext, ErrorResponse,
    ResultExt,
};
use conport::error::kind::Kind;
use conport::error::status;

#[test]
fn test_error_context_creation() {
    let ctx = ErrorContext::new("test_operation");
    assert_eq!(ctx.operation, "test_operation");
    assert!(ctx.workspace_id.is_none());
}

#[test]
fn test_error_context_with_workspace() {
    let ctx = ErrorContext::new("test_operation").with_workspace("workspace_123").with_details("additional info");

    assert_eq!(ctx.workspace_id, Some("workspace_123".to_string()));
    assert_eq!(ctx.details, Some("additional info".to_string()));
}

#[test]
fn test_error_kind_to_code() {
    let err = Kind::Database("connection failed".to_string());
    assert_eq!(err.to_error_code(), "DATABASE_ERROR");

    let err = Kind::NotFound("item not found".to_string());
    assert_eq!(err.to_error_code(), "NOT_FOUND");
}

#[test]
fn test_error_response_creation() {
    let resp = ErrorResponse::new("TEST_ERROR", "Test message");
    assert_eq!(resp.error_code, "TEST_ERROR");
    assert_eq!(resp.message, "Test message");
}

#[test]
fn kind_response_carries_code_and_message() {
    let err = Kind::InvalidInput("bad id".to_string());
    let resp = err.to_error_response();
    assert_eq!(resp.error_code, "INVALID_INPUT");
    assert_eq!(resp.message, "Invalid input: bad id");
    assert!(resp.context.is_none());
    let with = Kind::Http("gone".to_string()).to_error_response_with_context(ErrorContext::new("op"));
    assert_eq!(with.error_code, "HTTP_ERROR");
    assert_eq!(with.context.unwrap().operation, "op");
}

#[test]
fn free_error_responses_are_internal() {
    let r = to_error_response("boom");
    assert_eq!(r.error_code, "INTERNAL_ERROR");
    assert_eq!(r.message, "boom");
    let c = to_error_response_with_context("boom", Some("ws"), "save");
    let ctx = c.context.unwrap();
    assert_eq!(ctx.workspace_id, Some("ws".to_string()));
    assert_eq!(ctx.operation, "save");
    let e = create_error_context(None, "read");
    assert!(e.workspace_id.is_none());
    assert_eq!(e.operation, "read");
}

#[test]
fn response_builders_keep_other_fields() {
    let r = ErrorResponse::new("A", "b").with_inner("trace");
    assert_eq!(r.inner, Some("trace".to_string()));
    assert_eq!(r.error_code, "A");
    let ctx = ErrorContext::from_current("x");
    assert!(ctx.details.is_none());
}

#[test]
fn result_ext_hands_back_the_result() {
    let ok: Result<i32, String> = Ok(3);
    assert_eq!(ok.with_workspace_context("ws", "op"), Ok(3));
    let err: Result<i32, String> = Err("e".to_string());
    assert_eq!(err.with_error_context("op", |e: &String| e.clone()), Err("e".to_string()));
}

#[test]
fn kind_messages_and_status_codes() {
    assert_eq!(Kind::Configuration("x".to_string()).to_string(), "Configuration error: x");
    let t = status::Kind::Transport("down".to_string());
    assert_eq!(t.status_code(), 503);
    assert_eq!(t.to_string(), "Transport error: down");
    assert_eq!(t.detail_text(), "down");
    assert_eq!(status::Kind::NotFound("n".to_string()).status_code(), 404);
    assert_eq!(status::Kind::Configuration("c".to_string()).status_code(), 502);
    assert_eq!(status::Kind::InvalidItemType("i".to_string()).status_code(), 400);
    assert_eq!(status::Kind::DatabaseError("d".to_string()).status_code(), 500);
}
