//! Error contexts (where and when an error happened) and the error responses
//! that carry them.

use vstd::prelude::*;
use vstd::string::StringExecFns;

use crate::clock::{now_rfc3339, utc_rfc3339_text};
use crate::error::kind::Kind;

verus! {

/// Error context with workspace_id and operation details
#[derive(Debug, Clone)]
pub struct ErrorContext {
    /// The workspace ID where the error occurred
    pub workspace_id: Option<String>,
    /// The operation that was being performed
    pub operation: String,
    /// Additional context details
    pub details: Option<String>,
    /// Timestamp when the error occurred (ISO 8601)
    pub timestamp: String,
}

impl ErrorContext {
    /// A context for an operation, with no workspace or details, stamped now.
    pub fn new(operation: &str) -> (r: Self)
        ensures
            r.operation@ == operation@,
            r.workspace_id is None,
            r.details is None,
            utc_rfc3339_text(r.timestamp@),
    {
        ErrorContext {
            workspace_id: None,
            operation: String::from_str(operation),
            details: None,
            timestamp: now_rfc3339(),
        }
    }

    /// The context with its workspace set.
    pub fn with_workspace(self, workspace_id: &str) -> (r: Self)
        ensures
            r.workspace_id matches Some(w) && w@ == workspace_id@,
            r.operation == self.operation,
            r.details == self.details,
            r.timestamp == self.timestamp,
    {
        ErrorContext { workspace_id: Some(String::from_str(workspace_id)), ..self }
    }

    /// The context with its details set.
    pub fn with_details(self, details: &str) -> (r: Self)
        ensures
            r.details matches Some(d) && d@ == details@,
            r.operation == self.operation,
            r.workspace_id == self.workspace_id,
            r.timestamp == self.timestamp,
    {
        ErrorContext { details: Some(String::from_str(details)), ..self }
    }

    /// A context for an operation that is going on now.
    pub fn from_current(operation: &str) -> (r: Self)
        ensures
            r.operation@ == operation@,
            r.workspace_id is None,
            r.details is None,
    {
        Self::new(operation)
    }
}

/// HTTP error response structure
#[derive(Debug, Clone)]
pub struct ErrorResponse {
    /// Error code for programmatic handling
    pub error_code: String,
    /// Human-readable error message
    pub message: String,
    /// Error context
    pub context: Option<ErrorContext>,
    /// Inner error details (for debugging)
    pub inner: Option<String>,
}

impl ErrorResponse {
    /// A response with a code and a message, no context and no inner detail.
    pub fn new(error_code: &str, message: &str) -> (r: Self)
        ensures
            r.error_code@ == error_code@,
            r.message@ == message@,
            r.context is None,
            r.inner is None,
    {
        ErrorResponse {
            error_code: String::from_str(error_code),
            message: String::from_str(message),
            context: None,
            inner: None,
        }
    }

    /// The response with its context set.
    pub fn with_context(self, context: ErrorContext) -> (r: Self)
        ensures
            r.context == Some(context),
            r.error_code == self.error_code,
            r.message == self.message,
            r.inner == self.inner,
    {
        ErrorResponse { context: Some(context), ..self }
    }

    /// The response with its inner detail set.
    pub fn with_inner(self, inner: &str) -> (r: Self)
        ensures
            r.inner matches Some(i) && i@ == inner@,
            r.error_code == self.error_code,
            r.message == self.message,
            r.context == self.context,
    {
        ErrorResponse { inner: Some(String::from_str(inner)), ..self }
    }
}

impl Kind {
    /// The code by which a program tells the kinds apart.
    pub open spec fn code(&self) -> Seq<char> {
        match self {
            Kind::Database(_) => "DATABASE_ERROR"@,
            Kind::Configuration(_) => "CONFIGURATION_ERROR"@,
            Kind::WorkspaceDetection(_) => "WORKSPACE_DETECTION_ERROR"@,
            Kind::VectorStore(_) => "VECTOR_STORE_ERROR"@,
            Kind::Http(_) => "HTTP_ERROR"@,
            Kind::Embedding(_) => "EMBEDDING_ERROR"@,
            Kind::Serialization(_) => "SERIALIZATION_ERROR"@,
            Kind::NotFound(_) => "NOT_FOUND"@,
            Kind::InvalidInput(_) => "INVALID_INPUT"@,
        }
    }

    /// Convert Error/Kind to error code string
    pub fn to_error_code(&self) -> (r: String)
        ensures
            r@ == self.code(),
    {
        let code = match self {
            Kind::Database(_) => "DATABASE_ERROR",
            Kind::Configuration(_) => "CONFIGURATION_ERROR",
            Kind::WorkspaceDetection(_) => "WORKSPACE_DETECTION_ERROR",
            Kind::VectorStore(_) => "VECTOR_STORE_ERROR",
            Kind::Http(_) => "HTTP_ERROR",
            Kind::Embedding(_) => "EMBEDDING_ERROR",
            Kind::Serialization(_) => "SERIALIZATION_ERROR",
            Kind::NotFound(_) => "NOT_FOUND",
            Kind::InvalidInput(_) => "INVALID_INPUT",
        };
        String::from_str(code)
    }

    /// Convert Error/Kind to ErrorResponse
    pub fn to_error_response(&self) -> (r: ErrorResponse)
        ensures
            r.error_code@ == self.code(),
            r.message@ == self.label() + self.detail(),
            r.context is None,
            r.inner is None,
    {
        let code = self.to_error_code();
        let message = self.to_string();
        ErrorResponse::new(code.as_str(), message.as_str())
    }

    /// Convert Error/Kind to ErrorResponse with context
    pub fn to_error_response_with_context(&self, context: ErrorContext) -> (r: ErrorResponse)
        ensures
            r.error_code@ == self.code(),
            r.message@ == self.label() + self.detail(),
            r.context == Some(context),
            r.inner is None,
    {
        self.to_error_response().with_context(context)
    }
}

/// Extension of results with context-aware error handling. The context is
/// taken for the record only: the result is handed back as it is.
pub trait ResultExt<T, E>: Sized {
    /// Add workspace context to error
    fn with_workspace_context(self, workspace_id: &str, operation: &str) -> Result<T, E>;

    /// Map error to include context
    fn with_error_context<F: FnOnce(&E) -> String>(self, operation: &str, f: F) -> Result<T, E>;
}

impl<T, E> ResultExt<T, E> for Result<T, E> {
    fn with_workspace_context(self, workspace_id: &str, operation: &str) -> (r: Result<T, E>)
        ensures
            r == self,
    {
        self
    }

    fn with_error_context<F: FnOnce(&E) -> String>(self, operation: &str, f: F) -> (r: Result<T, E>)
        ensures
            r == self,
    {
        self
    }
}

/// Create error context from workspace ID and operation
pub fn create_error_context(workspace_id: Option<&str>, operation: &str) -> (r: ErrorContext)
    ensures
        r.operation@ == operation@,
        r.details is None,
        match workspace_id {
            Some(id) => r.workspace_id matches Some(w) && w@ == id@,
            None => r.workspace_id is None,
        },
{
    let ctx = ErrorContext::new(operation);
    match workspace_id {
        Some(id) => ctx.with_workspace(id),
        None => ctx,
    }
}

/// The response to an error whose message is `message`: an internal error.
pub fn to_error_response(message: &str) -> (r: ErrorResponse)
    ensures
        r.error_code@ == "INTERNAL_ERROR"@,
        r.message@ == message@,
        r.context is None,
        r.inner is None,
{
    ErrorResponse::new("INTERNAL_ERROR", message)
}

/// The response to an error whose message is `message`, with the context of
/// the workspace and operation where it happened.
pub fn to_error_response_with_context(message: &str, workspace_id: Option<&str>, operation: &str) -> (r:
    ErrorResponse)
    ensures
        r.error_code@ == "INTERNAL_ERROR"@,
        r.message@ == message@,
        r.inner is None,
        r.context matches Some(c) && c.operation@ == operation@ && c.details is None && match workspace_id {
            Some(id) => c.workspace_id matches Some(w) && w@ == id@,
            None => c.workspace_id is None,
        },
{
    let ctx = create_error_context(workspace_id, operation);
    ErrorResponse::new("INTERNAL_ERROR", message).with_context(ctx)
}

} // verus!
