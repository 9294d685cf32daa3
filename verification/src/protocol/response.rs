//! Responses of the JSON-RPC protocol, and the error codes they carry.

use vstd::prelude::*;
use vstd::string::StringExecFns;

use crate::protocol::request::RequestId;

verus! {

/// The error codes of JSON-RPC, and the server's own.
#[derive(Debug, Clone, Copy, PartialEq, Eq, Structural)]
pub enum ErrorCode {
    ParseError,
    InvalidRequest,
    MethodNotFound,
    InvalidParams,
    InternalError,
    DatabaseError,
    NotFound,
    Unauthorized,
    InvalidInput,
}

/// The number of an error code.
pub open spec fn code_number(c: ErrorCode) -> int {
    match c {
        ErrorCode::ParseError => -32700,
        ErrorCode::InvalidRequest => -32600,
        ErrorCode::MethodNotFound => -32601,
        ErrorCode::InvalidParams => -32602,
        ErrorCode::InternalError => -32603,
        ErrorCode::DatabaseError => -32000,
        ErrorCode::NotFound => -32001,
        ErrorCode::Unauthorized => -32002,
        ErrorCode::InvalidInput => -32003,
    }
}

/// The standard message of an error code.
pub open spec fn code_message(c: ErrorCode) -> Seq<char> {
    match c {
        ErrorCode::ParseError => "Parse error"@,
        ErrorCode::InvalidRequest => "Invalid Request"@,
        ErrorCode::MethodNotFound => "Method not found"@,
        ErrorCode::InvalidParams => "Invalid params"@,
        ErrorCode::InternalError => "Internal error"@,
        ErrorCode::DatabaseError => "Database error"@,
        ErrorCode::NotFound => "Not found"@,
        ErrorCode::Unauthorized => "Unauthorized"@,
        ErrorCode::InvalidInput => "Invalid input"@,
    }
}

impl ErrorCode {
    pub fn Code(self) -> (r: i32)
        ensures
            r == code_number(self),
    {
        match self {
            ErrorCode::ParseError => -32700,
            ErrorCode::InvalidRequest => -32600,
            ErrorCode::MethodNotFound => -32601,
            ErrorCode::InvalidParams => -32602,
            ErrorCode::InternalError => -32603,
            ErrorCode::DatabaseError => -32000,
            ErrorCode::NotFound => -32001,
            ErrorCode::Unauthorized => -32002,
            ErrorCode::InvalidInput => -32003,
        }
    }

    pub fn Message(&self) -> (r: &'static str)
        ensures
            r@ == code_message(*self),
    {
        match self {
            ErrorCode::ParseError => "Parse error",
            ErrorCode::InvalidRequest => "Invalid Request",
            ErrorCode::MethodNotFound => "Method not found",
            ErrorCode::InvalidParams => "Invalid params",
            ErrorCode::InternalError => "Internal error",
            ErrorCode::DatabaseError => "Database error",
            ErrorCode::NotFound => "Not found",
            ErrorCode::Unauthorized => "Unauthorized",
            ErrorCode::InvalidInput => "Invalid input",
        }
    }
}

/// The error of a response.
#[derive(Debug, Clone)]
pub struct Error {
    pub code: i32,
    pub message: String,
    pub data: Option<serde_json::Value>,
}

impl Error {
    /// An error with the standard message of its code.
    pub fn New(Code: ErrorCode) -> (r: Self)
        ensures
            r.code == code_number(Code),
            r.message@ == code_message(Code),
            r.data is None,
    {
        Error { code: Code.Code(), message: String::from_str(Code.Message()), data: None }
    }

    pub fn WithMessage(Code: ErrorCode, Message: &str) -> (r: Self)
        ensures
            r.code == code_number(Code),
            r.message@ == Message@,
            r.data is None,
    {
        Error { code: Code.Code(), message: String::from_str(Message), data: None }
    }

    pub fn WithData(Code: ErrorCode, Message: &str, Data: serde_json::Value) -> (r: Self)
        ensures
            r.code == code_number(Code),
            r.message@ == Message@,
            r.data == Some(Data),
    {
        Error { code: Code.Code(), message: String::from_str(Message), data: Some(Data) }
    }

    pub fn ParseError(Message: &str) -> (r: Self)
        ensures
            r.code == code_number(ErrorCode::ParseError),
            r.message@ == Message@,
            r.data is None,
    {
        Self::WithMessage(ErrorCode::ParseError, Message)
    }

    pub fn InvalidRequest(Message: &str) -> (r: Self)
        ensures
            r.code == code_number(ErrorCode::InvalidRequest),
            r.message@ == Message@,
            r.data is None,
    {
        Self::WithMessage(ErrorCode::InvalidRequest, Message)
    }

    pub fn MethodNotFound(Method: &str) -> (r: Self)
        ensures
            r.code == code_number(ErrorCode::MethodNotFound),
            r.message@ == "Method not found: "@ + Method@,
            r.data is None,
    {
        let mut m = String::from_str("Method not found: ");
        m.append(Method);
        Self::WithMessage(ErrorCode::MethodNotFound, m.as_str())
    }

    pub fn InvalidParams(Message: &str) -> (r: Self)
        ensures
            r.code == code_number(ErrorCode::InvalidParams),
            r.message@ == Message@,
            r.data is None,
    {
        Self::WithMessage(ErrorCode::InvalidParams, Message)
    }

    pub fn InternalError(Message: &str) -> (r: Self)
        ensures
            r.code == code_number(ErrorCode::InternalError),
            r.message@ == Message@,
            r.data is None,
    {
        Self::WithMessage(ErrorCode::InternalError, Message)
    }

    pub fn DatabaseError(Message: &str) -> (r: Self)
        ensures
            r.code == code_number(ErrorCode::DatabaseError),
            r.message@ == Message@,
            r.data is None,
    {
        Self::WithMessage(ErrorCode::DatabaseError, Message)
    }

    pub fn NotFound(Resource: &str) -> (r: Self)
        ensures
            r.code == code_number(ErrorCode::NotFound),
            r.message@ == "Not found: "@ + Resource@,
            r.data is None,
    {
        let mut m = String::from_str("Not found: ");
        m.append(Resource);
        Self::WithMessage(ErrorCode::NotFound, m.as_str())
    }
}

/// The result or the error of a response.
#[derive(Debug, Clone)]
pub struct ResponseResult {
    pub result: Option<serde_json::Value>,
    pub error: Option<Error>,
}

impl ResponseResult {
    pub fn Success(Result: serde_json::Value) -> (r: Self)
        ensures
            r.result == Some(Result),
            r.error is None,
    {
        ResponseResult { result: Some(Result), error: None }
    }

    pub fn Error(Error: Error) -> (r: Self)
        ensures
            r.result is None,
            r.error == Some(Error),
    {
        ResponseResult { result: None, error: Some(Error) }
    }

    /// A result is a success when it carries no error.
    pub fn IsSuccess(&self) -> (r: bool)
        ensures
            r == self.error is None,
    {
        self.error.is_none()
    }
}

/// A response of JSON-RPC 2.0.
#[derive(Debug, Clone)]
pub enum Response {
    JsonRpc { id: RequestId, result: ResponseResult },
}

/// `r` answers request `id` with an error of `code` and `message`, and no
/// result.
pub open spec fn is_error_response(r: Response, id: RequestId, code: ErrorCode, message: Seq<char>) -> bool {
    match r {
        Response::JsonRpc { id: rid, result } => rid == id && result.result is None && match result.error {
            Some(e) => e.code == code_number(code) && e.message@ == message && e.data is None,
            None => false,
        },
    }
}

impl Response {
    pub fn Success(Id: RequestId, Result: serde_json::Value) -> (r: Self)
        ensures
            r == (Response::JsonRpc { id: Id, result: ResponseResult { result: Some(Result), error: None } }),
    {
        Response::JsonRpc { id: Id, result: ResponseResult::Success(Result) }
    }

    pub fn Error(Id: RequestId, Error: Error) -> (r: Self)
        ensures
            r == (Response::JsonRpc { id: Id, result: ResponseResult { result: None, error: Some(Error) } }),
    {
        Response::JsonRpc { id: Id, result: ResponseResult::Error(Error) }
    }

    pub fn ParseError(Id: RequestId, Message: &str) -> (r: Self)
        ensures
            is_error_response(r, Id, ErrorCode::ParseError, Message@),
    {
        Self::Error(Id, Error::ParseError(Message))
    }

    pub fn InvalidRequest(Id: RequestId, Message: &str) -> (r: Self)
        ensures
            is_error_response(r, Id, ErrorCode::InvalidRequest, Message@),
    {
        Self::Error(Id, Error::InvalidRequest(Message))
    }

    pub fn MethodNotFound(Id: RequestId, Method: &str) -> (r: Self)
        ensures
            is_error_response(r, Id, ErrorCode::MethodNotFound, "Method not found: "@ + Method@),
    {
        Self::Error(Id, Error::MethodNotFound(Method))
    }

    pub fn InvalidParams(Id: RequestId, Message: &str) -> (r: Self)
        ensures
            is_error_response(r, Id, ErrorCode::InvalidParams, Message@),
    {
        Self::Error(Id, Error::InvalidParams(Message))
    }

    pub fn InternalError(Id: RequestId, Message: &str) -> (r: Self)
        ensures
            is_error_response(r, Id, ErrorCode::InternalError, Message@),
    {
        Self::Error(Id, Error::InternalError(Message))
    }
}

} // verus!
