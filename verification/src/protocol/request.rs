//! Requests of the JSON-RPC protocol that the server speaks.

use vstd::prelude::*;
use vstd::string::StringExecFns;

use crate::text::{decimal_int, push_decimal_i64};

verus! {

/// The id of a request: a number or a string.
#[derive(Debug, Clone, PartialEq, Eq)]
pub enum RequestId {
    Number(i64),
    String(String),
}

impl Default for RequestId {
    fn default() -> (r: Self)
        ensures
            r == RequestId::Number(0),
    {
        RequestId::Number(0)
    }
}

/// How an id is written: a number in decimal, a string as it is.
pub open spec fn id_text(id: RequestId) -> Seq<char> {
    match id {
        RequestId::Number(n) => decimal_int(n as int),
        RequestId::String(s) => s@,
    }
}

impl RequestId {
    /// The id as it is written.
    pub fn to_string(&self) -> (r: String)
        ensures
            r@ == id_text(*self),
    {
        match self {
            RequestId::Number(n) => {
                let mut s = String::new();
                push_decimal_i64(&mut s, *n);
                assert(s@ =~= decimal_int(*n as int));
                s
            },
            RequestId::String(s) => s.clone(),
        }
    }
}

/// The methods of the protocol.
#[derive(Debug, Clone, Copy, PartialEq, Eq, Structural)]
pub enum Method {
    ContextList,
    ContextGet,
    ContextCreate,
    ContextUpdate,
    ContextDelete,
    DecisionList,
    DecisionGet,
    DecisionCreate,
    DecisionUpdate,
    DecisionDelete,
    ProgressList,
    ProgressGet,
    ProgressCreate,
    ProgressUpdate,
    ProgressDelete,
    PatternList,
    PatternGet,
    PatternCreate,
    PatternUpdate,
    PatternDelete,
    CustomDataList,
    CustomDataGet,
    CustomDataSet,
    CustomDataDelete,
    SearchDecisions,
    SearchContext,
    Initialize,
    Shutdown,
    Tools,
    Resources,
    Ping,
}

/// The name of a method in the protocol.
pub open spec fn method_name(m: Method) -> Seq<char> {
    match m {
        Method::ContextList => "context/list"@,
        Method::ContextGet => "context/get"@,
        Method::ContextCreate => "context/create"@,
        Method::ContextUpdate => "context/update"@,
        Method::ContextDelete => "context/delete"@,
        Method::DecisionList => "decision/list"@,
        Method::DecisionGet => "decision/get"@,
        Method::DecisionCreate => "decision/create"@,
        Method::DecisionUpdate => "decision/update"@,
        Method::DecisionDelete => "decision/delete"@,
        Method::ProgressList => "progress/list"@,
        Method::ProgressGet => "progress/get"@,
        Method::ProgressCreate => "progress/create"@,
        Method::ProgressUpdate => "progress/update"@,
        Method::ProgressDelete => "progress/delete"@,
        Method::PatternList => "pattern/list"@,
        Method::PatternGet => "pattern/get"@,
        Method::PatternCreate => "pattern/create"@,
        Method::PatternUpdate => "pattern/update"@,
        Method::PatternDelete => "pattern/delete"@,
        Method::CustomDataList => "custom_data/list"@,
        Method::CustomDataGet => "custom_data/get"@,
        Method::CustomDataSet => "custom_data/set"@,
        Method::CustomDataDelete => "custom_data/delete"@,
        Method::SearchDecisions => "search/decisions"@,
        Method::SearchContext => "search/context"@,
        Method::Initialize => "initialize"@,
        Method::Shutdown => "shutdown"@,
        Method::Tools => "tools"@,
        Method::Resources => "resources"@,
        Method::Ping => "ping"@,
    }
}

impl Method {
    /// The name of the method.
    pub fn to_string(&self) -> (r: String)
        ensures
            r@ == method_name(*self),
    {
        let name = match self {
            Method::ContextList => "context/list",
            Method::ContextGet => "context/get",
            Method::ContextCreate => "context/create",
            Method::ContextUpdate => "context/update",
            Method::ContextDelete => "context/delete",
            Method::DecisionList => "decision/list",
            Method::DecisionGet => "decision/get",
            Method::DecisionCreate => "decision/create",
            Method::DecisionUpdate => "decision/update",
            Method::DecisionDelete => "decision/delete",
            Method::ProgressList => "progress/list",
            Method::ProgressGet => "progress/get",
            Method::ProgressCreate => "progress/create",
            Method::ProgressUpdate => "progress/update",
            Method::ProgressDelete => "progress/delete",
            Method::PatternList => "pattern/list",
            Method::PatternGet => "pattern/get",
            Method::PatternCreate => "pattern/create",
            Method::PatternUpdate => "pattern/update",
            Method::PatternDelete => "pattern/delete",
            Method::CustomDataList => "custom_data/list",
            Method::CustomDataGet => "custom_data/get",
            Method::CustomDataSet => "custom_data/set",
            Method::CustomDataDelete => "custom_data/delete",
            Method::SearchDecisions => "search/decisions",
            Method::SearchContext => "search/context",
            Method::Initialize => "initialize",
            Method::Shutdown => "shutdown",
            Method::Tools => "tools",
            Method::Resources => "resources",
            Method::Ping => "ping",
        };
        String::from_str(name)
    }
}

/// The body of a request.
#[derive(Debug, Clone)]
pub struct RequestData {
    pub id: RequestId,
    pub method: Method,
    pub params: Option<serde_json::Value>,
}

/// A request of JSON-RPC 2.0.
#[derive(Debug, Clone)]
pub enum Request {
    JsonRpc(RequestData),
}

impl Request {
    pub fn Id(&self) -> (r: &RequestId)
        ensures
            match self {
                Request::JsonRpc(data) => *r == data.id,
            },
    {
        match self {
            Request::JsonRpc(data) => &data.id,
        }
    }

    pub fn Method(&self) -> (r: &Method)
        ensures
            match self {
                Request::JsonRpc(data) => *r == data.method,
            },
    {
        match self {
            Request::JsonRpc(data) => &data.method,
        }
    }

    pub fn Params(&self) -> (r: Option<&serde_json::Value>)
        ensures
            match self {
                Request::JsonRpc(data) => match data.params {
                    Some(p) => r == Some(&p),
                    None => r is None,
                },
            },
    {
        match self {
            Request::JsonRpc(data) => match &data.params {
                Some(p) => Some(p),
                None => None,
            },
        }
    }
}

impl RequestData {
    pub fn New(Method: Method) -> (r: Self)
        ensures
            r.id == RequestId::Number(0),
            r.method == Method,
            r.params is None,
    {
        RequestData { id: RequestId::Number(0), method: Method, params: None }
    }

    pub fn WithId(Method: Method, Id: RequestId) -> (r: Self)
        ensures
            r.id == Id,
            r.method == Method,
            r.params is None,
    {
        RequestData { id: Id, method: Method, params: None }
    }

    pub fn WithParams(Method: Method, Params: serde_json::Value) -> (r: Self)
        ensures
            r.id == RequestId::Number(0),
            r.method == Method,
            r.params == Some(Params),
    {
        RequestData { id: RequestId::Number(0), method: Method, params: Some(Params) }
    }
}

} // verus!
