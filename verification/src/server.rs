//! The server's configuration, its lifespan, and how the stdio transport
//! answers a request.

use vstd::prelude::*;
use vstd::string::StringExecFns;

use crate::protocol::request::{Method, RequestId};
use crate::protocol::response::{Error, Response, ResponseResult};
use crate::text::trim;

verus! {

broadcast use vstd::string::group_string_axioms;

/// The path that `std::path::PathBuf::from` makes of a text.
pub uninterp spec fn path_of(s: Seq<char>) -> std::path::PathBuf;

/// Calls `std::path::PathBuf::from` on a text; the contract names the path.
#[verifier::external_body]
pub(crate) fn path_from(s: &str) -> (r: std::path::PathBuf)
    ensures
        r == path_of(s@),
{
    std::path::PathBuf::from(s)
}

/// Server configuration
pub struct ServerConfig {
    pub Host: String,
    pub Port: u16,
    pub StdioMode: bool,
    pub WorkspaceDetectionEnabled: bool,
    pub MaxConnections: usize,
    pub DatabasePath: std::path::PathBuf,
}

impl Default for ServerConfig {
    fn default() -> (r: Self)
        ensures
            r.Host@ == "127.0.0.1"@,
            r.Port == 3000,
            r.StdioMode,
            r.WorkspaceDetectionEnabled,
            r.MaxConnections == 10,
            r.DatabasePath == path_of("context.db"@),
    {
        ServerConfig {
            Host: String::from_str("127.0.0.1"),
            Port: 3000,
            StdioMode: true,
            WorkspaceDetectionEnabled: true,
            MaxConnections: 10,
            DatabasePath: path_from("context.db"),
        }
    }
}

/// Server lifespan handler for managing startup and shutdown
pub struct Lifespan;

impl Lifespan {
    /// Create a new lifespan handler
    pub fn New() -> (r: Self) {
        Lifespan
    }
}

/// What the stdio transport does with a request of a method.
#[derive(Debug, Clone, Copy, PartialEq, Eq, Structural)]
pub enum Route {
    /// Answer `{"pong": true}` at once.
    Pong,
    /// Answer `{"shutdown": true}` and stop.
    Shutdown,
    /// Hand the request to the handler.
    Dispatch,
}

/// The stdio transport: one JSON-RPC request per line in, one response per
/// line out.
pub struct Stdio;

impl Stdio {
    pub fn New() -> (r: Self) {
        Stdio
    }

    /// The text of a line that is read as a request: the trimmed line, none
    /// where it is blank.
    pub fn RequestText(line: &str) -> (r: Option<String>)
        ensures
            trim(line@).len() == 0 ==> r is None,
            trim(line@).len() > 0 ==> (r matches Some(t) && t@ == trim(line@)),
    {
        let t = crate::text::trimmed(line);
        if t.as_str().is_empty() {
            None
        } else {
            Some(t)
        }
    }

    /// How a request of a method is answered: pings and shutdowns by the
    /// transport itself, everything else by the handler.
    pub fn Route(method: Method) -> (r: Route)
        ensures
            method == Method::Ping ==> r == Route::Pong,
            method == Method::Shutdown ==> r == Route::Shutdown,
            method != Method::Ping && method != Method::Shutdown ==> r == Route::Dispatch,
    {
        match method {
            Method::Ping => Route::Pong,
            Method::Shutdown => Route::Shutdown,
            _ => Route::Dispatch,
        }
    }

    /// The response to request `id` from what the handler gave back.
    pub fn Respond(id: RequestId, outcome: Result<serde_json::Value, Error>) -> (r: Response)
        ensures
            match outcome {
                Ok(v) => r == (Response::JsonRpc { id, result: ResponseResult { result: Some(v), error: None } }),
                Err(e) => r == (Response::JsonRpc { id, result: ResponseResult { result: None, error: Some(e) } }),
            },
    {
        match outcome {
            Ok(v) => Response::Success(id, v),
            Err(e) => Response::Error(id, e),
        }
    }
}


/// What the server does with a request of the model context protocol.
#[derive(Debug, Clone, Copy, PartialEq, Eq, Structural)]
pub enum McpAction {
    /// Answer with the protocol version, the capabilities and the server.
    Initialize,
    /// Answer with the tools.
    ListTools,
    /// Answer `{"pong": true}`.
    Pong,
    /// Run a tool.
    CallTool,
    /// Answer with no resources.
    ListResources,
    /// Answer with no prompts.
    ListPrompts,
    /// Answer that the method is unknown.
    Unknown,
}

/// The action of a protocol method by its name.
pub open spec fn mcp_action_of(name: Seq<char>) -> McpAction {
    if name == "initialize"@ {
        McpAction::Initialize
    } else if name == "tools/list"@ {
        McpAction::ListTools
    } else if name == "ping"@ {
        McpAction::Pong
    } else if name == "tools/call"@ {
        McpAction::CallTool
    } else if name == "resources/list"@ {
        McpAction::ListResources
    } else if name == "prompts/list"@ {
        McpAction::ListPrompts
    } else {
        McpAction::Unknown
    }
}

/// The action of a protocol method by its name.
pub fn mcp_action(name: &str) -> (r: McpAction)
    ensures
        r == mcp_action_of(name@),
{
    if crate::text::str_eq(name, "initialize") {
        McpAction::Initialize
    } else if crate::text::str_eq(name, "tools/list") {
        McpAction::ListTools
    } else if crate::text::str_eq(name, "ping") {
        McpAction::Pong
    } else if crate::text::str_eq(name, "tools/call") {
        McpAction::CallTool
    } else if crate::text::str_eq(name, "resources/list") {
        McpAction::ListResources
    } else if crate::text::str_eq(name, "prompts/list") {
        McpAction::ListPrompts
    } else {
        McpAction::Unknown
    }
}

/// The text that answers a call of the tool `name`.
pub fn tool_called_text(name: &str) -> (r: String)
    ensures
        r@ == "Tool '"@ + name@ + "' called"@,
{
    let mut r = String::from_str("Tool '");
    r.append(name);
    r.append("' called");
    r
}

/// The message that answers a method the server does not know.
pub fn unknown_method_text(method: &str) -> (r: String)
    ensures
        r@ == "Unknown method: "@ + method@,
{
    let mut r = String::from_str("Unknown method: ");
    r.append(method);
    r
}

} // verus!
