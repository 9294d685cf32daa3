//! Command-line options of the server, and the server modes and log levels
//! they name.

use vstd::prelude::*;
use vstd::string::StringExecFns;

use crate::config::environment;
use crate::config::logging::{to_tracing_level, tracing_level};
use crate::text::{decimal, lowercase, push_decimal, str_eq, to_lowercase};

verus! {

broadcast use vstd::string::group_string_axioms;

/// Server mode (stdio or http)
#[derive(Debug, Clone, Copy, PartialEq, Eq, Structural)]
pub enum ServerMode {
    Stdio,
    Http,
}

impl Default for ServerMode {
    fn default() -> (r: Self)
        ensures
            r == ServerMode::Stdio,
    {
        ServerMode::Stdio
    }
}

/// The name of a server mode.
pub open spec fn mode_name(m: ServerMode) -> Seq<char> {
    match m {
        ServerMode::Stdio => "stdio"@,
        ServerMode::Http => "http"@,
    }
}

/// The mode that a lower-case word names, if any.
pub open spec fn mode_of(w: Seq<char>) -> Option<ServerMode> {
    if w == "stdio"@ {
        Some(ServerMode::Stdio)
    } else if w == "http"@ {
        Some(ServerMode::Http)
    } else {
        None
    }
}

impl ServerMode {
    /// The mode named by the lower case of `s`, or the message that refuses it.
    pub fn parse(s: &str) -> (r: Result<Self, String>)
        ensures
            match mode_of(lowercase(s@)) {
                Some(m) => r == Ok::<ServerMode, String>(m),
                None => r matches Err(e) && e@ == "Invalid server mode: "@ + s@,
            },
    {
        let l = to_lowercase(s);
        Self::from_word(l.as_str(), s)
    }

    /// The mode that the lower-case word `w` names, or the message that
    /// refuses the text `s` it was made from.
    pub fn from_word(w: &str, s: &str) -> (r: Result<Self, String>)
        ensures
            match mode_of(w@) {
                Some(m) => r == Ok::<ServerMode, String>(m),
                None => r matches Err(e) && e@ == "Invalid server mode: "@ + s@,
            },
    {
        if str_eq(w, "stdio") {
            Ok(ServerMode::Stdio)
        } else if str_eq(w, "http") {
            Ok(ServerMode::Http)
        } else {
            let mut e = String::from_str("Invalid server mode: ");
            e.append(s);
            Err(e)
        }
    }

    /// The name of the mode.
    pub fn to_string(&self) -> (r: String)
        ensures
            r@ == mode_name(*self),
    {
        match self {
            ServerMode::Stdio => String::from_str("stdio"),
            ServerMode::Http => String::from_str("http"),
        }
    }
}

impl std::str::FromStr for ServerMode {
    type Err = String;

    fn from_str(s: &str) -> Result<Self, Self::Err> {
        ServerMode::parse(s)
    }
}

/// Logging level (trace, debug, info, warn, error)
#[derive(Debug, Clone, Copy, PartialEq, Eq, Structural)]
pub enum LogLevel {
    Trace,
    Debug,
    Info,
    Warn,
    Error,
}

impl Default for LogLevel {
    fn default() -> (r: Self)
        ensures
            r == LogLevel::Info,
    {
        LogLevel::Info
    }
}

/// The level that a lower-case word names, if any.
pub open spec fn cli_level_of(w: Seq<char>) -> Option<LogLevel> {
    if w == "trace"@ {
        Some(LogLevel::Trace)
    } else if w == "debug"@ {
        Some(LogLevel::Debug)
    } else if w == "info"@ {
        Some(LogLevel::Info)
    } else if w == "warn"@ {
        Some(LogLevel::Warn)
    } else if w == "error"@ {
        Some(LogLevel::Error)
    } else {
        None
    }
}

/// The environment's level of the same name.
pub open spec fn same_level(l: LogLevel) -> environment::LogLevel {
    match l {
        LogLevel::Trace => environment::LogLevel::Trace,
        LogLevel::Debug => environment::LogLevel::Debug,
        LogLevel::Info => environment::LogLevel::Info,
        LogLevel::Warn => environment::LogLevel::Warn,
        LogLevel::Error => environment::LogLevel::Error,
    }
}

impl LogLevel {
    /// The level named by the lower case of `s`, or the message that refuses it.
    pub fn parse(s: &str) -> (r: Result<Self, String>)
        ensures
            match cli_level_of(lowercase(s@)) {
                Some(l) => r == Ok::<LogLevel, String>(l),
                None => r matches Err(e) && e@ == "Invalid log level: "@ + s@,
            },
    {
        let l = to_lowercase(s);
        Self::from_word(l.as_str(), s)
    }

    /// The level that the lower-case word `w` names, or the message that
    /// refuses the text `s` it was made from.
    pub fn from_word(w: &str, s: &str) -> (r: Result<Self, String>)
        ensures
            match cli_level_of(w@) {
                Some(l) => r == Ok::<LogLevel, String>(l),
                None => r matches Err(e) && e@ == "Invalid log level: "@ + s@,
            },
    {
        if str_eq(w, "trace") {
            Ok(LogLevel::Trace)
        } else if str_eq(w, "debug") {
            Ok(LogLevel::Debug)
        } else if str_eq(w, "info") {
            Ok(LogLevel::Info)
        } else if str_eq(w, "warn") {
            Ok(LogLevel::Warn)
        } else if str_eq(w, "error") {
            Ok(LogLevel::Error)
        } else {
            let mut e = String::from_str("Invalid log level: ");
            e.append(s);
            Err(e)
        }
    }

    /// The `tracing` level of the same name.
    pub fn ToTracingLevel(&self) -> (r: tracing::Level)
        ensures
            r == tracing_level(same_level(*self)),
    {
        let l = match self {
            LogLevel::Trace => environment::LogLevel::Trace,
            LogLevel::Debug => environment::LogLevel::Debug,
            LogLevel::Info => environment::LogLevel::Info,
            LogLevel::Warn => environment::LogLevel::Warn,
            LogLevel::Error => environment::LogLevel::Error,
        };
        to_tracing_level(l)
    }
}

impl std::str::FromStr for LogLevel {
    type Err = String;

    fn from_str(s: &str) -> Result<Self, Self::Err> {
        LogLevel::parse(s)
    }
}

/// The options of the server's command line.
pub struct CLI {
    /// Server host address
    pub Host: String,
    /// Server port number
    pub Port: u16,
    /// Workspace ID for context isolation
    pub WorkspaceId: Option<String>,
    /// Server mode (stdio or http)
    pub Mode: ServerMode,
    /// Logging level (trace, debug, info, warn, error)
    pub LogLevel: LogLevel,
    /// Log file path (optional, logs to stdout if not specified)
    pub LogFile: Option<String>,
    /// Database path override
    pub DatabasePath: Option<String>,
    /// Enable vector search functionality
    pub VectorEnabled: bool,
    /// Embedding dimension for vector storage
    pub EmbeddingDimension: usize,
}

impl CLI {
    /// The address the server listens on: `host:port`.
    pub fn ServerAddress(&self) -> (r: String)
        ensures
            r@ == self.Host@ + ":"@ + decimal(self.Port as nat),
    {
        let mut r = self.Host.clone();
        r.append(":");
        push_decimal(&mut r, self.Port as u64);
        r
    }
}


/// The logging level that a count of `-v` flags asks for: information by
/// default, debugging for one, tracing for more.
pub fn verbosity_level(verbose: u8) -> (r: LogLevel)
    ensures
        r == (if verbose == 0 {
            LogLevel::Info
        } else if verbose == 1 {
            LogLevel::Debug
        } else {
            LogLevel::Trace
        }),
{
    if verbose == 0 {
        LogLevel::Info
    } else if verbose == 1 {
        LogLevel::Debug
    } else {
        LogLevel::Trace
    }
}

} // verus!
