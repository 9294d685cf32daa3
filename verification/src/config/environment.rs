//! Settings read from the environment, and how their values are read.

use vstd::prelude::*;

use crate::text::{
    all_digits, chars_of, digits_value, lowercase, parse_digits_u64, str_eq, to_lowercase,
};

verus! {

broadcast use vstd::string::group_string_axioms;

/// Supported log levels for the application
#[derive(Debug, Clone, Copy, PartialEq, Eq, Structural)]
pub enum LogLevel {
    Trace,
    Debug,
    Info,
    Warn,
    Error,
}

impl Default for LogLevel {
    fn default() -> (r: Self)
        ensures
            r == LogLevel::Info,
    {
        LogLevel::Info
    }
}

/// The level that a lower-case word names: `warning` counts as `warn`, and
/// any other word gives the default level.
pub open spec fn env_level_of(w: Seq<char>) -> LogLevel {
    if w == "trace"@ {
        LogLevel::Trace
    } else if w == "debug"@ {
        LogLevel::Debug
    } else if w == "info"@ {
        LogLevel::Info
    } else if w == "warn"@ || w == "warning"@ {
        LogLevel::Warn
    } else if w == "error"@ {
        LogLevel::Error
    } else {
        LogLevel::Info
    }
}

impl LogLevel {
    /// The level named by the lower case of `s`.
    pub fn from_str(s: &str) -> (r: Self)
        ensures
            r == env_level_of(lowercase(s@)),
    {
        let l = to_lowercase(s);
        Self::from_word(l.as_str())
    }

    /// The level that a lower-case word names.
    pub fn from_word(w: &str) -> (r: Self)
        ensures
            r == env_level_of(w@),
    {
        if str_eq(w, "trace") {
            LogLevel::Trace
        } else if str_eq(w, "debug") {
            LogLevel::Debug
        } else if str_eq(w, "info") {
            LogLevel::Info
        } else if str_eq(w, "warn") || str_eq(w, "warning") {
            LogLevel::Warn
        } else if str_eq(w, "error") {
            LogLevel::Error
        } else {
            LogLevel::Info
        }
    }
}

/// Environment configuration for ConPort
#[derive(Debug, Clone)]
pub struct EnvironmentConfig {
    pub workspace_id: Option<String>,
    pub log_level: LogLevel,
    pub database_path: Option<String>,
    pub port: Option<u16>,
    pub host: Option<String>,
    pub max_connections: Option<usize>,
    pub vector_store_enabled: bool,
    pub vector_store_path: Option<String>,
}

impl Default for EnvironmentConfig {
    fn default() -> (r: Self)
        ensures
            r.workspace_id is None,
            r.log_level == LogLevel::Info,
            r.database_path is None,
            r.port is None,
            r.host is None,
            r.max_connections is None,
            !r.vector_store_enabled,
            r.vector_store_path is None,
    {
        EnvironmentConfig {
            workspace_id: None,
            log_level: LogLevel::Info,
            database_path: None,
            port: None,
            host: None,
            max_connections: None,
            vector_store_enabled: false,
            vector_store_path: None,
        }
    }
}

/// The number that an unsigned integer's text spells: ASCII digits with at
/// most one `+` in front, as `str::parse` reads them.
pub open spec fn unsigned_text_value(s: Seq<char>) -> Option<nat> {
    let d = if s.len() > 0 && s[0] == '+' {
        s.drop_first()
    } else {
        s
    };
    if all_digits(d) {
        Some(digits_value(d))
    } else {
        None
    }
}

/// Reads an unsigned number no greater than `max` from its text.
pub fn parse_unsigned(s: &str, max: u64) -> (r: Option<u64>)
    ensures
        match r {
            Some(v) => unsigned_text_value(s@) == Some(v as nat) && v <= max,
            None => unsigned_text_value(s@) matches Some(n) ==> n > max,
        },
{
    let v = chars_of(s);
    let start: usize = if v.len() > 0 && v[0] == '+' {
        1
    } else {
        0
    };
    let mut digits = String::new();
    let mut i = start;
    while i < v.len()
        invariant
            start <= i <= v.len(),
            digits@ == v@.subrange(start as int, i as int),
        decreases v.len() - i,
    {
        crate::text::push_char(&mut digits, v[i]);
        assert(digits@ =~= v@.subrange(start as int, i + 1));
        i = i + 1;
    }
    assert(start == 1 ==> v@.drop_first() =~= v@.subrange(1, v@.len() as int));
    assert(start == 0 ==> v@ =~= v@.subrange(0, v@.len() as int));
    if !crate::text::is_all_digits(digits.as_str()) {
        return None;
    }
    match parse_digits_u64(digits.as_str()) {
        Some(n) => {
            if n <= max {
                Some(n)
            } else {
                None
            }
        },
        None => None,
    }
}

/// The values of the environment variables, as far as they are set.
pub struct EnvironmentValues {
    pub workspace: Option<String>,
    pub log_level: Option<String>,
    pub database_path: Option<String>,
    pub port: Option<String>,
    pub host: Option<String>,
    pub max_connections: Option<String>,
    pub vector_store_enabled: Option<String>,
    pub vector_store_path: Option<String>,
}

/// A value that is set and not empty.
pub open spec fn nonempty_value(v: Option<String>) -> Option<String> {
    match v {
        Some(s) => if s@.len() > 0 {
            Some(s)
        } else {
            None
        },
        None => None,
    }
}

fn nonempty(v: Option<String>) -> (r: Option<String>)
    ensures
        r == nonempty_value(v),
{
    match v {
        Some(s) => if !s.as_str().is_empty() {
            Some(s)
        } else {
            None
        },
        None => None,
    }
}

/// A flag is on when its lower case reads `true` or it reads `1`.
pub open spec fn flag_on(s: Seq<char>) -> bool {
    lowercase(s) == "true"@ || s == "1"@
}

/// Whether a flag's text switches it on.
pub fn is_flag_on(s: &str) -> (r: bool)
    ensures
        r == flag_on(s@),
{
    let l = to_lowercase(s);
    flag_on_word(l.as_str(), s)
}

/// Whether a flag is on, given its text `s` and the lower case `lower` of it.
pub fn flag_on_word(lower: &str, s: &str) -> (r: bool)
    ensures
        r == (lower@ == "true"@ || s@ == "1"@),
{
    str_eq(lower, "true") || str_eq(s, "1")
}

/// The configuration that the given environment values make: each setting
/// that is present and readable replaces the default.
pub fn config_from_values(values: EnvironmentValues) -> (r: EnvironmentConfig)
    ensures
        r.workspace_id == nonempty_value(values.workspace),
        r.log_level == match values.log_level {
            Some(l) => env_level_of(lowercase(l@)),
            None => LogLevel::Info,
        },
        r.database_path == nonempty_value(values.database_path),
        match values.port {
            Some(p) => match unsigned_text_value(p@) {
                Some(n) => if n <= u16::MAX {
                    r.port == Some(n as u16)
                } else {
                    r.port is None
                },
                None => r.port is None,
            },
            None => r.port is None,
        },
        r.host == nonempty_value(values.host),
        match values.max_connections {
            Some(m) => match unsigned_text_value(m@) {
                Some(n) => if n <= usize::MAX {
                    r.max_connections == Some(n as usize)
                } else {
                    r.max_connections is None
                },
                None => r.max_connections is None,
            },
            None => r.max_connections is None,
        },
        r.vector_store_enabled == match values.vector_store_enabled {
            Some(e) => flag_on(e@),
            None => false,
        },
        r.vector_store_path == nonempty_value(values.vector_store_path),
{
    let port = match &values.port {
        Some(p) => match parse_unsigned(p.as_str(), 65535) {
            Some(n) => Some(n as u16),
            None => None,
        },
        None => None,
    };
    let max_connections = match &values.max_connections {
        Some(m) => match parse_unsigned(m.as_str(), usize::MAX as u64) {
            Some(n) => Some(n as usize),
            None => None,
        },
        None => None,
    };
    let log_level = match &values.log_level {
        Some(l) => LogLevel::from_str(l.as_str()),
        None => LogLevel::Info,
    };
    let vector_store_enabled = match &values.vector_store_enabled {
        Some(e) => is_flag_on(e.as_str()),
        None => false,
    };
    EnvironmentConfig {
        workspace_id: nonempty(values.workspace),
        log_level,
        database_path: nonempty(values.database_path),
        port,
        host: nonempty(values.host),
        max_connections,
        vector_store_enabled,
        vector_store_path: nonempty(values.vector_store_path),
    }
}

} // verus!
