//! Log levels as the `tracing` crate knows them.

use vstd::prelude::*;

use crate::config::environment::{env_level_of, LogLevel};
use crate::text::{lowercase, to_lowercase};

verus! {

#[verifier::external_type_specification]
#[verifier::external_body]
pub struct ExTracingLevel(tracing::Level);

/// The `tracing::Level` constant of a log level.
pub uninterp spec fn tracing_level(l: LogLevel) -> tracing::Level;

/// Hands back `tracing::Level::TRACE`, `DEBUG`, `INFO`, `WARN` or `ERROR`
/// for the level of the same name; the contract names that constant.
#[verifier::external_body]
pub(crate) fn to_tracing_level(l: LogLevel) -> (r: tracing::Level)
    ensures
        r == tracing_level(l),
{
    match l {
        LogLevel::Trace => tracing::Level::TRACE,
        LogLevel::Debug => tracing::Level::DEBUG,
        LogLevel::Info => tracing::Level::INFO,
        LogLevel::Warn => tracing::Level::WARN,
        LogLevel::Error => tracing::Level::ERROR,
    }
}

/// Parse log level string to tracing Level: the level named by the lower
/// case of `level` (`warning` counts as `warn`), else `INFO`.
pub fn parse_log_level(level: &str) -> (r: tracing::Level)
    ensures
        r == tracing_level(env_level_of(lowercase(level@))),
{
    to_tracing_level(LogLevel::from_str(level))
}


/// The characters that a workspace id cannot keep in a directory name.
pub open spec fn path_unsafe(c: char) -> bool {
    c == '/' || c == '\\' || c == ':' || c == '*' || c == '?' || c == '"' || c == '<' || c == '>' || c == '|'
}

/// A workspace id with each character that a directory name cannot hold
/// replaced by `_`.
pub open spec fn sanitized(id: Seq<char>) -> Seq<char> {
    id.map_values(|c: char| if path_unsafe(c) { '_' } else { c })
}

/// The name of a workspace's log directory: the workspace id with `/`, `\`,
/// `:`, `*`, `?`, `"`, `<`, `>` and `|` each replaced by `_`.
pub fn sanitize_workspace_id(workspace_id: &str) -> (r: String)
    ensures
        r@ == sanitized(workspace_id@),
{
    let chars = crate::text::chars_of(workspace_id);
    let mut r = String::new();
    let mut i: usize = 0;
    while i < chars.len()
        invariant
            i <= chars.len(),
            chars@ == workspace_id@,
            r@ == sanitized(workspace_id@).take(i as int),
        decreases chars.len() - i,
    {
        let c = chars[i];
        let d = if c == '/' || c == '\\' || c == ':' || c == '*' || c == '?' || c == '"' || c == '<' || c == '>'
            || c == '|' {
            '_'
        } else {
            c
        };
        crate::text::push_char(&mut r, d);
        i = i + 1;
        assert(r@ =~= sanitized(workspace_id@).take(i as int));
    }
    assert(sanitized(workspace_id@).take(i as int) =~= sanitized(workspace_id@));
    r
}

} // verus!
