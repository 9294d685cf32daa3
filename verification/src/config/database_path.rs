//! The location of the database file.

use vstd::prelude::*;

use crate::persistence::workspace::{data_local_dir, joined_path, path_join};
use crate::server::{path_from, path_of};

verus! {

#[verifier::external_type_specification]
#[verifier::external_body]
pub struct ExPathBuf(std::path::PathBuf);

/// DatabasePath configuration for the ConPort MCP server
pub struct DatabasePath {
    pub Path: std::path::PathBuf,
}

impl DatabasePath {
    pub fn New(Path: std::path::PathBuf) -> (r: Self)
        ensures
            r.Path == Path,
    {
        DatabasePath { Path }
    }
}

/// The name of the database file: the one given, else `context.db`.
pub open spec fn db_file_name(db_filename: Option<String>) -> Seq<char> {
    match db_filename {
        Some(f) => f@,
        None => "context.db"@,
    }
}

/// The database file under a base directory.
pub open spec fn db_file_under(base: std::path::PathBuf, db_filename: Option<String>) -> std::path::PathBuf {
    joined_path(joined_path(base, "context_portal"@), db_file_name(db_filename))
}

/// The database file: the one given, else `context_portal/<file>` under the
/// base path, the workspace, or the local data directory (`.` where there is
/// none).
pub fn database_path(
    database: Option<String>,
    base_path: Option<String>,
    workspace_id: &Option<String>,
    db_filename: Option<String>,
) -> (r: std::path::PathBuf)
    ensures
        match database {
            Some(p) => r == path_of(p@),
            None => match base_path {
                Some(b) => r == db_file_under(path_of(b@), db_filename),
                None => match workspace_id {
                    Some(w) => r == db_file_under(path_of(w@), db_filename),
                    None => exists|d: std::path::PathBuf| r == db_file_under(d, db_filename),
                },
            },
        },
{
    if let Some(path) = database {
        return path_from(path.as_str());
    }
    let base = if let Some(b) = base_path {
        path_from(b.as_str())
    } else if let Some(ws) = workspace_id {
        path_from(ws.as_str())
    } else {
        match data_local_dir() {
            Some(d) => d,
            None => path_from("."),
        }
    };
    let dir = path_join(&base, "context_portal");
    let file = match db_filename {
        Some(f) => f,
        None => String::from_str("context.db"),
    };
    let r = path_join(&dir, file.as_str());
    assert(r == db_file_under(base, db_filename));
    r
}

} // verus!
