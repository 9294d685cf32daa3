//! Detection of the workspace that a directory belongs to.
//!
//! The search walks up from a starting directory and stops at the first one
//! that holds a workspace indicator. Looking at the file system is left to the
//! caller; this module decides, at each step, what to do next.

use vstd::prelude::*;

verus! {

/// Finds the workspace root of a directory.
pub struct Detector;

/// What the search does next.
#[derive(Debug, Clone, Copy, PartialEq, Eq, Structural)]
pub enum DetectAction {
    /// Look for the indicators in the current directory.
    CheckIndicators,
    /// The current directory is the workspace.
    UseDirectory,
    /// Go on to the parent of the current directory.
    Ascend,
    /// No workspace was found: the starting directory is used.
    UseStart,
}

/// The names whose presence marks a workspace root.
pub open spec fn indicator_names() -> Seq<Seq<char>> {
    seq![
        ".git"@,
        ".vscode"@,
        "package.json"@,
        "Cargo.toml"@,
        "pyproject.toml"@,
        "go.mod"@,
        "requirements.txt"@,
    ]
}

impl Detector {
    /// The names whose presence marks a workspace root, in the order in
    /// which they are looked for.
    pub fn Indicators() -> (r: Vec<&'static str>)
        ensures
            r@.map_values(|s: &str| s@) == indicator_names(),
    {
        let r = vec![".git", ".vscode", "package.json", "Cargo.toml", "pyproject.toml", "go.mod", "requirements.txt"];
        assert(r@.map_values(|s: &str| s@) =~= indicator_names());
        r
    }

    /// On reaching a directory: the file system root ends the search,
    /// any other directory is searched for indicators.
    pub fn OnDirectory(is_root: bool) -> (r: DetectAction)
        ensures
            r == (if is_root { DetectAction::UseStart } else { DetectAction::CheckIndicators }),
    {
        if is_root {
            DetectAction::UseStart
        } else {
            DetectAction::CheckIndicators
        }
    }

    /// After searching a directory: a directory with an indicator is the
    /// workspace; else the search goes up while there is a parent.
    pub fn AfterCheck(found: bool, has_parent: bool) -> (r: DetectAction)
        ensures
            r == (if found {
                DetectAction::UseDirectory
            } else if has_parent {
                DetectAction::Ascend
            } else {
                DetectAction::UseStart
            }),
    {
        if found {
            DetectAction::UseDirectory
        } else if has_parent {
            DetectAction::Ascend
        } else {
            DetectAction::UseStart
        }
    }
}

} // verus!
