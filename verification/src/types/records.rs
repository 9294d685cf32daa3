//! The basic stored records: contexts, decisions, patterns and progress
//! entries, stamped with the time of their creation.

use vstd::prelude::*;

use crate::clock::{now_rfc3339, utc_rfc3339_text};

verus! {

/// Context type
pub struct Context {
    pub Id: String,
    pub Name: String,
    pub Content: String,
    pub WorkspacePath: String,
    pub CreatedAt: String,
    pub UpdatedAt: String,
}

impl Context {
    pub fn New(Id: String, Name: String, Content: String, WorkspacePath: String) -> (r: Self)
        ensures
            r.Id == Id,
            r.Name == Name,
            r.Content == Content,
            r.WorkspacePath == WorkspacePath,
            utc_rfc3339_text(r.CreatedAt@),
            utc_rfc3339_text(r.UpdatedAt@),
    {
        Context {
            Id,
            Name,
            Content,
            WorkspacePath,
            CreatedAt: now_rfc3339(),
            UpdatedAt: now_rfc3339(),
        }
    }
}

/// Decision type
pub struct Decision {
    pub Id: String,
    pub ContextId: String,
    pub Description: String,
    pub Rationale: String,
    pub CreatedAt: String,
}

impl Decision {
    pub fn New(Id: String, ContextId: String, Description: String, Rationale: String) -> (r: Self)
        ensures
            r.Id == Id,
            r.ContextId == ContextId,
            r.Description == Description,
            r.Rationale == Rationale,
            utc_rfc3339_text(r.CreatedAt@),
    {
        Decision { Id, ContextId, Description, Rationale, CreatedAt: now_rfc3339() }
    }
}

/// Pattern type
pub struct Pattern {
    pub Id: String,
    pub Name: String,
    pub Description: String,
    pub ContextId: String,
    pub CreatedAt: String,
}

impl Pattern {
    pub fn New(Id: String, Name: String, Description: String, ContextId: String) -> (r: Self)
        ensures
            r.Id == Id,
            r.Name == Name,
            r.Description == Description,
            r.ContextId == ContextId,
            utc_rfc3339_text(r.CreatedAt@),
    {
        Pattern { Id, Name, Description, ContextId, CreatedAt: now_rfc3339() }
    }
}

/// Progress type
pub struct Progress {
    pub Id: String,
    pub ContextId: String,
    pub Description: String,
    pub Status: String,
    pub CreatedAt: String,
    pub UpdatedAt: String,
}

impl Progress {
    pub fn New(Id: String, ContextId: String, Description: String, Status: String) -> (r: Self)
        ensures
            r.Id == Id,
            r.ContextId == ContextId,
            r.Description == Description,
            r.Status == Status,
            utc_rfc3339_text(r.CreatedAt@),
            utc_rfc3339_text(r.UpdatedAt@),
    {
        Progress {
            Id,
            ContextId,
            Description,
            Status,
            CreatedAt: now_rfc3339(),
            UpdatedAt: now_rfc3339(),
        }
    }
}

} // verus!
