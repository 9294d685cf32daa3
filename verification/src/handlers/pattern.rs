//! Pattern endpoints: the pattern a creation makes, and the answers to
//! reads, updates and deletions of patterns, which none are stored for.

use vstd::prelude::*;
use vstd::string::StringExecFns;

use crate::clock::new_uuid;
use crate::protocol::response::{code_number, Error, ErrorCode};
use crate::types::records::Pattern;

verus! {

/// A pattern as the endpoints answer with it.
pub struct PatternResponse {
    pub Id: String,
    pub Name: String,
    pub Description: String,
    pub ContextId: String,
    pub CreatedAt: String,
}

impl From<Pattern> for PatternResponse {
    fn from(pattern: Pattern) -> (r: Self) {
        PatternResponse {
            Id: pattern.Id,
            Name: pattern.Name,
            Description: pattern.Description,
            ContextId: pattern.ContextId,
            CreatedAt: pattern.CreatedAt,
        }
    }
}

impl vstd::std_specs::convert::FromSpecImpl<Pattern> for PatternResponse {
    open spec fn obeys_from_spec() -> bool {
        true
    }

    open spec fn from_spec(pattern: Pattern) -> Self {
        PatternResponse {
            Id: pattern.Id,
            Name: pattern.Name,
            Description: pattern.Description,
            ContextId: pattern.ContextId,
            CreatedAt: pattern.CreatedAt,
        }
    }
}

/// The request that creates a pattern.
pub struct CreatePatternRequest {
    pub Name: String,
    pub Description: String,
    pub ContextId: String,
}

/// The request that updates a pattern.
pub struct UpdatePatternRequest {
    pub Name: Option<String>,
    pub Description: Option<String>,
}

/// The error that answers a request for a pattern that is not stored.
pub open spec fn pattern_not_found(r: Error, id: Seq<char>) -> bool {
    r.code == code_number(ErrorCode::NotFound) && r.message@ == "Not found: "@ + ("Pattern "@ + id
        + " not found"@) && r.data is None
}

fn not_found(Id: &String) -> (r: Error)
    ensures
        pattern_not_found(r, Id@),
{
    let mut m = String::from_str("Pattern ");
    m.append(Id.as_str());
    m.append(" not found");
    Error::NotFound(m.as_str())
}

/// HandleCreatePattern - Standalone handler function for MCP protocol
pub struct HandleCreatePattern;

impl HandleCreatePattern {
    /// A new pattern with a fresh identifier, made from the request.
    pub fn Execute(Payload: CreatePatternRequest) -> (r: Result<PatternResponse, Error>)
        ensures
            r matches Ok(p) && p.Id@.len() == 36 && p.Name == Payload.Name && p.Description
                == Payload.Description && p.ContextId == Payload.ContextId,
    {
        let pattern = Pattern::New(new_uuid(), Payload.Name, Payload.Description, Payload.ContextId);
        Ok(PatternResponse::from(pattern))
    }
}

/// HandleGetPattern - Standalone handler function for MCP protocol
pub struct HandleGetPattern;

impl HandleGetPattern {
    /// No pattern is stored, so every pattern is not found.
    pub fn Execute(Id: String) -> (r: Result<PatternResponse, Error>)
        ensures
            r matches Err(e) && pattern_not_found(e, Id@),
    {
        Err(not_found(&Id))
    }
}

/// HandleUpdatePattern - Standalone handler function for MCP protocol
pub struct HandleUpdatePattern;

impl HandleUpdatePattern {
    /// No pattern is stored, so every pattern is not found.
    pub fn Execute(Id: String, Payload: UpdatePatternRequest) -> (r: Result<PatternResponse, Error>)
        ensures
            r matches Err(e) && pattern_not_found(e, Id@),
    {
        Err(not_found(&Id))
    }
}

/// HandleDeletePattern - Standalone handler function for MCP protocol
pub struct HandleDeletePattern;

impl HandleDeletePattern {
    /// No pattern is stored, so every pattern is not found.
    pub fn Execute(Id: String) -> (r: Result<(), Error>)
        ensures
            r matches Err(e) && pattern_not_found(e, Id@),
    {
        Err(not_found(&Id))
    }
}

} // verus!
