//! The kinds of error of the library, with the message each one displays.

use vstd::prelude::*;
use vstd::string::StringExecFns;

verus! {

/// Error kinds for the ConPort MCP server
#[derive(Debug)]
pub enum Kind {
    Database(String),
    Configuration(String),
    WorkspaceDetection(String),
    VectorStore(String),
    Http(String),
    Embedding(String),
    Serialization(String),
    NotFound(String),
    InvalidInput(String),
}

impl Kind {
    /// The words before the detail in the message of a kind.
    pub open spec fn label(&self) -> Seq<char> {
        match self {
            Kind::Database(_) => "Database error: "@,
            Kind::Configuration(_) => "Configuration error: "@,
            Kind::WorkspaceDetection(_) => "Workspace detection error: "@,
            Kind::VectorStore(_) => "Vector store error: "@,
            Kind::Http(_) => "HTTP error: "@,
            Kind::Embedding(_) => "Embedding error: "@,
            Kind::Serialization(_) => "Serialization error: "@,
            Kind::NotFound(_) => "Not found: "@,
            Kind::InvalidInput(_) => "Invalid input: "@,
        }
    }

    /// The detail that a kind carries.
    pub open spec fn detail(&self) -> Seq<char> {
        match self {
            Kind::Database(s) => s@,
            Kind::Configuration(s) => s@,
            Kind::WorkspaceDetection(s) => s@,
            Kind::VectorStore(s) => s@,
            Kind::Http(s) => s@,
            Kind::Embedding(s) => s@,
            Kind::Serialization(s) => s@,
            Kind::NotFound(s) => s@,
            Kind::InvalidInput(s) => s@,
        }
    }

    /// The message of an error: its label, then its detail.
    pub fn to_string(&self) -> (r: String)
        ensures
            r@ == self.label() + self.detail(),
    {
        let (label, detail) = match self {
            Kind::Database(s) => ("Database error: ", s),
            Kind::Configuration(s) => ("Configuration error: ", s),
            Kind::WorkspaceDetection(s) => ("Workspace detection error: ", s),
            Kind::VectorStore(s) => ("Vector store error: ", s),
            Kind::Http(s) => ("HTTP error: ", s),
            Kind::Embedding(s) => ("Embedding error: ", s),
            Kind::Serialization(s) => ("Serialization error: ", s),
            Kind::NotFound(s) => ("Not found: ", s),
            Kind::InvalidInput(s) => ("Invalid input: ", s),
        };
        let mut r = String::from_str(label);
        r.append(detail.as_str());
        r
    }
}

} // verus!
