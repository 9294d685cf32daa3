//! The kinds of error that the HTTP server answers with, and the status code
//! and message of each answer.

use vstd::prelude::*;
use vstd::string::StringExecFns;

verus! {

/// Error kinds of the server
#[derive(Debug)]
pub enum Kind {
    Database(String),
    Configuration(String),
    WorkspaceDetection(String),
    VectorStore(String),
    Http(String),
    Embedding(String),
    Serialization(String),
    NotFound(String),
    InvalidInput(String),
    InvalidItemType(String),
    DatabaseError(String),
    Model(String),
    Server(String),
    Transport(String),
}

impl Kind {
    /// The words before the detail in the message of a kind.
    pub open spec fn label(&self) -> Seq<char> {
        match self {
            Kind::Database(_) => "Database error: "@,
            Kind::Configuration(_) => "Configuration error: "@,
            Kind::WorkspaceDetection(_) => "Workspace detection error: "@,
            Kind::VectorStore(_) => "Vector store error: "@,
            Kind::Http(_) => "HTTP error: "@,
            Kind::Embedding(_) => "Embedding error: "@,
            Kind::Serialization(_) => "Serialization error: "@,
            Kind::NotFound(_) => "Not found: "@,
            Kind::InvalidInput(_) => "Invalid input: "@,
            Kind::InvalidItemType(_) => "Invalid item type: "@,
            Kind::DatabaseError(_) => "Database error: "@,
            Kind::Model(_) => "Model error: "@,
            Kind::Server(_) => "Server error: "@,
            Kind::Transport(_) => "Transport error: "@,
        }
    }

    /// The detail that a kind carries.
    pub open spec fn detail(&self) -> Seq<char> {
        match self {
            Kind::Database(s) => s@,
            Kind::Configuration(s) => s@,
            Kind::WorkspaceDetection(s) => s@,
            Kind::VectorStore(s) => s@,
            Kind::Http(s) => s@,
            Kind::Embedding(s) => s@,
            Kind::Serialization(s) => s@,
            Kind::NotFound(s) => s@,
            Kind::InvalidInput(s) => s@,
            Kind::InvalidItemType(s) => s@,
            Kind::DatabaseError(s) => s@,
            Kind::Model(s) => s@,
            Kind::Server(s) => s@,
            Kind::Transport(s) => s@,
        }
    }

    /// The HTTP status that answers a kind: 500 for failures of the server's
    /// own parts, 502 for configuration and workspace detection, 400 for bad
    /// requests, 404 for what was not found and 503 for the transport.
    pub open spec fn status_of(&self) -> u16 {
        match self {
            Kind::Database(_) => 500,
            Kind::DatabaseError(_) => 500,
            Kind::Configuration(_) => 502,
            Kind::WorkspaceDetection(_) => 502,
            Kind::VectorStore(_) => 500,
            Kind::Http(_) => 400,
            Kind::Embedding(_) => 500,
            Kind::Serialization(_) => 400,
            Kind::NotFound(_) => 404,
            Kind::InvalidInput(_) => 400,
            Kind::InvalidItemType(_) => 400,
            Kind::Model(_) => 500,
            Kind::Server(_) => 500,
            Kind::Transport(_) => 503,
        }
    }

    /// The message of an error: its label, then its detail.
    pub fn to_string(&self) -> (r: String)
        ensures
            r@ == self.label() + self.detail(),
    {
        let (label, detail) = match self {
            Kind::Database(s) => ("Database error: ", s),
            Kind::Configuration(s) => ("Configuration error: ", s),
            Kind::WorkspaceDetection(s) => ("Workspace detection error: ", s),
            Kind::VectorStore(s) => ("Vector store error: ", s),
            Kind::Http(s) => ("HTTP error: ", s),
            Kind::Embedding(s) => ("Embedding error: ", s),
            Kind::Serialization(s) => ("Serialization error: ", s),
            Kind::NotFound(s) => ("Not found: ", s),
            Kind::InvalidInput(s) => ("Invalid input: ", s),
            Kind::InvalidItemType(s) => ("Invalid item type: ", s),
            Kind::DatabaseError(s) => ("Database error: ", s),
            Kind::Model(s) => ("Model error: ", s),
            Kind::Server(s) => ("Server error: ", s),
            Kind::Transport(s) => ("Transport error: ", s),
        };
        let mut r = String::from_str(label);
        r.append(detail.as_str());
        r
    }

    /// The HTTP status code of the answer to this error.
    pub fn status_code(&self) -> (r: u16)
        ensures
            r == self.status_of(),
    {
        match self {
            Kind::Database(_) => 500,
            Kind::DatabaseError(_) => 500,
            Kind::Configuration(_) => 502,
            Kind::WorkspaceDetection(_) => 502,
            Kind::VectorStore(_) => 500,
            Kind::Http(_) => 400,
            Kind::Embedding(_) => 500,
            Kind::Serialization(_) => 400,
            Kind::NotFound(_) => 404,
            Kind::InvalidInput(_) => 400,
            Kind::InvalidItemType(_) => 400,
            Kind::Model(_) => 500,
            Kind::Server(_) => 500,
            Kind::Transport(_) => 503,
        }
    }

    /// The text of the answer's `error` field: the detail alone.
    pub fn detail_text(&self) -> (r: String)
        ensures
            r@ == self.detail(),
    {
        match self {
            Kind::Database(s) => s.clone(),
            Kind::Configuration(s) => s.clone(),
            Kind::WorkspaceDetection(s) => s.clone(),
            Kind::VectorStore(s) => s.clone(),
            Kind::Http(s) => s.clone(),
            Kind::Embedding(s) => s.clone(),
            Kind::Serialization(s) => s.clone(),
            Kind::NotFound(s) => s.clone(),
            Kind::InvalidInput(s) => s.clone(),
            Kind::InvalidItemType(s) => s.clone(),
            Kind::DatabaseError(s) => s.clone(),
            Kind::Model(s) => s.clone(),
            Kind::Server(s) => s.clone(),
            Kind::Transport(s) => s.clone(),
        }
    }
}

} // verus!
