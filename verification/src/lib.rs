//! ConPort: the context portal for AI assistants. This library holds the
//! verified core of the server: argument validation, coercion of loosely typed
//! input, full-text query preparation, SQL filter building, Markdown export and
//! import, schemas and error reporting.

use vstd::prelude::*;

pub mod text;
pub mod clock;
pub mod json;
pub mod types;
pub mod args;
pub mod query;
pub mod markdown;
pub mod error;
pub mod config;
pub mod protocol;
pub mod handlers;
pub mod persistence;
pub mod embedding;
pub mod server;
pub mod detector;

verus! {

} // verus!
