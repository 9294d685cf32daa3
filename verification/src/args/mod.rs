//! Tool argument and record types of the MCP tool surface, with their
//! validation rules and schemas.

pub mod int_coercion;
pub mod context;
pub mod decision;
pub mod history;
pub mod progress;
pub mod schema;
