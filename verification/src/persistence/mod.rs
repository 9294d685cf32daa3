//! Storage: the statements and row conversions of the database operations,
//! the schema and its migrations, workspace connections, vector metadata and
//! the preparation of full-text queries.

pub mod migration;
pub mod operations;
pub mod statements;
pub mod vector;
pub mod workspace;
