//! Query preparation for SQLite full-text search and SQL filter building.

pub mod normalize;
pub mod filter;
