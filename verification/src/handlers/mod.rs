//! The decisions of the server's request handlers: validation of requests,
//! defaults, the records they create and the responses they give. Reading
//! and writing the database is left to the caller.

pub mod batch;
pub mod batch_tools;
pub mod context;
pub mod custom_data;
pub mod decision;
pub mod history;
pub mod import_export;
pub mod link;
pub mod outcome;
pub mod pattern;
pub mod progress;
pub mod search;
pub mod search_tools;
pub mod system_pattern;
