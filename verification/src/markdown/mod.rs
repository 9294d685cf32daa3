//! Markdown export and import of contexts, decisions and progress entries.

pub mod context_stamps;
pub mod decision_fields;
pub mod export;
pub mod import;
pub mod progress_list;
pub mod roundtrip;
pub mod scan;
