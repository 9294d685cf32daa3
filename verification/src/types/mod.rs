//! Entity and argument types with their validation and coercion rules.

pub mod coerce;
pub mod filter;
pub mod context_link;
pub mod custom_data;
pub mod system_pattern;
pub mod records;
