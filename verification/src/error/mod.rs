//! Error kinds, their codes and messages, and the error responses and
//! contexts that report them.

pub mod context;
pub mod kind;
pub mod status;
