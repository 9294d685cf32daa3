//! Configuration: command-line options, environment settings, log levels and
//! the database location.

pub mod cli;
pub mod database_path;
pub mod env_vars;
pub mod environment;
pub mod logging;
