//! Environment variable names constant

use vstd::prelude::*;

verus! {

/// Workspace identifier
pub const CONPORT_WORKSPACE: &'static str = "CONPORT_WORKSPACE";

/// Logging level (trace, debug, info, warn, error)
pub const CONPORT_LOG_LEVEL: &'static str = "CONPORT_LOG_LEVEL";

/// Custom database path
pub const CONPORT_DATABASE_PATH: &'static str = "CONPORT_DATABASE_PATH";

/// Server port
pub const CONPORT_PORT: &'static str = "CONPORT_PORT";

/// Server host
pub const CONPORT_HOST: &'static str = "CONPORT_HOST";

/// Maximum database connections
pub const CONPORT_MAX_CONNECTIONS: &'static str = "CONPORT_MAX_CONNECTIONS";

/// Enable vector store (true/false)
pub const CONPORT_VECTOR_STORE_ENABLED: &'static str = "CONPORT_VECTOR_STORE_ENABLED";

/// Vector store path
pub const CONPORT_VECTOR_STORE_PATH: &'static str = "CONPORT_VECTOR_STORE_PATH";

} // verus!
