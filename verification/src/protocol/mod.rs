//! The JSON-RPC protocol of the server: requests, responses and error codes.

pub mod request;
pub mod response;
