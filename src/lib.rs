//! Request/response layer of a client for a remote ordered key-value store.
//!
//! The library builds the resource path, the query pairs and the JSON body of
//! each operation, and turns the outcome of an exchange into a typed result.
//! Sending the request and decoding JSON payloads into typed values is done
//! by the caller.

pub mod decimal;
pub mod path;
pub mod params;
pub mod query;
pub mod body;
pub mod response;
pub mod request;
