//! A minimal framework for a node in a decentralized messaging network:
//! identity types resolved through pluggable DID methods, a transport that
//! turns an identity into a reachable address (a ticket) and opens sessions
//! over it, and a namespaced key-value store for local node state.

pub mod b64;
pub mod did;
pub mod did_key;
pub mod errs;
pub mod inbox;
pub mod json;
pub mod node;
pub mod store;
pub mod store_mem;
pub mod strutil;
pub mod transport;
pub mod transport_http;
pub mod types;
