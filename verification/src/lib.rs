//! Client-side core of a confidential blockchain runtime.
//!
//! The crate holds the rules of the client and leaves every transport to its
//! embedder: block headers and their chain linkage, the call and output
//! envelopes, the single-flight block watcher, the snapshot views and the
//! requests and replies of the node's RPC surface.

pub mod api;
pub mod block_watcher;
pub mod bytes;
pub mod cbor;
pub mod client;
pub mod error;
pub mod futures;
pub mod hash;
pub mod header;
pub mod keyvalue;
pub mod snapshot;
pub mod types;
