//! A typed client for the cw721 token-contract interface.
//!
//! The client wraps a contract address and builds the canonical JSON
//! payloads for the contract's execute and query entry points.  Queries are
//! issued through a caller-supplied [`helpers::Transport`] capability and the
//! replies are decoded into typed response records.

pub mod codec;
pub mod helpers;
pub mod json;
pub mod msg;
pub mod response;
