//! A typed facade over opaque transports.
//!
//! Two independent parts share one idea. [`provider::Provider`] turns a
//! host's untyped request bridge into a typed JSON-RPC exchange, and
//! [`api::Api`] is a chain client that exists only once the chain's metadata,
//! genesis hash and runtime version are known.
//!
//! Neither part performs I/O. Each says which call has to be made and what
//! follows from the answer; the caller owns the bridge and the network.

pub mod chain;
pub mod provider;
pub mod api;
pub mod laws;
