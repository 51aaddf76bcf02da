//! Verified core of a key-value service: decoded commands are routed to the
//! handler for their variant, executed against a pluggable storage backend,
//! and answered with exactly one structured response.
//!
//! The modules, leaves first:
//! - [`types`]: the command and response values the core exchanges with its
//!   transport.
//! - [`model`]: the mathematical model — a store as a map from table name to
//!   a map from key to value — and the specification of every operation.
//! - [`storage`]: the capability contract any backend must satisfy.
//! - [`memory`]: the reference in-memory backend, verified against that
//!   contract.
//! - [`service`]: handlers, the dispatcher, and the outward-facing service.
//! - [`laws`]: proved statements relating the operations to one another.

pub mod laws;
pub mod memory;
pub mod model;
pub mod service;
pub mod storage;
pub mod types;
