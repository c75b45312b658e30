//! A controller for `Echo` objects: a finalizer-gated state machine that
//! converges each object's deployment and service, or tears them down in
//! order, plus the per-key work queue and the requeue policy around it.
//! The store calls themselves are made by the caller, one `Command` at a
//! time; `MemoryStore` runs the same sessions in memory.

pub mod controller;
pub mod crd;
pub mod error;
pub mod finalizer;
pub mod http_echo;
pub mod laws;
pub mod resource;
pub mod scheduler;
pub mod store;
