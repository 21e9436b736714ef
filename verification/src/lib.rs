//! Memory introspection and edge-triggered state detection for a timer that
//! lives in another process.
//!
//! The crate never touches the other process itself. The host hands it what a
//! signature scan or a byte copy returned, and the crate decides what the
//! snapshot pair becomes and which lifecycle predicates fire.

pub mod memory;
pub mod registry;
pub mod schema;
pub mod snapshot;
pub mod timer;
