//! Rendezvous hand-off: the single-slot pool and its keyed variant.
//!
//! Both are written as step functions over plain state. A step never waits:
//! it either makes progress or says that the caller has to come back later,
//! which leaves the waiting itself to whoever drives the state.

pub mod kind_pool;
pub mod pool;
