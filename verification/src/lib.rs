//! Multiplexed, length-prefixed framing over a byte stream, with the
//! rendezvous hand-off rules that pace producers and consumers.

pub mod builder;
pub mod discovery;
pub mod mem;
pub mod providers;
pub mod sync;
pub mod transport;
