//! The decisions of a framed transport endpoint.
//!
//! The socket itself, and the waiting for it, are outside this library. What
//! is here says, for every thing the socket can report, what the endpoint's
//! workers do next.

pub mod conn;
pub mod listener;
