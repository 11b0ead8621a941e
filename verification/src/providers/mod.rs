//! Stages that ship with the library.

pub mod default_ping_provider;
