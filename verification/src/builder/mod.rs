//! Composition of a connection: the provider interfaces, the shared
//! context, the per-kind handles and the start-up protocol.

pub mod builder;
pub mod close_code;
pub mod context;
pub mod empty_realisations;
pub mod kind_conn;
