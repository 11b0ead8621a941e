//! Memory-level building blocks: byte buffers, the frame codec and the
//! incremental deframer.

pub mod buffer;
pub mod bytes_buf;
pub mod endian;
pub mod frame;
