//! IPC: protocol records, length-prefixed framing and frame reading.

pub mod buffer;
pub mod codec;
pub mod protocol;
pub mod transport;
