//! A running transcript hash for a handshake: raw bytes are buffered until the
//! digest algorithm is known, then hashed incrementally, with an optional
//! retained copy of the transcript for client authentication.

pub mod digest;
pub mod message;
pub mod transcript;
pub mod laws;
