//! Application-level core of an SSH agent for hardware-backed keys: the
//! registration-blob codec, the in-memory identity registry, and the
//! converter from DER-encoded ECDSA signatures to SSH signature blobs.

pub mod agent;
pub mod codec;
pub mod der;
pub mod errors;
pub mod registry;
pub mod sign;
pub mod wire;
