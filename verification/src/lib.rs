//! Conversion between a modern 32-byte public-key-hash address and the
//! legacy 81-tryte balanced-ternary migration address format, with a
//! hash-based integrity binding embedded in the encoding and a 9-tryte
//! sponge-hash checksum appended to the exchanged form.

pub mod address;
pub mod primitives;
pub mod ternary;

pub use address::DecodeError;
pub use address::ModernAddress;
pub use ternary::TernaryBuffer;
