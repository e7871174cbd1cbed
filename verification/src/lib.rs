//! Codec for the GDL90 avionics messaging protocol.
//!
//! A wire frame is a flag byte `0x7E`, then the escaped body (message id,
//! payload bytes and a little-endian CRC16 checksum), then the closing flag
//! byte.  Payloads are densely bit-packed records; the [`bits`] module holds
//! the generic most-significant-bit-first packing engine that every record
//! type is encoded and decoded with, together with its correctness lemmas.

pub mod bits;
pub mod error;
pub mod extended;
pub mod geometric;
pub mod heartbeat;
pub mod message;
pub mod payload;
pub mod report;
pub mod text;
