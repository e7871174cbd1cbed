//! The codec's failure conditions.

use vstd::prelude::*;

verus! {

/// Every failure the codec can surface.  Transport-level conditions
/// ([`GDL90Error::EmptyData`], [`GDL90Error::IncorrectlyFormatted`],
/// [`GDL90Error::ChecksumMismatch`]) come from frame decoding; the remaining
/// variants are the packing-layer taxonomy that record decoding reports.
#[derive(Debug)]
pub enum GDL90Error {
    /// A record declared more bits than the payload held; carries the number
    /// of missing bits.
    Incomplete(usize),
    /// Parsing failed, with a description.
    Parse(&'static str),
    /// A field value does not fit its declared bit width.
    InvalidParam(&'static str),
    /// A structural assertion on the data failed, with a description.
    Assertion(&'static str),
    /// A structural assertion on the data failed.
    AssertionNoStr,
    /// A variant selector could not be resolved.
    IdVariantNotFound,
    /// An underlying input or output failure; the codec itself works on
    /// in-memory buffers only and never produces this.
    Io,
    /// A condition not otherwise classified.
    UnknownError(&'static str),
    /// Decode was called on a zero-length buffer.
    EmptyData,
    /// Missing or mismatched flag bytes, a dangling escape marker, or fewer
    /// than three unescaped interior bytes.
    IncorrectlyFormatted,
    /// The checksum computed over the received bytes differs from the claimed
    /// one; carries the computed, then the claimed value.
    ChecksumMismatch(u16, u16),
}

} // verus!
