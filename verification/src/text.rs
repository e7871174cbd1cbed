//! Null-terminated fixed-width text fields.
//!
//! Name fields are fixed-length byte arrays read as text up to the first zero
//! byte (or the whole field when none is present).  The raw bytes stay the
//! source of truth; these accessors are read-only views whose own failure
//! mode is an invalid byte sequence.

use vstd::prelude::*;
use vstd::utf8::{decode_utf8, valid_utf8};

verus! {

/// `std::str::Utf8Error`: what a text accessor reports when a name field
/// does not hold valid UTF-8.
#[verifier::external_type_specification]
#[verifier::external_body]
pub struct ExUtf8Error(std::str::Utf8Error);

/// Relies on `std::str::from_utf8`: it returns `Ok` exactly on valid UTF-8,
/// and the resulting string's characters are the bytes' decoding.
#[verifier::external_body]
pub fn utf8_from_bytes(bytes: &[u8]) -> (r: Result<&str, std::str::Utf8Error>)
    ensures
        match r {
            Ok(s) => valid_utf8(bytes@) && s@ == decode_utf8(bytes@),
            Err(_) => !valid_utf8(bytes@),
        },
{
    std::str::from_utf8(bytes)
}

/// The index of the first zero byte, or the length when none is present.
pub open spec fn first_zero(s: Seq<u8>) -> int
    decreases s.len(),
{
    if s.len() == 0 {
        0
    } else if s[0] == 0 {
        0
    } else {
        1 + first_zero(s.drop_first())
    }
}

/// The text prefix of a name field: everything before its first zero byte.
pub open spec fn name_prefix(s: Seq<u8>) -> Seq<u8> {
    s.subrange(0, first_zero(s))
}

pub proof fn lemma_first_zero(s: Seq<u8>)
    ensures
        0 <= first_zero(s) <= s.len(),
        first_zero(s) < s.len() ==> s[first_zero(s)] == 0,
        forall|j: int| 0 <= j < first_zero(s) ==> s[j] != 0,
    decreases s.len(),
{
    if s.len() > 0 && s[0] != 0 {
        lemma_first_zero(s.drop_first());
        assert forall|j: int| 0 <= j < first_zero(s) implies s[j] != 0 by {
            if j > 0 {
                assert(s.drop_first()[j - 1] != 0);
            }
        }
    }
}

/// The field's text up to its first zero byte, as an owned string.
pub fn str_prefix(bytes: &[u8]) -> (r: Result<String, std::str::Utf8Error>)
    ensures
        match r {
            Ok(out) => valid_utf8(name_prefix(bytes@)) && out@ == decode_utf8(name_prefix(bytes@)),
            Err(_) => !valid_utf8(name_prefix(bytes@)),
        },
{
    proof {
        lemma_first_zero(bytes@);
    }
    let mut end: usize = bytes.len();
    let mut i: usize = 0;
    while i < bytes.len() && end == bytes.len()
        invariant
            i <= bytes@.len(),
            end <= bytes@.len(),
            end == bytes@.len() ==> forall|j: int| 0 <= j < i ==> bytes@[j] != 0,
            end < bytes@.len() ==> bytes@[end as int] == 0 && (forall|j: int|
                0 <= j < end ==> bytes@[j] != 0),
        decreases bytes@.len() - i,
    {
        if bytes[i] == 0 {
            end = i;
        }
        i = i + 1;
    }
    proof {
        assert(end == first_zero(bytes@));
    }
    let mut prefix: Vec<u8> = Vec::new();
    let mut k: usize = 0;
    while k < end
        invariant
            k <= end,
            end <= bytes@.len(),
            prefix@ == bytes@.subrange(0, k as int),
        decreases end - k,
    {
        prefix.push(bytes[k]);
        proof {
            assert(bytes@.subrange(0, k as int).push(bytes@[k as int]) =~= bytes@.subrange(
                0,
                k + 1,
            ));
        }
        k = k + 1;
    }
    match utf8_from_bytes(prefix.as_slice()) {
        Ok(s) => Ok(s.to_owned()),
        Err(e) => Err(e),
    }
}

} // verus!
