//! Generic engine for bit-packed records.
//!
//! Every payload record of the protocol is a fixed, ordered list of fields
//! with declared bit widths, serialized most-significant-bit-first, with
//! multi-byte integers in big-endian order.  This module gives that rule once,
//! generically: a [`BitSink`] appends fields bit by bit and packs them into
//! bytes, and [`read_bits`] extracts a field from a byte buffer.  The
//! correspondence between the two sides goes through the spec functions
//! [`bseq`] (the bits a value is written as) and [`bits_value`] (the value a
//! run of bits reads back as).

use vstd::arithmetic::div_mod::{lemma_div_denominator, lemma_fundamental_div_mod};
use vstd::arithmetic::power2::{
    lemma2_to64, lemma2_to64_rest, lemma_pow2_pos, lemma_pow2_strictly_increases,
    lemma_pow2_unfold, pow2,
};
use vstd::prelude::*;

verus! {

/// The `w` bits of `v`, most significant first.
pub open spec fn bseq(v: nat, w: nat) -> Seq<bool>
    decreases w,
{
    if w == 0 {
        Seq::empty()
    } else {
        bseq(v / 2, (w - 1) as nat).push(v % 2 == 1)
    }
}

/// The value of the `w` bits of `s` that start at `off`, most significant
/// first.
pub open spec fn bits_value(s: Seq<bool>, off: int, w: nat) -> nat
    decreases w,
{
    if w == 0 {
        0
    } else {
        bits_value(s, off, (w - 1) as nat) * 2 + (if s[off + w - 1] {
            1nat
        } else {
            0nat
        })
    }
}

/// A byte sequence as a bit sequence, each byte most significant bit first.
pub open spec fn byte_bits(bytes: Seq<u8>) -> Seq<bool> {
    Seq::new(bytes.len() * 8, |i: int| bseq(bytes[i / 8] as nat, 8)[i % 8])
}

/// The unsigned value of the `w`-bit field of `bytes` that starts at bit
/// `off`.  Record contracts are stated with this function.
pub open spec fn field(bytes: Seq<u8>, off: int, w: nat) -> nat {
    bits_value(byte_bits(bytes), off, w)
}

/// A single-bit field as a number.
pub open spec fn b2n(b: bool) -> nat {
    if b {
        1
    } else {
        0
    }
}

pub proof fn lemma_bseq_len(v: nat, w: nat)
    ensures
        bseq(v, w).len() == w,
    decreases w,
{
    if w > 0 {
        lemma_bseq_len(v / 2, (w - 1) as nat);
    }
}

/// A field's value is bounded by its width.
pub proof fn lemma_bits_value_bound(s: Seq<bool>, off: int, w: nat)
    ensures
        bits_value(s, off, w) < pow2(w),
    decreases w,
{
    if w == 0 {
        lemma2_to64();
    } else {
        lemma_bits_value_bound(s, off, (w - 1) as nat);
        lemma_pow2_unfold(w);
    }
}

/// Bits that spell `bseq(v, w)` read back as the value `v`.
pub proof fn lemma_value_of_bseq(s: Seq<bool>, off: int, v: nat, w: nat)
    requires
        v < pow2(w),
        forall|j: int| 0 <= j < w ==> s[off + j] == bseq(v, w)[j],
    ensures
        bits_value(s, off, w) == v,
    decreases w,
{
    lemma_bseq_len(v, w);
    if w == 0 {
        lemma2_to64();
    } else {
        lemma_pow2_unfold(w);
        lemma_fundamental_div_mod(v as int, 2);
        lemma_bseq_len(v / 2, (w - 1) as nat);
        assert forall|j: int| 0 <= j < w - 1 implies #[trigger] s[off + j] == bseq(
            v / 2,
            (w - 1) as nat,
        )[j] by {
            assert(bseq(v, w)[j] == bseq(v / 2, (w - 1) as nat)[j]);
            assert(s[off + j] == bseq(v, w)[j]);
        }
        lemma_value_of_bseq(s, off, v / 2, (w - 1) as nat);
        assert(s[off + w - 1] == bseq(v, w)[w - 1]);
        assert(bseq(v, w)[w - 1] == (v % 2 == 1));
    }
}

/// Within its width, bit `j` of `bseq(v, w)` is bit `w - 1 - j` of `v`.
pub proof fn lemma_bseq_index(v: nat, w: nat, j: int)
    requires
        0 <= j < w,
    ensures
        bseq(v, w)[j] == ((v / pow2((w - 1 - j) as nat)) % 2 == 1),
    decreases w,
{
    lemma_bseq_len(v / 2, (w - 1) as nat);
    if j == w - 1 {
        lemma2_to64();
        lemma_fundamental_div_mod(v as int, 1);
    } else {
        lemma_bseq_index(v / 2, (w - 1) as nat, j);
        lemma_pow2_pos((w - 2 - j) as nat);
        lemma_div_denominator(v as int, 2, pow2((w - 2 - j) as nat) as int);
        lemma_pow2_unfold((w - 1 - j) as nat);
    }
}

/// Appending bits to a sequence leaves every field inside the old part as it
/// was.
pub proof fn lemma_bits_value_append(s: Seq<bool>, t: Seq<bool>, off: int, w: nat)
    requires
        0 <= off,
        off + w <= s.len(),
    ensures
        bits_value(s + t, off, w) == bits_value(s, off, w),
    decreases w,
{
    if w > 0 {
        lemma_bits_value_append(s, t, off, (w - 1) as nat);
        assert((s + t)[off + w - 1] == s[off + w - 1]);
    }
}

/// Quantified form of [`lemma_bits_value_append`], for one proof step per
/// appended field.
pub proof fn lemma_fields_preserved(s: Seq<bool>, t: Seq<bool>)
    ensures
        forall|off: int, w: nat|
            0 <= off && off + w <= s.len() ==> #[trigger] bits_value(s + t, off, w) == bits_value(
                s,
                off,
                w,
            ),
{
    assert forall|off: int, w: nat| 0 <= off && off + w <= s.len() implies #[trigger] bits_value(
        s + t,
        off,
        w,
    ) == bits_value(s, off, w) by {
        lemma_bits_value_append(s, t, off, w);
    }
}

/// Two bit sequences that agree on a field's positions give it the same
/// value.
pub proof fn lemma_bits_value_agree(s1: Seq<bool>, s2: Seq<bool>, off: int, w: nat)
    requires
        0 <= off,
        forall|j: int| off <= j < off + w ==> s1[j] == s2[j],
    ensures
        bits_value(s1, off, w) == bits_value(s2, off, w),
    decreases w,
{
    if w > 0 {
        lemma_bits_value_agree(s1, s2, off, (w - 1) as nat);
        assert(s1[off + w - 1] == s2[off + w - 1]);
    }
}

/// Quantified form of [`lemma_bits_value_agree`] for sequences that agree
/// from position `lo` on.
pub proof fn lemma_fields_agree(s1: Seq<bool>, s2: Seq<bool>, lo: int)
    requires
        0 <= lo,
        s1.len() == s2.len(),
        forall|j: int| lo <= j < s1.len() ==> s1[j] == s2[j],
    ensures
        forall|off: int, w: nat|
            lo <= off && off + w <= s1.len() ==> #[trigger] bits_value(s1, off, w) == bits_value(
                s2,
                off,
                w,
            ),
{
    assert forall|off: int, w: nat| lo <= off && off + w <= s1.len() implies #[trigger] bits_value(
        s1,
        off,
        w,
    ) == bits_value(s2, off, w) by {
        lemma_bits_value_agree(s1, s2, off, w);
    }
}

/// A field freshly appended to `s` reads back as the value it was written
/// from.
pub proof fn lemma_bits_value_at_end(s: Seq<bool>, v: nat, w: nat)
    requires
        v < pow2(w),
    ensures
        bits_value(s + bseq(v, w), s.len() as int, w) == v,
{
    lemma_bseq_len(v, w);
    assert(forall|j: int| 0 <= j < w ==> (s + bseq(v, w))[s.len() + j] == bseq(v, w)[j]);
    lemma_value_of_bseq(s + bseq(v, w), s.len() as int, v, w);
}

/// `pow2(e)` for a bit position within a byte.
fn pow2_u8(e: usize) -> (r: u8)
    requires
        e < 8,
    ensures
        r as nat == pow2(e as nat),
{
    proof {
        lemma2_to64();
    }
    if e == 0 {
        1
    } else if e == 1 {
        2
    } else if e == 2 {
        4
    } else if e == 3 {
        8
    } else if e == 4 {
        16
    } else if e == 5 {
        32
    } else if e == 6 {
        64
    } else {
        128
    }
}

/// Bit `i` of a byte buffer, in most-significant-bit-first order.
fn get_bit(data: &[u8], i: usize) -> (b: bool)
    requires
        i < data@.len() * 8,
    ensures
        b == byte_bits(data@)[i as int],
{
    let byte = data[i / 8];
    let m = i % 8;
    let p = pow2_u8(7 - m);
    proof {
        lemma_pow2_pos((7 - m) as nat);
        lemma_bseq_index(byte as nat, 8, m as int);
    }
    (byte / p) % 2 == 1
}

/// Read the `w`-bit field that starts at bit `off` of `data`.
pub fn read_bits(data: &[u8], off: usize, w: usize) -> (r: u64)
    requires
        off + w <= data@.len() * 8,
        data@.len() * 8 <= usize::MAX,
        w <= 64,
    ensures
        r as nat == field(data@, off as int, w as nat),
        (r as nat) < pow2(w as nat),
    decreases w,
{
    proof {
        lemma_bits_value_bound(byte_bits(data@), off as int, w as nat);
    }
    if w == 0 {
        0
    } else {
        let hi = read_bits(data, off, w - 1);
        let b = get_bit(data, off + w - 1);
        proof {
            if ((w - 1) as nat) < 63 {
                lemma_pow2_strictly_increases((w - 1) as nat, 63);
            }
            lemma2_to64();
            lemma2_to64_rest();
        }
        hi * 2 + (if b {
            1
        } else {
            0
        })
    }
}

/// Collects the bit-serialized form of a record, field by field, and packs it
/// into bytes.
pub struct BitSink {
    bits: Vec<bool>,
}

impl View for BitSink {
    type V = Seq<bool>;

    closed spec fn view(&self) -> Seq<bool> {
        self.bits@
    }
}

impl BitSink {
    pub fn new() -> (s: Self)
        ensures
            s@ == Seq::<bool>::empty(),
    {
        BitSink { bits: Vec::new() }
    }

    /// Append the `w`-bit field `v`, most significant bit first.  The new
    /// field reads back as `v`, and every field inside the old contents keeps
    /// its value.
    pub fn push_bits(&mut self, v: u64, w: usize)
        requires
            w <= 64,
            (v as nat) < pow2(w as nat),
        ensures
            final(self)@ == old(self)@ + bseq(v as nat, w as nat),
            final(self)@.len() == old(self)@.len() + w,
            bits_value(final(self)@, old(self)@.len() as int, w as nat) == v as nat,
            forall|off: int, w2: nat|
                0 <= off && off + w2 <= old(self)@.len() ==> #[trigger] bits_value(
                    final(self)@,
                    off,
                    w2,
                ) == bits_value(old(self)@, off, w2),
    {
        self.push_bits_rec(v, w);
        proof {
            lemma_bseq_len(v as nat, w as nat);
            lemma_bits_value_at_end(old(self)@, v as nat, w as nat);
            lemma_fields_preserved(old(self)@, bseq(v as nat, w as nat));
        }
    }

    fn push_bits_rec(&mut self, v: u64, w: usize)
        requires
            w <= 64,
            (v as nat) < pow2(w as nat),
        ensures
            final(self)@ == old(self)@ + bseq(v as nat, w as nat),
        decreases w,
    {
        if w == 0 {
            proof {
                assert(old(self)@ + bseq(v as nat, 0) =~= old(self)@);
            }
        } else {
            proof {
                lemma_pow2_unfold(w as nat);
                lemma_fundamental_div_mod(v as int, 2);
            }
            self.push_bits_rec(v / 2, w - 1);
            self.bits.push(v % 2 == 1);
            proof {
                assert(old(self)@ + bseq(v as nat, w as nat) =~= (old(self)@ + bseq(
                    (v / 2) as nat,
                    (w - 1) as nat,
                )).push(v as nat % 2 == 1));
            }
        }
    }

    /// Append a single-bit boolean field.
    pub fn push_flag(&mut self, b: bool)
        ensures
            final(self)@ == old(self)@ + bseq(b2n(b), 1),
            final(self)@.len() == old(self)@.len() + 1,
            bits_value(final(self)@, old(self)@.len() as int, 1) == b2n(b),
            forall|off: int, w2: nat|
                0 <= off && off + w2 <= old(self)@.len() ==> #[trigger] bits_value(
                    final(self)@,
                    off,
                    w2,
                ) == bits_value(old(self)@, off, w2),
    {
        proof {
            lemma2_to64();
        }
        if b {
            self.push_bits(1, 1);
        } else {
            self.push_bits(0, 1);
        }
    }

    /// Pack the accumulated bits into bytes; the bit count must be a multiple
    /// of eight.
    pub fn finish(&self) -> (out: Vec<u8>)
        requires
            self@.len() % 8 == 0,
        ensures
            out@.len() * 8 == self@.len(),
            byte_bits(out@) == self@,
    {
        let len0 = self.bits.len();
        let n = len0 / 8;
        proof {
            lemma_fundamental_div_mod(len0 as int, 8);
        }
        let mut out: Vec<u8> = Vec::new();
        let mut k: usize = 0;
        while k < n
            invariant
                8 * n == self@.len(),
                self@.len() == len0,
                out@.len() == k,
                k <= n,
                forall|q: int|
                    0 <= q < k ==> bseq(#[trigger] out@[q] as nat, 8) == self@.subrange(
                        8 * q,
                        8 * q + 8,
                    ),
            decreases n - k,
        {
            let mut acc: u8 = 0;
            let mut m: usize = 0;
            proof {
                assert(bseq(0nat, 0) =~= self@.subrange(8 * k as int, 8 * k as int));
                lemma2_to64();
            }
            while m < 8
                invariant
                    m <= 8,
                    k < n,
                    8 * n == self@.len(),
                    self@.len() == len0,
                    (acc as nat) < pow2(m as nat),
                    bseq(acc as nat, m as nat) == self@.subrange(8 * k as int, 8 * k + m),
                decreases 8 - m,
            {
                let b = self.bits[8 * k + m];
                let acc2: u8 = {
                    proof {
                        lemma2_to64();
                        if (m as nat) < 7 {
                            lemma_pow2_strictly_increases(m as nat, 7);
                        }
                    }
                    acc * 2 + (if b {
                        1
                    } else {
                        0
                    })
                };
                proof {
                    lemma_fundamental_div_mod(acc2 as int, 2);
                    lemma_pow2_unfold((m + 1) as nat);
                    lemma_bseq_len(acc as nat, m as nat);
                    assert(acc2 as nat / 2 == acc as nat);
                    assert(bseq(acc2 as nat, (m + 1) as nat) =~= bseq(acc as nat, m as nat).push(
                        self@[8 * k + m],
                    ));
                    assert(self@.subrange(8 * k as int, 8 * k + m + 1) =~= self@.subrange(
                        8 * k as int,
                        8 * k + m,
                    ).push(self@[8 * k + m]));
                }
                acc = acc2;
                m = m + 1;
            }
            out.push(acc);
            k = k + 1;
        }
        proof {
            assert forall|i: int| 0 <= i < 8 * n implies byte_bits(out@)[i] == self@[i] by {
                lemma_fundamental_div_mod(i, 8);
                lemma_bseq_len(out@[i / 8] as nat, 8);
                assert(bseq(out@[i / 8] as nat, 8) == self@.subrange(8 * (i / 8), 8 * (i / 8) + 8));
                assert(self@.subrange(8 * (i / 8), 8 * (i / 8) + 8)[i % 8] == self@[i]);
            }
            assert(byte_bits(out@) =~= self@);
        }
        out
    }
}

} // verus!
