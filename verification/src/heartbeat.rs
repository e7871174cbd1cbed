//! Heartbeat status message (id 0x00).

use crate::bits::{b2n, field, read_bits, BitSink};
use crate::error::GDL90Error;
use vstd::arithmetic::power2::lemma2_to64;
use vstd::prelude::*;

verus! {

/// Heartbeat status record: sixteen single-bit flags, a 16-bit timestamp
/// field and a 16-bit message count, packed into six bytes.
#[derive(Debug, Default, PartialEq)]
pub struct HeartBeat {
    pub gps_pos_valid: bool,
    pub maint_req: bool,
    pub ident: bool,
    pub addr_type: bool,
    pub gps_batt_low: bool,
    pub ratcs: bool,
    pub reserved1: bool,
    pub uat_initialized: bool,
    pub time_stamp_msb: bool,
    pub csa_requested: bool,
    pub csa_not_available: bool,
    pub reserved2: bool,
    pub reserved3: bool,
    pub reserved4: bool,
    pub reserved5: bool,
    pub utc_ok: bool,
    pub time_stamp: u16,
    pub message_counts: u16,
}

/// A 16-bit value with its two bytes exchanged.
pub open spec fn swap16(x: u16) -> u16 {
    ((x % 256) * 256 + x / 256) as u16
}

/// Exchange the two bytes of a 16-bit value.
pub fn swap_bytes16(x: u16) -> (r: u16)
    ensures
        r == swap16(x),
{
    (x % 256) * 256 + x / 256
}

impl HeartBeat {
    /// `b` is the six-byte packed form of `self`.
    pub open spec fn wire_form(self, b: Seq<u8>) -> bool {
        &&& b.len() == 6
        &&& b2n(self.gps_pos_valid) == field(b, 0, 1)
        &&& b2n(self.maint_req) == field(b, 1, 1)
        &&& b2n(self.ident) == field(b, 2, 1)
        &&& b2n(self.addr_type) == field(b, 3, 1)
        &&& b2n(self.gps_batt_low) == field(b, 4, 1)
        &&& b2n(self.ratcs) == field(b, 5, 1)
        &&& b2n(self.reserved1) == field(b, 6, 1)
        &&& b2n(self.uat_initialized) == field(b, 7, 1)
        &&& b2n(self.time_stamp_msb) == field(b, 8, 1)
        &&& b2n(self.csa_requested) == field(b, 9, 1)
        &&& b2n(self.csa_not_available) == field(b, 10, 1)
        &&& b2n(self.reserved2) == field(b, 11, 1)
        &&& b2n(self.reserved3) == field(b, 12, 1)
        &&& b2n(self.reserved4) == field(b, 13, 1)
        &&& b2n(self.reserved5) == field(b, 14, 1)
        &&& b2n(self.utc_ok) == field(b, 15, 1)
        &&& self.time_stamp == field(b, 16, 16)
        &&& self.message_counts == field(b, 32, 16)
    }

    /// Every field of a heartbeat fits its declared width as it stands.
    pub open spec fn wf(self) -> bool {
        true
    }

    /// Pack the record into its six-byte wire form.
    pub fn to_bytes(&self) -> (r: Result<Vec<u8>, GDL90Error>)
        ensures
            r matches Ok(v) && self.wire_form(v@),
    {
        proof {
            lemma2_to64();
        }
        let mut s = BitSink::new();
        s.push_flag(self.gps_pos_valid);
        s.push_flag(self.maint_req);
        s.push_flag(self.ident);
        s.push_flag(self.addr_type);
        s.push_flag(self.gps_batt_low);
        s.push_flag(self.ratcs);
        s.push_flag(self.reserved1);
        s.push_flag(self.uat_initialized);
        s.push_flag(self.time_stamp_msb);
        s.push_flag(self.csa_requested);
        s.push_flag(self.csa_not_available);
        s.push_flag(self.reserved2);
        s.push_flag(self.reserved3);
        s.push_flag(self.reserved4);
        s.push_flag(self.reserved5);
        s.push_flag(self.utc_ok);
        s.push_bits(self.time_stamp as u64, 16);
        s.push_bits(self.message_counts as u64, 16);
        Ok(s.finish())
    }

    /// Unpack a six-byte buffer; a shorter one is incomplete, a longer one is
    /// rejected.
    pub fn try_from(data: &[u8]) -> (r: Result<HeartBeat, GDL90Error>)
        ensures
            data@.len() == 6 ==> (r matches Ok(h) && h.wire_form(data@)),
            data@.len() < 6 ==> (r matches Err(GDL90Error::Incomplete(n)) && n == 48 - data@.len()
                * 8),
            data@.len() > 6 ==> (r matches Err(GDL90Error::Parse(_))),
    {
        if data.len() < 6 {
            Err(GDL90Error::Incomplete(48 - data.len() * 8))
        } else if data.len() > 6 {
            Err(GDL90Error::Parse("more bytes than the record declares"))
        } else {
            proof {
                lemma2_to64();
            }
            Ok(
                HeartBeat {
                    gps_pos_valid: read_bits(data, 0, 1) == 1,
                    maint_req: read_bits(data, 1, 1) == 1,
                    ident: read_bits(data, 2, 1) == 1,
                    addr_type: read_bits(data, 3, 1) == 1,
                    gps_batt_low: read_bits(data, 4, 1) == 1,
                    ratcs: read_bits(data, 5, 1) == 1,
                    reserved1: read_bits(data, 6, 1) == 1,
                    uat_initialized: read_bits(data, 7, 1) == 1,
                    time_stamp_msb: read_bits(data, 8, 1) == 1,
                    csa_requested: read_bits(data, 9, 1) == 1,
                    csa_not_available: read_bits(data, 10, 1) == 1,
                    reserved2: read_bits(data, 11, 1) == 1,
                    reserved3: read_bits(data, 12, 1) == 1,
                    reserved4: read_bits(data, 13, 1) == 1,
                    reserved5: read_bits(data, 14, 1) == 1,
                    utc_ok: read_bits(data, 15, 1) == 1,
                    time_stamp: read_bits(data, 16, 16) as u16,
                    message_counts: read_bits(data, 32, 16) as u16,
                },
            )
        }
    }

    /// The timestamp the record carries.  When the flag holding the
    /// timestamp's 17th bit is set the stored 16 bits are taken as they are
    /// under that bit; otherwise they are byte-swapped.  The setter always
    /// byte-swaps; the asymmetry is part of the observed wire behaviour and
    /// is kept bit-exactly.
    pub open spec fn spec_time_stamp(self) -> u32 {
        if self.time_stamp_msb {
            (0x20000u32 | self.time_stamp as u32)
        } else {
            swap16(self.time_stamp) as u32
        }
    }

    pub fn get_time_stamp(&self) -> (r: u32)
        ensures
            r == self.spec_time_stamp(),
    {
        if self.time_stamp_msb {
            0x20000u32 | (self.time_stamp as u32)
        } else {
            swap_bytes16(self.time_stamp) as u32
        }
    }

    /// Store a timestamp: the 17th bit goes to its flag, the low 16 bits are
    /// byte-swapped into the timestamp field.
    pub fn set_time_stamp(&mut self, value: u32)
        ensures
            final(self).time_stamp_msb == (value & 0x20000 != 0),
            final(self).time_stamp == swap16((value % 0x10000) as u16),
            *final(self) == (HeartBeat {
                time_stamp_msb: final(self).time_stamp_msb,
                time_stamp: final(self).time_stamp,
                ..*old(self)
            }),
    {
        self.time_stamp_msb = (value & 0x20000) != 0;
        self.time_stamp = swap_bytes16((value % 0x10000) as u16);
    }
}

} // verus!
