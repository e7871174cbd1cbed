//! Extended vendor message family (id 0x65).
//!
//! The payload's first byte selects a sub-message layout.  Unlike the outer
//! message registry, this inner catalog is closed: an unrecognized sub-id is
//! an error, not a passthrough.

use crate::bits::{
    bseq, byte_bits, field, lemma_fields_agree, lemma_value_of_bseq, read_bits, BitSink,
};
use crate::error::GDL90Error;
use crate::text::{name_prefix, str_prefix};
use vstd::arithmetic::div_mod::lemma_fundamental_div_mod;
use vstd::arithmetic::power2::{lemma2_to64, lemma2_to64_rest};
use vstd::prelude::*;
use vstd::utf8::{decode_utf8, valid_utf8};

verus! {

/// Sub-id of the identification record.
pub const ID_SUB_ID: u8 = 0;

/// Sub-id of the attitude and heading reference record.
pub const AHRS_SUB_ID: u8 = 1;

/// Device identification record (sub-id 0x00), packed into 38 bytes.
#[derive(Debug, Default, PartialEq)]
pub struct IDMessage {
    pub sub_id: u8,
    pub version: u8,
    pub device_serial_number: u64,
    pub device_name: [u8; 8],
    pub device_long_name: [u8; 16],
    pub geometric_altitude_datum: u8,
    pub internet_policy: u8,
    pub unused: u32,
}

/// Attitude and heading reference record (sub-id 0x01), packed into 11
/// bytes.
#[derive(Debug, Default, PartialEq)]
pub struct AHRS {
    pub sub_id: u8,
    pub roll: i16,
    pub pitch: i16,
    pub heading_type: u8,
    pub heading: u16,
    pub indicated_airspeed: u16,
    pub true_airspeed: u16,
}

/// The two's-complement 16-bit wire form of a signed value.
pub open spec fn i16_bits(v: i16) -> u16 {
    if v >= 0 {
        v as u16
    } else {
        (v + 0x10000) as u16
    }
}

fn to_u16(v: i16) -> (r: u16)
    ensures
        r == i16_bits(v),
{
    if v >= 0 {
        v as u16
    } else {
        ((v as i32) + 0x10000) as u16
    }
}

fn to_i16(v: u16) -> (r: i16)
    ensures
        i16_bits(r) == v,
{
    if v < 0x8000 {
        v as i16
    } else {
        ((v as i32) - 0x10000) as i16
    }
}

/// Overwriting the first byte of a buffer sets the leading 8-bit field and
/// leaves every field after it unchanged.
proof fn lemma_set_first_byte(b: Seq<u8>, x: u8)
    requires
        b.len() >= 1,
    ensures
        field(b.update(0, x), 0, 8) == x,
        forall|off: int, w: nat|
            8 <= off && off + w <= b.len() * 8 ==> #[trigger] field(b.update(0, x), off, w)
                == field(b, off, w),
{
    let b2 = b.update(0, x);
    assert forall|j: int| 8 <= j < b.len() * 8 implies byte_bits(b2)[j] == byte_bits(b)[j] by {
        lemma_fundamental_div_mod(j, 8);
        assert(j / 8 >= 1);
        assert(b2[j / 8] == b[j / 8]);
    }
    lemma_fields_agree(byte_bits(b2), byte_bits(b), 8);
    lemma2_to64();
    assert forall|j: int| 0 <= j < 8 implies byte_bits(b2)[j] == bseq(x as nat, 8)[j] by {
        assert(j / 8 == 0 && j % 8 == j);
    }
    lemma_value_of_bseq(byte_bits(b2), 0, x as nat, 8);
}

impl IDMessage {
    /// `b` is the 38-byte packed form of `self`.
    pub open spec fn wire_form(self, b: Seq<u8>) -> bool {
        &&& b.len() == 38
        &&& self.sub_id == field(b, 0, 8)
        &&& self.version == field(b, 8, 8)
        &&& self.device_serial_number == field(b, 16, 64)
        &&& self.device_name@[0] == field(b, 80, 8)
        &&& self.device_name@[1] == field(b, 88, 8)
        &&& self.device_name@[2] == field(b, 96, 8)
        &&& self.device_name@[3] == field(b, 104, 8)
        &&& self.device_name@[4] == field(b, 112, 8)
        &&& self.device_name@[5] == field(b, 120, 8)
        &&& self.device_name@[6] == field(b, 128, 8)
        &&& self.device_name@[7] == field(b, 136, 8)
        &&& self.device_long_name@[0] == field(b, 144, 8)
        &&& self.device_long_name@[1] == field(b, 152, 8)
        &&& self.device_long_name@[2] == field(b, 160, 8)
        &&& self.device_long_name@[3] == field(b, 168, 8)
        &&& self.device_long_name@[4] == field(b, 176, 8)
        &&& self.device_long_name@[5] == field(b, 184, 8)
        &&& self.device_long_name@[6] == field(b, 192, 8)
        &&& self.device_long_name@[7] == field(b, 200, 8)
        &&& self.device_long_name@[8] == field(b, 208, 8)
        &&& self.device_long_name@[9] == field(b, 216, 8)
        &&& self.device_long_name@[10] == field(b, 224, 8)
        &&& self.device_long_name@[11] == field(b, 232, 8)
        &&& self.device_long_name@[12] == field(b, 240, 8)
        &&& self.device_long_name@[13] == field(b, 248, 8)
        &&& self.device_long_name@[14] == field(b, 256, 8)
        &&& self.device_long_name@[15] == field(b, 264, 8)
        &&& self.geometric_altitude_datum == field(b, 272, 1)
        &&& self.internet_policy == field(b, 273, 2)
        &&& self.unused == field(b, 275, 29)
    }

    /// Every field fits its declared bit width.
    pub open spec fn wf(self) -> bool {
        &&& self.geometric_altitude_datum < 2
        &&& self.internet_policy < 4
        &&& self.unused < 0x20000000
    }

    /// Pack the record into its 38-byte wire form; a field wider than its
    /// declared width is rejected.
    pub fn to_bytes(&self) -> (r: Result<Vec<u8>, GDL90Error>)
        ensures
            self.wf() ==> (r matches Ok(v) && self.wire_form(v@)),
            !self.wf() ==> (r matches Err(GDL90Error::InvalidParam(_))),
    {
        proof {
            lemma2_to64();
            lemma2_to64_rest();
        }
        if !(self.geometric_altitude_datum < 2 && self.internet_policy < 4 && self.unused
            < 0x20000000) {
            return Err(GDL90Error::InvalidParam("field value exceeds its declared bit width"));
        }
        let mut s = BitSink::new();
        s.push_bits(self.sub_id as u64, 8);
        s.push_bits(self.version as u64, 8);
        s.push_bits(self.device_serial_number, 64);
        s.push_bits(self.device_name[0] as u64, 8);
        s.push_bits(self.device_name[1] as u64, 8);
        s.push_bits(self.device_name[2] as u64, 8);
        s.push_bits(self.device_name[3] as u64, 8);
        s.push_bits(self.device_name[4] as u64, 8);
        s.push_bits(self.device_name[5] as u64, 8);
        s.push_bits(self.device_name[6] as u64, 8);
        s.push_bits(self.device_name[7] as u64, 8);
        s.push_bits(self.device_long_name[0] as u64, 8);
        s.push_bits(self.device_long_name[1] as u64, 8);
        s.push_bits(self.device_long_name[2] as u64, 8);
        s.push_bits(self.device_long_name[3] as u64, 8);
        s.push_bits(self.device_long_name[4] as u64, 8);
        s.push_bits(self.device_long_name[5] as u64, 8);
        s.push_bits(self.device_long_name[6] as u64, 8);
        s.push_bits(self.device_long_name[7] as u64, 8);
        s.push_bits(self.device_long_name[8] as u64, 8);
        s.push_bits(self.device_long_name[9] as u64, 8);
        s.push_bits(self.device_long_name[10] as u64, 8);
        s.push_bits(self.device_long_name[11] as u64, 8);
        s.push_bits(self.device_long_name[12] as u64, 8);
        s.push_bits(self.device_long_name[13] as u64, 8);
        s.push_bits(self.device_long_name[14] as u64, 8);
        s.push_bits(self.device_long_name[15] as u64, 8);
        s.push_bits(self.geometric_altitude_datum as u64, 1);
        s.push_bits(self.internet_policy as u64, 2);
        s.push_bits(self.unused as u64, 29);
        Ok(s.finish())
    }

    /// Unpack a 38-byte buffer; a shorter one is incomplete, a longer one is
    /// rejected.
    pub fn try_from(data: &[u8]) -> (r: Result<IDMessage, GDL90Error>)
        ensures
            data@.len() == 38 ==> (r matches Ok(m) && m.wire_form(data@) && m.wf()),
            data@.len() < 38 ==> (r matches Err(GDL90Error::Incomplete(n)) && n == 304
                - data@.len() * 8),
            data@.len() > 38 ==> (r matches Err(GDL90Error::Parse(_))),
    {
        if data.len() < 38 {
            Err(GDL90Error::Incomplete(304 - data.len() * 8))
        } else if data.len() > 38 {
            Err(GDL90Error::Parse("more bytes than the record declares"))
        } else {
            proof {
                lemma2_to64();
                lemma2_to64_rest();
            }
            let device_name: [u8; 8] = [
                read_bits(data, 80, 8) as u8,
                read_bits(data, 88, 8) as u8,
                read_bits(data, 96, 8) as u8,
                read_bits(data, 104, 8) as u8,
                read_bits(data, 112, 8) as u8,
                read_bits(data, 120, 8) as u8,
                read_bits(data, 128, 8) as u8,
                read_bits(data, 136, 8) as u8,
            ];
            let device_long_name: [u8; 16] = [
                read_bits(data, 144, 8) as u8,
                read_bits(data, 152, 8) as u8,
                read_bits(data, 160, 8) as u8,
                read_bits(data, 168, 8) as u8,
                read_bits(data, 176, 8) as u8,
                read_bits(data, 184, 8) as u8,
                read_bits(data, 192, 8) as u8,
                read_bits(data, 200, 8) as u8,
                read_bits(data, 208, 8) as u8,
                read_bits(data, 216, 8) as u8,
                read_bits(data, 224, 8) as u8,
                read_bits(data, 232, 8) as u8,
                read_bits(data, 240, 8) as u8,
                read_bits(data, 248, 8) as u8,
                read_bits(data, 256, 8) as u8,
                read_bits(data, 264, 8) as u8,
            ];
            Ok(
                IDMessage {
                    sub_id: read_bits(data, 0, 8) as u8,
                    version: read_bits(data, 8, 8) as u8,
                    device_serial_number: read_bits(data, 16, 64),
                    device_name,
                    device_long_name,
                    geometric_altitude_datum: read_bits(data, 272, 1) as u8,
                    internet_policy: read_bits(data, 273, 2) as u8,
                    unused: read_bits(data, 275, 29) as u32,
                },
            )
        }
    }

    /// The device name field read as text up to its first zero byte.
    pub fn get_device_name(&self) -> (r: Result<String, std::str::Utf8Error>)
        ensures
            match r {
                Ok(s) => valid_utf8(name_prefix(self.device_name@)) && s@ == decode_utf8(
                    name_prefix(self.device_name@),
                ),
                Err(_) => !valid_utf8(name_prefix(self.device_name@)),
            },
    {
        str_prefix(self.device_name.as_slice())
    }

    /// The long device name field read as text up to its first zero byte.
    pub fn get_device_long_name(&self) -> (r: Result<String, std::str::Utf8Error>)
        ensures
            match r {
                Ok(s) => valid_utf8(name_prefix(self.device_long_name@)) && s@ == decode_utf8(
                    name_prefix(self.device_long_name@),
                ),
                Err(_) => !valid_utf8(name_prefix(self.device_long_name@)),
            },
    {
        str_prefix(self.device_long_name.as_slice())
    }
}

impl AHRS {
    /// `b` is the 11-byte packed form of `self`.
    pub open spec fn wire_form(self, b: Seq<u8>) -> bool {
        &&& b.len() == 11
        &&& self.sub_id == field(b, 0, 8)
        &&& i16_bits(self.roll) == field(b, 8, 16)
        &&& i16_bits(self.pitch) == field(b, 24, 16)
        &&& self.heading_type == field(b, 40, 1)
        &&& self.heading == field(b, 41, 15)
        &&& self.indicated_airspeed == field(b, 56, 16)
        &&& self.true_airspeed == field(b, 72, 16)
    }

    /// Every field fits its declared bit width.
    pub open spec fn wf(self) -> bool {
        &&& self.heading_type < 2
        &&& self.heading < 0x8000
    }

    /// Pack the record into its 11-byte wire form; a field wider than its
    /// declared width is rejected.
    pub fn to_bytes(&self) -> (r: Result<Vec<u8>, GDL90Error>)
        ensures
            self.wf() ==> (r matches Ok(v) && self.wire_form(v@)),
            !self.wf() ==> (r matches Err(GDL90Error::InvalidParam(_))),
    {
        proof {
            lemma2_to64();
        }
        if !(self.heading_type < 2 && self.heading < 0x8000) {
            return Err(GDL90Error::InvalidParam("field value exceeds its declared bit width"));
        }
        let mut s = BitSink::new();
        s.push_bits(self.sub_id as u64, 8);
        s.push_bits(to_u16(self.roll) as u64, 16);
        s.push_bits(to_u16(self.pitch) as u64, 16);
        s.push_bits(self.heading_type as u64, 1);
        s.push_bits(self.heading as u64, 15);
        s.push_bits(self.indicated_airspeed as u64, 16);
        s.push_bits(self.true_airspeed as u64, 16);
        Ok(s.finish())
    }

    /// Unpack an 11-byte buffer; a shorter one is incomplete, a longer one is
    /// rejected.
    pub fn try_from(data: &[u8]) -> (r: Result<AHRS, GDL90Error>)
        ensures
            data@.len() == 11 ==> (r matches Ok(m) && m.wire_form(data@) && m.wf()),
            data@.len() < 11 ==> (r matches Err(GDL90Error::Incomplete(n)) && n == 88 - data@.len()
                * 8),
            data@.len() > 11 ==> (r matches Err(GDL90Error::Parse(_))),
    {
        if data.len() < 11 {
            Err(GDL90Error::Incomplete(88 - data.len() * 8))
        } else if data.len() > 11 {
            Err(GDL90Error::Parse("more bytes than the record declares"))
        } else {
            proof {
                lemma2_to64();
            }
            Ok(
                AHRS {
                    sub_id: read_bits(data, 0, 8) as u8,
                    roll: to_i16(read_bits(data, 8, 16) as u16),
                    pitch: to_i16(read_bits(data, 24, 16) as u16),
                    heading_type: read_bits(data, 40, 1) as u8,
                    heading: read_bits(data, 41, 15) as u16,
                    indicated_airspeed: read_bits(data, 56, 16) as u16,
                    true_airspeed: read_bits(data, 72, 16) as u16,
                },
            )
        }
    }
}

/// One sub-message of the extended family.
#[derive(Debug, PartialEq)]
pub enum ExtendedX65SubMessage {
    AHRS(AHRS),
    IDMessage(IDMessage),
}

impl ExtendedX65SubMessage {
    /// Every field of the carried record fits its declared bit width.
    pub open spec fn wf(self) -> bool {
        match self {
            ExtendedX65SubMessage::IDMessage(p) => p.wf(),
            ExtendedX65SubMessage::AHRS(p) => p.wf(),
        }
    }

    /// `b` is the packed form of `self`: the carried record's wire form with
    /// the sub-id byte rewritten to the variant's fixed sub-id.
    pub open spec fn wire_form(self, b: Seq<u8>) -> bool {
        match self {
            ExtendedX65SubMessage::IDMessage(p) => (IDMessage {
                sub_id: ID_SUB_ID,
                ..p
            }).wire_form(b),
            ExtendedX65SubMessage::AHRS(p) => (AHRS { sub_id: AHRS_SUB_ID, ..p }).wire_form(b),
        }
    }

    /// Pack the sub-message; its first byte is always the variant's fixed
    /// sub-id, whatever the record's own sub-id field holds.
    pub(crate) fn to_bytes(&self) -> (r: Result<Vec<u8>, GDL90Error>)
        ensures
            self.wf() ==> (r matches Ok(v) && self.wire_form(v@)),
            !self.wf() ==> (r matches Err(GDL90Error::InvalidParam(_))),
    {
        match self {
            ExtendedX65SubMessage::IDMessage(payload) => {
                match payload.to_bytes() {
                    Ok(bytes) => Ok(set_sub_id(bytes, ID_SUB_ID)),
                    Err(e) => Err(e),
                }
            },
            ExtendedX65SubMessage::AHRS(payload) => {
                match payload.to_bytes() {
                    Ok(bytes) => Ok(set_sub_id(bytes, AHRS_SUB_ID)),
                    Err(e) => Err(e),
                }
            },
        }
    }

    /// Decode a sub-message: the first byte selects the layout, and an
    /// unrecognized or missing sub-id fails.
    pub fn try_from(input: &[u8]) -> (r: Result<ExtendedX65SubMessage, GDL90Error>)
        ensures
            input@.len() == 0 ==> (r matches Err(GDL90Error::Parse(_))),
            input@.len() >= 1 && input@[0] == ID_SUB_ID ==> {
                &&& input@.len() == 38 ==> (r matches Ok(ExtendedX65SubMessage::IDMessage(m))
                    && m.wire_form(input@) && m.wf())
                &&& input@.len() < 38 ==> (r matches Err(GDL90Error::Incomplete(n)) && n == 304
                    - input@.len() * 8)
                &&& input@.len() > 38 ==> (r matches Err(GDL90Error::Parse(_)))
            },
            input@.len() >= 1 && input@[0] == AHRS_SUB_ID ==> {
                &&& input@.len() == 11 ==> (r matches Ok(ExtendedX65SubMessage::AHRS(m))
                    && m.wire_form(input@) && m.wf())
                &&& input@.len() < 11 ==> (r matches Err(GDL90Error::Incomplete(n)) && n == 88
                    - input@.len() * 8)
                &&& input@.len() > 11 ==> (r matches Err(GDL90Error::Parse(_)))
            },
            input@.len() >= 1 && input@[0] != ID_SUB_ID && input@[0] != AHRS_SUB_ID ==> (
            r matches Err(GDL90Error::Parse(_))),
    {
        if input.len() == 0 {
            Err(GDL90Error::Parse("expected at least one byte holding the sub message id"))
        } else if input[0] == ID_SUB_ID {
            parse_id_message(input)
        } else if input[0] == AHRS_SUB_ID {
            parse_ahrs_message(input)
        } else {
            Err(GDL90Error::Parse("unknown sub message id"))
        }
    }
}

/// Rewrite the sub-id byte of a packed sub-message.
fn set_sub_id(payload: Vec<u8>, message_id: u8) -> (r: Vec<u8>)
    requires
        payload@.len() >= 1,
    ensures
        r@ == payload@.update(0, message_id),
        field(r@, 0, 8) == message_id,
        forall|off: int, w: nat|
            8 <= off && off + w <= payload@.len() * 8 ==> #[trigger] field(r@, off, w) == field(
                payload@,
                off,
                w,
            ),
{
    proof {
        lemma_set_first_byte(payload@, message_id);
    }
    let mut payload = payload;
    payload[0] = message_id;
    payload
}

fn parse_id_message(input: &[u8]) -> (r: Result<ExtendedX65SubMessage, GDL90Error>)
    ensures
        input@.len() == 38 ==> (r matches Ok(ExtendedX65SubMessage::IDMessage(m)) && m.wire_form(
            input@,
        ) && m.wf()),
        input@.len() < 38 ==> (r matches Err(GDL90Error::Incomplete(n)) && n == 304 - input@.len()
            * 8),
        input@.len() > 38 ==> (r matches Err(GDL90Error::Parse(_))),
{
    match IDMessage::try_from(input) {
        Ok(message) => Ok(ExtendedX65SubMessage::IDMessage(message)),
        Err(e) => Err(e),
    }
}

fn parse_ahrs_message(input: &[u8]) -> (r: Result<ExtendedX65SubMessage, GDL90Error>)
    ensures
        input@.len() == 11 ==> (r matches Ok(ExtendedX65SubMessage::AHRS(m)) && m.wire_form(input@)
            && m.wf()),
        input@.len() < 11 ==> (r matches Err(GDL90Error::Incomplete(n)) && n == 88 - input@.len()
            * 8),
        input@.len() > 11 ==> (r matches Err(GDL90Error::Parse(_))),
{
    match AHRS::try_from(input) {
        Ok(message) => Ok(ExtendedX65SubMessage::AHRS(message)),
        Err(e) => Err(e),
    }
}

} // verus!
