//! Frame transport codec: escaping, checksum, frame assembly and
//! disassembly.

use crate::error::GDL90Error;
use crate::extended::{ExtendedX65SubMessage, AHRS_SUB_ID, ID_SUB_ID};
use crate::geometric::OwnershipGeometricAltitude;
use crate::heartbeat::HeartBeat;
use crate::payload::{
    Payload, EXTENDED_X65, HEARTBEAT_ID, OWNERSHIP_GEOMETRIC_ALTITUDE, OWNERSHIP_REPORT_ID,
    TRAFFIC_REPORT_ID,
};
use crate::report::Report;
use vstd::arithmetic::div_mod::lemma_fundamental_div_mod;
use vstd::prelude::*;

verus! {

/// The frame delimiter byte.
pub const FLAG: u8 = 0x7E;

/// The escape marker byte.
pub const ESCAPE: u8 = 0x7D;

/// One shift-and-conditional-xor round of the CRC16 with polynomial 0x1021.
pub open spec fn crc_round(c: u16) -> u16 {
    (c << 1) ^ (if c & 0x8000 != 0 {
        0x1021u16
    } else {
        0u16
    })
}

pub open spec fn crc_rounds(c: u16, n: nat) -> u16
    decreases n,
{
    if n == 0 {
        c
    } else {
        crc_round(crc_rounds(c, (n - 1) as nat))
    }
}

/// One entry of the 256-entry CRC16 table: eight rounds on the index byte
/// placed in the high half.
pub open spec fn crc_table_entry(i: u8) -> u16 {
    crc_rounds((i as u16) << 8, 8)
}

/// Folding one byte into the running CRC.
pub open spec fn crc_step(c: u16, byte: u8) -> u16 {
    crc_table_entry((c >> 8) as u8) ^ ((c << 8) ^ (byte as u16))
}

pub open spec fn crc16_from(c: u16, s: Seq<u8>) -> u16
    decreases s.len(),
{
    if s.len() == 0 {
        c
    } else {
        crc16_from(crc_step(c, s[0]), s.drop_first())
    }
}

/// The CRC16 of a byte sequence: polynomial 0x1021, initial value zero, each
/// byte folded in through the table.
pub open spec fn crc16(s: Seq<u8>) -> u16 {
    crc16_from(0, s)
}

/// Build the 256-entry CRC16 table.
pub fn create_crc_table() -> (t: Vec<u16>)
    ensures
        t@.len() == 256,
        forall|i: int| 0 <= i < 256 ==> t@[i] == crc_table_entry(i as u8),
{
    let mut t: Vec<u16> = Vec::new();
    let mut i: usize = 0;
    while i < 256
        invariant
            i <= 256,
            t@.len() == i,
            forall|q: int| 0 <= q < i ==> t@[q] == crc_table_entry(q as u8),
        decreases 256 - i,
    {
        let mut crc: u16 = (i as u16) << 8;
        let mut bitctr: usize = 0;
        while bitctr < 8
            invariant
                bitctr <= 8,
                i < 256,
                crc == crc_rounds((i as u16) << 8, bitctr as nat),
            decreases 8 - bitctr,
        {
            crc = (crc << 1) ^ (if crc & 0x8000 != 0 {
                0x1021
            } else {
                0
            });
            bitctr = bitctr + 1;
        }
        t.push(crc);
        i = i + 1;
    }
    t
}

/// The CRC16 of `data[lo..hi]`.
fn checksum_range(data: &[u8], lo: usize, hi: usize) -> (r: u16)
    requires
        lo <= hi <= data@.len(),
    ensures
        r == crc16(data@.subrange(lo as int, hi as int)),
{
    let table = create_crc_table();
    let mut crc: u16 = 0;
    let mut i: usize = lo;
    while i < hi
        invariant
            lo <= i <= hi <= data@.len(),
            table@.len() == 256,
            forall|q: int| 0 <= q < 256 ==> table@[q] == crc_table_entry(q as u8),
            crc16_from(crc, data@.subrange(i as int, hi as int)) == crc16(
                data@.subrange(lo as int, hi as int),
            ),
        decreases hi - i,
    {
        proof {
            let c = crc;
            assert((c >> 8) < 256) by (bit_vector);
            let s = data@.subrange(i as int, hi as int);
            assert(s[0] == data@[i as int]);
            assert(s.drop_first() =~= data@.subrange(i + 1, hi as int));
        }
        let idx = (crc >> 8) as usize;
        crc = table[idx] ^ ((crc << 8) ^ (data[i] as u16));
        i = i + 1;
    }
    proof {
        assert(data@.subrange(hi as int, hi as int) =~= Seq::<u8>::empty());
    }
    crc
}

/// The CRC16 of a whole buffer.
pub fn checksum(data: &[u8]) -> (r: u16)
    ensures
        r == crc16(data@),
{
    let r = checksum_range(data, 0, data.len());
    proof {
        assert(data@.subrange(0, data@.len() as int) =~= data@);
    }
    r
}

/// The wire form of one body byte: a flag- or escape-valued byte becomes the
/// escape marker followed by the byte xored with 0x20; every other byte
/// stands as it is.
pub open spec fn escape_byte(b: u8) -> Seq<u8> {
    if b == FLAG || b == ESCAPE {
        seq![ESCAPE, b ^ 0x20]
    } else {
        seq![b]
    }
}

/// The escape transform over a whole body.
pub open spec fn escape_seq(s: Seq<u8>) -> Seq<u8>
    decreases s.len(),
{
    if s.len() == 0 {
        Seq::empty()
    } else {
        escape_byte(s[0]) + escape_seq(s.drop_first())
    }
}

/// Undo the escape transform: an escape marker drops out and the byte after
/// it is xored with 0x20.  An escape marker as the very last byte has nothing
/// to un-escape and is malformed.
pub open spec fn unescape_seq(s: Seq<u8>) -> Option<Seq<u8>>
    decreases s.len(),
{
    if s.len() == 0 {
        Some(Seq::empty())
    } else if s[0] == ESCAPE {
        if s.len() == 1 {
            None
        } else {
            match unescape_seq(s.skip(2)) {
                Some(t) => Some(seq![s[1] ^ 0x20] + t),
                None => None,
            }
        }
    } else {
        match unescape_seq(s.skip(1)) {
            Some(t) => Some(seq![s[0]] + t),
            None => None,
        }
    }
}

proof fn lemma_escape_snoc(s: Seq<u8>, b: u8)
    ensures
        escape_seq(s.push(b)) == escape_seq(s) + escape_byte(b),
    decreases s.len(),
{
    let sp = s.push(b);
    assert(sp.len() == s.len() + 1);
    if s.len() == 0 {
        assert(sp[0] == b);
        assert(sp.drop_first() =~= Seq::<u8>::empty());
        assert(escape_seq(sp) == escape_byte(b) + escape_seq(Seq::<u8>::empty()));
        assert(escape_seq(Seq::<u8>::empty()) == Seq::<u8>::empty());
        assert(escape_seq(s) == Seq::<u8>::empty());
        assert(escape_byte(b) + Seq::<u8>::empty() =~= escape_byte(b));
        assert(Seq::<u8>::empty() + escape_byte(b) =~= escape_byte(b));
    } else {
        lemma_escape_snoc(s.drop_first(), b);
        assert(sp[0] == s[0]);
        assert(sp.drop_first() =~= s.drop_first().push(b));
        assert(escape_seq(sp) == escape_byte(s[0]) + escape_seq(s.drop_first().push(b)));
        assert(escape_seq(s) == escape_byte(s[0]) + escape_seq(s.drop_first()));
        assert(escape_byte(s[0]) + (escape_seq(s.drop_first()) + escape_byte(b)) =~= (escape_byte(
            s[0],
        ) + escape_seq(s.drop_first())) + escape_byte(b));
    }
}

/// Law: unescaping inverts escaping, for every byte sequence — including
/// bodies that hold flag- or escape-valued bytes anywhere.
pub proof fn lemma_unescape_escape(s: Seq<u8>)
    ensures
        unescape_seq(escape_seq(s)) == Some(s),
    decreases s.len(),
{
    if s.len() > 0 {
        lemma_unescape_escape(s.drop_first());
        let e = escape_seq(s);
        let et = escape_seq(s.drop_first());
        let b = s[0];
        if b == FLAG || b == ESCAPE {
            assert(e == seq![ESCAPE, b ^ 0x20] + et);
            assert(e[0] == ESCAPE && e[1] == b ^ 0x20);
            assert(e.skip(2) =~= et);
            assert((b ^ 0x20) ^ 0x20 == b) by (bit_vector);
            assert(seq![b] + s.drop_first() =~= s);
        } else {
            assert(e == seq![b] + et);
            assert(e[0] == b && b != ESCAPE);
            assert(e.skip(1) =~= et);
            assert(seq![b] + s.drop_first() =~= s);
        }
    }
}

/// Undo the escaping of `data[lo..hi]`; a trailing unconsumed escape marker
/// is malformed.
fn unescape(data: &[u8], lo: usize, hi: usize) -> (r: Option<Vec<u8>>)
    requires
        lo <= hi <= data@.len(),
    ensures
        match r {
            Some(v) => unescape_seq(data@.subrange(lo as int, hi as int)) == Some(v@),
            None => unescape_seq(data@.subrange(lo as int, hi as int)) is None,
        },
{
    let ghost full = data@.subrange(lo as int, hi as int);
    let mut out: Vec<u8> = Vec::new();
    let mut i: usize = lo;
    proof {
        assert(Seq::<u8>::empty() + full =~= full);
        if unescape_seq(full) is Some {
            assert(unescape_seq(full) == Some(Seq::<u8>::empty() + unescape_seq(full)->Some_0));
        }
    }
    while i < hi
        invariant
            lo <= i <= hi <= data@.len(),
            full == data@.subrange(lo as int, hi as int),
            match unescape_seq(data@.subrange(i as int, hi as int)) {
                Some(t) => unescape_seq(full) == Some(out@ + t),
                None => unescape_seq(full) is None,
            },
        decreases hi - i,
    {
        let ghost rest = data@.subrange(i as int, hi as int);
        if data[i] == ESCAPE {
            if i + 1 == hi {
                proof {
                    assert(rest.len() == 1 && rest[0] == ESCAPE);
                }
                return None;
            }
            let b = data[i + 1] ^ 0x20;
            proof {
                assert(rest[0] == ESCAPE && rest.len() >= 2);
                assert(rest[1] == data@[i + 1]);
                assert(rest.skip(2) =~= data@.subrange(i + 2, hi as int));
                match unescape_seq(data@.subrange(i + 2, hi as int)) {
                    Some(t) => {
                        assert(out@.push(b) + t =~= out@ + (seq![b] + t));
                    },
                    None => {},
                }
            }
            out.push(b);
            i = i + 2;
        } else {
            let b = data[i];
            proof {
                assert(rest[0] == b && b != ESCAPE);
                assert(rest.skip(1) =~= data@.subrange(i + 1, hi as int));
                match unescape_seq(data@.subrange(i + 1, hi as int)) {
                    Some(t) => {
                        assert(out@.push(b) + t =~= out@ + (seq![b] + t));
                    },
                    None => {},
                }
            }
            out.push(b);
            i = i + 1;
        }
    }
    proof {
        assert(data@.subrange(hi as int, hi as int) =~= Seq::<u8>::empty());
        assert(out@ + Seq::<u8>::empty() =~= out@);
    }
    Some(out)
}

/// The low byte of the checksum's little-endian wire form.
pub open spec fn cs_lo(c: u16) -> u8 {
    (c % 256) as u8
}

/// The high byte of the checksum's little-endian wire form.
pub open spec fn cs_hi(c: u16) -> u8 {
    (c / 256) as u8
}

/// The full wire frame for an id, payload bytes and checksum: a flag, the
/// escaped body (id, payload, little-endian checksum), a flag.
pub open spec fn encode_bytes(id: u8, data: Seq<u8>, cs: u16) -> Seq<u8> {
    seq![FLAG] + escape_seq(seq![id] + data + seq![cs_lo(cs), cs_hi(cs)]) + seq![FLAG]
}

/// What disassembling an unescaped frame interior yields: the message id,
/// payload bytes and checksum, or the exact error.
pub open spec fn parse_interior(s: Seq<u8>) -> Result<(u8, Seq<u8>, u16), GDL90Error> {
    match unescape_seq(s) {
        None => Err(GDL90Error::IncorrectlyFormatted),
        Some(u) => if u.len() < 3 {
            Err(GDL90Error::IncorrectlyFormatted)
        } else {
            let claimed = (u[u.len() - 2] + u[u.len() - 1] * 256) as u16;
            let actual = crc16(u.take(u.len() - 2));
            if actual != claimed {
                Err(GDL90Error::ChecksumMismatch(actual, claimed))
            } else {
                Ok((u[0], u.subrange(1, u.len() - 2), claimed))
            }
        },
    }
}

/// What decoding a wire buffer yields: the message id, payload bytes and
/// checksum, or the exact error.
pub open spec fn parse_frame(d: Seq<u8>) -> Result<(u8, Seq<u8>, u16), GDL90Error> {
    if d.len() == 0 {
        Err(GDL90Error::EmptyData)
    } else if d.len() < 2 || d[0] != FLAG || d[d.len() - 1] != FLAG {
        Err(GDL90Error::IncorrectlyFormatted)
    } else {
        parse_interior(d.subrange(1, d.len() - 1))
    }
}

/// One wire-level message: id, raw payload bytes, and the checksum over id
/// and payload.  Decoding only builds one whose checksum was verified, and
/// encoding a payload recomputes the checksum; the struct itself carries no
/// invariant.
#[derive(Debug, PartialEq)]
pub struct GDL90Message {
    pub message_id: u8,
    pub data: Vec<u8>,
    pub checksum: u16,
}

/// `get_payload`'s outcome for a heartbeat payload.
pub open spec fn heartbeat_outcome(r: Result<Payload, GDL90Error>, d: Seq<u8>) -> bool {
    &&& d.len() == 6 ==> (r matches Ok(Payload::HeartBeat(h)) && h.wire_form(d))
    &&& d.len() < 6 ==> (r matches Err(GDL90Error::Incomplete(n)) && n == 48 - d.len() * 8)
    &&& d.len() > 6 ==> (r matches Err(GDL90Error::Parse(_)))
}

/// `get_payload`'s outcome for an ownship or traffic report payload.
pub open spec fn report_outcome(r: Result<Payload, GDL90Error>, d: Seq<u8>, traffic: bool) -> bool {
    &&& d.len() == 27 ==> (match r {
        Ok(Payload::OwnershipReport(rep)) => !traffic && rep.wire_form(d),
        Ok(Payload::TrafficReport(rep)) => traffic && rep.wire_form(d),
        _ => false,
    })
    &&& d.len() < 27 ==> (r matches Err(GDL90Error::Incomplete(n)) && n == 216 - d.len() * 8)
    &&& d.len() > 27 ==> (r matches Err(GDL90Error::Parse(_)))
}

/// `get_payload`'s outcome for a geometric altitude payload.
pub open spec fn geometric_outcome(r: Result<Payload, GDL90Error>, d: Seq<u8>) -> bool {
    &&& d.len() == 4 ==> (r matches Ok(Payload::OwnershipGeometricAltitude(g)) && g.wire_form(d))
    &&& d.len() < 4 ==> (r matches Err(GDL90Error::Incomplete(n)) && n == 32 - d.len() * 8)
    &&& d.len() > 4 ==> (r matches Err(GDL90Error::Parse(_)))
}

/// `get_payload`'s outcome for an extended sub-message payload.
pub open spec fn extended_outcome(r: Result<Payload, GDL90Error>, d: Seq<u8>) -> bool {
    &&& d.len() == 0 ==> (r matches Err(GDL90Error::Parse(_)))
    &&& d.len() >= 1 && d[0] == ID_SUB_ID ==> {
        &&& d.len() == 38 ==> (r matches Ok(Payload::ExtendedX65(ExtendedX65SubMessage::IDMessage(m)))
            && m.wire_form(d))
        &&& d.len() < 38 ==> (r matches Err(GDL90Error::Incomplete(n)) && n == 304 - d.len() * 8)
        &&& d.len() > 38 ==> (r matches Err(GDL90Error::Parse(_)))
    }
    &&& d.len() >= 1 && d[0] == AHRS_SUB_ID ==> {
        &&& d.len() == 11 ==> (r matches Ok(Payload::ExtendedX65(ExtendedX65SubMessage::AHRS(m)))
            && m.wire_form(d))
        &&& d.len() < 11 ==> (r matches Err(GDL90Error::Incomplete(n)) && n == 88 - d.len() * 8)
        &&& d.len() > 11 ==> (r matches Err(GDL90Error::Parse(_)))
    }
    &&& d.len() >= 1 && d[0] != ID_SUB_ID && d[0] != AHRS_SUB_ID ==> (r matches Err(
        GDL90Error::Parse(_),
    ))
}

/// An id the payload registry knows.
pub open spec fn is_known_id(id: u8) -> bool {
    ||| id == HEARTBEAT_ID
    ||| id == OWNERSHIP_REPORT_ID
    ||| id == TRAFFIC_REPORT_ID
    ||| id == OWNERSHIP_GEOMETRIC_ALTITUDE
    ||| id == EXTENDED_X65
}

impl GDL90Message {
    /// Encode the message as a wire frame: a flag byte, then the message id,
    /// payload and little-endian checksum — every one of those bytes escaped
    /// where its value collides with the flag or escape marker — then the
    /// closing flag byte.
    pub fn encode(&self) -> (r: Vec<u8>)
        ensures
            r@ == encode_bytes(self.message_id, self.data@, self.checksum),
    {
        let ghost body = seq![self.message_id] + self.data@ + seq![
            cs_lo(self.checksum),
            cs_hi(self.checksum),
        ];
        let mut result: Vec<u8> = Vec::new();
        result.push(FLAG);
        proof {
            assert(result@ =~= seq![FLAG] + escape_seq(Seq::<u8>::empty()));
            lemma_escape_snoc(Seq::<u8>::empty(), self.message_id);
            assert(Seq::<u8>::empty().push(self.message_id) =~= seq![self.message_id]);
        }
        push_escaped(&mut result, self.message_id);
        proof {
            assert(result@ =~= seq![FLAG] + escape_seq(seq![self.message_id]));
        }
        let mut k: usize = 0;
        while k < self.data.len()
            invariant
                k <= self.data@.len(),
                result@ == seq![FLAG] + escape_seq(seq![self.message_id] + self.data@.take(
                    k as int,
                )),
            decreases self.data@.len() - k,
        {
            proof {
                lemma_escape_snoc(
                    seq![self.message_id] + self.data@.take(k as int),
                    self.data@[k as int],
                );
                assert((seq![self.message_id] + self.data@.take(k as int)).push(
                    self.data@[k as int],
                ) =~= seq![self.message_id] + self.data@.take(k + 1));
            }
            push_escaped(&mut result, self.data[k]);
            proof {
                assert(result@ =~= seq![FLAG] + escape_seq(
                    seq![self.message_id] + self.data@.take(k + 1),
                ));
            }
            k = k + 1;
        }
        let lo = (self.checksum % 256) as u8;
        let hi = (self.checksum / 256) as u8;
        proof {
            assert(self.data@.take(self.data@.len() as int) =~= self.data@);
            lemma_escape_snoc(seq![self.message_id] + self.data@, lo);
            assert((seq![self.message_id] + self.data@).push(lo) =~= seq![self.message_id]
                + self.data@ + seq![cs_lo(self.checksum)]);
        }
        push_escaped(&mut result, lo);
        proof {
            lemma_escape_snoc(seq![self.message_id] + self.data@ + seq![cs_lo(self.checksum)], hi);
            assert((seq![self.message_id] + self.data@ + seq![cs_lo(self.checksum)]).push(hi)
                =~= body);
        }
        push_escaped(&mut result, hi);
        result.push(FLAG);
        proof {
            assert(result@ =~= seq![FLAG] + escape_seq(body) + seq![FLAG]);
        }
        result
    }

    /// Decode the typed payload the message carries: a known id selects its
    /// record layout and propagates that record's failures; an unknown id
    /// succeeds with the raw bytes passed through verbatim.
    pub fn get_payload(&self) -> (r: Result<Payload, GDL90Error>)
        ensures
            self.message_id == HEARTBEAT_ID ==> heartbeat_outcome(r, self.data@),
            self.message_id == OWNERSHIP_REPORT_ID ==> report_outcome(r, self.data@, false),
            self.message_id == TRAFFIC_REPORT_ID ==> report_outcome(r, self.data@, true),
            self.message_id == OWNERSHIP_GEOMETRIC_ALTITUDE ==> geometric_outcome(r, self.data@),
            self.message_id == EXTENDED_X65 ==> extended_outcome(r, self.data@),
            !is_known_id(self.message_id) ==> (r matches Ok(Payload::Unknown(id, b)) && id
                == self.message_id && b@ == self.data@),
    {
        if self.message_id == HEARTBEAT_ID {
            match HeartBeat::try_from(self.data.as_slice()) {
                Ok(p) => Ok(Payload::HeartBeat(p)),
                Err(e) => Err(e),
            }
        } else if self.message_id == OWNERSHIP_REPORT_ID {
            match Report::try_from(self.data.as_slice()) {
                Ok(p) => Ok(Payload::OwnershipReport(p)),
                Err(e) => Err(e),
            }
        } else if self.message_id == TRAFFIC_REPORT_ID {
            match Report::try_from(self.data.as_slice()) {
                Ok(p) => Ok(Payload::TrafficReport(p)),
                Err(e) => Err(e),
            }
        } else if self.message_id == OWNERSHIP_GEOMETRIC_ALTITUDE {
            match OwnershipGeometricAltitude::try_from(self.data.as_slice()) {
                Ok(p) => Ok(Payload::OwnershipGeometricAltitude(p)),
                Err(e) => Err(e),
            }
        } else if self.message_id == EXTENDED_X65 {
            match ExtendedX65SubMessage::try_from(self.data.as_slice()) {
                Ok(p) => Ok(Payload::ExtendedX65(p)),
                Err(e) => Err(e),
            }
        } else {
            Ok(Payload::Unknown(self.message_id, crate::payload::copy_bytes(&self.data)))
        }
    }
}

/// Escape one body byte onto the end of the output.
fn push_escaped(out: &mut Vec<u8>, b: u8)
    ensures
        final(out)@ == old(out)@ + escape_byte(b),
{
    if b == FLAG || b == ESCAPE {
        out.push(ESCAPE);
        out.push(b ^ 0x20);
        proof {
            assert(old(out)@.push(ESCAPE).push(b ^ 0x20) =~= old(out)@ + seq![ESCAPE, b ^ 0x20]);
        }
    } else {
        out.push(b);
        proof {
            assert(old(out)@.push(b) =~= old(out)@ + seq![b]);
        }
    }
}

/// Decode one wire frame into a message: the buffer must begin and end with
/// the flag byte, unescape cleanly, and carry a checksum that matches the one
/// recomputed over the unescaped id and payload.
pub fn read_message(data: &[u8]) -> (r: Result<GDL90Message, GDL90Error>)
    ensures
        match parse_frame(data@) {
            Ok((id, payload, cs)) => r matches Ok(m) && m.message_id == id && m.data@ == payload
                && m.checksum == cs,
            Err(e) => r matches Err(e2) && e2 == e,
        },
{
    if data.len() == 0 {
        Err(GDL90Error::EmptyData)
    } else if data.len() < 2 {
        Err(GDL90Error::IncorrectlyFormatted)
    } else if data[0] != FLAG || data[data.len() - 1] != FLAG {
        Err(GDL90Error::IncorrectlyFormatted)
    } else {
        build_message(data, 1, data.len() - 1)
    }
}

/// Assemble a message from the frame interior `data[lo..hi]`: unescape it,
/// split off the id and the trailing little-endian checksum, and verify the
/// checksum over id and payload.
fn build_message(data: &[u8], lo: usize, hi: usize) -> (r: Result<GDL90Message, GDL90Error>)
    requires
        lo <= hi <= data@.len(),
    ensures
        match parse_interior(data@.subrange(lo as int, hi as int)) {
            Ok((id, payload, cs)) => r matches Ok(m) && m.message_id == id && m.data@ == payload
                && m.checksum == cs,
            Err(e) => r matches Err(e2) && e2 == e,
        },
{
    let unescaped = match unescape(data, lo, hi) {
        Some(v) => v,
        None => {
            return Err(GDL90Error::IncorrectlyFormatted);
        },
    };
    let n = unescaped.len();
    if n < 3 {
        return Err(GDL90Error::IncorrectlyFormatted);
    }
    let claimed: u16 = (unescaped[n - 2] as u16) + (unescaped[n - 1] as u16) * 256;
    let actual = checksum_range(unescaped.as_slice(), 0, n - 2);
    proof {
        assert(unescaped@.subrange(0, n - 2) =~= unescaped@.take(n - 2));
    }
    if actual != claimed {
        return Err(GDL90Error::ChecksumMismatch(actual, claimed));
    }
    let message_id = unescaped[0];
    let mut payload: Vec<u8> = Vec::new();
    let mut k: usize = 1;
    while k < n - 2
        invariant
            1 <= k <= n - 2,
            n == unescaped@.len(),
            n >= 3,
            payload@ == unescaped@.subrange(1, k as int),
        decreases n - k,
    {
        payload.push(unescaped[k]);
        proof {
            assert(unescaped@.subrange(1, k as int).push(unescaped@[k as int])
                =~= unescaped@.subrange(1, k + 1));
        }
        k = k + 1;
    }
    proof {
        assert(payload@ =~= unescaped@.subrange(1, n - 2));
    }
    Ok(GDL90Message { message_id, data: payload, checksum: claimed })
}

/// Build a message for a payload: pack it and compute the checksum over the
/// id and the packed bytes.  The checksum is always recomputed here, never
/// taken from caller state.
pub fn create_message(payload: &Payload) -> (r: Result<GDL90Message, GDL90Error>)
    ensures
        payload.wf() ==> (r matches Ok(m) && m.message_id == payload.spec_message_id()
            && payload.wire_form(m.data@) && m.checksum == crc16(
            seq![payload.spec_message_id()] + m.data@,
        )),
        !payload.wf() ==> (r matches Err(GDL90Error::InvalidParam(_))),
{
    let data = match payload.to_bytes() {
        Ok(d) => d,
        Err(e) => {
            return Err(e);
        },
    };
    let message_id = payload.get_message_id();
    let mut chk: Vec<u8> = Vec::new();
    chk.push(message_id);
    proof {
        assert(chk@ =~= seq![message_id] + data@.take(0));
    }
    let mut k: usize = 0;
    while k < data.len()
        invariant
            k <= data@.len(),
            chk@ == seq![message_id] + data@.take(k as int),
        decreases data@.len() - k,
    {
        chk.push(data[k]);
        proof {
            assert((seq![message_id] + data@.take(k as int)).push(data@[k as int])
                =~= seq![message_id] + data@.take(k + 1));
        }
        k = k + 1;
    }
    proof {
        assert(data@.take(data@.len() as int) =~= data@);
    }
    let cs = checksum(chk.as_slice());
    Ok(GDL90Message { message_id, data, checksum: cs })
}

/// Law: a frame assembled from any message id and payload bytes, with the
/// checksum computed over them, decodes back to exactly that id, payload and
/// checksum — whatever byte values, flag- and escape-valued ones included,
/// the payload holds.
pub proof fn lemma_frame_round_trip(id: u8, data: Seq<u8>)
    ensures
        ({
            let cs = crc16(seq![id] + data);
            parse_frame(encode_bytes(id, data, cs)) == Ok::<(u8, Seq<u8>, u16), GDL90Error>(
                (id, data, cs),
            )
        }),
{
    let cs = crc16(seq![id] + data);
    let body = seq![id] + data + seq![cs_lo(cs), cs_hi(cs)];
    let e = encode_bytes(id, data, cs);
    let esc = escape_seq(body);
    assert(e.len() == esc.len() + 2);
    assert(e[0] == FLAG);
    assert(e[e.len() - 1] == FLAG);
    assert(e.subrange(1, e.len() - 1) =~= esc);
    lemma_unescape_escape(body);
    let u = body;
    assert(u.len() == data.len() + 3);
    assert(u[u.len() - 2] == cs_lo(cs));
    assert(u[u.len() - 1] == cs_hi(cs));
    lemma_fundamental_div_mod(cs as int, 256);
    assert((cs_lo(cs) + cs_hi(cs) * 256) as u16 == cs);
    assert(u.take(u.len() - 2) =~= seq![id] + data);
    assert(u[0] == id);
    assert(u.subrange(1, u.len() - 2) =~= data);
}

/// Law: for every well-formed payload variant, a message built over any bytes
/// the variant packs to — with the checksum [`create_message`] computes —
/// decodes back to the same id, the same payload bytes and the same checksum.
pub proof fn lemma_message_round_trip(p: Payload, data: Seq<u8>)
    requires
        p.wf(),
        p.wire_form(data),
    ensures
        ({
            let id = p.spec_message_id();
            let cs = crc16(seq![id] + data);
            parse_frame(encode_bytes(id, data, cs)) == Ok::<(u8, Seq<u8>, u16), GDL90Error>(
                (id, data, cs),
            )
        }),
{
    lemma_frame_round_trip(p.spec_message_id(), data);
}

/// Law: a payload whose bytes contain flag- or escape-valued bytes anywhere
/// still round-trips to the identical bytes; the escaping is transparent.
pub proof fn lemma_escaped_payload_round_trip(id: u8, data: Seq<u8>)
    requires
        exists|j: int| 0 <= j < data.len() && (data[j] == FLAG || data[j] == ESCAPE),
    ensures
        ({
            let cs = crc16(seq![id] + data);
            parse_frame(encode_bytes(id, data, cs)) == Ok::<(u8, Seq<u8>, u16), GDL90Error>(
                (id, data, cs),
            )
        }),
{
    lemma_frame_round_trip(id, data);
}

} // verus!
