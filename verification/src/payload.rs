//! Message payload dispatch.

use crate::error::GDL90Error;
use crate::extended::ExtendedX65SubMessage;
use crate::geometric::OwnershipGeometricAltitude;
use crate::heartbeat::HeartBeat;
use crate::report::Report;
use vstd::prelude::*;

verus! {

/// One payload variant per known message id, plus a raw passthrough carrying
/// the observed id for every id the registry does not know.
#[derive(Debug)]
pub enum Payload {
    HeartBeat(HeartBeat),
    OwnershipReport(Report),
    TrafficReport(Report),
    OwnershipGeometricAltitude(OwnershipGeometricAltitude),
    ExtendedX65(ExtendedX65SubMessage),
    Unknown(u8, Vec<u8>),
}

pub const HEARTBEAT_ID: u8 = 0;

pub const OWNERSHIP_REPORT_ID: u8 = 10;

pub const TRAFFIC_REPORT_ID: u8 = 20;

pub const OWNERSHIP_GEOMETRIC_ALTITUDE: u8 = 11;

pub const EXTENDED_X65: u8 = 0x65;

impl Payload {
    /// The message id the payload travels under.
    pub open spec fn spec_message_id(self) -> u8 {
        match self {
            Payload::HeartBeat(_) => HEARTBEAT_ID,
            Payload::OwnershipReport(_) => OWNERSHIP_REPORT_ID,
            Payload::TrafficReport(_) => TRAFFIC_REPORT_ID,
            Payload::OwnershipGeometricAltitude(_) => OWNERSHIP_GEOMETRIC_ALTITUDE,
            Payload::ExtendedX65(_) => EXTENDED_X65,
            Payload::Unknown(msg_id, _) => msg_id,
        }
    }

    /// Every field of the carried record fits its declared bit width; raw
    /// passthrough bytes are always well formed.
    pub open spec fn wf(self) -> bool {
        match self {
            Payload::HeartBeat(p) => p.wf(),
            Payload::OwnershipReport(p) => p.wf(),
            Payload::TrafficReport(p) => p.wf(),
            Payload::OwnershipGeometricAltitude(p) => p.wf(),
            Payload::ExtendedX65(p) => p.wf(),
            Payload::Unknown(_, _) => true,
        }
    }

    /// `b` is the packed payload bytes.
    pub open spec fn wire_form(self, b: Seq<u8>) -> bool {
        match self {
            Payload::HeartBeat(p) => p.wire_form(b),
            Payload::OwnershipReport(p) => p.wire_form(b),
            Payload::TrafficReport(p) => p.wire_form(b),
            Payload::OwnershipGeometricAltitude(p) => p.wire_form(b),
            Payload::ExtendedX65(p) => p.wire_form(b),
            Payload::Unknown(_, data) => b == data@,
        }
    }

    pub(crate) fn get_message_id(&self) -> (r: u8)
        ensures
            r == self.spec_message_id(),
    {
        match self {
            Payload::HeartBeat(_) => HEARTBEAT_ID,
            Payload::OwnershipReport(_) => OWNERSHIP_REPORT_ID,
            Payload::TrafficReport(_) => TRAFFIC_REPORT_ID,
            Payload::OwnershipGeometricAltitude(_) => OWNERSHIP_GEOMETRIC_ALTITUDE,
            Payload::ExtendedX65(_) => EXTENDED_X65,
            Payload::Unknown(msg_id, _) => *msg_id,
        }
    }

    /// Pack the payload; the unknown variant's bytes are returned verbatim.
    pub(crate) fn to_bytes(&self) -> (r: Result<Vec<u8>, GDL90Error>)
        ensures
            self.wf() ==> (r matches Ok(v) && self.wire_form(v@)),
            !self.wf() ==> (r matches Err(GDL90Error::InvalidParam(_))),
    {
        match self {
            Payload::HeartBeat(entity) => entity.to_bytes(),
            Payload::OwnershipReport(entity) => entity.to_bytes(),
            Payload::TrafficReport(entity) => entity.to_bytes(),
            Payload::OwnershipGeometricAltitude(entity) => entity.to_bytes(),
            Payload::ExtendedX65(entity) => entity.to_bytes(),
            Payload::Unknown(_, data) => Ok(copy_bytes(data)),
        }
    }
}

/// A fresh buffer holding the same bytes.
pub(crate) fn copy_bytes(data: &Vec<u8>) -> (r: Vec<u8>)
    ensures
        r@ == data@,
{
    let mut out: Vec<u8> = Vec::new();
    let mut k: usize = 0;
    while k < data.len()
        invariant
            k <= data@.len(),
            out@ == data@.take(k as int),
        decreases data@.len() - k,
    {
        out.push(data[k]);
        proof {
            assert(data@.take(k as int).push(data@[k as int]) =~= data@.take(k + 1));
        }
        k = k + 1;
    }
    proof {
        assert(data@.take(data@.len() as int) =~= data@);
    }
    out
}

} // verus!
