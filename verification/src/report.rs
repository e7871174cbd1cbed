//! Ownship and traffic report record (ids 0x0A and 0x14).

use crate::bits::{field, read_bits, BitSink};
use crate::error::GDL90Error;
use crate::text::utf8_from_bytes;
use vstd::arithmetic::div_mod::lemma_fundamental_div_mod;
use vstd::arithmetic::power2::lemma2_to64;
use vstd::prelude::*;
use vstd::utf8::{decode_utf8, valid_utf8};

verus! {

/// Position, identity and status report, packed into 27 bytes.  Latitude,
/// longitude and vertical velocity are stored raw; their sign extension and
/// scaling live in the getters and setters.
#[derive(Debug, Default, PartialEq)]
pub struct Report {
    pub traffic_alert_status: u8,
    pub address_type: u8,
    pub participant_address: u32,
    pub latitude: u32,
    pub longitude: u32,
    pub altitude: u16,
    pub heading_type: u8,
    pub report_type: u8,
    pub flight_stage: u8,
    pub navigation_integrity_category: u8,
    pub navigation_accuracy_category_for_position: u8,
    pub horizontal_velocity: u16,
    pub vertical_velocity: u16,
    pub track_heading: u8,
    pub emitter_category: u8,
    pub callsign: [u8; 8],
    pub emergency_priority_code: u8,
    pub reserved: u8,
}

/// The 12-bit all-ones sentinel meaning "horizontal velocity not available".
pub const HV_NOT_AVAILABLE: u16 = 0xFFF;

/// The 12-bit sentinel (sign bit alone) meaning "vertical velocity not
/// available".
pub const VV_NOT_AVAILABLE: u16 = 0x800;

/// The engineering value of the 12-bit vertical velocity field: the sentinel
/// decodes as absent, every other value is sign-extended and scaled by 64
/// feet per minute.
pub open spec fn vv_decode(raw: u16) -> Option<i16>
    recommends
        raw < 0x1000,
{
    if raw == VV_NOT_AVAILABLE {
        None
    } else if raw >= 0x800 {
        Some(((raw - 0x1000) * 64) as i16)
    } else {
        Some((raw * 64) as i16)
    }
}

/// The 12-bit field a vertical velocity is stored as: absent becomes the
/// sentinel, a value becomes the two's-complement form of its quotient by 64,
/// truncated toward zero.
pub open spec fn vv_encode(value: Option<i16>) -> u16 {
    match value {
        None => VV_NOT_AVAILABLE,
        Some(v) => if v >= 0 {
            (v as int / 64) as u16
        } else if (-(v as int)) / 64 == 0 {
            0
        } else {
            (4096 - (-(v as int)) / 64) as u16
        },
    }
}

/// Law: a vertical velocity stored as absent decodes as absent.
pub proof fn lemma_vertical_velocity_absent()
    ensures
        vv_decode(vv_encode(None)) is None,
{
}

/// Law: a vertical velocity that is a multiple of 64 feet per minute
/// round-trips exactly through its 12-bit field.
pub proof fn lemma_vertical_velocity_round_trip(v: i16)
    requires
        v as int % 64 == 0,
    ensures
        vv_decode(vv_encode(Some(v))) == Some(v),
{
    if v >= 0 {
        lemma_fundamental_div_mod(v as int, 64);
    } else {
        lemma_fundamental_div_mod(v as int, 64);
        lemma_fundamental_div_mod(-(v as int), 64);
        assert((-(v as int)) / 64 == -(v as int / 64));
    }
}

impl Report {
    /// `b` is the 27-byte packed form of `self`.
    pub open spec fn wire_form(self, b: Seq<u8>) -> bool {
        &&& b.len() == 27
        &&& self.traffic_alert_status == field(b, 0, 4)
        &&& self.address_type == field(b, 4, 4)
        &&& self.participant_address == field(b, 8, 24)
        &&& self.latitude == field(b, 32, 24)
        &&& self.longitude == field(b, 56, 24)
        &&& self.altitude == field(b, 80, 12)
        &&& self.heading_type == field(b, 92, 2)
        &&& self.report_type == field(b, 94, 1)
        &&& self.flight_stage == field(b, 95, 1)
        &&& self.navigation_integrity_category == field(b, 96, 4)
        &&& self.navigation_accuracy_category_for_position == field(b, 100, 4)
        &&& self.horizontal_velocity == field(b, 104, 12)
        &&& self.vertical_velocity == field(b, 116, 12)
        &&& self.track_heading == field(b, 128, 8)
        &&& self.emitter_category == field(b, 136, 8)
        &&& self.callsign@[0] == field(b, 144, 8)
        &&& self.callsign@[1] == field(b, 152, 8)
        &&& self.callsign@[2] == field(b, 160, 8)
        &&& self.callsign@[3] == field(b, 168, 8)
        &&& self.callsign@[4] == field(b, 176, 8)
        &&& self.callsign@[5] == field(b, 184, 8)
        &&& self.callsign@[6] == field(b, 192, 8)
        &&& self.callsign@[7] == field(b, 200, 8)
        &&& self.emergency_priority_code == field(b, 208, 4)
        &&& self.reserved == field(b, 212, 4)
    }

    /// Every field fits its declared bit width.
    pub open spec fn wf(self) -> bool {
        &&& self.traffic_alert_status < 16
        &&& self.address_type < 16
        &&& self.participant_address < 0x1000000
        &&& self.latitude < 0x1000000
        &&& self.longitude < 0x1000000
        &&& self.altitude < 0x1000
        &&& self.heading_type < 4
        &&& self.report_type < 2
        &&& self.flight_stage < 2
        &&& self.navigation_integrity_category < 16
        &&& self.navigation_accuracy_category_for_position < 16
        &&& self.horizontal_velocity < 0x1000
        &&& self.vertical_velocity < 0x1000
        &&& self.emergency_priority_code < 16
        &&& self.reserved < 16
    }

    fn check_wf(&self) -> (r: bool)
        ensures
            r == self.wf(),
    {
        self.traffic_alert_status < 16 && self.address_type < 16 && self.participant_address
            < 0x1000000 && self.latitude < 0x1000000 && self.longitude < 0x1000000 && self.altitude
            < 0x1000 && self.heading_type < 4 && self.report_type < 2 && self.flight_stage < 2
            && self.navigation_integrity_category < 16
            && self.navigation_accuracy_category_for_position < 16 && self.horizontal_velocity
            < 0x1000 && self.vertical_velocity < 0x1000 && self.emergency_priority_code < 16
            && self.reserved < 16
    }

    /// Pack the record into its 27-byte wire form; a field wider than its
    /// declared width is rejected.
    pub fn to_bytes(&self) -> (r: Result<Vec<u8>, GDL90Error>)
        ensures
            self.wf() ==> (r matches Ok(v) && self.wire_form(v@)),
            !self.wf() ==> (r matches Err(GDL90Error::InvalidParam(_))),
    {
        proof {
            lemma2_to64();
        }
        if !self.check_wf() {
            return Err(GDL90Error::InvalidParam("field value exceeds its declared bit width"));
        }
        let mut s = BitSink::new();
        s.push_bits(self.traffic_alert_status as u64, 4);
        s.push_bits(self.address_type as u64, 4);
        s.push_bits(self.participant_address as u64, 24);
        s.push_bits(self.latitude as u64, 24);
        s.push_bits(self.longitude as u64, 24);
        s.push_bits(self.altitude as u64, 12);
        s.push_bits(self.heading_type as u64, 2);
        s.push_bits(self.report_type as u64, 1);
        s.push_bits(self.flight_stage as u64, 1);
        s.push_bits(self.navigation_integrity_category as u64, 4);
        s.push_bits(self.navigation_accuracy_category_for_position as u64, 4);
        s.push_bits(self.horizontal_velocity as u64, 12);
        s.push_bits(self.vertical_velocity as u64, 12);
        s.push_bits(self.track_heading as u64, 8);
        s.push_bits(self.emitter_category as u64, 8);
        s.push_bits(self.callsign[0] as u64, 8);
        s.push_bits(self.callsign[1] as u64, 8);
        s.push_bits(self.callsign[2] as u64, 8);
        s.push_bits(self.callsign[3] as u64, 8);
        s.push_bits(self.callsign[4] as u64, 8);
        s.push_bits(self.callsign[5] as u64, 8);
        s.push_bits(self.callsign[6] as u64, 8);
        s.push_bits(self.callsign[7] as u64, 8);
        s.push_bits(self.emergency_priority_code as u64, 4);
        s.push_bits(self.reserved as u64, 4);
        Ok(s.finish())
    }

    /// Unpack a 27-byte buffer; a shorter one is incomplete, a longer one is
    /// rejected.
    pub fn try_from(data: &[u8]) -> (r: Result<Report, GDL90Error>)
        ensures
            data@.len() == 27 ==> (r matches Ok(rep) && rep.wire_form(data@) && rep.wf()),
            data@.len() < 27 ==> (r matches Err(GDL90Error::Incomplete(n)) && n == 216
                - data@.len() * 8),
            data@.len() > 27 ==> (r matches Err(GDL90Error::Parse(_))),
    {
        if data.len() < 27 {
            Err(GDL90Error::Incomplete(216 - data.len() * 8))
        } else if data.len() > 27 {
            Err(GDL90Error::Parse("more bytes than the record declares"))
        } else {
            proof {
                lemma2_to64();
            }
            let callsign: [u8; 8] = [
                read_bits(data, 144, 8) as u8,
                read_bits(data, 152, 8) as u8,
                read_bits(data, 160, 8) as u8,
                read_bits(data, 168, 8) as u8,
                read_bits(data, 176, 8) as u8,
                read_bits(data, 184, 8) as u8,
                read_bits(data, 192, 8) as u8,
                read_bits(data, 200, 8) as u8,
            ];
            Ok(
                Report {
                    traffic_alert_status: read_bits(data, 0, 4) as u8,
                    address_type: read_bits(data, 4, 4) as u8,
                    participant_address: read_bits(data, 8, 24) as u32,
                    latitude: read_bits(data, 32, 24) as u32,
                    longitude: read_bits(data, 56, 24) as u32,
                    altitude: read_bits(data, 80, 12) as u16,
                    heading_type: read_bits(data, 92, 2) as u8,
                    report_type: read_bits(data, 94, 1) as u8,
                    flight_stage: read_bits(data, 95, 1) as u8,
                    navigation_integrity_category: read_bits(data, 96, 4) as u8,
                    navigation_accuracy_category_for_position: read_bits(data, 100, 4) as u8,
                    horizontal_velocity: read_bits(data, 104, 12) as u16,
                    vertical_velocity: read_bits(data, 116, 12) as u16,
                    track_heading: read_bits(data, 128, 8) as u8,
                    emitter_category: read_bits(data, 136, 8) as u8,
                    callsign,
                    emergency_priority_code: read_bits(data, 208, 4) as u8,
                    reserved: read_bits(data, 212, 4) as u8,
                },
            )
        }
    }

    /// The callsign field read as text; all eight bytes take part.
    pub fn get_callsign(&self) -> (r: Result<&str, std::str::Utf8Error>)
        ensures
            match r {
                Ok(s) => valid_utf8(self.callsign@) && s@ == decode_utf8(self.callsign@),
                Err(_) => !valid_utf8(self.callsign@),
            },
    {
        utf8_from_bytes(self.callsign.as_slice())
    }

    pub fn set_callsign(&mut self, callsign: [u8; 8])
        ensures
            *final(self) == (Report { callsign, ..*old(self) }),
    {
        self.callsign = callsign;
    }

    /// Altitude in feet: the raw 12-bit field times 25, offset by -1000.
    pub fn get_altitude(&self) -> (r: i32)
        ensures
            r == self.altitude * 25 - 1000,
    {
        (self.altitude as i32) * 25 - 1000
    }

    /// Store an altitude in feet; it must map into the 12-bit raw field.
    pub fn set_altitude(&mut self, value: i32)
        requires
            -1000 <= value <= 101399,
        ensures
            final(self).altitude == (value + 1000) / 25,
            *final(self) == (Report { altitude: final(self).altitude, ..*old(self) }),
    {
        self.altitude = (((value + 1000) as u32) / 25) as u16;
    }

    /// Horizontal velocity in knots; raw values at or above the all-ones
    /// sentinel decode as absent.
    pub fn get_horizontal_velocity(&self) -> (r: Option<u16>)
        ensures
            r == (if self.horizontal_velocity >= HV_NOT_AVAILABLE {
                None
            } else {
                Some(self.horizontal_velocity)
            }),
    {
        if self.horizontal_velocity >= HV_NOT_AVAILABLE {
            None
        } else {
            Some(self.horizontal_velocity)
        }
    }

    /// Store a horizontal velocity; absent values and values at or above the
    /// sentinel are written as the sentinel.
    pub fn set_horizontal_velocity(&mut self, value: Option<u16>)
        ensures
            final(self).horizontal_velocity == (match value {
                Some(v) => if v >= HV_NOT_AVAILABLE {
                    HV_NOT_AVAILABLE
                } else {
                    v
                },
                None => HV_NOT_AVAILABLE,
            }),
            *final(self) == (Report {
                horizontal_velocity: final(self).horizontal_velocity,
                ..*old(self)
            }),
    {
        if let Some(value) = value {
            if value >= HV_NOT_AVAILABLE {
                self.horizontal_velocity = HV_NOT_AVAILABLE;
            } else {
                self.horizontal_velocity = value;
            }
        } else {
            self.horizontal_velocity = HV_NOT_AVAILABLE;
        }
    }

    /// Vertical velocity in feet per minute.  The raw field must be the
    /// sentinel or small enough for the scaled value to fit a 16-bit signed
    /// integer, as every value written by [`Report::set_vertical_velocity`]
    /// is.
    pub fn get_vertical_velocity(&self) -> (r: Option<i16>)
        requires
            self.vertical_velocity == VV_NOT_AVAILABLE || self.vertical_velocity < 0x200 || (0xE00
                <= self.vertical_velocity < 0x1000),
        ensures
            r == vv_decode(self.vertical_velocity),
    {
        let raw = self.vertical_velocity;
        if raw == VV_NOT_AVAILABLE {
            None
        } else if raw >= 0xE00 {
            let mag: u16 = 0x1000 - raw;
            Some((-((mag as i32) * 64)) as i16)
        } else {
            Some(((raw as i32) * 64) as i16)
        }
    }

    /// Store a vertical velocity in feet per minute; absent values are
    /// written as the sentinel, others as the two's-complement quotient by
    /// 64.
    pub fn set_vertical_velocity(&mut self, value: Option<i16>)
        ensures
            final(self).vertical_velocity == vv_encode(value),
            *final(self) == (Report {
                vertical_velocity: final(self).vertical_velocity,
                ..*old(self)
            }),
    {
        if let Some(v) = value {
            if v >= 0 {
                self.vertical_velocity = (v as u16) / 64;
            } else {
                let mag: u32 = ((-(v as i32)) as u32) / 64;
                if mag == 0 {
                    self.vertical_velocity = 0;
                } else {
                    self.vertical_velocity = (4096 - mag) as u16;
                }
            }
        } else {
            self.vertical_velocity = VV_NOT_AVAILABLE;
        }
    }

    /// Traffic alert status as its variant.
    pub fn get_traffic_alert_status(&self) -> (r: TrafficAlertStatus)
        requires
            self.traffic_alert_status < 16,
        ensures
            r == TrafficAlertStatus::spec_from_ordinal(self.traffic_alert_status as nat),
    {
        TrafficAlertStatus::from_ordinal(self.traffic_alert_status)
    }

    pub fn set_traffic_alert_status(&mut self, value: TrafficAlertStatus)
        ensures
            final(self).traffic_alert_status == value.spec_ordinal(),
            *final(self) == (Report {
                traffic_alert_status: final(self).traffic_alert_status,
                ..*old(self)
            }),
    {
        self.traffic_alert_status = value.ordinal();
    }

    /// Address type as its variant.
    pub fn get_address_type(&self) -> (r: AddressType)
        requires
            self.address_type < 16,
        ensures
            r == AddressType::spec_from_ordinal(self.address_type as nat),
    {
        AddressType::from_ordinal(self.address_type)
    }

    pub fn set_address_type(&mut self, value: AddressType)
        ensures
            final(self).address_type == value.spec_ordinal(),
            *final(self) == (Report { address_type: final(self).address_type, ..*old(self) }),
    {
        self.address_type = value.ordinal();
    }

    /// Heading type as its variant.
    pub fn get_heading_type(&self) -> (r: HeadingType)
        requires
            self.heading_type < 4,
        ensures
            r == HeadingType::spec_from_ordinal(self.heading_type as nat),
    {
        HeadingType::from_ordinal(self.heading_type)
    }

    pub fn set_heading_type(&mut self, value: HeadingType)
        ensures
            final(self).heading_type == value.spec_ordinal(),
            *final(self) == (Report { heading_type: final(self).heading_type, ..*old(self) }),
    {
        self.heading_type = value.ordinal();
    }

    /// Report type as its variant.
    pub fn get_report_type(&self) -> (r: ReportType)
        requires
            self.report_type < 2,
        ensures
            r == ReportType::spec_from_ordinal(self.report_type as nat),
    {
        ReportType::from_ordinal(self.report_type)
    }

    pub fn set_report_type(&mut self, value: ReportType)
        ensures
            final(self).report_type == value.spec_ordinal(),
            *final(self) == (Report { report_type: final(self).report_type, ..*old(self) }),
    {
        self.report_type = value.ordinal();
    }

    /// Flight stage as its variant.
    pub fn get_flight_stage(&self) -> (r: FlightStage)
        requires
            self.flight_stage < 2,
        ensures
            r == FlightStage::spec_from_ordinal(self.flight_stage as nat),
    {
        FlightStage::from_ordinal(self.flight_stage)
    }

    pub fn set_flight_stage(&mut self, value: FlightStage)
        ensures
            final(self).flight_stage == value.spec_ordinal(),
            *final(self) == (Report { flight_stage: final(self).flight_stage, ..*old(self) }),
    {
        self.flight_stage = value.ordinal();
    }

    /// Navigation integrity category as its variant.
    pub fn get_navigation_integrity_category(&self) -> (r: NIC)
        requires
            self.navigation_integrity_category < 16,
        ensures
            r == NIC::spec_from_ordinal(self.navigation_integrity_category as nat),
    {
        NIC::from_ordinal(self.navigation_integrity_category)
    }

    pub fn set_navigation_integrity_category(&mut self, value: NIC)
        ensures
            final(self).navigation_integrity_category == value.spec_ordinal(),
            *final(self) == (Report {
                navigation_integrity_category: final(self).navigation_integrity_category,
                ..*old(self)
            }),
    {
        self.navigation_integrity_category = value.ordinal();
    }

    /// Navigation accuracy category for position as its variant.
    pub fn get_navigation_accuracy_category_for_position(&self) -> (r: NACp)
        requires
            self.navigation_accuracy_category_for_position < 16,
        ensures
            r == NACp::spec_from_ordinal(self.navigation_accuracy_category_for_position as nat),
    {
        NACp::from_ordinal(self.navigation_accuracy_category_for_position)
    }

    pub fn set_navigation_accuracy_category_for_position(&mut self, value: NACp)
        ensures
            final(self).navigation_accuracy_category_for_position == value.spec_ordinal(),
            *final(self) == (Report {
                navigation_accuracy_category_for_position: final(self).navigation_accuracy_category_for_position,
                ..*old(self)
            }),
    {
        self.navigation_accuracy_category_for_position = value.ordinal();
    }

    /// Emitter category as its variant; the raw field must fall among the
    /// assigned ordinals.
    pub fn get_emitter_category(&self) -> (r: EmitterCategory)
        requires
            self.emitter_category < 40,
        ensures
            r == EmitterCategory::spec_from_ordinal(self.emitter_category as nat),
    {
        EmitterCategory::from_ordinal(self.emitter_category)
    }

    pub fn set_emitter_category(&mut self, value: EmitterCategory)
        ensures
            final(self).emitter_category == value.spec_ordinal(),
            *final(self) == (Report {
                emitter_category: final(self).emitter_category,
                ..*old(self)
            }),
    {
        self.emitter_category = value.ordinal();
    }

    /// Emergency and priority code as its variant.
    pub fn get_emergency_priority_code(&self) -> (r: EmergencyPriorityCode)
        requires
            self.emergency_priority_code < 16,
        ensures
            r == EmergencyPriorityCode::spec_from_ordinal(self.emergency_priority_code as nat),
    {
        EmergencyPriorityCode::from_ordinal(self.emergency_priority_code)
    }

    pub fn set_emergency_priority_code(&mut self, value: EmergencyPriorityCode)
        ensures
            final(self).emergency_priority_code == value.spec_ordinal(),
            *final(self) == (Report {
                emergency_priority_code: final(self).emergency_priority_code,
                ..*old(self)
            }),
    {
        self.emergency_priority_code = value.ordinal();
    }
}

/// Navigation integrity category, a 4-bit ordinal field.
#[derive(Debug, PartialEq, Clone, Copy)]
pub enum NIC {
    Unknown,
    Lt20_0NM,
    Lt8_0NM,
    Lt4_0NM,
    Lt2_0NM,
    Lt1_0NM,
    Lt0_6NM,
    Lt0_2nm,
    Lt0_1NM,
    HPLlt75mAndVPLlt112m,
    HPLlt25mAndVPLlt37_5m,
    HPLlt7_5mAndVPLlt11m,
    Unused1,
    Unused2,
    Unused3,
    Unused4,
}

impl NIC {
    /// The ordinal the variant is stored as.
    pub open spec fn spec_ordinal(self) -> nat {
        match self {
            NIC::Unknown => 0,
            NIC::Lt20_0NM => 1,
            NIC::Lt8_0NM => 2,
            NIC::Lt4_0NM => 3,
            NIC::Lt2_0NM => 4,
            NIC::Lt1_0NM => 5,
            NIC::Lt0_6NM => 6,
            NIC::Lt0_2nm => 7,
            NIC::Lt0_1NM => 8,
            NIC::HPLlt75mAndVPLlt112m => 9,
            NIC::HPLlt25mAndVPLlt37_5m => 10,
            NIC::HPLlt7_5mAndVPLlt11m => 11,
            NIC::Unused1 => 12,
            NIC::Unused2 => 13,
            NIC::Unused3 => 14,
            NIC::Unused4 => 15,
        }
    }

    /// The variant stored as ordinal `v`.
    pub open spec fn spec_from_ordinal(v: nat) -> NIC {
        if v == 0 {
            NIC::Unknown
        } else if v == 1 {
            NIC::Lt20_0NM
        } else if v == 2 {
            NIC::Lt8_0NM
        } else if v == 3 {
            NIC::Lt4_0NM
        } else if v == 4 {
            NIC::Lt2_0NM
        } else if v == 5 {
            NIC::Lt1_0NM
        } else if v == 6 {
            NIC::Lt0_6NM
        } else if v == 7 {
            NIC::Lt0_2nm
        } else if v == 8 {
            NIC::Lt0_1NM
        } else if v == 9 {
            NIC::HPLlt75mAndVPLlt112m
        } else if v == 10 {
            NIC::HPLlt25mAndVPLlt37_5m
        } else if v == 11 {
            NIC::HPLlt7_5mAndVPLlt11m
        } else if v == 12 {
            NIC::Unused1
        } else if v == 13 {
            NIC::Unused2
        } else if v == 14 {
            NIC::Unused3
        } else {
            NIC::Unused4
        }
    }

    /// The raw wire encoding of the variant.
    pub fn ordinal(&self) -> (r: u8)
        ensures
            r as nat == self.spec_ordinal(),
            r < 16,
    {
        match self {
            NIC::Unknown => 0,
            NIC::Lt20_0NM => 1,
            NIC::Lt8_0NM => 2,
            NIC::Lt4_0NM => 3,
            NIC::Lt2_0NM => 4,
            NIC::Lt1_0NM => 5,
            NIC::Lt0_6NM => 6,
            NIC::Lt0_2nm => 7,
            NIC::Lt0_1NM => 8,
            NIC::HPLlt75mAndVPLlt112m => 9,
            NIC::HPLlt25mAndVPLlt37_5m => 10,
            NIC::HPLlt7_5mAndVPLlt11m => 11,
            NIC::Unused1 => 12,
            NIC::Unused2 => 13,
            NIC::Unused3 => 14,
            NIC::Unused4 => 15,
        }
    }

    /// The variant a raw field value decodes to.
    pub fn from_ordinal(v: u8) -> (r: NIC)
        requires
            v < 16,
        ensures
            r == NIC::spec_from_ordinal(v as nat),
    {
        if v == 0 {
            NIC::Unknown
        } else if v == 1 {
            NIC::Lt20_0NM
        } else if v == 2 {
            NIC::Lt8_0NM
        } else if v == 3 {
            NIC::Lt4_0NM
        } else if v == 4 {
            NIC::Lt2_0NM
        } else if v == 5 {
            NIC::Lt1_0NM
        } else if v == 6 {
            NIC::Lt0_6NM
        } else if v == 7 {
            NIC::Lt0_2nm
        } else if v == 8 {
            NIC::Lt0_1NM
        } else if v == 9 {
            NIC::HPLlt75mAndVPLlt112m
        } else if v == 10 {
            NIC::HPLlt25mAndVPLlt37_5m
        } else if v == 11 {
            NIC::HPLlt7_5mAndVPLlt11m
        } else if v == 12 {
            NIC::Unused1
        } else if v == 13 {
            NIC::Unused2
        } else if v == 14 {
            NIC::Unused3
        } else {
            NIC::Unused4
        }
    }
}

/// Navigation accuracy category for position, a 4-bit ordinal field.
#[derive(Debug, PartialEq, Clone, Copy)]
pub enum NACp {
    Unknown,
    Lt10_0NM,
    Lt4_0NM,
    Lt2_0NM,
    Lt1_0NM,
    Lt0_5NM,
    Lt0_3NM,
    Lt0_1NM,
    Lt0_05NM,
    HFOMlt30mAndVFOMlt45m,
    HFOMlt10mAndVFOMlt15m,
    HFOMlt3mandVFOMlt4m,
    Unused1,
    Unused2,
    Unused3,
    Unused4,
}

impl NACp {
    /// The ordinal the variant is stored as.
    pub open spec fn spec_ordinal(self) -> nat {
        match self {
            NACp::Unknown => 0,
            NACp::Lt10_0NM => 1,
            NACp::Lt4_0NM => 2,
            NACp::Lt2_0NM => 3,
            NACp::Lt1_0NM => 4,
            NACp::Lt0_5NM => 5,
            NACp::Lt0_3NM => 6,
            NACp::Lt0_1NM => 7,
            NACp::Lt0_05NM => 8,
            NACp::HFOMlt30mAndVFOMlt45m => 9,
            NACp::HFOMlt10mAndVFOMlt15m => 10,
            NACp::HFOMlt3mandVFOMlt4m => 11,
            NACp::Unused1 => 12,
            NACp::Unused2 => 13,
            NACp::Unused3 => 14,
            NACp::Unused4 => 15,
        }
    }

    /// The variant stored as ordinal `v`.
    pub open spec fn spec_from_ordinal(v: nat) -> NACp {
        if v == 0 {
            NACp::Unknown
        } else if v == 1 {
            NACp::Lt10_0NM
        } else if v == 2 {
            NACp::Lt4_0NM
        } else if v == 3 {
            NACp::Lt2_0NM
        } else if v == 4 {
            NACp::Lt1_0NM
        } else if v == 5 {
            NACp::Lt0_5NM
        } else if v == 6 {
            NACp::Lt0_3NM
        } else if v == 7 {
            NACp::Lt0_1NM
        } else if v == 8 {
            NACp::Lt0_05NM
        } else if v == 9 {
            NACp::HFOMlt30mAndVFOMlt45m
        } else if v == 10 {
            NACp::HFOMlt10mAndVFOMlt15m
        } else if v == 11 {
            NACp::HFOMlt3mandVFOMlt4m
        } else if v == 12 {
            NACp::Unused1
        } else if v == 13 {
            NACp::Unused2
        } else if v == 14 {
            NACp::Unused3
        } else {
            NACp::Unused4
        }
    }

    /// The raw wire encoding of the variant.
    pub fn ordinal(&self) -> (r: u8)
        ensures
            r as nat == self.spec_ordinal(),
            r < 16,
    {
        match self {
            NACp::Unknown => 0,
            NACp::Lt10_0NM => 1,
            NACp::Lt4_0NM => 2,
            NACp::Lt2_0NM => 3,
            NACp::Lt1_0NM => 4,
            NACp::Lt0_5NM => 5,
            NACp::Lt0_3NM => 6,
            NACp::Lt0_1NM => 7,
            NACp::Lt0_05NM => 8,
            NACp::HFOMlt30mAndVFOMlt45m => 9,
            NACp::HFOMlt10mAndVFOMlt15m => 10,
            NACp::HFOMlt3mandVFOMlt4m => 11,
            NACp::Unused1 => 12,
            NACp::Unused2 => 13,
            NACp::Unused3 => 14,
            NACp::Unused4 => 15,
        }
    }

    /// The variant a raw field value decodes to.
    pub fn from_ordinal(v: u8) -> (r: NACp)
        requires
            v < 16,
        ensures
            r == NACp::spec_from_ordinal(v as nat),
    {
        if v == 0 {
            NACp::Unknown
        } else if v == 1 {
            NACp::Lt10_0NM
        } else if v == 2 {
            NACp::Lt4_0NM
        } else if v == 3 {
            NACp::Lt2_0NM
        } else if v == 4 {
            NACp::Lt1_0NM
        } else if v == 5 {
            NACp::Lt0_5NM
        } else if v == 6 {
            NACp::Lt0_3NM
        } else if v == 7 {
            NACp::Lt0_1NM
        } else if v == 8 {
            NACp::Lt0_05NM
        } else if v == 9 {
            NACp::HFOMlt30mAndVFOMlt45m
        } else if v == 10 {
            NACp::HFOMlt10mAndVFOMlt15m
        } else if v == 11 {
            NACp::HFOMlt3mandVFOMlt4m
        } else if v == 12 {
            NACp::Unused1
        } else if v == 13 {
            NACp::Unused2
        } else if v == 14 {
            NACp::Unused3
        } else {
            NACp::Unused4
        }
    }
}

/// Emergency and priority code, a 4-bit ordinal field.
#[derive(Debug, PartialEq, Clone, Copy)]
pub enum EmergencyPriorityCode {
    NoEmergency,
    GeneralEmergency,
    MedicalEmergency,
    MinimumFuel,
    NoCommunication,
    UnlawfulInterference,
    DownedAircraft,
    Reserved1,
    Reserved2,
    Reserved3,
    Reserved4,
    Reserved5,
    Reserved6,
    Reserved7,
    Reserved8,
    Reserved9,
}

impl EmergencyPriorityCode {
    /// The ordinal the variant is stored as.
    pub open spec fn spec_ordinal(self) -> nat {
        match self {
            EmergencyPriorityCode::NoEmergency => 0,
            EmergencyPriorityCode::GeneralEmergency => 1,
            EmergencyPriorityCode::MedicalEmergency => 2,
            EmergencyPriorityCode::MinimumFuel => 3,
            EmergencyPriorityCode::NoCommunication => 4,
            EmergencyPriorityCode::UnlawfulInterference => 5,
            EmergencyPriorityCode::DownedAircraft => 6,
            EmergencyPriorityCode::Reserved1 => 7,
            EmergencyPriorityCode::Reserved2 => 8,
            EmergencyPriorityCode::Reserved3 => 9,
            EmergencyPriorityCode::Reserved4 => 10,
            EmergencyPriorityCode::Reserved5 => 11,
            EmergencyPriorityCode::Reserved6 => 12,
            EmergencyPriorityCode::Reserved7 => 13,
            EmergencyPriorityCode::Reserved8 => 14,
            EmergencyPriorityCode::Reserved9 => 15,
        }
    }

    /// The variant stored as ordinal `v`.
    pub open spec fn spec_from_ordinal(v: nat) -> EmergencyPriorityCode {
        if v == 0 {
            EmergencyPriorityCode::NoEmergency
        } else if v == 1 {
            EmergencyPriorityCode::GeneralEmergency
        } else if v == 2 {
            EmergencyPriorityCode::MedicalEmergency
        } else if v == 3 {
            EmergencyPriorityCode::MinimumFuel
        } else if v == 4 {
            EmergencyPriorityCode::NoCommunication
        } else if v == 5 {
            EmergencyPriorityCode::UnlawfulInterference
        } else if v == 6 {
            EmergencyPriorityCode::DownedAircraft
        } else if v == 7 {
            EmergencyPriorityCode::Reserved1
        } else if v == 8 {
            EmergencyPriorityCode::Reserved2
        } else if v == 9 {
            EmergencyPriorityCode::Reserved3
        } else if v == 10 {
            EmergencyPriorityCode::Reserved4
        } else if v == 11 {
            EmergencyPriorityCode::Reserved5
        } else if v == 12 {
            EmergencyPriorityCode::Reserved6
        } else if v == 13 {
            EmergencyPriorityCode::Reserved7
        } else if v == 14 {
            EmergencyPriorityCode::Reserved8
        } else {
            EmergencyPriorityCode::Reserved9
        }
    }

    /// The raw wire encoding of the variant.
    pub fn ordinal(&self) -> (r: u8)
        ensures
            r as nat == self.spec_ordinal(),
            r < 16,
    {
        match self {
            EmergencyPriorityCode::NoEmergency => 0,
            EmergencyPriorityCode::GeneralEmergency => 1,
            EmergencyPriorityCode::MedicalEmergency => 2,
            EmergencyPriorityCode::MinimumFuel => 3,
            EmergencyPriorityCode::NoCommunication => 4,
            EmergencyPriorityCode::UnlawfulInterference => 5,
            EmergencyPriorityCode::DownedAircraft => 6,
            EmergencyPriorityCode::Reserved1 => 7,
            EmergencyPriorityCode::Reserved2 => 8,
            EmergencyPriorityCode::Reserved3 => 9,
            EmergencyPriorityCode::Reserved4 => 10,
            EmergencyPriorityCode::Reserved5 => 11,
            EmergencyPriorityCode::Reserved6 => 12,
            EmergencyPriorityCode::Reserved7 => 13,
            EmergencyPriorityCode::Reserved8 => 14,
            EmergencyPriorityCode::Reserved9 => 15,
        }
    }

    /// The variant a raw field value decodes to.
    pub fn from_ordinal(v: u8) -> (r: EmergencyPriorityCode)
        requires
            v < 16,
        ensures
            r == EmergencyPriorityCode::spec_from_ordinal(v as nat),
    {
        if v == 0 {
            EmergencyPriorityCode::NoEmergency
        } else if v == 1 {
            EmergencyPriorityCode::GeneralEmergency
        } else if v == 2 {
            EmergencyPriorityCode::MedicalEmergency
        } else if v == 3 {
            EmergencyPriorityCode::MinimumFuel
        } else if v == 4 {
            EmergencyPriorityCode::NoCommunication
        } else if v == 5 {
            EmergencyPriorityCode::UnlawfulInterference
        } else if v == 6 {
            EmergencyPriorityCode::DownedAircraft
        } else if v == 7 {
            EmergencyPriorityCode::Reserved1
        } else if v == 8 {
            EmergencyPriorityCode::Reserved2
        } else if v == 9 {
            EmergencyPriorityCode::Reserved3
        } else if v == 10 {
            EmergencyPriorityCode::Reserved4
        } else if v == 11 {
            EmergencyPriorityCode::Reserved5
        } else if v == 12 {
            EmergencyPriorityCode::Reserved6
        } else if v == 13 {
            EmergencyPriorityCode::Reserved7
        } else if v == 14 {
            EmergencyPriorityCode::Reserved8
        } else {
            EmergencyPriorityCode::Reserved9
        }
    }
}

/// Emitter category, an 8-bit ordinal field whose assigned values stop at the last reserved variant.
#[derive(Debug, PartialEq, Clone, Copy)]
pub enum EmitterCategory {
    NoAircraftTypeInformation,
    Light,
    Small,
    Large,
    HighVortexLarge,
    Heavy,
    HighlyManeuverable,
    Rotorcraft,
    Unassigned1,
    GliderSailplane,
    LighterThanAir,
    ParachutistSkyDiver,
    UltraLightHangGliderParaglider,
    Unassigned2,
    UnmannedAerialVehicle,
    SpaceTransatmosphericVehicle,
    Unassigned3,
    SurfaceVehicleEmergencyVehicle,
    SurfaceVehicleServiceVehicle,
    PointObstacle,
    ClusterObstacle,
    LineObstacle,
    Reserved1,
    Reserved2,
    Reserved3,
    Reserved4,
    Reserved5,
    Reserved6,
    Reserved7,
    Reserved8,
    Reserved9,
    Reserved10,
    Reserved11,
    Reserved12,
    Reserved13,
    Reserved14,
    Reserved15,
    Reserved16,
    Reserved17,
    Reserved18,
}

impl EmitterCategory {
    /// The ordinal the variant is stored as.
    pub open spec fn spec_ordinal(self) -> nat {
        match self {
            EmitterCategory::NoAircraftTypeInformation => 0,
            EmitterCategory::Light => 1,
            EmitterCategory::Small => 2,
            EmitterCategory::Large => 3,
            EmitterCategory::HighVortexLarge => 4,
            EmitterCategory::Heavy => 5,
            EmitterCategory::HighlyManeuverable => 6,
            EmitterCategory::Rotorcraft => 7,
            EmitterCategory::Unassigned1 => 8,
            EmitterCategory::GliderSailplane => 9,
            EmitterCategory::LighterThanAir => 10,
            EmitterCategory::ParachutistSkyDiver => 11,
            EmitterCategory::UltraLightHangGliderParaglider => 12,
            EmitterCategory::Unassigned2 => 13,
            EmitterCategory::UnmannedAerialVehicle => 14,
            EmitterCategory::SpaceTransatmosphericVehicle => 15,
            EmitterCategory::Unassigned3 => 16,
            EmitterCategory::SurfaceVehicleEmergencyVehicle => 17,
            EmitterCategory::SurfaceVehicleServiceVehicle => 18,
            EmitterCategory::PointObstacle => 19,
            EmitterCategory::ClusterObstacle => 20,
            EmitterCategory::LineObstacle => 21,
            EmitterCategory::Reserved1 => 22,
            EmitterCategory::Reserved2 => 23,
            EmitterCategory::Reserved3 => 24,
            EmitterCategory::Reserved4 => 25,
            EmitterCategory::Reserved5 => 26,
            EmitterCategory::Reserved6 => 27,
            EmitterCategory::Reserved7 => 28,
            EmitterCategory::Reserved8 => 29,
            EmitterCategory::Reserved9 => 30,
            EmitterCategory::Reserved10 => 31,
            EmitterCategory::Reserved11 => 32,
            EmitterCategory::Reserved12 => 33,
            EmitterCategory::Reserved13 => 34,
            EmitterCategory::Reserved14 => 35,
            EmitterCategory::Reserved15 => 36,
            EmitterCategory::Reserved16 => 37,
            EmitterCategory::Reserved17 => 38,
            EmitterCategory::Reserved18 => 39,
        }
    }

    /// The variant stored as ordinal `v`.
    pub open spec fn spec_from_ordinal(v: nat) -> EmitterCategory {
        if v == 0 {
            EmitterCategory::NoAircraftTypeInformation
        } else if v == 1 {
            EmitterCategory::Light
        } else if v == 2 {
            EmitterCategory::Small
        } else if v == 3 {
            EmitterCategory::Large
        } else if v == 4 {
            EmitterCategory::HighVortexLarge
        } else if v == 5 {
            EmitterCategory::Heavy
        } else if v == 6 {
            EmitterCategory::HighlyManeuverable
        } else if v == 7 {
            EmitterCategory::Rotorcraft
        } else if v == 8 {
            EmitterCategory::Unassigned1
        } else if v == 9 {
            EmitterCategory::GliderSailplane
        } else if v == 10 {
            EmitterCategory::LighterThanAir
        } else if v == 11 {
            EmitterCategory::ParachutistSkyDiver
        } else if v == 12 {
            EmitterCategory::UltraLightHangGliderParaglider
        } else if v == 13 {
            EmitterCategory::Unassigned2
        } else if v == 14 {
            EmitterCategory::UnmannedAerialVehicle
        } else if v == 15 {
            EmitterCategory::SpaceTransatmosphericVehicle
        } else if v == 16 {
            EmitterCategory::Unassigned3
        } else if v == 17 {
            EmitterCategory::SurfaceVehicleEmergencyVehicle
        } else if v == 18 {
            EmitterCategory::SurfaceVehicleServiceVehicle
        } else if v == 19 {
            EmitterCategory::PointObstacle
        } else if v == 20 {
            EmitterCategory::ClusterObstacle
        } else if v == 21 {
            EmitterCategory::LineObstacle
        } else if v == 22 {
            EmitterCategory::Reserved1
        } else if v == 23 {
            EmitterCategory::Reserved2
        } else if v == 24 {
            EmitterCategory::Reserved3
        } else if v == 25 {
            EmitterCategory::Reserved4
        } else if v == 26 {
            EmitterCategory::Reserved5
        } else if v == 27 {
            EmitterCategory::Reserved6
        } else if v == 28 {
            EmitterCategory::Reserved7
        } else if v == 29 {
            EmitterCategory::Reserved8
        } else if v == 30 {
            EmitterCategory::Reserved9
        } else if v == 31 {
            EmitterCategory::Reserved10
        } else if v == 32 {
            EmitterCategory::Reserved11
        } else if v == 33 {
            EmitterCategory::Reserved12
        } else if v == 34 {
            EmitterCategory::Reserved13
        } else if v == 35 {
            EmitterCategory::Reserved14
        } else if v == 36 {
            EmitterCategory::Reserved15
        } else if v == 37 {
            EmitterCategory::Reserved16
        } else if v == 38 {
            EmitterCategory::Reserved17
        } else {
            EmitterCategory::Reserved18
        }
    }

    /// The raw wire encoding of the variant.
    pub fn ordinal(&self) -> (r: u8)
        ensures
            r as nat == self.spec_ordinal(),
            r < 40,
    {
        match self {
            EmitterCategory::NoAircraftTypeInformation => 0,
            EmitterCategory::Light => 1,
            EmitterCategory::Small => 2,
            EmitterCategory::Large => 3,
            EmitterCategory::HighVortexLarge => 4,
            EmitterCategory::Heavy => 5,
            EmitterCategory::HighlyManeuverable => 6,
            EmitterCategory::Rotorcraft => 7,
            EmitterCategory::Unassigned1 => 8,
            EmitterCategory::GliderSailplane => 9,
            EmitterCategory::LighterThanAir => 10,
            EmitterCategory::ParachutistSkyDiver => 11,
            EmitterCategory::UltraLightHangGliderParaglider => 12,
            EmitterCategory::Unassigned2 => 13,
            EmitterCategory::UnmannedAerialVehicle => 14,
            EmitterCategory::SpaceTransatmosphericVehicle => 15,
            EmitterCategory::Unassigned3 => 16,
            EmitterCategory::SurfaceVehicleEmergencyVehicle => 17,
            EmitterCategory::SurfaceVehicleServiceVehicle => 18,
            EmitterCategory::PointObstacle => 19,
            EmitterCategory::ClusterObstacle => 20,
            EmitterCategory::LineObstacle => 21,
            EmitterCategory::Reserved1 => 22,
            EmitterCategory::Reserved2 => 23,
            EmitterCategory::Reserved3 => 24,
            EmitterCategory::Reserved4 => 25,
            EmitterCategory::Reserved5 => 26,
            EmitterCategory::Reserved6 => 27,
            EmitterCategory::Reserved7 => 28,
            EmitterCategory::Reserved8 => 29,
            EmitterCategory::Reserved9 => 30,
            EmitterCategory::Reserved10 => 31,
            EmitterCategory::Reserved11 => 32,
            EmitterCategory::Reserved12 => 33,
            EmitterCategory::Reserved13 => 34,
            EmitterCategory::Reserved14 => 35,
            EmitterCategory::Reserved15 => 36,
            EmitterCategory::Reserved16 => 37,
            EmitterCategory::Reserved17 => 38,
            EmitterCategory::Reserved18 => 39,
        }
    }

    /// The variant a raw field value decodes to.
    pub fn from_ordinal(v: u8) -> (r: EmitterCategory)
        requires
            v < 40,
        ensures
            r == EmitterCategory::spec_from_ordinal(v as nat),
    {
        if v == 0 {
            EmitterCategory::NoAircraftTypeInformation
        } else if v == 1 {
            EmitterCategory::Light
        } else if v == 2 {
            EmitterCategory::Small
        } else if v == 3 {
            EmitterCategory::Large
        } else if v == 4 {
            EmitterCategory::HighVortexLarge
        } else if v == 5 {
            EmitterCategory::Heavy
        } else if v == 6 {
            EmitterCategory::HighlyManeuverable
        } else if v == 7 {
            EmitterCategory::Rotorcraft
        } else if v == 8 {
            EmitterCategory::Unassigned1
        } else if v == 9 {
            EmitterCategory::GliderSailplane
        } else if v == 10 {
            EmitterCategory::LighterThanAir
        } else if v == 11 {
            EmitterCategory::ParachutistSkyDiver
        } else if v == 12 {
            EmitterCategory::UltraLightHangGliderParaglider
        } else if v == 13 {
            EmitterCategory::Unassigned2
        } else if v == 14 {
            EmitterCategory::UnmannedAerialVehicle
        } else if v == 15 {
            EmitterCategory::SpaceTransatmosphericVehicle
        } else if v == 16 {
            EmitterCategory::Unassigned3
        } else if v == 17 {
            EmitterCategory::SurfaceVehicleEmergencyVehicle
        } else if v == 18 {
            EmitterCategory::SurfaceVehicleServiceVehicle
        } else if v == 19 {
            EmitterCategory::PointObstacle
        } else if v == 20 {
            EmitterCategory::ClusterObstacle
        } else if v == 21 {
            EmitterCategory::LineObstacle
        } else if v == 22 {
            EmitterCategory::Reserved1
        } else if v == 23 {
            EmitterCategory::Reserved2
        } else if v == 24 {
            EmitterCategory::Reserved3
        } else if v == 25 {
            EmitterCategory::Reserved4
        } else if v == 26 {
            EmitterCategory::Reserved5
        } else if v == 27 {
            EmitterCategory::Reserved6
        } else if v == 28 {
            EmitterCategory::Reserved7
        } else if v == 29 {
            EmitterCategory::Reserved8
        } else if v == 30 {
            EmitterCategory::Reserved9
        } else if v == 31 {
            EmitterCategory::Reserved10
        } else if v == 32 {
            EmitterCategory::Reserved11
        } else if v == 33 {
            EmitterCategory::Reserved12
        } else if v == 34 {
            EmitterCategory::Reserved13
        } else if v == 35 {
            EmitterCategory::Reserved14
        } else if v == 36 {
            EmitterCategory::Reserved15
        } else if v == 37 {
            EmitterCategory::Reserved16
        } else if v == 38 {
            EmitterCategory::Reserved17
        } else {
            EmitterCategory::Reserved18
        }
    }
}

/// Flight stage, a 1-bit ordinal field.
#[derive(Debug, PartialEq, Clone, Copy)]
pub enum FlightStage {
    OnGround,
    Airborne,
}

impl FlightStage {
    /// The ordinal the variant is stored as.
    pub open spec fn spec_ordinal(self) -> nat {
        match self {
            FlightStage::OnGround => 0,
            FlightStage::Airborne => 1,
        }
    }

    /// The variant stored as ordinal `v`.
    pub open spec fn spec_from_ordinal(v: nat) -> FlightStage {
        if v == 0 {
            FlightStage::OnGround
        } else {
            FlightStage::Airborne
        }
    }

    /// The raw wire encoding of the variant.
    pub fn ordinal(&self) -> (r: u8)
        ensures
            r as nat == self.spec_ordinal(),
            r < 2,
    {
        match self {
            FlightStage::OnGround => 0,
            FlightStage::Airborne => 1,
        }
    }

    /// The variant a raw field value decodes to.
    pub fn from_ordinal(v: u8) -> (r: FlightStage)
        requires
            v < 2,
        ensures
            r == FlightStage::spec_from_ordinal(v as nat),
    {
        if v == 0 {
            FlightStage::OnGround
        } else {
            FlightStage::Airborne
        }
    }
}

/// Report type, a 1-bit ordinal field.
#[derive(Debug, PartialEq, Clone, Copy)]
pub enum ReportType {
    ReportIsUpdated,
    ReportIsExtrapolated,
}

impl ReportType {
    /// The ordinal the variant is stored as.
    pub open spec fn spec_ordinal(self) -> nat {
        match self {
            ReportType::ReportIsUpdated => 0,
            ReportType::ReportIsExtrapolated => 1,
        }
    }

    /// The variant stored as ordinal `v`.
    pub open spec fn spec_from_ordinal(v: nat) -> ReportType {
        if v == 0 {
            ReportType::ReportIsUpdated
        } else {
            ReportType::ReportIsExtrapolated
        }
    }

    /// The raw wire encoding of the variant.
    pub fn ordinal(&self) -> (r: u8)
        ensures
            r as nat == self.spec_ordinal(),
            r < 2,
    {
        match self {
            ReportType::ReportIsUpdated => 0,
            ReportType::ReportIsExtrapolated => 1,
        }
    }

    /// The variant a raw field value decodes to.
    pub fn from_ordinal(v: u8) -> (r: ReportType)
        requires
            v < 2,
        ensures
            r == ReportType::spec_from_ordinal(v as nat),
    {
        if v == 0 {
            ReportType::ReportIsUpdated
        } else {
            ReportType::ReportIsExtrapolated
        }
    }
}

/// Heading type, a 2-bit ordinal field.
#[derive(Debug, PartialEq, Clone, Copy)]
pub enum HeadingType {
    NotValid,
    TrueTrackAngle,
    HeadingMagnetic,
    HeadingTrue,
}

impl HeadingType {
    /// The ordinal the variant is stored as.
    pub open spec fn spec_ordinal(self) -> nat {
        match self {
            HeadingType::NotValid => 0,
            HeadingType::TrueTrackAngle => 1,
            HeadingType::HeadingMagnetic => 2,
            HeadingType::HeadingTrue => 3,
        }
    }

    /// The variant stored as ordinal `v`.
    pub open spec fn spec_from_ordinal(v: nat) -> HeadingType {
        if v == 0 {
            HeadingType::NotValid
        } else if v == 1 {
            HeadingType::TrueTrackAngle
        } else if v == 2 {
            HeadingType::HeadingMagnetic
        } else {
            HeadingType::HeadingTrue
        }
    }

    /// The raw wire encoding of the variant.
    pub fn ordinal(&self) -> (r: u8)
        ensures
            r as nat == self.spec_ordinal(),
            r < 4,
    {
        match self {
            HeadingType::NotValid => 0,
            HeadingType::TrueTrackAngle => 1,
            HeadingType::HeadingMagnetic => 2,
            HeadingType::HeadingTrue => 3,
        }
    }

    /// The variant a raw field value decodes to.
    pub fn from_ordinal(v: u8) -> (r: HeadingType)
        requires
            v < 4,
        ensures
            r == HeadingType::spec_from_ordinal(v as nat),
    {
        if v == 0 {
            HeadingType::NotValid
        } else if v == 1 {
            HeadingType::TrueTrackAngle
        } else if v == 2 {
            HeadingType::HeadingMagnetic
        } else {
            HeadingType::HeadingTrue
        }
    }
}

/// Address type, a 4-bit ordinal field.
#[derive(Debug, PartialEq, Clone, Copy)]
pub enum AddressType {
    ADSBWithICAOAddress,
    ADSBWithSelfAssignedAddress,
    TISBWithICAOAddress,
    TISBWithTrackFileID,
    SurfaceVehicle,
    GroundStationBeacon,
    Reserved1,
    Reserved2,
    Reserved3,
    Reserved4,
    Reserved5,
    Reserved6,
    Reserved7,
    Reserved8,
    Reserved9,
    Reserved10,
}

impl AddressType {
    /// The ordinal the variant is stored as.
    pub open spec fn spec_ordinal(self) -> nat {
        match self {
            AddressType::ADSBWithICAOAddress => 0,
            AddressType::ADSBWithSelfAssignedAddress => 1,
            AddressType::TISBWithICAOAddress => 2,
            AddressType::TISBWithTrackFileID => 3,
            AddressType::SurfaceVehicle => 4,
            AddressType::GroundStationBeacon => 5,
            AddressType::Reserved1 => 6,
            AddressType::Reserved2 => 7,
            AddressType::Reserved3 => 8,
            AddressType::Reserved4 => 9,
            AddressType::Reserved5 => 10,
            AddressType::Reserved6 => 11,
            AddressType::Reserved7 => 12,
            AddressType::Reserved8 => 13,
            AddressType::Reserved9 => 14,
            AddressType::Reserved10 => 15,
        }
    }

    /// The variant stored as ordinal `v`.
    pub open spec fn spec_from_ordinal(v: nat) -> AddressType {
        if v == 0 {
            AddressType::ADSBWithICAOAddress
        } else if v == 1 {
            AddressType::ADSBWithSelfAssignedAddress
        } else if v == 2 {
            AddressType::TISBWithICAOAddress
        } else if v == 3 {
            AddressType::TISBWithTrackFileID
        } else if v == 4 {
            AddressType::SurfaceVehicle
        } else if v == 5 {
            AddressType::GroundStationBeacon
        } else if v == 6 {
            AddressType::Reserved1
        } else if v == 7 {
            AddressType::Reserved2
        } else if v == 8 {
            AddressType::Reserved3
        } else if v == 9 {
            AddressType::Reserved4
        } else if v == 10 {
            AddressType::Reserved5
        } else if v == 11 {
            AddressType::Reserved6
        } else if v == 12 {
            AddressType::Reserved7
        } else if v == 13 {
            AddressType::Reserved8
        } else if v == 14 {
            AddressType::Reserved9
        } else {
            AddressType::Reserved10
        }
    }

    /// The raw wire encoding of the variant.
    pub fn ordinal(&self) -> (r: u8)
        ensures
            r as nat == self.spec_ordinal(),
            r < 16,
    {
        match self {
            AddressType::ADSBWithICAOAddress => 0,
            AddressType::ADSBWithSelfAssignedAddress => 1,
            AddressType::TISBWithICAOAddress => 2,
            AddressType::TISBWithTrackFileID => 3,
            AddressType::SurfaceVehicle => 4,
            AddressType::GroundStationBeacon => 5,
            AddressType::Reserved1 => 6,
            AddressType::Reserved2 => 7,
            AddressType::Reserved3 => 8,
            AddressType::Reserved4 => 9,
            AddressType::Reserved5 => 10,
            AddressType::Reserved6 => 11,
            AddressType::Reserved7 => 12,
            AddressType::Reserved8 => 13,
            AddressType::Reserved9 => 14,
            AddressType::Reserved10 => 15,
        }
    }

    /// The variant a raw field value decodes to.
    pub fn from_ordinal(v: u8) -> (r: AddressType)
        requires
            v < 16,
        ensures
            r == AddressType::spec_from_ordinal(v as nat),
    {
        if v == 0 {
            AddressType::ADSBWithICAOAddress
        } else if v == 1 {
            AddressType::ADSBWithSelfAssignedAddress
        } else if v == 2 {
            AddressType::TISBWithICAOAddress
        } else if v == 3 {
            AddressType::TISBWithTrackFileID
        } else if v == 4 {
            AddressType::SurfaceVehicle
        } else if v == 5 {
            AddressType::GroundStationBeacon
        } else if v == 6 {
            AddressType::Reserved1
        } else if v == 7 {
            AddressType::Reserved2
        } else if v == 8 {
            AddressType::Reserved3
        } else if v == 9 {
            AddressType::Reserved4
        } else if v == 10 {
            AddressType::Reserved5
        } else if v == 11 {
            AddressType::Reserved6
        } else if v == 12 {
            AddressType::Reserved7
        } else if v == 13 {
            AddressType::Reserved8
        } else if v == 14 {
            AddressType::Reserved9
        } else {
            AddressType::Reserved10
        }
    }
}

/// Traffic alert status, a 4-bit ordinal field.
#[derive(Debug, PartialEq, Clone, Copy)]
pub enum TrafficAlertStatus {
    NoAlert,
    TrafficAlert,
    Reserved1,
    Reserved2,
    Reserved3,
    Reserved4,
    Reserved5,
    Reserved6,
    Reserved7,
    Reserved8,
    Reserved9,
    Reserved10,
    Reserved11,
    Reserved12,
    Reserved13,
    Reserved14,
}

impl TrafficAlertStatus {
    /// The ordinal the variant is stored as.
    pub open spec fn spec_ordinal(self) -> nat {
        match self {
            TrafficAlertStatus::NoAlert => 0,
            TrafficAlertStatus::TrafficAlert => 1,
            TrafficAlertStatus::Reserved1 => 2,
            TrafficAlertStatus::Reserved2 => 3,
            TrafficAlertStatus::Reserved3 => 4,
            TrafficAlertStatus::Reserved4 => 5,
            TrafficAlertStatus::Reserved5 => 6,
            TrafficAlertStatus::Reserved6 => 7,
            TrafficAlertStatus::Reserved7 => 8,
            TrafficAlertStatus::Reserved8 => 9,
            TrafficAlertStatus::Reserved9 => 10,
            TrafficAlertStatus::Reserved10 => 11,
            TrafficAlertStatus::Reserved11 => 12,
            TrafficAlertStatus::Reserved12 => 13,
            TrafficAlertStatus::Reserved13 => 14,
            TrafficAlertStatus::Reserved14 => 15,
        }
    }

    /// The variant stored as ordinal `v`.
    pub open spec fn spec_from_ordinal(v: nat) -> TrafficAlertStatus {
        if v == 0 {
            TrafficAlertStatus::NoAlert
        } else if v == 1 {
            TrafficAlertStatus::TrafficAlert
        } else if v == 2 {
            TrafficAlertStatus::Reserved1
        } else if v == 3 {
            TrafficAlertStatus::Reserved2
        } else if v == 4 {
            TrafficAlertStatus::Reserved3
        } else if v == 5 {
            TrafficAlertStatus::Reserved4
        } else if v == 6 {
            TrafficAlertStatus::Reserved5
        } else if v == 7 {
            TrafficAlertStatus::Reserved6
        } else if v == 8 {
            TrafficAlertStatus::Reserved7
        } else if v == 9 {
            TrafficAlertStatus::Reserved8
        } else if v == 10 {
            TrafficAlertStatus::Reserved9
        } else if v == 11 {
            TrafficAlertStatus::Reserved10
        } else if v == 12 {
            TrafficAlertStatus::Reserved11
        } else if v == 13 {
            TrafficAlertStatus::Reserved12
        } else if v == 14 {
            TrafficAlertStatus::Reserved13
        } else {
            TrafficAlertStatus::Reserved14
        }
    }

    /// The raw wire encoding of the variant.
    pub fn ordinal(&self) -> (r: u8)
        ensures
            r as nat == self.spec_ordinal(),
            r < 16,
    {
        match self {
            TrafficAlertStatus::NoAlert => 0,
            TrafficAlertStatus::TrafficAlert => 1,
            TrafficAlertStatus::Reserved1 => 2,
            TrafficAlertStatus::Reserved2 => 3,
            TrafficAlertStatus::Reserved3 => 4,
            TrafficAlertStatus::Reserved4 => 5,
            TrafficAlertStatus::Reserved5 => 6,
            TrafficAlertStatus::Reserved6 => 7,
            TrafficAlertStatus::Reserved7 => 8,
            TrafficAlertStatus::Reserved8 => 9,
            TrafficAlertStatus::Reserved9 => 10,
            TrafficAlertStatus::Reserved10 => 11,
            TrafficAlertStatus::Reserved11 => 12,
            TrafficAlertStatus::Reserved12 => 13,
            TrafficAlertStatus::Reserved13 => 14,
            TrafficAlertStatus::Reserved14 => 15,
        }
    }

    /// The variant a raw field value decodes to.
    pub fn from_ordinal(v: u8) -> (r: TrafficAlertStatus)
        requires
            v < 16,
        ensures
            r == TrafficAlertStatus::spec_from_ordinal(v as nat),
    {
        if v == 0 {
            TrafficAlertStatus::NoAlert
        } else if v == 1 {
            TrafficAlertStatus::TrafficAlert
        } else if v == 2 {
            TrafficAlertStatus::Reserved1
        } else if v == 3 {
            TrafficAlertStatus::Reserved2
        } else if v == 4 {
            TrafficAlertStatus::Reserved3
        } else if v == 5 {
            TrafficAlertStatus::Reserved4
        } else if v == 6 {
            TrafficAlertStatus::Reserved5
        } else if v == 7 {
            TrafficAlertStatus::Reserved6
        } else if v == 8 {
            TrafficAlertStatus::Reserved7
        } else if v == 9 {
            TrafficAlertStatus::Reserved8
        } else if v == 10 {
            TrafficAlertStatus::Reserved9
        } else if v == 11 {
            TrafficAlertStatus::Reserved10
        } else if v == 12 {
            TrafficAlertStatus::Reserved11
        } else if v == 13 {
            TrafficAlertStatus::Reserved12
        } else if v == 14 {
            TrafficAlertStatus::Reserved13
        } else {
            TrafficAlertStatus::Reserved14
        }
    }
}

} // verus!
