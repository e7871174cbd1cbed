//! Ownship geometric altitude message (id 0x0B).

use crate::bits::{b2n, field, read_bits, BitSink};
use crate::error::GDL90Error;
use vstd::arithmetic::power2::lemma2_to64;
use vstd::prelude::*;

verus! {

/// Geometric altitude record: a 16-bit altitude field, a vertical warning
/// flag and a 15-bit vertical figure of merit, packed into four bytes.
#[derive(Debug, Default, PartialEq)]
pub struct OwnershipGeometricAltitude {
    pub ownship_geo_altitude: u16,
    pub vertical_warning_indicator: bool,
    pub vertical_figure_of_merit: u16,
}

/// The all-ones 15-bit sentinel meaning "figure of merit not available".
pub const VFOM_NOT_AVAILABLE: u16 = 0x7FFF;

impl OwnershipGeometricAltitude {
    /// `b` is the four-byte packed form of `self`.
    pub open spec fn wire_form(self, b: Seq<u8>) -> bool {
        &&& b.len() == 4
        &&& self.ownship_geo_altitude == field(b, 0, 16)
        &&& b2n(self.vertical_warning_indicator) == field(b, 16, 1)
        &&& self.vertical_figure_of_merit == field(b, 17, 15)
    }

    /// Every field fits its declared width.
    pub open spec fn wf(self) -> bool {
        self.vertical_figure_of_merit < 0x8000
    }

    /// Pack the record into its four-byte wire form; a figure of merit wider
    /// than its 15-bit field is rejected.
    pub fn to_bytes(&self) -> (r: Result<Vec<u8>, GDL90Error>)
        ensures
            self.wf() ==> (r matches Ok(v) && self.wire_form(v@)),
            !self.wf() ==> (r matches Err(GDL90Error::InvalidParam(_))),
    {
        proof {
            lemma2_to64();
        }
        if self.vertical_figure_of_merit >= 0x8000 {
            return Err(GDL90Error::InvalidParam("field value exceeds its declared bit width"));
        }
        let mut s = BitSink::new();
        s.push_bits(self.ownship_geo_altitude as u64, 16);
        s.push_flag(self.vertical_warning_indicator);
        s.push_bits(self.vertical_figure_of_merit as u64, 15);
        Ok(s.finish())
    }

    /// Unpack a four-byte buffer; a shorter one is incomplete, a longer one
    /// is rejected.
    pub fn try_from(data: &[u8]) -> (r: Result<OwnershipGeometricAltitude, GDL90Error>)
        ensures
            data@.len() == 4 ==> (r matches Ok(g) && g.wire_form(data@) && g.wf()),
            data@.len() < 4 ==> (r matches Err(GDL90Error::Incomplete(n)) && n == 32 - data@.len()
                * 8),
            data@.len() > 4 ==> (r matches Err(GDL90Error::Parse(_))),
    {
        if data.len() < 4 {
            Err(GDL90Error::Incomplete(32 - data.len() * 8))
        } else if data.len() > 4 {
            Err(GDL90Error::Parse("more bytes than the record declares"))
        } else {
            proof {
                lemma2_to64();
            }
            Ok(
                OwnershipGeometricAltitude {
                    ownship_geo_altitude: read_bits(data, 0, 16) as u16,
                    vertical_warning_indicator: read_bits(data, 16, 1) == 1,
                    vertical_figure_of_merit: read_bits(data, 17, 15) as u16,
                },
            )
        }
    }

    /// Ownship geometric altitude in feet: the raw field times five.
    pub fn get_ownship_geo_altitude(&self) -> (r: i32)
        ensures
            r == self.ownship_geo_altitude * 5,
    {
        (self.ownship_geo_altitude as i32) * 5
    }

    /// Store a geometric altitude in feet; the raw field becomes the value
    /// divided by five, so it must fit the 16-bit field.
    pub fn set_ownship_geo_altitude(&mut self, value: u32)
        requires
            value / 5 <= 0xFFFF,
        ensures
            final(self).ownship_geo_altitude == value / 5,
            *final(self) == (OwnershipGeometricAltitude {
                ownship_geo_altitude: final(self).ownship_geo_altitude,
                ..*old(self)
            }),
    {
        self.ownship_geo_altitude = (value / 5) as u16;
    }

    /// Vertical warning indicator.
    pub fn get_vertical_warning_indicator(&self) -> (r: bool)
        ensures
            r == self.vertical_warning_indicator,
    {
        self.vertical_warning_indicator
    }

    /// Vertical warning indicator.
    pub fn set_vertical_warning_indicator(&mut self, value: bool)
        ensures
            *final(self) == (OwnershipGeometricAltitude { vertical_warning_indicator: value, ..*old(
                self,
            ) }),
    {
        self.vertical_warning_indicator = value;
    }

    /// Vertical figure of merit in meters; the all-ones sentinel decodes as
    /// absent.
    pub fn get_vertical_figure_of_merit(&self) -> (r: Option<u16>)
        ensures
            r == (if self.vertical_figure_of_merit == VFOM_NOT_AVAILABLE {
                None
            } else {
                Some(self.vertical_figure_of_merit)
            }),
    {
        if self.vertical_figure_of_merit == VFOM_NOT_AVAILABLE {
            None
        } else {
            Some(self.vertical_figure_of_merit)
        }
    }

    /// Store a vertical figure of merit; an absent value is written as the
    /// all-ones sentinel.
    pub fn set_vertical_figure_of_merit(&mut self, value: Option<u16>)
        ensures
            final(self).vertical_figure_of_merit == (match value {
                Some(v) => v,
                None => VFOM_NOT_AVAILABLE,
            }),
            *final(self) == (OwnershipGeometricAltitude {
                vertical_figure_of_merit: final(self).vertical_figure_of_merit,
                ..*old(self)
            }),
    {
        if let Some(value) = value {
            self.vertical_figure_of_merit = value;
        } else {
            self.vertical_figure_of_merit = VFOM_NOT_AVAILABLE;
        }
    }
}

} // verus!
