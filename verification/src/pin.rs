//! Pins: Altium stores them as binary records in schematic libraries and as
//! ASCII records in schematic documents, so both decoders live here.

use vstd::prelude::*;

use crate::common::{mils_to_nm_i32, mils_to_nm_u32, Location, Rotation90, Visibility};
use crate::error::{ErrorKind, PinError};
use crate::parse::{is_uint_text, parse_u8, uint_val};
use crate::records::{SchPin, SchRecord};

verus! {

/// What a pin does electrically; the wire encoding is the ordinal.
#[derive(Clone, Copy, Debug, PartialEq, Eq, Structural)]
pub enum ElectricalType {
    Input,
    Id,
    Output,
    OpenCollector,
    Passive,
    HighZ,
    OpenEmitter,
    Power,
}

impl ElectricalType {
    /// The electrical type a wire ordinal denotes, if any.
    pub open spec fn spec_from_ordinal(value: u8) -> Option<ElectricalType> {
        if value == 0 {
            Some(ElectricalType::Input)
        } else if value == 1 {
            Some(ElectricalType::Id)
        } else if value == 2 {
            Some(ElectricalType::Output)
        } else if value == 3 {
            Some(ElectricalType::OpenCollector)
        } else if value == 4 {
            Some(ElectricalType::Passive)
        } else if value == 5 {
            Some(ElectricalType::HighZ)
        } else if value == 6 {
            Some(ElectricalType::OpenEmitter)
        } else if value == 7 {
            Some(ElectricalType::Power)
        } else {
            None
        }
    }

    pub fn try_from(value: u8) -> (r: Result<Self, ErrorKind>)
        ensures
            r is Ok <==> Self::spec_from_ordinal(value) is Some,
            r is Ok ==> r->Ok_0 == Self::spec_from_ordinal(value)->0,
            r is Err ==> r->Err_0 == ErrorKind::ElectricalType(value),
    {
        if value == 0 {
            Ok(ElectricalType::Input)
        } else if value == 1 {
            Ok(ElectricalType::Id)
        } else if value == 2 {
            Ok(ElectricalType::Output)
        } else if value == 3 {
            Ok(ElectricalType::OpenCollector)
        } else if value == 4 {
            Ok(ElectricalType::Passive)
        } else if value == 5 {
            Ok(ElectricalType::HighZ)
        } else if value == 6 {
            Ok(ElectricalType::OpenEmitter)
        } else if value == 7 {
            Ok(ElectricalType::Power)
        } else {
            Err(ErrorKind::ElectricalType(value))
        }
    }

    /// Parse an electrical type from its decimal ordinal.
    pub fn from_utf8(buf: &[u8]) -> (r: Result<Self, ErrorKind>)
        ensures
            r is Ok <==> is_uint_text(buf@) && uint_val(buf@) <= 7,
            r is Ok ==> Some(r->Ok_0) == Self::spec_from_ordinal(uint_val(buf@) as u8),
            r is Err ==> r->Err_0 is ExpectedInt || r->Err_0 is ElectricalType,
    {
        match parse_u8(buf) {
            Ok(n) => Self::try_from(n),
            Err(e) => Err(e),
        }
    }
}

impl Default for ElectricalType {
    fn default() -> (r: Self)
        ensures
            r == ElectricalType::Input,
    {
        ElectricalType::Input
    }
}

/// A signed 16-bit value from its little-endian bytes.
pub open spec fn spec_i16_le(lo: u8, hi: u8) -> int {
    let v = lo + 256 * (hi as int);
    if v >= 32768 {
        v - 65536
    } else {
        v
    }
}

/// The rotation the low two bits of the packed byte denote.
pub open spec fn spec_rot_of(rh: u8) -> Rotation90 {
    if rh % 4 == 0 {
        Rotation90::R0
    } else if rh % 4 == 1 {
        Rotation90::R90
    } else if rh % 4 == 2 {
        Rotation90::R180
    } else {
        Rotation90::R270
    }
}

/// Whether a visibility bit of the packed byte is set.
pub open spec fn spec_vis_of(rh: u8, mask: u8) -> Visibility {
    if rh & mask == 0 {
        Visibility::Hidden
    } else {
        Visibility::Visible
    }
}

/// The decoded fields of a binary pin record.
pub struct PinFields {
    pub description: Seq<char>,
    pub name: Seq<char>,
    pub designator: Seq<char>,
    pub x: int,
    pub y: int,
    pub length: int,
    pub rotation: Rotation90,
    pub des_vis: Visibility,
    pub name_vis: Visibility,
}

/// The binary pin layout: twelve reserved bytes, a length-prefixed
/// description, the formal type (always 1), a reserved byte, the packed
/// rotation/visibility byte, the length and X/Y in little-endian mils, four
/// reserved bytes, then length-prefixed name and designator.  Positions and
/// length are scaled to nanometers.
pub open spec fn spec_parse_pin(b: Seq<u8>) -> Option<PinFields> {
    if b.len() < 13 {
        None
    } else {
        let dl = b[12] as int;
        if b.len() < 13 + dl + 9 {
            None
        } else {
            let desc = b.subrange(13, 13 + dl);
            let base = 13 + dl;
            if !vstd::utf8::valid_utf8(desc) {
                None
            } else if b[base] != 1 {
                None
            } else {
                let rh = b[base + 2];
                let nb = base + 13;
                if b.len() < nb + 1 {
                    None
                } else {
                    let nl = b[nb] as int;
                    if b.len() < nb + 1 + nl {
                        None
                    } else {
                        let name = b.subrange(nb + 1, nb + 1 + nl);
                        let db = nb + 1 + nl;
                        if !vstd::utf8::valid_utf8(name) {
                            None
                        } else if b.len() < db + 1 {
                            None
                        } else {
                            let dgl = b[db] as int;
                            if b.len() < db + 1 + dgl {
                                None
                            } else {
                                let desig = b.subrange(db + 1, db + 1 + dgl);
                                if !vstd::utf8::valid_utf8(desig) {
                                    None
                                } else {
                                    Some(PinFields {
                                        description: vstd::utf8::decode_utf8(desc),
                                        name: vstd::utf8::decode_utf8(name),
                                        designator: vstd::utf8::decode_utf8(desig),
                                        x: spec_i16_le(b[base + 5], b[base + 6]) * 25400,
                                        y: spec_i16_le(b[base + 7], b[base + 8]) * 25400,
                                        length: (b[base + 3] + 256 * (b[base + 4] as int))
                                            * 25400,
                                        rotation: spec_rot_of(rh),
                                        des_vis: spec_vis_of(rh, 0x08),
                                        name_vis: spec_vis_of(rh, 0x10),
                                    })
                                }
                            }
                        }
                    }
                }
            }
        }
    }
}

impl SchPin {
    /// Decode the binary form of a pin record.
    #[verifier::loop_isolation(false)]
    #[verifier::rlimit(100)]
    pub fn parse(buf: &[u8]) -> (r: Result<SchRecord, ErrorKind>)
        ensures
            r is Ok <==> spec_parse_pin(buf@) is Some,
            r is Ok ==> (r->Ok_0 matches SchRecord::Pin(pin) && {
                let f = spec_parse_pin(buf@)->0;
                &&& pin.description@ == f.description
                &&& pin.name@ == f.name
                &&& pin.designator@ == f.designator
                &&& pin.location.x == f.x
                &&& pin.location.y == f.y
                &&& pin.length == f.length
                &&& pin.rotation == f.rotation
                &&& pin.designator_vis == f.des_vis
                &&& pin.name_vis == f.name_vis
                &&& pin.formal_type == 1
                &&& pin.owner_index == 0
                &&& pin.owner_part_id == 0
            }),
            r is Err ==> r->Err_0 is Pin,
    {
        if buf.len() < 13 {
            return Err(ErrorKind::Pin(PinError::TooShort(buf.len(), String::from_str(
                "initial groups",
            ))));
        }
        let dl = buf[12] as usize;
        if buf.len() - 13 < dl + 9 {
            return Err(ErrorKind::Pin(PinError::TooShort(buf.len(), String::from_str(
                "description and position",
            ))));
        }
        let desc_b = &buf[13..13 + dl];
        assert(desc_b@ =~= buf@.subrange(13, 13 + dl as int));
        let description = match crate::outside::string_from_utf8(desc_b) {
            Some(s) => s,
            None => {
                return Err(ErrorKind::Pin(PinError::NonUtf8Designator(
                    crate::common::buf2lstr(desc_b),
                )));
            },
        };
        let base = 13 + dl;
        let formal_type = buf[base];
        if formal_type != 1 {
            return Err(ErrorKind::Pin(PinError::FormalType(formal_type)));
        }
        let rh = buf[base + 2];
        let l0 = buf[base + 3];
        let l1 = buf[base + 4];
        let x0 = buf[base + 5];
        let x1 = buf[base + 6];
        let y0 = buf[base + 7];
        let y1 = buf[base + 8];
        let nb = base + 13;
        if buf.len() < nb + 1 {
            return Err(ErrorKind::Pin(PinError::TooShort(buf.len(), String::from_str("name"))));
        }
        let nl = buf[nb] as usize;
        if buf.len() - nb - 1 < nl {
            return Err(ErrorKind::Pin(PinError::DescrTooShort(buf[nb], buf.len() - nb - 1)));
        }
        let name_b = &buf[nb + 1..nb + 1 + nl];
        assert(name_b@ =~= buf@.subrange(nb as int + 1, nb as int + 1 + nl as int));
        let name = match crate::outside::string_from_utf8(name_b) {
            Some(s) => s,
            None => {
                return Err(ErrorKind::Pin(PinError::NonUtf8Designator(
                    crate::common::buf2lstr(name_b),
                )));
            },
        };
        let db = nb + 1 + nl;
        if buf.len() < db + 1 {
            return Err(ErrorKind::Pin(PinError::TooShort(buf.len(), String::from_str(
                "designator",
            ))));
        }
        let dgl = buf[db] as usize;
        if buf.len() - db - 1 < dgl {
            return Err(ErrorKind::Pin(PinError::DescrTooShort(buf[db], buf.len() - db - 1)));
        }
        let desig_b = &buf[db + 1..db + 1 + dgl];
        assert(desig_b@ =~= buf@.subrange(db as int + 1, db as int + 1 + dgl as int));
        let designator = match crate::outside::string_from_utf8(desig_b) {
            Some(s) => s,
            None => {
                return Err(ErrorKind::Pin(PinError::NonUtf8Designator(
                    crate::common::buf2lstr(desig_b),
                )));
            },
        };
        let length_mils: u32 = (l0 as u32) + 256 * (l1 as u32);
        let length = match crate::common::mils_to_nm_u32(length_mils) {
            Ok(v) => v,
            Err(e) => {
                proof {
                    assert(length_mils * 25400 <= 65535 * 25400) by (nonlinear_arith)
                        requires length_mils <= 65535;
                }
                assert(false);
                return Err(ErrorKind::Pin(PinError::FormalType(0)));
            },
        };
        let xi = le_i16(x0, x1);
        let yi = le_i16(y0, y1);
        let x_nm = match crate::common::mils_to_nm_i32(xi as i32) {
            Ok(v) => v,
            Err(e) => {
                proof {
                    assert(false);
                }
                return Err(e);
            },
        };
        let y_nm = match crate::common::mils_to_nm_i32(yi as i32) {
            Ok(v) => v,
            Err(e) => {
                proof {
                    assert(false);
                }
                return Err(e);
            },
        };
        let rotation = rot_of(rh);
        let des_vis = vis_of(rh, 0x08);
        let name_vis = vis_of(rh, 0x10);
        let pin = SchPin {
            formal_type,
            owner_index: 0,
            owner_part_id: 0,
            description,
            designator,
            name,
            location: Location { x: x_nm, y: y_nm },
            electrical: ElectricalType::Input,
            length,
            swap_id_part: String::new(),
            designator_vis: des_vis,
            name_vis,
            rotation,
            propegation_delay: String::new(),
            unique_id: crate::common::UniqueId::Simple(
                [0x30u8, 0x30u8, 0x30u8, 0x30u8, 0x30u8, 0x30u8, 0x30u8, 0x30u8],
            ),
        };
        Ok(SchRecord::Pin(pin))
    }

    /// The non-connecting point of this pin.
    pub fn location(&self) -> (r: Location)
        ensures
            r == self.location,
    {
        self.location
    }

    /// Altium stores the position of the pin at its non-connecting end; this
    /// is the connecting end: the origin plus the length along the rotation
    /// direction.
    pub fn location_conn(&self) -> (r: Location)
        requires
            self.length <= i32::MAX,
            match self.rotation {
                Rotation90::R0 => self.location.x + self.length <= i32::MAX,
                Rotation90::R90 => self.location.y + self.length <= i32::MAX,
                Rotation90::R180 => i32::MIN <= self.location.x - self.length,
                Rotation90::R270 => i32::MIN <= self.location.y - self.length,
            },
        ensures
            r == match self.rotation {
                Rotation90::R0 => Location {
                    x: (self.location.x + self.length) as i32,
                    y: self.location.y,
                },
                Rotation90::R90 => Location {
                    x: self.location.x,
                    y: (self.location.y + self.length) as i32,
                },
                Rotation90::R180 => Location {
                    x: (self.location.x - self.length) as i32,
                    y: self.location.y,
                },
                Rotation90::R270 => Location {
                    x: self.location.x,
                    y: (self.location.y - self.length) as i32,
                },
            },
    {
        let orig = self.location;
        let len = self.length as i32;
        match self.rotation {
            Rotation90::R0 => Location { x: orig.x + len, y: orig.y },
            Rotation90::R90 => Location { x: orig.x, y: orig.y + len },
            Rotation90::R180 => Location { x: orig.x - len, y: orig.y },
            Rotation90::R270 => Location { x: orig.x, y: orig.y - len },
        }
    }
}

/// The signed 16-bit value of two little-endian bytes.
pub fn le_i16(lo: u8, hi: u8) -> (r: i16)
    ensures
        r == spec_i16_le(lo, hi),
{
    let v: u32 = (lo as u32) + 256 * (hi as u32);
    if v >= 32768 {
        proof {
            assert(v <= 65535);
        }
        #[verifier::truncate] ((v as i32 - 65536) as i16)
    } else {
        v as i16
    }
}

/// Given a byte packing rotation and hiding, extract that information.
///
/// Returns the rotation; the visibilities come from [`vis_of`].
pub fn rot_of(rh: u8) -> (r: Rotation90)
    ensures
        r == spec_rot_of(rh),
{
    let low = rh % 4;
    if low == 0 {
        Rotation90::R0
    } else if low == 1 {
        Rotation90::R90
    } else if low == 2 {
        Rotation90::R180
    } else {
        Rotation90::R270
    }
}

pub fn vis_of(rh: u8, mask: u8) -> (r: Visibility)
    ensures
        r == spec_vis_of(rh, mask),
{
    if rh & mask == 0 {
        Visibility::Hidden
    } else {
        Visibility::Visible
    }
}

/// Given a byte representing rotation and hiding, extract that info.
///
/// Returns `(rotation, designator_vis, name_vis)`.
pub fn get_rotation_and_hiding(val: u8) -> (r: (Rotation90, Visibility, Visibility))
    ensures
        r.0 == spec_rot_of(val),
        r.1 == spec_vis_of(val, 0x08),
        r.2 == spec_vis_of(val, 0x10),
{
    (rot_of(val), vis_of(val, 0x08), vis_of(val, 0x10))
}


} // verus!
