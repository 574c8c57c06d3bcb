//! Parameter types stored in a schematic.

use vstd::prelude::*;

use crate::error::ErrorKind;
use crate::parse::{is_uint_text, parse_u8, uint_val};

verus! {

/// Sheet paper style; the wire encoding is the ordinal.
#[derive(Clone, Copy, Debug, PartialEq, Eq, Structural)]
pub enum SheetStyle {
    A4,
    A3,
    A2,
    A1,
    A0,
    A,
    B,
    C,
    D,
    E,
    Letter,
    Legal,
    Tabloid,
    OrCadA,
    OrCadB,
    OrCadC,
    OrCadD,
    OrCadE,
}

impl SheetStyle {
    /// The style a wire ordinal denotes, if any.
    pub open spec fn spec_from_ordinal(value: u8) -> Option<SheetStyle> {
        if value == 0 {
            Some(SheetStyle::A4)
        } else if value == 1 {
            Some(SheetStyle::A3)
        } else if value == 2 {
            Some(SheetStyle::A2)
        } else if value == 3 {
            Some(SheetStyle::A1)
        } else if value == 4 {
            Some(SheetStyle::A0)
        } else if value == 5 {
            Some(SheetStyle::A)
        } else if value == 6 {
            Some(SheetStyle::B)
        } else if value == 7 {
            Some(SheetStyle::C)
        } else if value == 8 {
            Some(SheetStyle::D)
        } else if value == 9 {
            Some(SheetStyle::E)
        } else if value == 10 {
            Some(SheetStyle::Letter)
        } else if value == 11 {
            Some(SheetStyle::Legal)
        } else if value == 12 {
            Some(SheetStyle::Tabloid)
        } else if value == 13 {
            Some(SheetStyle::OrCadA)
        } else if value == 14 {
            Some(SheetStyle::OrCadB)
        } else if value == 15 {
            Some(SheetStyle::OrCadC)
        } else if value == 16 {
            Some(SheetStyle::OrCadD)
        } else if value == 17 {
            Some(SheetStyle::OrCadE)
        } else {
            None
        }
    }

    pub fn try_from(value: u8) -> (r: Result<Self, ErrorKind>)
        ensures
            r is Ok <==> Self::spec_from_ordinal(value) is Some,
            r is Ok ==> r->Ok_0 == Self::spec_from_ordinal(value)->0,
            r is Err ==> r->Err_0 == ErrorKind::SheetStyle(value),
    {
        if value == 0 {
            Ok(SheetStyle::A4)
        } else if value == 1 {
            Ok(SheetStyle::A3)
        } else if value == 2 {
            Ok(SheetStyle::A2)
        } else if value == 3 {
            Ok(SheetStyle::A1)
        } else if value == 4 {
            Ok(SheetStyle::A0)
        } else if value == 5 {
            Ok(SheetStyle::A)
        } else if value == 6 {
            Ok(SheetStyle::B)
        } else if value == 7 {
            Ok(SheetStyle::C)
        } else if value == 8 {
            Ok(SheetStyle::D)
        } else if value == 9 {
            Ok(SheetStyle::E)
        } else if value == 10 {
            Ok(SheetStyle::Letter)
        } else if value == 11 {
            Ok(SheetStyle::Legal)
        } else if value == 12 {
            Ok(SheetStyle::Tabloid)
        } else if value == 13 {
            Ok(SheetStyle::OrCadA)
        } else if value == 14 {
            Ok(SheetStyle::OrCadB)
        } else if value == 15 {
            Ok(SheetStyle::OrCadC)
        } else if value == 16 {
            Ok(SheetStyle::OrCadD)
        } else if value == 17 {
            Ok(SheetStyle::OrCadE)
        } else {
            Err(ErrorKind::SheetStyle(value))
        }
    }

    /// Parse a sheet style from its decimal ordinal.
    pub fn from_utf8(buf: &[u8]) -> (r: Result<Self, ErrorKind>)
        ensures
            r is Ok <==> is_uint_text(buf@) && uint_val(buf@) <= 17,
            r is Ok ==> Some(r->Ok_0) == Self::spec_from_ordinal(uint_val(buf@) as u8),
            r is Err ==> r->Err_0 is ExpectedInt || r->Err_0 is SheetStyle,
    {
        match parse_u8(buf) {
            Ok(n) => Self::try_from(n),
            Err(e) => Err(e),
        }
    }
}

impl Default for SheetStyle {
    fn default() -> (r: Self)
        ensures
            r == SheetStyle::A4,
    {
        SheetStyle::A4
    }
}

/// Allowed text alignments in a schematic: the wire encoding is the ordinal,
/// bottom/center/top by left/center/right.
#[derive(Clone, Copy, Debug, PartialEq, Eq, Structural)]
pub enum Justification {
    BottomLeft,
    BottomCenter,
    BottomRight,
    CenterLeft,
    CenterCenter,
    CenterRight,
    TopLeft,
    TopCenter,
    TopRight,
}

impl Justification {
    /// The justification a wire ordinal denotes, if any.
    pub open spec fn spec_from_ordinal(value: u8) -> Option<Justification> {
        if value == 0 {
            Some(Justification::BottomLeft)
        } else if value == 1 {
            Some(Justification::BottomCenter)
        } else if value == 2 {
            Some(Justification::BottomRight)
        } else if value == 3 {
            Some(Justification::CenterLeft)
        } else if value == 4 {
            Some(Justification::CenterCenter)
        } else if value == 5 {
            Some(Justification::CenterRight)
        } else if value == 6 {
            Some(Justification::TopLeft)
        } else if value == 7 {
            Some(Justification::TopCenter)
        } else if value == 8 {
            Some(Justification::TopRight)
        } else {
            None
        }
    }

    pub fn try_from(value: u8) -> (r: Result<Self, ErrorKind>)
        ensures
            r is Ok <==> Self::spec_from_ordinal(value) is Some,
            r is Ok ==> r->Ok_0 == Self::spec_from_ordinal(value)->0,
            r is Err ==> r->Err_0 == ErrorKind::Justification(value),
    {
        if value == 0 {
            Ok(Justification::BottomLeft)
        } else if value == 1 {
            Ok(Justification::BottomCenter)
        } else if value == 2 {
            Ok(Justification::BottomRight)
        } else if value == 3 {
            Ok(Justification::CenterLeft)
        } else if value == 4 {
            Ok(Justification::CenterCenter)
        } else if value == 5 {
            Ok(Justification::CenterRight)
        } else if value == 6 {
            Ok(Justification::TopLeft)
        } else if value == 7 {
            Ok(Justification::TopCenter)
        } else if value == 8 {
            Ok(Justification::TopRight)
        } else {
            Err(ErrorKind::Justification(value))
        }
    }

    /// Parse a justification from its decimal ordinal.
    pub fn from_utf8(buf: &[u8]) -> (r: Result<Self, ErrorKind>)
        ensures
            r is Ok <==> is_uint_text(buf@) && uint_val(buf@) <= 8,
            r is Ok ==> Some(r->Ok_0) == Self::spec_from_ordinal(uint_val(buf@) as u8),
            r is Err ==> r->Err_0 is ExpectedInt || r->Err_0 is Justification,
    {
        match parse_u8(buf) {
            Ok(n) => Self::try_from(n),
            Err(e) => Err(e),
        }
    }
}

impl Default for Justification {
    fn default() -> (r: Self)
        ensures
            r == Justification::BottomLeft,
    {
        Justification::BottomLeft
    }
}

/// The horizontal and vertical anchor of a justification.
pub fn justification_pos(value: Justification) -> (r: (crate::common::PosHoriz,
    crate::common::PosVert))
    ensures
        r.0 == match value {
            Justification::BottomLeft | Justification::CenterLeft | Justification::TopLeft
                => crate::common::PosHoriz::Left,
            Justification::BottomCenter | Justification::CenterCenter | Justification::TopCenter
                => crate::common::PosHoriz::Center,
            _ => crate::common::PosHoriz::Right,
        },
        r.1 == match value {
            Justification::BottomLeft | Justification::BottomCenter | Justification::BottomRight
                => crate::common::PosVert::Bottom,
            Justification::CenterLeft | Justification::CenterCenter | Justification::CenterRight
                => crate::common::PosVert::Middle,
            _ => crate::common::PosVert::Top,
        },
{
    match value {
        Justification::BottomLeft => (crate::common::PosHoriz::Left, crate::common::PosVert::Bottom),
        Justification::BottomCenter => (
            crate::common::PosHoriz::Center,
            crate::common::PosVert::Bottom,
        ),
        Justification::BottomRight => (
            crate::common::PosHoriz::Right,
            crate::common::PosVert::Bottom,
        ),
        Justification::CenterLeft => (crate::common::PosHoriz::Left, crate::common::PosVert::Middle),
        Justification::CenterCenter => (
            crate::common::PosHoriz::Center,
            crate::common::PosVert::Middle,
        ),
        Justification::CenterRight => (
            crate::common::PosHoriz::Right,
            crate::common::PosVert::Middle,
        ),
        Justification::TopLeft => (crate::common::PosHoriz::Left, crate::common::PosVert::Top),
        Justification::TopCenter => (crate::common::PosHoriz::Center, crate::common::PosVert::Top),
        Justification::TopRight => (crate::common::PosHoriz::Right, crate::common::PosVert::Top),
    }
}

} // verus!
