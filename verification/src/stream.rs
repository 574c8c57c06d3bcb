//! The framed record stream and the record-kind dispatch.
//!
//! A component's `Data` stream is a concatenation of frames.  Each frame
//! begins with a 4-byte little-endian header whose top byte tags the frame
//! (0 for an ASCII record, 1 for a binary pin) and whose low 24 bits give
//! the payload length, a trailing NUL included.  An ASCII payload begins
//! with `|RECORD=<digits>`, whose digit run names the record kind.

use vstd::prelude::*;

use crate::binder::{sat_add, SpecPairs};
use crate::common::{pairs_view, spec_altium_pairs, split_altium_map};
use crate::error::{Error, ErrorKind};
use crate::logging::UnsupportedCounter;
use crate::parse::{dec_val, is_ascii_digit};
use crate::pin::spec_parse_pin;
use crate::records::{
    Arc, Bezier, Bus, BusEntry, Designator, ElipticalArc, Ellipse, FileName, IeeeSymbol, Image,
    Implementation, ImplementationChild1, ImplementationChild2, ImplementationList, Junction,
    Label, Line, MetaData, NetLabel, NoErc, Parameter, Piechart, PolyLine, Polygon, Port,
    PowerPort, Rectangle, RectangleRounded, SchPin, SchRecord, Sheet, SheetEntry, SheetName,
    SheetSymbol, Template, TextFrame, Wire,
};

verus! {

/// The `|RECORD=` prefix of an ASCII record payload.
pub open spec fn spec_record_prefix() -> Seq<u8> {
    seq![0x7cu8, 0x52u8, 0x45u8, 0x43u8, 0x4fu8, 0x52u8, 0x44u8, 0x3du8]
}

/// The length of the leading digit run of `s`.
pub open spec fn spec_digit_run(s: Seq<u8>) -> int
    decreases s.len(),
{
    if s.len() == 0 || !is_ascii_digit(s[0]) {
        0
    } else {
        1 + spec_digit_run(s.skip(1))
    }
}

proof fn lemma_digit_run(s: Seq<u8>, i: int)
    requires
        0 <= i <= s.len(),
        forall|j: int| 0 <= j < i ==> is_ascii_digit(#[trigger] s[j]),
        i == s.len() || !is_ascii_digit(s[i]),
    ensures
        spec_digit_run(s) == i,
    decreases i,
{
    if i == 0 {
    } else {
        assert(is_ascii_digit(s[0]));
        lemma_digit_run(s.skip(1), i - 1);
        assert(forall|j: int| 0 <= j < i - 1 ==> s.skip(1)[j] == s[j + 1]);
        if i < s.len() {
            assert(s.skip(1)[i - 1] == s[i]);
        }
    }
}

/// Whether a record ID belongs to some variant of [`SchRecord`].
pub open spec fn spec_known_id(id: int) -> bool {
    ||| id == 1 || id == 2 || id == 3 || id == 4 || id == 5 || id == 6 || id == 7 || id == 8
    ||| id == 9 || id == 10 || id == 11 || id == 12 || id == 13 || id == 14 || id == 15
    ||| id == 16 || id == 17 || id == 18 || id == 22 || id == 25 || id == 26 || id == 27
    ||| id == 28 || id == 29 || id == 30 || id == 31 || id == 32 || id == 33 || id == 34
    ||| id == 37 || id == 39 || id == 41 || id == 44 || id == 45 || id == 46 || id == 48
}

/// Whether the pairs of a payload decode under the given record kind.
pub open spec fn spec_dispatch_ok(id: int, p: SpecPairs) -> bool {
    if id == 1 {
        !MetaData::spec_fails(p)
    } else if id == 2 {
        !SchPin::spec_fails(p)
    } else if id == 3 {
        !IeeeSymbol::spec_fails(p)
    } else if id == 4 {
        !Label::spec_fails(p)
    } else if id == 5 {
        Bezier::spec_fold(p) is Some
    } else if id == 6 {
        PolyLine::spec_fold(p) is Some
    } else if id == 7 {
        Polygon::spec_fold(p) is Some
    } else if id == 8 {
        !Ellipse::spec_fails(p)
    } else if id == 9 {
        !Piechart::spec_fails(p)
    } else if id == 10 {
        !RectangleRounded::spec_fails(p)
    } else if id == 11 {
        !ElipticalArc::spec_fails(p)
    } else if id == 12 {
        !Arc::spec_fails(p)
    } else if id == 13 {
        !Line::spec_fails(p)
    } else if id == 14 {
        !Rectangle::spec_fails(p)
    } else if id == 15 {
        !SheetSymbol::spec_fails(p)
    } else if id == 16 {
        !SheetEntry::spec_fails(p)
    } else if id == 17 {
        !PowerPort::spec_fails(p)
    } else if id == 18 {
        !Port::spec_fails(p)
    } else if id == 22 {
        !NoErc::spec_fails(p)
    } else if id == 25 {
        !NetLabel::spec_fails(p)
    } else if id == 26 {
        Bus::spec_fold(p) is Some
    } else if id == 27 {
        Wire::spec_fold(p) is Some
    } else if id == 28 {
        !TextFrame::spec_fails(p)
    } else if id == 29 {
        !Junction::spec_fails(p)
    } else if id == 30 {
        !Image::spec_fails(p)
    } else if id == 31 {
        Sheet::spec_fold(p) is Some
    } else if id == 32 {
        !SheetName::spec_fails(p)
    } else if id == 33 {
        !FileName::spec_fails(p)
    } else if id == 34 {
        !Designator::spec_fails(p)
    } else if id == 37 {
        !BusEntry::spec_fails(p)
    } else if id == 39 {
        !Template::spec_fails(p)
    } else if id == 41 {
        !Parameter::spec_fails(p)
    } else if id == 44 {
        !ImplementationList::spec_fails(p)
    } else if id == 45 {
        !Implementation::spec_fails(p)
    } else if id == 46 {
        !ImplementationChild1::spec_fails(p)
    } else if id == 48 {
        !ImplementationChild2::spec_fails(p)
    } else {
        true
    }
}

/// The record a payload's pairs decode to under the given kind.
pub open spec fn spec_dispatch_matches(id: int, rec: SchRecord, p: SpecPairs) -> bool {
    if id == 1 {
        rec matches SchRecord::MetaData(m) && MetaData::spec_matches(*m, p)
    } else if id == 2 {
        rec matches SchRecord::Pin(x) && SchPin::spec_matches(x, p)
    } else if id == 3 {
        rec matches SchRecord::IeeeSymbol(x) && IeeeSymbol::spec_matches(x, p)
    } else if id == 4 {
        rec matches SchRecord::Label(x) && Label::spec_matches(x, p)
    } else if id == 5 {
        rec matches SchRecord::Bezier(x) && Bezier::spec_matches(x, p)
    } else if id == 6 {
        rec matches SchRecord::PolyLine(x) && PolyLine::spec_matches(x, p)
    } else if id == 7 {
        rec matches SchRecord::Polygon(x) && Polygon::spec_matches(x, p)
    } else if id == 8 {
        rec matches SchRecord::Ellipse(x) && Ellipse::spec_matches(x, p)
    } else if id == 9 {
        rec matches SchRecord::Piechart(x) && Piechart::spec_matches(x, p)
    } else if id == 10 {
        rec matches SchRecord::RectangleRounded(x) && RectangleRounded::spec_matches(x, p)
    } else if id == 11 {
        rec matches SchRecord::ElipticalArc(x) && ElipticalArc::spec_matches(x, p)
    } else if id == 12 {
        rec matches SchRecord::Arc(x) && Arc::spec_matches(x, p)
    } else if id == 13 {
        rec matches SchRecord::Line(x) && Line::spec_matches(x, p)
    } else if id == 14 {
        rec matches SchRecord::Rectangle(x) && Rectangle::spec_matches(x, p)
    } else if id == 15 {
        rec matches SchRecord::SheetSymbol(x) && SheetSymbol::spec_matches(x, p)
    } else if id == 16 {
        rec matches SchRecord::SheetEntry(x) && SheetEntry::spec_matches(x, p)
    } else if id == 17 {
        rec matches SchRecord::PowerPort(x) && PowerPort::spec_matches(x, p)
    } else if id == 18 {
        rec matches SchRecord::Port(x) && Port::spec_matches(x, p)
    } else if id == 22 {
        rec matches SchRecord::NoErc(x) && NoErc::spec_matches(x, p)
    } else if id == 25 {
        rec matches SchRecord::NetLabel(x) && NetLabel::spec_matches(x, p)
    } else if id == 26 {
        rec matches SchRecord::Bus(x) && Bus::spec_matches(x, p)
    } else if id == 27 {
        rec matches SchRecord::Wire(x) && Wire::spec_matches(x, p)
    } else if id == 28 {
        rec matches SchRecord::TextFrame(x) && TextFrame::spec_matches(x, p)
    } else if id == 29 {
        rec matches SchRecord::Junction(x) && Junction::spec_matches(x, p)
    } else if id == 30 {
        rec matches SchRecord::Image(x) && Image::spec_matches(x, p)
    } else if id == 31 {
        rec matches SchRecord::Sheet(x) && Sheet::spec_matches(x, p)
    } else if id == 32 {
        rec matches SchRecord::SheetName(x) && SheetName::spec_matches(x, p)
    } else if id == 33 {
        rec matches SchRecord::FileName(x) && FileName::spec_matches(x, p)
    } else if id == 34 {
        rec matches SchRecord::Designator(x) && Designator::spec_matches(x, p)
    } else if id == 37 {
        rec matches SchRecord::BusEntry(x) && BusEntry::spec_matches(x, p)
    } else if id == 39 {
        rec matches SchRecord::Template(x) && Template::spec_matches(x, p)
    } else if id == 41 {
        rec matches SchRecord::Parameter(x) && Parameter::spec_matches(x, p)
    } else if id == 44 {
        rec matches SchRecord::ImplementationList(x) && ImplementationList::spec_matches(x, p)
    } else if id == 45 {
        rec matches SchRecord::Implementation(x) && Implementation::spec_matches(x, p)
    } else if id == 46 {
        rec matches SchRecord::ImplementationChild1(x) && ImplementationChild1::spec_matches(x, p)
    } else if id == 48 {
        rec matches SchRecord::ImplementationChild2(x) && ImplementationChild2::spec_matches(x, p)
    } else {
        rec is Undefined
    }
}

/// How many unsupported keys binding the pairs under this kind reports; an
/// unknown record ID reports exactly one.
pub open spec fn spec_dispatch_delta(id: int, p: SpecPairs) -> int {
    if id == 1 {
        MetaData::spec_unknown(p)
    } else if id == 2 {
        SchPin::spec_unknown(p)
    } else if id == 3 {
        IeeeSymbol::spec_unknown(p)
    } else if id == 4 {
        Label::spec_unknown(p)
    } else if id == 5 {
        Bezier::spec_unknown(p)
    } else if id == 6 {
        PolyLine::spec_unknown(p)
    } else if id == 7 {
        Polygon::spec_unknown(p)
    } else if id == 8 {
        Ellipse::spec_unknown(p)
    } else if id == 9 {
        Piechart::spec_unknown(p)
    } else if id == 10 {
        RectangleRounded::spec_unknown(p)
    } else if id == 11 {
        ElipticalArc::spec_unknown(p)
    } else if id == 12 {
        Arc::spec_unknown(p)
    } else if id == 13 {
        Line::spec_unknown(p)
    } else if id == 14 {
        Rectangle::spec_unknown(p)
    } else if id == 15 {
        SheetSymbol::spec_unknown(p)
    } else if id == 16 {
        SheetEntry::spec_unknown(p)
    } else if id == 17 {
        PowerPort::spec_unknown(p)
    } else if id == 18 {
        Port::spec_unknown(p)
    } else if id == 22 {
        NoErc::spec_unknown(p)
    } else if id == 25 {
        NetLabel::spec_unknown(p)
    } else if id == 26 {
        Bus::spec_unknown(p)
    } else if id == 27 {
        Wire::spec_unknown(p)
    } else if id == 28 {
        TextFrame::spec_unknown(p)
    } else if id == 29 {
        Junction::spec_unknown(p)
    } else if id == 30 {
        Image::spec_unknown(p)
    } else if id == 31 {
        Sheet::spec_unknown(p)
    } else if id == 32 {
        SheetName::spec_unknown(p)
    } else if id == 33 {
        FileName::spec_unknown(p)
    } else if id == 34 {
        Designator::spec_unknown(p)
    } else if id == 37 {
        BusEntry::spec_unknown(p)
    } else if id == 39 {
        Template::spec_unknown(p)
    } else if id == 41 {
        Parameter::spec_unknown(p)
    } else if id == 44 {
        ImplementationList::spec_unknown(p)
    } else if id == 45 {
        Implementation::spec_unknown(p)
    } else if id == 46 {
        ImplementationChild1::spec_unknown(p)
    } else if id == 48 {
        ImplementationChild2::spec_unknown(p)
    } else {
        1
    }
}

/// The record ID named by an ASCII payload, where the payload is well
/// shaped: the prefix, a nonempty digit run naming a 32-bit ID.
pub open spec fn spec_any_shape_ok(b: Seq<u8>) -> bool {
    &&& b.len() >= 8
    &&& b.take(8) == spec_record_prefix()
    &&& spec_digit_run(b.skip(8)) > 0
    &&& dec_val(b.skip(8).take(spec_digit_run(b.skip(8)))) <= u32::MAX
}

pub open spec fn spec_any_id(b: Seq<u8>) -> int {
    dec_val(b.skip(8).take(spec_digit_run(b.skip(8))))
}

pub open spec fn spec_any_pairs(b: Seq<u8>) -> Option<SpecPairs> {
    spec_altium_pairs(b.skip(8 + spec_digit_run(b.skip(8))))
}

/// Whether an ASCII record payload decodes without error.
pub open spec fn spec_any_ok(b: Seq<u8>) -> bool {
    &&& spec_any_shape_ok(b)
    &&& spec_any_pairs(b) is Some
    &&& spec_dispatch_ok(spec_any_id(b), spec_any_pairs(b)->0)
}

/// The record an ASCII record payload decodes to.
pub open spec fn spec_any_matches(b: Seq<u8>, rec: SchRecord) -> bool {
    spec_dispatch_matches(spec_any_id(b), rec, spec_any_pairs(b)->0)
}

pub open spec fn spec_any_delta(b: Seq<u8>) -> int {
    spec_dispatch_delta(spec_any_id(b), spec_any_pairs(b)->0)
}

/// Try all known record types; an unknown record ID yields `Undefined` and
/// one unsupported-key count, never an error.
#[verifier::loop_isolation(false)]
#[verifier::rlimit(100)]
pub fn parse_any_record(buf: &[u8], counter: &mut UnsupportedCounter) -> (r: Result<
    SchRecord,
    ErrorKind,
>)
    ensures
        r is Ok <==> spec_any_ok(buf@),
        r is Ok ==> spec_any_matches(buf@, r->Ok_0),
        r is Ok ==> (r->Ok_0 is Undefined <==> !spec_known_id(spec_any_id(buf@))),
        r is Ok && !(r->Ok_0 is Undefined) ==> r->Ok_0.spec_record_id() == spec_any_id(buf@),
        r is Ok ==> final(counter).count == sat_add(old(counter).count, spec_any_delta(buf@)),
        final(counter).count >= old(counter).count,
{
    let pfx: [u8; 8] = [0x7cu8, 0x52u8, 0x45u8, 0x43u8, 0x4fu8, 0x52u8, 0x44u8, 0x3du8];
    proof {
        assert(pfx@ =~= spec_record_prefix());
    }
    if !crate::common::bytes_starts_with(buf, pfx.as_slice()) {
        return Err(ErrorKind::new_invalid_key(buf));
    }
    let ghost tailg = buf@.skip(8);
    let mut nd: usize = 8;
    while nd < buf.len() && buf[nd] >= 0x30 && buf[nd] <= 0x39
        invariant
            8 <= nd <= buf.len(),
            forall|j: int| 0 <= j < nd - 8 ==> is_ascii_digit(#[trigger] tailg[j]),
        decreases buf.len() - nd,
    {
        assert(tailg[nd - 8] == buf@[nd as int]);
        nd += 1;
    }
    proof {
        if nd < buf.len() {
            assert(tailg[nd - 8] == buf@[nd as int]);
        }
        lemma_digit_run(tailg, nd - 8);
    }
    let idbuf = &buf[8..nd];
    assert(idbuf@ =~= tailg.take(nd - 8));
    let record_id: u32 = match crate::parse::parse_u32(idbuf) {
        Ok(v) => {
            proof {
                assert(crate::parse::uint_digits(idbuf@) == idbuf@);
            }
            v
        },
        Err(e) => {
            proof {
                assert(crate::parse::uint_digits(idbuf@) == idbuf@);
                if nd > 8 {
                    assert(crate::parse::all_digits(idbuf@));
                }
            }
            return Err(e);
        },
    };
    let to_parse = &buf[nd..buf.len()];
    assert(to_parse@ =~= buf@.skip(8 + spec_digit_run(buf@.skip(8))));
    let pairs = match split_altium_map(to_parse) {
        Ok(v) => v,
        Err(e) => {
            return Err(e);
        },
    };
    let ghost p = spec_any_pairs(buf@)->0;
    proof {
        assert(pairs_view(pairs@) == p);
    }
    if record_id == 1 {
        match MetaData::from_record(pairs.as_slice(), counter) {
            Ok(x) => Ok(SchRecord::MetaData(Box::new(x))),
            Err(e) => Err(e),
        }
    } else if record_id == 2 {
        match SchPin::from_record(pairs.as_slice(), counter) {
            Ok(x) => Ok(SchRecord::Pin(x)),
            Err(e) => Err(e),
        }
    } else if record_id == 3 {
        match IeeeSymbol::from_record(pairs.as_slice(), counter) {
            Ok(x) => Ok(SchRecord::IeeeSymbol(x)),
            Err(e) => Err(e),
        }
    } else if record_id == 4 {
        match Label::from_record(pairs.as_slice(), counter) {
            Ok(x) => Ok(SchRecord::Label(x)),
            Err(e) => Err(e),
        }
    } else if record_id == 5 {
        match Bezier::from_record(pairs.as_slice(), counter) {
            Ok(x) => Ok(SchRecord::Bezier(x)),
            Err(e) => Err(e),
        }
    } else if record_id == 6 {
        match PolyLine::from_record(pairs.as_slice(), counter) {
            Ok(x) => Ok(SchRecord::PolyLine(x)),
            Err(e) => Err(e),
        }
    } else if record_id == 7 {
        match Polygon::from_record(pairs.as_slice(), counter) {
            Ok(x) => Ok(SchRecord::Polygon(x)),
            Err(e) => Err(e),
        }
    } else if record_id == 8 {
        match Ellipse::from_record(pairs.as_slice(), counter) {
            Ok(x) => Ok(SchRecord::Ellipse(x)),
            Err(e) => Err(e),
        }
    } else if record_id == 9 {
        match Piechart::from_record(pairs.as_slice(), counter) {
            Ok(x) => Ok(SchRecord::Piechart(x)),
            Err(e) => Err(e),
        }
    } else if record_id == 10 {
        match RectangleRounded::from_record(pairs.as_slice(), counter) {
            Ok(x) => Ok(SchRecord::RectangleRounded(x)),
            Err(e) => Err(e),
        }
    } else if record_id == 11 {
        match ElipticalArc::from_record(pairs.as_slice(), counter) {
            Ok(x) => Ok(SchRecord::ElipticalArc(x)),
            Err(e) => Err(e),
        }
    } else if record_id == 12 {
        match Arc::from_record(pairs.as_slice(), counter) {
            Ok(x) => Ok(SchRecord::Arc(x)),
            Err(e) => Err(e),
        }
    } else if record_id == 13 {
        match Line::from_record(pairs.as_slice(), counter) {
            Ok(x) => Ok(SchRecord::Line(x)),
            Err(e) => Err(e),
        }
    } else if record_id == 14 {
        match Rectangle::from_record(pairs.as_slice(), counter) {
            Ok(x) => Ok(SchRecord::Rectangle(x)),
            Err(e) => Err(e),
        }
    } else if record_id == 15 {
        match SheetSymbol::from_record(pairs.as_slice(), counter) {
            Ok(x) => Ok(SchRecord::SheetSymbol(x)),
            Err(e) => Err(e),
        }
    } else if record_id == 16 {
        match SheetEntry::from_record(pairs.as_slice(), counter) {
            Ok(x) => Ok(SchRecord::SheetEntry(x)),
            Err(e) => Err(e),
        }
    } else if record_id == 17 {
        match PowerPort::from_record(pairs.as_slice(), counter) {
            Ok(x) => Ok(SchRecord::PowerPort(x)),
            Err(e) => Err(e),
        }
    } else if record_id == 18 {
        match Port::from_record(pairs.as_slice(), counter) {
            Ok(x) => Ok(SchRecord::Port(x)),
            Err(e) => Err(e),
        }
    } else if record_id == 22 {
        match NoErc::from_record(pairs.as_slice(), counter) {
            Ok(x) => Ok(SchRecord::NoErc(x)),
            Err(e) => Err(e),
        }
    } else if record_id == 25 {
        match NetLabel::from_record(pairs.as_slice(), counter) {
            Ok(x) => Ok(SchRecord::NetLabel(x)),
            Err(e) => Err(e),
        }
    } else if record_id == 26 {
        match Bus::from_record(pairs.as_slice(), counter) {
            Ok(x) => Ok(SchRecord::Bus(x)),
            Err(e) => Err(e),
        }
    } else if record_id == 27 {
        match Wire::from_record(pairs.as_slice(), counter) {
            Ok(x) => Ok(SchRecord::Wire(x)),
            Err(e) => Err(e),
        }
    } else if record_id == 28 {
        match TextFrame::from_record(pairs.as_slice(), counter) {
            Ok(x) => Ok(SchRecord::TextFrame(x)),
            Err(e) => Err(e),
        }
    } else if record_id == 29 {
        match Junction::from_record(pairs.as_slice(), counter) {
            Ok(x) => Ok(SchRecord::Junction(x)),
            Err(e) => Err(e),
        }
    } else if record_id == 30 {
        match Image::from_record(pairs.as_slice(), counter) {
            Ok(x) => Ok(SchRecord::Image(x)),
            Err(e) => Err(e),
        }
    } else if record_id == 31 {
        match Sheet::from_record(pairs.as_slice(), counter) {
            Ok(x) => Ok(SchRecord::Sheet(x)),
            Err(e) => Err(e),
        }
    } else if record_id == 32 {
        match SheetName::from_record(pairs.as_slice(), counter) {
            Ok(x) => Ok(SchRecord::SheetName(x)),
            Err(e) => Err(e),
        }
    } else if record_id == 33 {
        match FileName::from_record(pairs.as_slice(), counter) {
            Ok(x) => Ok(SchRecord::FileName(x)),
            Err(e) => Err(e),
        }
    } else if record_id == 34 {
        match Designator::from_record(pairs.as_slice(), counter) {
            Ok(x) => Ok(SchRecord::Designator(x)),
            Err(e) => Err(e),
        }
    } else if record_id == 37 {
        match BusEntry::from_record(pairs.as_slice(), counter) {
            Ok(x) => Ok(SchRecord::BusEntry(x)),
            Err(e) => Err(e),
        }
    } else if record_id == 39 {
        match Template::from_record(pairs.as_slice(), counter) {
            Ok(x) => Ok(SchRecord::Template(x)),
            Err(e) => Err(e),
        }
    } else if record_id == 41 {
        match Parameter::from_record(pairs.as_slice(), counter) {
            Ok(x) => Ok(SchRecord::Parameter(x)),
            Err(e) => Err(e),
        }
    } else if record_id == 44 {
        match ImplementationList::from_record(pairs.as_slice(), counter) {
            Ok(x) => Ok(SchRecord::ImplementationList(x)),
            Err(e) => Err(e),
        }
    } else if record_id == 45 {
        match Implementation::from_record(pairs.as_slice(), counter) {
            Ok(x) => Ok(SchRecord::Implementation(x)),
            Err(e) => Err(e),
        }
    } else if record_id == 46 {
        match ImplementationChild1::from_record(pairs.as_slice(), counter) {
            Ok(x) => Ok(SchRecord::ImplementationChild1(x)),
            Err(e) => Err(e),
        }
    } else if record_id == 48 {
        match ImplementationChild2::from_record(pairs.as_slice(), counter) {
            Ok(x) => Ok(SchRecord::ImplementationChild2(x)),
            Err(e) => Err(e),
        }
    } else {
        crate::logging::log_unsupported_key(counter, idbuf, to_parse);
        Ok(SchRecord::Undefined)
    }
}

/// A 24-bit little-endian length from three bytes.
pub open spec fn spec_le3(b0: u8, b1: u8, b2: u8) -> int {
    b0 + 0x100 * b1 + 0x10000 * b2
}

/// The frames of a stream: each a tag byte and a payload stripped of its
/// trailing NUL, or nothing when a frame is ill-formed (a bad tag, a length
/// past the end of the stream, or a missing NUL).
pub open spec fn spec_frames(b: Seq<u8>) -> Option<Seq<(u8, Seq<u8>)>>
    decreases b.len(),
{
    if b.len() == 0 {
        Some(Seq::empty())
    } else if b.len() < 4 {
        None
    } else {
        let len = spec_le3(b[0], b[1], b[2]);
        let tag = b[3];
        if tag != 0 && tag != 1 {
            None
        } else if len == 0 || b.len() < 4 + len {
            None
        } else if b[4 + len - 1] != 0 {
            None
        } else {
            match spec_frames(b.skip(4 + len)) {
                None => None,
                Some(r) => Some(seq![(tag, b.subrange(4, 4 + len - 1))] + r),
            }
        }
    }
}

/// Whether one frame decodes without error.
pub open spec fn spec_frame_ok(f: (u8, Seq<u8>)) -> bool {
    if f.0 == 1 {
        spec_parse_pin(f.1) is Some
    } else {
        spec_any_ok(f.1)
    }
}

/// The record one frame decodes to.
pub open spec fn spec_frame_matches(f: (u8, Seq<u8>), rec: SchRecord) -> bool {
    if f.0 == 1 {
        rec matches SchRecord::Pin(pin) && {
            let pf = spec_parse_pin(f.1)->0;
            &&& pin.description@ == pf.description
            &&& pin.name@ == pf.name
            &&& pin.designator@ == pf.designator
            &&& pin.location.x == pf.x
            &&& pin.location.y == pf.y
            &&& pin.length == pf.length
            &&& pin.rotation == pf.rotation
        }
    } else {
        spec_any_matches(f.1, rec)
    }
}

/// Whether a stream splits into frames that all decode without error.
pub open spec fn spec_frames_all_ok(b: Seq<u8>) -> bool {
    spec_frames(b) matches Some(fs) && (forall|j: int|
        0 <= j < fs.len() ==> spec_frame_ok(#[trigger] fs[j]))
}

/// Given a buffer for a component, split the length-prefixed frames up and
/// decode each.  An empty stream is an empty record list.  The name is only
/// used for diagnostics.
#[verifier::loop_isolation(false)]
#[verifier::rlimit(100)]
pub fn parse_all_records(buf: &[u8], err_name: &str, counter: &mut UnsupportedCounter) -> (r:
    Result<Vec<SchRecord>, Error>)
    ensures
        r is Ok <==> spec_frames_all_ok(buf@),
        r is Ok ==> {
            let fs = spec_frames(buf@)->0;
            &&& r->Ok_0@.len() == fs.len()
            &&& forall|j: int| 0 <= j < fs.len() ==> spec_frame_matches(
                #[trigger] fs[j],
                r->Ok_0@[j],
            )
        },
        final(counter).count >= old(counter).count,
{
    let mut parsed: Vec<SchRecord> = Vec::new();
    let mut working: &[u8] = buf;
    let ghost mut gdone: Seq<(u8, Seq<u8>)> = Seq::empty();
    while working.len() > 0
        invariant
            spec_frames(buf@) == (match spec_frames(working@) {
                None => None::<Seq<(u8, Seq<u8>)>>,
                Some(t) => Some(gdone + t),
            }),
            forall|j: int| 0 <= j < gdone.len() ==> spec_frame_ok(#[trigger] gdone[j]),
            parsed@.len() == gdone.len(),
            forall|j: int| 0 <= j < gdone.len() ==> spec_frame_matches(
                #[trigger] gdone[j],
                parsed@[j],
            ),
            counter.count >= old(counter).count,
        decreases working@.len(),
    {
        let ghost prev = working@;
        if working.len() < 4 {
            return Err(Error::from_kind(ErrorKind::BufferTooShort(
                4,
                crate::error::TruncBuf::new(working),
            )).context(err_name));
        }
        let len: usize = (working[0] as usize) + 0x100 * (working[1] as usize) + 0x10000 * (
        working[2] as usize);
        let tag = working[3];
        if tag != 0 && tag != 1 {
            return Err(Error::from_kind(ErrorKind::new_invalid_stream(err_name, 3)).context(
                err_name,
            ));
        }
        if len == 0 || working.len() - 4 < len {
            return Err(Error::from_kind(ErrorKind::BufferTooShort(
                len,
                crate::error::TruncBuf::new(working),
            )).context(err_name));
        }
        if working[4 + len - 1] != 0 {
            let tail = &working[4..4 + len];
            return Err(Error::from_kind(ErrorKind::ExpectedNul(
                crate::error::TruncBuf::new_end(tail),
            )).context(err_name));
        }
        let payload = &working[4..4 + len - 1];
        let ghost frame = (tag, prev.subrange(4, 4 + spec_le3(prev[0], prev[1], prev[2]) - 1));
        proof {
            assert(payload@ =~= frame.1);
        }
        let rec: SchRecord;
        if tag == 1 {
            match SchPin::parse(payload) {
                Ok(x) => {
                    rec = x;
                },
                Err(e) => {
                    proof {
                        lemma_frames_bad(buf@, gdone, prev, frame);
                    }
                    return Err(Error::from_kind(e).context(err_name));
                },
            }
        } else {
            match parse_any_record(payload, counter) {
                Ok(x) => {
                    rec = x;
                },
                Err(e) => {
                    proof {
                        lemma_frames_bad(buf@, gdone, prev, frame);
                    }
                    return Err(Error::from_kind(e).context(err_name));
                },
            }
        }
        parsed.push(rec);
        let n = working.len();
        working = &working[4 + len..n];
        proof {
            assert(working@ =~= prev.skip(4 + spec_le3(prev[0], prev[1], prev[2])));
            assert(spec_frames(prev) == (match spec_frames(working@) {
                None => None::<Seq<(u8, Seq<u8>)>>,
                Some(t) => Some(seq![frame] + t),
            }));
            let ghost gdone2 = gdone.push(frame);
            assert(gdone2.drop_last() =~= gdone);
            if spec_frames(working@) is Some {
                assert(gdone + (seq![frame] + spec_frames(working@)->0) =~= gdone2
                    + spec_frames(working@)->0);
            }
            gdone = gdone2;
        }
    }
    proof {
        assert(working@ =~= Seq::<u8>::empty());
        assert(spec_frames(working@) == Some(Seq::<(u8, Seq<u8>)>::empty()));
        assert(gdone + Seq::<(u8, Seq<u8>)>::empty() =~= gdone);
    }
    Ok(parsed)
}

/// When the current frame decodes with an error, the whole stream has no
/// clean decoding.
proof fn lemma_frames_bad(b: Seq<u8>, gdone: Seq<(u8, Seq<u8>)>, prev: Seq<u8>, frame: (
    u8,
    Seq<u8>,
))
    requires
        spec_frames(b) == (match spec_frames(prev) {
            None => None::<Seq<(u8, Seq<u8>)>>,
            Some(t) => Some(gdone + t),
        }),
        spec_frames(prev) is Some ==> spec_frames(prev)->0.len() > 0 && spec_frames(prev)->0[0]
            == frame,
        !spec_frame_ok(frame),
    ensures
        !(spec_frames(b) matches Some(fs) && (forall|j: int|
            0 <= j < fs.len() ==> spec_frame_ok(#[trigger] fs[j]))),
{
    if spec_frames(prev) is Some {
        let t = spec_frames(prev)->0;
        let fs = gdone + t;
        assert(t.len() > 0);
        assert(fs.len() == gdone.len() + t.len());
        assert(fs[gdone.len() as int] == t[0]);
        assert(!spec_frame_ok(fs[gdone.len() as int]));
        assert(spec_frames(b) == Some(fs));
        assert(spec_frames(b)->0 == fs);
        assert(!(forall|j: int| 0 <= j < fs.len() ==> spec_frame_ok(#[trigger] fs[j]))) by {
            if forall|j: int| 0 <= j < fs.len() ==> spec_frame_ok(#[trigger] fs[j]) {
                assert(spec_frame_ok(fs[gdone.len() as int]));
            }
        }
    }
}

} // verus!
