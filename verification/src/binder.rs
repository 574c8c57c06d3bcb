//! Shared machinery for the declarative field binders.
//!
//! Every ASCII record kind is decoded the same way: walk the `(key, value)`
//! pairs in order, assign each recognized key to its field (so a later
//! occurrence of a key overwrites an earlier one), honour the `%UTF8%` dual
//! encoding for string fields, and count unrecognized keys.  The spec
//! functions here say what that walk leaves in each field, in terms of the
//! last relevant occurrence of a key.

use vstd::prelude::*;

use crate::common::{pairs_view, Location, LocationFract, Rgb, UniqueId};
use crate::parse::{int_val, is_int_text, is_uint_text, uint_val};
use vstd::utf8::{decode_utf8, valid_utf8};

verus! {

/// A key-value pair list as the binders see it.
pub type SpecPairs = Seq<(Seq<u8>, Seq<u8>)>;

/// The `%UTF8%` twin of a key.
pub open spec fn utf8_twin(k: Seq<u8>) -> Seq<u8> {
    seq![0x25u8, 0x55u8, 0x54u8, 0x46u8, 0x38u8, 0x25u8] + k
}

/// The value of the last pair with the given key, if any.
pub open spec fn last_val(p: SpecPairs, k: Seq<u8>) -> Option<Seq<u8>>
    decreases p.len(),
{
    if p.len() == 0 {
        None
    } else if p.last().0 == k {
        Some(p.last().1)
    } else {
        last_val(p.drop_last(), k)
    }
}

pub open spec fn has_key(p: SpecPairs, k: Seq<u8>) -> bool {
    last_val(p, k) is Some
}

/// The effective wire value of a string field: the last `%UTF8%` form when
/// one occurs, else the last raw form.
pub open spec fn eff_str_val(p: SpecPairs, k: Seq<u8>) -> Option<Seq<u8>> {
    if has_key(p, utf8_twin(k)) {
        last_val(p, utf8_twin(k))
    } else {
        last_val(p, k)
    }
}

/// Appending a pair only changes the last value of its own key.
pub proof fn lemma_last_val_push(p: SpecPairs, q: (Seq<u8>, Seq<u8>), k: Seq<u8>)
    ensures
        last_val(p.push(q), k) == if q.0 == k {
            Some(q.1)
        } else {
            last_val(p, k)
        },
{
    assert(p.push(q).drop_last() =~= p);
}

/// The field kinds a value can be parsed as.
#[derive(Clone, Copy, Debug, PartialEq, Eq, Structural)]
pub enum FieldKind {
    U8,
    I8,
    U16,
    I16,
    U32,
    I32,
    Bool,
    Uid,
    Color,
    MilsU32,
    MilsI32,
    Just,
    Ros,
    Etype,
}

/// Whether a wire value is one the kind's parser accepts.
pub open spec fn kind_ok(kd: FieldKind, v: Seq<u8>) -> bool {
    match kd {
        FieldKind::U8 => ok_u8(v),
        FieldKind::I8 => ok_i8(v),
        FieldKind::U16 => ok_u16(v),
        FieldKind::I16 => ok_i16(v),
        FieldKind::U32 => ok_u32(v),
        FieldKind::I32 => ok_i32(v),
        FieldKind::Bool => ok_bool(v),
        FieldKind::Uid => ok_uid(v),
        FieldKind::Color => ok_u32(v),
        FieldKind::MilsU32 => ok_mils_u32(v),
        FieldKind::MilsI32 => ok_mils_i32(v),
        FieldKind::Just => is_uint_text(v) && uint_val(v) <= 8,
        FieldKind::Ros => is_uint_text(v) && uint_val(v) <= 1,
        FieldKind::Etype => is_uint_text(v) && uint_val(v) <= 7,
    }
}

/// Some pair of the list has this key and a value the field's parser
/// rejects.
pub open spec fn kind_field_fails(p: SpecPairs, kd: FieldKind, k: Seq<u8>) -> bool {
    exists|i: int| 0 <= i < p.len() && (#[trigger] p[i]).0 == k && !kind_ok(kd, p[i].1)
}

/// A string field fails when a `%UTF8%` occurrence is invalid UTF-8, or a
/// raw occurrence not yet shadowed by a `%UTF8%` twin is invalid UTF-8.
pub open spec fn str_field_fails(p: SpecPairs, k: Seq<u8>) -> bool {
    ||| exists|i: int| 0 <= i < p.len() && (#[trigger] p[i]).0 == utf8_twin(k) && !valid_utf8(
        p[i].1,
    )
    ||| exists|i: int| 0 <= i < p.len() && (#[trigger] p[i]).0 == k && !valid_utf8(p[i].1)
        && !has_key(p.take(i), utf8_twin(k))
}

/// Addition that stops at the largest counter value.
pub open spec fn sat_add(a: u64, n: int) -> u64 {
    if a + n > u64::MAX {
        u64::MAX
    } else if a + n < 0 {
        0
    } else {
        (a + n) as u64
    }
}

/// Decoded field values, each as the last effective occurrence leaves it.
pub open spec fn u8_field(p: SpecPairs, k: Seq<u8>) -> u8 {
    match last_val(p, k) {
        None => 0,
        Some(v) => uint_val(v) as u8,
    }
}

pub open spec fn u16_field(p: SpecPairs, k: Seq<u8>) -> u16 {
    match last_val(p, k) {
        None => 0,
        Some(v) => uint_val(v) as u16,
    }
}

pub open spec fn u32_field(p: SpecPairs, k: Seq<u8>) -> u32 {
    match last_val(p, k) {
        None => 0,
        Some(v) => uint_val(v) as u32,
    }
}

pub open spec fn i8_field(p: SpecPairs, k: Seq<u8>) -> i8 {
    match last_val(p, k) {
        None => 0,
        Some(v) => int_val(v) as i8,
    }
}

pub open spec fn i16_field(p: SpecPairs, k: Seq<u8>) -> i16 {
    match last_val(p, k) {
        None => 0,
        Some(v) => int_val(v) as i16,
    }
}

pub open spec fn i32_field(p: SpecPairs, k: Seq<u8>) -> i32 {
    match last_val(p, k) {
        None => 0,
        Some(v) => int_val(v) as i32,
    }
}

pub open spec fn bool_field(p: SpecPairs, k: Seq<u8>) -> bool {
    match last_val(p, k) {
        None => false,
        Some(v) => v == seq![0x54u8],
    }
}

pub open spec fn color_field(p: SpecPairs, k: Seq<u8>) -> Rgb {
    match last_val(p, k) {
        None => Rgb { r: 0, g: 0, b: 0 },
        Some(v) => Rgb::spec_from_packed(uint_val(v) as u32),
    }
}

pub open spec fn uid_field(p: SpecPairs, k: Seq<u8>) -> UniqueId {
    match last_val(p, k) {
        None => UniqueId::Simple([0x30u8, 0x30u8, 0x30u8, 0x30u8, 0x30u8, 0x30u8, 0x30u8, 0x30u8]),
        Some(v) => UniqueId::spec_from_utf8(v)->0,
    }
}

pub open spec fn just_field(p: SpecPairs, k: Seq<u8>) -> crate::params::Justification {
    match last_val(p, k) {
        None => crate::params::Justification::BottomLeft,
        Some(v) => crate::params::Justification::spec_from_ordinal(uint_val(v) as u8)->0,
    }
}

pub open spec fn ros_field(p: SpecPairs, k: Seq<u8>) -> crate::common::ReadOnlyState {
    match last_val(p, k) {
        None => crate::common::ReadOnlyState::ReadWrite,
        Some(v) => crate::common::ReadOnlyState::spec_from_ordinal(uint_val(v) as u8)->0,
    }
}

pub open spec fn etype_field(p: SpecPairs, k: Seq<u8>) -> crate::pin::ElectricalType {
    match last_val(p, k) {
        None => crate::pin::ElectricalType::Input,
        Some(v) => crate::pin::ElectricalType::spec_from_ordinal(uint_val(v) as u8)->0,
    }
}

/// A converted field: the parsed mils value scaled to nanometers.
pub open spec fn mils_u32_field(p: SpecPairs, k: Seq<u8>) -> u32 {
    match last_val(p, k) {
        None => 0,
        Some(v) => (uint_val(v) * 25400) as u32,
    }
}

pub open spec fn mils_i32_field(p: SpecPairs, k: Seq<u8>) -> i32 {
    match last_val(p, k) {
        None => 0,
        Some(v) => (int_val(v) * 25400) as i32,
    }
}

/// The text of a string field: the decoded last effective occurrence, or
/// empty when the key never occurs.
pub open spec fn str_field(p: SpecPairs, k: Seq<u8>) -> Seq<char> {
    match eff_str_val(p, k) {
        None => Seq::empty(),
        Some(v) => decode_utf8(v),
    }
}

/// An optional string field: set only once some occurrence appears.
pub open spec fn opt_str_field(p: SpecPairs, k: Seq<u8>) -> Option<Seq<char>> {
    match eff_str_val(p, k) {
        None => None,
        Some(v) => Some(decode_utf8(v)),
    }
}

/// A raw-text field: the last occurrence kept lossily, never a failure.
pub open spec fn raw_field(p: SpecPairs, k: Seq<u8>) -> Seq<char> {
    match last_val(p, k) {
        None => Seq::empty(),
        Some(v) => crate::outside::lossy_decode(v),
    }
}

/// A composite location field read from `<Base>.X` and `<Base>.Y` keys.
pub open spec fn loc_field(p: SpecPairs, kx: Seq<u8>, ky: Seq<u8>) -> Location {
    Location { x: i32_field(p, kx), y: i32_field(p, ky) }
}

/// A fractional location field: `.X`, `.Y`, `.X_Frac` and `.Y_Frac` keys.
pub open spec fn locf_field(
    p: SpecPairs,
    kx: Seq<u8>,
    ky: Seq<u8>,
    kxf: Seq<u8>,
    kyf: Seq<u8>,
) -> LocationFract {
    LocationFract {
        x: i32_field(p, kx),
        x_fract: i32_field(p, kxf),
        y: i32_field(p, ky),
        y_fract: i32_field(p, kyf),
    }
}

/// The parser-acceptance predicates, one per field kind.
pub open spec fn ok_u8(v: Seq<u8>) -> bool {
    is_uint_text(v) && uint_val(v) <= u8::MAX
}

pub open spec fn ok_u16(v: Seq<u8>) -> bool {
    is_uint_text(v) && uint_val(v) <= u16::MAX
}

pub open spec fn ok_u32(v: Seq<u8>) -> bool {
    is_uint_text(v) && uint_val(v) <= u32::MAX
}

pub open spec fn ok_i8(v: Seq<u8>) -> bool {
    is_int_text(v) && i8::MIN <= int_val(v) <= i8::MAX
}

pub open spec fn ok_i16(v: Seq<u8>) -> bool {
    is_int_text(v) && i16::MIN <= int_val(v) <= i16::MAX
}

pub open spec fn ok_i32(v: Seq<u8>) -> bool {
    is_int_text(v) && i32::MIN <= int_val(v) <= i32::MAX
}

pub open spec fn ok_bool(v: Seq<u8>) -> bool {
    v == seq![0x54u8] || v == seq![0x46u8]
}

pub open spec fn ok_uid(v: Seq<u8>) -> bool {
    UniqueId::spec_from_utf8(v) is Some
}

pub open spec fn ok_mils_u32(v: Seq<u8>) -> bool {
    is_uint_text(v) && uint_val(v) <= u32::MAX && uint_val(v) * 25400 <= u32::MAX
}

pub open spec fn ok_mils_i32(v: Seq<u8>) -> bool {
    is_int_text(v) && i32::MIN <= int_val(v) <= i32::MAX && i32::MIN <= int_val(v) * 25400
        <= i32::MAX
}

/// The number of pairs whose key the given known-key predicate rejects.
pub open spec fn unknown_count(p: SpecPairs, known: spec_fn(Seq<u8>) -> bool) -> int
    decreases p.len(),
{
    if p.len() == 0 {
        0
    } else {
        unknown_count(p.drop_last(), known) + if known(p.last().0) {
            0int
        } else {
            1int
        }
    }
}

pub proof fn lemma_unknown_count_bounds(p: SpecPairs, known: spec_fn(Seq<u8>) -> bool)
    ensures
        0 <= unknown_count(p, known) <= p.len(),
    decreases p.len(),
{
    if p.len() > 0 {
        lemma_unknown_count_bounds(p.drop_last(), known);
    }
}

/// The dual-encoding rule, stated once for every record kind that binds a
/// string field: when both the raw key and its `%UTF8%` twin occur, the
/// field's effective value is the value of the last `%UTF8%` occurrence,
/// and the raw value is discarded.
pub proof fn lemma_utf8_twin_wins(p: SpecPairs, k: Seq<u8>)
    requires
        has_key(p, k),
        has_key(p, utf8_twin(k)),
    ensures
        eff_str_val(p, k) == last_val(p, utf8_twin(k)),
        str_field(p, k) == decode_utf8(last_val(p, utf8_twin(k))->0),
{
}

} // verus!
