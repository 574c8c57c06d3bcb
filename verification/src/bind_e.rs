//! Field binders for the record kinds that carry location arrays.

use vstd::prelude::*;

use crate::binder::{
    ok_bool, ok_i16, ok_i32, ok_i8, ok_mils_u32, ok_u16, ok_u32, ok_u8, ok_uid, sat_add,
    SpecPairs,
};
use crate::common::{
    pairs_view, spec_is_number_pattern, Location, LocationFract, Rgb, UniqueId,
};
use crate::error::ErrorKind;
use crate::logging::UnsupportedCounter;
use crate::parse::{int_val, is_uint_text, uint_val};
use crate::records::{Bezier, Bus, PolyLine, Polygon, Wire};

verus! {

/// The fields of a `Bezier` record as the walk of its pairs leaves them.
pub struct BezierState {
    pub color: Rgb,
    pub index_in_sheet: i16,
    pub is_not_accessible: bool,
    pub line_width: u32,
    pub owner_index: u8,
    pub owner_part_id: i8,
    pub owner_part_display_mode: i8,
    pub unique_id: UniqueId,
    pub locations: Seq<Location>,
}

impl Bezier {
    /// The wire record ID of this kind.
    pub open spec fn spec_record_id() -> u32 {
        5
    }

    pub open spec fn spec_init() -> BezierState {
        BezierState {
            color: Rgb { r: 0, g: 0, b: 0 },
            index_in_sheet: 0,
            is_not_accessible: false,
            line_width: 0,
            owner_index: 0,
            owner_part_id: 0,
            owner_part_display_mode: 0,
            unique_id: UniqueId::Simple([0x30u8, 0x30u8, 0x30u8, 0x30u8, 0x30u8, 0x30u8, 0x30u8, 0x30u8]),
            locations: Seq::empty(),
        }
    }

    /// Whether the binder recognizes this wire key.
    pub open spec fn spec_known_key(k: Seq<u8>) -> bool {
        ||| k == crate::keys::k_color()
        ||| k == crate::keys::k_index_in_sheet()
        ||| k == crate::keys::k_is_not_accesible()
        ||| k == crate::keys::k_line_width()
        ||| k == crate::keys::k_owner_index()
        ||| k == crate::keys::k_owner_part_id()
        ||| k == crate::keys::k_owner_part_display_mode()
        ||| k == crate::keys::k_unique_id()
        ||| k == crate::keys::k_location_count()
        ||| spec_is_number_pattern(k, seq![0x58u8])
        ||| spec_is_number_pattern(k, seq![0x59u8])
    }

    /// How many pairs hold keys the binder does not recognize.
    pub open spec fn spec_unknown(p: SpecPairs) -> int
        decreases p.len(),
    {
        if p.len() == 0 {
            0
        } else {
            Self::spec_unknown(p.drop_last()) + if Self::spec_known_key(p.last().0) {
                0int
            } else {
                1int
            }
        }
    }

    /// One pair applied to the state: a recognized key either updates its
    /// field or, when its value does not parse or an index is out of range,
    /// fails the record; anything else leaves the state alone.
    pub open spec fn spec_step(st: BezierState, q: (Seq<u8>, Seq<u8>)) -> Option<BezierState> {
        let v = q.1;
        if q.0 == crate::keys::k_color() {
            if ok_u32(v) {
                Some(BezierState { color: Rgb::spec_from_packed(uint_val(v) as u32), ..st })
            } else {
                None
            }
        } else if q.0 == crate::keys::k_index_in_sheet() {
            if ok_i16(v) {
                Some(BezierState { index_in_sheet: int_val(v) as i16, ..st })
            } else {
                None
            }
        } else if q.0 == crate::keys::k_is_not_accesible() {
            if ok_bool(v) {
                Some(BezierState { is_not_accessible: v == seq![0x54u8], ..st })
            } else {
                None
            }
        } else if q.0 == crate::keys::k_line_width() {
            if ok_mils_u32(v) {
                Some(BezierState { line_width: (uint_val(v) * 25400) as u32, ..st })
            } else {
                None
            }
        } else if q.0 == crate::keys::k_owner_index() {
            if ok_u8(v) {
                Some(BezierState { owner_index: uint_val(v) as u8, ..st })
            } else {
                None
            }
        } else if q.0 == crate::keys::k_owner_part_id() {
            if ok_i8(v) {
                Some(BezierState { owner_part_id: int_val(v) as i8, ..st })
            } else {
                None
            }
        } else if q.0 == crate::keys::k_owner_part_display_mode() {
            if ok_i8(v) {
                Some(BezierState { owner_part_display_mode: int_val(v) as i8, ..st })
            } else {
                None
            }
        } else if q.0 == crate::keys::k_unique_id() {
            if ok_uid(v) {
                Some(BezierState { unique_id: UniqueId::spec_from_utf8(v)->0, ..st })
            } else {
                None
            }
        } else if q.0 == crate::keys::k_location_count() {
            if ok_u32(v) {
                Some(BezierState {
                    locations: Seq::new((uint_val(v) as u32) as nat, |j: int| Location { x: 0, y: 0 }),
                    ..st
                })
            } else {
                None
            }
        } else if spec_is_number_pattern(q.0, seq![0x58u8]) {
            let d = q.0.skip(1);
            if is_uint_text(d) && uint_val(d) <= usize::MAX && 1 <= uint_val(d) <= st.locations.len() && ok_i32(v) {
                let j = uint_val(d) - 1;
                Some(BezierState {
                    locations: st.locations.update(j, (
                        { let e = st.locations[j]; Location { x: int_val(v) as i32, ..e } }
                    )),
                    ..st
                })
            } else {
                None
            }
        } else if spec_is_number_pattern(q.0, seq![0x59u8]) {
            let d = q.0.skip(1);
            if is_uint_text(d) && uint_val(d) <= usize::MAX && 1 <= uint_val(d) <= st.locations.len() && ok_i32(v) {
                let j = uint_val(d) - 1;
                Some(BezierState {
                    locations: st.locations.update(j, (
                        { let e = st.locations[j]; Location { y: int_val(v) as i32, ..e } }
                    )),
                    ..st
                })
            } else {
                None
            }
        } else {
            Some(st)
        }
    }

    /// The state after all pairs, or nothing once one of them fails.
    pub open spec fn spec_fold(p: SpecPairs) -> Option<BezierState>
        decreases p.len(),
    {
        if p.len() == 0 {
            Some(Self::spec_init())
        } else {
            match Self::spec_fold(p.drop_last()) {
                None => None,
                Some(st) => Self::spec_step(st, p.last()),
            }
        }
    }

    /// A failure in a prefix fails the whole list.
    pub proof fn lemma_fold_none(p: SpecPairs, n: int)
        requires
            0 <= n <= p.len(),
            Self::spec_fold(p.take(n)) is None,
        ensures
            Self::spec_fold(p) is None,
        decreases p.len() - n,
    {
        if n < p.len() {
            assert(p.take(n + 1).drop_last() =~= p.take(n));
            Self::lemma_fold_none(p, n + 1);
        } else {
            assert(p.take(n) =~= p);
        }
    }

    /// Whether a decoded record holds the folded state.
    pub open spec fn spec_matches(x: Bezier, p: SpecPairs) -> bool {
        match Self::spec_fold(p) {
            None => false,
            Some(st) => {
                &&& x.color == st.color
        &&& x.index_in_sheet == st.index_in_sheet
        &&& x.is_not_accessible == st.is_not_accessible
        &&& x.line_width == st.line_width
        &&& x.owner_index == st.owner_index
        &&& x.owner_part_id == st.owner_part_id
        &&& x.owner_part_display_mode == st.owner_part_display_mode
        &&& x.unique_id == st.unique_id
                &&& x.locations@ == st.locations
            },
        }
    }

    /// Bind the fields of one `Bezier` record from its key-value pairs.
    #[verifier::loop_isolation(false)]
    #[verifier::rlimit(100)]
    pub fn from_record(pairs: &[(Vec<u8>, Vec<u8>)], counter: &mut UnsupportedCounter) -> (r:
        Result<Bezier, ErrorKind>)
        ensures
            r is Ok <==> Self::spec_fold(pairs_view(pairs@)) is Some,
            r is Ok ==> Self::spec_matches(r->Ok_0, pairs_view(pairs@)),
            r is Ok ==> final(counter).count == sat_add(
                old(counter).count,
                Self::spec_unknown(pairs_view(pairs@)),
            ),
            final(counter).count >= old(counter).count,
    {
        let ghost p = pairs_view(pairs@);
        proof {
            crate::common::lemma_pairs_view(pairs@);
            assert(p.take(0) =~= Seq::<(Seq<u8>, Seq<u8>)>::empty());
        }
        let a_color: [u8; 5] = [0x43u8, 0x6fu8, 0x6cu8, 0x6fu8, 0x72u8];
        let a_index_in_sheet: [u8; 12] = [0x49u8, 0x6eu8, 0x64u8, 0x65u8, 0x78u8, 0x49u8, 0x6eu8, 0x53u8, 0x68u8, 0x65u8, 0x65u8, 0x74u8];
        let a_is_not_accesible: [u8; 14] = [0x49u8, 0x73u8, 0x4eu8, 0x6fu8, 0x74u8, 0x41u8, 0x63u8, 0x63u8, 0x65u8, 0x73u8, 0x69u8, 0x62u8, 0x6cu8, 0x65u8];
        let a_line_width: [u8; 9] = [0x4cu8, 0x69u8, 0x6eu8, 0x65u8, 0x57u8, 0x69u8, 0x64u8, 0x74u8, 0x68u8];
        let a_owner_index: [u8; 10] = [0x4fu8, 0x77u8, 0x6eu8, 0x65u8, 0x72u8, 0x49u8, 0x6eu8, 0x64u8, 0x65u8, 0x78u8];
        let a_owner_part_id: [u8; 11] = [0x4fu8, 0x77u8, 0x6eu8, 0x65u8, 0x72u8, 0x50u8, 0x61u8, 0x72u8, 0x74u8, 0x49u8, 0x64u8];
        let a_owner_part_display_mode: [u8; 20] = [0x4fu8, 0x77u8, 0x6eu8, 0x65u8, 0x72u8, 0x50u8, 0x61u8, 0x72u8, 0x74u8, 0x44u8, 0x69u8, 0x73u8, 0x70u8, 0x6cu8, 0x61u8, 0x79u8, 0x4du8, 0x6fu8, 0x64u8, 0x65u8];
        let a_unique_id: [u8; 8] = [0x55u8, 0x6eu8, 0x69u8, 0x71u8, 0x75u8, 0x65u8, 0x49u8, 0x44u8];
        let a_location_count: [u8; 13] = [0x4cu8, 0x6fu8, 0x63u8, 0x61u8, 0x74u8, 0x69u8, 0x6fu8, 0x6eu8, 0x43u8, 0x6fu8, 0x75u8, 0x6eu8, 0x74u8];
        proof {
            assert(a_color@ =~= crate::keys::k_color());
            assert(a_index_in_sheet@ =~= crate::keys::k_index_in_sheet());
            assert(a_is_not_accesible@ =~= crate::keys::k_is_not_accesible());
            assert(a_line_width@ =~= crate::keys::k_line_width());
            assert(a_owner_index@ =~= crate::keys::k_owner_index());
            assert(a_owner_part_id@ =~= crate::keys::k_owner_part_id());
            assert(a_owner_part_display_mode@ =~= crate::keys::k_owner_part_display_mode());
            assert(a_unique_id@ =~= crate::keys::k_unique_id());
            assert(a_location_count@ =~= crate::keys::k_location_count());
            assert(crate::keys::k_color() != crate::keys::k_index_in_sheet()) by { assert(crate::keys::k_color().len() != crate::keys::k_index_in_sheet().len()); }
            assert(crate::keys::k_color() != crate::keys::k_is_not_accesible()) by { assert(crate::keys::k_color().len() != crate::keys::k_is_not_accesible().len()); }
            assert(crate::keys::k_color() != crate::keys::k_line_width()) by { assert(crate::keys::k_color().len() != crate::keys::k_line_width().len()); }
            assert(crate::keys::k_color() != crate::keys::k_owner_index()) by { assert(crate::keys::k_color().len() != crate::keys::k_owner_index().len()); }
            assert(crate::keys::k_color() != crate::keys::k_owner_part_id()) by { assert(crate::keys::k_color().len() != crate::keys::k_owner_part_id().len()); }
            assert(crate::keys::k_color() != crate::keys::k_owner_part_display_mode()) by { assert(crate::keys::k_color().len() != crate::keys::k_owner_part_display_mode().len()); }
            assert(crate::keys::k_color() != crate::keys::k_unique_id()) by { assert(crate::keys::k_color().len() != crate::keys::k_unique_id().len()); }
            assert(crate::keys::k_color() != crate::keys::k_location_count()) by { assert(crate::keys::k_color().len() != crate::keys::k_location_count().len()); }
            assert(crate::keys::k_index_in_sheet() != crate::keys::k_is_not_accesible()) by { assert(crate::keys::k_index_in_sheet().len() != crate::keys::k_is_not_accesible().len()); }
            assert(crate::keys::k_index_in_sheet() != crate::keys::k_line_width()) by { assert(crate::keys::k_index_in_sheet().len() != crate::keys::k_line_width().len()); }
            assert(crate::keys::k_index_in_sheet() != crate::keys::k_owner_index()) by { assert(crate::keys::k_index_in_sheet().len() != crate::keys::k_owner_index().len()); }
            assert(crate::keys::k_index_in_sheet() != crate::keys::k_owner_part_id()) by { assert(crate::keys::k_index_in_sheet().len() != crate::keys::k_owner_part_id().len()); }
            assert(crate::keys::k_index_in_sheet() != crate::keys::k_owner_part_display_mode()) by { assert(crate::keys::k_index_in_sheet().len() != crate::keys::k_owner_part_display_mode().len()); }
            assert(crate::keys::k_index_in_sheet() != crate::keys::k_unique_id()) by { assert(crate::keys::k_index_in_sheet().len() != crate::keys::k_unique_id().len()); }
            assert(crate::keys::k_index_in_sheet() != crate::keys::k_location_count()) by { assert(crate::keys::k_index_in_sheet().len() != crate::keys::k_location_count().len()); }
            assert(crate::keys::k_is_not_accesible() != crate::keys::k_line_width()) by { assert(crate::keys::k_is_not_accesible().len() != crate::keys::k_line_width().len()); }
            assert(crate::keys::k_is_not_accesible() != crate::keys::k_owner_index()) by { assert(crate::keys::k_is_not_accesible().len() != crate::keys::k_owner_index().len()); }
            assert(crate::keys::k_is_not_accesible() != crate::keys::k_owner_part_id()) by { assert(crate::keys::k_is_not_accesible().len() != crate::keys::k_owner_part_id().len()); }
            assert(crate::keys::k_is_not_accesible() != crate::keys::k_owner_part_display_mode()) by { assert(crate::keys::k_is_not_accesible().len() != crate::keys::k_owner_part_display_mode().len()); }
            assert(crate::keys::k_is_not_accesible() != crate::keys::k_unique_id()) by { assert(crate::keys::k_is_not_accesible().len() != crate::keys::k_unique_id().len()); }
            assert(crate::keys::k_is_not_accesible() != crate::keys::k_location_count()) by { assert(crate::keys::k_is_not_accesible().len() != crate::keys::k_location_count().len()); }
            assert(crate::keys::k_line_width() != crate::keys::k_owner_index()) by { assert(crate::keys::k_line_width().len() != crate::keys::k_owner_index().len()); }
            assert(crate::keys::k_line_width() != crate::keys::k_owner_part_id()) by { assert(crate::keys::k_line_width().len() != crate::keys::k_owner_part_id().len()); }
            assert(crate::keys::k_line_width() != crate::keys::k_owner_part_display_mode()) by { assert(crate::keys::k_line_width().len() != crate::keys::k_owner_part_display_mode().len()); }
            assert(crate::keys::k_line_width() != crate::keys::k_unique_id()) by { assert(crate::keys::k_line_width().len() != crate::keys::k_unique_id().len()); }
            assert(crate::keys::k_line_width() != crate::keys::k_location_count()) by { assert(crate::keys::k_line_width().len() != crate::keys::k_location_count().len()); }
            assert(crate::keys::k_owner_index() != crate::keys::k_owner_part_id()) by { assert(crate::keys::k_owner_index().len() != crate::keys::k_owner_part_id().len()); }
            assert(crate::keys::k_owner_index() != crate::keys::k_owner_part_display_mode()) by { assert(crate::keys::k_owner_index().len() != crate::keys::k_owner_part_display_mode().len()); }
            assert(crate::keys::k_owner_index() != crate::keys::k_unique_id()) by { assert(crate::keys::k_owner_index().len() != crate::keys::k_unique_id().len()); }
            assert(crate::keys::k_owner_index() != crate::keys::k_location_count()) by { assert(crate::keys::k_owner_index().len() != crate::keys::k_location_count().len()); }
            assert(crate::keys::k_owner_part_id() != crate::keys::k_owner_part_display_mode()) by { assert(crate::keys::k_owner_part_id().len() != crate::keys::k_owner_part_display_mode().len()); }
            assert(crate::keys::k_owner_part_id() != crate::keys::k_unique_id()) by { assert(crate::keys::k_owner_part_id().len() != crate::keys::k_unique_id().len()); }
            assert(crate::keys::k_owner_part_id() != crate::keys::k_location_count()) by { assert(crate::keys::k_owner_part_id().len() != crate::keys::k_location_count().len()); }
            assert(crate::keys::k_owner_part_display_mode() != crate::keys::k_unique_id()) by { assert(crate::keys::k_owner_part_display_mode().len() != crate::keys::k_unique_id().len()); }
            assert(crate::keys::k_owner_part_display_mode() != crate::keys::k_location_count()) by { assert(crate::keys::k_owner_part_display_mode().len() != crate::keys::k_location_count().len()); }
            assert(crate::keys::k_unique_id() != crate::keys::k_location_count()) by { assert(crate::keys::k_unique_id().len() != crate::keys::k_location_count().len()); }
            assert(!spec_is_number_pattern(crate::keys::k_color(), seq![0x58u8])) by {
                if spec_is_number_pattern(crate::keys::k_color(), seq![0x58u8]) {
                    assert(crate::keys::k_color().take(1) == seq![0x58u8]);
                    assert(crate::keys::k_color()[0] == seq![0x58u8][0]);
                }
            }
            assert(!spec_is_number_pattern(crate::keys::k_color(), seq![0x59u8])) by {
                if spec_is_number_pattern(crate::keys::k_color(), seq![0x59u8]) {
                    assert(crate::keys::k_color().take(1) == seq![0x59u8]);
                    assert(crate::keys::k_color()[0] == seq![0x59u8][0]);
                }
            }
            assert(!spec_is_number_pattern(crate::keys::k_index_in_sheet(), seq![0x58u8])) by {
                if spec_is_number_pattern(crate::keys::k_index_in_sheet(), seq![0x58u8]) {
                    assert(crate::keys::k_index_in_sheet().take(1) == seq![0x58u8]);
                    assert(crate::keys::k_index_in_sheet()[0] == seq![0x58u8][0]);
                }
            }
            assert(!spec_is_number_pattern(crate::keys::k_index_in_sheet(), seq![0x59u8])) by {
                if spec_is_number_pattern(crate::keys::k_index_in_sheet(), seq![0x59u8]) {
                    assert(crate::keys::k_index_in_sheet().take(1) == seq![0x59u8]);
                    assert(crate::keys::k_index_in_sheet()[0] == seq![0x59u8][0]);
                }
            }
            assert(!spec_is_number_pattern(crate::keys::k_is_not_accesible(), seq![0x58u8])) by {
                if spec_is_number_pattern(crate::keys::k_is_not_accesible(), seq![0x58u8]) {
                    assert(crate::keys::k_is_not_accesible().take(1) == seq![0x58u8]);
                    assert(crate::keys::k_is_not_accesible()[0] == seq![0x58u8][0]);
                }
            }
            assert(!spec_is_number_pattern(crate::keys::k_is_not_accesible(), seq![0x59u8])) by {
                if spec_is_number_pattern(crate::keys::k_is_not_accesible(), seq![0x59u8]) {
                    assert(crate::keys::k_is_not_accesible().take(1) == seq![0x59u8]);
                    assert(crate::keys::k_is_not_accesible()[0] == seq![0x59u8][0]);
                }
            }
            assert(!spec_is_number_pattern(crate::keys::k_line_width(), seq![0x58u8])) by {
                if spec_is_number_pattern(crate::keys::k_line_width(), seq![0x58u8]) {
                    assert(crate::keys::k_line_width().take(1) == seq![0x58u8]);
                    assert(crate::keys::k_line_width()[0] == seq![0x58u8][0]);
                }
            }
            assert(!spec_is_number_pattern(crate::keys::k_line_width(), seq![0x59u8])) by {
                if spec_is_number_pattern(crate::keys::k_line_width(), seq![0x59u8]) {
                    assert(crate::keys::k_line_width().take(1) == seq![0x59u8]);
                    assert(crate::keys::k_line_width()[0] == seq![0x59u8][0]);
                }
            }
            assert(!spec_is_number_pattern(crate::keys::k_owner_index(), seq![0x58u8])) by {
                if spec_is_number_pattern(crate::keys::k_owner_index(), seq![0x58u8]) {
                    assert(crate::keys::k_owner_index().take(1) == seq![0x58u8]);
                    assert(crate::keys::k_owner_index()[0] == seq![0x58u8][0]);
                }
            }
            assert(!spec_is_number_pattern(crate::keys::k_owner_index(), seq![0x59u8])) by {
                if spec_is_number_pattern(crate::keys::k_owner_index(), seq![0x59u8]) {
                    assert(crate::keys::k_owner_index().take(1) == seq![0x59u8]);
                    assert(crate::keys::k_owner_index()[0] == seq![0x59u8][0]);
                }
            }
            assert(!spec_is_number_pattern(crate::keys::k_owner_part_id(), seq![0x58u8])) by {
                if spec_is_number_pattern(crate::keys::k_owner_part_id(), seq![0x58u8]) {
                    assert(crate::keys::k_owner_part_id().take(1) == seq![0x58u8]);
                    assert(crate::keys::k_owner_part_id()[0] == seq![0x58u8][0]);
                }
            }
            assert(!spec_is_number_pattern(crate::keys::k_owner_part_id(), seq![0x59u8])) by {
                if spec_is_number_pattern(crate::keys::k_owner_part_id(), seq![0x59u8]) {
                    assert(crate::keys::k_owner_part_id().take(1) == seq![0x59u8]);
                    assert(crate::keys::k_owner_part_id()[0] == seq![0x59u8][0]);
                }
            }
            assert(!spec_is_number_pattern(crate::keys::k_owner_part_display_mode(), seq![0x58u8])) by {
                if spec_is_number_pattern(crate::keys::k_owner_part_display_mode(), seq![0x58u8]) {
                    assert(crate::keys::k_owner_part_display_mode().take(1) == seq![0x58u8]);
                    assert(crate::keys::k_owner_part_display_mode()[0] == seq![0x58u8][0]);
                }
            }
            assert(!spec_is_number_pattern(crate::keys::k_owner_part_display_mode(), seq![0x59u8])) by {
                if spec_is_number_pattern(crate::keys::k_owner_part_display_mode(), seq![0x59u8]) {
                    assert(crate::keys::k_owner_part_display_mode().take(1) == seq![0x59u8]);
                    assert(crate::keys::k_owner_part_display_mode()[0] == seq![0x59u8][0]);
                }
            }
            assert(!spec_is_number_pattern(crate::keys::k_unique_id(), seq![0x58u8])) by {
                if spec_is_number_pattern(crate::keys::k_unique_id(), seq![0x58u8]) {
                    assert(crate::keys::k_unique_id().take(1) == seq![0x58u8]);
                    assert(crate::keys::k_unique_id()[0] == seq![0x58u8][0]);
                }
            }
            assert(!spec_is_number_pattern(crate::keys::k_unique_id(), seq![0x59u8])) by {
                if spec_is_number_pattern(crate::keys::k_unique_id(), seq![0x59u8]) {
                    assert(crate::keys::k_unique_id().take(1) == seq![0x59u8]);
                    assert(crate::keys::k_unique_id()[0] == seq![0x59u8][0]);
                }
            }
            assert(!spec_is_number_pattern(crate::keys::k_location_count(), seq![0x58u8])) by {
                if spec_is_number_pattern(crate::keys::k_location_count(), seq![0x58u8]) {
                    assert(crate::keys::k_location_count().take(1) == seq![0x58u8]);
                    assert(crate::keys::k_location_count()[0] == seq![0x58u8][0]);
                }
            }
            assert(!spec_is_number_pattern(crate::keys::k_location_count(), seq![0x59u8])) by {
                if spec_is_number_pattern(crate::keys::k_location_count(), seq![0x59u8]) {
                    assert(crate::keys::k_location_count().take(1) == seq![0x59u8]);
                    assert(crate::keys::k_location_count()[0] == seq![0x59u8][0]);
                }
            }
        }
        let a_pat_x: [u8; 1] = [0x58u8];
        let a_pat_y: [u8; 1] = [0x59u8];
        proof {
            assert(a_pat_x@ =~= seq![0x58u8]);
            assert(a_pat_y@ =~= seq![0x59u8]);
        }
        let mut x = Bezier {
            color: Rgb { r: 0, g: 0, b: 0 },
            index_in_sheet: 0,
            is_not_accessible: false,
            line_width: 0,
            owner_index: 0,
            owner_part_id: 0,
            owner_part_display_mode: 0,
            unique_id: UniqueId::Simple([0x30u8, 0x30u8, 0x30u8, 0x30u8, 0x30u8, 0x30u8, 0x30u8, 0x30u8]),
            locations: Vec::new(),
        };
        let n = pairs.len();
        let mut i: usize = 0;
        while i < n
            invariant
                0 <= i <= n,
                n == pairs@.len(),
                Self::spec_fold(p.take(i as int)) is Some,
                Self::spec_matches(x, p.take(i as int)),
                counter.count == sat_add(old(counter).count, Self::spec_unknown(p.take(i as int))),
                0 <= Self::spec_unknown(p.take(i as int)) <= i,
            decreases n - i,
        {
            let key: &[u8] = pairs[i].0.as_slice();
            let val: &[u8] = pairs[i].1.as_slice();
            proof {
                assert(p[i as int] == (pairs@[i as int].0@, pairs@[i as int].1@));
                assert(p.take(i as int + 1).drop_last() =~= p.take(i as int));
                assert(p.take(i as int + 1).last() == p[i as int]);
            }
            if crate::common::bytes_eq(key, a_color.as_slice()) {
            match Rgb::from_utf8(val) {
                Ok(v) => { x.color = v; },
                Err(e) => {
                    proof { Self::lemma_fold_none(p, i as int + 1); } return Err(e);
                },
            }
        }
        else if crate::common::bytes_eq(key, a_index_in_sheet.as_slice()) {
            match crate::parse::parse_i16(val) {
                Ok(v) => { x.index_in_sheet = v; },
                Err(e) => {
                    proof { Self::lemma_fold_none(p, i as int + 1); } return Err(e);
                },
            }
        }
        else if crate::common::bytes_eq(key, a_is_not_accesible.as_slice()) {
            match crate::parse::parse_bool(val) {
                Ok(v) => { x.is_not_accessible = v; },
                Err(e) => {
                    proof { Self::lemma_fold_none(p, i as int + 1); } return Err(e);
                },
            }
        }
        else if crate::common::bytes_eq(key, a_line_width.as_slice()) {
            match crate::parse::parse_u32(val) {
                Ok(m) => match crate::common::mils_to_nm_u32(m) {
                    Ok(v) => { x.line_width = v; },
                    Err(e) => {
                        proof { Self::lemma_fold_none(p, i as int + 1); } return Err(e);
                    },
                },
                Err(e) => {
                    proof { Self::lemma_fold_none(p, i as int + 1); } return Err(e);
                },
            }
        }
        else if crate::common::bytes_eq(key, a_owner_index.as_slice()) {
            match crate::parse::parse_u8(val) {
                Ok(v) => { x.owner_index = v; },
                Err(e) => {
                    proof { Self::lemma_fold_none(p, i as int + 1); } return Err(e);
                },
            }
        }
        else if crate::common::bytes_eq(key, a_owner_part_id.as_slice()) {
            match crate::parse::parse_i8(val) {
                Ok(v) => { x.owner_part_id = v; },
                Err(e) => {
                    proof { Self::lemma_fold_none(p, i as int + 1); } return Err(e);
                },
            }
        }
        else if crate::common::bytes_eq(key, a_owner_part_display_mode.as_slice()) {
            match crate::parse::parse_i8(val) {
                Ok(v) => { x.owner_part_display_mode = v; },
                Err(e) => {
                    proof { Self::lemma_fold_none(p, i as int + 1); } return Err(e);
                },
            }
        }
        else if crate::common::bytes_eq(key, a_unique_id.as_slice()) {
            match UniqueId::from_utf8(val) {
                Ok(v) => { x.unique_id = v; },
                Err(e) => {
                    proof { Self::lemma_fold_none(p, i as int + 1); } return Err(e);
                },
            }
        }
        else if crate::common::bytes_eq(key, a_location_count.as_slice()) {
            match crate::parse::parse_u32(val) {
                Ok(c) => {
                    let mut fresh: Vec<Location> = Vec::new();
                    let mut j: u32 = 0;
                    while j < c
                        invariant
                            0 <= j <= c,
                            fresh@.len() == j,
                            forall|t: int| 0 <= t < j ==> fresh@[t] == (Location { x: 0, y: 0 }),
                        decreases c - j,
                    {
                        fresh.push(Location { x: 0, y: 0 });
                        j += 1;
                    }
                    x.locations = fresh;
                    proof {
                        assert(x.locations@ =~= Seq::new((c as u32) as nat, |t: int| Location { x: 0, y: 0 }));
                    }
                },
                Err(e) => {
                    proof { Self::lemma_fold_none(p, i as int + 1); } return Err(e);
                },
            }
        } else if crate::common::is_number_pattern(key, a_pat_x.as_slice()) {
            let kl = key.len();
            let digits = &key[1..kl];
            proof {
                assert(digits@ =~= p[i as int].0.skip(1));
            }
            match crate::parse::parse_usize(digits) {
                Ok(idx) => {
                    if idx >= 1 && idx <= x.locations.len() {
                        match crate::parse::parse_i32(val) {
                            Ok(v) => {
                                let mut e = x.locations[idx - 1];
                                e.x = v;
                                x.locations.set(idx - 1, e);
                            },
                            Err(e) => {
                                proof { Self::lemma_fold_none(p, i as int + 1); } return Err(e);
                            },
                        }
                    } else {
                        proof { Self::lemma_fold_none(p, i as int + 1); } return Err(ErrorKind::new_invalid_key(key));
                    }
                },
                Err(e) => {
                    proof { Self::lemma_fold_none(p, i as int + 1); } return Err(e);
                },
            }
        } else if crate::common::is_number_pattern(key, a_pat_y.as_slice()) {
            let kl = key.len();
            let digits = &key[1..kl];
            proof {
                assert(digits@ =~= p[i as int].0.skip(1));
            }
            match crate::parse::parse_usize(digits) {
                Ok(idx) => {
                    if idx >= 1 && idx <= x.locations.len() {
                        match crate::parse::parse_i32(val) {
                            Ok(v) => {
                                let mut e = x.locations[idx - 1];
                                e.y = v;
                                x.locations.set(idx - 1, e);
                            },
                            Err(e) => {
                                proof { Self::lemma_fold_none(p, i as int + 1); } return Err(e);
                            },
                        }
                    } else {
                        proof { Self::lemma_fold_none(p, i as int + 1); } return Err(ErrorKind::new_invalid_key(key));
                    }
                },
                Err(e) => {
                    proof { Self::lemma_fold_none(p, i as int + 1); } return Err(e);
                },
            }
        } else {
            crate::logging::macro_unsupported_key(counter, "Bezier", key, val);
        }
            i += 1;
        }
        proof {
            assert(p.take(n as int) =~= p);
        }
        Ok(x)
    }
}

/// The fields of a `PolyLine` record as the walk of its pairs leaves them.
pub struct PolyLineState {
    pub owner_index: u8,
    pub owner_part_id: i8,
    pub is_not_accessible: bool,
    pub index_in_sheet: i16,
    pub line_width: u32,
    pub color: Rgb,
    pub unique_id: UniqueId,
    pub locations: Seq<LocationFract>,
}

impl PolyLine {
    /// The wire record ID of this kind.
    pub open spec fn spec_record_id() -> u32 {
        6
    }

    pub open spec fn spec_init() -> PolyLineState {
        PolyLineState {
            owner_index: 0,
            owner_part_id: 0,
            is_not_accessible: false,
            index_in_sheet: 0,
            line_width: 0,
            color: Rgb { r: 0, g: 0, b: 0 },
            unique_id: UniqueId::Simple([0x30u8, 0x30u8, 0x30u8, 0x30u8, 0x30u8, 0x30u8, 0x30u8, 0x30u8]),
            locations: Seq::empty(),
        }
    }

    /// Whether the binder recognizes this wire key.
    pub open spec fn spec_known_key(k: Seq<u8>) -> bool {
        ||| k == crate::keys::k_owner_index()
        ||| k == crate::keys::k_owner_part_id()
        ||| k == crate::keys::k_is_not_accesible()
        ||| k == crate::keys::k_index_in_sheet()
        ||| k == crate::keys::k_line_width()
        ||| k == crate::keys::k_color()
        ||| k == crate::keys::k_unique_id()
        ||| k == crate::keys::k_location_count()
        ||| spec_is_number_pattern(k, seq![0x58u8])
        ||| spec_is_number_pattern(k, seq![0x59u8])
    }

    /// How many pairs hold keys the binder does not recognize.
    pub open spec fn spec_unknown(p: SpecPairs) -> int
        decreases p.len(),
    {
        if p.len() == 0 {
            0
        } else {
            Self::spec_unknown(p.drop_last()) + if Self::spec_known_key(p.last().0) {
                0int
            } else {
                1int
            }
        }
    }

    /// One pair applied to the state: a recognized key either updates its
    /// field or, when its value does not parse or an index is out of range,
    /// fails the record; anything else leaves the state alone.
    pub open spec fn spec_step(st: PolyLineState, q: (Seq<u8>, Seq<u8>)) -> Option<PolyLineState> {
        let v = q.1;
        if q.0 == crate::keys::k_owner_index() {
            if ok_u8(v) {
                Some(PolyLineState { owner_index: uint_val(v) as u8, ..st })
            } else {
                None
            }
        } else if q.0 == crate::keys::k_owner_part_id() {
            if ok_i8(v) {
                Some(PolyLineState { owner_part_id: int_val(v) as i8, ..st })
            } else {
                None
            }
        } else if q.0 == crate::keys::k_is_not_accesible() {
            if ok_bool(v) {
                Some(PolyLineState { is_not_accessible: v == seq![0x54u8], ..st })
            } else {
                None
            }
        } else if q.0 == crate::keys::k_index_in_sheet() {
            if ok_i16(v) {
                Some(PolyLineState { index_in_sheet: int_val(v) as i16, ..st })
            } else {
                None
            }
        } else if q.0 == crate::keys::k_line_width() {
            if ok_mils_u32(v) {
                Some(PolyLineState { line_width: (uint_val(v) * 25400) as u32, ..st })
            } else {
                None
            }
        } else if q.0 == crate::keys::k_color() {
            if ok_u32(v) {
                Some(PolyLineState { color: Rgb::spec_from_packed(uint_val(v) as u32), ..st })
            } else {
                None
            }
        } else if q.0 == crate::keys::k_unique_id() {
            if ok_uid(v) {
                Some(PolyLineState { unique_id: UniqueId::spec_from_utf8(v)->0, ..st })
            } else {
                None
            }
        } else if q.0 == crate::keys::k_location_count() {
            if ok_u32(v) {
                Some(PolyLineState {
                    locations: Seq::new((uint_val(v) as u32) as nat, |j: int| LocationFract { x: 0, x_fract: 0, y: 0, y_fract: 0 }),
                    ..st
                })
            } else {
                None
            }
        } else if spec_is_number_pattern(q.0, seq![0x58u8]) {
            let d = q.0.skip(1);
            if is_uint_text(d) && uint_val(d) <= usize::MAX && 1 <= uint_val(d) <= st.locations.len() && ok_i32(v) {
                let j = uint_val(d) - 1;
                Some(PolyLineState {
                    locations: st.locations.update(j, (
                        { let e = st.locations[j]; LocationFract { x: int_val(v) as i32, ..e } }
                    )),
                    ..st
                })
            } else {
                None
            }
        } else if spec_is_number_pattern(q.0, seq![0x59u8]) {
            let d = q.0.skip(1);
            if is_uint_text(d) && uint_val(d) <= usize::MAX && 1 <= uint_val(d) <= st.locations.len() && ok_i32(v) {
                let j = uint_val(d) - 1;
                Some(PolyLineState {
                    locations: st.locations.update(j, (
                        { let e = st.locations[j]; LocationFract { y: int_val(v) as i32, ..e } }
                    )),
                    ..st
                })
            } else {
                None
            }
        } else {
            Some(st)
        }
    }

    /// The state after all pairs, or nothing once one of them fails.
    pub open spec fn spec_fold(p: SpecPairs) -> Option<PolyLineState>
        decreases p.len(),
    {
        if p.len() == 0 {
            Some(Self::spec_init())
        } else {
            match Self::spec_fold(p.drop_last()) {
                None => None,
                Some(st) => Self::spec_step(st, p.last()),
            }
        }
    }

    /// A failure in a prefix fails the whole list.
    pub proof fn lemma_fold_none(p: SpecPairs, n: int)
        requires
            0 <= n <= p.len(),
            Self::spec_fold(p.take(n)) is None,
        ensures
            Self::spec_fold(p) is None,
        decreases p.len() - n,
    {
        if n < p.len() {
            assert(p.take(n + 1).drop_last() =~= p.take(n));
            Self::lemma_fold_none(p, n + 1);
        } else {
            assert(p.take(n) =~= p);
        }
    }

    /// Whether a decoded record holds the folded state.
    pub open spec fn spec_matches(x: PolyLine, p: SpecPairs) -> bool {
        match Self::spec_fold(p) {
            None => false,
            Some(st) => {
                &&& x.owner_index == st.owner_index
        &&& x.owner_part_id == st.owner_part_id
        &&& x.is_not_accessible == st.is_not_accessible
        &&& x.index_in_sheet == st.index_in_sheet
        &&& x.line_width == st.line_width
        &&& x.color == st.color
        &&& x.unique_id == st.unique_id
                &&& x.locations@ == st.locations
            },
        }
    }

    /// Bind the fields of one `PolyLine` record from its key-value pairs.
    #[verifier::loop_isolation(false)]
    #[verifier::rlimit(100)]
    pub fn from_record(pairs: &[(Vec<u8>, Vec<u8>)], counter: &mut UnsupportedCounter) -> (r:
        Result<PolyLine, ErrorKind>)
        ensures
            r is Ok <==> Self::spec_fold(pairs_view(pairs@)) is Some,
            r is Ok ==> Self::spec_matches(r->Ok_0, pairs_view(pairs@)),
            r is Ok ==> final(counter).count == sat_add(
                old(counter).count,
                Self::spec_unknown(pairs_view(pairs@)),
            ),
            final(counter).count >= old(counter).count,
    {
        let ghost p = pairs_view(pairs@);
        proof {
            crate::common::lemma_pairs_view(pairs@);
            assert(p.take(0) =~= Seq::<(Seq<u8>, Seq<u8>)>::empty());
        }
        let a_owner_index: [u8; 10] = [0x4fu8, 0x77u8, 0x6eu8, 0x65u8, 0x72u8, 0x49u8, 0x6eu8, 0x64u8, 0x65u8, 0x78u8];
        let a_owner_part_id: [u8; 11] = [0x4fu8, 0x77u8, 0x6eu8, 0x65u8, 0x72u8, 0x50u8, 0x61u8, 0x72u8, 0x74u8, 0x49u8, 0x64u8];
        let a_is_not_accesible: [u8; 14] = [0x49u8, 0x73u8, 0x4eu8, 0x6fu8, 0x74u8, 0x41u8, 0x63u8, 0x63u8, 0x65u8, 0x73u8, 0x69u8, 0x62u8, 0x6cu8, 0x65u8];
        let a_index_in_sheet: [u8; 12] = [0x49u8, 0x6eu8, 0x64u8, 0x65u8, 0x78u8, 0x49u8, 0x6eu8, 0x53u8, 0x68u8, 0x65u8, 0x65u8, 0x74u8];
        let a_line_width: [u8; 9] = [0x4cu8, 0x69u8, 0x6eu8, 0x65u8, 0x57u8, 0x69u8, 0x64u8, 0x74u8, 0x68u8];
        let a_color: [u8; 5] = [0x43u8, 0x6fu8, 0x6cu8, 0x6fu8, 0x72u8];
        let a_unique_id: [u8; 8] = [0x55u8, 0x6eu8, 0x69u8, 0x71u8, 0x75u8, 0x65u8, 0x49u8, 0x44u8];
        let a_location_count: [u8; 13] = [0x4cu8, 0x6fu8, 0x63u8, 0x61u8, 0x74u8, 0x69u8, 0x6fu8, 0x6eu8, 0x43u8, 0x6fu8, 0x75u8, 0x6eu8, 0x74u8];
        proof {
            assert(a_owner_index@ =~= crate::keys::k_owner_index());
            assert(a_owner_part_id@ =~= crate::keys::k_owner_part_id());
            assert(a_is_not_accesible@ =~= crate::keys::k_is_not_accesible());
            assert(a_index_in_sheet@ =~= crate::keys::k_index_in_sheet());
            assert(a_line_width@ =~= crate::keys::k_line_width());
            assert(a_color@ =~= crate::keys::k_color());
            assert(a_unique_id@ =~= crate::keys::k_unique_id());
            assert(a_location_count@ =~= crate::keys::k_location_count());
            assert(crate::keys::k_owner_index() != crate::keys::k_owner_part_id()) by { assert(crate::keys::k_owner_index().len() != crate::keys::k_owner_part_id().len()); }
            assert(crate::keys::k_owner_index() != crate::keys::k_is_not_accesible()) by { assert(crate::keys::k_owner_index().len() != crate::keys::k_is_not_accesible().len()); }
            assert(crate::keys::k_owner_index() != crate::keys::k_index_in_sheet()) by { assert(crate::keys::k_owner_index().len() != crate::keys::k_index_in_sheet().len()); }
            assert(crate::keys::k_owner_index() != crate::keys::k_line_width()) by { assert(crate::keys::k_owner_index().len() != crate::keys::k_line_width().len()); }
            assert(crate::keys::k_owner_index() != crate::keys::k_color()) by { assert(crate::keys::k_owner_index().len() != crate::keys::k_color().len()); }
            assert(crate::keys::k_owner_index() != crate::keys::k_unique_id()) by { assert(crate::keys::k_owner_index().len() != crate::keys::k_unique_id().len()); }
            assert(crate::keys::k_owner_index() != crate::keys::k_location_count()) by { assert(crate::keys::k_owner_index().len() != crate::keys::k_location_count().len()); }
            assert(crate::keys::k_owner_part_id() != crate::keys::k_is_not_accesible()) by { assert(crate::keys::k_owner_part_id().len() != crate::keys::k_is_not_accesible().len()); }
            assert(crate::keys::k_owner_part_id() != crate::keys::k_index_in_sheet()) by { assert(crate::keys::k_owner_part_id().len() != crate::keys::k_index_in_sheet().len()); }
            assert(crate::keys::k_owner_part_id() != crate::keys::k_line_width()) by { assert(crate::keys::k_owner_part_id().len() != crate::keys::k_line_width().len()); }
            assert(crate::keys::k_owner_part_id() != crate::keys::k_color()) by { assert(crate::keys::k_owner_part_id().len() != crate::keys::k_color().len()); }
            assert(crate::keys::k_owner_part_id() != crate::keys::k_unique_id()) by { assert(crate::keys::k_owner_part_id().len() != crate::keys::k_unique_id().len()); }
            assert(crate::keys::k_owner_part_id() != crate::keys::k_location_count()) by { assert(crate::keys::k_owner_part_id().len() != crate::keys::k_location_count().len()); }
            assert(crate::keys::k_is_not_accesible() != crate::keys::k_index_in_sheet()) by { assert(crate::keys::k_is_not_accesible().len() != crate::keys::k_index_in_sheet().len()); }
            assert(crate::keys::k_is_not_accesible() != crate::keys::k_line_width()) by { assert(crate::keys::k_is_not_accesible().len() != crate::keys::k_line_width().len()); }
            assert(crate::keys::k_is_not_accesible() != crate::keys::k_color()) by { assert(crate::keys::k_is_not_accesible().len() != crate::keys::k_color().len()); }
            assert(crate::keys::k_is_not_accesible() != crate::keys::k_unique_id()) by { assert(crate::keys::k_is_not_accesible().len() != crate::keys::k_unique_id().len()); }
            assert(crate::keys::k_is_not_accesible() != crate::keys::k_location_count()) by { assert(crate::keys::k_is_not_accesible().len() != crate::keys::k_location_count().len()); }
            assert(crate::keys::k_index_in_sheet() != crate::keys::k_line_width()) by { assert(crate::keys::k_index_in_sheet().len() != crate::keys::k_line_width().len()); }
            assert(crate::keys::k_index_in_sheet() != crate::keys::k_color()) by { assert(crate::keys::k_index_in_sheet().len() != crate::keys::k_color().len()); }
            assert(crate::keys::k_index_in_sheet() != crate::keys::k_unique_id()) by { assert(crate::keys::k_index_in_sheet().len() != crate::keys::k_unique_id().len()); }
            assert(crate::keys::k_index_in_sheet() != crate::keys::k_location_count()) by { assert(crate::keys::k_index_in_sheet().len() != crate::keys::k_location_count().len()); }
            assert(crate::keys::k_line_width() != crate::keys::k_color()) by { assert(crate::keys::k_line_width().len() != crate::keys::k_color().len()); }
            assert(crate::keys::k_line_width() != crate::keys::k_unique_id()) by { assert(crate::keys::k_line_width().len() != crate::keys::k_unique_id().len()); }
            assert(crate::keys::k_line_width() != crate::keys::k_location_count()) by { assert(crate::keys::k_line_width().len() != crate::keys::k_location_count().len()); }
            assert(crate::keys::k_color() != crate::keys::k_unique_id()) by { assert(crate::keys::k_color().len() != crate::keys::k_unique_id().len()); }
            assert(crate::keys::k_color() != crate::keys::k_location_count()) by { assert(crate::keys::k_color().len() != crate::keys::k_location_count().len()); }
            assert(crate::keys::k_unique_id() != crate::keys::k_location_count()) by { assert(crate::keys::k_unique_id().len() != crate::keys::k_location_count().len()); }
            assert(!spec_is_number_pattern(crate::keys::k_owner_index(), seq![0x58u8])) by {
                if spec_is_number_pattern(crate::keys::k_owner_index(), seq![0x58u8]) {
                    assert(crate::keys::k_owner_index().take(1) == seq![0x58u8]);
                    assert(crate::keys::k_owner_index()[0] == seq![0x58u8][0]);
                }
            }
            assert(!spec_is_number_pattern(crate::keys::k_owner_index(), seq![0x59u8])) by {
                if spec_is_number_pattern(crate::keys::k_owner_index(), seq![0x59u8]) {
                    assert(crate::keys::k_owner_index().take(1) == seq![0x59u8]);
                    assert(crate::keys::k_owner_index()[0] == seq![0x59u8][0]);
                }
            }
            assert(!spec_is_number_pattern(crate::keys::k_owner_part_id(), seq![0x58u8])) by {
                if spec_is_number_pattern(crate::keys::k_owner_part_id(), seq![0x58u8]) {
                    assert(crate::keys::k_owner_part_id().take(1) == seq![0x58u8]);
                    assert(crate::keys::k_owner_part_id()[0] == seq![0x58u8][0]);
                }
            }
            assert(!spec_is_number_pattern(crate::keys::k_owner_part_id(), seq![0x59u8])) by {
                if spec_is_number_pattern(crate::keys::k_owner_part_id(), seq![0x59u8]) {
                    assert(crate::keys::k_owner_part_id().take(1) == seq![0x59u8]);
                    assert(crate::keys::k_owner_part_id()[0] == seq![0x59u8][0]);
                }
            }
            assert(!spec_is_number_pattern(crate::keys::k_is_not_accesible(), seq![0x58u8])) by {
                if spec_is_number_pattern(crate::keys::k_is_not_accesible(), seq![0x58u8]) {
                    assert(crate::keys::k_is_not_accesible().take(1) == seq![0x58u8]);
                    assert(crate::keys::k_is_not_accesible()[0] == seq![0x58u8][0]);
                }
            }
            assert(!spec_is_number_pattern(crate::keys::k_is_not_accesible(), seq![0x59u8])) by {
                if spec_is_number_pattern(crate::keys::k_is_not_accesible(), seq![0x59u8]) {
                    assert(crate::keys::k_is_not_accesible().take(1) == seq![0x59u8]);
                    assert(crate::keys::k_is_not_accesible()[0] == seq![0x59u8][0]);
                }
            }
            assert(!spec_is_number_pattern(crate::keys::k_index_in_sheet(), seq![0x58u8])) by {
                if spec_is_number_pattern(crate::keys::k_index_in_sheet(), seq![0x58u8]) {
                    assert(crate::keys::k_index_in_sheet().take(1) == seq![0x58u8]);
                    assert(crate::keys::k_index_in_sheet()[0] == seq![0x58u8][0]);
                }
            }
            assert(!spec_is_number_pattern(crate::keys::k_index_in_sheet(), seq![0x59u8])) by {
                if spec_is_number_pattern(crate::keys::k_index_in_sheet(), seq![0x59u8]) {
                    assert(crate::keys::k_index_in_sheet().take(1) == seq![0x59u8]);
                    assert(crate::keys::k_index_in_sheet()[0] == seq![0x59u8][0]);
                }
            }
            assert(!spec_is_number_pattern(crate::keys::k_line_width(), seq![0x58u8])) by {
                if spec_is_number_pattern(crate::keys::k_line_width(), seq![0x58u8]) {
                    assert(crate::keys::k_line_width().take(1) == seq![0x58u8]);
                    assert(crate::keys::k_line_width()[0] == seq![0x58u8][0]);
                }
            }
            assert(!spec_is_number_pattern(crate::keys::k_line_width(), seq![0x59u8])) by {
                if spec_is_number_pattern(crate::keys::k_line_width(), seq![0x59u8]) {
                    assert(crate::keys::k_line_width().take(1) == seq![0x59u8]);
                    assert(crate::keys::k_line_width()[0] == seq![0x59u8][0]);
                }
            }
            assert(!spec_is_number_pattern(crate::keys::k_color(), seq![0x58u8])) by {
                if spec_is_number_pattern(crate::keys::k_color(), seq![0x58u8]) {
                    assert(crate::keys::k_color().take(1) == seq![0x58u8]);
                    assert(crate::keys::k_color()[0] == seq![0x58u8][0]);
                }
            }
            assert(!spec_is_number_pattern(crate::keys::k_color(), seq![0x59u8])) by {
                if spec_is_number_pattern(crate::keys::k_color(), seq![0x59u8]) {
                    assert(crate::keys::k_color().take(1) == seq![0x59u8]);
                    assert(crate::keys::k_color()[0] == seq![0x59u8][0]);
                }
            }
            assert(!spec_is_number_pattern(crate::keys::k_unique_id(), seq![0x58u8])) by {
                if spec_is_number_pattern(crate::keys::k_unique_id(), seq![0x58u8]) {
                    assert(crate::keys::k_unique_id().take(1) == seq![0x58u8]);
                    assert(crate::keys::k_unique_id()[0] == seq![0x58u8][0]);
                }
            }
            assert(!spec_is_number_pattern(crate::keys::k_unique_id(), seq![0x59u8])) by {
                if spec_is_number_pattern(crate::keys::k_unique_id(), seq![0x59u8]) {
                    assert(crate::keys::k_unique_id().take(1) == seq![0x59u8]);
                    assert(crate::keys::k_unique_id()[0] == seq![0x59u8][0]);
                }
            }
            assert(!spec_is_number_pattern(crate::keys::k_location_count(), seq![0x58u8])) by {
                if spec_is_number_pattern(crate::keys::k_location_count(), seq![0x58u8]) {
                    assert(crate::keys::k_location_count().take(1) == seq![0x58u8]);
                    assert(crate::keys::k_location_count()[0] == seq![0x58u8][0]);
                }
            }
            assert(!spec_is_number_pattern(crate::keys::k_location_count(), seq![0x59u8])) by {
                if spec_is_number_pattern(crate::keys::k_location_count(), seq![0x59u8]) {
                    assert(crate::keys::k_location_count().take(1) == seq![0x59u8]);
                    assert(crate::keys::k_location_count()[0] == seq![0x59u8][0]);
                }
            }
        }
        let a_pat_x: [u8; 1] = [0x58u8];
        let a_pat_y: [u8; 1] = [0x59u8];
        proof {
            assert(a_pat_x@ =~= seq![0x58u8]);
            assert(a_pat_y@ =~= seq![0x59u8]);
        }
        let mut x = PolyLine {
            owner_index: 0,
            owner_part_id: 0,
            is_not_accessible: false,
            index_in_sheet: 0,
            line_width: 0,
            color: Rgb { r: 0, g: 0, b: 0 },
            unique_id: UniqueId::Simple([0x30u8, 0x30u8, 0x30u8, 0x30u8, 0x30u8, 0x30u8, 0x30u8, 0x30u8]),
            locations: Vec::new(),
        };
        let n = pairs.len();
        let mut i: usize = 0;
        while i < n
            invariant
                0 <= i <= n,
                n == pairs@.len(),
                Self::spec_fold(p.take(i as int)) is Some,
                Self::spec_matches(x, p.take(i as int)),
                counter.count == sat_add(old(counter).count, Self::spec_unknown(p.take(i as int))),
                0 <= Self::spec_unknown(p.take(i as int)) <= i,
            decreases n - i,
        {
            let key: &[u8] = pairs[i].0.as_slice();
            let val: &[u8] = pairs[i].1.as_slice();
            proof {
                assert(p[i as int] == (pairs@[i as int].0@, pairs@[i as int].1@));
                assert(p.take(i as int + 1).drop_last() =~= p.take(i as int));
                assert(p.take(i as int + 1).last() == p[i as int]);
            }
            if crate::common::bytes_eq(key, a_owner_index.as_slice()) {
            match crate::parse::parse_u8(val) {
                Ok(v) => { x.owner_index = v; },
                Err(e) => {
                    proof { Self::lemma_fold_none(p, i as int + 1); } return Err(e);
                },
            }
        }
        else if crate::common::bytes_eq(key, a_owner_part_id.as_slice()) {
            match crate::parse::parse_i8(val) {
                Ok(v) => { x.owner_part_id = v; },
                Err(e) => {
                    proof { Self::lemma_fold_none(p, i as int + 1); } return Err(e);
                },
            }
        }
        else if crate::common::bytes_eq(key, a_is_not_accesible.as_slice()) {
            match crate::parse::parse_bool(val) {
                Ok(v) => { x.is_not_accessible = v; },
                Err(e) => {
                    proof { Self::lemma_fold_none(p, i as int + 1); } return Err(e);
                },
            }
        }
        else if crate::common::bytes_eq(key, a_index_in_sheet.as_slice()) {
            match crate::parse::parse_i16(val) {
                Ok(v) => { x.index_in_sheet = v; },
                Err(e) => {
                    proof { Self::lemma_fold_none(p, i as int + 1); } return Err(e);
                },
            }
        }
        else if crate::common::bytes_eq(key, a_line_width.as_slice()) {
            match crate::parse::parse_u32(val) {
                Ok(m) => match crate::common::mils_to_nm_u32(m) {
                    Ok(v) => { x.line_width = v; },
                    Err(e) => {
                        proof { Self::lemma_fold_none(p, i as int + 1); } return Err(e);
                    },
                },
                Err(e) => {
                    proof { Self::lemma_fold_none(p, i as int + 1); } return Err(e);
                },
            }
        }
        else if crate::common::bytes_eq(key, a_color.as_slice()) {
            match Rgb::from_utf8(val) {
                Ok(v) => { x.color = v; },
                Err(e) => {
                    proof { Self::lemma_fold_none(p, i as int + 1); } return Err(e);
                },
            }
        }
        else if crate::common::bytes_eq(key, a_unique_id.as_slice()) {
            match UniqueId::from_utf8(val) {
                Ok(v) => { x.unique_id = v; },
                Err(e) => {
                    proof { Self::lemma_fold_none(p, i as int + 1); } return Err(e);
                },
            }
        }
        else if crate::common::bytes_eq(key, a_location_count.as_slice()) {
            match crate::parse::parse_u32(val) {
                Ok(c) => {
                    let mut fresh: Vec<LocationFract> = Vec::new();
                    let mut j: u32 = 0;
                    while j < c
                        invariant
                            0 <= j <= c,
                            fresh@.len() == j,
                            forall|t: int| 0 <= t < j ==> fresh@[t] == (LocationFract { x: 0, x_fract: 0, y: 0, y_fract: 0 }),
                        decreases c - j,
                    {
                        fresh.push(LocationFract { x: 0, x_fract: 0, y: 0, y_fract: 0 });
                        j += 1;
                    }
                    x.locations = fresh;
                    proof {
                        assert(x.locations@ =~= Seq::new((c as u32) as nat, |t: int| LocationFract { x: 0, x_fract: 0, y: 0, y_fract: 0 }));
                    }
                },
                Err(e) => {
                    proof { Self::lemma_fold_none(p, i as int + 1); } return Err(e);
                },
            }
        } else if crate::common::is_number_pattern(key, a_pat_x.as_slice()) {
            let kl = key.len();
            let digits = &key[1..kl];
            proof {
                assert(digits@ =~= p[i as int].0.skip(1));
            }
            match crate::parse::parse_usize(digits) {
                Ok(idx) => {
                    if idx >= 1 && idx <= x.locations.len() {
                        match crate::parse::parse_i32(val) {
                            Ok(v) => {
                                let mut e = x.locations[idx - 1];
                                e.x = v;
                                x.locations.set(idx - 1, e);
                            },
                            Err(e) => {
                                proof { Self::lemma_fold_none(p, i as int + 1); } return Err(e);
                            },
                        }
                    } else {
                        proof { Self::lemma_fold_none(p, i as int + 1); } return Err(ErrorKind::new_invalid_key(key));
                    }
                },
                Err(e) => {
                    proof { Self::lemma_fold_none(p, i as int + 1); } return Err(e);
                },
            }
        } else if crate::common::is_number_pattern(key, a_pat_y.as_slice()) {
            let kl = key.len();
            let digits = &key[1..kl];
            proof {
                assert(digits@ =~= p[i as int].0.skip(1));
            }
            match crate::parse::parse_usize(digits) {
                Ok(idx) => {
                    if idx >= 1 && idx <= x.locations.len() {
                        match crate::parse::parse_i32(val) {
                            Ok(v) => {
                                let mut e = x.locations[idx - 1];
                                e.y = v;
                                x.locations.set(idx - 1, e);
                            },
                            Err(e) => {
                                proof { Self::lemma_fold_none(p, i as int + 1); } return Err(e);
                            },
                        }
                    } else {
                        proof { Self::lemma_fold_none(p, i as int + 1); } return Err(ErrorKind::new_invalid_key(key));
                    }
                },
                Err(e) => {
                    proof { Self::lemma_fold_none(p, i as int + 1); } return Err(e);
                },
            }
        } else {
            crate::logging::macro_unsupported_key(counter, "PolyLine", key, val);
        }
            i += 1;
        }
        proof {
            assert(p.take(n as int) =~= p);
        }
        Ok(x)
    }
}

/// The fields of a `Polygon` record as the walk of its pairs leaves them.
pub struct PolygonState {
    pub area_color: Rgb,
    pub color: Rgb,
    pub index_in_sheet: i16,
    pub is_not_accessible: bool,
    pub is_solid: bool,
    pub line_width: u32,
    pub owner_index: u8,
    pub owner_part_id: i8,
    pub owner_part_display_mode: i8,
    pub unique_id: UniqueId,
    pub locations: Seq<Location>,
}

impl Polygon {
    /// The wire record ID of this kind.
    pub open spec fn spec_record_id() -> u32 {
        7
    }

    pub open spec fn spec_init() -> PolygonState {
        PolygonState {
            area_color: Rgb { r: 0, g: 0, b: 0 },
            color: Rgb { r: 0, g: 0, b: 0 },
            index_in_sheet: 0,
            is_not_accessible: false,
            is_solid: false,
            line_width: 0,
            owner_index: 0,
            owner_part_id: 0,
            owner_part_display_mode: 0,
            unique_id: UniqueId::Simple([0x30u8, 0x30u8, 0x30u8, 0x30u8, 0x30u8, 0x30u8, 0x30u8, 0x30u8]),
            locations: Seq::empty(),
        }
    }

    /// Whether the binder recognizes this wire key.
    pub open spec fn spec_known_key(k: Seq<u8>) -> bool {
        ||| k == crate::keys::k_area_color()
        ||| k == crate::keys::k_color()
        ||| k == crate::keys::k_index_in_sheet()
        ||| k == crate::keys::k_is_not_accesible()
        ||| k == crate::keys::k_is_solid()
        ||| k == crate::keys::k_line_width()
        ||| k == crate::keys::k_owner_index()
        ||| k == crate::keys::k_owner_part_id()
        ||| k == crate::keys::k_owner_part_display_mode()
        ||| k == crate::keys::k_unique_id()
        ||| k == crate::keys::k_location_count()
        ||| spec_is_number_pattern(k, seq![0x58u8])
        ||| spec_is_number_pattern(k, seq![0x59u8])
    }

    /// How many pairs hold keys the binder does not recognize.
    pub open spec fn spec_unknown(p: SpecPairs) -> int
        decreases p.len(),
    {
        if p.len() == 0 {
            0
        } else {
            Self::spec_unknown(p.drop_last()) + if Self::spec_known_key(p.last().0) {
                0int
            } else {
                1int
            }
        }
    }

    /// One pair applied to the state: a recognized key either updates its
    /// field or, when its value does not parse or an index is out of range,
    /// fails the record; anything else leaves the state alone.
    pub open spec fn spec_step(st: PolygonState, q: (Seq<u8>, Seq<u8>)) -> Option<PolygonState> {
        let v = q.1;
        if q.0 == crate::keys::k_area_color() {
            if ok_u32(v) {
                Some(PolygonState { area_color: Rgb::spec_from_packed(uint_val(v) as u32), ..st })
            } else {
                None
            }
        } else if q.0 == crate::keys::k_color() {
            if ok_u32(v) {
                Some(PolygonState { color: Rgb::spec_from_packed(uint_val(v) as u32), ..st })
            } else {
                None
            }
        } else if q.0 == crate::keys::k_index_in_sheet() {
            if ok_i16(v) {
                Some(PolygonState { index_in_sheet: int_val(v) as i16, ..st })
            } else {
                None
            }
        } else if q.0 == crate::keys::k_is_not_accesible() {
            if ok_bool(v) {
                Some(PolygonState { is_not_accessible: v == seq![0x54u8], ..st })
            } else {
                None
            }
        } else if q.0 == crate::keys::k_is_solid() {
            if ok_bool(v) {
                Some(PolygonState { is_solid: v == seq![0x54u8], ..st })
            } else {
                None
            }
        } else if q.0 == crate::keys::k_line_width() {
            if ok_mils_u32(v) {
                Some(PolygonState { line_width: (uint_val(v) * 25400) as u32, ..st })
            } else {
                None
            }
        } else if q.0 == crate::keys::k_owner_index() {
            if ok_u8(v) {
                Some(PolygonState { owner_index: uint_val(v) as u8, ..st })
            } else {
                None
            }
        } else if q.0 == crate::keys::k_owner_part_id() {
            if ok_i8(v) {
                Some(PolygonState { owner_part_id: int_val(v) as i8, ..st })
            } else {
                None
            }
        } else if q.0 == crate::keys::k_owner_part_display_mode() {
            if ok_i8(v) {
                Some(PolygonState { owner_part_display_mode: int_val(v) as i8, ..st })
            } else {
                None
            }
        } else if q.0 == crate::keys::k_unique_id() {
            if ok_uid(v) {
                Some(PolygonState { unique_id: UniqueId::spec_from_utf8(v)->0, ..st })
            } else {
                None
            }
        } else if q.0 == crate::keys::k_location_count() {
            if ok_u32(v) {
                Some(PolygonState {
                    locations: Seq::new((uint_val(v) as u32) as nat, |j: int| Location { x: 0, y: 0 }),
                    ..st
                })
            } else {
                None
            }
        } else if spec_is_number_pattern(q.0, seq![0x58u8]) {
            let d = q.0.skip(1);
            if is_uint_text(d) && uint_val(d) <= usize::MAX && 1 <= uint_val(d) <= st.locations.len() && ok_i32(v) {
                let j = uint_val(d) - 1;
                Some(PolygonState {
                    locations: st.locations.update(j, (
                        { let e = st.locations[j]; Location { x: int_val(v) as i32, ..e } }
                    )),
                    ..st
                })
            } else {
                None
            }
        } else if spec_is_number_pattern(q.0, seq![0x59u8]) {
            let d = q.0.skip(1);
            if is_uint_text(d) && uint_val(d) <= usize::MAX && 1 <= uint_val(d) <= st.locations.len() && ok_i32(v) {
                let j = uint_val(d) - 1;
                Some(PolygonState {
                    locations: st.locations.update(j, (
                        { let e = st.locations[j]; Location { y: int_val(v) as i32, ..e } }
                    )),
                    ..st
                })
            } else {
                None
            }
        } else {
            Some(st)
        }
    }

    /// The state after all pairs, or nothing once one of them fails.
    pub open spec fn spec_fold(p: SpecPairs) -> Option<PolygonState>
        decreases p.len(),
    {
        if p.len() == 0 {
            Some(Self::spec_init())
        } else {
            match Self::spec_fold(p.drop_last()) {
                None => None,
                Some(st) => Self::spec_step(st, p.last()),
            }
        }
    }

    /// A failure in a prefix fails the whole list.
    pub proof fn lemma_fold_none(p: SpecPairs, n: int)
        requires
            0 <= n <= p.len(),
            Self::spec_fold(p.take(n)) is None,
        ensures
            Self::spec_fold(p) is None,
        decreases p.len() - n,
    {
        if n < p.len() {
            assert(p.take(n + 1).drop_last() =~= p.take(n));
            Self::lemma_fold_none(p, n + 1);
        } else {
            assert(p.take(n) =~= p);
        }
    }

    /// Whether a decoded record holds the folded state.
    pub open spec fn spec_matches(x: Polygon, p: SpecPairs) -> bool {
        match Self::spec_fold(p) {
            None => false,
            Some(st) => {
                &&& x.area_color == st.area_color
        &&& x.color == st.color
        &&& x.index_in_sheet == st.index_in_sheet
        &&& x.is_not_accessible == st.is_not_accessible
        &&& x.is_solid == st.is_solid
        &&& x.line_width == st.line_width
        &&& x.owner_index == st.owner_index
        &&& x.owner_part_id == st.owner_part_id
        &&& x.owner_part_display_mode == st.owner_part_display_mode
        &&& x.unique_id == st.unique_id
                &&& x.locations@ == st.locations
            },
        }
    }

    /// Bind the fields of one `Polygon` record from its key-value pairs.
    #[verifier::loop_isolation(false)]
    #[verifier::rlimit(100)]
    pub fn from_record(pairs: &[(Vec<u8>, Vec<u8>)], counter: &mut UnsupportedCounter) -> (r:
        Result<Polygon, ErrorKind>)
        ensures
            r is Ok <==> Self::spec_fold(pairs_view(pairs@)) is Some,
            r is Ok ==> Self::spec_matches(r->Ok_0, pairs_view(pairs@)),
            r is Ok ==> final(counter).count == sat_add(
                old(counter).count,
                Self::spec_unknown(pairs_view(pairs@)),
            ),
            final(counter).count >= old(counter).count,
    {
        let ghost p = pairs_view(pairs@);
        proof {
            crate::common::lemma_pairs_view(pairs@);
            assert(p.take(0) =~= Seq::<(Seq<u8>, Seq<u8>)>::empty());
        }
        let a_area_color: [u8; 9] = [0x41u8, 0x72u8, 0x65u8, 0x61u8, 0x43u8, 0x6fu8, 0x6cu8, 0x6fu8, 0x72u8];
        let a_color: [u8; 5] = [0x43u8, 0x6fu8, 0x6cu8, 0x6fu8, 0x72u8];
        let a_index_in_sheet: [u8; 12] = [0x49u8, 0x6eu8, 0x64u8, 0x65u8, 0x78u8, 0x49u8, 0x6eu8, 0x53u8, 0x68u8, 0x65u8, 0x65u8, 0x74u8];
        let a_is_not_accesible: [u8; 14] = [0x49u8, 0x73u8, 0x4eu8, 0x6fu8, 0x74u8, 0x41u8, 0x63u8, 0x63u8, 0x65u8, 0x73u8, 0x69u8, 0x62u8, 0x6cu8, 0x65u8];
        let a_is_solid: [u8; 7] = [0x49u8, 0x73u8, 0x53u8, 0x6fu8, 0x6cu8, 0x69u8, 0x64u8];
        let a_line_width: [u8; 9] = [0x4cu8, 0x69u8, 0x6eu8, 0x65u8, 0x57u8, 0x69u8, 0x64u8, 0x74u8, 0x68u8];
        let a_owner_index: [u8; 10] = [0x4fu8, 0x77u8, 0x6eu8, 0x65u8, 0x72u8, 0x49u8, 0x6eu8, 0x64u8, 0x65u8, 0x78u8];
        let a_owner_part_id: [u8; 11] = [0x4fu8, 0x77u8, 0x6eu8, 0x65u8, 0x72u8, 0x50u8, 0x61u8, 0x72u8, 0x74u8, 0x49u8, 0x64u8];
        let a_owner_part_display_mode: [u8; 20] = [0x4fu8, 0x77u8, 0x6eu8, 0x65u8, 0x72u8, 0x50u8, 0x61u8, 0x72u8, 0x74u8, 0x44u8, 0x69u8, 0x73u8, 0x70u8, 0x6cu8, 0x61u8, 0x79u8, 0x4du8, 0x6fu8, 0x64u8, 0x65u8];
        let a_unique_id: [u8; 8] = [0x55u8, 0x6eu8, 0x69u8, 0x71u8, 0x75u8, 0x65u8, 0x49u8, 0x44u8];
        let a_location_count: [u8; 13] = [0x4cu8, 0x6fu8, 0x63u8, 0x61u8, 0x74u8, 0x69u8, 0x6fu8, 0x6eu8, 0x43u8, 0x6fu8, 0x75u8, 0x6eu8, 0x74u8];
        proof {
            assert(a_area_color@ =~= crate::keys::k_area_color());
            assert(a_color@ =~= crate::keys::k_color());
            assert(a_index_in_sheet@ =~= crate::keys::k_index_in_sheet());
            assert(a_is_not_accesible@ =~= crate::keys::k_is_not_accesible());
            assert(a_is_solid@ =~= crate::keys::k_is_solid());
            assert(a_line_width@ =~= crate::keys::k_line_width());
            assert(a_owner_index@ =~= crate::keys::k_owner_index());
            assert(a_owner_part_id@ =~= crate::keys::k_owner_part_id());
            assert(a_owner_part_display_mode@ =~= crate::keys::k_owner_part_display_mode());
            assert(a_unique_id@ =~= crate::keys::k_unique_id());
            assert(a_location_count@ =~= crate::keys::k_location_count());
            assert(crate::keys::k_area_color() != crate::keys::k_color()) by { assert(crate::keys::k_area_color().len() != crate::keys::k_color().len()); }
            assert(crate::keys::k_area_color() != crate::keys::k_index_in_sheet()) by { assert(crate::keys::k_area_color().len() != crate::keys::k_index_in_sheet().len()); }
            assert(crate::keys::k_area_color() != crate::keys::k_is_not_accesible()) by { assert(crate::keys::k_area_color().len() != crate::keys::k_is_not_accesible().len()); }
            assert(crate::keys::k_area_color() != crate::keys::k_is_solid()) by { assert(crate::keys::k_area_color().len() != crate::keys::k_is_solid().len()); }
            assert(crate::keys::k_area_color() != crate::keys::k_line_width()) by { assert(crate::keys::k_area_color()[0] != crate::keys::k_line_width()[0]); }
            assert(crate::keys::k_area_color() != crate::keys::k_owner_index()) by { assert(crate::keys::k_area_color().len() != crate::keys::k_owner_index().len()); }
            assert(crate::keys::k_area_color() != crate::keys::k_owner_part_id()) by { assert(crate::keys::k_area_color().len() != crate::keys::k_owner_part_id().len()); }
            assert(crate::keys::k_area_color() != crate::keys::k_owner_part_display_mode()) by { assert(crate::keys::k_area_color().len() != crate::keys::k_owner_part_display_mode().len()); }
            assert(crate::keys::k_area_color() != crate::keys::k_unique_id()) by { assert(crate::keys::k_area_color().len() != crate::keys::k_unique_id().len()); }
            assert(crate::keys::k_area_color() != crate::keys::k_location_count()) by { assert(crate::keys::k_area_color().len() != crate::keys::k_location_count().len()); }
            assert(crate::keys::k_color() != crate::keys::k_index_in_sheet()) by { assert(crate::keys::k_color().len() != crate::keys::k_index_in_sheet().len()); }
            assert(crate::keys::k_color() != crate::keys::k_is_not_accesible()) by { assert(crate::keys::k_color().len() != crate::keys::k_is_not_accesible().len()); }
            assert(crate::keys::k_color() != crate::keys::k_is_solid()) by { assert(crate::keys::k_color().len() != crate::keys::k_is_solid().len()); }
            assert(crate::keys::k_color() != crate::keys::k_line_width()) by { assert(crate::keys::k_color().len() != crate::keys::k_line_width().len()); }
            assert(crate::keys::k_color() != crate::keys::k_owner_index()) by { assert(crate::keys::k_color().len() != crate::keys::k_owner_index().len()); }
            assert(crate::keys::k_color() != crate::keys::k_owner_part_id()) by { assert(crate::keys::k_color().len() != crate::keys::k_owner_part_id().len()); }
            assert(crate::keys::k_color() != crate::keys::k_owner_part_display_mode()) by { assert(crate::keys::k_color().len() != crate::keys::k_owner_part_display_mode().len()); }
            assert(crate::keys::k_color() != crate::keys::k_unique_id()) by { assert(crate::keys::k_color().len() != crate::keys::k_unique_id().len()); }
            assert(crate::keys::k_color() != crate::keys::k_location_count()) by { assert(crate::keys::k_color().len() != crate::keys::k_location_count().len()); }
            assert(crate::keys::k_index_in_sheet() != crate::keys::k_is_not_accesible()) by { assert(crate::keys::k_index_in_sheet().len() != crate::keys::k_is_not_accesible().len()); }
            assert(crate::keys::k_index_in_sheet() != crate::keys::k_is_solid()) by { assert(crate::keys::k_index_in_sheet().len() != crate::keys::k_is_solid().len()); }
            assert(crate::keys::k_index_in_sheet() != crate::keys::k_line_width()) by { assert(crate::keys::k_index_in_sheet().len() != crate::keys::k_line_width().len()); }
            assert(crate::keys::k_index_in_sheet() != crate::keys::k_owner_index()) by { assert(crate::keys::k_index_in_sheet().len() != crate::keys::k_owner_index().len()); }
            assert(crate::keys::k_index_in_sheet() != crate::keys::k_owner_part_id()) by { assert(crate::keys::k_index_in_sheet().len() != crate::keys::k_owner_part_id().len()); }
            assert(crate::keys::k_index_in_sheet() != crate::keys::k_owner_part_display_mode()) by { assert(crate::keys::k_index_in_sheet().len() != crate::keys::k_owner_part_display_mode().len()); }
            assert(crate::keys::k_index_in_sheet() != crate::keys::k_unique_id()) by { assert(crate::keys::k_index_in_sheet().len() != crate::keys::k_unique_id().len()); }
            assert(crate::keys::k_index_in_sheet() != crate::keys::k_location_count()) by { assert(crate::keys::k_index_in_sheet().len() != crate::keys::k_location_count().len()); }
            assert(crate::keys::k_is_not_accesible() != crate::keys::k_is_solid()) by { assert(crate::keys::k_is_not_accesible().len() != crate::keys::k_is_solid().len()); }
            assert(crate::keys::k_is_not_accesible() != crate::keys::k_line_width()) by { assert(crate::keys::k_is_not_accesible().len() != crate::keys::k_line_width().len()); }
            assert(crate::keys::k_is_not_accesible() != crate::keys::k_owner_index()) by { assert(crate::keys::k_is_not_accesible().len() != crate::keys::k_owner_index().len()); }
            assert(crate::keys::k_is_not_accesible() != crate::keys::k_owner_part_id()) by { assert(crate::keys::k_is_not_accesible().len() != crate::keys::k_owner_part_id().len()); }
            assert(crate::keys::k_is_not_accesible() != crate::keys::k_owner_part_display_mode()) by { assert(crate::keys::k_is_not_accesible().len() != crate::keys::k_owner_part_display_mode().len()); }
            assert(crate::keys::k_is_not_accesible() != crate::keys::k_unique_id()) by { assert(crate::keys::k_is_not_accesible().len() != crate::keys::k_unique_id().len()); }
            assert(crate::keys::k_is_not_accesible() != crate::keys::k_location_count()) by { assert(crate::keys::k_is_not_accesible().len() != crate::keys::k_location_count().len()); }
            assert(crate::keys::k_is_solid() != crate::keys::k_line_width()) by { assert(crate::keys::k_is_solid().len() != crate::keys::k_line_width().len()); }
            assert(crate::keys::k_is_solid() != crate::keys::k_owner_index()) by { assert(crate::keys::k_is_solid().len() != crate::keys::k_owner_index().len()); }
            assert(crate::keys::k_is_solid() != crate::keys::k_owner_part_id()) by { assert(crate::keys::k_is_solid().len() != crate::keys::k_owner_part_id().len()); }
            assert(crate::keys::k_is_solid() != crate::keys::k_owner_part_display_mode()) by { assert(crate::keys::k_is_solid().len() != crate::keys::k_owner_part_display_mode().len()); }
            assert(crate::keys::k_is_solid() != crate::keys::k_unique_id()) by { assert(crate::keys::k_is_solid().len() != crate::keys::k_unique_id().len()); }
            assert(crate::keys::k_is_solid() != crate::keys::k_location_count()) by { assert(crate::keys::k_is_solid().len() != crate::keys::k_location_count().len()); }
            assert(crate::keys::k_line_width() != crate::keys::k_owner_index()) by { assert(crate::keys::k_line_width().len() != crate::keys::k_owner_index().len()); }
            assert(crate::keys::k_line_width() != crate::keys::k_owner_part_id()) by { assert(crate::keys::k_line_width().len() != crate::keys::k_owner_part_id().len()); }
            assert(crate::keys::k_line_width() != crate::keys::k_owner_part_display_mode()) by { assert(crate::keys::k_line_width().len() != crate::keys::k_owner_part_display_mode().len()); }
            assert(crate::keys::k_line_width() != crate::keys::k_unique_id()) by { assert(crate::keys::k_line_width().len() != crate::keys::k_unique_id().len()); }
            assert(crate::keys::k_line_width() != crate::keys::k_location_count()) by { assert(crate::keys::k_line_width().len() != crate::keys::k_location_count().len()); }
            assert(crate::keys::k_owner_index() != crate::keys::k_owner_part_id()) by { assert(crate::keys::k_owner_index().len() != crate::keys::k_owner_part_id().len()); }
            assert(crate::keys::k_owner_index() != crate::keys::k_owner_part_display_mode()) by { assert(crate::keys::k_owner_index().len() != crate::keys::k_owner_part_display_mode().len()); }
            assert(crate::keys::k_owner_index() != crate::keys::k_unique_id()) by { assert(crate::keys::k_owner_index().len() != crate::keys::k_unique_id().len()); }
            assert(crate::keys::k_owner_index() != crate::keys::k_location_count()) by { assert(crate::keys::k_owner_index().len() != crate::keys::k_location_count().len()); }
            assert(crate::keys::k_owner_part_id() != crate::keys::k_owner_part_display_mode()) by { assert(crate::keys::k_owner_part_id().len() != crate::keys::k_owner_part_display_mode().len()); }
            assert(crate::keys::k_owner_part_id() != crate::keys::k_unique_id()) by { assert(crate::keys::k_owner_part_id().len() != crate::keys::k_unique_id().len()); }
            assert(crate::keys::k_owner_part_id() != crate::keys::k_location_count()) by { assert(crate::keys::k_owner_part_id().len() != crate::keys::k_location_count().len()); }
            assert(crate::keys::k_owner_part_display_mode() != crate::keys::k_unique_id()) by { assert(crate::keys::k_owner_part_display_mode().len() != crate::keys::k_unique_id().len()); }
            assert(crate::keys::k_owner_part_display_mode() != crate::keys::k_location_count()) by { assert(crate::keys::k_owner_part_display_mode().len() != crate::keys::k_location_count().len()); }
            assert(crate::keys::k_unique_id() != crate::keys::k_location_count()) by { assert(crate::keys::k_unique_id().len() != crate::keys::k_location_count().len()); }
            assert(!spec_is_number_pattern(crate::keys::k_area_color(), seq![0x58u8])) by {
                if spec_is_number_pattern(crate::keys::k_area_color(), seq![0x58u8]) {
                    assert(crate::keys::k_area_color().take(1) == seq![0x58u8]);
                    assert(crate::keys::k_area_color()[0] == seq![0x58u8][0]);
                }
            }
            assert(!spec_is_number_pattern(crate::keys::k_area_color(), seq![0x59u8])) by {
                if spec_is_number_pattern(crate::keys::k_area_color(), seq![0x59u8]) {
                    assert(crate::keys::k_area_color().take(1) == seq![0x59u8]);
                    assert(crate::keys::k_area_color()[0] == seq![0x59u8][0]);
                }
            }
            assert(!spec_is_number_pattern(crate::keys::k_color(), seq![0x58u8])) by {
                if spec_is_number_pattern(crate::keys::k_color(), seq![0x58u8]) {
                    assert(crate::keys::k_color().take(1) == seq![0x58u8]);
                    assert(crate::keys::k_color()[0] == seq![0x58u8][0]);
                }
            }
            assert(!spec_is_number_pattern(crate::keys::k_color(), seq![0x59u8])) by {
                if spec_is_number_pattern(crate::keys::k_color(), seq![0x59u8]) {
                    assert(crate::keys::k_color().take(1) == seq![0x59u8]);
                    assert(crate::keys::k_color()[0] == seq![0x59u8][0]);
                }
            }
            assert(!spec_is_number_pattern(crate::keys::k_index_in_sheet(), seq![0x58u8])) by {
                if spec_is_number_pattern(crate::keys::k_index_in_sheet(), seq![0x58u8]) {
                    assert(crate::keys::k_index_in_sheet().take(1) == seq![0x58u8]);
                    assert(crate::keys::k_index_in_sheet()[0] == seq![0x58u8][0]);
                }
            }
            assert(!spec_is_number_pattern(crate::keys::k_index_in_sheet(), seq![0x59u8])) by {
                if spec_is_number_pattern(crate::keys::k_index_in_sheet(), seq![0x59u8]) {
                    assert(crate::keys::k_index_in_sheet().take(1) == seq![0x59u8]);
                    assert(crate::keys::k_index_in_sheet()[0] == seq![0x59u8][0]);
                }
            }
            assert(!spec_is_number_pattern(crate::keys::k_is_not_accesible(), seq![0x58u8])) by {
                if spec_is_number_pattern(crate::keys::k_is_not_accesible(), seq![0x58u8]) {
                    assert(crate::keys::k_is_not_accesible().take(1) == seq![0x58u8]);
                    assert(crate::keys::k_is_not_accesible()[0] == seq![0x58u8][0]);
                }
            }
            assert(!spec_is_number_pattern(crate::keys::k_is_not_accesible(), seq![0x59u8])) by {
                if spec_is_number_pattern(crate::keys::k_is_not_accesible(), seq![0x59u8]) {
                    assert(crate::keys::k_is_not_accesible().take(1) == seq![0x59u8]);
                    assert(crate::keys::k_is_not_accesible()[0] == seq![0x59u8][0]);
                }
            }
            assert(!spec_is_number_pattern(crate::keys::k_is_solid(), seq![0x58u8])) by {
                if spec_is_number_pattern(crate::keys::k_is_solid(), seq![0x58u8]) {
                    assert(crate::keys::k_is_solid().take(1) == seq![0x58u8]);
                    assert(crate::keys::k_is_solid()[0] == seq![0x58u8][0]);
                }
            }
            assert(!spec_is_number_pattern(crate::keys::k_is_solid(), seq![0x59u8])) by {
                if spec_is_number_pattern(crate::keys::k_is_solid(), seq![0x59u8]) {
                    assert(crate::keys::k_is_solid().take(1) == seq![0x59u8]);
                    assert(crate::keys::k_is_solid()[0] == seq![0x59u8][0]);
                }
            }
            assert(!spec_is_number_pattern(crate::keys::k_line_width(), seq![0x58u8])) by {
                if spec_is_number_pattern(crate::keys::k_line_width(), seq![0x58u8]) {
                    assert(crate::keys::k_line_width().take(1) == seq![0x58u8]);
                    assert(crate::keys::k_line_width()[0] == seq![0x58u8][0]);
                }
            }
            assert(!spec_is_number_pattern(crate::keys::k_line_width(), seq![0x59u8])) by {
                if spec_is_number_pattern(crate::keys::k_line_width(), seq![0x59u8]) {
                    assert(crate::keys::k_line_width().take(1) == seq![0x59u8]);
                    assert(crate::keys::k_line_width()[0] == seq![0x59u8][0]);
                }
            }
            assert(!spec_is_number_pattern(crate::keys::k_owner_index(), seq![0x58u8])) by {
                if spec_is_number_pattern(crate::keys::k_owner_index(), seq![0x58u8]) {
                    assert(crate::keys::k_owner_index().take(1) == seq![0x58u8]);
                    assert(crate::keys::k_owner_index()[0] == seq![0x58u8][0]);
                }
            }
            assert(!spec_is_number_pattern(crate::keys::k_owner_index(), seq![0x59u8])) by {
                if spec_is_number_pattern(crate::keys::k_owner_index(), seq![0x59u8]) {
                    assert(crate::keys::k_owner_index().take(1) == seq![0x59u8]);
                    assert(crate::keys::k_owner_index()[0] == seq![0x59u8][0]);
                }
            }
            assert(!spec_is_number_pattern(crate::keys::k_owner_part_id(), seq![0x58u8])) by {
                if spec_is_number_pattern(crate::keys::k_owner_part_id(), seq![0x58u8]) {
                    assert(crate::keys::k_owner_part_id().take(1) == seq![0x58u8]);
                    assert(crate::keys::k_owner_part_id()[0] == seq![0x58u8][0]);
                }
            }
            assert(!spec_is_number_pattern(crate::keys::k_owner_part_id(), seq![0x59u8])) by {
                if spec_is_number_pattern(crate::keys::k_owner_part_id(), seq![0x59u8]) {
                    assert(crate::keys::k_owner_part_id().take(1) == seq![0x59u8]);
                    assert(crate::keys::k_owner_part_id()[0] == seq![0x59u8][0]);
                }
            }
            assert(!spec_is_number_pattern(crate::keys::k_owner_part_display_mode(), seq![0x58u8])) by {
                if spec_is_number_pattern(crate::keys::k_owner_part_display_mode(), seq![0x58u8]) {
                    assert(crate::keys::k_owner_part_display_mode().take(1) == seq![0x58u8]);
                    assert(crate::keys::k_owner_part_display_mode()[0] == seq![0x58u8][0]);
                }
            }
            assert(!spec_is_number_pattern(crate::keys::k_owner_part_display_mode(), seq![0x59u8])) by {
                if spec_is_number_pattern(crate::keys::k_owner_part_display_mode(), seq![0x59u8]) {
                    assert(crate::keys::k_owner_part_display_mode().take(1) == seq![0x59u8]);
                    assert(crate::keys::k_owner_part_display_mode()[0] == seq![0x59u8][0]);
                }
            }
            assert(!spec_is_number_pattern(crate::keys::k_unique_id(), seq![0x58u8])) by {
                if spec_is_number_pattern(crate::keys::k_unique_id(), seq![0x58u8]) {
                    assert(crate::keys::k_unique_id().take(1) == seq![0x58u8]);
                    assert(crate::keys::k_unique_id()[0] == seq![0x58u8][0]);
                }
            }
            assert(!spec_is_number_pattern(crate::keys::k_unique_id(), seq![0x59u8])) by {
                if spec_is_number_pattern(crate::keys::k_unique_id(), seq![0x59u8]) {
                    assert(crate::keys::k_unique_id().take(1) == seq![0x59u8]);
                    assert(crate::keys::k_unique_id()[0] == seq![0x59u8][0]);
                }
            }
            assert(!spec_is_number_pattern(crate::keys::k_location_count(), seq![0x58u8])) by {
                if spec_is_number_pattern(crate::keys::k_location_count(), seq![0x58u8]) {
                    assert(crate::keys::k_location_count().take(1) == seq![0x58u8]);
                    assert(crate::keys::k_location_count()[0] == seq![0x58u8][0]);
                }
            }
            assert(!spec_is_number_pattern(crate::keys::k_location_count(), seq![0x59u8])) by {
                if spec_is_number_pattern(crate::keys::k_location_count(), seq![0x59u8]) {
                    assert(crate::keys::k_location_count().take(1) == seq![0x59u8]);
                    assert(crate::keys::k_location_count()[0] == seq![0x59u8][0]);
                }
            }
        }
        let a_pat_x: [u8; 1] = [0x58u8];
        let a_pat_y: [u8; 1] = [0x59u8];
        proof {
            assert(a_pat_x@ =~= seq![0x58u8]);
            assert(a_pat_y@ =~= seq![0x59u8]);
        }
        let mut x = Polygon {
            area_color: Rgb { r: 0, g: 0, b: 0 },
            color: Rgb { r: 0, g: 0, b: 0 },
            index_in_sheet: 0,
            is_not_accessible: false,
            is_solid: false,
            line_width: 0,
            owner_index: 0,
            owner_part_id: 0,
            owner_part_display_mode: 0,
            unique_id: UniqueId::Simple([0x30u8, 0x30u8, 0x30u8, 0x30u8, 0x30u8, 0x30u8, 0x30u8, 0x30u8]),
            locations: Vec::new(),
        };
        let n = pairs.len();
        let mut i: usize = 0;
        while i < n
            invariant
                0 <= i <= n,
                n == pairs@.len(),
                Self::spec_fold(p.take(i as int)) is Some,
                Self::spec_matches(x, p.take(i as int)),
                counter.count == sat_add(old(counter).count, Self::spec_unknown(p.take(i as int))),
                0 <= Self::spec_unknown(p.take(i as int)) <= i,
            decreases n - i,
        {
            let key: &[u8] = pairs[i].0.as_slice();
            let val: &[u8] = pairs[i].1.as_slice();
            proof {
                assert(p[i as int] == (pairs@[i as int].0@, pairs@[i as int].1@));
                assert(p.take(i as int + 1).drop_last() =~= p.take(i as int));
                assert(p.take(i as int + 1).last() == p[i as int]);
            }
            if crate::common::bytes_eq(key, a_area_color.as_slice()) {
            match Rgb::from_utf8(val) {
                Ok(v) => { x.area_color = v; },
                Err(e) => {
                    proof { Self::lemma_fold_none(p, i as int + 1); } return Err(e);
                },
            }
        }
        else if crate::common::bytes_eq(key, a_color.as_slice()) {
            match Rgb::from_utf8(val) {
                Ok(v) => { x.color = v; },
                Err(e) => {
                    proof { Self::lemma_fold_none(p, i as int + 1); } return Err(e);
                },
            }
        }
        else if crate::common::bytes_eq(key, a_index_in_sheet.as_slice()) {
            match crate::parse::parse_i16(val) {
                Ok(v) => { x.index_in_sheet = v; },
                Err(e) => {
                    proof { Self::lemma_fold_none(p, i as int + 1); } return Err(e);
                },
            }
        }
        else if crate::common::bytes_eq(key, a_is_not_accesible.as_slice()) {
            match crate::parse::parse_bool(val) {
                Ok(v) => { x.is_not_accessible = v; },
                Err(e) => {
                    proof { Self::lemma_fold_none(p, i as int + 1); } return Err(e);
                },
            }
        }
        else if crate::common::bytes_eq(key, a_is_solid.as_slice()) {
            match crate::parse::parse_bool(val) {
                Ok(v) => { x.is_solid = v; },
                Err(e) => {
                    proof { Self::lemma_fold_none(p, i as int + 1); } return Err(e);
                },
            }
        }
        else if crate::common::bytes_eq(key, a_line_width.as_slice()) {
            match crate::parse::parse_u32(val) {
                Ok(m) => match crate::common::mils_to_nm_u32(m) {
                    Ok(v) => { x.line_width = v; },
                    Err(e) => {
                        proof { Self::lemma_fold_none(p, i as int + 1); } return Err(e);
                    },
                },
                Err(e) => {
                    proof { Self::lemma_fold_none(p, i as int + 1); } return Err(e);
                },
            }
        }
        else if crate::common::bytes_eq(key, a_owner_index.as_slice()) {
            match crate::parse::parse_u8(val) {
                Ok(v) => { x.owner_index = v; },
                Err(e) => {
                    proof { Self::lemma_fold_none(p, i as int + 1); } return Err(e);
                },
            }
        }
        else if crate::common::bytes_eq(key, a_owner_part_id.as_slice()) {
            match crate::parse::parse_i8(val) {
                Ok(v) => { x.owner_part_id = v; },
                Err(e) => {
                    proof { Self::lemma_fold_none(p, i as int + 1); } return Err(e);
                },
            }
        }
        else if crate::common::bytes_eq(key, a_owner_part_display_mode.as_slice()) {
            match crate::parse::parse_i8(val) {
                Ok(v) => { x.owner_part_display_mode = v; },
                Err(e) => {
                    proof { Self::lemma_fold_none(p, i as int + 1); } return Err(e);
                },
            }
        }
        else if crate::common::bytes_eq(key, a_unique_id.as_slice()) {
            match UniqueId::from_utf8(val) {
                Ok(v) => { x.unique_id = v; },
                Err(e) => {
                    proof { Self::lemma_fold_none(p, i as int + 1); } return Err(e);
                },
            }
        }
        else if crate::common::bytes_eq(key, a_location_count.as_slice()) {
            match crate::parse::parse_u32(val) {
                Ok(c) => {
                    let mut fresh: Vec<Location> = Vec::new();
                    let mut j: u32 = 0;
                    while j < c
                        invariant
                            0 <= j <= c,
                            fresh@.len() == j,
                            forall|t: int| 0 <= t < j ==> fresh@[t] == (Location { x: 0, y: 0 }),
                        decreases c - j,
                    {
                        fresh.push(Location { x: 0, y: 0 });
                        j += 1;
                    }
                    x.locations = fresh;
                    proof {
                        assert(x.locations@ =~= Seq::new((c as u32) as nat, |t: int| Location { x: 0, y: 0 }));
                    }
                },
                Err(e) => {
                    proof { Self::lemma_fold_none(p, i as int + 1); } return Err(e);
                },
            }
        } else if crate::common::is_number_pattern(key, a_pat_x.as_slice()) {
            let kl = key.len();
            let digits = &key[1..kl];
            proof {
                assert(digits@ =~= p[i as int].0.skip(1));
            }
            match crate::parse::parse_usize(digits) {
                Ok(idx) => {
                    if idx >= 1 && idx <= x.locations.len() {
                        match crate::parse::parse_i32(val) {
                            Ok(v) => {
                                let mut e = x.locations[idx - 1];
                                e.x = v;
                                x.locations.set(idx - 1, e);
                            },
                            Err(e) => {
                                proof { Self::lemma_fold_none(p, i as int + 1); } return Err(e);
                            },
                        }
                    } else {
                        proof { Self::lemma_fold_none(p, i as int + 1); } return Err(ErrorKind::new_invalid_key(key));
                    }
                },
                Err(e) => {
                    proof { Self::lemma_fold_none(p, i as int + 1); } return Err(e);
                },
            }
        } else if crate::common::is_number_pattern(key, a_pat_y.as_slice()) {
            let kl = key.len();
            let digits = &key[1..kl];
            proof {
                assert(digits@ =~= p[i as int].0.skip(1));
            }
            match crate::parse::parse_usize(digits) {
                Ok(idx) => {
                    if idx >= 1 && idx <= x.locations.len() {
                        match crate::parse::parse_i32(val) {
                            Ok(v) => {
                                let mut e = x.locations[idx - 1];
                                e.y = v;
                                x.locations.set(idx - 1, e);
                            },
                            Err(e) => {
                                proof { Self::lemma_fold_none(p, i as int + 1); } return Err(e);
                            },
                        }
                    } else {
                        proof { Self::lemma_fold_none(p, i as int + 1); } return Err(ErrorKind::new_invalid_key(key));
                    }
                },
                Err(e) => {
                    proof { Self::lemma_fold_none(p, i as int + 1); } return Err(e);
                },
            }
        } else {
            crate::logging::macro_unsupported_key(counter, "Polygon", key, val);
        }
            i += 1;
        }
        proof {
            assert(p.take(n as int) =~= p);
        }
        Ok(x)
    }
}

/// The fields of a `Bus` record as the walk of its pairs leaves them.
pub struct BusState {
    pub owner_index: u8,
    pub owner_part_id: i8,
    pub index_in_sheet: i16,
    pub line_width: u32,
    pub color: Rgb,
    pub unique_id: UniqueId,
    pub locations: Seq<Location>,
}

impl Bus {
    /// The wire record ID of this kind.
    pub open spec fn spec_record_id() -> u32 {
        26
    }

    pub open spec fn spec_init() -> BusState {
        BusState {
            owner_index: 0,
            owner_part_id: 0,
            index_in_sheet: 0,
            line_width: 0,
            color: Rgb { r: 0, g: 0, b: 0 },
            unique_id: UniqueId::Simple([0x30u8, 0x30u8, 0x30u8, 0x30u8, 0x30u8, 0x30u8, 0x30u8, 0x30u8]),
            locations: Seq::empty(),
        }
    }

    /// Whether the binder recognizes this wire key.
    pub open spec fn spec_known_key(k: Seq<u8>) -> bool {
        ||| k == crate::keys::k_owner_index()
        ||| k == crate::keys::k_owner_part_id()
        ||| k == crate::keys::k_index_in_sheet()
        ||| k == crate::keys::k_line_width()
        ||| k == crate::keys::k_color()
        ||| k == crate::keys::k_unique_id()
        ||| k == crate::keys::k_location_count()
        ||| spec_is_number_pattern(k, seq![0x58u8])
        ||| spec_is_number_pattern(k, seq![0x59u8])
    }

    /// How many pairs hold keys the binder does not recognize.
    pub open spec fn spec_unknown(p: SpecPairs) -> int
        decreases p.len(),
    {
        if p.len() == 0 {
            0
        } else {
            Self::spec_unknown(p.drop_last()) + if Self::spec_known_key(p.last().0) {
                0int
            } else {
                1int
            }
        }
    }

    /// One pair applied to the state: a recognized key either updates its
    /// field or, when its value does not parse or an index is out of range,
    /// fails the record; anything else leaves the state alone.
    pub open spec fn spec_step(st: BusState, q: (Seq<u8>, Seq<u8>)) -> Option<BusState> {
        let v = q.1;
        if q.0 == crate::keys::k_owner_index() {
            if ok_u8(v) {
                Some(BusState { owner_index: uint_val(v) as u8, ..st })
            } else {
                None
            }
        } else if q.0 == crate::keys::k_owner_part_id() {
            if ok_i8(v) {
                Some(BusState { owner_part_id: int_val(v) as i8, ..st })
            } else {
                None
            }
        } else if q.0 == crate::keys::k_index_in_sheet() {
            if ok_i16(v) {
                Some(BusState { index_in_sheet: int_val(v) as i16, ..st })
            } else {
                None
            }
        } else if q.0 == crate::keys::k_line_width() {
            if ok_mils_u32(v) {
                Some(BusState { line_width: (uint_val(v) * 25400) as u32, ..st })
            } else {
                None
            }
        } else if q.0 == crate::keys::k_color() {
            if ok_u32(v) {
                Some(BusState { color: Rgb::spec_from_packed(uint_val(v) as u32), ..st })
            } else {
                None
            }
        } else if q.0 == crate::keys::k_unique_id() {
            if ok_uid(v) {
                Some(BusState { unique_id: UniqueId::spec_from_utf8(v)->0, ..st })
            } else {
                None
            }
        } else if q.0 == crate::keys::k_location_count() {
            if ok_u32(v) {
                Some(BusState {
                    locations: Seq::new((uint_val(v) as u32) as nat, |j: int| Location { x: 0, y: 0 }),
                    ..st
                })
            } else {
                None
            }
        } else if spec_is_number_pattern(q.0, seq![0x58u8]) {
            let d = q.0.skip(1);
            if is_uint_text(d) && uint_val(d) <= usize::MAX && 1 <= uint_val(d) <= st.locations.len() && ok_i32(v) {
                let j = uint_val(d) - 1;
                Some(BusState {
                    locations: st.locations.update(j, (
                        { let e = st.locations[j]; Location { x: int_val(v) as i32, ..e } }
                    )),
                    ..st
                })
            } else {
                None
            }
        } else if spec_is_number_pattern(q.0, seq![0x59u8]) {
            let d = q.0.skip(1);
            if is_uint_text(d) && uint_val(d) <= usize::MAX && 1 <= uint_val(d) <= st.locations.len() && ok_i32(v) {
                let j = uint_val(d) - 1;
                Some(BusState {
                    locations: st.locations.update(j, (
                        { let e = st.locations[j]; Location { y: int_val(v) as i32, ..e } }
                    )),
                    ..st
                })
            } else {
                None
            }
        } else {
            Some(st)
        }
    }

    /// The state after all pairs, or nothing once one of them fails.
    pub open spec fn spec_fold(p: SpecPairs) -> Option<BusState>
        decreases p.len(),
    {
        if p.len() == 0 {
            Some(Self::spec_init())
        } else {
            match Self::spec_fold(p.drop_last()) {
                None => None,
                Some(st) => Self::spec_step(st, p.last()),
            }
        }
    }

    /// A failure in a prefix fails the whole list.
    pub proof fn lemma_fold_none(p: SpecPairs, n: int)
        requires
            0 <= n <= p.len(),
            Self::spec_fold(p.take(n)) is None,
        ensures
            Self::spec_fold(p) is None,
        decreases p.len() - n,
    {
        if n < p.len() {
            assert(p.take(n + 1).drop_last() =~= p.take(n));
            Self::lemma_fold_none(p, n + 1);
        } else {
            assert(p.take(n) =~= p);
        }
    }

    /// Whether a decoded record holds the folded state.
    pub open spec fn spec_matches(x: Bus, p: SpecPairs) -> bool {
        match Self::spec_fold(p) {
            None => false,
            Some(st) => {
                &&& x.owner_index == st.owner_index
        &&& x.owner_part_id == st.owner_part_id
        &&& x.index_in_sheet == st.index_in_sheet
        &&& x.line_width == st.line_width
        &&& x.color == st.color
        &&& x.unique_id == st.unique_id
                &&& x.locations@ == st.locations
            },
        }
    }

    /// Bind the fields of one `Bus` record from its key-value pairs.
    #[verifier::loop_isolation(false)]
    #[verifier::rlimit(100)]
    pub fn from_record(pairs: &[(Vec<u8>, Vec<u8>)], counter: &mut UnsupportedCounter) -> (r:
        Result<Bus, ErrorKind>)
        ensures
            r is Ok <==> Self::spec_fold(pairs_view(pairs@)) is Some,
            r is Ok ==> Self::spec_matches(r->Ok_0, pairs_view(pairs@)),
            r is Ok ==> final(counter).count == sat_add(
                old(counter).count,
                Self::spec_unknown(pairs_view(pairs@)),
            ),
            final(counter).count >= old(counter).count,
    {
        let ghost p = pairs_view(pairs@);
        proof {
            crate::common::lemma_pairs_view(pairs@);
            assert(p.take(0) =~= Seq::<(Seq<u8>, Seq<u8>)>::empty());
        }
        let a_owner_index: [u8; 10] = [0x4fu8, 0x77u8, 0x6eu8, 0x65u8, 0x72u8, 0x49u8, 0x6eu8, 0x64u8, 0x65u8, 0x78u8];
        let a_owner_part_id: [u8; 11] = [0x4fu8, 0x77u8, 0x6eu8, 0x65u8, 0x72u8, 0x50u8, 0x61u8, 0x72u8, 0x74u8, 0x49u8, 0x64u8];
        let a_index_in_sheet: [u8; 12] = [0x49u8, 0x6eu8, 0x64u8, 0x65u8, 0x78u8, 0x49u8, 0x6eu8, 0x53u8, 0x68u8, 0x65u8, 0x65u8, 0x74u8];
        let a_line_width: [u8; 9] = [0x4cu8, 0x69u8, 0x6eu8, 0x65u8, 0x57u8, 0x69u8, 0x64u8, 0x74u8, 0x68u8];
        let a_color: [u8; 5] = [0x43u8, 0x6fu8, 0x6cu8, 0x6fu8, 0x72u8];
        let a_unique_id: [u8; 8] = [0x55u8, 0x6eu8, 0x69u8, 0x71u8, 0x75u8, 0x65u8, 0x49u8, 0x44u8];
        let a_location_count: [u8; 13] = [0x4cu8, 0x6fu8, 0x63u8, 0x61u8, 0x74u8, 0x69u8, 0x6fu8, 0x6eu8, 0x43u8, 0x6fu8, 0x75u8, 0x6eu8, 0x74u8];
        proof {
            assert(a_owner_index@ =~= crate::keys::k_owner_index());
            assert(a_owner_part_id@ =~= crate::keys::k_owner_part_id());
            assert(a_index_in_sheet@ =~= crate::keys::k_index_in_sheet());
            assert(a_line_width@ =~= crate::keys::k_line_width());
            assert(a_color@ =~= crate::keys::k_color());
            assert(a_unique_id@ =~= crate::keys::k_unique_id());
            assert(a_location_count@ =~= crate::keys::k_location_count());
            assert(crate::keys::k_owner_index() != crate::keys::k_owner_part_id()) by { assert(crate::keys::k_owner_index().len() != crate::keys::k_owner_part_id().len()); }
            assert(crate::keys::k_owner_index() != crate::keys::k_index_in_sheet()) by { assert(crate::keys::k_owner_index().len() != crate::keys::k_index_in_sheet().len()); }
            assert(crate::keys::k_owner_index() != crate::keys::k_line_width()) by { assert(crate::keys::k_owner_index().len() != crate::keys::k_line_width().len()); }
            assert(crate::keys::k_owner_index() != crate::keys::k_color()) by { assert(crate::keys::k_owner_index().len() != crate::keys::k_color().len()); }
            assert(crate::keys::k_owner_index() != crate::keys::k_unique_id()) by { assert(crate::keys::k_owner_index().len() != crate::keys::k_unique_id().len()); }
            assert(crate::keys::k_owner_index() != crate::keys::k_location_count()) by { assert(crate::keys::k_owner_index().len() != crate::keys::k_location_count().len()); }
            assert(crate::keys::k_owner_part_id() != crate::keys::k_index_in_sheet()) by { assert(crate::keys::k_owner_part_id().len() != crate::keys::k_index_in_sheet().len()); }
            assert(crate::keys::k_owner_part_id() != crate::keys::k_line_width()) by { assert(crate::keys::k_owner_part_id().len() != crate::keys::k_line_width().len()); }
            assert(crate::keys::k_owner_part_id() != crate::keys::k_color()) by { assert(crate::keys::k_owner_part_id().len() != crate::keys::k_color().len()); }
            assert(crate::keys::k_owner_part_id() != crate::keys::k_unique_id()) by { assert(crate::keys::k_owner_part_id().len() != crate::keys::k_unique_id().len()); }
            assert(crate::keys::k_owner_part_id() != crate::keys::k_location_count()) by { assert(crate::keys::k_owner_part_id().len() != crate::keys::k_location_count().len()); }
            assert(crate::keys::k_index_in_sheet() != crate::keys::k_line_width()) by { assert(crate::keys::k_index_in_sheet().len() != crate::keys::k_line_width().len()); }
            assert(crate::keys::k_index_in_sheet() != crate::keys::k_color()) by { assert(crate::keys::k_index_in_sheet().len() != crate::keys::k_color().len()); }
            assert(crate::keys::k_index_in_sheet() != crate::keys::k_unique_id()) by { assert(crate::keys::k_index_in_sheet().len() != crate::keys::k_unique_id().len()); }
            assert(crate::keys::k_index_in_sheet() != crate::keys::k_location_count()) by { assert(crate::keys::k_index_in_sheet().len() != crate::keys::k_location_count().len()); }
            assert(crate::keys::k_line_width() != crate::keys::k_color()) by { assert(crate::keys::k_line_width().len() != crate::keys::k_color().len()); }
            assert(crate::keys::k_line_width() != crate::keys::k_unique_id()) by { assert(crate::keys::k_line_width().len() != crate::keys::k_unique_id().len()); }
            assert(crate::keys::k_line_width() != crate::keys::k_location_count()) by { assert(crate::keys::k_line_width().len() != crate::keys::k_location_count().len()); }
            assert(crate::keys::k_color() != crate::keys::k_unique_id()) by { assert(crate::keys::k_color().len() != crate::keys::k_unique_id().len()); }
            assert(crate::keys::k_color() != crate::keys::k_location_count()) by { assert(crate::keys::k_color().len() != crate::keys::k_location_count().len()); }
            assert(crate::keys::k_unique_id() != crate::keys::k_location_count()) by { assert(crate::keys::k_unique_id().len() != crate::keys::k_location_count().len()); }
            assert(!spec_is_number_pattern(crate::keys::k_owner_index(), seq![0x58u8])) by {
                if spec_is_number_pattern(crate::keys::k_owner_index(), seq![0x58u8]) {
                    assert(crate::keys::k_owner_index().take(1) == seq![0x58u8]);
                    assert(crate::keys::k_owner_index()[0] == seq![0x58u8][0]);
                }
            }
            assert(!spec_is_number_pattern(crate::keys::k_owner_index(), seq![0x59u8])) by {
                if spec_is_number_pattern(crate::keys::k_owner_index(), seq![0x59u8]) {
                    assert(crate::keys::k_owner_index().take(1) == seq![0x59u8]);
                    assert(crate::keys::k_owner_index()[0] == seq![0x59u8][0]);
                }
            }
            assert(!spec_is_number_pattern(crate::keys::k_owner_part_id(), seq![0x58u8])) by {
                if spec_is_number_pattern(crate::keys::k_owner_part_id(), seq![0x58u8]) {
                    assert(crate::keys::k_owner_part_id().take(1) == seq![0x58u8]);
                    assert(crate::keys::k_owner_part_id()[0] == seq![0x58u8][0]);
                }
            }
            assert(!spec_is_number_pattern(crate::keys::k_owner_part_id(), seq![0x59u8])) by {
                if spec_is_number_pattern(crate::keys::k_owner_part_id(), seq![0x59u8]) {
                    assert(crate::keys::k_owner_part_id().take(1) == seq![0x59u8]);
                    assert(crate::keys::k_owner_part_id()[0] == seq![0x59u8][0]);
                }
            }
            assert(!spec_is_number_pattern(crate::keys::k_index_in_sheet(), seq![0x58u8])) by {
                if spec_is_number_pattern(crate::keys::k_index_in_sheet(), seq![0x58u8]) {
                    assert(crate::keys::k_index_in_sheet().take(1) == seq![0x58u8]);
                    assert(crate::keys::k_index_in_sheet()[0] == seq![0x58u8][0]);
                }
            }
            assert(!spec_is_number_pattern(crate::keys::k_index_in_sheet(), seq![0x59u8])) by {
                if spec_is_number_pattern(crate::keys::k_index_in_sheet(), seq![0x59u8]) {
                    assert(crate::keys::k_index_in_sheet().take(1) == seq![0x59u8]);
                    assert(crate::keys::k_index_in_sheet()[0] == seq![0x59u8][0]);
                }
            }
            assert(!spec_is_number_pattern(crate::keys::k_line_width(), seq![0x58u8])) by {
                if spec_is_number_pattern(crate::keys::k_line_width(), seq![0x58u8]) {
                    assert(crate::keys::k_line_width().take(1) == seq![0x58u8]);
                    assert(crate::keys::k_line_width()[0] == seq![0x58u8][0]);
                }
            }
            assert(!spec_is_number_pattern(crate::keys::k_line_width(), seq![0x59u8])) by {
                if spec_is_number_pattern(crate::keys::k_line_width(), seq![0x59u8]) {
                    assert(crate::keys::k_line_width().take(1) == seq![0x59u8]);
                    assert(crate::keys::k_line_width()[0] == seq![0x59u8][0]);
                }
            }
            assert(!spec_is_number_pattern(crate::keys::k_color(), seq![0x58u8])) by {
                if spec_is_number_pattern(crate::keys::k_color(), seq![0x58u8]) {
                    assert(crate::keys::k_color().take(1) == seq![0x58u8]);
                    assert(crate::keys::k_color()[0] == seq![0x58u8][0]);
                }
            }
            assert(!spec_is_number_pattern(crate::keys::k_color(), seq![0x59u8])) by {
                if spec_is_number_pattern(crate::keys::k_color(), seq![0x59u8]) {
                    assert(crate::keys::k_color().take(1) == seq![0x59u8]);
                    assert(crate::keys::k_color()[0] == seq![0x59u8][0]);
                }
            }
            assert(!spec_is_number_pattern(crate::keys::k_unique_id(), seq![0x58u8])) by {
                if spec_is_number_pattern(crate::keys::k_unique_id(), seq![0x58u8]) {
                    assert(crate::keys::k_unique_id().take(1) == seq![0x58u8]);
                    assert(crate::keys::k_unique_id()[0] == seq![0x58u8][0]);
                }
            }
            assert(!spec_is_number_pattern(crate::keys::k_unique_id(), seq![0x59u8])) by {
                if spec_is_number_pattern(crate::keys::k_unique_id(), seq![0x59u8]) {
                    assert(crate::keys::k_unique_id().take(1) == seq![0x59u8]);
                    assert(crate::keys::k_unique_id()[0] == seq![0x59u8][0]);
                }
            }
            assert(!spec_is_number_pattern(crate::keys::k_location_count(), seq![0x58u8])) by {
                if spec_is_number_pattern(crate::keys::k_location_count(), seq![0x58u8]) {
                    assert(crate::keys::k_location_count().take(1) == seq![0x58u8]);
                    assert(crate::keys::k_location_count()[0] == seq![0x58u8][0]);
                }
            }
            assert(!spec_is_number_pattern(crate::keys::k_location_count(), seq![0x59u8])) by {
                if spec_is_number_pattern(crate::keys::k_location_count(), seq![0x59u8]) {
                    assert(crate::keys::k_location_count().take(1) == seq![0x59u8]);
                    assert(crate::keys::k_location_count()[0] == seq![0x59u8][0]);
                }
            }
        }
        let a_pat_x: [u8; 1] = [0x58u8];
        let a_pat_y: [u8; 1] = [0x59u8];
        proof {
            assert(a_pat_x@ =~= seq![0x58u8]);
            assert(a_pat_y@ =~= seq![0x59u8]);
        }
        let mut x = Bus {
            owner_index: 0,
            owner_part_id: 0,
            index_in_sheet: 0,
            line_width: 0,
            color: Rgb { r: 0, g: 0, b: 0 },
            unique_id: UniqueId::Simple([0x30u8, 0x30u8, 0x30u8, 0x30u8, 0x30u8, 0x30u8, 0x30u8, 0x30u8]),
            locations: Vec::new(),
        };
        let n = pairs.len();
        let mut i: usize = 0;
        while i < n
            invariant
                0 <= i <= n,
                n == pairs@.len(),
                Self::spec_fold(p.take(i as int)) is Some,
                Self::spec_matches(x, p.take(i as int)),
                counter.count == sat_add(old(counter).count, Self::spec_unknown(p.take(i as int))),
                0 <= Self::spec_unknown(p.take(i as int)) <= i,
            decreases n - i,
        {
            let key: &[u8] = pairs[i].0.as_slice();
            let val: &[u8] = pairs[i].1.as_slice();
            proof {
                assert(p[i as int] == (pairs@[i as int].0@, pairs@[i as int].1@));
                assert(p.take(i as int + 1).drop_last() =~= p.take(i as int));
                assert(p.take(i as int + 1).last() == p[i as int]);
            }
            if crate::common::bytes_eq(key, a_owner_index.as_slice()) {
            match crate::parse::parse_u8(val) {
                Ok(v) => { x.owner_index = v; },
                Err(e) => {
                    proof { Self::lemma_fold_none(p, i as int + 1); } return Err(e);
                },
            }
        }
        else if crate::common::bytes_eq(key, a_owner_part_id.as_slice()) {
            match crate::parse::parse_i8(val) {
                Ok(v) => { x.owner_part_id = v; },
                Err(e) => {
                    proof { Self::lemma_fold_none(p, i as int + 1); } return Err(e);
                },
            }
        }
        else if crate::common::bytes_eq(key, a_index_in_sheet.as_slice()) {
            match crate::parse::parse_i16(val) {
                Ok(v) => { x.index_in_sheet = v; },
                Err(e) => {
                    proof { Self::lemma_fold_none(p, i as int + 1); } return Err(e);
                },
            }
        }
        else if crate::common::bytes_eq(key, a_line_width.as_slice()) {
            match crate::parse::parse_u32(val) {
                Ok(m) => match crate::common::mils_to_nm_u32(m) {
                    Ok(v) => { x.line_width = v; },
                    Err(e) => {
                        proof { Self::lemma_fold_none(p, i as int + 1); } return Err(e);
                    },
                },
                Err(e) => {
                    proof { Self::lemma_fold_none(p, i as int + 1); } return Err(e);
                },
            }
        }
        else if crate::common::bytes_eq(key, a_color.as_slice()) {
            match Rgb::from_utf8(val) {
                Ok(v) => { x.color = v; },
                Err(e) => {
                    proof { Self::lemma_fold_none(p, i as int + 1); } return Err(e);
                },
            }
        }
        else if crate::common::bytes_eq(key, a_unique_id.as_slice()) {
            match UniqueId::from_utf8(val) {
                Ok(v) => { x.unique_id = v; },
                Err(e) => {
                    proof { Self::lemma_fold_none(p, i as int + 1); } return Err(e);
                },
            }
        }
        else if crate::common::bytes_eq(key, a_location_count.as_slice()) {
            match crate::parse::parse_u32(val) {
                Ok(c) => {
                    let mut fresh: Vec<Location> = Vec::new();
                    let mut j: u32 = 0;
                    while j < c
                        invariant
                            0 <= j <= c,
                            fresh@.len() == j,
                            forall|t: int| 0 <= t < j ==> fresh@[t] == (Location { x: 0, y: 0 }),
                        decreases c - j,
                    {
                        fresh.push(Location { x: 0, y: 0 });
                        j += 1;
                    }
                    x.locations = fresh;
                    proof {
                        assert(x.locations@ =~= Seq::new((c as u32) as nat, |t: int| Location { x: 0, y: 0 }));
                    }
                },
                Err(e) => {
                    proof { Self::lemma_fold_none(p, i as int + 1); } return Err(e);
                },
            }
        } else if crate::common::is_number_pattern(key, a_pat_x.as_slice()) {
            let kl = key.len();
            let digits = &key[1..kl];
            proof {
                assert(digits@ =~= p[i as int].0.skip(1));
            }
            match crate::parse::parse_usize(digits) {
                Ok(idx) => {
                    if idx >= 1 && idx <= x.locations.len() {
                        match crate::parse::parse_i32(val) {
                            Ok(v) => {
                                let mut e = x.locations[idx - 1];
                                e.x = v;
                                x.locations.set(idx - 1, e);
                            },
                            Err(e) => {
                                proof { Self::lemma_fold_none(p, i as int + 1); } return Err(e);
                            },
                        }
                    } else {
                        proof { Self::lemma_fold_none(p, i as int + 1); } return Err(ErrorKind::new_invalid_key(key));
                    }
                },
                Err(e) => {
                    proof { Self::lemma_fold_none(p, i as int + 1); } return Err(e);
                },
            }
        } else if crate::common::is_number_pattern(key, a_pat_y.as_slice()) {
            let kl = key.len();
            let digits = &key[1..kl];
            proof {
                assert(digits@ =~= p[i as int].0.skip(1));
            }
            match crate::parse::parse_usize(digits) {
                Ok(idx) => {
                    if idx >= 1 && idx <= x.locations.len() {
                        match crate::parse::parse_i32(val) {
                            Ok(v) => {
                                let mut e = x.locations[idx - 1];
                                e.y = v;
                                x.locations.set(idx - 1, e);
                            },
                            Err(e) => {
                                proof { Self::lemma_fold_none(p, i as int + 1); } return Err(e);
                            },
                        }
                    } else {
                        proof { Self::lemma_fold_none(p, i as int + 1); } return Err(ErrorKind::new_invalid_key(key));
                    }
                },
                Err(e) => {
                    proof { Self::lemma_fold_none(p, i as int + 1); } return Err(e);
                },
            }
        } else {
            crate::logging::macro_unsupported_key(counter, "Bus", key, val);
        }
            i += 1;
        }
        proof {
            assert(p.take(n as int) =~= p);
        }
        Ok(x)
    }
}

/// The fields of a `Wire` record as the walk of its pairs leaves them.
pub struct WireState {
    pub owner_index: u8,
    pub owner_part_id: i8,
    pub line_width: u32,
    pub color: Rgb,
    pub index_in_sheet: i16,
    pub unique_id: UniqueId,
    pub locations: Seq<Location>,
}

impl Wire {
    /// The wire record ID of this kind.
    pub open spec fn spec_record_id() -> u32 {
        27
    }

    pub open spec fn spec_init() -> WireState {
        WireState {
            owner_index: 0,
            owner_part_id: 0,
            line_width: 0,
            color: Rgb { r: 0, g: 0, b: 0 },
            index_in_sheet: 0,
            unique_id: UniqueId::Simple([0x30u8, 0x30u8, 0x30u8, 0x30u8, 0x30u8, 0x30u8, 0x30u8, 0x30u8]),
            locations: Seq::empty(),
        }
    }

    /// Whether the binder recognizes this wire key.
    pub open spec fn spec_known_key(k: Seq<u8>) -> bool {
        ||| k == crate::keys::k_owner_index()
        ||| k == crate::keys::k_owner_part_id()
        ||| k == crate::keys::k_line_width()
        ||| k == crate::keys::k_color()
        ||| k == crate::keys::k_index_in_sheet()
        ||| k == crate::keys::k_unique_id()
        ||| k == crate::keys::k_location_count()
        ||| spec_is_number_pattern(k, seq![0x58u8])
        ||| spec_is_number_pattern(k, seq![0x59u8])
    }

    /// How many pairs hold keys the binder does not recognize.
    pub open spec fn spec_unknown(p: SpecPairs) -> int
        decreases p.len(),
    {
        if p.len() == 0 {
            0
        } else {
            Self::spec_unknown(p.drop_last()) + if Self::spec_known_key(p.last().0) {
                0int
            } else {
                1int
            }
        }
    }

    /// One pair applied to the state: a recognized key either updates its
    /// field or, when its value does not parse or an index is out of range,
    /// fails the record; anything else leaves the state alone.
    pub open spec fn spec_step(st: WireState, q: (Seq<u8>, Seq<u8>)) -> Option<WireState> {
        let v = q.1;
        if q.0 == crate::keys::k_owner_index() {
            if ok_u8(v) {
                Some(WireState { owner_index: uint_val(v) as u8, ..st })
            } else {
                None
            }
        } else if q.0 == crate::keys::k_owner_part_id() {
            if ok_i8(v) {
                Some(WireState { owner_part_id: int_val(v) as i8, ..st })
            } else {
                None
            }
        } else if q.0 == crate::keys::k_line_width() {
            if ok_mils_u32(v) {
                Some(WireState { line_width: (uint_val(v) * 25400) as u32, ..st })
            } else {
                None
            }
        } else if q.0 == crate::keys::k_color() {
            if ok_u32(v) {
                Some(WireState { color: Rgb::spec_from_packed(uint_val(v) as u32), ..st })
            } else {
                None
            }
        } else if q.0 == crate::keys::k_index_in_sheet() {
            if ok_i16(v) {
                Some(WireState { index_in_sheet: int_val(v) as i16, ..st })
            } else {
                None
            }
        } else if q.0 == crate::keys::k_unique_id() {
            if ok_uid(v) {
                Some(WireState { unique_id: UniqueId::spec_from_utf8(v)->0, ..st })
            } else {
                None
            }
        } else if q.0 == crate::keys::k_location_count() {
            if ok_u32(v) {
                Some(WireState {
                    locations: Seq::new((uint_val(v) as u32) as nat, |j: int| Location { x: 0, y: 0 }),
                    ..st
                })
            } else {
                None
            }
        } else if spec_is_number_pattern(q.0, seq![0x58u8]) {
            let d = q.0.skip(1);
            if is_uint_text(d) && uint_val(d) <= usize::MAX && 1 <= uint_val(d) <= st.locations.len() && ok_i32(v) {
                let j = uint_val(d) - 1;
                Some(WireState {
                    locations: st.locations.update(j, (
                        { let e = st.locations[j]; Location { x: int_val(v) as i32, ..e } }
                    )),
                    ..st
                })
            } else {
                None
            }
        } else if spec_is_number_pattern(q.0, seq![0x59u8]) {
            let d = q.0.skip(1);
            if is_uint_text(d) && uint_val(d) <= usize::MAX && 1 <= uint_val(d) <= st.locations.len() && ok_i32(v) {
                let j = uint_val(d) - 1;
                Some(WireState {
                    locations: st.locations.update(j, (
                        { let e = st.locations[j]; Location { y: int_val(v) as i32, ..e } }
                    )),
                    ..st
                })
            } else {
                None
            }
        } else {
            Some(st)
        }
    }

    /// The state after all pairs, or nothing once one of them fails.
    pub open spec fn spec_fold(p: SpecPairs) -> Option<WireState>
        decreases p.len(),
    {
        if p.len() == 0 {
            Some(Self::spec_init())
        } else {
            match Self::spec_fold(p.drop_last()) {
                None => None,
                Some(st) => Self::spec_step(st, p.last()),
            }
        }
    }

    /// A failure in a prefix fails the whole list.
    pub proof fn lemma_fold_none(p: SpecPairs, n: int)
        requires
            0 <= n <= p.len(),
            Self::spec_fold(p.take(n)) is None,
        ensures
            Self::spec_fold(p) is None,
        decreases p.len() - n,
    {
        if n < p.len() {
            assert(p.take(n + 1).drop_last() =~= p.take(n));
            Self::lemma_fold_none(p, n + 1);
        } else {
            assert(p.take(n) =~= p);
        }
    }

    /// Whether a decoded record holds the folded state.
    pub open spec fn spec_matches(x: Wire, p: SpecPairs) -> bool {
        match Self::spec_fold(p) {
            None => false,
            Some(st) => {
                &&& x.owner_index == st.owner_index
        &&& x.owner_part_id == st.owner_part_id
        &&& x.line_width == st.line_width
        &&& x.color == st.color
        &&& x.index_in_sheet == st.index_in_sheet
        &&& x.unique_id == st.unique_id
                &&& x.locations@ == st.locations
            },
        }
    }

    /// Bind the fields of one `Wire` record from its key-value pairs.
    #[verifier::loop_isolation(false)]
    #[verifier::rlimit(100)]
    pub fn from_record(pairs: &[(Vec<u8>, Vec<u8>)], counter: &mut UnsupportedCounter) -> (r:
        Result<Wire, ErrorKind>)
        ensures
            r is Ok <==> Self::spec_fold(pairs_view(pairs@)) is Some,
            r is Ok ==> Self::spec_matches(r->Ok_0, pairs_view(pairs@)),
            r is Ok ==> final(counter).count == sat_add(
                old(counter).count,
                Self::spec_unknown(pairs_view(pairs@)),
            ),
            final(counter).count >= old(counter).count,
    {
        let ghost p = pairs_view(pairs@);
        proof {
            crate::common::lemma_pairs_view(pairs@);
            assert(p.take(0) =~= Seq::<(Seq<u8>, Seq<u8>)>::empty());
        }
        let a_owner_index: [u8; 10] = [0x4fu8, 0x77u8, 0x6eu8, 0x65u8, 0x72u8, 0x49u8, 0x6eu8, 0x64u8, 0x65u8, 0x78u8];
        let a_owner_part_id: [u8; 11] = [0x4fu8, 0x77u8, 0x6eu8, 0x65u8, 0x72u8, 0x50u8, 0x61u8, 0x72u8, 0x74u8, 0x49u8, 0x64u8];
        let a_line_width: [u8; 9] = [0x4cu8, 0x69u8, 0x6eu8, 0x65u8, 0x57u8, 0x69u8, 0x64u8, 0x74u8, 0x68u8];
        let a_color: [u8; 5] = [0x43u8, 0x6fu8, 0x6cu8, 0x6fu8, 0x72u8];
        let a_index_in_sheet: [u8; 12] = [0x49u8, 0x6eu8, 0x64u8, 0x65u8, 0x78u8, 0x49u8, 0x6eu8, 0x53u8, 0x68u8, 0x65u8, 0x65u8, 0x74u8];
        let a_unique_id: [u8; 8] = [0x55u8, 0x6eu8, 0x69u8, 0x71u8, 0x75u8, 0x65u8, 0x49u8, 0x44u8];
        let a_location_count: [u8; 13] = [0x4cu8, 0x6fu8, 0x63u8, 0x61u8, 0x74u8, 0x69u8, 0x6fu8, 0x6eu8, 0x43u8, 0x6fu8, 0x75u8, 0x6eu8, 0x74u8];
        proof {
            assert(a_owner_index@ =~= crate::keys::k_owner_index());
            assert(a_owner_part_id@ =~= crate::keys::k_owner_part_id());
            assert(a_line_width@ =~= crate::keys::k_line_width());
            assert(a_color@ =~= crate::keys::k_color());
            assert(a_index_in_sheet@ =~= crate::keys::k_index_in_sheet());
            assert(a_unique_id@ =~= crate::keys::k_unique_id());
            assert(a_location_count@ =~= crate::keys::k_location_count());
            assert(crate::keys::k_owner_index() != crate::keys::k_owner_part_id()) by { assert(crate::keys::k_owner_index().len() != crate::keys::k_owner_part_id().len()); }
            assert(crate::keys::k_owner_index() != crate::keys::k_line_width()) by { assert(crate::keys::k_owner_index().len() != crate::keys::k_line_width().len()); }
            assert(crate::keys::k_owner_index() != crate::keys::k_color()) by { assert(crate::keys::k_owner_index().len() != crate::keys::k_color().len()); }
            assert(crate::keys::k_owner_index() != crate::keys::k_index_in_sheet()) by { assert(crate::keys::k_owner_index().len() != crate::keys::k_index_in_sheet().len()); }
            assert(crate::keys::k_owner_index() != crate::keys::k_unique_id()) by { assert(crate::keys::k_owner_index().len() != crate::keys::k_unique_id().len()); }
            assert(crate::keys::k_owner_index() != crate::keys::k_location_count()) by { assert(crate::keys::k_owner_index().len() != crate::keys::k_location_count().len()); }
            assert(crate::keys::k_owner_part_id() != crate::keys::k_line_width()) by { assert(crate::keys::k_owner_part_id().len() != crate::keys::k_line_width().len()); }
            assert(crate::keys::k_owner_part_id() != crate::keys::k_color()) by { assert(crate::keys::k_owner_part_id().len() != crate::keys::k_color().len()); }
            assert(crate::keys::k_owner_part_id() != crate::keys::k_index_in_sheet()) by { assert(crate::keys::k_owner_part_id().len() != crate::keys::k_index_in_sheet().len()); }
            assert(crate::keys::k_owner_part_id() != crate::keys::k_unique_id()) by { assert(crate::keys::k_owner_part_id().len() != crate::keys::k_unique_id().len()); }
            assert(crate::keys::k_owner_part_id() != crate::keys::k_location_count()) by { assert(crate::keys::k_owner_part_id().len() != crate::keys::k_location_count().len()); }
            assert(crate::keys::k_line_width() != crate::keys::k_color()) by { assert(crate::keys::k_line_width().len() != crate::keys::k_color().len()); }
            assert(crate::keys::k_line_width() != crate::keys::k_index_in_sheet()) by { assert(crate::keys::k_line_width().len() != crate::keys::k_index_in_sheet().len()); }
            assert(crate::keys::k_line_width() != crate::keys::k_unique_id()) by { assert(crate::keys::k_line_width().len() != crate::keys::k_unique_id().len()); }
            assert(crate::keys::k_line_width() != crate::keys::k_location_count()) by { assert(crate::keys::k_line_width().len() != crate::keys::k_location_count().len()); }
            assert(crate::keys::k_color() != crate::keys::k_index_in_sheet()) by { assert(crate::keys::k_color().len() != crate::keys::k_index_in_sheet().len()); }
            assert(crate::keys::k_color() != crate::keys::k_unique_id()) by { assert(crate::keys::k_color().len() != crate::keys::k_unique_id().len()); }
            assert(crate::keys::k_color() != crate::keys::k_location_count()) by { assert(crate::keys::k_color().len() != crate::keys::k_location_count().len()); }
            assert(crate::keys::k_index_in_sheet() != crate::keys::k_unique_id()) by { assert(crate::keys::k_index_in_sheet().len() != crate::keys::k_unique_id().len()); }
            assert(crate::keys::k_index_in_sheet() != crate::keys::k_location_count()) by { assert(crate::keys::k_index_in_sheet().len() != crate::keys::k_location_count().len()); }
            assert(crate::keys::k_unique_id() != crate::keys::k_location_count()) by { assert(crate::keys::k_unique_id().len() != crate::keys::k_location_count().len()); }
            assert(!spec_is_number_pattern(crate::keys::k_owner_index(), seq![0x58u8])) by {
                if spec_is_number_pattern(crate::keys::k_owner_index(), seq![0x58u8]) {
                    assert(crate::keys::k_owner_index().take(1) == seq![0x58u8]);
                    assert(crate::keys::k_owner_index()[0] == seq![0x58u8][0]);
                }
            }
            assert(!spec_is_number_pattern(crate::keys::k_owner_index(), seq![0x59u8])) by {
                if spec_is_number_pattern(crate::keys::k_owner_index(), seq![0x59u8]) {
                    assert(crate::keys::k_owner_index().take(1) == seq![0x59u8]);
                    assert(crate::keys::k_owner_index()[0] == seq![0x59u8][0]);
                }
            }
            assert(!spec_is_number_pattern(crate::keys::k_owner_part_id(), seq![0x58u8])) by {
                if spec_is_number_pattern(crate::keys::k_owner_part_id(), seq![0x58u8]) {
                    assert(crate::keys::k_owner_part_id().take(1) == seq![0x58u8]);
                    assert(crate::keys::k_owner_part_id()[0] == seq![0x58u8][0]);
                }
            }
            assert(!spec_is_number_pattern(crate::keys::k_owner_part_id(), seq![0x59u8])) by {
                if spec_is_number_pattern(crate::keys::k_owner_part_id(), seq![0x59u8]) {
                    assert(crate::keys::k_owner_part_id().take(1) == seq![0x59u8]);
                    assert(crate::keys::k_owner_part_id()[0] == seq![0x59u8][0]);
                }
            }
            assert(!spec_is_number_pattern(crate::keys::k_line_width(), seq![0x58u8])) by {
                if spec_is_number_pattern(crate::keys::k_line_width(), seq![0x58u8]) {
                    assert(crate::keys::k_line_width().take(1) == seq![0x58u8]);
                    assert(crate::keys::k_line_width()[0] == seq![0x58u8][0]);
                }
            }
            assert(!spec_is_number_pattern(crate::keys::k_line_width(), seq![0x59u8])) by {
                if spec_is_number_pattern(crate::keys::k_line_width(), seq![0x59u8]) {
                    assert(crate::keys::k_line_width().take(1) == seq![0x59u8]);
                    assert(crate::keys::k_line_width()[0] == seq![0x59u8][0]);
                }
            }
            assert(!spec_is_number_pattern(crate::keys::k_color(), seq![0x58u8])) by {
                if spec_is_number_pattern(crate::keys::k_color(), seq![0x58u8]) {
                    assert(crate::keys::k_color().take(1) == seq![0x58u8]);
                    assert(crate::keys::k_color()[0] == seq![0x58u8][0]);
                }
            }
            assert(!spec_is_number_pattern(crate::keys::k_color(), seq![0x59u8])) by {
                if spec_is_number_pattern(crate::keys::k_color(), seq![0x59u8]) {
                    assert(crate::keys::k_color().take(1) == seq![0x59u8]);
                    assert(crate::keys::k_color()[0] == seq![0x59u8][0]);
                }
            }
            assert(!spec_is_number_pattern(crate::keys::k_index_in_sheet(), seq![0x58u8])) by {
                if spec_is_number_pattern(crate::keys::k_index_in_sheet(), seq![0x58u8]) {
                    assert(crate::keys::k_index_in_sheet().take(1) == seq![0x58u8]);
                    assert(crate::keys::k_index_in_sheet()[0] == seq![0x58u8][0]);
                }
            }
            assert(!spec_is_number_pattern(crate::keys::k_index_in_sheet(), seq![0x59u8])) by {
                if spec_is_number_pattern(crate::keys::k_index_in_sheet(), seq![0x59u8]) {
                    assert(crate::keys::k_index_in_sheet().take(1) == seq![0x59u8]);
                    assert(crate::keys::k_index_in_sheet()[0] == seq![0x59u8][0]);
                }
            }
            assert(!spec_is_number_pattern(crate::keys::k_unique_id(), seq![0x58u8])) by {
                if spec_is_number_pattern(crate::keys::k_unique_id(), seq![0x58u8]) {
                    assert(crate::keys::k_unique_id().take(1) == seq![0x58u8]);
                    assert(crate::keys::k_unique_id()[0] == seq![0x58u8][0]);
                }
            }
            assert(!spec_is_number_pattern(crate::keys::k_unique_id(), seq![0x59u8])) by {
                if spec_is_number_pattern(crate::keys::k_unique_id(), seq![0x59u8]) {
                    assert(crate::keys::k_unique_id().take(1) == seq![0x59u8]);
                    assert(crate::keys::k_unique_id()[0] == seq![0x59u8][0]);
                }
            }
            assert(!spec_is_number_pattern(crate::keys::k_location_count(), seq![0x58u8])) by {
                if spec_is_number_pattern(crate::keys::k_location_count(), seq![0x58u8]) {
                    assert(crate::keys::k_location_count().take(1) == seq![0x58u8]);
                    assert(crate::keys::k_location_count()[0] == seq![0x58u8][0]);
                }
            }
            assert(!spec_is_number_pattern(crate::keys::k_location_count(), seq![0x59u8])) by {
                if spec_is_number_pattern(crate::keys::k_location_count(), seq![0x59u8]) {
                    assert(crate::keys::k_location_count().take(1) == seq![0x59u8]);
                    assert(crate::keys::k_location_count()[0] == seq![0x59u8][0]);
                }
            }
        }
        let a_pat_x: [u8; 1] = [0x58u8];
        let a_pat_y: [u8; 1] = [0x59u8];
        proof {
            assert(a_pat_x@ =~= seq![0x58u8]);
            assert(a_pat_y@ =~= seq![0x59u8]);
        }
        let mut x = Wire {
            owner_index: 0,
            owner_part_id: 0,
            line_width: 0,
            color: Rgb { r: 0, g: 0, b: 0 },
            index_in_sheet: 0,
            unique_id: UniqueId::Simple([0x30u8, 0x30u8, 0x30u8, 0x30u8, 0x30u8, 0x30u8, 0x30u8, 0x30u8]),
            locations: Vec::new(),
        };
        let n = pairs.len();
        let mut i: usize = 0;
        while i < n
            invariant
                0 <= i <= n,
                n == pairs@.len(),
                Self::spec_fold(p.take(i as int)) is Some,
                Self::spec_matches(x, p.take(i as int)),
                counter.count == sat_add(old(counter).count, Self::spec_unknown(p.take(i as int))),
                0 <= Self::spec_unknown(p.take(i as int)) <= i,
            decreases n - i,
        {
            let key: &[u8] = pairs[i].0.as_slice();
            let val: &[u8] = pairs[i].1.as_slice();
            proof {
                assert(p[i as int] == (pairs@[i as int].0@, pairs@[i as int].1@));
                assert(p.take(i as int + 1).drop_last() =~= p.take(i as int));
                assert(p.take(i as int + 1).last() == p[i as int]);
            }
            if crate::common::bytes_eq(key, a_owner_index.as_slice()) {
            match crate::parse::parse_u8(val) {
                Ok(v) => { x.owner_index = v; },
                Err(e) => {
                    proof { Self::lemma_fold_none(p, i as int + 1); } return Err(e);
                },
            }
        }
        else if crate::common::bytes_eq(key, a_owner_part_id.as_slice()) {
            match crate::parse::parse_i8(val) {
                Ok(v) => { x.owner_part_id = v; },
                Err(e) => {
                    proof { Self::lemma_fold_none(p, i as int + 1); } return Err(e);
                },
            }
        }
        else if crate::common::bytes_eq(key, a_line_width.as_slice()) {
            match crate::parse::parse_u32(val) {
                Ok(m) => match crate::common::mils_to_nm_u32(m) {
                    Ok(v) => { x.line_width = v; },
                    Err(e) => {
                        proof { Self::lemma_fold_none(p, i as int + 1); } return Err(e);
                    },
                },
                Err(e) => {
                    proof { Self::lemma_fold_none(p, i as int + 1); } return Err(e);
                },
            }
        }
        else if crate::common::bytes_eq(key, a_color.as_slice()) {
            match Rgb::from_utf8(val) {
                Ok(v) => { x.color = v; },
                Err(e) => {
                    proof { Self::lemma_fold_none(p, i as int + 1); } return Err(e);
                },
            }
        }
        else if crate::common::bytes_eq(key, a_index_in_sheet.as_slice()) {
            match crate::parse::parse_i16(val) {
                Ok(v) => { x.index_in_sheet = v; },
                Err(e) => {
                    proof { Self::lemma_fold_none(p, i as int + 1); } return Err(e);
                },
            }
        }
        else if crate::common::bytes_eq(key, a_unique_id.as_slice()) {
            match UniqueId::from_utf8(val) {
                Ok(v) => { x.unique_id = v; },
                Err(e) => {
                    proof { Self::lemma_fold_none(p, i as int + 1); } return Err(e);
                },
            }
        }
        else if crate::common::bytes_eq(key, a_location_count.as_slice()) {
            match crate::parse::parse_u32(val) {
                Ok(c) => {
                    let mut fresh: Vec<Location> = Vec::new();
                    let mut j: u32 = 0;
                    while j < c
                        invariant
                            0 <= j <= c,
                            fresh@.len() == j,
                            forall|t: int| 0 <= t < j ==> fresh@[t] == (Location { x: 0, y: 0 }),
                        decreases c - j,
                    {
                        fresh.push(Location { x: 0, y: 0 });
                        j += 1;
                    }
                    x.locations = fresh;
                    proof {
                        assert(x.locations@ =~= Seq::new((c as u32) as nat, |t: int| Location { x: 0, y: 0 }));
                    }
                },
                Err(e) => {
                    proof { Self::lemma_fold_none(p, i as int + 1); } return Err(e);
                },
            }
        } else if crate::common::is_number_pattern(key, a_pat_x.as_slice()) {
            let kl = key.len();
            let digits = &key[1..kl];
            proof {
                assert(digits@ =~= p[i as int].0.skip(1));
            }
            match crate::parse::parse_usize(digits) {
                Ok(idx) => {
                    if idx >= 1 && idx <= x.locations.len() {
                        match crate::parse::parse_i32(val) {
                            Ok(v) => {
                                let mut e = x.locations[idx - 1];
                                e.x = v;
                                x.locations.set(idx - 1, e);
                            },
                            Err(e) => {
                                proof { Self::lemma_fold_none(p, i as int + 1); } return Err(e);
                            },
                        }
                    } else {
                        proof { Self::lemma_fold_none(p, i as int + 1); } return Err(ErrorKind::new_invalid_key(key));
                    }
                },
                Err(e) => {
                    proof { Self::lemma_fold_none(p, i as int + 1); } return Err(e);
                },
            }
        } else if crate::common::is_number_pattern(key, a_pat_y.as_slice()) {
            let kl = key.len();
            let digits = &key[1..kl];
            proof {
                assert(digits@ =~= p[i as int].0.skip(1));
            }
            match crate::parse::parse_usize(digits) {
                Ok(idx) => {
                    if idx >= 1 && idx <= x.locations.len() {
                        match crate::parse::parse_i32(val) {
                            Ok(v) => {
                                let mut e = x.locations[idx - 1];
                                e.y = v;
                                x.locations.set(idx - 1, e);
                            },
                            Err(e) => {
                                proof { Self::lemma_fold_none(p, i as int + 1); } return Err(e);
                            },
                        }
                    } else {
                        proof { Self::lemma_fold_none(p, i as int + 1); } return Err(ErrorKind::new_invalid_key(key));
                    }
                },
                Err(e) => {
                    proof { Self::lemma_fold_none(p, i as int + 1); } return Err(e);
                },
            }
        } else {
            crate::logging::macro_unsupported_key(counter, "Wire", key, val);
        }
            i += 1;
        }
        proof {
            assert(p.take(n as int) =~= p);
        }
        Ok(x)
    }
}

} // verus!
