//! Field binders for the ASCII record kinds.

use vstd::prelude::*;

use crate::binder::{
    bool_field, color_field, has_key, i16_field, i32_field, i8_field, just_field,
    kind_field_fails, last_val, loc_field, locf_field, mils_i32_field, mils_u32_field,
    etype_field, opt_str_field, raw_field, ros_field, sat_add, str_field, str_field_fails,
    u16_field,
    u32_field, u8_field, uid_field, utf8_twin, FieldKind, SpecPairs,
};
use crate::common::{pairs_view, Location, LocationFract, ReadOnlyState, Rgb, UniqueId};
use crate::error::ErrorKind;
use crate::params::Justification;
use crate::logging::UnsupportedCounter;
use crate::records::{BusEntry, Designator, Implementation, ImplementationChild1, ImplementationChild2, ImplementationList, Parameter, SchPin, Template};

verus! {

impl Designator {
    /// The wire record ID of this kind.
    pub open spec fn spec_record_id() -> u32 {
        34
    }

    /// Whether the binder recognizes this wire key.
    pub open spec fn spec_known_key(k: Seq<u8>) -> bool {
        ||| k == crate::keys::k_owner_index()
        ||| k == crate::keys::k_owner_part_id()
        ||| k == crate::keys::k_location_x()
        ||| k == crate::keys::k_location_y()
        ||| k == crate::keys::k_color()
        ||| k == crate::keys::k_font_id()
        ||| k == crate::keys::k_unique_id()
        ||| k == crate::keys::k_name()
        ||| k == utf8_twin(crate::keys::k_name())
        ||| k == crate::keys::k_index_in_sheet()
        ||| k == crate::keys::k_text()
        ||| k == utf8_twin(crate::keys::k_text())
        ||| k == crate::keys::k_read_only_state()
    }

    /// How many pairs hold keys the binder does not recognize.
    pub open spec fn spec_unknown(p: SpecPairs) -> int
        decreases p.len(),
    {
        if p.len() == 0 {
            0
        } else {
            Self::spec_unknown(p.drop_last()) + if Self::spec_known_key(p.last().0) {
                0int
            } else {
                1int
            }
        }
    }

    /// Whether some pair's value is one its field's parser rejects.
    pub open spec fn spec_fails(p: SpecPairs) -> bool {
        ||| kind_field_fails(p, FieldKind::U8, crate::keys::k_owner_index())
        ||| kind_field_fails(p, FieldKind::I8, crate::keys::k_owner_part_id())
        ||| kind_field_fails(p, FieldKind::I32, crate::keys::k_location_x())
        ||| kind_field_fails(p, FieldKind::I32, crate::keys::k_location_y())
        ||| kind_field_fails(p, FieldKind::Color, crate::keys::k_color())
        ||| kind_field_fails(p, FieldKind::U16, crate::keys::k_font_id())
        ||| kind_field_fails(p, FieldKind::Uid, crate::keys::k_unique_id())
        ||| str_field_fails(p, crate::keys::k_name())
        ||| kind_field_fails(p, FieldKind::I16, crate::keys::k_index_in_sheet())
        ||| str_field_fails(p, crate::keys::k_text())
        ||| kind_field_fails(p, FieldKind::Ros, crate::keys::k_read_only_state())
    }

    /// Each field as the walk of the pairs leaves it.
    pub open spec fn spec_matches(x: Designator, p: SpecPairs) -> bool {
        &&& x.owner_index == u8_field(p, crate::keys::k_owner_index())
        &&& x.owner_part_id == i8_field(p, crate::keys::k_owner_part_id())
        &&& x.location == loc_field(p, crate::keys::k_location_x(), crate::keys::k_location_y())
        &&& x.color == color_field(p, crate::keys::k_color())
        &&& x.font_id == u16_field(p, crate::keys::k_font_id())
        &&& x.unique_id == uid_field(p, crate::keys::k_unique_id())
        &&& x.name@ == str_field(p, crate::keys::k_name())
        &&& x.index_in_sheet == i16_field(p, crate::keys::k_index_in_sheet())
        &&& x.text@ == str_field(p, crate::keys::k_text())
        &&& x.read_only_state == ros_field(p, crate::keys::k_read_only_state())
    }

    /// Bind the fields of one `Designator` record from its key-value pairs.
    #[verifier::loop_isolation(false)]
    #[verifier::rlimit(100)]
    pub fn from_record(pairs: &[(Vec<u8>, Vec<u8>)], counter: &mut UnsupportedCounter) -> (r:
        Result<Designator, ErrorKind>)
        ensures
            r is Ok <==> !Designator::spec_fails(pairs_view(pairs@)),
            r is Ok ==> Designator::spec_matches(r->Ok_0, pairs_view(pairs@)),
            r is Ok ==> final(counter).count == sat_add(
                old(counter).count,
                Designator::spec_unknown(pairs_view(pairs@)),
            ),
            final(counter).count >= old(counter).count,
    {
        let ghost p = pairs_view(pairs@);
        proof {
            crate::common::lemma_pairs_view(pairs@);
            assert(p.take(0) =~= Seq::<(Seq<u8>, Seq<u8>)>::empty());
        }
    let a_owner_index: [u8; 10] = [0x4fu8, 0x77u8, 0x6eu8, 0x65u8, 0x72u8, 0x49u8, 0x6eu8, 0x64u8, 0x65u8, 0x78u8];
    let a_owner_part_id: [u8; 11] = [0x4fu8, 0x77u8, 0x6eu8, 0x65u8, 0x72u8, 0x50u8, 0x61u8, 0x72u8, 0x74u8, 0x49u8, 0x64u8];
    let a_location_x: [u8; 10] = [0x4cu8, 0x6fu8, 0x63u8, 0x61u8, 0x74u8, 0x69u8, 0x6fu8, 0x6eu8, 0x2eu8, 0x58u8];
    let a_location_y: [u8; 10] = [0x4cu8, 0x6fu8, 0x63u8, 0x61u8, 0x74u8, 0x69u8, 0x6fu8, 0x6eu8, 0x2eu8, 0x59u8];
    let a_color: [u8; 5] = [0x43u8, 0x6fu8, 0x6cu8, 0x6fu8, 0x72u8];
    let a_font_id: [u8; 6] = [0x46u8, 0x6fu8, 0x6eu8, 0x74u8, 0x49u8, 0x44u8];
    let a_unique_id: [u8; 8] = [0x55u8, 0x6eu8, 0x69u8, 0x71u8, 0x75u8, 0x65u8, 0x49u8, 0x44u8];
    let a_name: [u8; 4] = [0x4eu8, 0x61u8, 0x6du8, 0x65u8];
    let a_index_in_sheet: [u8; 12] = [0x49u8, 0x6eu8, 0x64u8, 0x65u8, 0x78u8, 0x49u8, 0x6eu8, 0x53u8, 0x68u8, 0x65u8, 0x65u8, 0x74u8];
    let a_text: [u8; 4] = [0x54u8, 0x65u8, 0x78u8, 0x74u8];
    let a_read_only_state: [u8; 13] = [0x52u8, 0x65u8, 0x61u8, 0x64u8, 0x4fu8, 0x6eu8, 0x6cu8, 0x79u8, 0x53u8, 0x74u8, 0x61u8, 0x74u8, 0x65u8];
    let t_name: [u8; 10] = [0x25u8, 0x55u8, 0x54u8, 0x46u8, 0x38u8, 0x25u8, 0x4eu8, 0x61u8, 0x6du8, 0x65u8];
    let t_text: [u8; 10] = [0x25u8, 0x55u8, 0x54u8, 0x46u8, 0x38u8, 0x25u8, 0x54u8, 0x65u8, 0x78u8, 0x74u8];
    proof {
        assert(a_owner_index@ =~= crate::keys::k_owner_index());
        assert(a_owner_part_id@ =~= crate::keys::k_owner_part_id());
        assert(a_location_x@ =~= crate::keys::k_location_x());
        assert(a_location_y@ =~= crate::keys::k_location_y());
        assert(a_color@ =~= crate::keys::k_color());
        assert(a_font_id@ =~= crate::keys::k_font_id());
        assert(a_unique_id@ =~= crate::keys::k_unique_id());
        assert(a_name@ =~= crate::keys::k_name());
        assert(a_index_in_sheet@ =~= crate::keys::k_index_in_sheet());
        assert(a_text@ =~= crate::keys::k_text());
        assert(a_read_only_state@ =~= crate::keys::k_read_only_state());
        assert(t_name@ =~= utf8_twin(crate::keys::k_name()));
        assert(t_text@ =~= utf8_twin(crate::keys::k_text()));
        assert(crate::keys::k_owner_index() != crate::keys::k_owner_part_id()) by { assert(crate::keys::k_owner_index().len() != crate::keys::k_owner_part_id().len()); }
        assert(crate::keys::k_owner_index() != crate::keys::k_location_x()) by { assert(crate::keys::k_owner_index()[0] != crate::keys::k_location_x()[0]); }
        assert(crate::keys::k_owner_index() != crate::keys::k_location_y()) by { assert(crate::keys::k_owner_index()[0] != crate::keys::k_location_y()[0]); }
        assert(crate::keys::k_owner_index() != crate::keys::k_color()) by { assert(crate::keys::k_owner_index().len() != crate::keys::k_color().len()); }
        assert(crate::keys::k_owner_index() != crate::keys::k_font_id()) by { assert(crate::keys::k_owner_index().len() != crate::keys::k_font_id().len()); }
        assert(crate::keys::k_owner_index() != crate::keys::k_unique_id()) by { assert(crate::keys::k_owner_index().len() != crate::keys::k_unique_id().len()); }
        assert(crate::keys::k_owner_index() != crate::keys::k_name()) by { assert(crate::keys::k_owner_index().len() != crate::keys::k_name().len()); }
        assert(crate::keys::k_owner_index() != crate::keys::k_index_in_sheet()) by { assert(crate::keys::k_owner_index().len() != crate::keys::k_index_in_sheet().len()); }
        assert(crate::keys::k_owner_index() != crate::keys::k_text()) by { assert(crate::keys::k_owner_index().len() != crate::keys::k_text().len()); }
        assert(crate::keys::k_owner_index() != crate::keys::k_read_only_state()) by { assert(crate::keys::k_owner_index().len() != crate::keys::k_read_only_state().len()); }
        assert(crate::keys::k_owner_index() != utf8_twin(crate::keys::k_name())) by { assert(crate::keys::k_owner_index()[0] != utf8_twin(crate::keys::k_name())[0]); }
        assert(crate::keys::k_owner_index() != utf8_twin(crate::keys::k_text())) by { assert(crate::keys::k_owner_index()[0] != utf8_twin(crate::keys::k_text())[0]); }
        assert(crate::keys::k_owner_part_id() != crate::keys::k_location_x()) by { assert(crate::keys::k_owner_part_id().len() != crate::keys::k_location_x().len()); }
        assert(crate::keys::k_owner_part_id() != crate::keys::k_location_y()) by { assert(crate::keys::k_owner_part_id().len() != crate::keys::k_location_y().len()); }
        assert(crate::keys::k_owner_part_id() != crate::keys::k_color()) by { assert(crate::keys::k_owner_part_id().len() != crate::keys::k_color().len()); }
        assert(crate::keys::k_owner_part_id() != crate::keys::k_font_id()) by { assert(crate::keys::k_owner_part_id().len() != crate::keys::k_font_id().len()); }
        assert(crate::keys::k_owner_part_id() != crate::keys::k_unique_id()) by { assert(crate::keys::k_owner_part_id().len() != crate::keys::k_unique_id().len()); }
        assert(crate::keys::k_owner_part_id() != crate::keys::k_name()) by { assert(crate::keys::k_owner_part_id().len() != crate::keys::k_name().len()); }
        assert(crate::keys::k_owner_part_id() != crate::keys::k_index_in_sheet()) by { assert(crate::keys::k_owner_part_id().len() != crate::keys::k_index_in_sheet().len()); }
        assert(crate::keys::k_owner_part_id() != crate::keys::k_text()) by { assert(crate::keys::k_owner_part_id().len() != crate::keys::k_text().len()); }
        assert(crate::keys::k_owner_part_id() != crate::keys::k_read_only_state()) by { assert(crate::keys::k_owner_part_id().len() != crate::keys::k_read_only_state().len()); }
        assert(crate::keys::k_owner_part_id() != utf8_twin(crate::keys::k_name())) by { assert(crate::keys::k_owner_part_id().len() != utf8_twin(crate::keys::k_name()).len()); }
        assert(crate::keys::k_owner_part_id() != utf8_twin(crate::keys::k_text())) by { assert(crate::keys::k_owner_part_id().len() != utf8_twin(crate::keys::k_text()).len()); }
        assert(crate::keys::k_location_x() != crate::keys::k_location_y()) by { assert(crate::keys::k_location_x()[9] != crate::keys::k_location_y()[9]); }
        assert(crate::keys::k_location_x() != crate::keys::k_color()) by { assert(crate::keys::k_location_x().len() != crate::keys::k_color().len()); }
        assert(crate::keys::k_location_x() != crate::keys::k_font_id()) by { assert(crate::keys::k_location_x().len() != crate::keys::k_font_id().len()); }
        assert(crate::keys::k_location_x() != crate::keys::k_unique_id()) by { assert(crate::keys::k_location_x().len() != crate::keys::k_unique_id().len()); }
        assert(crate::keys::k_location_x() != crate::keys::k_name()) by { assert(crate::keys::k_location_x().len() != crate::keys::k_name().len()); }
        assert(crate::keys::k_location_x() != crate::keys::k_index_in_sheet()) by { assert(crate::keys::k_location_x().len() != crate::keys::k_index_in_sheet().len()); }
        assert(crate::keys::k_location_x() != crate::keys::k_text()) by { assert(crate::keys::k_location_x().len() != crate::keys::k_text().len()); }
        assert(crate::keys::k_location_x() != crate::keys::k_read_only_state()) by { assert(crate::keys::k_location_x().len() != crate::keys::k_read_only_state().len()); }
        assert(crate::keys::k_location_x() != utf8_twin(crate::keys::k_name())) by { assert(crate::keys::k_location_x()[0] != utf8_twin(crate::keys::k_name())[0]); }
        assert(crate::keys::k_location_x() != utf8_twin(crate::keys::k_text())) by { assert(crate::keys::k_location_x()[0] != utf8_twin(crate::keys::k_text())[0]); }
        assert(crate::keys::k_location_y() != crate::keys::k_color()) by { assert(crate::keys::k_location_y().len() != crate::keys::k_color().len()); }
        assert(crate::keys::k_location_y() != crate::keys::k_font_id()) by { assert(crate::keys::k_location_y().len() != crate::keys::k_font_id().len()); }
        assert(crate::keys::k_location_y() != crate::keys::k_unique_id()) by { assert(crate::keys::k_location_y().len() != crate::keys::k_unique_id().len()); }
        assert(crate::keys::k_location_y() != crate::keys::k_name()) by { assert(crate::keys::k_location_y().len() != crate::keys::k_name().len()); }
        assert(crate::keys::k_location_y() != crate::keys::k_index_in_sheet()) by { assert(crate::keys::k_location_y().len() != crate::keys::k_index_in_sheet().len()); }
        assert(crate::keys::k_location_y() != crate::keys::k_text()) by { assert(crate::keys::k_location_y().len() != crate::keys::k_text().len()); }
        assert(crate::keys::k_location_y() != crate::keys::k_read_only_state()) by { assert(crate::keys::k_location_y().len() != crate::keys::k_read_only_state().len()); }
        assert(crate::keys::k_location_y() != utf8_twin(crate::keys::k_name())) by { assert(crate::keys::k_location_y()[0] != utf8_twin(crate::keys::k_name())[0]); }
        assert(crate::keys::k_location_y() != utf8_twin(crate::keys::k_text())) by { assert(crate::keys::k_location_y()[0] != utf8_twin(crate::keys::k_text())[0]); }
        assert(crate::keys::k_color() != crate::keys::k_font_id()) by { assert(crate::keys::k_color().len() != crate::keys::k_font_id().len()); }
        assert(crate::keys::k_color() != crate::keys::k_unique_id()) by { assert(crate::keys::k_color().len() != crate::keys::k_unique_id().len()); }
        assert(crate::keys::k_color() != crate::keys::k_name()) by { assert(crate::keys::k_color().len() != crate::keys::k_name().len()); }
        assert(crate::keys::k_color() != crate::keys::k_index_in_sheet()) by { assert(crate::keys::k_color().len() != crate::keys::k_index_in_sheet().len()); }
        assert(crate::keys::k_color() != crate::keys::k_text()) by { assert(crate::keys::k_color().len() != crate::keys::k_text().len()); }
        assert(crate::keys::k_color() != crate::keys::k_read_only_state()) by { assert(crate::keys::k_color().len() != crate::keys::k_read_only_state().len()); }
        assert(crate::keys::k_color() != utf8_twin(crate::keys::k_name())) by { assert(crate::keys::k_color().len() != utf8_twin(crate::keys::k_name()).len()); }
        assert(crate::keys::k_color() != utf8_twin(crate::keys::k_text())) by { assert(crate::keys::k_color().len() != utf8_twin(crate::keys::k_text()).len()); }
        assert(crate::keys::k_font_id() != crate::keys::k_unique_id()) by { assert(crate::keys::k_font_id().len() != crate::keys::k_unique_id().len()); }
        assert(crate::keys::k_font_id() != crate::keys::k_name()) by { assert(crate::keys::k_font_id().len() != crate::keys::k_name().len()); }
        assert(crate::keys::k_font_id() != crate::keys::k_index_in_sheet()) by { assert(crate::keys::k_font_id().len() != crate::keys::k_index_in_sheet().len()); }
        assert(crate::keys::k_font_id() != crate::keys::k_text()) by { assert(crate::keys::k_font_id().len() != crate::keys::k_text().len()); }
        assert(crate::keys::k_font_id() != crate::keys::k_read_only_state()) by { assert(crate::keys::k_font_id().len() != crate::keys::k_read_only_state().len()); }
        assert(crate::keys::k_font_id() != utf8_twin(crate::keys::k_name())) by { assert(crate::keys::k_font_id().len() != utf8_twin(crate::keys::k_name()).len()); }
        assert(crate::keys::k_font_id() != utf8_twin(crate::keys::k_text())) by { assert(crate::keys::k_font_id().len() != utf8_twin(crate::keys::k_text()).len()); }
        assert(crate::keys::k_unique_id() != crate::keys::k_name()) by { assert(crate::keys::k_unique_id().len() != crate::keys::k_name().len()); }
        assert(crate::keys::k_unique_id() != crate::keys::k_index_in_sheet()) by { assert(crate::keys::k_unique_id().len() != crate::keys::k_index_in_sheet().len()); }
        assert(crate::keys::k_unique_id() != crate::keys::k_text()) by { assert(crate::keys::k_unique_id().len() != crate::keys::k_text().len()); }
        assert(crate::keys::k_unique_id() != crate::keys::k_read_only_state()) by { assert(crate::keys::k_unique_id().len() != crate::keys::k_read_only_state().len()); }
        assert(crate::keys::k_unique_id() != utf8_twin(crate::keys::k_name())) by { assert(crate::keys::k_unique_id().len() != utf8_twin(crate::keys::k_name()).len()); }
        assert(crate::keys::k_unique_id() != utf8_twin(crate::keys::k_text())) by { assert(crate::keys::k_unique_id().len() != utf8_twin(crate::keys::k_text()).len()); }
        assert(crate::keys::k_name() != crate::keys::k_index_in_sheet()) by { assert(crate::keys::k_name().len() != crate::keys::k_index_in_sheet().len()); }
        assert(crate::keys::k_name() != crate::keys::k_text()) by { assert(crate::keys::k_name()[0] != crate::keys::k_text()[0]); }
        assert(crate::keys::k_name() != crate::keys::k_read_only_state()) by { assert(crate::keys::k_name().len() != crate::keys::k_read_only_state().len()); }
        assert(crate::keys::k_name() != utf8_twin(crate::keys::k_name())) by { assert(crate::keys::k_name().len() != utf8_twin(crate::keys::k_name()).len()); }
        assert(crate::keys::k_name() != utf8_twin(crate::keys::k_text())) by { assert(crate::keys::k_name().len() != utf8_twin(crate::keys::k_text()).len()); }
        assert(crate::keys::k_index_in_sheet() != crate::keys::k_text()) by { assert(crate::keys::k_index_in_sheet().len() != crate::keys::k_text().len()); }
        assert(crate::keys::k_index_in_sheet() != crate::keys::k_read_only_state()) by { assert(crate::keys::k_index_in_sheet().len() != crate::keys::k_read_only_state().len()); }
        assert(crate::keys::k_index_in_sheet() != utf8_twin(crate::keys::k_name())) by { assert(crate::keys::k_index_in_sheet().len() != utf8_twin(crate::keys::k_name()).len()); }
        assert(crate::keys::k_index_in_sheet() != utf8_twin(crate::keys::k_text())) by { assert(crate::keys::k_index_in_sheet().len() != utf8_twin(crate::keys::k_text()).len()); }
        assert(crate::keys::k_text() != crate::keys::k_read_only_state()) by { assert(crate::keys::k_text().len() != crate::keys::k_read_only_state().len()); }
        assert(crate::keys::k_text() != utf8_twin(crate::keys::k_name())) by { assert(crate::keys::k_text().len() != utf8_twin(crate::keys::k_name()).len()); }
        assert(crate::keys::k_text() != utf8_twin(crate::keys::k_text())) by { assert(crate::keys::k_text().len() != utf8_twin(crate::keys::k_text()).len()); }
        assert(crate::keys::k_read_only_state() != utf8_twin(crate::keys::k_name())) by { assert(crate::keys::k_read_only_state().len() != utf8_twin(crate::keys::k_name()).len()); }
        assert(crate::keys::k_read_only_state() != utf8_twin(crate::keys::k_text())) by { assert(crate::keys::k_read_only_state().len() != utf8_twin(crate::keys::k_text()).len()); }
        assert(utf8_twin(crate::keys::k_name()) != utf8_twin(crate::keys::k_text())) by { assert(utf8_twin(crate::keys::k_name())[6] != utf8_twin(crate::keys::k_text())[6]); }
    }
        let mut x = Designator {
        owner_index: 0,
        owner_part_id: 0,
        location: Location { x: 0, y: 0 },
        color: Rgb { r: 0, g: 0, b: 0 },
        font_id: 0,
        unique_id: UniqueId::Simple([0x30u8, 0x30u8, 0x30u8, 0x30u8, 0x30u8, 0x30u8, 0x30u8, 0x30u8]),
        name: String::new(),
        index_in_sheet: 0,
        text: String::new(),
        read_only_state: ReadOnlyState::ReadWrite,
        };
    let mut seen_name: bool = false;
    let mut seen_text: bool = false;
        let n = pairs.len();
        let mut i: usize = 0;
        while i < n
            invariant
                0 <= i <= n,
                n == pairs@.len(),
                !Designator::spec_fails(p.take(i as int)),
                Designator::spec_matches(x, p.take(i as int)),
            seen_name == has_key(p.take(i as int), utf8_twin(crate::keys::k_name())),
            seen_text == has_key(p.take(i as int), utf8_twin(crate::keys::k_text())),
                counter.count == sat_add(old(counter).count, Designator::spec_unknown(p.take(i as int))),
                0 <= Designator::spec_unknown(p.take(i as int)) <= i,
            decreases n - i,
        {
            let key: &[u8] = pairs[i].0.as_slice();
            let val: &[u8] = pairs[i].1.as_slice();
            proof {
                assert(p[i as int] == (pairs@[i as int].0@, pairs@[i as int].1@));
                assert(p.take(i as int + 1).drop_last() =~= p.take(i as int));
                assert(p.take(i as int + 1).last() == p[i as int]);
                assert forall|j: int| 0 <= j <= i implies #[trigger] p.take(i as int + 1).take(j)
                    == p.take(j) by {
                    assert(p.take(i as int + 1).take(j) =~= p.take(j));
                }
                assert forall|j: int| 0 <= j <= i implies #[trigger] p.take(i as int).take(j)
                    == p.take(j) by {
                    assert(p.take(i as int).take(j) =~= p.take(j));
                }
            }
        if crate::common::bytes_eq(key, a_owner_index.as_slice()) {
                    match crate::parse::parse_u8(val) {
                        Ok(v) => { x.owner_index = v; },
                        Err(e) => {
                            proof {
                                assert(p[i as int].0 == crate::keys::k_owner_index());
                                assert(kind_field_fails(p, FieldKind::U8, crate::keys::k_owner_index()));
                            }
                            return Err(e);
                        },
                    }
                }
        else if crate::common::bytes_eq(key, a_owner_part_id.as_slice()) {
                    match crate::parse::parse_i8(val) {
                        Ok(v) => { x.owner_part_id = v; },
                        Err(e) => {
                            proof {
                                assert(p[i as int].0 == crate::keys::k_owner_part_id());
                                assert(kind_field_fails(p, FieldKind::I8, crate::keys::k_owner_part_id()));
                            }
                            return Err(e);
                        },
                    }
                }
        else if crate::common::bytes_eq(key, a_location_x.as_slice()) {
                    match crate::parse::parse_i32(val) {
                        Ok(v) => { x.location.x = v; },
                        Err(e) => {
                            proof {
                                assert(p[i as int].0 == crate::keys::k_location_x());
                                assert(kind_field_fails(p, FieldKind::I32, crate::keys::k_location_x()));
                            }
                            return Err(e);
                        },
                    }
                }
        else if crate::common::bytes_eq(key, a_location_y.as_slice()) {
                    match crate::parse::parse_i32(val) {
                        Ok(v) => { x.location.y = v; },
                        Err(e) => {
                            proof {
                                assert(p[i as int].0 == crate::keys::k_location_y());
                                assert(kind_field_fails(p, FieldKind::I32, crate::keys::k_location_y()));
                            }
                            return Err(e);
                        },
                    }
                }
        else if crate::common::bytes_eq(key, a_color.as_slice()) {
                    match Rgb::from_utf8(val) {
                        Ok(v) => { x.color = v; },
                        Err(e) => {
                            proof {
                                assert(p[i as int].0 == crate::keys::k_color());
                                assert(kind_field_fails(p, FieldKind::Color, crate::keys::k_color()));
                            }
                            return Err(e);
                        },
                    }
                }
        else if crate::common::bytes_eq(key, a_font_id.as_slice()) {
                    match crate::parse::parse_u16(val) {
                        Ok(v) => { x.font_id = v; },
                        Err(e) => {
                            proof {
                                assert(p[i as int].0 == crate::keys::k_font_id());
                                assert(kind_field_fails(p, FieldKind::U16, crate::keys::k_font_id()));
                            }
                            return Err(e);
                        },
                    }
                }
        else if crate::common::bytes_eq(key, a_unique_id.as_slice()) {
                    match UniqueId::from_utf8(val) {
                        Ok(v) => { x.unique_id = v; },
                        Err(e) => {
                            proof {
                                assert(p[i as int].0 == crate::keys::k_unique_id());
                                assert(kind_field_fails(p, FieldKind::Uid, crate::keys::k_unique_id()));
                            }
                            return Err(e);
                        },
                    }
                }
        else if crate::common::bytes_eq(key, t_name.as_slice()) {
                    match crate::common::str_from_utf8(val) {
                        Ok(s) => { x.name = s; seen_name = true; },
                        Err(e) => {
                            proof {
                                assert(p[i as int].0 == utf8_twin(crate::keys::k_name()));
                                assert(str_field_fails(p, crate::keys::k_name()));
                            }
                            return Err(e);
                        },
                    }
                } else if crate::common::bytes_eq(key, a_name.as_slice()) {
                    if !seen_name {
                        match crate::common::str_from_utf8(val) {
                            Ok(s) => { x.name = s; },
                            Err(e) => {
                                proof {
                                    assert(p[i as int].0 == crate::keys::k_name());
                                    assert(!has_key(p.take(i as int), utf8_twin(crate::keys::k_name())));
                                    assert(str_field_fails(p, crate::keys::k_name()));
                                }
                                return Err(e);
                            },
                        }
                    }
                }
        else if crate::common::bytes_eq(key, a_index_in_sheet.as_slice()) {
                    match crate::parse::parse_i16(val) {
                        Ok(v) => { x.index_in_sheet = v; },
                        Err(e) => {
                            proof {
                                assert(p[i as int].0 == crate::keys::k_index_in_sheet());
                                assert(kind_field_fails(p, FieldKind::I16, crate::keys::k_index_in_sheet()));
                            }
                            return Err(e);
                        },
                    }
                }
        else if crate::common::bytes_eq(key, t_text.as_slice()) {
                    match crate::common::str_from_utf8(val) {
                        Ok(s) => { x.text = s; seen_text = true; },
                        Err(e) => {
                            proof {
                                assert(p[i as int].0 == utf8_twin(crate::keys::k_text()));
                                assert(str_field_fails(p, crate::keys::k_text()));
                            }
                            return Err(e);
                        },
                    }
                } else if crate::common::bytes_eq(key, a_text.as_slice()) {
                    if !seen_text {
                        match crate::common::str_from_utf8(val) {
                            Ok(s) => { x.text = s; },
                            Err(e) => {
                                proof {
                                    assert(p[i as int].0 == crate::keys::k_text());
                                    assert(!has_key(p.take(i as int), utf8_twin(crate::keys::k_text())));
                                    assert(str_field_fails(p, crate::keys::k_text()));
                                }
                                return Err(e);
                            },
                        }
                    }
                }
        else if crate::common::bytes_eq(key, a_read_only_state.as_slice()) {
                    match crate::parse::parse_u8(val) {
                        Ok(n) => match ReadOnlyState::try_from(n) {
                            Ok(v) => { x.read_only_state = v; },
                            Err(e) => {
                                proof {
                                    assert(p[i as int].0 == crate::keys::k_read_only_state());
                                    assert(kind_field_fails(p, FieldKind::Ros, crate::keys::k_read_only_state()));
                                }
                                return Err(e);
                            },
                        },
                        Err(e) => {
                            proof {
                                assert(p[i as int].0 == crate::keys::k_read_only_state());
                                assert(kind_field_fails(p, FieldKind::Ros, crate::keys::k_read_only_state()));
                            }
                            return Err(e);
                        },
                    }
                }
        else {
            crate::logging::macro_unsupported_key(counter, "Designator", key, val);
        }
            i += 1;
        }
        proof {
            assert(p.take(n as int) =~= p);
        }
        Ok(x)
    }
}

impl BusEntry {
    /// The wire record ID of this kind.
    pub open spec fn spec_record_id() -> u32 {
        37
    }

    /// Whether the binder recognizes this wire key.
    pub open spec fn spec_known_key(k: Seq<u8>) -> bool {
        ||| k == crate::keys::k_owner_index()
        ||| k == crate::keys::k_owner_part_id()
    }

    /// How many pairs hold keys the binder does not recognize.
    pub open spec fn spec_unknown(p: SpecPairs) -> int
        decreases p.len(),
    {
        if p.len() == 0 {
            0
        } else {
            Self::spec_unknown(p.drop_last()) + if Self::spec_known_key(p.last().0) {
                0int
            } else {
                1int
            }
        }
    }

    /// Whether some pair's value is one its field's parser rejects.
    pub open spec fn spec_fails(p: SpecPairs) -> bool {
        ||| kind_field_fails(p, FieldKind::U8, crate::keys::k_owner_index())
        ||| kind_field_fails(p, FieldKind::I8, crate::keys::k_owner_part_id())
    }

    /// Each field as the walk of the pairs leaves it.
    pub open spec fn spec_matches(x: BusEntry, p: SpecPairs) -> bool {
        &&& x.owner_index == u8_field(p, crate::keys::k_owner_index())
        &&& x.owner_part_id == i8_field(p, crate::keys::k_owner_part_id())
    }

    /// Bind the fields of one `BusEntry` record from its key-value pairs.
    #[verifier::loop_isolation(false)]
    #[verifier::rlimit(100)]
    pub fn from_record(pairs: &[(Vec<u8>, Vec<u8>)], counter: &mut UnsupportedCounter) -> (r:
        Result<BusEntry, ErrorKind>)
        ensures
            r is Ok <==> !BusEntry::spec_fails(pairs_view(pairs@)),
            r is Ok ==> BusEntry::spec_matches(r->Ok_0, pairs_view(pairs@)),
            r is Ok ==> final(counter).count == sat_add(
                old(counter).count,
                BusEntry::spec_unknown(pairs_view(pairs@)),
            ),
            final(counter).count >= old(counter).count,
    {
        let ghost p = pairs_view(pairs@);
        proof {
            crate::common::lemma_pairs_view(pairs@);
            assert(p.take(0) =~= Seq::<(Seq<u8>, Seq<u8>)>::empty());
        }
    let a_owner_index: [u8; 10] = [0x4fu8, 0x77u8, 0x6eu8, 0x65u8, 0x72u8, 0x49u8, 0x6eu8, 0x64u8, 0x65u8, 0x78u8];
    let a_owner_part_id: [u8; 11] = [0x4fu8, 0x77u8, 0x6eu8, 0x65u8, 0x72u8, 0x50u8, 0x61u8, 0x72u8, 0x74u8, 0x49u8, 0x64u8];
    proof {
        assert(a_owner_index@ =~= crate::keys::k_owner_index());
        assert(a_owner_part_id@ =~= crate::keys::k_owner_part_id());
        assert(crate::keys::k_owner_index() != crate::keys::k_owner_part_id()) by { assert(crate::keys::k_owner_index().len() != crate::keys::k_owner_part_id().len()); }
    }
        let mut x = BusEntry {
        owner_index: 0,
        owner_part_id: 0,
        };

        let n = pairs.len();
        let mut i: usize = 0;
        while i < n
            invariant
                0 <= i <= n,
                n == pairs@.len(),
                !BusEntry::spec_fails(p.take(i as int)),
                BusEntry::spec_matches(x, p.take(i as int)),

                counter.count == sat_add(old(counter).count, BusEntry::spec_unknown(p.take(i as int))),
                0 <= BusEntry::spec_unknown(p.take(i as int)) <= i,
            decreases n - i,
        {
            let key: &[u8] = pairs[i].0.as_slice();
            let val: &[u8] = pairs[i].1.as_slice();
            proof {
                assert(p[i as int] == (pairs@[i as int].0@, pairs@[i as int].1@));
                assert(p.take(i as int + 1).drop_last() =~= p.take(i as int));
                assert(p.take(i as int + 1).last() == p[i as int]);
                assert forall|j: int| 0 <= j <= i implies #[trigger] p.take(i as int + 1).take(j)
                    == p.take(j) by {
                    assert(p.take(i as int + 1).take(j) =~= p.take(j));
                }
                assert forall|j: int| 0 <= j <= i implies #[trigger] p.take(i as int).take(j)
                    == p.take(j) by {
                    assert(p.take(i as int).take(j) =~= p.take(j));
                }
            }
        if crate::common::bytes_eq(key, a_owner_index.as_slice()) {
                    match crate::parse::parse_u8(val) {
                        Ok(v) => { x.owner_index = v; },
                        Err(e) => {
                            proof {
                                assert(p[i as int].0 == crate::keys::k_owner_index());
                                assert(kind_field_fails(p, FieldKind::U8, crate::keys::k_owner_index()));
                            }
                            return Err(e);
                        },
                    }
                }
        else if crate::common::bytes_eq(key, a_owner_part_id.as_slice()) {
                    match crate::parse::parse_i8(val) {
                        Ok(v) => { x.owner_part_id = v; },
                        Err(e) => {
                            proof {
                                assert(p[i as int].0 == crate::keys::k_owner_part_id());
                                assert(kind_field_fails(p, FieldKind::I8, crate::keys::k_owner_part_id()));
                            }
                            return Err(e);
                        },
                    }
                }
        else {
            crate::logging::macro_unsupported_key(counter, "BusEntry", key, val);
        }
            i += 1;
        }
        proof {
            assert(p.take(n as int) =~= p);
        }
        Ok(x)
    }
}

impl Template {
    /// The wire record ID of this kind.
    pub open spec fn spec_record_id() -> u32 {
        39
    }

    /// Whether the binder recognizes this wire key.
    pub open spec fn spec_known_key(k: Seq<u8>) -> bool {
        ||| k == crate::keys::k_owner_index()
        ||| k == crate::keys::k_owner_part_id()
        ||| k == crate::keys::k_is_not_accesible()
        ||| k == crate::keys::k_file_name()
        ||| k == utf8_twin(crate::keys::k_file_name())
    }

    /// How many pairs hold keys the binder does not recognize.
    pub open spec fn spec_unknown(p: SpecPairs) -> int
        decreases p.len(),
    {
        if p.len() == 0 {
            0
        } else {
            Self::spec_unknown(p.drop_last()) + if Self::spec_known_key(p.last().0) {
                0int
            } else {
                1int
            }
        }
    }

    /// Whether some pair's value is one its field's parser rejects.
    pub open spec fn spec_fails(p: SpecPairs) -> bool {
        ||| kind_field_fails(p, FieldKind::U8, crate::keys::k_owner_index())
        ||| kind_field_fails(p, FieldKind::I8, crate::keys::k_owner_part_id())
        ||| kind_field_fails(p, FieldKind::Bool, crate::keys::k_is_not_accesible())
        ||| str_field_fails(p, crate::keys::k_file_name())
    }

    /// Each field as the walk of the pairs leaves it.
    pub open spec fn spec_matches(x: Template, p: SpecPairs) -> bool {
        &&& x.owner_index == u8_field(p, crate::keys::k_owner_index())
        &&& x.owner_part_id == i8_field(p, crate::keys::k_owner_part_id())
        &&& x.is_not_accessible == bool_field(p, crate::keys::k_is_not_accesible())
        &&& x.file_name@ == str_field(p, crate::keys::k_file_name())
    }

    /// Bind the fields of one `Template` record from its key-value pairs.
    #[verifier::loop_isolation(false)]
    #[verifier::rlimit(100)]
    pub fn from_record(pairs: &[(Vec<u8>, Vec<u8>)], counter: &mut UnsupportedCounter) -> (r:
        Result<Template, ErrorKind>)
        ensures
            r is Ok <==> !Template::spec_fails(pairs_view(pairs@)),
            r is Ok ==> Template::spec_matches(r->Ok_0, pairs_view(pairs@)),
            r is Ok ==> final(counter).count == sat_add(
                old(counter).count,
                Template::spec_unknown(pairs_view(pairs@)),
            ),
            final(counter).count >= old(counter).count,
    {
        let ghost p = pairs_view(pairs@);
        proof {
            crate::common::lemma_pairs_view(pairs@);
            assert(p.take(0) =~= Seq::<(Seq<u8>, Seq<u8>)>::empty());
        }
    let a_owner_index: [u8; 10] = [0x4fu8, 0x77u8, 0x6eu8, 0x65u8, 0x72u8, 0x49u8, 0x6eu8, 0x64u8, 0x65u8, 0x78u8];
    let a_owner_part_id: [u8; 11] = [0x4fu8, 0x77u8, 0x6eu8, 0x65u8, 0x72u8, 0x50u8, 0x61u8, 0x72u8, 0x74u8, 0x49u8, 0x64u8];
    let a_is_not_accesible: [u8; 14] = [0x49u8, 0x73u8, 0x4eu8, 0x6fu8, 0x74u8, 0x41u8, 0x63u8, 0x63u8, 0x65u8, 0x73u8, 0x69u8, 0x62u8, 0x6cu8, 0x65u8];
    let a_file_name: [u8; 8] = [0x46u8, 0x69u8, 0x6cu8, 0x65u8, 0x4eu8, 0x61u8, 0x6du8, 0x65u8];
    let t_file_name: [u8; 14] = [0x25u8, 0x55u8, 0x54u8, 0x46u8, 0x38u8, 0x25u8, 0x46u8, 0x69u8, 0x6cu8, 0x65u8, 0x4eu8, 0x61u8, 0x6du8, 0x65u8];
    proof {
        assert(a_owner_index@ =~= crate::keys::k_owner_index());
        assert(a_owner_part_id@ =~= crate::keys::k_owner_part_id());
        assert(a_is_not_accesible@ =~= crate::keys::k_is_not_accesible());
        assert(a_file_name@ =~= crate::keys::k_file_name());
        assert(t_file_name@ =~= utf8_twin(crate::keys::k_file_name()));
        assert(crate::keys::k_owner_index() != crate::keys::k_owner_part_id()) by { assert(crate::keys::k_owner_index().len() != crate::keys::k_owner_part_id().len()); }
        assert(crate::keys::k_owner_index() != crate::keys::k_is_not_accesible()) by { assert(crate::keys::k_owner_index().len() != crate::keys::k_is_not_accesible().len()); }
        assert(crate::keys::k_owner_index() != crate::keys::k_file_name()) by { assert(crate::keys::k_owner_index().len() != crate::keys::k_file_name().len()); }
        assert(crate::keys::k_owner_index() != utf8_twin(crate::keys::k_file_name())) by { assert(crate::keys::k_owner_index().len() != utf8_twin(crate::keys::k_file_name()).len()); }
        assert(crate::keys::k_owner_part_id() != crate::keys::k_is_not_accesible()) by { assert(crate::keys::k_owner_part_id().len() != crate::keys::k_is_not_accesible().len()); }
        assert(crate::keys::k_owner_part_id() != crate::keys::k_file_name()) by { assert(crate::keys::k_owner_part_id().len() != crate::keys::k_file_name().len()); }
        assert(crate::keys::k_owner_part_id() != utf8_twin(crate::keys::k_file_name())) by { assert(crate::keys::k_owner_part_id().len() != utf8_twin(crate::keys::k_file_name()).len()); }
        assert(crate::keys::k_is_not_accesible() != crate::keys::k_file_name()) by { assert(crate::keys::k_is_not_accesible().len() != crate::keys::k_file_name().len()); }
        assert(crate::keys::k_is_not_accesible() != utf8_twin(crate::keys::k_file_name())) by { assert(crate::keys::k_is_not_accesible()[0] != utf8_twin(crate::keys::k_file_name())[0]); }
        assert(crate::keys::k_file_name() != utf8_twin(crate::keys::k_file_name())) by { assert(crate::keys::k_file_name().len() != utf8_twin(crate::keys::k_file_name()).len()); }
    }
        let mut x = Template {
        owner_index: 0,
        owner_part_id: 0,
        is_not_accessible: false,
        file_name: String::new(),
        };
    let mut seen_file_name: bool = false;
        let n = pairs.len();
        let mut i: usize = 0;
        while i < n
            invariant
                0 <= i <= n,
                n == pairs@.len(),
                !Template::spec_fails(p.take(i as int)),
                Template::spec_matches(x, p.take(i as int)),
            seen_file_name == has_key(p.take(i as int), utf8_twin(crate::keys::k_file_name())),
                counter.count == sat_add(old(counter).count, Template::spec_unknown(p.take(i as int))),
                0 <= Template::spec_unknown(p.take(i as int)) <= i,
            decreases n - i,
        {
            let key: &[u8] = pairs[i].0.as_slice();
            let val: &[u8] = pairs[i].1.as_slice();
            proof {
                assert(p[i as int] == (pairs@[i as int].0@, pairs@[i as int].1@));
                assert(p.take(i as int + 1).drop_last() =~= p.take(i as int));
                assert(p.take(i as int + 1).last() == p[i as int]);
                assert forall|j: int| 0 <= j <= i implies #[trigger] p.take(i as int + 1).take(j)
                    == p.take(j) by {
                    assert(p.take(i as int + 1).take(j) =~= p.take(j));
                }
                assert forall|j: int| 0 <= j <= i implies #[trigger] p.take(i as int).take(j)
                    == p.take(j) by {
                    assert(p.take(i as int).take(j) =~= p.take(j));
                }
            }
        if crate::common::bytes_eq(key, a_owner_index.as_slice()) {
                    match crate::parse::parse_u8(val) {
                        Ok(v) => { x.owner_index = v; },
                        Err(e) => {
                            proof {
                                assert(p[i as int].0 == crate::keys::k_owner_index());
                                assert(kind_field_fails(p, FieldKind::U8, crate::keys::k_owner_index()));
                            }
                            return Err(e);
                        },
                    }
                }
        else if crate::common::bytes_eq(key, a_owner_part_id.as_slice()) {
                    match crate::parse::parse_i8(val) {
                        Ok(v) => { x.owner_part_id = v; },
                        Err(e) => {
                            proof {
                                assert(p[i as int].0 == crate::keys::k_owner_part_id());
                                assert(kind_field_fails(p, FieldKind::I8, crate::keys::k_owner_part_id()));
                            }
                            return Err(e);
                        },
                    }
                }
        else if crate::common::bytes_eq(key, a_is_not_accesible.as_slice()) {
                    match crate::parse::parse_bool(val) {
                        Ok(v) => { x.is_not_accessible = v; },
                        Err(e) => {
                            proof {
                                assert(p[i as int].0 == crate::keys::k_is_not_accesible());
                                assert(kind_field_fails(p, FieldKind::Bool, crate::keys::k_is_not_accesible()));
                            }
                            return Err(e);
                        },
                    }
                }
        else if crate::common::bytes_eq(key, t_file_name.as_slice()) {
                    match crate::common::str_from_utf8(val) {
                        Ok(s) => { x.file_name = s; seen_file_name = true; },
                        Err(e) => {
                            proof {
                                assert(p[i as int].0 == utf8_twin(crate::keys::k_file_name()));
                                assert(str_field_fails(p, crate::keys::k_file_name()));
                            }
                            return Err(e);
                        },
                    }
                } else if crate::common::bytes_eq(key, a_file_name.as_slice()) {
                    if !seen_file_name {
                        match crate::common::str_from_utf8(val) {
                            Ok(s) => { x.file_name = s; },
                            Err(e) => {
                                proof {
                                    assert(p[i as int].0 == crate::keys::k_file_name());
                                    assert(!has_key(p.take(i as int), utf8_twin(crate::keys::k_file_name())));
                                    assert(str_field_fails(p, crate::keys::k_file_name()));
                                }
                                return Err(e);
                            },
                        }
                    }
                }
        else {
            crate::logging::macro_unsupported_key(counter, "Template", key, val);
        }
            i += 1;
        }
        proof {
            assert(p.take(n as int) =~= p);
        }
        Ok(x)
    }
}

impl Parameter {
    /// The wire record ID of this kind.
    pub open spec fn spec_record_id() -> u32 {
        41
    }

    /// Whether the binder recognizes this wire key.
    pub open spec fn spec_known_key(k: Seq<u8>) -> bool {
        ||| k == crate::keys::k_owner_index()
        ||| k == crate::keys::k_owner_part_id()
        ||| k == crate::keys::k_location_x()
        ||| k == crate::keys::k_location_y()
        ||| k == crate::keys::k_index_in_sheet()
        ||| k == crate::keys::k_color()
        ||| k == crate::keys::k_font_id()
        ||| k == crate::keys::k_unique_id()
        ||| k == crate::keys::k_read_only_state()
        ||| k == crate::keys::k_name()
        ||| k == utf8_twin(crate::keys::k_name())
        ||| k == crate::keys::k_is_hidden()
        ||| k == crate::keys::k_text()
        ||| k == utf8_twin(crate::keys::k_text())
    }

    /// How many pairs hold keys the binder does not recognize.
    pub open spec fn spec_unknown(p: SpecPairs) -> int
        decreases p.len(),
    {
        if p.len() == 0 {
            0
        } else {
            Self::spec_unknown(p.drop_last()) + if Self::spec_known_key(p.last().0) {
                0int
            } else {
                1int
            }
        }
    }

    /// Whether some pair's value is one its field's parser rejects.
    pub open spec fn spec_fails(p: SpecPairs) -> bool {
        ||| kind_field_fails(p, FieldKind::U8, crate::keys::k_owner_index())
        ||| kind_field_fails(p, FieldKind::I8, crate::keys::k_owner_part_id())
        ||| kind_field_fails(p, FieldKind::I32, crate::keys::k_location_x())
        ||| kind_field_fails(p, FieldKind::I32, crate::keys::k_location_y())
        ||| kind_field_fails(p, FieldKind::I16, crate::keys::k_index_in_sheet())
        ||| kind_field_fails(p, FieldKind::Color, crate::keys::k_color())
        ||| kind_field_fails(p, FieldKind::U16, crate::keys::k_font_id())
        ||| kind_field_fails(p, FieldKind::Uid, crate::keys::k_unique_id())
        ||| kind_field_fails(p, FieldKind::I8, crate::keys::k_read_only_state())
        ||| str_field_fails(p, crate::keys::k_name())
        ||| kind_field_fails(p, FieldKind::Bool, crate::keys::k_is_hidden())
        ||| str_field_fails(p, crate::keys::k_text())
    }

    /// Each field as the walk of the pairs leaves it.
    pub open spec fn spec_matches(x: Parameter, p: SpecPairs) -> bool {
        &&& x.owner_index == u8_field(p, crate::keys::k_owner_index())
        &&& x.owner_part_id == i8_field(p, crate::keys::k_owner_part_id())
        &&& x.location == loc_field(p, crate::keys::k_location_x(), crate::keys::k_location_y())
        &&& x.index_in_sheet == i16_field(p, crate::keys::k_index_in_sheet())
        &&& x.color == color_field(p, crate::keys::k_color())
        &&& x.font_id == u16_field(p, crate::keys::k_font_id())
        &&& x.unique_id == uid_field(p, crate::keys::k_unique_id())
        &&& x.read_only_state == i8_field(p, crate::keys::k_read_only_state())
        &&& x.name@ == str_field(p, crate::keys::k_name())
        &&& x.is_hidden == bool_field(p, crate::keys::k_is_hidden())
        &&& x.text@ == str_field(p, crate::keys::k_text())
    }

    /// Bind the fields of one `Parameter` record from its key-value pairs.
    #[verifier::loop_isolation(false)]
    #[verifier::rlimit(100)]
    pub fn from_record(pairs: &[(Vec<u8>, Vec<u8>)], counter: &mut UnsupportedCounter) -> (r:
        Result<Parameter, ErrorKind>)
        ensures
            r is Ok <==> !Parameter::spec_fails(pairs_view(pairs@)),
            r is Ok ==> Parameter::spec_matches(r->Ok_0, pairs_view(pairs@)),
            r is Ok ==> final(counter).count == sat_add(
                old(counter).count,
                Parameter::spec_unknown(pairs_view(pairs@)),
            ),
            final(counter).count >= old(counter).count,
    {
        let ghost p = pairs_view(pairs@);
        proof {
            crate::common::lemma_pairs_view(pairs@);
            assert(p.take(0) =~= Seq::<(Seq<u8>, Seq<u8>)>::empty());
        }
    let a_owner_index: [u8; 10] = [0x4fu8, 0x77u8, 0x6eu8, 0x65u8, 0x72u8, 0x49u8, 0x6eu8, 0x64u8, 0x65u8, 0x78u8];
    let a_owner_part_id: [u8; 11] = [0x4fu8, 0x77u8, 0x6eu8, 0x65u8, 0x72u8, 0x50u8, 0x61u8, 0x72u8, 0x74u8, 0x49u8, 0x64u8];
    let a_location_x: [u8; 10] = [0x4cu8, 0x6fu8, 0x63u8, 0x61u8, 0x74u8, 0x69u8, 0x6fu8, 0x6eu8, 0x2eu8, 0x58u8];
    let a_location_y: [u8; 10] = [0x4cu8, 0x6fu8, 0x63u8, 0x61u8, 0x74u8, 0x69u8, 0x6fu8, 0x6eu8, 0x2eu8, 0x59u8];
    let a_index_in_sheet: [u8; 12] = [0x49u8, 0x6eu8, 0x64u8, 0x65u8, 0x78u8, 0x49u8, 0x6eu8, 0x53u8, 0x68u8, 0x65u8, 0x65u8, 0x74u8];
    let a_color: [u8; 5] = [0x43u8, 0x6fu8, 0x6cu8, 0x6fu8, 0x72u8];
    let a_font_id: [u8; 6] = [0x46u8, 0x6fu8, 0x6eu8, 0x74u8, 0x49u8, 0x44u8];
    let a_unique_id: [u8; 8] = [0x55u8, 0x6eu8, 0x69u8, 0x71u8, 0x75u8, 0x65u8, 0x49u8, 0x44u8];
    let a_read_only_state: [u8; 13] = [0x52u8, 0x65u8, 0x61u8, 0x64u8, 0x4fu8, 0x6eu8, 0x6cu8, 0x79u8, 0x53u8, 0x74u8, 0x61u8, 0x74u8, 0x65u8];
    let a_name: [u8; 4] = [0x4eu8, 0x61u8, 0x6du8, 0x65u8];
    let a_is_hidden: [u8; 8] = [0x49u8, 0x73u8, 0x48u8, 0x69u8, 0x64u8, 0x64u8, 0x65u8, 0x6eu8];
    let a_text: [u8; 4] = [0x54u8, 0x65u8, 0x78u8, 0x74u8];
    let t_name: [u8; 10] = [0x25u8, 0x55u8, 0x54u8, 0x46u8, 0x38u8, 0x25u8, 0x4eu8, 0x61u8, 0x6du8, 0x65u8];
    let t_text: [u8; 10] = [0x25u8, 0x55u8, 0x54u8, 0x46u8, 0x38u8, 0x25u8, 0x54u8, 0x65u8, 0x78u8, 0x74u8];
    proof {
        assert(a_owner_index@ =~= crate::keys::k_owner_index());
        assert(a_owner_part_id@ =~= crate::keys::k_owner_part_id());
        assert(a_location_x@ =~= crate::keys::k_location_x());
        assert(a_location_y@ =~= crate::keys::k_location_y());
        assert(a_index_in_sheet@ =~= crate::keys::k_index_in_sheet());
        assert(a_color@ =~= crate::keys::k_color());
        assert(a_font_id@ =~= crate::keys::k_font_id());
        assert(a_unique_id@ =~= crate::keys::k_unique_id());
        assert(a_read_only_state@ =~= crate::keys::k_read_only_state());
        assert(a_name@ =~= crate::keys::k_name());
        assert(a_is_hidden@ =~= crate::keys::k_is_hidden());
        assert(a_text@ =~= crate::keys::k_text());
        assert(t_name@ =~= utf8_twin(crate::keys::k_name()));
        assert(t_text@ =~= utf8_twin(crate::keys::k_text()));
        assert(crate::keys::k_owner_index() != crate::keys::k_owner_part_id()) by { assert(crate::keys::k_owner_index().len() != crate::keys::k_owner_part_id().len()); }
        assert(crate::keys::k_owner_index() != crate::keys::k_location_x()) by { assert(crate::keys::k_owner_index()[0] != crate::keys::k_location_x()[0]); }
        assert(crate::keys::k_owner_index() != crate::keys::k_location_y()) by { assert(crate::keys::k_owner_index()[0] != crate::keys::k_location_y()[0]); }
        assert(crate::keys::k_owner_index() != crate::keys::k_index_in_sheet()) by { assert(crate::keys::k_owner_index().len() != crate::keys::k_index_in_sheet().len()); }
        assert(crate::keys::k_owner_index() != crate::keys::k_color()) by { assert(crate::keys::k_owner_index().len() != crate::keys::k_color().len()); }
        assert(crate::keys::k_owner_index() != crate::keys::k_font_id()) by { assert(crate::keys::k_owner_index().len() != crate::keys::k_font_id().len()); }
        assert(crate::keys::k_owner_index() != crate::keys::k_unique_id()) by { assert(crate::keys::k_owner_index().len() != crate::keys::k_unique_id().len()); }
        assert(crate::keys::k_owner_index() != crate::keys::k_read_only_state()) by { assert(crate::keys::k_owner_index().len() != crate::keys::k_read_only_state().len()); }
        assert(crate::keys::k_owner_index() != crate::keys::k_name()) by { assert(crate::keys::k_owner_index().len() != crate::keys::k_name().len()); }
        assert(crate::keys::k_owner_index() != crate::keys::k_is_hidden()) by { assert(crate::keys::k_owner_index().len() != crate::keys::k_is_hidden().len()); }
        assert(crate::keys::k_owner_index() != crate::keys::k_text()) by { assert(crate::keys::k_owner_index().len() != crate::keys::k_text().len()); }
        assert(crate::keys::k_owner_index() != utf8_twin(crate::keys::k_name())) by { assert(crate::keys::k_owner_index()[0] != utf8_twin(crate::keys::k_name())[0]); }
        assert(crate::keys::k_owner_index() != utf8_twin(crate::keys::k_text())) by { assert(crate::keys::k_owner_index()[0] != utf8_twin(crate::keys::k_text())[0]); }
        assert(crate::keys::k_owner_part_id() != crate::keys::k_location_x()) by { assert(crate::keys::k_owner_part_id().len() != crate::keys::k_location_x().len()); }
        assert(crate::keys::k_owner_part_id() != crate::keys::k_location_y()) by { assert(crate::keys::k_owner_part_id().len() != crate::keys::k_location_y().len()); }
        assert(crate::keys::k_owner_part_id() != crate::keys::k_index_in_sheet()) by { assert(crate::keys::k_owner_part_id().len() != crate::keys::k_index_in_sheet().len()); }
        assert(crate::keys::k_owner_part_id() != crate::keys::k_color()) by { assert(crate::keys::k_owner_part_id().len() != crate::keys::k_color().len()); }
        assert(crate::keys::k_owner_part_id() != crate::keys::k_font_id()) by { assert(crate::keys::k_owner_part_id().len() != crate::keys::k_font_id().len()); }
        assert(crate::keys::k_owner_part_id() != crate::keys::k_unique_id()) by { assert(crate::keys::k_owner_part_id().len() != crate::keys::k_unique_id().len()); }
        assert(crate::keys::k_owner_part_id() != crate::keys::k_read_only_state()) by { assert(crate::keys::k_owner_part_id().len() != crate::keys::k_read_only_state().len()); }
        assert(crate::keys::k_owner_part_id() != crate::keys::k_name()) by { assert(crate::keys::k_owner_part_id().len() != crate::keys::k_name().len()); }
        assert(crate::keys::k_owner_part_id() != crate::keys::k_is_hidden()) by { assert(crate::keys::k_owner_part_id().len() != crate::keys::k_is_hidden().len()); }
        assert(crate::keys::k_owner_part_id() != crate::keys::k_text()) by { assert(crate::keys::k_owner_part_id().len() != crate::keys::k_text().len()); }
        assert(crate::keys::k_owner_part_id() != utf8_twin(crate::keys::k_name())) by { assert(crate::keys::k_owner_part_id().len() != utf8_twin(crate::keys::k_name()).len()); }
        assert(crate::keys::k_owner_part_id() != utf8_twin(crate::keys::k_text())) by { assert(crate::keys::k_owner_part_id().len() != utf8_twin(crate::keys::k_text()).len()); }
        assert(crate::keys::k_location_x() != crate::keys::k_location_y()) by { assert(crate::keys::k_location_x()[9] != crate::keys::k_location_y()[9]); }
        assert(crate::keys::k_location_x() != crate::keys::k_index_in_sheet()) by { assert(crate::keys::k_location_x().len() != crate::keys::k_index_in_sheet().len()); }
        assert(crate::keys::k_location_x() != crate::keys::k_color()) by { assert(crate::keys::k_location_x().len() != crate::keys::k_color().len()); }
        assert(crate::keys::k_location_x() != crate::keys::k_font_id()) by { assert(crate::keys::k_location_x().len() != crate::keys::k_font_id().len()); }
        assert(crate::keys::k_location_x() != crate::keys::k_unique_id()) by { assert(crate::keys::k_location_x().len() != crate::keys::k_unique_id().len()); }
        assert(crate::keys::k_location_x() != crate::keys::k_read_only_state()) by { assert(crate::keys::k_location_x().len() != crate::keys::k_read_only_state().len()); }
        assert(crate::keys::k_location_x() != crate::keys::k_name()) by { assert(crate::keys::k_location_x().len() != crate::keys::k_name().len()); }
        assert(crate::keys::k_location_x() != crate::keys::k_is_hidden()) by { assert(crate::keys::k_location_x().len() != crate::keys::k_is_hidden().len()); }
        assert(crate::keys::k_location_x() != crate::keys::k_text()) by { assert(crate::keys::k_location_x().len() != crate::keys::k_text().len()); }
        assert(crate::keys::k_location_x() != utf8_twin(crate::keys::k_name())) by { assert(crate::keys::k_location_x()[0] != utf8_twin(crate::keys::k_name())[0]); }
        assert(crate::keys::k_location_x() != utf8_twin(crate::keys::k_text())) by { assert(crate::keys::k_location_x()[0] != utf8_twin(crate::keys::k_text())[0]); }
        assert(crate::keys::k_location_y() != crate::keys::k_index_in_sheet()) by { assert(crate::keys::k_location_y().len() != crate::keys::k_index_in_sheet().len()); }
        assert(crate::keys::k_location_y() != crate::keys::k_color()) by { assert(crate::keys::k_location_y().len() != crate::keys::k_color().len()); }
        assert(crate::keys::k_location_y() != crate::keys::k_font_id()) by { assert(crate::keys::k_location_y().len() != crate::keys::k_font_id().len()); }
        assert(crate::keys::k_location_y() != crate::keys::k_unique_id()) by { assert(crate::keys::k_location_y().len() != crate::keys::k_unique_id().len()); }
        assert(crate::keys::k_location_y() != crate::keys::k_read_only_state()) by { assert(crate::keys::k_location_y().len() != crate::keys::k_read_only_state().len()); }
        assert(crate::keys::k_location_y() != crate::keys::k_name()) by { assert(crate::keys::k_location_y().len() != crate::keys::k_name().len()); }
        assert(crate::keys::k_location_y() != crate::keys::k_is_hidden()) by { assert(crate::keys::k_location_y().len() != crate::keys::k_is_hidden().len()); }
        assert(crate::keys::k_location_y() != crate::keys::k_text()) by { assert(crate::keys::k_location_y().len() != crate::keys::k_text().len()); }
        assert(crate::keys::k_location_y() != utf8_twin(crate::keys::k_name())) by { assert(crate::keys::k_location_y()[0] != utf8_twin(crate::keys::k_name())[0]); }
        assert(crate::keys::k_location_y() != utf8_twin(crate::keys::k_text())) by { assert(crate::keys::k_location_y()[0] != utf8_twin(crate::keys::k_text())[0]); }
        assert(crate::keys::k_index_in_sheet() != crate::keys::k_color()) by { assert(crate::keys::k_index_in_sheet().len() != crate::keys::k_color().len()); }
        assert(crate::keys::k_index_in_sheet() != crate::keys::k_font_id()) by { assert(crate::keys::k_index_in_sheet().len() != crate::keys::k_font_id().len()); }
        assert(crate::keys::k_index_in_sheet() != crate::keys::k_unique_id()) by { assert(crate::keys::k_index_in_sheet().len() != crate::keys::k_unique_id().len()); }
        assert(crate::keys::k_index_in_sheet() != crate::keys::k_read_only_state()) by { assert(crate::keys::k_index_in_sheet().len() != crate::keys::k_read_only_state().len()); }
        assert(crate::keys::k_index_in_sheet() != crate::keys::k_name()) by { assert(crate::keys::k_index_in_sheet().len() != crate::keys::k_name().len()); }
        assert(crate::keys::k_index_in_sheet() != crate::keys::k_is_hidden()) by { assert(crate::keys::k_index_in_sheet().len() != crate::keys::k_is_hidden().len()); }
        assert(crate::keys::k_index_in_sheet() != crate::keys::k_text()) by { assert(crate::keys::k_index_in_sheet().len() != crate::keys::k_text().len()); }
        assert(crate::keys::k_index_in_sheet() != utf8_twin(crate::keys::k_name())) by { assert(crate::keys::k_index_in_sheet().len() != utf8_twin(crate::keys::k_name()).len()); }
        assert(crate::keys::k_index_in_sheet() != utf8_twin(crate::keys::k_text())) by { assert(crate::keys::k_index_in_sheet().len() != utf8_twin(crate::keys::k_text()).len()); }
        assert(crate::keys::k_color() != crate::keys::k_font_id()) by { assert(crate::keys::k_color().len() != crate::keys::k_font_id().len()); }
        assert(crate::keys::k_color() != crate::keys::k_unique_id()) by { assert(crate::keys::k_color().len() != crate::keys::k_unique_id().len()); }
        assert(crate::keys::k_color() != crate::keys::k_read_only_state()) by { assert(crate::keys::k_color().len() != crate::keys::k_read_only_state().len()); }
        assert(crate::keys::k_color() != crate::keys::k_name()) by { assert(crate::keys::k_color().len() != crate::keys::k_name().len()); }
        assert(crate::keys::k_color() != crate::keys::k_is_hidden()) by { assert(crate::keys::k_color().len() != crate::keys::k_is_hidden().len()); }
        assert(crate::keys::k_color() != crate::keys::k_text()) by { assert(crate::keys::k_color().len() != crate::keys::k_text().len()); }
        assert(crate::keys::k_color() != utf8_twin(crate::keys::k_name())) by { assert(crate::keys::k_color().len() != utf8_twin(crate::keys::k_name()).len()); }
        assert(crate::keys::k_color() != utf8_twin(crate::keys::k_text())) by { assert(crate::keys::k_color().len() != utf8_twin(crate::keys::k_text()).len()); }
        assert(crate::keys::k_font_id() != crate::keys::k_unique_id()) by { assert(crate::keys::k_font_id().len() != crate::keys::k_unique_id().len()); }
        assert(crate::keys::k_font_id() != crate::keys::k_read_only_state()) by { assert(crate::keys::k_font_id().len() != crate::keys::k_read_only_state().len()); }
        assert(crate::keys::k_font_id() != crate::keys::k_name()) by { assert(crate::keys::k_font_id().len() != crate::keys::k_name().len()); }
        assert(crate::keys::k_font_id() != crate::keys::k_is_hidden()) by { assert(crate::keys::k_font_id().len() != crate::keys::k_is_hidden().len()); }
        assert(crate::keys::k_font_id() != crate::keys::k_text()) by { assert(crate::keys::k_font_id().len() != crate::keys::k_text().len()); }
        assert(crate::keys::k_font_id() != utf8_twin(crate::keys::k_name())) by { assert(crate::keys::k_font_id().len() != utf8_twin(crate::keys::k_name()).len()); }
        assert(crate::keys::k_font_id() != utf8_twin(crate::keys::k_text())) by { assert(crate::keys::k_font_id().len() != utf8_twin(crate::keys::k_text()).len()); }
        assert(crate::keys::k_unique_id() != crate::keys::k_read_only_state()) by { assert(crate::keys::k_unique_id().len() != crate::keys::k_read_only_state().len()); }
        assert(crate::keys::k_unique_id() != crate::keys::k_name()) by { assert(crate::keys::k_unique_id().len() != crate::keys::k_name().len()); }
        assert(crate::keys::k_unique_id() != crate::keys::k_is_hidden()) by { assert(crate::keys::k_unique_id()[0] != crate::keys::k_is_hidden()[0]); }
        assert(crate::keys::k_unique_id() != crate::keys::k_text()) by { assert(crate::keys::k_unique_id().len() != crate::keys::k_text().len()); }
        assert(crate::keys::k_unique_id() != utf8_twin(crate::keys::k_name())) by { assert(crate::keys::k_unique_id().len() != utf8_twin(crate::keys::k_name()).len()); }
        assert(crate::keys::k_unique_id() != utf8_twin(crate::keys::k_text())) by { assert(crate::keys::k_unique_id().len() != utf8_twin(crate::keys::k_text()).len()); }
        assert(crate::keys::k_read_only_state() != crate::keys::k_name()) by { assert(crate::keys::k_read_only_state().len() != crate::keys::k_name().len()); }
        assert(crate::keys::k_read_only_state() != crate::keys::k_is_hidden()) by { assert(crate::keys::k_read_only_state().len() != crate::keys::k_is_hidden().len()); }
        assert(crate::keys::k_read_only_state() != crate::keys::k_text()) by { assert(crate::keys::k_read_only_state().len() != crate::keys::k_text().len()); }
        assert(crate::keys::k_read_only_state() != utf8_twin(crate::keys::k_name())) by { assert(crate::keys::k_read_only_state().len() != utf8_twin(crate::keys::k_name()).len()); }
        assert(crate::keys::k_read_only_state() != utf8_twin(crate::keys::k_text())) by { assert(crate::keys::k_read_only_state().len() != utf8_twin(crate::keys::k_text()).len()); }
        assert(crate::keys::k_name() != crate::keys::k_is_hidden()) by { assert(crate::keys::k_name().len() != crate::keys::k_is_hidden().len()); }
        assert(crate::keys::k_name() != crate::keys::k_text()) by { assert(crate::keys::k_name()[0] != crate::keys::k_text()[0]); }
        assert(crate::keys::k_name() != utf8_twin(crate::keys::k_name())) by { assert(crate::keys::k_name().len() != utf8_twin(crate::keys::k_name()).len()); }
        assert(crate::keys::k_name() != utf8_twin(crate::keys::k_text())) by { assert(crate::keys::k_name().len() != utf8_twin(crate::keys::k_text()).len()); }
        assert(crate::keys::k_is_hidden() != crate::keys::k_text()) by { assert(crate::keys::k_is_hidden().len() != crate::keys::k_text().len()); }
        assert(crate::keys::k_is_hidden() != utf8_twin(crate::keys::k_name())) by { assert(crate::keys::k_is_hidden().len() != utf8_twin(crate::keys::k_name()).len()); }
        assert(crate::keys::k_is_hidden() != utf8_twin(crate::keys::k_text())) by { assert(crate::keys::k_is_hidden().len() != utf8_twin(crate::keys::k_text()).len()); }
        assert(crate::keys::k_text() != utf8_twin(crate::keys::k_name())) by { assert(crate::keys::k_text().len() != utf8_twin(crate::keys::k_name()).len()); }
        assert(crate::keys::k_text() != utf8_twin(crate::keys::k_text())) by { assert(crate::keys::k_text().len() != utf8_twin(crate::keys::k_text()).len()); }
        assert(utf8_twin(crate::keys::k_name()) != utf8_twin(crate::keys::k_text())) by { assert(utf8_twin(crate::keys::k_name())[6] != utf8_twin(crate::keys::k_text())[6]); }
    }
        let mut x = Parameter {
        owner_index: 0,
        owner_part_id: 0,
        location: Location { x: 0, y: 0 },
        index_in_sheet: 0,
        color: Rgb { r: 0, g: 0, b: 0 },
        font_id: 0,
        unique_id: UniqueId::Simple([0x30u8, 0x30u8, 0x30u8, 0x30u8, 0x30u8, 0x30u8, 0x30u8, 0x30u8]),
        read_only_state: 0,
        name: String::new(),
        is_hidden: false,
        text: String::new(),
        };
    let mut seen_name: bool = false;
    let mut seen_text: bool = false;
        let n = pairs.len();
        let mut i: usize = 0;
        while i < n
            invariant
                0 <= i <= n,
                n == pairs@.len(),
                !Parameter::spec_fails(p.take(i as int)),
                Parameter::spec_matches(x, p.take(i as int)),
            seen_name == has_key(p.take(i as int), utf8_twin(crate::keys::k_name())),
            seen_text == has_key(p.take(i as int), utf8_twin(crate::keys::k_text())),
                counter.count == sat_add(old(counter).count, Parameter::spec_unknown(p.take(i as int))),
                0 <= Parameter::spec_unknown(p.take(i as int)) <= i,
            decreases n - i,
        {
            let key: &[u8] = pairs[i].0.as_slice();
            let val: &[u8] = pairs[i].1.as_slice();
            proof {
                assert(p[i as int] == (pairs@[i as int].0@, pairs@[i as int].1@));
                assert(p.take(i as int + 1).drop_last() =~= p.take(i as int));
                assert(p.take(i as int + 1).last() == p[i as int]);
                assert forall|j: int| 0 <= j <= i implies #[trigger] p.take(i as int + 1).take(j)
                    == p.take(j) by {
                    assert(p.take(i as int + 1).take(j) =~= p.take(j));
                }
                assert forall|j: int| 0 <= j <= i implies #[trigger] p.take(i as int).take(j)
                    == p.take(j) by {
                    assert(p.take(i as int).take(j) =~= p.take(j));
                }
            }
        if crate::common::bytes_eq(key, a_owner_index.as_slice()) {
                    match crate::parse::parse_u8(val) {
                        Ok(v) => { x.owner_index = v; },
                        Err(e) => {
                            proof {
                                assert(p[i as int].0 == crate::keys::k_owner_index());
                                assert(kind_field_fails(p, FieldKind::U8, crate::keys::k_owner_index()));
                            }
                            return Err(e);
                        },
                    }
                }
        else if crate::common::bytes_eq(key, a_owner_part_id.as_slice()) {
                    match crate::parse::parse_i8(val) {
                        Ok(v) => { x.owner_part_id = v; },
                        Err(e) => {
                            proof {
                                assert(p[i as int].0 == crate::keys::k_owner_part_id());
                                assert(kind_field_fails(p, FieldKind::I8, crate::keys::k_owner_part_id()));
                            }
                            return Err(e);
                        },
                    }
                }
        else if crate::common::bytes_eq(key, a_location_x.as_slice()) {
                    match crate::parse::parse_i32(val) {
                        Ok(v) => { x.location.x = v; },
                        Err(e) => {
                            proof {
                                assert(p[i as int].0 == crate::keys::k_location_x());
                                assert(kind_field_fails(p, FieldKind::I32, crate::keys::k_location_x()));
                            }
                            return Err(e);
                        },
                    }
                }
        else if crate::common::bytes_eq(key, a_location_y.as_slice()) {
                    match crate::parse::parse_i32(val) {
                        Ok(v) => { x.location.y = v; },
                        Err(e) => {
                            proof {
                                assert(p[i as int].0 == crate::keys::k_location_y());
                                assert(kind_field_fails(p, FieldKind::I32, crate::keys::k_location_y()));
                            }
                            return Err(e);
                        },
                    }
                }
        else if crate::common::bytes_eq(key, a_index_in_sheet.as_slice()) {
                    match crate::parse::parse_i16(val) {
                        Ok(v) => { x.index_in_sheet = v; },
                        Err(e) => {
                            proof {
                                assert(p[i as int].0 == crate::keys::k_index_in_sheet());
                                assert(kind_field_fails(p, FieldKind::I16, crate::keys::k_index_in_sheet()));
                            }
                            return Err(e);
                        },
                    }
                }
        else if crate::common::bytes_eq(key, a_color.as_slice()) {
                    match Rgb::from_utf8(val) {
                        Ok(v) => { x.color = v; },
                        Err(e) => {
                            proof {
                                assert(p[i as int].0 == crate::keys::k_color());
                                assert(kind_field_fails(p, FieldKind::Color, crate::keys::k_color()));
                            }
                            return Err(e);
                        },
                    }
                }
        else if crate::common::bytes_eq(key, a_font_id.as_slice()) {
                    match crate::parse::parse_u16(val) {
                        Ok(v) => { x.font_id = v; },
                        Err(e) => {
                            proof {
                                assert(p[i as int].0 == crate::keys::k_font_id());
                                assert(kind_field_fails(p, FieldKind::U16, crate::keys::k_font_id()));
                            }
                            return Err(e);
                        },
                    }
                }
        else if crate::common::bytes_eq(key, a_unique_id.as_slice()) {
                    match UniqueId::from_utf8(val) {
                        Ok(v) => { x.unique_id = v; },
                        Err(e) => {
                            proof {
                                assert(p[i as int].0 == crate::keys::k_unique_id());
                                assert(kind_field_fails(p, FieldKind::Uid, crate::keys::k_unique_id()));
                            }
                            return Err(e);
                        },
                    }
                }
        else if crate::common::bytes_eq(key, a_read_only_state.as_slice()) {
                    match crate::parse::parse_i8(val) {
                        Ok(v) => { x.read_only_state = v; },
                        Err(e) => {
                            proof {
                                assert(p[i as int].0 == crate::keys::k_read_only_state());
                                assert(kind_field_fails(p, FieldKind::I8, crate::keys::k_read_only_state()));
                            }
                            return Err(e);
                        },
                    }
                }
        else if crate::common::bytes_eq(key, t_name.as_slice()) {
                    match crate::common::str_from_utf8(val) {
                        Ok(s) => { x.name = s; seen_name = true; },
                        Err(e) => {
                            proof {
                                assert(p[i as int].0 == utf8_twin(crate::keys::k_name()));
                                assert(str_field_fails(p, crate::keys::k_name()));
                            }
                            return Err(e);
                        },
                    }
                } else if crate::common::bytes_eq(key, a_name.as_slice()) {
                    if !seen_name {
                        match crate::common::str_from_utf8(val) {
                            Ok(s) => { x.name = s; },
                            Err(e) => {
                                proof {
                                    assert(p[i as int].0 == crate::keys::k_name());
                                    assert(!has_key(p.take(i as int), utf8_twin(crate::keys::k_name())));
                                    assert(str_field_fails(p, crate::keys::k_name()));
                                }
                                return Err(e);
                            },
                        }
                    }
                }
        else if crate::common::bytes_eq(key, a_is_hidden.as_slice()) {
                    match crate::parse::parse_bool(val) {
                        Ok(v) => { x.is_hidden = v; },
                        Err(e) => {
                            proof {
                                assert(p[i as int].0 == crate::keys::k_is_hidden());
                                assert(kind_field_fails(p, FieldKind::Bool, crate::keys::k_is_hidden()));
                            }
                            return Err(e);
                        },
                    }
                }
        else if crate::common::bytes_eq(key, t_text.as_slice()) {
                    match crate::common::str_from_utf8(val) {
                        Ok(s) => { x.text = s; seen_text = true; },
                        Err(e) => {
                            proof {
                                assert(p[i as int].0 == utf8_twin(crate::keys::k_text()));
                                assert(str_field_fails(p, crate::keys::k_text()));
                            }
                            return Err(e);
                        },
                    }
                } else if crate::common::bytes_eq(key, a_text.as_slice()) {
                    if !seen_text {
                        match crate::common::str_from_utf8(val) {
                            Ok(s) => { x.text = s; },
                            Err(e) => {
                                proof {
                                    assert(p[i as int].0 == crate::keys::k_text());
                                    assert(!has_key(p.take(i as int), utf8_twin(crate::keys::k_text())));
                                    assert(str_field_fails(p, crate::keys::k_text()));
                                }
                                return Err(e);
                            },
                        }
                    }
                }
        else {
            crate::logging::macro_unsupported_key(counter, "Parameter", key, val);
        }
            i += 1;
        }
        proof {
            assert(p.take(n as int) =~= p);
        }
        Ok(x)
    }
}

impl ImplementationList {
    /// The wire record ID of this kind.
    pub open spec fn spec_record_id() -> u32 {
        44
    }

    /// Whether the binder recognizes this wire key.
    pub open spec fn spec_known_key(k: Seq<u8>) -> bool {
        ||| k == crate::keys::k_owner_index()
        ||| k == crate::keys::k_owner_part_id()
    }

    /// How many pairs hold keys the binder does not recognize.
    pub open spec fn spec_unknown(p: SpecPairs) -> int
        decreases p.len(),
    {
        if p.len() == 0 {
            0
        } else {
            Self::spec_unknown(p.drop_last()) + if Self::spec_known_key(p.last().0) {
                0int
            } else {
                1int
            }
        }
    }

    /// Whether some pair's value is one its field's parser rejects.
    pub open spec fn spec_fails(p: SpecPairs) -> bool {
        ||| kind_field_fails(p, FieldKind::U8, crate::keys::k_owner_index())
        ||| kind_field_fails(p, FieldKind::I8, crate::keys::k_owner_part_id())
    }

    /// Each field as the walk of the pairs leaves it.
    pub open spec fn spec_matches(x: ImplementationList, p: SpecPairs) -> bool {
        &&& x.owner_index == u8_field(p, crate::keys::k_owner_index())
        &&& x.owner_part_id == i8_field(p, crate::keys::k_owner_part_id())
    }

    /// Bind the fields of one `ImplementationList` record from its key-value pairs.
    #[verifier::loop_isolation(false)]
    #[verifier::rlimit(100)]
    pub fn from_record(pairs: &[(Vec<u8>, Vec<u8>)], counter: &mut UnsupportedCounter) -> (r:
        Result<ImplementationList, ErrorKind>)
        ensures
            r is Ok <==> !ImplementationList::spec_fails(pairs_view(pairs@)),
            r is Ok ==> ImplementationList::spec_matches(r->Ok_0, pairs_view(pairs@)),
            r is Ok ==> final(counter).count == sat_add(
                old(counter).count,
                ImplementationList::spec_unknown(pairs_view(pairs@)),
            ),
            final(counter).count >= old(counter).count,
    {
        let ghost p = pairs_view(pairs@);
        proof {
            crate::common::lemma_pairs_view(pairs@);
            assert(p.take(0) =~= Seq::<(Seq<u8>, Seq<u8>)>::empty());
        }
    let a_owner_index: [u8; 10] = [0x4fu8, 0x77u8, 0x6eu8, 0x65u8, 0x72u8, 0x49u8, 0x6eu8, 0x64u8, 0x65u8, 0x78u8];
    let a_owner_part_id: [u8; 11] = [0x4fu8, 0x77u8, 0x6eu8, 0x65u8, 0x72u8, 0x50u8, 0x61u8, 0x72u8, 0x74u8, 0x49u8, 0x64u8];
    proof {
        assert(a_owner_index@ =~= crate::keys::k_owner_index());
        assert(a_owner_part_id@ =~= crate::keys::k_owner_part_id());
        assert(crate::keys::k_owner_index() != crate::keys::k_owner_part_id()) by { assert(crate::keys::k_owner_index().len() != crate::keys::k_owner_part_id().len()); }
    }
        let mut x = ImplementationList {
        owner_index: 0,
        owner_part_id: 0,
        };

        let n = pairs.len();
        let mut i: usize = 0;
        while i < n
            invariant
                0 <= i <= n,
                n == pairs@.len(),
                !ImplementationList::spec_fails(p.take(i as int)),
                ImplementationList::spec_matches(x, p.take(i as int)),

                counter.count == sat_add(old(counter).count, ImplementationList::spec_unknown(p.take(i as int))),
                0 <= ImplementationList::spec_unknown(p.take(i as int)) <= i,
            decreases n - i,
        {
            let key: &[u8] = pairs[i].0.as_slice();
            let val: &[u8] = pairs[i].1.as_slice();
            proof {
                assert(p[i as int] == (pairs@[i as int].0@, pairs@[i as int].1@));
                assert(p.take(i as int + 1).drop_last() =~= p.take(i as int));
                assert(p.take(i as int + 1).last() == p[i as int]);
                assert forall|j: int| 0 <= j <= i implies #[trigger] p.take(i as int + 1).take(j)
                    == p.take(j) by {
                    assert(p.take(i as int + 1).take(j) =~= p.take(j));
                }
                assert forall|j: int| 0 <= j <= i implies #[trigger] p.take(i as int).take(j)
                    == p.take(j) by {
                    assert(p.take(i as int).take(j) =~= p.take(j));
                }
            }
        if crate::common::bytes_eq(key, a_owner_index.as_slice()) {
                    match crate::parse::parse_u8(val) {
                        Ok(v) => { x.owner_index = v; },
                        Err(e) => {
                            proof {
                                assert(p[i as int].0 == crate::keys::k_owner_index());
                                assert(kind_field_fails(p, FieldKind::U8, crate::keys::k_owner_index()));
                            }
                            return Err(e);
                        },
                    }
                }
        else if crate::common::bytes_eq(key, a_owner_part_id.as_slice()) {
                    match crate::parse::parse_i8(val) {
                        Ok(v) => { x.owner_part_id = v; },
                        Err(e) => {
                            proof {
                                assert(p[i as int].0 == crate::keys::k_owner_part_id());
                                assert(kind_field_fails(p, FieldKind::I8, crate::keys::k_owner_part_id()));
                            }
                            return Err(e);
                        },
                    }
                }
        else {
            crate::logging::macro_unsupported_key(counter, "ImplementationList", key, val);
        }
            i += 1;
        }
        proof {
            assert(p.take(n as int) =~= p);
        }
        Ok(x)
    }
}

impl Implementation {
    /// The wire record ID of this kind.
    pub open spec fn spec_record_id() -> u32 {
        45
    }

    /// Whether the binder recognizes this wire key.
    pub open spec fn spec_known_key(k: Seq<u8>) -> bool {
        ||| k == crate::keys::k_owner_index()
        ||| k == crate::keys::k_owner_part_id()
        ||| k == crate::keys::k_use_component_library()
        ||| k == crate::keys::k_model_name()
        ||| k == utf8_twin(crate::keys::k_model_name())
        ||| k == crate::keys::k_model_type()
        ||| k == utf8_twin(crate::keys::k_model_type())
        ||| k == crate::keys::k_datafile_count()
        ||| k == crate::keys::k_model_datafile_entity0()
        ||| k == utf8_twin(crate::keys::k_model_datafile_entity0())
        ||| k == crate::keys::k_model_datafile_kind0()
        ||| k == utf8_twin(crate::keys::k_model_datafile_kind0())
        ||| k == crate::keys::k_is_current()
        ||| k == crate::keys::k_datalinks_locked()
        ||| k == crate::keys::k_database_datalinks_locked()
        ||| k == crate::keys::k_unique_id()
        ||| k == crate::keys::k_index_in_sheet()
    }

    /// How many pairs hold keys the binder does not recognize.
    pub open spec fn spec_unknown(p: SpecPairs) -> int
        decreases p.len(),
    {
        if p.len() == 0 {
            0
        } else {
            Self::spec_unknown(p.drop_last()) + if Self::spec_known_key(p.last().0) {
                0int
            } else {
                1int
            }
        }
    }

    /// Whether some pair's value is one its field's parser rejects.
    pub open spec fn spec_fails(p: SpecPairs) -> bool {
        ||| kind_field_fails(p, FieldKind::U8, crate::keys::k_owner_index())
        ||| kind_field_fails(p, FieldKind::I8, crate::keys::k_owner_part_id())
        ||| kind_field_fails(p, FieldKind::Bool, crate::keys::k_use_component_library())
        ||| str_field_fails(p, crate::keys::k_model_name())
        ||| str_field_fails(p, crate::keys::k_model_type())
        ||| kind_field_fails(p, FieldKind::U16, crate::keys::k_datafile_count())
        ||| str_field_fails(p, crate::keys::k_model_datafile_entity0())
        ||| str_field_fails(p, crate::keys::k_model_datafile_kind0())
        ||| kind_field_fails(p, FieldKind::Bool, crate::keys::k_is_current())
        ||| kind_field_fails(p, FieldKind::Bool, crate::keys::k_datalinks_locked())
        ||| kind_field_fails(p, FieldKind::Bool, crate::keys::k_database_datalinks_locked())
        ||| kind_field_fails(p, FieldKind::Uid, crate::keys::k_unique_id())
        ||| kind_field_fails(p, FieldKind::I16, crate::keys::k_index_in_sheet())
    }

    /// Each field as the walk of the pairs leaves it.
    pub open spec fn spec_matches(x: Implementation, p: SpecPairs) -> bool {
        &&& x.owner_index == u8_field(p, crate::keys::k_owner_index())
        &&& x.owner_part_id == i8_field(p, crate::keys::k_owner_part_id())
        &&& x.use_component_library == bool_field(p, crate::keys::k_use_component_library())
        &&& x.model_name@ == str_field(p, crate::keys::k_model_name())
        &&& x.model_type@ == str_field(p, crate::keys::k_model_type())
        &&& x.datafile_count == u16_field(p, crate::keys::k_datafile_count())
        &&& x.model_datafile_entity0@ == str_field(p, crate::keys::k_model_datafile_entity0())
        &&& x.model_datafile_kind0@ == str_field(p, crate::keys::k_model_datafile_kind0())
        &&& x.is_current == bool_field(p, crate::keys::k_is_current())
        &&& x.datalinks_locked == bool_field(p, crate::keys::k_datalinks_locked())
        &&& x.database_datalinks_locked == bool_field(p, crate::keys::k_database_datalinks_locked())
        &&& x.unique_id == uid_field(p, crate::keys::k_unique_id())
        &&& x.index_in_sheet == i16_field(p, crate::keys::k_index_in_sheet())
    }

    /// Bind the fields of one `Implementation` record from its key-value pairs.
    #[verifier::loop_isolation(false)]
    #[verifier::rlimit(100)]
    pub fn from_record(pairs: &[(Vec<u8>, Vec<u8>)], counter: &mut UnsupportedCounter) -> (r:
        Result<Implementation, ErrorKind>)
        ensures
            r is Ok <==> !Implementation::spec_fails(pairs_view(pairs@)),
            r is Ok ==> Implementation::spec_matches(r->Ok_0, pairs_view(pairs@)),
            r is Ok ==> final(counter).count == sat_add(
                old(counter).count,
                Implementation::spec_unknown(pairs_view(pairs@)),
            ),
            final(counter).count >= old(counter).count,
    {
        let ghost p = pairs_view(pairs@);
        proof {
            crate::common::lemma_pairs_view(pairs@);
            assert(p.take(0) =~= Seq::<(Seq<u8>, Seq<u8>)>::empty());
        }
    let a_owner_index: [u8; 10] = [0x4fu8, 0x77u8, 0x6eu8, 0x65u8, 0x72u8, 0x49u8, 0x6eu8, 0x64u8, 0x65u8, 0x78u8];
    let a_owner_part_id: [u8; 11] = [0x4fu8, 0x77u8, 0x6eu8, 0x65u8, 0x72u8, 0x50u8, 0x61u8, 0x72u8, 0x74u8, 0x49u8, 0x64u8];
    let a_use_component_library: [u8; 19] = [0x55u8, 0x73u8, 0x65u8, 0x43u8, 0x6fu8, 0x6du8, 0x70u8, 0x6fu8, 0x6eu8, 0x65u8, 0x6eu8, 0x74u8, 0x4cu8, 0x69u8, 0x62u8, 0x72u8, 0x61u8, 0x72u8, 0x79u8];
    let a_model_name: [u8; 9] = [0x4du8, 0x6fu8, 0x64u8, 0x65u8, 0x6cu8, 0x4eu8, 0x61u8, 0x6du8, 0x65u8];
    let a_model_type: [u8; 9] = [0x4du8, 0x6fu8, 0x64u8, 0x65u8, 0x6cu8, 0x54u8, 0x79u8, 0x70u8, 0x65u8];
    let a_datafile_count: [u8; 13] = [0x44u8, 0x61u8, 0x74u8, 0x61u8, 0x66u8, 0x69u8, 0x6cu8, 0x65u8, 0x43u8, 0x6fu8, 0x75u8, 0x6eu8, 0x74u8];
    let a_model_datafile_entity0: [u8; 20] = [0x4du8, 0x6fu8, 0x64u8, 0x65u8, 0x6cu8, 0x44u8, 0x61u8, 0x74u8, 0x61u8, 0x66u8, 0x69u8, 0x6cu8, 0x65u8, 0x45u8, 0x6eu8, 0x74u8, 0x69u8, 0x74u8, 0x79u8, 0x30u8];
    let a_model_datafile_kind0: [u8; 18] = [0x4du8, 0x6fu8, 0x64u8, 0x65u8, 0x6cu8, 0x44u8, 0x61u8, 0x74u8, 0x61u8, 0x66u8, 0x69u8, 0x6cu8, 0x65u8, 0x4bu8, 0x69u8, 0x6eu8, 0x64u8, 0x30u8];
    let a_is_current: [u8; 9] = [0x49u8, 0x73u8, 0x43u8, 0x75u8, 0x72u8, 0x72u8, 0x65u8, 0x6eu8, 0x74u8];
    let a_datalinks_locked: [u8; 15] = [0x44u8, 0x61u8, 0x74u8, 0x61u8, 0x6cu8, 0x69u8, 0x6eu8, 0x6bu8, 0x73u8, 0x4cu8, 0x6fu8, 0x63u8, 0x6bu8, 0x65u8, 0x64u8];
    let a_database_datalinks_locked: [u8; 23] = [0x44u8, 0x61u8, 0x74u8, 0x61u8, 0x62u8, 0x61u8, 0x73u8, 0x65u8, 0x44u8, 0x61u8, 0x74u8, 0x61u8, 0x6cu8, 0x69u8, 0x6eu8, 0x6bu8, 0x73u8, 0x4cu8, 0x6fu8, 0x63u8, 0x6bu8, 0x65u8, 0x64u8];
    let a_unique_id: [u8; 8] = [0x55u8, 0x6eu8, 0x69u8, 0x71u8, 0x75u8, 0x65u8, 0x49u8, 0x44u8];
    let a_index_in_sheet: [u8; 12] = [0x49u8, 0x6eu8, 0x64u8, 0x65u8, 0x78u8, 0x49u8, 0x6eu8, 0x53u8, 0x68u8, 0x65u8, 0x65u8, 0x74u8];
    let t_model_name: [u8; 15] = [0x25u8, 0x55u8, 0x54u8, 0x46u8, 0x38u8, 0x25u8, 0x4du8, 0x6fu8, 0x64u8, 0x65u8, 0x6cu8, 0x4eu8, 0x61u8, 0x6du8, 0x65u8];
    let t_model_type: [u8; 15] = [0x25u8, 0x55u8, 0x54u8, 0x46u8, 0x38u8, 0x25u8, 0x4du8, 0x6fu8, 0x64u8, 0x65u8, 0x6cu8, 0x54u8, 0x79u8, 0x70u8, 0x65u8];
    let t_model_datafile_entity0: [u8; 26] = [0x25u8, 0x55u8, 0x54u8, 0x46u8, 0x38u8, 0x25u8, 0x4du8, 0x6fu8, 0x64u8, 0x65u8, 0x6cu8, 0x44u8, 0x61u8, 0x74u8, 0x61u8, 0x66u8, 0x69u8, 0x6cu8, 0x65u8, 0x45u8, 0x6eu8, 0x74u8, 0x69u8, 0x74u8, 0x79u8, 0x30u8];
    let t_model_datafile_kind0: [u8; 24] = [0x25u8, 0x55u8, 0x54u8, 0x46u8, 0x38u8, 0x25u8, 0x4du8, 0x6fu8, 0x64u8, 0x65u8, 0x6cu8, 0x44u8, 0x61u8, 0x74u8, 0x61u8, 0x66u8, 0x69u8, 0x6cu8, 0x65u8, 0x4bu8, 0x69u8, 0x6eu8, 0x64u8, 0x30u8];
    proof {
        assert(a_owner_index@ =~= crate::keys::k_owner_index());
        assert(a_owner_part_id@ =~= crate::keys::k_owner_part_id());
        assert(a_use_component_library@ =~= crate::keys::k_use_component_library());
        assert(a_model_name@ =~= crate::keys::k_model_name());
        assert(a_model_type@ =~= crate::keys::k_model_type());
        assert(a_datafile_count@ =~= crate::keys::k_datafile_count());
        assert(a_model_datafile_entity0@ =~= crate::keys::k_model_datafile_entity0());
        assert(a_model_datafile_kind0@ =~= crate::keys::k_model_datafile_kind0());
        assert(a_is_current@ =~= crate::keys::k_is_current());
        assert(a_datalinks_locked@ =~= crate::keys::k_datalinks_locked());
        assert(a_database_datalinks_locked@ =~= crate::keys::k_database_datalinks_locked());
        assert(a_unique_id@ =~= crate::keys::k_unique_id());
        assert(a_index_in_sheet@ =~= crate::keys::k_index_in_sheet());
        assert(t_model_name@ =~= utf8_twin(crate::keys::k_model_name()));
        assert(t_model_type@ =~= utf8_twin(crate::keys::k_model_type()));
        assert(t_model_datafile_entity0@ =~= utf8_twin(crate::keys::k_model_datafile_entity0()));
        assert(t_model_datafile_kind0@ =~= utf8_twin(crate::keys::k_model_datafile_kind0()));
        assert(crate::keys::k_owner_index() != crate::keys::k_owner_part_id()) by { assert(crate::keys::k_owner_index().len() != crate::keys::k_owner_part_id().len()); }
        assert(crate::keys::k_owner_index() != crate::keys::k_use_component_library()) by { assert(crate::keys::k_owner_index().len() != crate::keys::k_use_component_library().len()); }
        assert(crate::keys::k_owner_index() != crate::keys::k_model_name()) by { assert(crate::keys::k_owner_index().len() != crate::keys::k_model_name().len()); }
        assert(crate::keys::k_owner_index() != crate::keys::k_model_type()) by { assert(crate::keys::k_owner_index().len() != crate::keys::k_model_type().len()); }
        assert(crate::keys::k_owner_index() != crate::keys::k_datafile_count()) by { assert(crate::keys::k_owner_index().len() != crate::keys::k_datafile_count().len()); }
        assert(crate::keys::k_owner_index() != crate::keys::k_model_datafile_entity0()) by { assert(crate::keys::k_owner_index().len() != crate::keys::k_model_datafile_entity0().len()); }
        assert(crate::keys::k_owner_index() != crate::keys::k_model_datafile_kind0()) by { assert(crate::keys::k_owner_index().len() != crate::keys::k_model_datafile_kind0().len()); }
        assert(crate::keys::k_owner_index() != crate::keys::k_is_current()) by { assert(crate::keys::k_owner_index().len() != crate::keys::k_is_current().len()); }
        assert(crate::keys::k_owner_index() != crate::keys::k_datalinks_locked()) by { assert(crate::keys::k_owner_index().len() != crate::keys::k_datalinks_locked().len()); }
        assert(crate::keys::k_owner_index() != crate::keys::k_database_datalinks_locked()) by { assert(crate::keys::k_owner_index().len() != crate::keys::k_database_datalinks_locked().len()); }
        assert(crate::keys::k_owner_index() != crate::keys::k_unique_id()) by { assert(crate::keys::k_owner_index().len() != crate::keys::k_unique_id().len()); }
        assert(crate::keys::k_owner_index() != crate::keys::k_index_in_sheet()) by { assert(crate::keys::k_owner_index().len() != crate::keys::k_index_in_sheet().len()); }
        assert(crate::keys::k_owner_index() != utf8_twin(crate::keys::k_model_name())) by { assert(crate::keys::k_owner_index().len() != utf8_twin(crate::keys::k_model_name()).len()); }
        assert(crate::keys::k_owner_index() != utf8_twin(crate::keys::k_model_type())) by { assert(crate::keys::k_owner_index().len() != utf8_twin(crate::keys::k_model_type()).len()); }
        assert(crate::keys::k_owner_index() != utf8_twin(crate::keys::k_model_datafile_entity0())) by { assert(crate::keys::k_owner_index().len() != utf8_twin(crate::keys::k_model_datafile_entity0()).len()); }
        assert(crate::keys::k_owner_index() != utf8_twin(crate::keys::k_model_datafile_kind0())) by { assert(crate::keys::k_owner_index().len() != utf8_twin(crate::keys::k_model_datafile_kind0()).len()); }
        assert(crate::keys::k_owner_part_id() != crate::keys::k_use_component_library()) by { assert(crate::keys::k_owner_part_id().len() != crate::keys::k_use_component_library().len()); }
        assert(crate::keys::k_owner_part_id() != crate::keys::k_model_name()) by { assert(crate::keys::k_owner_part_id().len() != crate::keys::k_model_name().len()); }
        assert(crate::keys::k_owner_part_id() != crate::keys::k_model_type()) by { assert(crate::keys::k_owner_part_id().len() != crate::keys::k_model_type().len()); }
        assert(crate::keys::k_owner_part_id() != crate::keys::k_datafile_count()) by { assert(crate::keys::k_owner_part_id().len() != crate::keys::k_datafile_count().len()); }
        assert(crate::keys::k_owner_part_id() != crate::keys::k_model_datafile_entity0()) by { assert(crate::keys::k_owner_part_id().len() != crate::keys::k_model_datafile_entity0().len()); }
        assert(crate::keys::k_owner_part_id() != crate::keys::k_model_datafile_kind0()) by { assert(crate::keys::k_owner_part_id().len() != crate::keys::k_model_datafile_kind0().len()); }
        assert(crate::keys::k_owner_part_id() != crate::keys::k_is_current()) by { assert(crate::keys::k_owner_part_id().len() != crate::keys::k_is_current().len()); }
        assert(crate::keys::k_owner_part_id() != crate::keys::k_datalinks_locked()) by { assert(crate::keys::k_owner_part_id().len() != crate::keys::k_datalinks_locked().len()); }
        assert(crate::keys::k_owner_part_id() != crate::keys::k_database_datalinks_locked()) by { assert(crate::keys::k_owner_part_id().len() != crate::keys::k_database_datalinks_locked().len()); }
        assert(crate::keys::k_owner_part_id() != crate::keys::k_unique_id()) by { assert(crate::keys::k_owner_part_id().len() != crate::keys::k_unique_id().len()); }
        assert(crate::keys::k_owner_part_id() != crate::keys::k_index_in_sheet()) by { assert(crate::keys::k_owner_part_id().len() != crate::keys::k_index_in_sheet().len()); }
        assert(crate::keys::k_owner_part_id() != utf8_twin(crate::keys::k_model_name())) by { assert(crate::keys::k_owner_part_id().len() != utf8_twin(crate::keys::k_model_name()).len()); }
        assert(crate::keys::k_owner_part_id() != utf8_twin(crate::keys::k_model_type())) by { assert(crate::keys::k_owner_part_id().len() != utf8_twin(crate::keys::k_model_type()).len()); }
        assert(crate::keys::k_owner_part_id() != utf8_twin(crate::keys::k_model_datafile_entity0())) by { assert(crate::keys::k_owner_part_id().len() != utf8_twin(crate::keys::k_model_datafile_entity0()).len()); }
        assert(crate::keys::k_owner_part_id() != utf8_twin(crate::keys::k_model_datafile_kind0())) by { assert(crate::keys::k_owner_part_id().len() != utf8_twin(crate::keys::k_model_datafile_kind0()).len()); }
        assert(crate::keys::k_use_component_library() != crate::keys::k_model_name()) by { assert(crate::keys::k_use_component_library().len() != crate::keys::k_model_name().len()); }
        assert(crate::keys::k_use_component_library() != crate::keys::k_model_type()) by { assert(crate::keys::k_use_component_library().len() != crate::keys::k_model_type().len()); }
        assert(crate::keys::k_use_component_library() != crate::keys::k_datafile_count()) by { assert(crate::keys::k_use_component_library().len() != crate::keys::k_datafile_count().len()); }
        assert(crate::keys::k_use_component_library() != crate::keys::k_model_datafile_entity0()) by { assert(crate::keys::k_use_component_library().len() != crate::keys::k_model_datafile_entity0().len()); }
        assert(crate::keys::k_use_component_library() != crate::keys::k_model_datafile_kind0()) by { assert(crate::keys::k_use_component_library().len() != crate::keys::k_model_datafile_kind0().len()); }
        assert(crate::keys::k_use_component_library() != crate::keys::k_is_current()) by { assert(crate::keys::k_use_component_library().len() != crate::keys::k_is_current().len()); }
        assert(crate::keys::k_use_component_library() != crate::keys::k_datalinks_locked()) by { assert(crate::keys::k_use_component_library().len() != crate::keys::k_datalinks_locked().len()); }
        assert(crate::keys::k_use_component_library() != crate::keys::k_database_datalinks_locked()) by { assert(crate::keys::k_use_component_library().len() != crate::keys::k_database_datalinks_locked().len()); }
        assert(crate::keys::k_use_component_library() != crate::keys::k_unique_id()) by { assert(crate::keys::k_use_component_library().len() != crate::keys::k_unique_id().len()); }
        assert(crate::keys::k_use_component_library() != crate::keys::k_index_in_sheet()) by { assert(crate::keys::k_use_component_library().len() != crate::keys::k_index_in_sheet().len()); }
        assert(crate::keys::k_use_component_library() != utf8_twin(crate::keys::k_model_name())) by { assert(crate::keys::k_use_component_library().len() != utf8_twin(crate::keys::k_model_name()).len()); }
        assert(crate::keys::k_use_component_library() != utf8_twin(crate::keys::k_model_type())) by { assert(crate::keys::k_use_component_library().len() != utf8_twin(crate::keys::k_model_type()).len()); }
        assert(crate::keys::k_use_component_library() != utf8_twin(crate::keys::k_model_datafile_entity0())) by { assert(crate::keys::k_use_component_library().len() != utf8_twin(crate::keys::k_model_datafile_entity0()).len()); }
        assert(crate::keys::k_use_component_library() != utf8_twin(crate::keys::k_model_datafile_kind0())) by { assert(crate::keys::k_use_component_library().len() != utf8_twin(crate::keys::k_model_datafile_kind0()).len()); }
        assert(crate::keys::k_model_name() != crate::keys::k_model_type()) by { assert(crate::keys::k_model_name()[5] != crate::keys::k_model_type()[5]); }
        assert(crate::keys::k_model_name() != crate::keys::k_datafile_count()) by { assert(crate::keys::k_model_name().len() != crate::keys::k_datafile_count().len()); }
        assert(crate::keys::k_model_name() != crate::keys::k_model_datafile_entity0()) by { assert(crate::keys::k_model_name().len() != crate::keys::k_model_datafile_entity0().len()); }
        assert(crate::keys::k_model_name() != crate::keys::k_model_datafile_kind0()) by { assert(crate::keys::k_model_name().len() != crate::keys::k_model_datafile_kind0().len()); }
        assert(crate::keys::k_model_name() != crate::keys::k_is_current()) by { assert(crate::keys::k_model_name()[0] != crate::keys::k_is_current()[0]); }
        assert(crate::keys::k_model_name() != crate::keys::k_datalinks_locked()) by { assert(crate::keys::k_model_name().len() != crate::keys::k_datalinks_locked().len()); }
        assert(crate::keys::k_model_name() != crate::keys::k_database_datalinks_locked()) by { assert(crate::keys::k_model_name().len() != crate::keys::k_database_datalinks_locked().len()); }
        assert(crate::keys::k_model_name() != crate::keys::k_unique_id()) by { assert(crate::keys::k_model_name().len() != crate::keys::k_unique_id().len()); }
        assert(crate::keys::k_model_name() != crate::keys::k_index_in_sheet()) by { assert(crate::keys::k_model_name().len() != crate::keys::k_index_in_sheet().len()); }
        assert(crate::keys::k_model_name() != utf8_twin(crate::keys::k_model_name())) by { assert(crate::keys::k_model_name().len() != utf8_twin(crate::keys::k_model_name()).len()); }
        assert(crate::keys::k_model_name() != utf8_twin(crate::keys::k_model_type())) by { assert(crate::keys::k_model_name().len() != utf8_twin(crate::keys::k_model_type()).len()); }
        assert(crate::keys::k_model_name() != utf8_twin(crate::keys::k_model_datafile_entity0())) by { assert(crate::keys::k_model_name().len() != utf8_twin(crate::keys::k_model_datafile_entity0()).len()); }
        assert(crate::keys::k_model_name() != utf8_twin(crate::keys::k_model_datafile_kind0())) by { assert(crate::keys::k_model_name().len() != utf8_twin(crate::keys::k_model_datafile_kind0()).len()); }
        assert(crate::keys::k_model_type() != crate::keys::k_datafile_count()) by { assert(crate::keys::k_model_type().len() != crate::keys::k_datafile_count().len()); }
        assert(crate::keys::k_model_type() != crate::keys::k_model_datafile_entity0()) by { assert(crate::keys::k_model_type().len() != crate::keys::k_model_datafile_entity0().len()); }
        assert(crate::keys::k_model_type() != crate::keys::k_model_datafile_kind0()) by { assert(crate::keys::k_model_type().len() != crate::keys::k_model_datafile_kind0().len()); }
        assert(crate::keys::k_model_type() != crate::keys::k_is_current()) by { assert(crate::keys::k_model_type()[0] != crate::keys::k_is_current()[0]); }
        assert(crate::keys::k_model_type() != crate::keys::k_datalinks_locked()) by { assert(crate::keys::k_model_type().len() != crate::keys::k_datalinks_locked().len()); }
        assert(crate::keys::k_model_type() != crate::keys::k_database_datalinks_locked()) by { assert(crate::keys::k_model_type().len() != crate::keys::k_database_datalinks_locked().len()); }
        assert(crate::keys::k_model_type() != crate::keys::k_unique_id()) by { assert(crate::keys::k_model_type().len() != crate::keys::k_unique_id().len()); }
        assert(crate::keys::k_model_type() != crate::keys::k_index_in_sheet()) by { assert(crate::keys::k_model_type().len() != crate::keys::k_index_in_sheet().len()); }
        assert(crate::keys::k_model_type() != utf8_twin(crate::keys::k_model_name())) by { assert(crate::keys::k_model_type().len() != utf8_twin(crate::keys::k_model_name()).len()); }
        assert(crate::keys::k_model_type() != utf8_twin(crate::keys::k_model_type())) by { assert(crate::keys::k_model_type().len() != utf8_twin(crate::keys::k_model_type()).len()); }
        assert(crate::keys::k_model_type() != utf8_twin(crate::keys::k_model_datafile_entity0())) by { assert(crate::keys::k_model_type().len() != utf8_twin(crate::keys::k_model_datafile_entity0()).len()); }
        assert(crate::keys::k_model_type() != utf8_twin(crate::keys::k_model_datafile_kind0())) by { assert(crate::keys::k_model_type().len() != utf8_twin(crate::keys::k_model_datafile_kind0()).len()); }
        assert(crate::keys::k_datafile_count() != crate::keys::k_model_datafile_entity0()) by { assert(crate::keys::k_datafile_count().len() != crate::keys::k_model_datafile_entity0().len()); }
        assert(crate::keys::k_datafile_count() != crate::keys::k_model_datafile_kind0()) by { assert(crate::keys::k_datafile_count().len() != crate::keys::k_model_datafile_kind0().len()); }
        assert(crate::keys::k_datafile_count() != crate::keys::k_is_current()) by { assert(crate::keys::k_datafile_count().len() != crate::keys::k_is_current().len()); }
        assert(crate::keys::k_datafile_count() != crate::keys::k_datalinks_locked()) by { assert(crate::keys::k_datafile_count().len() != crate::keys::k_datalinks_locked().len()); }
        assert(crate::keys::k_datafile_count() != crate::keys::k_database_datalinks_locked()) by { assert(crate::keys::k_datafile_count().len() != crate::keys::k_database_datalinks_locked().len()); }
        assert(crate::keys::k_datafile_count() != crate::keys::k_unique_id()) by { assert(crate::keys::k_datafile_count().len() != crate::keys::k_unique_id().len()); }
        assert(crate::keys::k_datafile_count() != crate::keys::k_index_in_sheet()) by { assert(crate::keys::k_datafile_count().len() != crate::keys::k_index_in_sheet().len()); }
        assert(crate::keys::k_datafile_count() != utf8_twin(crate::keys::k_model_name())) by { assert(crate::keys::k_datafile_count().len() != utf8_twin(crate::keys::k_model_name()).len()); }
        assert(crate::keys::k_datafile_count() != utf8_twin(crate::keys::k_model_type())) by { assert(crate::keys::k_datafile_count().len() != utf8_twin(crate::keys::k_model_type()).len()); }
        assert(crate::keys::k_datafile_count() != utf8_twin(crate::keys::k_model_datafile_entity0())) by { assert(crate::keys::k_datafile_count().len() != utf8_twin(crate::keys::k_model_datafile_entity0()).len()); }
        assert(crate::keys::k_datafile_count() != utf8_twin(crate::keys::k_model_datafile_kind0())) by { assert(crate::keys::k_datafile_count().len() != utf8_twin(crate::keys::k_model_datafile_kind0()).len()); }
        assert(crate::keys::k_model_datafile_entity0() != crate::keys::k_model_datafile_kind0()) by { assert(crate::keys::k_model_datafile_entity0().len() != crate::keys::k_model_datafile_kind0().len()); }
        assert(crate::keys::k_model_datafile_entity0() != crate::keys::k_is_current()) by { assert(crate::keys::k_model_datafile_entity0().len() != crate::keys::k_is_current().len()); }
        assert(crate::keys::k_model_datafile_entity0() != crate::keys::k_datalinks_locked()) by { assert(crate::keys::k_model_datafile_entity0().len() != crate::keys::k_datalinks_locked().len()); }
        assert(crate::keys::k_model_datafile_entity0() != crate::keys::k_database_datalinks_locked()) by { assert(crate::keys::k_model_datafile_entity0().len() != crate::keys::k_database_datalinks_locked().len()); }
        assert(crate::keys::k_model_datafile_entity0() != crate::keys::k_unique_id()) by { assert(crate::keys::k_model_datafile_entity0().len() != crate::keys::k_unique_id().len()); }
        assert(crate::keys::k_model_datafile_entity0() != crate::keys::k_index_in_sheet()) by { assert(crate::keys::k_model_datafile_entity0().len() != crate::keys::k_index_in_sheet().len()); }
        assert(crate::keys::k_model_datafile_entity0() != utf8_twin(crate::keys::k_model_name())) by { assert(crate::keys::k_model_datafile_entity0().len() != utf8_twin(crate::keys::k_model_name()).len()); }
        assert(crate::keys::k_model_datafile_entity0() != utf8_twin(crate::keys::k_model_type())) by { assert(crate::keys::k_model_datafile_entity0().len() != utf8_twin(crate::keys::k_model_type()).len()); }
        assert(crate::keys::k_model_datafile_entity0() != utf8_twin(crate::keys::k_model_datafile_entity0())) by { assert(crate::keys::k_model_datafile_entity0().len() != utf8_twin(crate::keys::k_model_datafile_entity0()).len()); }
        assert(crate::keys::k_model_datafile_entity0() != utf8_twin(crate::keys::k_model_datafile_kind0())) by { assert(crate::keys::k_model_datafile_entity0().len() != utf8_twin(crate::keys::k_model_datafile_kind0()).len()); }
        assert(crate::keys::k_model_datafile_kind0() != crate::keys::k_is_current()) by { assert(crate::keys::k_model_datafile_kind0().len() != crate::keys::k_is_current().len()); }
        assert(crate::keys::k_model_datafile_kind0() != crate::keys::k_datalinks_locked()) by { assert(crate::keys::k_model_datafile_kind0().len() != crate::keys::k_datalinks_locked().len()); }
        assert(crate::keys::k_model_datafile_kind0() != crate::keys::k_database_datalinks_locked()) by { assert(crate::keys::k_model_datafile_kind0().len() != crate::keys::k_database_datalinks_locked().len()); }
        assert(crate::keys::k_model_datafile_kind0() != crate::keys::k_unique_id()) by { assert(crate::keys::k_model_datafile_kind0().len() != crate::keys::k_unique_id().len()); }
        assert(crate::keys::k_model_datafile_kind0() != crate::keys::k_index_in_sheet()) by { assert(crate::keys::k_model_datafile_kind0().len() != crate::keys::k_index_in_sheet().len()); }
        assert(crate::keys::k_model_datafile_kind0() != utf8_twin(crate::keys::k_model_name())) by { assert(crate::keys::k_model_datafile_kind0().len() != utf8_twin(crate::keys::k_model_name()).len()); }
        assert(crate::keys::k_model_datafile_kind0() != utf8_twin(crate::keys::k_model_type())) by { assert(crate::keys::k_model_datafile_kind0().len() != utf8_twin(crate::keys::k_model_type()).len()); }
        assert(crate::keys::k_model_datafile_kind0() != utf8_twin(crate::keys::k_model_datafile_entity0())) by { assert(crate::keys::k_model_datafile_kind0().len() != utf8_twin(crate::keys::k_model_datafile_entity0()).len()); }
        assert(crate::keys::k_model_datafile_kind0() != utf8_twin(crate::keys::k_model_datafile_kind0())) by { assert(crate::keys::k_model_datafile_kind0().len() != utf8_twin(crate::keys::k_model_datafile_kind0()).len()); }
        assert(crate::keys::k_is_current() != crate::keys::k_datalinks_locked()) by { assert(crate::keys::k_is_current().len() != crate::keys::k_datalinks_locked().len()); }
        assert(crate::keys::k_is_current() != crate::keys::k_database_datalinks_locked()) by { assert(crate::keys::k_is_current().len() != crate::keys::k_database_datalinks_locked().len()); }
        assert(crate::keys::k_is_current() != crate::keys::k_unique_id()) by { assert(crate::keys::k_is_current().len() != crate::keys::k_unique_id().len()); }
        assert(crate::keys::k_is_current() != crate::keys::k_index_in_sheet()) by { assert(crate::keys::k_is_current().len() != crate::keys::k_index_in_sheet().len()); }
        assert(crate::keys::k_is_current() != utf8_twin(crate::keys::k_model_name())) by { assert(crate::keys::k_is_current().len() != utf8_twin(crate::keys::k_model_name()).len()); }
        assert(crate::keys::k_is_current() != utf8_twin(crate::keys::k_model_type())) by { assert(crate::keys::k_is_current().len() != utf8_twin(crate::keys::k_model_type()).len()); }
        assert(crate::keys::k_is_current() != utf8_twin(crate::keys::k_model_datafile_entity0())) by { assert(crate::keys::k_is_current().len() != utf8_twin(crate::keys::k_model_datafile_entity0()).len()); }
        assert(crate::keys::k_is_current() != utf8_twin(crate::keys::k_model_datafile_kind0())) by { assert(crate::keys::k_is_current().len() != utf8_twin(crate::keys::k_model_datafile_kind0()).len()); }
        assert(crate::keys::k_datalinks_locked() != crate::keys::k_database_datalinks_locked()) by { assert(crate::keys::k_datalinks_locked().len() != crate::keys::k_database_datalinks_locked().len()); }
        assert(crate::keys::k_datalinks_locked() != crate::keys::k_unique_id()) by { assert(crate::keys::k_datalinks_locked().len() != crate::keys::k_unique_id().len()); }
        assert(crate::keys::k_datalinks_locked() != crate::keys::k_index_in_sheet()) by { assert(crate::keys::k_datalinks_locked().len() != crate::keys::k_index_in_sheet().len()); }
        assert(crate::keys::k_datalinks_locked() != utf8_twin(crate::keys::k_model_name())) by { assert(crate::keys::k_datalinks_locked()[0] != utf8_twin(crate::keys::k_model_name())[0]); }
        assert(crate::keys::k_datalinks_locked() != utf8_twin(crate::keys::k_model_type())) by { assert(crate::keys::k_datalinks_locked()[0] != utf8_twin(crate::keys::k_model_type())[0]); }
        assert(crate::keys::k_datalinks_locked() != utf8_twin(crate::keys::k_model_datafile_entity0())) by { assert(crate::keys::k_datalinks_locked().len() != utf8_twin(crate::keys::k_model_datafile_entity0()).len()); }
        assert(crate::keys::k_datalinks_locked() != utf8_twin(crate::keys::k_model_datafile_kind0())) by { assert(crate::keys::k_datalinks_locked().len() != utf8_twin(crate::keys::k_model_datafile_kind0()).len()); }
        assert(crate::keys::k_database_datalinks_locked() != crate::keys::k_unique_id()) by { assert(crate::keys::k_database_datalinks_locked().len() != crate::keys::k_unique_id().len()); }
        assert(crate::keys::k_database_datalinks_locked() != crate::keys::k_index_in_sheet()) by { assert(crate::keys::k_database_datalinks_locked().len() != crate::keys::k_index_in_sheet().len()); }
        assert(crate::keys::k_database_datalinks_locked() != utf8_twin(crate::keys::k_model_name())) by { assert(crate::keys::k_database_datalinks_locked().len() != utf8_twin(crate::keys::k_model_name()).len()); }
        assert(crate::keys::k_database_datalinks_locked() != utf8_twin(crate::keys::k_model_type())) by { assert(crate::keys::k_database_datalinks_locked().len() != utf8_twin(crate::keys::k_model_type()).len()); }
        assert(crate::keys::k_database_datalinks_locked() != utf8_twin(crate::keys::k_model_datafile_entity0())) by { assert(crate::keys::k_database_datalinks_locked().len() != utf8_twin(crate::keys::k_model_datafile_entity0()).len()); }
        assert(crate::keys::k_database_datalinks_locked() != utf8_twin(crate::keys::k_model_datafile_kind0())) by { assert(crate::keys::k_database_datalinks_locked().len() != utf8_twin(crate::keys::k_model_datafile_kind0()).len()); }
        assert(crate::keys::k_unique_id() != crate::keys::k_index_in_sheet()) by { assert(crate::keys::k_unique_id().len() != crate::keys::k_index_in_sheet().len()); }
        assert(crate::keys::k_unique_id() != utf8_twin(crate::keys::k_model_name())) by { assert(crate::keys::k_unique_id().len() != utf8_twin(crate::keys::k_model_name()).len()); }
        assert(crate::keys::k_unique_id() != utf8_twin(crate::keys::k_model_type())) by { assert(crate::keys::k_unique_id().len() != utf8_twin(crate::keys::k_model_type()).len()); }
        assert(crate::keys::k_unique_id() != utf8_twin(crate::keys::k_model_datafile_entity0())) by { assert(crate::keys::k_unique_id().len() != utf8_twin(crate::keys::k_model_datafile_entity0()).len()); }
        assert(crate::keys::k_unique_id() != utf8_twin(crate::keys::k_model_datafile_kind0())) by { assert(crate::keys::k_unique_id().len() != utf8_twin(crate::keys::k_model_datafile_kind0()).len()); }
        assert(crate::keys::k_index_in_sheet() != utf8_twin(crate::keys::k_model_name())) by { assert(crate::keys::k_index_in_sheet().len() != utf8_twin(crate::keys::k_model_name()).len()); }
        assert(crate::keys::k_index_in_sheet() != utf8_twin(crate::keys::k_model_type())) by { assert(crate::keys::k_index_in_sheet().len() != utf8_twin(crate::keys::k_model_type()).len()); }
        assert(crate::keys::k_index_in_sheet() != utf8_twin(crate::keys::k_model_datafile_entity0())) by { assert(crate::keys::k_index_in_sheet().len() != utf8_twin(crate::keys::k_model_datafile_entity0()).len()); }
        assert(crate::keys::k_index_in_sheet() != utf8_twin(crate::keys::k_model_datafile_kind0())) by { assert(crate::keys::k_index_in_sheet().len() != utf8_twin(crate::keys::k_model_datafile_kind0()).len()); }
        assert(utf8_twin(crate::keys::k_model_name()) != utf8_twin(crate::keys::k_model_type())) by { assert(utf8_twin(crate::keys::k_model_name())[11] != utf8_twin(crate::keys::k_model_type())[11]); }
        assert(utf8_twin(crate::keys::k_model_name()) != utf8_twin(crate::keys::k_model_datafile_entity0())) by { assert(utf8_twin(crate::keys::k_model_name()).len() != utf8_twin(crate::keys::k_model_datafile_entity0()).len()); }
        assert(utf8_twin(crate::keys::k_model_name()) != utf8_twin(crate::keys::k_model_datafile_kind0())) by { assert(utf8_twin(crate::keys::k_model_name()).len() != utf8_twin(crate::keys::k_model_datafile_kind0()).len()); }
        assert(utf8_twin(crate::keys::k_model_type()) != utf8_twin(crate::keys::k_model_datafile_entity0())) by { assert(utf8_twin(crate::keys::k_model_type()).len() != utf8_twin(crate::keys::k_model_datafile_entity0()).len()); }
        assert(utf8_twin(crate::keys::k_model_type()) != utf8_twin(crate::keys::k_model_datafile_kind0())) by { assert(utf8_twin(crate::keys::k_model_type()).len() != utf8_twin(crate::keys::k_model_datafile_kind0()).len()); }
        assert(utf8_twin(crate::keys::k_model_datafile_entity0()) != utf8_twin(crate::keys::k_model_datafile_kind0())) by { assert(utf8_twin(crate::keys::k_model_datafile_entity0()).len() != utf8_twin(crate::keys::k_model_datafile_kind0()).len()); }
    }
        let mut x = Implementation {
        owner_index: 0,
        owner_part_id: 0,
        use_component_library: false,
        model_name: String::new(),
        model_type: String::new(),
        datafile_count: 0,
        model_datafile_entity0: String::new(),
        model_datafile_kind0: String::new(),
        is_current: false,
        datalinks_locked: false,
        database_datalinks_locked: false,
        unique_id: UniqueId::Simple([0x30u8, 0x30u8, 0x30u8, 0x30u8, 0x30u8, 0x30u8, 0x30u8, 0x30u8]),
        index_in_sheet: 0,
        };
    let mut seen_model_name: bool = false;
    let mut seen_model_type: bool = false;
    let mut seen_model_datafile_entity0: bool = false;
    let mut seen_model_datafile_kind0: bool = false;
        let n = pairs.len();
        let mut i: usize = 0;
        while i < n
            invariant
                0 <= i <= n,
                n == pairs@.len(),
                !Implementation::spec_fails(p.take(i as int)),
                Implementation::spec_matches(x, p.take(i as int)),
            seen_model_name == has_key(p.take(i as int), utf8_twin(crate::keys::k_model_name())),
            seen_model_type == has_key(p.take(i as int), utf8_twin(crate::keys::k_model_type())),
            seen_model_datafile_entity0 == has_key(p.take(i as int), utf8_twin(crate::keys::k_model_datafile_entity0())),
            seen_model_datafile_kind0 == has_key(p.take(i as int), utf8_twin(crate::keys::k_model_datafile_kind0())),
                counter.count == sat_add(old(counter).count, Implementation::spec_unknown(p.take(i as int))),
                0 <= Implementation::spec_unknown(p.take(i as int)) <= i,
            decreases n - i,
        {
            let key: &[u8] = pairs[i].0.as_slice();
            let val: &[u8] = pairs[i].1.as_slice();
            proof {
                assert(p[i as int] == (pairs@[i as int].0@, pairs@[i as int].1@));
                assert(p.take(i as int + 1).drop_last() =~= p.take(i as int));
                assert(p.take(i as int + 1).last() == p[i as int]);
                assert forall|j: int| 0 <= j <= i implies #[trigger] p.take(i as int + 1).take(j)
                    == p.take(j) by {
                    assert(p.take(i as int + 1).take(j) =~= p.take(j));
                }
                assert forall|j: int| 0 <= j <= i implies #[trigger] p.take(i as int).take(j)
                    == p.take(j) by {
                    assert(p.take(i as int).take(j) =~= p.take(j));
                }
            }
        if crate::common::bytes_eq(key, a_owner_index.as_slice()) {
                    match crate::parse::parse_u8(val) {
                        Ok(v) => { x.owner_index = v; },
                        Err(e) => {
                            proof {
                                assert(p[i as int].0 == crate::keys::k_owner_index());
                                assert(kind_field_fails(p, FieldKind::U8, crate::keys::k_owner_index()));
                            }
                            return Err(e);
                        },
                    }
                }
        else if crate::common::bytes_eq(key, a_owner_part_id.as_slice()) {
                    match crate::parse::parse_i8(val) {
                        Ok(v) => { x.owner_part_id = v; },
                        Err(e) => {
                            proof {
                                assert(p[i as int].0 == crate::keys::k_owner_part_id());
                                assert(kind_field_fails(p, FieldKind::I8, crate::keys::k_owner_part_id()));
                            }
                            return Err(e);
                        },
                    }
                }
        else if crate::common::bytes_eq(key, a_use_component_library.as_slice()) {
                    match crate::parse::parse_bool(val) {
                        Ok(v) => { x.use_component_library = v; },
                        Err(e) => {
                            proof {
                                assert(p[i as int].0 == crate::keys::k_use_component_library());
                                assert(kind_field_fails(p, FieldKind::Bool, crate::keys::k_use_component_library()));
                            }
                            return Err(e);
                        },
                    }
                }
        else if crate::common::bytes_eq(key, t_model_name.as_slice()) {
                    match crate::common::str_from_utf8(val) {
                        Ok(s) => { x.model_name = s; seen_model_name = true; },
                        Err(e) => {
                            proof {
                                assert(p[i as int].0 == utf8_twin(crate::keys::k_model_name()));
                                assert(str_field_fails(p, crate::keys::k_model_name()));
                            }
                            return Err(e);
                        },
                    }
                } else if crate::common::bytes_eq(key, a_model_name.as_slice()) {
                    if !seen_model_name {
                        match crate::common::str_from_utf8(val) {
                            Ok(s) => { x.model_name = s; },
                            Err(e) => {
                                proof {
                                    assert(p[i as int].0 == crate::keys::k_model_name());
                                    assert(!has_key(p.take(i as int), utf8_twin(crate::keys::k_model_name())));
                                    assert(str_field_fails(p, crate::keys::k_model_name()));
                                }
                                return Err(e);
                            },
                        }
                    }
                }
        else if crate::common::bytes_eq(key, t_model_type.as_slice()) {
                    match crate::common::str_from_utf8(val) {
                        Ok(s) => { x.model_type = s; seen_model_type = true; },
                        Err(e) => {
                            proof {
                                assert(p[i as int].0 == utf8_twin(crate::keys::k_model_type()));
                                assert(str_field_fails(p, crate::keys::k_model_type()));
                            }
                            return Err(e);
                        },
                    }
                } else if crate::common::bytes_eq(key, a_model_type.as_slice()) {
                    if !seen_model_type {
                        match crate::common::str_from_utf8(val) {
                            Ok(s) => { x.model_type = s; },
                            Err(e) => {
                                proof {
                                    assert(p[i as int].0 == crate::keys::k_model_type());
                                    assert(!has_key(p.take(i as int), utf8_twin(crate::keys::k_model_type())));
                                    assert(str_field_fails(p, crate::keys::k_model_type()));
                                }
                                return Err(e);
                            },
                        }
                    }
                }
        else if crate::common::bytes_eq(key, a_datafile_count.as_slice()) {
                    match crate::parse::parse_u16(val) {
                        Ok(v) => { x.datafile_count = v; },
                        Err(e) => {
                            proof {
                                assert(p[i as int].0 == crate::keys::k_datafile_count());
                                assert(kind_field_fails(p, FieldKind::U16, crate::keys::k_datafile_count()));
                            }
                            return Err(e);
                        },
                    }
                }
        else if crate::common::bytes_eq(key, t_model_datafile_entity0.as_slice()) {
                    match crate::common::str_from_utf8(val) {
                        Ok(s) => { x.model_datafile_entity0 = s; seen_model_datafile_entity0 = true; },
                        Err(e) => {
                            proof {
                                assert(p[i as int].0 == utf8_twin(crate::keys::k_model_datafile_entity0()));
                                assert(str_field_fails(p, crate::keys::k_model_datafile_entity0()));
                            }
                            return Err(e);
                        },
                    }
                } else if crate::common::bytes_eq(key, a_model_datafile_entity0.as_slice()) {
                    if !seen_model_datafile_entity0 {
                        match crate::common::str_from_utf8(val) {
                            Ok(s) => { x.model_datafile_entity0 = s; },
                            Err(e) => {
                                proof {
                                    assert(p[i as int].0 == crate::keys::k_model_datafile_entity0());
                                    assert(!has_key(p.take(i as int), utf8_twin(crate::keys::k_model_datafile_entity0())));
                                    assert(str_field_fails(p, crate::keys::k_model_datafile_entity0()));
                                }
                                return Err(e);
                            },
                        }
                    }
                }
        else if crate::common::bytes_eq(key, t_model_datafile_kind0.as_slice()) {
                    match crate::common::str_from_utf8(val) {
                        Ok(s) => { x.model_datafile_kind0 = s; seen_model_datafile_kind0 = true; },
                        Err(e) => {
                            proof {
                                assert(p[i as int].0 == utf8_twin(crate::keys::k_model_datafile_kind0()));
                                assert(str_field_fails(p, crate::keys::k_model_datafile_kind0()));
                            }
                            return Err(e);
                        },
                    }
                } else if crate::common::bytes_eq(key, a_model_datafile_kind0.as_slice()) {
                    if !seen_model_datafile_kind0 {
                        match crate::common::str_from_utf8(val) {
                            Ok(s) => { x.model_datafile_kind0 = s; },
                            Err(e) => {
                                proof {
                                    assert(p[i as int].0 == crate::keys::k_model_datafile_kind0());
                                    assert(!has_key(p.take(i as int), utf8_twin(crate::keys::k_model_datafile_kind0())));
                                    assert(str_field_fails(p, crate::keys::k_model_datafile_kind0()));
                                }
                                return Err(e);
                            },
                        }
                    }
                }
        else if crate::common::bytes_eq(key, a_is_current.as_slice()) {
                    match crate::parse::parse_bool(val) {
                        Ok(v) => { x.is_current = v; },
                        Err(e) => {
                            proof {
                                assert(p[i as int].0 == crate::keys::k_is_current());
                                assert(kind_field_fails(p, FieldKind::Bool, crate::keys::k_is_current()));
                            }
                            return Err(e);
                        },
                    }
                }
        else if crate::common::bytes_eq(key, a_datalinks_locked.as_slice()) {
                    match crate::parse::parse_bool(val) {
                        Ok(v) => { x.datalinks_locked = v; },
                        Err(e) => {
                            proof {
                                assert(p[i as int].0 == crate::keys::k_datalinks_locked());
                                assert(kind_field_fails(p, FieldKind::Bool, crate::keys::k_datalinks_locked()));
                            }
                            return Err(e);
                        },
                    }
                }
        else if crate::common::bytes_eq(key, a_database_datalinks_locked.as_slice()) {
                    match crate::parse::parse_bool(val) {
                        Ok(v) => { x.database_datalinks_locked = v; },
                        Err(e) => {
                            proof {
                                assert(p[i as int].0 == crate::keys::k_database_datalinks_locked());
                                assert(kind_field_fails(p, FieldKind::Bool, crate::keys::k_database_datalinks_locked()));
                            }
                            return Err(e);
                        },
                    }
                }
        else if crate::common::bytes_eq(key, a_unique_id.as_slice()) {
                    match UniqueId::from_utf8(val) {
                        Ok(v) => { x.unique_id = v; },
                        Err(e) => {
                            proof {
                                assert(p[i as int].0 == crate::keys::k_unique_id());
                                assert(kind_field_fails(p, FieldKind::Uid, crate::keys::k_unique_id()));
                            }
                            return Err(e);
                        },
                    }
                }
        else if crate::common::bytes_eq(key, a_index_in_sheet.as_slice()) {
                    match crate::parse::parse_i16(val) {
                        Ok(v) => { x.index_in_sheet = v; },
                        Err(e) => {
                            proof {
                                assert(p[i as int].0 == crate::keys::k_index_in_sheet());
                                assert(kind_field_fails(p, FieldKind::I16, crate::keys::k_index_in_sheet()));
                            }
                            return Err(e);
                        },
                    }
                }
        else {
            crate::logging::macro_unsupported_key(counter, "Implementation", key, val);
        }
            i += 1;
        }
        proof {
            assert(p.take(n as int) =~= p);
        }
        Ok(x)
    }
}

impl ImplementationChild1 {
    /// The wire record ID of this kind.
    pub open spec fn spec_record_id() -> u32 {
        46
    }

    /// Whether the binder recognizes this wire key.
    pub open spec fn spec_known_key(k: Seq<u8>) -> bool {
        ||| k == crate::keys::k_owner_index()
        ||| k == crate::keys::k_owner_part_id()
    }

    /// How many pairs hold keys the binder does not recognize.
    pub open spec fn spec_unknown(p: SpecPairs) -> int
        decreases p.len(),
    {
        if p.len() == 0 {
            0
        } else {
            Self::spec_unknown(p.drop_last()) + if Self::spec_known_key(p.last().0) {
                0int
            } else {
                1int
            }
        }
    }

    /// Whether some pair's value is one its field's parser rejects.
    pub open spec fn spec_fails(p: SpecPairs) -> bool {
        ||| kind_field_fails(p, FieldKind::U8, crate::keys::k_owner_index())
        ||| kind_field_fails(p, FieldKind::I8, crate::keys::k_owner_part_id())
    }

    /// Each field as the walk of the pairs leaves it.
    pub open spec fn spec_matches(x: ImplementationChild1, p: SpecPairs) -> bool {
        &&& x.owner_index == u8_field(p, crate::keys::k_owner_index())
        &&& x.owner_part_id == i8_field(p, crate::keys::k_owner_part_id())
    }

    /// Bind the fields of one `ImplementationChild1` record from its key-value pairs.
    #[verifier::loop_isolation(false)]
    #[verifier::rlimit(100)]
    pub fn from_record(pairs: &[(Vec<u8>, Vec<u8>)], counter: &mut UnsupportedCounter) -> (r:
        Result<ImplementationChild1, ErrorKind>)
        ensures
            r is Ok <==> !ImplementationChild1::spec_fails(pairs_view(pairs@)),
            r is Ok ==> ImplementationChild1::spec_matches(r->Ok_0, pairs_view(pairs@)),
            r is Ok ==> final(counter).count == sat_add(
                old(counter).count,
                ImplementationChild1::spec_unknown(pairs_view(pairs@)),
            ),
            final(counter).count >= old(counter).count,
    {
        let ghost p = pairs_view(pairs@);
        proof {
            crate::common::lemma_pairs_view(pairs@);
            assert(p.take(0) =~= Seq::<(Seq<u8>, Seq<u8>)>::empty());
        }
    let a_owner_index: [u8; 10] = [0x4fu8, 0x77u8, 0x6eu8, 0x65u8, 0x72u8, 0x49u8, 0x6eu8, 0x64u8, 0x65u8, 0x78u8];
    let a_owner_part_id: [u8; 11] = [0x4fu8, 0x77u8, 0x6eu8, 0x65u8, 0x72u8, 0x50u8, 0x61u8, 0x72u8, 0x74u8, 0x49u8, 0x64u8];
    proof {
        assert(a_owner_index@ =~= crate::keys::k_owner_index());
        assert(a_owner_part_id@ =~= crate::keys::k_owner_part_id());
        assert(crate::keys::k_owner_index() != crate::keys::k_owner_part_id()) by { assert(crate::keys::k_owner_index().len() != crate::keys::k_owner_part_id().len()); }
    }
        let mut x = ImplementationChild1 {
        owner_index: 0,
        owner_part_id: 0,
        };

        let n = pairs.len();
        let mut i: usize = 0;
        while i < n
            invariant
                0 <= i <= n,
                n == pairs@.len(),
                !ImplementationChild1::spec_fails(p.take(i as int)),
                ImplementationChild1::spec_matches(x, p.take(i as int)),

                counter.count == sat_add(old(counter).count, ImplementationChild1::spec_unknown(p.take(i as int))),
                0 <= ImplementationChild1::spec_unknown(p.take(i as int)) <= i,
            decreases n - i,
        {
            let key: &[u8] = pairs[i].0.as_slice();
            let val: &[u8] = pairs[i].1.as_slice();
            proof {
                assert(p[i as int] == (pairs@[i as int].0@, pairs@[i as int].1@));
                assert(p.take(i as int + 1).drop_last() =~= p.take(i as int));
                assert(p.take(i as int + 1).last() == p[i as int]);
                assert forall|j: int| 0 <= j <= i implies #[trigger] p.take(i as int + 1).take(j)
                    == p.take(j) by {
                    assert(p.take(i as int + 1).take(j) =~= p.take(j));
                }
                assert forall|j: int| 0 <= j <= i implies #[trigger] p.take(i as int).take(j)
                    == p.take(j) by {
                    assert(p.take(i as int).take(j) =~= p.take(j));
                }
            }
        if crate::common::bytes_eq(key, a_owner_index.as_slice()) {
                    match crate::parse::parse_u8(val) {
                        Ok(v) => { x.owner_index = v; },
                        Err(e) => {
                            proof {
                                assert(p[i as int].0 == crate::keys::k_owner_index());
                                assert(kind_field_fails(p, FieldKind::U8, crate::keys::k_owner_index()));
                            }
                            return Err(e);
                        },
                    }
                }
        else if crate::common::bytes_eq(key, a_owner_part_id.as_slice()) {
                    match crate::parse::parse_i8(val) {
                        Ok(v) => { x.owner_part_id = v; },
                        Err(e) => {
                            proof {
                                assert(p[i as int].0 == crate::keys::k_owner_part_id());
                                assert(kind_field_fails(p, FieldKind::I8, crate::keys::k_owner_part_id()));
                            }
                            return Err(e);
                        },
                    }
                }
        else {
            crate::logging::macro_unsupported_key(counter, "ImplementationChild1", key, val);
        }
            i += 1;
        }
        proof {
            assert(p.take(n as int) =~= p);
        }
        Ok(x)
    }
}

impl ImplementationChild2 {
    /// The wire record ID of this kind.
    pub open spec fn spec_record_id() -> u32 {
        48
    }

    /// Whether the binder recognizes this wire key.
    pub open spec fn spec_known_key(k: Seq<u8>) -> bool {
        ||| k == crate::keys::k_owner_index()
        ||| k == crate::keys::k_owner_part_id()
    }

    /// How many pairs hold keys the binder does not recognize.
    pub open spec fn spec_unknown(p: SpecPairs) -> int
        decreases p.len(),
    {
        if p.len() == 0 {
            0
        } else {
            Self::spec_unknown(p.drop_last()) + if Self::spec_known_key(p.last().0) {
                0int
            } else {
                1int
            }
        }
    }

    /// Whether some pair's value is one its field's parser rejects.
    pub open spec fn spec_fails(p: SpecPairs) -> bool {
        ||| kind_field_fails(p, FieldKind::U8, crate::keys::k_owner_index())
        ||| kind_field_fails(p, FieldKind::I8, crate::keys::k_owner_part_id())
    }

    /// Each field as the walk of the pairs leaves it.
    pub open spec fn spec_matches(x: ImplementationChild2, p: SpecPairs) -> bool {
        &&& x.owner_index == u8_field(p, crate::keys::k_owner_index())
        &&& x.owner_part_id == i8_field(p, crate::keys::k_owner_part_id())
    }

    /// Bind the fields of one `ImplementationChild2` record from its key-value pairs.
    #[verifier::loop_isolation(false)]
    #[verifier::rlimit(100)]
    pub fn from_record(pairs: &[(Vec<u8>, Vec<u8>)], counter: &mut UnsupportedCounter) -> (r:
        Result<ImplementationChild2, ErrorKind>)
        ensures
            r is Ok <==> !ImplementationChild2::spec_fails(pairs_view(pairs@)),
            r is Ok ==> ImplementationChild2::spec_matches(r->Ok_0, pairs_view(pairs@)),
            r is Ok ==> final(counter).count == sat_add(
                old(counter).count,
                ImplementationChild2::spec_unknown(pairs_view(pairs@)),
            ),
            final(counter).count >= old(counter).count,
    {
        let ghost p = pairs_view(pairs@);
        proof {
            crate::common::lemma_pairs_view(pairs@);
            assert(p.take(0) =~= Seq::<(Seq<u8>, Seq<u8>)>::empty());
        }
    let a_owner_index: [u8; 10] = [0x4fu8, 0x77u8, 0x6eu8, 0x65u8, 0x72u8, 0x49u8, 0x6eu8, 0x64u8, 0x65u8, 0x78u8];
    let a_owner_part_id: [u8; 11] = [0x4fu8, 0x77u8, 0x6eu8, 0x65u8, 0x72u8, 0x50u8, 0x61u8, 0x72u8, 0x74u8, 0x49u8, 0x64u8];
    proof {
        assert(a_owner_index@ =~= crate::keys::k_owner_index());
        assert(a_owner_part_id@ =~= crate::keys::k_owner_part_id());
        assert(crate::keys::k_owner_index() != crate::keys::k_owner_part_id()) by { assert(crate::keys::k_owner_index().len() != crate::keys::k_owner_part_id().len()); }
    }
        let mut x = ImplementationChild2 {
        owner_index: 0,
        owner_part_id: 0,
        };

        let n = pairs.len();
        let mut i: usize = 0;
        while i < n
            invariant
                0 <= i <= n,
                n == pairs@.len(),
                !ImplementationChild2::spec_fails(p.take(i as int)),
                ImplementationChild2::spec_matches(x, p.take(i as int)),

                counter.count == sat_add(old(counter).count, ImplementationChild2::spec_unknown(p.take(i as int))),
                0 <= ImplementationChild2::spec_unknown(p.take(i as int)) <= i,
            decreases n - i,
        {
            let key: &[u8] = pairs[i].0.as_slice();
            let val: &[u8] = pairs[i].1.as_slice();
            proof {
                assert(p[i as int] == (pairs@[i as int].0@, pairs@[i as int].1@));
                assert(p.take(i as int + 1).drop_last() =~= p.take(i as int));
                assert(p.take(i as int + 1).last() == p[i as int]);
                assert forall|j: int| 0 <= j <= i implies #[trigger] p.take(i as int + 1).take(j)
                    == p.take(j) by {
                    assert(p.take(i as int + 1).take(j) =~= p.take(j));
                }
                assert forall|j: int| 0 <= j <= i implies #[trigger] p.take(i as int).take(j)
                    == p.take(j) by {
                    assert(p.take(i as int).take(j) =~= p.take(j));
                }
            }
        if crate::common::bytes_eq(key, a_owner_index.as_slice()) {
                    match crate::parse::parse_u8(val) {
                        Ok(v) => { x.owner_index = v; },
                        Err(e) => {
                            proof {
                                assert(p[i as int].0 == crate::keys::k_owner_index());
                                assert(kind_field_fails(p, FieldKind::U8, crate::keys::k_owner_index()));
                            }
                            return Err(e);
                        },
                    }
                }
        else if crate::common::bytes_eq(key, a_owner_part_id.as_slice()) {
                    match crate::parse::parse_i8(val) {
                        Ok(v) => { x.owner_part_id = v; },
                        Err(e) => {
                            proof {
                                assert(p[i as int].0 == crate::keys::k_owner_part_id());
                                assert(kind_field_fails(p, FieldKind::I8, crate::keys::k_owner_part_id()));
                            }
                            return Err(e);
                        },
                    }
                }
        else {
            crate::logging::macro_unsupported_key(counter, "ImplementationChild2", key, val);
        }
            i += 1;
        }
        proof {
            assert(p.take(n as int) =~= p);
        }
        Ok(x)
    }
}

impl SchPin {
    /// The wire record ID of this kind.
    pub open spec fn spec_record_id() -> u32 {
        2
    }

    /// Whether the binder recognizes this wire key.
    pub open spec fn spec_known_key(k: Seq<u8>) -> bool {
        ||| k == crate::keys::k_formal_type()
        ||| k == crate::keys::k_owner_index()
        ||| k == crate::keys::k_owner_part_id()
        ||| k == crate::keys::k_description()
        ||| k == utf8_twin(crate::keys::k_description())
        ||| k == crate::keys::k_designator()
        ||| k == utf8_twin(crate::keys::k_designator())
        ||| k == crate::keys::k_name()
        ||| k == utf8_twin(crate::keys::k_name())
        ||| k == crate::keys::k_location_x()
        ||| k == crate::keys::k_location_y()
        ||| k == crate::keys::k_electrical()
        ||| k == crate::keys::k_pin_length()
        ||| k == crate::keys::k_swap_id_part()
        ||| k == utf8_twin(crate::keys::k_swap_id_part())
        ||| k == crate::keys::k_pin_propagation_delay()
        ||| k == crate::keys::k_unique_id()
    }

    /// How many pairs hold keys the binder does not recognize.
    pub open spec fn spec_unknown(p: SpecPairs) -> int
        decreases p.len(),
    {
        if p.len() == 0 {
            0
        } else {
            Self::spec_unknown(p.drop_last()) + if Self::spec_known_key(p.last().0) {
                0int
            } else {
                1int
            }
        }
    }

    /// Whether some pair's value is one its field's parser rejects.
    pub open spec fn spec_fails(p: SpecPairs) -> bool {
        ||| kind_field_fails(p, FieldKind::U8, crate::keys::k_formal_type())
        ||| kind_field_fails(p, FieldKind::U8, crate::keys::k_owner_index())
        ||| kind_field_fails(p, FieldKind::U8, crate::keys::k_owner_part_id())
        ||| str_field_fails(p, crate::keys::k_description())
        ||| str_field_fails(p, crate::keys::k_designator())
        ||| str_field_fails(p, crate::keys::k_name())
        ||| kind_field_fails(p, FieldKind::I32, crate::keys::k_location_x())
        ||| kind_field_fails(p, FieldKind::I32, crate::keys::k_location_y())
        ||| kind_field_fails(p, FieldKind::Etype, crate::keys::k_electrical())
        ||| kind_field_fails(p, FieldKind::U32, crate::keys::k_pin_length())
        ||| str_field_fails(p, crate::keys::k_swap_id_part())
        ||| kind_field_fails(p, FieldKind::Uid, crate::keys::k_unique_id())
    }

    /// Each field as the walk of the pairs leaves it.
    pub open spec fn spec_matches(x: SchPin, p: SpecPairs) -> bool {
        &&& x.formal_type == u8_field(p, crate::keys::k_formal_type())
        &&& x.owner_index == u8_field(p, crate::keys::k_owner_index())
        &&& x.owner_part_id == u8_field(p, crate::keys::k_owner_part_id())
        &&& x.description@ == str_field(p, crate::keys::k_description())
        &&& x.designator@ == str_field(p, crate::keys::k_designator())
        &&& x.name@ == str_field(p, crate::keys::k_name())
        &&& x.location == loc_field(p, crate::keys::k_location_x(), crate::keys::k_location_y())
        &&& x.electrical == etype_field(p, crate::keys::k_electrical())
        &&& x.length == u32_field(p, crate::keys::k_pin_length())
        &&& x.swap_id_part@ == str_field(p, crate::keys::k_swap_id_part())
        &&& x.propegation_delay@ == raw_field(p, crate::keys::k_pin_propagation_delay())
        &&& x.unique_id == uid_field(p, crate::keys::k_unique_id())
    }

    /// Bind the fields of one `SchPin` record from its key-value pairs.
    #[verifier::loop_isolation(false)]
    #[verifier::rlimit(100)]
    pub fn from_record(pairs: &[(Vec<u8>, Vec<u8>)], counter: &mut UnsupportedCounter) -> (r:
        Result<SchPin, ErrorKind>)
        ensures
            r is Ok <==> !SchPin::spec_fails(pairs_view(pairs@)),
            r is Ok ==> SchPin::spec_matches(r->Ok_0, pairs_view(pairs@)),
            r is Ok ==> final(counter).count == sat_add(
                old(counter).count,
                SchPin::spec_unknown(pairs_view(pairs@)),
            ),
            final(counter).count >= old(counter).count,
    {
        let ghost p = pairs_view(pairs@);
        proof {
            crate::common::lemma_pairs_view(pairs@);
            assert(p.take(0) =~= Seq::<(Seq<u8>, Seq<u8>)>::empty());
        }
    let a_formal_type: [u8; 10] = [0x46u8, 0x6fu8, 0x72u8, 0x6du8, 0x61u8, 0x6cu8, 0x54u8, 0x79u8, 0x70u8, 0x65u8];
    let a_owner_index: [u8; 10] = [0x4fu8, 0x77u8, 0x6eu8, 0x65u8, 0x72u8, 0x49u8, 0x6eu8, 0x64u8, 0x65u8, 0x78u8];
    let a_owner_part_id: [u8; 11] = [0x4fu8, 0x77u8, 0x6eu8, 0x65u8, 0x72u8, 0x50u8, 0x61u8, 0x72u8, 0x74u8, 0x49u8, 0x64u8];
    let a_description: [u8; 11] = [0x44u8, 0x65u8, 0x73u8, 0x63u8, 0x72u8, 0x69u8, 0x70u8, 0x74u8, 0x69u8, 0x6fu8, 0x6eu8];
    let a_designator: [u8; 10] = [0x44u8, 0x65u8, 0x73u8, 0x69u8, 0x67u8, 0x6eu8, 0x61u8, 0x74u8, 0x6fu8, 0x72u8];
    let a_name: [u8; 4] = [0x4eu8, 0x61u8, 0x6du8, 0x65u8];
    let a_location_x: [u8; 10] = [0x4cu8, 0x6fu8, 0x63u8, 0x61u8, 0x74u8, 0x69u8, 0x6fu8, 0x6eu8, 0x2eu8, 0x58u8];
    let a_location_y: [u8; 10] = [0x4cu8, 0x6fu8, 0x63u8, 0x61u8, 0x74u8, 0x69u8, 0x6fu8, 0x6eu8, 0x2eu8, 0x59u8];
    let a_electrical: [u8; 10] = [0x45u8, 0x6cu8, 0x65u8, 0x63u8, 0x74u8, 0x72u8, 0x69u8, 0x63u8, 0x61u8, 0x6cu8];
    let a_pin_length: [u8; 9] = [0x50u8, 0x69u8, 0x6eu8, 0x4cu8, 0x65u8, 0x6eu8, 0x67u8, 0x74u8, 0x68u8];
    let a_swap_id_part: [u8; 10] = [0x53u8, 0x77u8, 0x61u8, 0x70u8, 0x49u8, 0x44u8, 0x50u8, 0x61u8, 0x72u8, 0x74u8];
    let a_pin_propagation_delay: [u8; 19] = [0x50u8, 0x69u8, 0x6eu8, 0x50u8, 0x72u8, 0x6fu8, 0x70u8, 0x61u8, 0x67u8, 0x61u8, 0x74u8, 0x69u8, 0x6fu8, 0x6eu8, 0x44u8, 0x65u8, 0x6cu8, 0x61u8, 0x79u8];
    let a_unique_id: [u8; 8] = [0x55u8, 0x6eu8, 0x69u8, 0x71u8, 0x75u8, 0x65u8, 0x49u8, 0x44u8];
    let t_description: [u8; 17] = [0x25u8, 0x55u8, 0x54u8, 0x46u8, 0x38u8, 0x25u8, 0x44u8, 0x65u8, 0x73u8, 0x63u8, 0x72u8, 0x69u8, 0x70u8, 0x74u8, 0x69u8, 0x6fu8, 0x6eu8];
    let t_designator: [u8; 16] = [0x25u8, 0x55u8, 0x54u8, 0x46u8, 0x38u8, 0x25u8, 0x44u8, 0x65u8, 0x73u8, 0x69u8, 0x67u8, 0x6eu8, 0x61u8, 0x74u8, 0x6fu8, 0x72u8];
    let t_name: [u8; 10] = [0x25u8, 0x55u8, 0x54u8, 0x46u8, 0x38u8, 0x25u8, 0x4eu8, 0x61u8, 0x6du8, 0x65u8];
    let t_swap_id_part: [u8; 16] = [0x25u8, 0x55u8, 0x54u8, 0x46u8, 0x38u8, 0x25u8, 0x53u8, 0x77u8, 0x61u8, 0x70u8, 0x49u8, 0x44u8, 0x50u8, 0x61u8, 0x72u8, 0x74u8];
    proof {
        assert(a_formal_type@ =~= crate::keys::k_formal_type());
        assert(a_owner_index@ =~= crate::keys::k_owner_index());
        assert(a_owner_part_id@ =~= crate::keys::k_owner_part_id());
        assert(a_description@ =~= crate::keys::k_description());
        assert(a_designator@ =~= crate::keys::k_designator());
        assert(a_name@ =~= crate::keys::k_name());
        assert(a_location_x@ =~= crate::keys::k_location_x());
        assert(a_location_y@ =~= crate::keys::k_location_y());
        assert(a_electrical@ =~= crate::keys::k_electrical());
        assert(a_pin_length@ =~= crate::keys::k_pin_length());
        assert(a_swap_id_part@ =~= crate::keys::k_swap_id_part());
        assert(a_pin_propagation_delay@ =~= crate::keys::k_pin_propagation_delay());
        assert(a_unique_id@ =~= crate::keys::k_unique_id());
        assert(t_description@ =~= utf8_twin(crate::keys::k_description()));
        assert(t_designator@ =~= utf8_twin(crate::keys::k_designator()));
        assert(t_name@ =~= utf8_twin(crate::keys::k_name()));
        assert(t_swap_id_part@ =~= utf8_twin(crate::keys::k_swap_id_part()));
        assert(crate::keys::k_formal_type() != crate::keys::k_owner_index()) by { assert(crate::keys::k_formal_type()[0] != crate::keys::k_owner_index()[0]); }
        assert(crate::keys::k_formal_type() != crate::keys::k_owner_part_id()) by { assert(crate::keys::k_formal_type().len() != crate::keys::k_owner_part_id().len()); }
        assert(crate::keys::k_formal_type() != crate::keys::k_description()) by { assert(crate::keys::k_formal_type().len() != crate::keys::k_description().len()); }
        assert(crate::keys::k_formal_type() != crate::keys::k_designator()) by { assert(crate::keys::k_formal_type()[0] != crate::keys::k_designator()[0]); }
        assert(crate::keys::k_formal_type() != crate::keys::k_name()) by { assert(crate::keys::k_formal_type().len() != crate::keys::k_name().len()); }
        assert(crate::keys::k_formal_type() != crate::keys::k_location_x()) by { assert(crate::keys::k_formal_type()[0] != crate::keys::k_location_x()[0]); }
        assert(crate::keys::k_formal_type() != crate::keys::k_location_y()) by { assert(crate::keys::k_formal_type()[0] != crate::keys::k_location_y()[0]); }
        assert(crate::keys::k_formal_type() != crate::keys::k_electrical()) by { assert(crate::keys::k_formal_type()[0] != crate::keys::k_electrical()[0]); }
        assert(crate::keys::k_formal_type() != crate::keys::k_pin_length()) by { assert(crate::keys::k_formal_type().len() != crate::keys::k_pin_length().len()); }
        assert(crate::keys::k_formal_type() != crate::keys::k_swap_id_part()) by { assert(crate::keys::k_formal_type()[0] != crate::keys::k_swap_id_part()[0]); }
        assert(crate::keys::k_formal_type() != crate::keys::k_pin_propagation_delay()) by { assert(crate::keys::k_formal_type().len() != crate::keys::k_pin_propagation_delay().len()); }
        assert(crate::keys::k_formal_type() != crate::keys::k_unique_id()) by { assert(crate::keys::k_formal_type().len() != crate::keys::k_unique_id().len()); }
        assert(crate::keys::k_formal_type() != utf8_twin(crate::keys::k_description())) by { assert(crate::keys::k_formal_type().len() != utf8_twin(crate::keys::k_description()).len()); }
        assert(crate::keys::k_formal_type() != utf8_twin(crate::keys::k_designator())) by { assert(crate::keys::k_formal_type().len() != utf8_twin(crate::keys::k_designator()).len()); }
        assert(crate::keys::k_formal_type() != utf8_twin(crate::keys::k_name())) by { assert(crate::keys::k_formal_type()[0] != utf8_twin(crate::keys::k_name())[0]); }
        assert(crate::keys::k_formal_type() != utf8_twin(crate::keys::k_swap_id_part())) by { assert(crate::keys::k_formal_type().len() != utf8_twin(crate::keys::k_swap_id_part()).len()); }
        assert(crate::keys::k_owner_index() != crate::keys::k_owner_part_id()) by { assert(crate::keys::k_owner_index().len() != crate::keys::k_owner_part_id().len()); }
        assert(crate::keys::k_owner_index() != crate::keys::k_description()) by { assert(crate::keys::k_owner_index().len() != crate::keys::k_description().len()); }
        assert(crate::keys::k_owner_index() != crate::keys::k_designator()) by { assert(crate::keys::k_owner_index()[0] != crate::keys::k_designator()[0]); }
        assert(crate::keys::k_owner_index() != crate::keys::k_name()) by { assert(crate::keys::k_owner_index().len() != crate::keys::k_name().len()); }
        assert(crate::keys::k_owner_index() != crate::keys::k_location_x()) by { assert(crate::keys::k_owner_index()[0] != crate::keys::k_location_x()[0]); }
        assert(crate::keys::k_owner_index() != crate::keys::k_location_y()) by { assert(crate::keys::k_owner_index()[0] != crate::keys::k_location_y()[0]); }
        assert(crate::keys::k_owner_index() != crate::keys::k_electrical()) by { assert(crate::keys::k_owner_index()[0] != crate::keys::k_electrical()[0]); }
        assert(crate::keys::k_owner_index() != crate::keys::k_pin_length()) by { assert(crate::keys::k_owner_index().len() != crate::keys::k_pin_length().len()); }
        assert(crate::keys::k_owner_index() != crate::keys::k_swap_id_part()) by { assert(crate::keys::k_owner_index()[0] != crate::keys::k_swap_id_part()[0]); }
        assert(crate::keys::k_owner_index() != crate::keys::k_pin_propagation_delay()) by { assert(crate::keys::k_owner_index().len() != crate::keys::k_pin_propagation_delay().len()); }
        assert(crate::keys::k_owner_index() != crate::keys::k_unique_id()) by { assert(crate::keys::k_owner_index().len() != crate::keys::k_unique_id().len()); }
        assert(crate::keys::k_owner_index() != utf8_twin(crate::keys::k_description())) by { assert(crate::keys::k_owner_index().len() != utf8_twin(crate::keys::k_description()).len()); }
        assert(crate::keys::k_owner_index() != utf8_twin(crate::keys::k_designator())) by { assert(crate::keys::k_owner_index().len() != utf8_twin(crate::keys::k_designator()).len()); }
        assert(crate::keys::k_owner_index() != utf8_twin(crate::keys::k_name())) by { assert(crate::keys::k_owner_index()[0] != utf8_twin(crate::keys::k_name())[0]); }
        assert(crate::keys::k_owner_index() != utf8_twin(crate::keys::k_swap_id_part())) by { assert(crate::keys::k_owner_index().len() != utf8_twin(crate::keys::k_swap_id_part()).len()); }
        assert(crate::keys::k_owner_part_id() != crate::keys::k_description()) by { assert(crate::keys::k_owner_part_id()[0] != crate::keys::k_description()[0]); }
        assert(crate::keys::k_owner_part_id() != crate::keys::k_designator()) by { assert(crate::keys::k_owner_part_id().len() != crate::keys::k_designator().len()); }
        assert(crate::keys::k_owner_part_id() != crate::keys::k_name()) by { assert(crate::keys::k_owner_part_id().len() != crate::keys::k_name().len()); }
        assert(crate::keys::k_owner_part_id() != crate::keys::k_location_x()) by { assert(crate::keys::k_owner_part_id().len() != crate::keys::k_location_x().len()); }
        assert(crate::keys::k_owner_part_id() != crate::keys::k_location_y()) by { assert(crate::keys::k_owner_part_id().len() != crate::keys::k_location_y().len()); }
        assert(crate::keys::k_owner_part_id() != crate::keys::k_electrical()) by { assert(crate::keys::k_owner_part_id().len() != crate::keys::k_electrical().len()); }
        assert(crate::keys::k_owner_part_id() != crate::keys::k_pin_length()) by { assert(crate::keys::k_owner_part_id().len() != crate::keys::k_pin_length().len()); }
        assert(crate::keys::k_owner_part_id() != crate::keys::k_swap_id_part()) by { assert(crate::keys::k_owner_part_id().len() != crate::keys::k_swap_id_part().len()); }
        assert(crate::keys::k_owner_part_id() != crate::keys::k_pin_propagation_delay()) by { assert(crate::keys::k_owner_part_id().len() != crate::keys::k_pin_propagation_delay().len()); }
        assert(crate::keys::k_owner_part_id() != crate::keys::k_unique_id()) by { assert(crate::keys::k_owner_part_id().len() != crate::keys::k_unique_id().len()); }
        assert(crate::keys::k_owner_part_id() != utf8_twin(crate::keys::k_description())) by { assert(crate::keys::k_owner_part_id().len() != utf8_twin(crate::keys::k_description()).len()); }
        assert(crate::keys::k_owner_part_id() != utf8_twin(crate::keys::k_designator())) by { assert(crate::keys::k_owner_part_id().len() != utf8_twin(crate::keys::k_designator()).len()); }
        assert(crate::keys::k_owner_part_id() != utf8_twin(crate::keys::k_name())) by { assert(crate::keys::k_owner_part_id().len() != utf8_twin(crate::keys::k_name()).len()); }
        assert(crate::keys::k_owner_part_id() != utf8_twin(crate::keys::k_swap_id_part())) by { assert(crate::keys::k_owner_part_id().len() != utf8_twin(crate::keys::k_swap_id_part()).len()); }
        assert(crate::keys::k_description() != crate::keys::k_designator()) by { assert(crate::keys::k_description().len() != crate::keys::k_designator().len()); }
        assert(crate::keys::k_description() != crate::keys::k_name()) by { assert(crate::keys::k_description().len() != crate::keys::k_name().len()); }
        assert(crate::keys::k_description() != crate::keys::k_location_x()) by { assert(crate::keys::k_description().len() != crate::keys::k_location_x().len()); }
        assert(crate::keys::k_description() != crate::keys::k_location_y()) by { assert(crate::keys::k_description().len() != crate::keys::k_location_y().len()); }
        assert(crate::keys::k_description() != crate::keys::k_electrical()) by { assert(crate::keys::k_description().len() != crate::keys::k_electrical().len()); }
        assert(crate::keys::k_description() != crate::keys::k_pin_length()) by { assert(crate::keys::k_description().len() != crate::keys::k_pin_length().len()); }
        assert(crate::keys::k_description() != crate::keys::k_swap_id_part()) by { assert(crate::keys::k_description().len() != crate::keys::k_swap_id_part().len()); }
        assert(crate::keys::k_description() != crate::keys::k_pin_propagation_delay()) by { assert(crate::keys::k_description().len() != crate::keys::k_pin_propagation_delay().len()); }
        assert(crate::keys::k_description() != crate::keys::k_unique_id()) by { assert(crate::keys::k_description().len() != crate::keys::k_unique_id().len()); }
        assert(crate::keys::k_description() != utf8_twin(crate::keys::k_description())) by { assert(crate::keys::k_description().len() != utf8_twin(crate::keys::k_description()).len()); }
        assert(crate::keys::k_description() != utf8_twin(crate::keys::k_designator())) by { assert(crate::keys::k_description().len() != utf8_twin(crate::keys::k_designator()).len()); }
        assert(crate::keys::k_description() != utf8_twin(crate::keys::k_name())) by { assert(crate::keys::k_description().len() != utf8_twin(crate::keys::k_name()).len()); }
        assert(crate::keys::k_description() != utf8_twin(crate::keys::k_swap_id_part())) by { assert(crate::keys::k_description().len() != utf8_twin(crate::keys::k_swap_id_part()).len()); }
        assert(crate::keys::k_designator() != crate::keys::k_name()) by { assert(crate::keys::k_designator().len() != crate::keys::k_name().len()); }
        assert(crate::keys::k_designator() != crate::keys::k_location_x()) by { assert(crate::keys::k_designator()[0] != crate::keys::k_location_x()[0]); }
        assert(crate::keys::k_designator() != crate::keys::k_location_y()) by { assert(crate::keys::k_designator()[0] != crate::keys::k_location_y()[0]); }
        assert(crate::keys::k_designator() != crate::keys::k_electrical()) by { assert(crate::keys::k_designator()[0] != crate::keys::k_electrical()[0]); }
        assert(crate::keys::k_designator() != crate::keys::k_pin_length()) by { assert(crate::keys::k_designator().len() != crate::keys::k_pin_length().len()); }
        assert(crate::keys::k_designator() != crate::keys::k_swap_id_part()) by { assert(crate::keys::k_designator()[0] != crate::keys::k_swap_id_part()[0]); }
        assert(crate::keys::k_designator() != crate::keys::k_pin_propagation_delay()) by { assert(crate::keys::k_designator().len() != crate::keys::k_pin_propagation_delay().len()); }
        assert(crate::keys::k_designator() != crate::keys::k_unique_id()) by { assert(crate::keys::k_designator().len() != crate::keys::k_unique_id().len()); }
        assert(crate::keys::k_designator() != utf8_twin(crate::keys::k_description())) by { assert(crate::keys::k_designator().len() != utf8_twin(crate::keys::k_description()).len()); }
        assert(crate::keys::k_designator() != utf8_twin(crate::keys::k_designator())) by { assert(crate::keys::k_designator().len() != utf8_twin(crate::keys::k_designator()).len()); }
        assert(crate::keys::k_designator() != utf8_twin(crate::keys::k_name())) by { assert(crate::keys::k_designator()[0] != utf8_twin(crate::keys::k_name())[0]); }
        assert(crate::keys::k_designator() != utf8_twin(crate::keys::k_swap_id_part())) by { assert(crate::keys::k_designator().len() != utf8_twin(crate::keys::k_swap_id_part()).len()); }
        assert(crate::keys::k_name() != crate::keys::k_location_x()) by { assert(crate::keys::k_name().len() != crate::keys::k_location_x().len()); }
        assert(crate::keys::k_name() != crate::keys::k_location_y()) by { assert(crate::keys::k_name().len() != crate::keys::k_location_y().len()); }
        assert(crate::keys::k_name() != crate::keys::k_electrical()) by { assert(crate::keys::k_name().len() != crate::keys::k_electrical().len()); }
        assert(crate::keys::k_name() != crate::keys::k_pin_length()) by { assert(crate::keys::k_name().len() != crate::keys::k_pin_length().len()); }
        assert(crate::keys::k_name() != crate::keys::k_swap_id_part()) by { assert(crate::keys::k_name().len() != crate::keys::k_swap_id_part().len()); }
        assert(crate::keys::k_name() != crate::keys::k_pin_propagation_delay()) by { assert(crate::keys::k_name().len() != crate::keys::k_pin_propagation_delay().len()); }
        assert(crate::keys::k_name() != crate::keys::k_unique_id()) by { assert(crate::keys::k_name().len() != crate::keys::k_unique_id().len()); }
        assert(crate::keys::k_name() != utf8_twin(crate::keys::k_description())) by { assert(crate::keys::k_name().len() != utf8_twin(crate::keys::k_description()).len()); }
        assert(crate::keys::k_name() != utf8_twin(crate::keys::k_designator())) by { assert(crate::keys::k_name().len() != utf8_twin(crate::keys::k_designator()).len()); }
        assert(crate::keys::k_name() != utf8_twin(crate::keys::k_name())) by { assert(crate::keys::k_name().len() != utf8_twin(crate::keys::k_name()).len()); }
        assert(crate::keys::k_name() != utf8_twin(crate::keys::k_swap_id_part())) by { assert(crate::keys::k_name().len() != utf8_twin(crate::keys::k_swap_id_part()).len()); }
        assert(crate::keys::k_location_x() != crate::keys::k_location_y()) by { assert(crate::keys::k_location_x()[9] != crate::keys::k_location_y()[9]); }
        assert(crate::keys::k_location_x() != crate::keys::k_electrical()) by { assert(crate::keys::k_location_x()[0] != crate::keys::k_electrical()[0]); }
        assert(crate::keys::k_location_x() != crate::keys::k_pin_length()) by { assert(crate::keys::k_location_x().len() != crate::keys::k_pin_length().len()); }
        assert(crate::keys::k_location_x() != crate::keys::k_swap_id_part()) by { assert(crate::keys::k_location_x()[0] != crate::keys::k_swap_id_part()[0]); }
        assert(crate::keys::k_location_x() != crate::keys::k_pin_propagation_delay()) by { assert(crate::keys::k_location_x().len() != crate::keys::k_pin_propagation_delay().len()); }
        assert(crate::keys::k_location_x() != crate::keys::k_unique_id()) by { assert(crate::keys::k_location_x().len() != crate::keys::k_unique_id().len()); }
        assert(crate::keys::k_location_x() != utf8_twin(crate::keys::k_description())) by { assert(crate::keys::k_location_x().len() != utf8_twin(crate::keys::k_description()).len()); }
        assert(crate::keys::k_location_x() != utf8_twin(crate::keys::k_designator())) by { assert(crate::keys::k_location_x().len() != utf8_twin(crate::keys::k_designator()).len()); }
        assert(crate::keys::k_location_x() != utf8_twin(crate::keys::k_name())) by { assert(crate::keys::k_location_x()[0] != utf8_twin(crate::keys::k_name())[0]); }
        assert(crate::keys::k_location_x() != utf8_twin(crate::keys::k_swap_id_part())) by { assert(crate::keys::k_location_x().len() != utf8_twin(crate::keys::k_swap_id_part()).len()); }
        assert(crate::keys::k_location_y() != crate::keys::k_electrical()) by { assert(crate::keys::k_location_y()[0] != crate::keys::k_electrical()[0]); }
        assert(crate::keys::k_location_y() != crate::keys::k_pin_length()) by { assert(crate::keys::k_location_y().len() != crate::keys::k_pin_length().len()); }
        assert(crate::keys::k_location_y() != crate::keys::k_swap_id_part()) by { assert(crate::keys::k_location_y()[0] != crate::keys::k_swap_id_part()[0]); }
        assert(crate::keys::k_location_y() != crate::keys::k_pin_propagation_delay()) by { assert(crate::keys::k_location_y().len() != crate::keys::k_pin_propagation_delay().len()); }
        assert(crate::keys::k_location_y() != crate::keys::k_unique_id()) by { assert(crate::keys::k_location_y().len() != crate::keys::k_unique_id().len()); }
        assert(crate::keys::k_location_y() != utf8_twin(crate::keys::k_description())) by { assert(crate::keys::k_location_y().len() != utf8_twin(crate::keys::k_description()).len()); }
        assert(crate::keys::k_location_y() != utf8_twin(crate::keys::k_designator())) by { assert(crate::keys::k_location_y().len() != utf8_twin(crate::keys::k_designator()).len()); }
        assert(crate::keys::k_location_y() != utf8_twin(crate::keys::k_name())) by { assert(crate::keys::k_location_y()[0] != utf8_twin(crate::keys::k_name())[0]); }
        assert(crate::keys::k_location_y() != utf8_twin(crate::keys::k_swap_id_part())) by { assert(crate::keys::k_location_y().len() != utf8_twin(crate::keys::k_swap_id_part()).len()); }
        assert(crate::keys::k_electrical() != crate::keys::k_pin_length()) by { assert(crate::keys::k_electrical().len() != crate::keys::k_pin_length().len()); }
        assert(crate::keys::k_electrical() != crate::keys::k_swap_id_part()) by { assert(crate::keys::k_electrical()[0] != crate::keys::k_swap_id_part()[0]); }
        assert(crate::keys::k_electrical() != crate::keys::k_pin_propagation_delay()) by { assert(crate::keys::k_electrical().len() != crate::keys::k_pin_propagation_delay().len()); }
        assert(crate::keys::k_electrical() != crate::keys::k_unique_id()) by { assert(crate::keys::k_electrical().len() != crate::keys::k_unique_id().len()); }
        assert(crate::keys::k_electrical() != utf8_twin(crate::keys::k_description())) by { assert(crate::keys::k_electrical().len() != utf8_twin(crate::keys::k_description()).len()); }
        assert(crate::keys::k_electrical() != utf8_twin(crate::keys::k_designator())) by { assert(crate::keys::k_electrical().len() != utf8_twin(crate::keys::k_designator()).len()); }
        assert(crate::keys::k_electrical() != utf8_twin(crate::keys::k_name())) by { assert(crate::keys::k_electrical()[0] != utf8_twin(crate::keys::k_name())[0]); }
        assert(crate::keys::k_electrical() != utf8_twin(crate::keys::k_swap_id_part())) by { assert(crate::keys::k_electrical().len() != utf8_twin(crate::keys::k_swap_id_part()).len()); }
        assert(crate::keys::k_pin_length() != crate::keys::k_swap_id_part()) by { assert(crate::keys::k_pin_length().len() != crate::keys::k_swap_id_part().len()); }
        assert(crate::keys::k_pin_length() != crate::keys::k_pin_propagation_delay()) by { assert(crate::keys::k_pin_length().len() != crate::keys::k_pin_propagation_delay().len()); }
        assert(crate::keys::k_pin_length() != crate::keys::k_unique_id()) by { assert(crate::keys::k_pin_length().len() != crate::keys::k_unique_id().len()); }
        assert(crate::keys::k_pin_length() != utf8_twin(crate::keys::k_description())) by { assert(crate::keys::k_pin_length().len() != utf8_twin(crate::keys::k_description()).len()); }
        assert(crate::keys::k_pin_length() != utf8_twin(crate::keys::k_designator())) by { assert(crate::keys::k_pin_length().len() != utf8_twin(crate::keys::k_designator()).len()); }
        assert(crate::keys::k_pin_length() != utf8_twin(crate::keys::k_name())) by { assert(crate::keys::k_pin_length().len() != utf8_twin(crate::keys::k_name()).len()); }
        assert(crate::keys::k_pin_length() != utf8_twin(crate::keys::k_swap_id_part())) by { assert(crate::keys::k_pin_length().len() != utf8_twin(crate::keys::k_swap_id_part()).len()); }
        assert(crate::keys::k_swap_id_part() != crate::keys::k_pin_propagation_delay()) by { assert(crate::keys::k_swap_id_part().len() != crate::keys::k_pin_propagation_delay().len()); }
        assert(crate::keys::k_swap_id_part() != crate::keys::k_unique_id()) by { assert(crate::keys::k_swap_id_part().len() != crate::keys::k_unique_id().len()); }
        assert(crate::keys::k_swap_id_part() != utf8_twin(crate::keys::k_description())) by { assert(crate::keys::k_swap_id_part().len() != utf8_twin(crate::keys::k_description()).len()); }
        assert(crate::keys::k_swap_id_part() != utf8_twin(crate::keys::k_designator())) by { assert(crate::keys::k_swap_id_part().len() != utf8_twin(crate::keys::k_designator()).len()); }
        assert(crate::keys::k_swap_id_part() != utf8_twin(crate::keys::k_name())) by { assert(crate::keys::k_swap_id_part()[0] != utf8_twin(crate::keys::k_name())[0]); }
        assert(crate::keys::k_swap_id_part() != utf8_twin(crate::keys::k_swap_id_part())) by { assert(crate::keys::k_swap_id_part().len() != utf8_twin(crate::keys::k_swap_id_part()).len()); }
        assert(crate::keys::k_pin_propagation_delay() != crate::keys::k_unique_id()) by { assert(crate::keys::k_pin_propagation_delay().len() != crate::keys::k_unique_id().len()); }
        assert(crate::keys::k_pin_propagation_delay() != utf8_twin(crate::keys::k_description())) by { assert(crate::keys::k_pin_propagation_delay().len() != utf8_twin(crate::keys::k_description()).len()); }
        assert(crate::keys::k_pin_propagation_delay() != utf8_twin(crate::keys::k_designator())) by { assert(crate::keys::k_pin_propagation_delay().len() != utf8_twin(crate::keys::k_designator()).len()); }
        assert(crate::keys::k_pin_propagation_delay() != utf8_twin(crate::keys::k_name())) by { assert(crate::keys::k_pin_propagation_delay().len() != utf8_twin(crate::keys::k_name()).len()); }
        assert(crate::keys::k_pin_propagation_delay() != utf8_twin(crate::keys::k_swap_id_part())) by { assert(crate::keys::k_pin_propagation_delay().len() != utf8_twin(crate::keys::k_swap_id_part()).len()); }
        assert(crate::keys::k_unique_id() != utf8_twin(crate::keys::k_description())) by { assert(crate::keys::k_unique_id().len() != utf8_twin(crate::keys::k_description()).len()); }
        assert(crate::keys::k_unique_id() != utf8_twin(crate::keys::k_designator())) by { assert(crate::keys::k_unique_id().len() != utf8_twin(crate::keys::k_designator()).len()); }
        assert(crate::keys::k_unique_id() != utf8_twin(crate::keys::k_name())) by { assert(crate::keys::k_unique_id().len() != utf8_twin(crate::keys::k_name()).len()); }
        assert(crate::keys::k_unique_id() != utf8_twin(crate::keys::k_swap_id_part())) by { assert(crate::keys::k_unique_id().len() != utf8_twin(crate::keys::k_swap_id_part()).len()); }
        assert(utf8_twin(crate::keys::k_description()) != utf8_twin(crate::keys::k_designator())) by { assert(utf8_twin(crate::keys::k_description()).len() != utf8_twin(crate::keys::k_designator()).len()); }
        assert(utf8_twin(crate::keys::k_description()) != utf8_twin(crate::keys::k_name())) by { assert(utf8_twin(crate::keys::k_description()).len() != utf8_twin(crate::keys::k_name()).len()); }
        assert(utf8_twin(crate::keys::k_description()) != utf8_twin(crate::keys::k_swap_id_part())) by { assert(utf8_twin(crate::keys::k_description()).len() != utf8_twin(crate::keys::k_swap_id_part()).len()); }
        assert(utf8_twin(crate::keys::k_designator()) != utf8_twin(crate::keys::k_name())) by { assert(utf8_twin(crate::keys::k_designator()).len() != utf8_twin(crate::keys::k_name()).len()); }
        assert(utf8_twin(crate::keys::k_designator()) != utf8_twin(crate::keys::k_swap_id_part())) by { assert(utf8_twin(crate::keys::k_designator())[6] != utf8_twin(crate::keys::k_swap_id_part())[6]); }
        assert(utf8_twin(crate::keys::k_name()) != utf8_twin(crate::keys::k_swap_id_part())) by { assert(utf8_twin(crate::keys::k_name()).len() != utf8_twin(crate::keys::k_swap_id_part()).len()); }
    }
        let mut x = SchPin {
        formal_type: 0,
        owner_index: 0,
        owner_part_id: 0,
        description: String::new(),
        designator: String::new(),
        name: String::new(),
        location: Location { x: 0, y: 0 },
        electrical: crate::pin::ElectricalType::Input,
        length: 0,
        swap_id_part: String::new(),
        propegation_delay: String::new(),
        unique_id: UniqueId::Simple([0x30u8, 0x30u8, 0x30u8, 0x30u8, 0x30u8, 0x30u8, 0x30u8, 0x30u8]),
        designator_vis: crate::common::Visibility::Visible,
        name_vis: crate::common::Visibility::Visible,
        rotation: crate::common::Rotation90::R0,
        };
    let mut seen_description: bool = false;
    let mut seen_designator: bool = false;
    let mut seen_name: bool = false;
    let mut seen_swap_id_part: bool = false;
        let n = pairs.len();
        let mut i: usize = 0;
        while i < n
            invariant
                0 <= i <= n,
                n == pairs@.len(),
                !SchPin::spec_fails(p.take(i as int)),
                SchPin::spec_matches(x, p.take(i as int)),
            seen_description == has_key(p.take(i as int), utf8_twin(crate::keys::k_description())),
            seen_designator == has_key(p.take(i as int), utf8_twin(crate::keys::k_designator())),
            seen_name == has_key(p.take(i as int), utf8_twin(crate::keys::k_name())),
            seen_swap_id_part == has_key(p.take(i as int), utf8_twin(crate::keys::k_swap_id_part())),
                counter.count == sat_add(old(counter).count, SchPin::spec_unknown(p.take(i as int))),
                0 <= SchPin::spec_unknown(p.take(i as int)) <= i,
            decreases n - i,
        {
            let key: &[u8] = pairs[i].0.as_slice();
            let val: &[u8] = pairs[i].1.as_slice();
            proof {
                assert(p[i as int] == (pairs@[i as int].0@, pairs@[i as int].1@));
                assert(p.take(i as int + 1).drop_last() =~= p.take(i as int));
                assert(p.take(i as int + 1).last() == p[i as int]);
                assert forall|j: int| 0 <= j <= i implies #[trigger] p.take(i as int + 1).take(j)
                    == p.take(j) by {
                    assert(p.take(i as int + 1).take(j) =~= p.take(j));
                }
                assert forall|j: int| 0 <= j <= i implies #[trigger] p.take(i as int).take(j)
                    == p.take(j) by {
                    assert(p.take(i as int).take(j) =~= p.take(j));
                }
            }
        if crate::common::bytes_eq(key, a_formal_type.as_slice()) {
                    match crate::parse::parse_u8(val) {
                        Ok(v) => { x.formal_type = v; },
                        Err(e) => {
                            proof {
                                assert(p[i as int].0 == crate::keys::k_formal_type());
                                assert(kind_field_fails(p, FieldKind::U8, crate::keys::k_formal_type()));
                            }
                            return Err(e);
                        },
                    }
                }
        else if crate::common::bytes_eq(key, a_owner_index.as_slice()) {
                    match crate::parse::parse_u8(val) {
                        Ok(v) => { x.owner_index = v; },
                        Err(e) => {
                            proof {
                                assert(p[i as int].0 == crate::keys::k_owner_index());
                                assert(kind_field_fails(p, FieldKind::U8, crate::keys::k_owner_index()));
                            }
                            return Err(e);
                        },
                    }
                }
        else if crate::common::bytes_eq(key, a_owner_part_id.as_slice()) {
                    match crate::parse::parse_u8(val) {
                        Ok(v) => { x.owner_part_id = v; },
                        Err(e) => {
                            proof {
                                assert(p[i as int].0 == crate::keys::k_owner_part_id());
                                assert(kind_field_fails(p, FieldKind::U8, crate::keys::k_owner_part_id()));
                            }
                            return Err(e);
                        },
                    }
                }
        else if crate::common::bytes_eq(key, t_description.as_slice()) {
                    match crate::common::str_from_utf8(val) {
                        Ok(s) => { x.description = s; seen_description = true; },
                        Err(e) => {
                            proof {
                                assert(p[i as int].0 == utf8_twin(crate::keys::k_description()));
                                assert(str_field_fails(p, crate::keys::k_description()));
                            }
                            return Err(e);
                        },
                    }
                } else if crate::common::bytes_eq(key, a_description.as_slice()) {
                    if !seen_description {
                        match crate::common::str_from_utf8(val) {
                            Ok(s) => { x.description = s; },
                            Err(e) => {
                                proof {
                                    assert(p[i as int].0 == crate::keys::k_description());
                                    assert(!has_key(p.take(i as int), utf8_twin(crate::keys::k_description())));
                                    assert(str_field_fails(p, crate::keys::k_description()));
                                }
                                return Err(e);
                            },
                        }
                    }
                }
        else if crate::common::bytes_eq(key, t_designator.as_slice()) {
                    match crate::common::str_from_utf8(val) {
                        Ok(s) => { x.designator = s; seen_designator = true; },
                        Err(e) => {
                            proof {
                                assert(p[i as int].0 == utf8_twin(crate::keys::k_designator()));
                                assert(str_field_fails(p, crate::keys::k_designator()));
                            }
                            return Err(e);
                        },
                    }
                } else if crate::common::bytes_eq(key, a_designator.as_slice()) {
                    if !seen_designator {
                        match crate::common::str_from_utf8(val) {
                            Ok(s) => { x.designator = s; },
                            Err(e) => {
                                proof {
                                    assert(p[i as int].0 == crate::keys::k_designator());
                                    assert(!has_key(p.take(i as int), utf8_twin(crate::keys::k_designator())));
                                    assert(str_field_fails(p, crate::keys::k_designator()));
                                }
                                return Err(e);
                            },
                        }
                    }
                }
        else if crate::common::bytes_eq(key, t_name.as_slice()) {
                    match crate::common::str_from_utf8(val) {
                        Ok(s) => { x.name = s; seen_name = true; },
                        Err(e) => {
                            proof {
                                assert(p[i as int].0 == utf8_twin(crate::keys::k_name()));
                                assert(str_field_fails(p, crate::keys::k_name()));
                            }
                            return Err(e);
                        },
                    }
                } else if crate::common::bytes_eq(key, a_name.as_slice()) {
                    if !seen_name {
                        match crate::common::str_from_utf8(val) {
                            Ok(s) => { x.name = s; },
                            Err(e) => {
                                proof {
                                    assert(p[i as int].0 == crate::keys::k_name());
                                    assert(!has_key(p.take(i as int), utf8_twin(crate::keys::k_name())));
                                    assert(str_field_fails(p, crate::keys::k_name()));
                                }
                                return Err(e);
                            },
                        }
                    }
                }
        else if crate::common::bytes_eq(key, a_location_x.as_slice()) {
                    match crate::parse::parse_i32(val) {
                        Ok(v) => { x.location.x = v; },
                        Err(e) => {
                            proof {
                                assert(p[i as int].0 == crate::keys::k_location_x());
                                assert(kind_field_fails(p, FieldKind::I32, crate::keys::k_location_x()));
                            }
                            return Err(e);
                        },
                    }
                }
        else if crate::common::bytes_eq(key, a_location_y.as_slice()) {
                    match crate::parse::parse_i32(val) {
                        Ok(v) => { x.location.y = v; },
                        Err(e) => {
                            proof {
                                assert(p[i as int].0 == crate::keys::k_location_y());
                                assert(kind_field_fails(p, FieldKind::I32, crate::keys::k_location_y()));
                            }
                            return Err(e);
                        },
                    }
                }
        else if crate::common::bytes_eq(key, a_electrical.as_slice()) {
                    match crate::pin::ElectricalType::from_utf8(val) {
                        Ok(v) => { x.electrical = v; },
                        Err(e) => {
                            proof {
                                assert(p[i as int].0 == crate::keys::k_electrical());
                                assert(kind_field_fails(p, FieldKind::Etype, crate::keys::k_electrical()));
                            }
                            return Err(e);
                        },
                    }
                }
        else if crate::common::bytes_eq(key, a_pin_length.as_slice()) {
                    match crate::parse::parse_u32(val) {
                        Ok(v) => { x.length = v; },
                        Err(e) => {
                            proof {
                                assert(p[i as int].0 == crate::keys::k_pin_length());
                                assert(kind_field_fails(p, FieldKind::U32, crate::keys::k_pin_length()));
                            }
                            return Err(e);
                        },
                    }
                }
        else if crate::common::bytes_eq(key, t_swap_id_part.as_slice()) {
                    match crate::common::str_from_utf8(val) {
                        Ok(s) => { x.swap_id_part = s; seen_swap_id_part = true; },
                        Err(e) => {
                            proof {
                                assert(p[i as int].0 == utf8_twin(crate::keys::k_swap_id_part()));
                                assert(str_field_fails(p, crate::keys::k_swap_id_part()));
                            }
                            return Err(e);
                        },
                    }
                } else if crate::common::bytes_eq(key, a_swap_id_part.as_slice()) {
                    if !seen_swap_id_part {
                        match crate::common::str_from_utf8(val) {
                            Ok(s) => { x.swap_id_part = s; },
                            Err(e) => {
                                proof {
                                    assert(p[i as int].0 == crate::keys::k_swap_id_part());
                                    assert(!has_key(p.take(i as int), utf8_twin(crate::keys::k_swap_id_part())));
                                    assert(str_field_fails(p, crate::keys::k_swap_id_part()));
                                }
                                return Err(e);
                            },
                        }
                    }
                }
        else if crate::common::bytes_eq(key, a_pin_propagation_delay.as_slice()) {
                    x.propegation_delay = crate::common::buf2lstr(val);
                }
        else if crate::common::bytes_eq(key, a_unique_id.as_slice()) {
                    match UniqueId::from_utf8(val) {
                        Ok(v) => { x.unique_id = v; },
                        Err(e) => {
                            proof {
                                assert(p[i as int].0 == crate::keys::k_unique_id());
                                assert(kind_field_fails(p, FieldKind::Uid, crate::keys::k_unique_id()));
                            }
                            return Err(e);
                        },
                    }
                }
        else {
            crate::logging::macro_unsupported_key(counter, "SchPin", key, val);
        }
            i += 1;
        }
        proof {
            assert(p.take(n as int) =~= p);
        }
        Ok(x)
    }
}

} // verus!
