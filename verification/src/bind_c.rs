//! Field binders for the ASCII record kinds.

use vstd::prelude::*;

use crate::binder::{
    bool_field, color_field, has_key, i16_field, i32_field, i8_field, just_field,
    kind_field_fails, last_val, loc_field, locf_field, mils_i32_field, mils_u32_field,
    etype_field, opt_str_field, raw_field, ros_field, sat_add, str_field, str_field_fails,
    u16_field,
    u32_field, u8_field, uid_field, utf8_twin, FieldKind, SpecPairs,
};
use crate::common::{pairs_view, Location, LocationFract, ReadOnlyState, Rgb, UniqueId};
use crate::error::ErrorKind;
use crate::params::Justification;
use crate::logging::UnsupportedCounter;
use crate::records::{FileName, Image, Junction, NetLabel, NoErc, Port, SheetName, TextFrame};

verus! {

impl Port {
    /// The wire record ID of this kind.
    pub open spec fn spec_record_id() -> u32 {
        18
    }

    /// Whether the binder recognizes this wire key.
    pub open spec fn spec_known_key(k: Seq<u8>) -> bool {
        ||| k == crate::keys::k_alignment()
        ||| k == crate::keys::k_area_color()
        ||| k == crate::keys::k_border_width()
        ||| k == crate::keys::k_color()
        ||| k == crate::keys::k_font_id()
        ||| k == crate::keys::k_height()
        ||| k == crate::keys::k_width()
        ||| k == crate::keys::k_index_in_sheet()
        ||| k == crate::keys::k_io_type()
        ||| k == crate::keys::k_location_x()
        ||| k == crate::keys::k_location_y()
        ||| k == crate::keys::k_name()
        ||| k == utf8_twin(crate::keys::k_name())
        ||| k == crate::keys::k_owner_index()
        ||| k == crate::keys::k_owner_part_id()
        ||| k == crate::keys::k_text_color()
        ||| k == crate::keys::k_unique_id()
    }

    /// How many pairs hold keys the binder does not recognize.
    pub open spec fn spec_unknown(p: SpecPairs) -> int
        decreases p.len(),
    {
        if p.len() == 0 {
            0
        } else {
            Self::spec_unknown(p.drop_last()) + if Self::spec_known_key(p.last().0) {
                0int
            } else {
                1int
            }
        }
    }

    /// Whether some pair's value is one its field's parser rejects.
    pub open spec fn spec_fails(p: SpecPairs) -> bool {
        ||| kind_field_fails(p, FieldKind::U16, crate::keys::k_alignment())
        ||| kind_field_fails(p, FieldKind::Color, crate::keys::k_area_color())
        ||| kind_field_fails(p, FieldKind::I32, crate::keys::k_border_width())
        ||| kind_field_fails(p, FieldKind::Color, crate::keys::k_color())
        ||| kind_field_fails(p, FieldKind::U16, crate::keys::k_font_id())
        ||| kind_field_fails(p, FieldKind::I32, crate::keys::k_height())
        ||| kind_field_fails(p, FieldKind::I32, crate::keys::k_width())
        ||| kind_field_fails(p, FieldKind::I16, crate::keys::k_index_in_sheet())
        ||| kind_field_fails(p, FieldKind::U16, crate::keys::k_io_type())
        ||| kind_field_fails(p, FieldKind::I32, crate::keys::k_location_x())
        ||| kind_field_fails(p, FieldKind::I32, crate::keys::k_location_y())
        ||| str_field_fails(p, crate::keys::k_name())
        ||| kind_field_fails(p, FieldKind::U8, crate::keys::k_owner_index())
        ||| kind_field_fails(p, FieldKind::I8, crate::keys::k_owner_part_id())
        ||| kind_field_fails(p, FieldKind::Color, crate::keys::k_text_color())
        ||| kind_field_fails(p, FieldKind::Uid, crate::keys::k_unique_id())
    }

    /// Each field as the walk of the pairs leaves it.
    pub open spec fn spec_matches(x: Port, p: SpecPairs) -> bool {
        &&& x.alignment == u16_field(p, crate::keys::k_alignment())
        &&& x.area_color == color_field(p, crate::keys::k_area_color())
        &&& x.border_width == i32_field(p, crate::keys::k_border_width())
        &&& x.color == color_field(p, crate::keys::k_color())
        &&& x.font_id == u16_field(p, crate::keys::k_font_id())
        &&& x.height == i32_field(p, crate::keys::k_height())
        &&& x.width == i32_field(p, crate::keys::k_width())
        &&& x.index_in_sheet == i16_field(p, crate::keys::k_index_in_sheet())
        &&& x.io_type == u16_field(p, crate::keys::k_io_type())
        &&& x.location == loc_field(p, crate::keys::k_location_x(), crate::keys::k_location_y())
        &&& x.name@ == str_field(p, crate::keys::k_name())
        &&& x.owner_index == u8_field(p, crate::keys::k_owner_index())
        &&& x.owner_part_id == i8_field(p, crate::keys::k_owner_part_id())
        &&& x.text_color == color_field(p, crate::keys::k_text_color())
        &&& x.unique_id == uid_field(p, crate::keys::k_unique_id())
    }

    /// Bind the fields of one `Port` record from its key-value pairs.
    #[verifier::loop_isolation(false)]
    #[verifier::rlimit(100)]
    pub fn from_record(pairs: &[(Vec<u8>, Vec<u8>)], counter: &mut UnsupportedCounter) -> (r:
        Result<Port, ErrorKind>)
        ensures
            r is Ok <==> !Port::spec_fails(pairs_view(pairs@)),
            r is Ok ==> Port::spec_matches(r->Ok_0, pairs_view(pairs@)),
            r is Ok ==> final(counter).count == sat_add(
                old(counter).count,
                Port::spec_unknown(pairs_view(pairs@)),
            ),
            final(counter).count >= old(counter).count,
    {
        let ghost p = pairs_view(pairs@);
        proof {
            crate::common::lemma_pairs_view(pairs@);
            assert(p.take(0) =~= Seq::<(Seq<u8>, Seq<u8>)>::empty());
        }
    let a_alignment: [u8; 9] = [0x41u8, 0x6cu8, 0x69u8, 0x67u8, 0x6eu8, 0x6du8, 0x65u8, 0x6eu8, 0x74u8];
    let a_area_color: [u8; 9] = [0x41u8, 0x72u8, 0x65u8, 0x61u8, 0x43u8, 0x6fu8, 0x6cu8, 0x6fu8, 0x72u8];
    let a_border_width: [u8; 11] = [0x42u8, 0x6fu8, 0x72u8, 0x64u8, 0x65u8, 0x72u8, 0x57u8, 0x69u8, 0x64u8, 0x74u8, 0x68u8];
    let a_color: [u8; 5] = [0x43u8, 0x6fu8, 0x6cu8, 0x6fu8, 0x72u8];
    let a_font_id: [u8; 6] = [0x46u8, 0x6fu8, 0x6eu8, 0x74u8, 0x49u8, 0x44u8];
    let a_height: [u8; 6] = [0x48u8, 0x65u8, 0x69u8, 0x67u8, 0x68u8, 0x74u8];
    let a_width: [u8; 5] = [0x57u8, 0x69u8, 0x64u8, 0x74u8, 0x68u8];
    let a_index_in_sheet: [u8; 12] = [0x49u8, 0x6eu8, 0x64u8, 0x65u8, 0x78u8, 0x49u8, 0x6eu8, 0x53u8, 0x68u8, 0x65u8, 0x65u8, 0x74u8];
    let a_io_type: [u8; 6] = [0x49u8, 0x4fu8, 0x54u8, 0x79u8, 0x70u8, 0x65u8];
    let a_location_x: [u8; 10] = [0x4cu8, 0x6fu8, 0x63u8, 0x61u8, 0x74u8, 0x69u8, 0x6fu8, 0x6eu8, 0x2eu8, 0x58u8];
    let a_location_y: [u8; 10] = [0x4cu8, 0x6fu8, 0x63u8, 0x61u8, 0x74u8, 0x69u8, 0x6fu8, 0x6eu8, 0x2eu8, 0x59u8];
    let a_name: [u8; 4] = [0x4eu8, 0x61u8, 0x6du8, 0x65u8];
    let a_owner_index: [u8; 10] = [0x4fu8, 0x77u8, 0x6eu8, 0x65u8, 0x72u8, 0x49u8, 0x6eu8, 0x64u8, 0x65u8, 0x78u8];
    let a_owner_part_id: [u8; 11] = [0x4fu8, 0x77u8, 0x6eu8, 0x65u8, 0x72u8, 0x50u8, 0x61u8, 0x72u8, 0x74u8, 0x49u8, 0x64u8];
    let a_text_color: [u8; 9] = [0x54u8, 0x65u8, 0x78u8, 0x74u8, 0x43u8, 0x6fu8, 0x6cu8, 0x6fu8, 0x72u8];
    let a_unique_id: [u8; 8] = [0x55u8, 0x6eu8, 0x69u8, 0x71u8, 0x75u8, 0x65u8, 0x49u8, 0x44u8];
    let t_name: [u8; 10] = [0x25u8, 0x55u8, 0x54u8, 0x46u8, 0x38u8, 0x25u8, 0x4eu8, 0x61u8, 0x6du8, 0x65u8];
    proof {
        assert(a_alignment@ =~= crate::keys::k_alignment());
        assert(a_area_color@ =~= crate::keys::k_area_color());
        assert(a_border_width@ =~= crate::keys::k_border_width());
        assert(a_color@ =~= crate::keys::k_color());
        assert(a_font_id@ =~= crate::keys::k_font_id());
        assert(a_height@ =~= crate::keys::k_height());
        assert(a_width@ =~= crate::keys::k_width());
        assert(a_index_in_sheet@ =~= crate::keys::k_index_in_sheet());
        assert(a_io_type@ =~= crate::keys::k_io_type());
        assert(a_location_x@ =~= crate::keys::k_location_x());
        assert(a_location_y@ =~= crate::keys::k_location_y());
        assert(a_name@ =~= crate::keys::k_name());
        assert(a_owner_index@ =~= crate::keys::k_owner_index());
        assert(a_owner_part_id@ =~= crate::keys::k_owner_part_id());
        assert(a_text_color@ =~= crate::keys::k_text_color());
        assert(a_unique_id@ =~= crate::keys::k_unique_id());
        assert(t_name@ =~= utf8_twin(crate::keys::k_name()));
        assert(crate::keys::k_alignment() != crate::keys::k_area_color()) by { assert(crate::keys::k_alignment()[1] != crate::keys::k_area_color()[1]); }
        assert(crate::keys::k_alignment() != crate::keys::k_border_width()) by { assert(crate::keys::k_alignment().len() != crate::keys::k_border_width().len()); }
        assert(crate::keys::k_alignment() != crate::keys::k_color()) by { assert(crate::keys::k_alignment().len() != crate::keys::k_color().len()); }
        assert(crate::keys::k_alignment() != crate::keys::k_font_id()) by { assert(crate::keys::k_alignment().len() != crate::keys::k_font_id().len()); }
        assert(crate::keys::k_alignment() != crate::keys::k_height()) by { assert(crate::keys::k_alignment().len() != crate::keys::k_height().len()); }
        assert(crate::keys::k_alignment() != crate::keys::k_width()) by { assert(crate::keys::k_alignment().len() != crate::keys::k_width().len()); }
        assert(crate::keys::k_alignment() != crate::keys::k_index_in_sheet()) by { assert(crate::keys::k_alignment().len() != crate::keys::k_index_in_sheet().len()); }
        assert(crate::keys::k_alignment() != crate::keys::k_io_type()) by { assert(crate::keys::k_alignment().len() != crate::keys::k_io_type().len()); }
        assert(crate::keys::k_alignment() != crate::keys::k_location_x()) by { assert(crate::keys::k_alignment().len() != crate::keys::k_location_x().len()); }
        assert(crate::keys::k_alignment() != crate::keys::k_location_y()) by { assert(crate::keys::k_alignment().len() != crate::keys::k_location_y().len()); }
        assert(crate::keys::k_alignment() != crate::keys::k_name()) by { assert(crate::keys::k_alignment().len() != crate::keys::k_name().len()); }
        assert(crate::keys::k_alignment() != crate::keys::k_owner_index()) by { assert(crate::keys::k_alignment().len() != crate::keys::k_owner_index().len()); }
        assert(crate::keys::k_alignment() != crate::keys::k_owner_part_id()) by { assert(crate::keys::k_alignment().len() != crate::keys::k_owner_part_id().len()); }
        assert(crate::keys::k_alignment() != crate::keys::k_text_color()) by { assert(crate::keys::k_alignment()[0] != crate::keys::k_text_color()[0]); }
        assert(crate::keys::k_alignment() != crate::keys::k_unique_id()) by { assert(crate::keys::k_alignment().len() != crate::keys::k_unique_id().len()); }
        assert(crate::keys::k_alignment() != utf8_twin(crate::keys::k_name())) by { assert(crate::keys::k_alignment().len() != utf8_twin(crate::keys::k_name()).len()); }
        assert(crate::keys::k_area_color() != crate::keys::k_border_width()) by { assert(crate::keys::k_area_color().len() != crate::keys::k_border_width().len()); }
        assert(crate::keys::k_area_color() != crate::keys::k_color()) by { assert(crate::keys::k_area_color().len() != crate::keys::k_color().len()); }
        assert(crate::keys::k_area_color() != crate::keys::k_font_id()) by { assert(crate::keys::k_area_color().len() != crate::keys::k_font_id().len()); }
        assert(crate::keys::k_area_color() != crate::keys::k_height()) by { assert(crate::keys::k_area_color().len() != crate::keys::k_height().len()); }
        assert(crate::keys::k_area_color() != crate::keys::k_width()) by { assert(crate::keys::k_area_color().len() != crate::keys::k_width().len()); }
        assert(crate::keys::k_area_color() != crate::keys::k_index_in_sheet()) by { assert(crate::keys::k_area_color().len() != crate::keys::k_index_in_sheet().len()); }
        assert(crate::keys::k_area_color() != crate::keys::k_io_type()) by { assert(crate::keys::k_area_color().len() != crate::keys::k_io_type().len()); }
        assert(crate::keys::k_area_color() != crate::keys::k_location_x()) by { assert(crate::keys::k_area_color().len() != crate::keys::k_location_x().len()); }
        assert(crate::keys::k_area_color() != crate::keys::k_location_y()) by { assert(crate::keys::k_area_color().len() != crate::keys::k_location_y().len()); }
        assert(crate::keys::k_area_color() != crate::keys::k_name()) by { assert(crate::keys::k_area_color().len() != crate::keys::k_name().len()); }
        assert(crate::keys::k_area_color() != crate::keys::k_owner_index()) by { assert(crate::keys::k_area_color().len() != crate::keys::k_owner_index().len()); }
        assert(crate::keys::k_area_color() != crate::keys::k_owner_part_id()) by { assert(crate::keys::k_area_color().len() != crate::keys::k_owner_part_id().len()); }
        assert(crate::keys::k_area_color() != crate::keys::k_text_color()) by { assert(crate::keys::k_area_color()[0] != crate::keys::k_text_color()[0]); }
        assert(crate::keys::k_area_color() != crate::keys::k_unique_id()) by { assert(crate::keys::k_area_color().len() != crate::keys::k_unique_id().len()); }
        assert(crate::keys::k_area_color() != utf8_twin(crate::keys::k_name())) by { assert(crate::keys::k_area_color().len() != utf8_twin(crate::keys::k_name()).len()); }
        assert(crate::keys::k_border_width() != crate::keys::k_color()) by { assert(crate::keys::k_border_width().len() != crate::keys::k_color().len()); }
        assert(crate::keys::k_border_width() != crate::keys::k_font_id()) by { assert(crate::keys::k_border_width().len() != crate::keys::k_font_id().len()); }
        assert(crate::keys::k_border_width() != crate::keys::k_height()) by { assert(crate::keys::k_border_width().len() != crate::keys::k_height().len()); }
        assert(crate::keys::k_border_width() != crate::keys::k_width()) by { assert(crate::keys::k_border_width().len() != crate::keys::k_width().len()); }
        assert(crate::keys::k_border_width() != crate::keys::k_index_in_sheet()) by { assert(crate::keys::k_border_width().len() != crate::keys::k_index_in_sheet().len()); }
        assert(crate::keys::k_border_width() != crate::keys::k_io_type()) by { assert(crate::keys::k_border_width().len() != crate::keys::k_io_type().len()); }
        assert(crate::keys::k_border_width() != crate::keys::k_location_x()) by { assert(crate::keys::k_border_width().len() != crate::keys::k_location_x().len()); }
        assert(crate::keys::k_border_width() != crate::keys::k_location_y()) by { assert(crate::keys::k_border_width().len() != crate::keys::k_location_y().len()); }
        assert(crate::keys::k_border_width() != crate::keys::k_name()) by { assert(crate::keys::k_border_width().len() != crate::keys::k_name().len()); }
        assert(crate::keys::k_border_width() != crate::keys::k_owner_index()) by { assert(crate::keys::k_border_width().len() != crate::keys::k_owner_index().len()); }
        assert(crate::keys::k_border_width() != crate::keys::k_owner_part_id()) by { assert(crate::keys::k_border_width()[0] != crate::keys::k_owner_part_id()[0]); }
        assert(crate::keys::k_border_width() != crate::keys::k_text_color()) by { assert(crate::keys::k_border_width().len() != crate::keys::k_text_color().len()); }
        assert(crate::keys::k_border_width() != crate::keys::k_unique_id()) by { assert(crate::keys::k_border_width().len() != crate::keys::k_unique_id().len()); }
        assert(crate::keys::k_border_width() != utf8_twin(crate::keys::k_name())) by { assert(crate::keys::k_border_width().len() != utf8_twin(crate::keys::k_name()).len()); }
        assert(crate::keys::k_color() != crate::keys::k_font_id()) by { assert(crate::keys::k_color().len() != crate::keys::k_font_id().len()); }
        assert(crate::keys::k_color() != crate::keys::k_height()) by { assert(crate::keys::k_color().len() != crate::keys::k_height().len()); }
        assert(crate::keys::k_color() != crate::keys::k_width()) by { assert(crate::keys::k_color()[0] != crate::keys::k_width()[0]); }
        assert(crate::keys::k_color() != crate::keys::k_index_in_sheet()) by { assert(crate::keys::k_color().len() != crate::keys::k_index_in_sheet().len()); }
        assert(crate::keys::k_color() != crate::keys::k_io_type()) by { assert(crate::keys::k_color().len() != crate::keys::k_io_type().len()); }
        assert(crate::keys::k_color() != crate::keys::k_location_x()) by { assert(crate::keys::k_color().len() != crate::keys::k_location_x().len()); }
        assert(crate::keys::k_color() != crate::keys::k_location_y()) by { assert(crate::keys::k_color().len() != crate::keys::k_location_y().len()); }
        assert(crate::keys::k_color() != crate::keys::k_name()) by { assert(crate::keys::k_color().len() != crate::keys::k_name().len()); }
        assert(crate::keys::k_color() != crate::keys::k_owner_index()) by { assert(crate::keys::k_color().len() != crate::keys::k_owner_index().len()); }
        assert(crate::keys::k_color() != crate::keys::k_owner_part_id()) by { assert(crate::keys::k_color().len() != crate::keys::k_owner_part_id().len()); }
        assert(crate::keys::k_color() != crate::keys::k_text_color()) by { assert(crate::keys::k_color().len() != crate::keys::k_text_color().len()); }
        assert(crate::keys::k_color() != crate::keys::k_unique_id()) by { assert(crate::keys::k_color().len() != crate::keys::k_unique_id().len()); }
        assert(crate::keys::k_color() != utf8_twin(crate::keys::k_name())) by { assert(crate::keys::k_color().len() != utf8_twin(crate::keys::k_name()).len()); }
        assert(crate::keys::k_font_id() != crate::keys::k_height()) by { assert(crate::keys::k_font_id()[0] != crate::keys::k_height()[0]); }
        assert(crate::keys::k_font_id() != crate::keys::k_width()) by { assert(crate::keys::k_font_id().len() != crate::keys::k_width().len()); }
        assert(crate::keys::k_font_id() != crate::keys::k_index_in_sheet()) by { assert(crate::keys::k_font_id().len() != crate::keys::k_index_in_sheet().len()); }
        assert(crate::keys::k_font_id() != crate::keys::k_io_type()) by { assert(crate::keys::k_font_id()[0] != crate::keys::k_io_type()[0]); }
        assert(crate::keys::k_font_id() != crate::keys::k_location_x()) by { assert(crate::keys::k_font_id().len() != crate::keys::k_location_x().len()); }
        assert(crate::keys::k_font_id() != crate::keys::k_location_y()) by { assert(crate::keys::k_font_id().len() != crate::keys::k_location_y().len()); }
        assert(crate::keys::k_font_id() != crate::keys::k_name()) by { assert(crate::keys::k_font_id().len() != crate::keys::k_name().len()); }
        assert(crate::keys::k_font_id() != crate::keys::k_owner_index()) by { assert(crate::keys::k_font_id().len() != crate::keys::k_owner_index().len()); }
        assert(crate::keys::k_font_id() != crate::keys::k_owner_part_id()) by { assert(crate::keys::k_font_id().len() != crate::keys::k_owner_part_id().len()); }
        assert(crate::keys::k_font_id() != crate::keys::k_text_color()) by { assert(crate::keys::k_font_id().len() != crate::keys::k_text_color().len()); }
        assert(crate::keys::k_font_id() != crate::keys::k_unique_id()) by { assert(crate::keys::k_font_id().len() != crate::keys::k_unique_id().len()); }
        assert(crate::keys::k_font_id() != utf8_twin(crate::keys::k_name())) by { assert(crate::keys::k_font_id().len() != utf8_twin(crate::keys::k_name()).len()); }
        assert(crate::keys::k_height() != crate::keys::k_width()) by { assert(crate::keys::k_height().len() != crate::keys::k_width().len()); }
        assert(crate::keys::k_height() != crate::keys::k_index_in_sheet()) by { assert(crate::keys::k_height().len() != crate::keys::k_index_in_sheet().len()); }
        assert(crate::keys::k_height() != crate::keys::k_io_type()) by { assert(crate::keys::k_height()[0] != crate::keys::k_io_type()[0]); }
        assert(crate::keys::k_height() != crate::keys::k_location_x()) by { assert(crate::keys::k_height().len() != crate::keys::k_location_x().len()); }
        assert(crate::keys::k_height() != crate::keys::k_location_y()) by { assert(crate::keys::k_height().len() != crate::keys::k_location_y().len()); }
        assert(crate::keys::k_height() != crate::keys::k_name()) by { assert(crate::keys::k_height().len() != crate::keys::k_name().len()); }
        assert(crate::keys::k_height() != crate::keys::k_owner_index()) by { assert(crate::keys::k_height().len() != crate::keys::k_owner_index().len()); }
        assert(crate::keys::k_height() != crate::keys::k_owner_part_id()) by { assert(crate::keys::k_height().len() != crate::keys::k_owner_part_id().len()); }
        assert(crate::keys::k_height() != crate::keys::k_text_color()) by { assert(crate::keys::k_height().len() != crate::keys::k_text_color().len()); }
        assert(crate::keys::k_height() != crate::keys::k_unique_id()) by { assert(crate::keys::k_height().len() != crate::keys::k_unique_id().len()); }
        assert(crate::keys::k_height() != utf8_twin(crate::keys::k_name())) by { assert(crate::keys::k_height().len() != utf8_twin(crate::keys::k_name()).len()); }
        assert(crate::keys::k_width() != crate::keys::k_index_in_sheet()) by { assert(crate::keys::k_width().len() != crate::keys::k_index_in_sheet().len()); }
        assert(crate::keys::k_width() != crate::keys::k_io_type()) by { assert(crate::keys::k_width().len() != crate::keys::k_io_type().len()); }
        assert(crate::keys::k_width() != crate::keys::k_location_x()) by { assert(crate::keys::k_width().len() != crate::keys::k_location_x().len()); }
        assert(crate::keys::k_width() != crate::keys::k_location_y()) by { assert(crate::keys::k_width().len() != crate::keys::k_location_y().len()); }
        assert(crate::keys::k_width() != crate::keys::k_name()) by { assert(crate::keys::k_width().len() != crate::keys::k_name().len()); }
        assert(crate::keys::k_width() != crate::keys::k_owner_index()) by { assert(crate::keys::k_width().len() != crate::keys::k_owner_index().len()); }
        assert(crate::keys::k_width() != crate::keys::k_owner_part_id()) by { assert(crate::keys::k_width().len() != crate::keys::k_owner_part_id().len()); }
        assert(crate::keys::k_width() != crate::keys::k_text_color()) by { assert(crate::keys::k_width().len() != crate::keys::k_text_color().len()); }
        assert(crate::keys::k_width() != crate::keys::k_unique_id()) by { assert(crate::keys::k_width().len() != crate::keys::k_unique_id().len()); }
        assert(crate::keys::k_width() != utf8_twin(crate::keys::k_name())) by { assert(crate::keys::k_width().len() != utf8_twin(crate::keys::k_name()).len()); }
        assert(crate::keys::k_index_in_sheet() != crate::keys::k_io_type()) by { assert(crate::keys::k_index_in_sheet().len() != crate::keys::k_io_type().len()); }
        assert(crate::keys::k_index_in_sheet() != crate::keys::k_location_x()) by { assert(crate::keys::k_index_in_sheet().len() != crate::keys::k_location_x().len()); }
        assert(crate::keys::k_index_in_sheet() != crate::keys::k_location_y()) by { assert(crate::keys::k_index_in_sheet().len() != crate::keys::k_location_y().len()); }
        assert(crate::keys::k_index_in_sheet() != crate::keys::k_name()) by { assert(crate::keys::k_index_in_sheet().len() != crate::keys::k_name().len()); }
        assert(crate::keys::k_index_in_sheet() != crate::keys::k_owner_index()) by { assert(crate::keys::k_index_in_sheet().len() != crate::keys::k_owner_index().len()); }
        assert(crate::keys::k_index_in_sheet() != crate::keys::k_owner_part_id()) by { assert(crate::keys::k_index_in_sheet().len() != crate::keys::k_owner_part_id().len()); }
        assert(crate::keys::k_index_in_sheet() != crate::keys::k_text_color()) by { assert(crate::keys::k_index_in_sheet().len() != crate::keys::k_text_color().len()); }
        assert(crate::keys::k_index_in_sheet() != crate::keys::k_unique_id()) by { assert(crate::keys::k_index_in_sheet().len() != crate::keys::k_unique_id().len()); }
        assert(crate::keys::k_index_in_sheet() != utf8_twin(crate::keys::k_name())) by { assert(crate::keys::k_index_in_sheet().len() != utf8_twin(crate::keys::k_name()).len()); }
        assert(crate::keys::k_io_type() != crate::keys::k_location_x()) by { assert(crate::keys::k_io_type().len() != crate::keys::k_location_x().len()); }
        assert(crate::keys::k_io_type() != crate::keys::k_location_y()) by { assert(crate::keys::k_io_type().len() != crate::keys::k_location_y().len()); }
        assert(crate::keys::k_io_type() != crate::keys::k_name()) by { assert(crate::keys::k_io_type().len() != crate::keys::k_name().len()); }
        assert(crate::keys::k_io_type() != crate::keys::k_owner_index()) by { assert(crate::keys::k_io_type().len() != crate::keys::k_owner_index().len()); }
        assert(crate::keys::k_io_type() != crate::keys::k_owner_part_id()) by { assert(crate::keys::k_io_type().len() != crate::keys::k_owner_part_id().len()); }
        assert(crate::keys::k_io_type() != crate::keys::k_text_color()) by { assert(crate::keys::k_io_type().len() != crate::keys::k_text_color().len()); }
        assert(crate::keys::k_io_type() != crate::keys::k_unique_id()) by { assert(crate::keys::k_io_type().len() != crate::keys::k_unique_id().len()); }
        assert(crate::keys::k_io_type() != utf8_twin(crate::keys::k_name())) by { assert(crate::keys::k_io_type().len() != utf8_twin(crate::keys::k_name()).len()); }
        assert(crate::keys::k_location_x() != crate::keys::k_location_y()) by { assert(crate::keys::k_location_x()[9] != crate::keys::k_location_y()[9]); }
        assert(crate::keys::k_location_x() != crate::keys::k_name()) by { assert(crate::keys::k_location_x().len() != crate::keys::k_name().len()); }
        assert(crate::keys::k_location_x() != crate::keys::k_owner_index()) by { assert(crate::keys::k_location_x()[0] != crate::keys::k_owner_index()[0]); }
        assert(crate::keys::k_location_x() != crate::keys::k_owner_part_id()) by { assert(crate::keys::k_location_x().len() != crate::keys::k_owner_part_id().len()); }
        assert(crate::keys::k_location_x() != crate::keys::k_text_color()) by { assert(crate::keys::k_location_x().len() != crate::keys::k_text_color().len()); }
        assert(crate::keys::k_location_x() != crate::keys::k_unique_id()) by { assert(crate::keys::k_location_x().len() != crate::keys::k_unique_id().len()); }
        assert(crate::keys::k_location_x() != utf8_twin(crate::keys::k_name())) by { assert(crate::keys::k_location_x()[0] != utf8_twin(crate::keys::k_name())[0]); }
        assert(crate::keys::k_location_y() != crate::keys::k_name()) by { assert(crate::keys::k_location_y().len() != crate::keys::k_name().len()); }
        assert(crate::keys::k_location_y() != crate::keys::k_owner_index()) by { assert(crate::keys::k_location_y()[0] != crate::keys::k_owner_index()[0]); }
        assert(crate::keys::k_location_y() != crate::keys::k_owner_part_id()) by { assert(crate::keys::k_location_y().len() != crate::keys::k_owner_part_id().len()); }
        assert(crate::keys::k_location_y() != crate::keys::k_text_color()) by { assert(crate::keys::k_location_y().len() != crate::keys::k_text_color().len()); }
        assert(crate::keys::k_location_y() != crate::keys::k_unique_id()) by { assert(crate::keys::k_location_y().len() != crate::keys::k_unique_id().len()); }
        assert(crate::keys::k_location_y() != utf8_twin(crate::keys::k_name())) by { assert(crate::keys::k_location_y()[0] != utf8_twin(crate::keys::k_name())[0]); }
        assert(crate::keys::k_name() != crate::keys::k_owner_index()) by { assert(crate::keys::k_name().len() != crate::keys::k_owner_index().len()); }
        assert(crate::keys::k_name() != crate::keys::k_owner_part_id()) by { assert(crate::keys::k_name().len() != crate::keys::k_owner_part_id().len()); }
        assert(crate::keys::k_name() != crate::keys::k_text_color()) by { assert(crate::keys::k_name().len() != crate::keys::k_text_color().len()); }
        assert(crate::keys::k_name() != crate::keys::k_unique_id()) by { assert(crate::keys::k_name().len() != crate::keys::k_unique_id().len()); }
        assert(crate::keys::k_name() != utf8_twin(crate::keys::k_name())) by { assert(crate::keys::k_name().len() != utf8_twin(crate::keys::k_name()).len()); }
        assert(crate::keys::k_owner_index() != crate::keys::k_owner_part_id()) by { assert(crate::keys::k_owner_index().len() != crate::keys::k_owner_part_id().len()); }
        assert(crate::keys::k_owner_index() != crate::keys::k_text_color()) by { assert(crate::keys::k_owner_index().len() != crate::keys::k_text_color().len()); }
        assert(crate::keys::k_owner_index() != crate::keys::k_unique_id()) by { assert(crate::keys::k_owner_index().len() != crate::keys::k_unique_id().len()); }
        assert(crate::keys::k_owner_index() != utf8_twin(crate::keys::k_name())) by { assert(crate::keys::k_owner_index()[0] != utf8_twin(crate::keys::k_name())[0]); }
        assert(crate::keys::k_owner_part_id() != crate::keys::k_text_color()) by { assert(crate::keys::k_owner_part_id().len() != crate::keys::k_text_color().len()); }
        assert(crate::keys::k_owner_part_id() != crate::keys::k_unique_id()) by { assert(crate::keys::k_owner_part_id().len() != crate::keys::k_unique_id().len()); }
        assert(crate::keys::k_owner_part_id() != utf8_twin(crate::keys::k_name())) by { assert(crate::keys::k_owner_part_id().len() != utf8_twin(crate::keys::k_name()).len()); }
        assert(crate::keys::k_text_color() != crate::keys::k_unique_id()) by { assert(crate::keys::k_text_color().len() != crate::keys::k_unique_id().len()); }
        assert(crate::keys::k_text_color() != utf8_twin(crate::keys::k_name())) by { assert(crate::keys::k_text_color().len() != utf8_twin(crate::keys::k_name()).len()); }
        assert(crate::keys::k_unique_id() != utf8_twin(crate::keys::k_name())) by { assert(crate::keys::k_unique_id().len() != utf8_twin(crate::keys::k_name()).len()); }
    }
        let mut x = Port {
        alignment: 0,
        area_color: Rgb { r: 0, g: 0, b: 0 },
        border_width: 0,
        color: Rgb { r: 0, g: 0, b: 0 },
        font_id: 0,
        height: 0,
        width: 0,
        index_in_sheet: 0,
        io_type: 0,
        location: Location { x: 0, y: 0 },
        name: String::new(),
        owner_index: 0,
        owner_part_id: 0,
        text_color: Rgb { r: 0, g: 0, b: 0 },
        unique_id: UniqueId::Simple([0x30u8, 0x30u8, 0x30u8, 0x30u8, 0x30u8, 0x30u8, 0x30u8, 0x30u8]),
        };
    let mut seen_name: bool = false;
        let n = pairs.len();
        let mut i: usize = 0;
        while i < n
            invariant
                0 <= i <= n,
                n == pairs@.len(),
                !Port::spec_fails(p.take(i as int)),
                Port::spec_matches(x, p.take(i as int)),
            seen_name == has_key(p.take(i as int), utf8_twin(crate::keys::k_name())),
                counter.count == sat_add(old(counter).count, Port::spec_unknown(p.take(i as int))),
                0 <= Port::spec_unknown(p.take(i as int)) <= i,
            decreases n - i,
        {
            let key: &[u8] = pairs[i].0.as_slice();
            let val: &[u8] = pairs[i].1.as_slice();
            proof {
                assert(p[i as int] == (pairs@[i as int].0@, pairs@[i as int].1@));
                assert(p.take(i as int + 1).drop_last() =~= p.take(i as int));
                assert(p.take(i as int + 1).last() == p[i as int]);
                assert forall|j: int| 0 <= j <= i implies #[trigger] p.take(i as int + 1).take(j)
                    == p.take(j) by {
                    assert(p.take(i as int + 1).take(j) =~= p.take(j));
                }
                assert forall|j: int| 0 <= j <= i implies #[trigger] p.take(i as int).take(j)
                    == p.take(j) by {
                    assert(p.take(i as int).take(j) =~= p.take(j));
                }
            }
        if crate::common::bytes_eq(key, a_alignment.as_slice()) {
                    match crate::parse::parse_u16(val) {
                        Ok(v) => { x.alignment = v; },
                        Err(e) => {
                            proof {
                                assert(p[i as int].0 == crate::keys::k_alignment());
                                assert(kind_field_fails(p, FieldKind::U16, crate::keys::k_alignment()));
                            }
                            return Err(e);
                        },
                    }
                }
        else if crate::common::bytes_eq(key, a_area_color.as_slice()) {
                    match Rgb::from_utf8(val) {
                        Ok(v) => { x.area_color = v; },
                        Err(e) => {
                            proof {
                                assert(p[i as int].0 == crate::keys::k_area_color());
                                assert(kind_field_fails(p, FieldKind::Color, crate::keys::k_area_color()));
                            }
                            return Err(e);
                        },
                    }
                }
        else if crate::common::bytes_eq(key, a_border_width.as_slice()) {
                    match crate::parse::parse_i32(val) {
                        Ok(v) => { x.border_width = v; },
                        Err(e) => {
                            proof {
                                assert(p[i as int].0 == crate::keys::k_border_width());
                                assert(kind_field_fails(p, FieldKind::I32, crate::keys::k_border_width()));
                            }
                            return Err(e);
                        },
                    }
                }
        else if crate::common::bytes_eq(key, a_color.as_slice()) {
                    match Rgb::from_utf8(val) {
                        Ok(v) => { x.color = v; },
                        Err(e) => {
                            proof {
                                assert(p[i as int].0 == crate::keys::k_color());
                                assert(kind_field_fails(p, FieldKind::Color, crate::keys::k_color()));
                            }
                            return Err(e);
                        },
                    }
                }
        else if crate::common::bytes_eq(key, a_font_id.as_slice()) {
                    match crate::parse::parse_u16(val) {
                        Ok(v) => { x.font_id = v; },
                        Err(e) => {
                            proof {
                                assert(p[i as int].0 == crate::keys::k_font_id());
                                assert(kind_field_fails(p, FieldKind::U16, crate::keys::k_font_id()));
                            }
                            return Err(e);
                        },
                    }
                }
        else if crate::common::bytes_eq(key, a_height.as_slice()) {
                    match crate::parse::parse_i32(val) {
                        Ok(v) => { x.height = v; },
                        Err(e) => {
                            proof {
                                assert(p[i as int].0 == crate::keys::k_height());
                                assert(kind_field_fails(p, FieldKind::I32, crate::keys::k_height()));
                            }
                            return Err(e);
                        },
                    }
                }
        else if crate::common::bytes_eq(key, a_width.as_slice()) {
                    match crate::parse::parse_i32(val) {
                        Ok(v) => { x.width = v; },
                        Err(e) => {
                            proof {
                                assert(p[i as int].0 == crate::keys::k_width());
                                assert(kind_field_fails(p, FieldKind::I32, crate::keys::k_width()));
                            }
                            return Err(e);
                        },
                    }
                }
        else if crate::common::bytes_eq(key, a_index_in_sheet.as_slice()) {
                    match crate::parse::parse_i16(val) {
                        Ok(v) => { x.index_in_sheet = v; },
                        Err(e) => {
                            proof {
                                assert(p[i as int].0 == crate::keys::k_index_in_sheet());
                                assert(kind_field_fails(p, FieldKind::I16, crate::keys::k_index_in_sheet()));
                            }
                            return Err(e);
                        },
                    }
                }
        else if crate::common::bytes_eq(key, a_io_type.as_slice()) {
                    match crate::parse::parse_u16(val) {
                        Ok(v) => { x.io_type = v; },
                        Err(e) => {
                            proof {
                                assert(p[i as int].0 == crate::keys::k_io_type());
                                assert(kind_field_fails(p, FieldKind::U16, crate::keys::k_io_type()));
                            }
                            return Err(e);
                        },
                    }
                }
        else if crate::common::bytes_eq(key, a_location_x.as_slice()) {
                    match crate::parse::parse_i32(val) {
                        Ok(v) => { x.location.x = v; },
                        Err(e) => {
                            proof {
                                assert(p[i as int].0 == crate::keys::k_location_x());
                                assert(kind_field_fails(p, FieldKind::I32, crate::keys::k_location_x()));
                            }
                            return Err(e);
                        },
                    }
                }
        else if crate::common::bytes_eq(key, a_location_y.as_slice()) {
                    match crate::parse::parse_i32(val) {
                        Ok(v) => { x.location.y = v; },
                        Err(e) => {
                            proof {
                                assert(p[i as int].0 == crate::keys::k_location_y());
                                assert(kind_field_fails(p, FieldKind::I32, crate::keys::k_location_y()));
                            }
                            return Err(e);
                        },
                    }
                }
        else if crate::common::bytes_eq(key, t_name.as_slice()) {
                    match crate::common::str_from_utf8(val) {
                        Ok(s) => { x.name = s; seen_name = true; },
                        Err(e) => {
                            proof {
                                assert(p[i as int].0 == utf8_twin(crate::keys::k_name()));
                                assert(str_field_fails(p, crate::keys::k_name()));
                            }
                            return Err(e);
                        },
                    }
                } else if crate::common::bytes_eq(key, a_name.as_slice()) {
                    if !seen_name {
                        match crate::common::str_from_utf8(val) {
                            Ok(s) => { x.name = s; },
                            Err(e) => {
                                proof {
                                    assert(p[i as int].0 == crate::keys::k_name());
                                    assert(!has_key(p.take(i as int), utf8_twin(crate::keys::k_name())));
                                    assert(str_field_fails(p, crate::keys::k_name()));
                                }
                                return Err(e);
                            },
                        }
                    }
                }
        else if crate::common::bytes_eq(key, a_owner_index.as_slice()) {
                    match crate::parse::parse_u8(val) {
                        Ok(v) => { x.owner_index = v; },
                        Err(e) => {
                            proof {
                                assert(p[i as int].0 == crate::keys::k_owner_index());
                                assert(kind_field_fails(p, FieldKind::U8, crate::keys::k_owner_index()));
                            }
                            return Err(e);
                        },
                    }
                }
        else if crate::common::bytes_eq(key, a_owner_part_id.as_slice()) {
                    match crate::parse::parse_i8(val) {
                        Ok(v) => { x.owner_part_id = v; },
                        Err(e) => {
                            proof {
                                assert(p[i as int].0 == crate::keys::k_owner_part_id());
                                assert(kind_field_fails(p, FieldKind::I8, crate::keys::k_owner_part_id()));
                            }
                            return Err(e);
                        },
                    }
                }
        else if crate::common::bytes_eq(key, a_text_color.as_slice()) {
                    match Rgb::from_utf8(val) {
                        Ok(v) => { x.text_color = v; },
                        Err(e) => {
                            proof {
                                assert(p[i as int].0 == crate::keys::k_text_color());
                                assert(kind_field_fails(p, FieldKind::Color, crate::keys::k_text_color()));
                            }
                            return Err(e);
                        },
                    }
                }
        else if crate::common::bytes_eq(key, a_unique_id.as_slice()) {
                    match UniqueId::from_utf8(val) {
                        Ok(v) => { x.unique_id = v; },
                        Err(e) => {
                            proof {
                                assert(p[i as int].0 == crate::keys::k_unique_id());
                                assert(kind_field_fails(p, FieldKind::Uid, crate::keys::k_unique_id()));
                            }
                            return Err(e);
                        },
                    }
                }
        else {
            crate::logging::macro_unsupported_key(counter, "Port", key, val);
        }
            i += 1;
        }
        proof {
            assert(p.take(n as int) =~= p);
        }
        Ok(x)
    }
}

impl NoErc {
    /// The wire record ID of this kind.
    pub open spec fn spec_record_id() -> u32 {
        22
    }

    /// Whether the binder recognizes this wire key.
    pub open spec fn spec_known_key(k: Seq<u8>) -> bool {
        ||| k == crate::keys::k_owner_index()
        ||| k == crate::keys::k_owner_part_id()
        ||| k == crate::keys::k_index_in_sheet()
        ||| k == crate::keys::k_orientation()
        ||| k == crate::keys::k_symbol()
        ||| k == utf8_twin(crate::keys::k_symbol())
        ||| k == crate::keys::k_is_active()
        ||| k == crate::keys::k_suppress_all()
        ||| k == crate::keys::k_location_x()
        ||| k == crate::keys::k_location_y()
        ||| k == crate::keys::k_color()
        ||| k == crate::keys::k_unique_id()
    }

    /// How many pairs hold keys the binder does not recognize.
    pub open spec fn spec_unknown(p: SpecPairs) -> int
        decreases p.len(),
    {
        if p.len() == 0 {
            0
        } else {
            Self::spec_unknown(p.drop_last()) + if Self::spec_known_key(p.last().0) {
                0int
            } else {
                1int
            }
        }
    }

    /// Whether some pair's value is one its field's parser rejects.
    pub open spec fn spec_fails(p: SpecPairs) -> bool {
        ||| kind_field_fails(p, FieldKind::U8, crate::keys::k_owner_index())
        ||| kind_field_fails(p, FieldKind::I8, crate::keys::k_owner_part_id())
        ||| kind_field_fails(p, FieldKind::I16, crate::keys::k_index_in_sheet())
        ||| kind_field_fails(p, FieldKind::I16, crate::keys::k_orientation())
        ||| str_field_fails(p, crate::keys::k_symbol())
        ||| kind_field_fails(p, FieldKind::Bool, crate::keys::k_is_active())
        ||| kind_field_fails(p, FieldKind::Bool, crate::keys::k_suppress_all())
        ||| kind_field_fails(p, FieldKind::I32, crate::keys::k_location_x())
        ||| kind_field_fails(p, FieldKind::I32, crate::keys::k_location_y())
        ||| kind_field_fails(p, FieldKind::Color, crate::keys::k_color())
        ||| kind_field_fails(p, FieldKind::Uid, crate::keys::k_unique_id())
    }

    /// Each field as the walk of the pairs leaves it.
    pub open spec fn spec_matches(x: NoErc, p: SpecPairs) -> bool {
        &&& x.owner_index == u8_field(p, crate::keys::k_owner_index())
        &&& x.owner_part_id == i8_field(p, crate::keys::k_owner_part_id())
        &&& x.index_in_sheet == i16_field(p, crate::keys::k_index_in_sheet())
        &&& x.orientation == i16_field(p, crate::keys::k_orientation())
        &&& x.symbol@ == str_field(p, crate::keys::k_symbol())
        &&& x.is_active == bool_field(p, crate::keys::k_is_active())
        &&& x.suppress_all == bool_field(p, crate::keys::k_suppress_all())
        &&& x.location == loc_field(p, crate::keys::k_location_x(), crate::keys::k_location_y())
        &&& x.color == color_field(p, crate::keys::k_color())
        &&& x.unique_id == uid_field(p, crate::keys::k_unique_id())
    }

    /// Bind the fields of one `NoErc` record from its key-value pairs.
    #[verifier::loop_isolation(false)]
    #[verifier::rlimit(100)]
    pub fn from_record(pairs: &[(Vec<u8>, Vec<u8>)], counter: &mut UnsupportedCounter) -> (r:
        Result<NoErc, ErrorKind>)
        ensures
            r is Ok <==> !NoErc::spec_fails(pairs_view(pairs@)),
            r is Ok ==> NoErc::spec_matches(r->Ok_0, pairs_view(pairs@)),
            r is Ok ==> final(counter).count == sat_add(
                old(counter).count,
                NoErc::spec_unknown(pairs_view(pairs@)),
            ),
            final(counter).count >= old(counter).count,
    {
        let ghost p = pairs_view(pairs@);
        proof {
            crate::common::lemma_pairs_view(pairs@);
            assert(p.take(0) =~= Seq::<(Seq<u8>, Seq<u8>)>::empty());
        }
    let a_owner_index: [u8; 10] = [0x4fu8, 0x77u8, 0x6eu8, 0x65u8, 0x72u8, 0x49u8, 0x6eu8, 0x64u8, 0x65u8, 0x78u8];
    let a_owner_part_id: [u8; 11] = [0x4fu8, 0x77u8, 0x6eu8, 0x65u8, 0x72u8, 0x50u8, 0x61u8, 0x72u8, 0x74u8, 0x49u8, 0x64u8];
    let a_index_in_sheet: [u8; 12] = [0x49u8, 0x6eu8, 0x64u8, 0x65u8, 0x78u8, 0x49u8, 0x6eu8, 0x53u8, 0x68u8, 0x65u8, 0x65u8, 0x74u8];
    let a_orientation: [u8; 11] = [0x4fu8, 0x72u8, 0x69u8, 0x65u8, 0x6eu8, 0x74u8, 0x61u8, 0x74u8, 0x69u8, 0x6fu8, 0x6eu8];
    let a_symbol: [u8; 6] = [0x53u8, 0x79u8, 0x6du8, 0x62u8, 0x6fu8, 0x6cu8];
    let a_is_active: [u8; 8] = [0x49u8, 0x73u8, 0x41u8, 0x63u8, 0x74u8, 0x69u8, 0x76u8, 0x65u8];
    let a_suppress_all: [u8; 11] = [0x53u8, 0x75u8, 0x70u8, 0x70u8, 0x72u8, 0x65u8, 0x73u8, 0x73u8, 0x41u8, 0x6cu8, 0x6cu8];
    let a_location_x: [u8; 10] = [0x4cu8, 0x6fu8, 0x63u8, 0x61u8, 0x74u8, 0x69u8, 0x6fu8, 0x6eu8, 0x2eu8, 0x58u8];
    let a_location_y: [u8; 10] = [0x4cu8, 0x6fu8, 0x63u8, 0x61u8, 0x74u8, 0x69u8, 0x6fu8, 0x6eu8, 0x2eu8, 0x59u8];
    let a_color: [u8; 5] = [0x43u8, 0x6fu8, 0x6cu8, 0x6fu8, 0x72u8];
    let a_unique_id: [u8; 8] = [0x55u8, 0x6eu8, 0x69u8, 0x71u8, 0x75u8, 0x65u8, 0x49u8, 0x44u8];
    let t_symbol: [u8; 12] = [0x25u8, 0x55u8, 0x54u8, 0x46u8, 0x38u8, 0x25u8, 0x53u8, 0x79u8, 0x6du8, 0x62u8, 0x6fu8, 0x6cu8];
    proof {
        assert(a_owner_index@ =~= crate::keys::k_owner_index());
        assert(a_owner_part_id@ =~= crate::keys::k_owner_part_id());
        assert(a_index_in_sheet@ =~= crate::keys::k_index_in_sheet());
        assert(a_orientation@ =~= crate::keys::k_orientation());
        assert(a_symbol@ =~= crate::keys::k_symbol());
        assert(a_is_active@ =~= crate::keys::k_is_active());
        assert(a_suppress_all@ =~= crate::keys::k_suppress_all());
        assert(a_location_x@ =~= crate::keys::k_location_x());
        assert(a_location_y@ =~= crate::keys::k_location_y());
        assert(a_color@ =~= crate::keys::k_color());
        assert(a_unique_id@ =~= crate::keys::k_unique_id());
        assert(t_symbol@ =~= utf8_twin(crate::keys::k_symbol()));
        assert(crate::keys::k_owner_index() != crate::keys::k_owner_part_id()) by { assert(crate::keys::k_owner_index().len() != crate::keys::k_owner_part_id().len()); }
        assert(crate::keys::k_owner_index() != crate::keys::k_index_in_sheet()) by { assert(crate::keys::k_owner_index().len() != crate::keys::k_index_in_sheet().len()); }
        assert(crate::keys::k_owner_index() != crate::keys::k_orientation()) by { assert(crate::keys::k_owner_index().len() != crate::keys::k_orientation().len()); }
        assert(crate::keys::k_owner_index() != crate::keys::k_symbol()) by { assert(crate::keys::k_owner_index().len() != crate::keys::k_symbol().len()); }
        assert(crate::keys::k_owner_index() != crate::keys::k_is_active()) by { assert(crate::keys::k_owner_index().len() != crate::keys::k_is_active().len()); }
        assert(crate::keys::k_owner_index() != crate::keys::k_suppress_all()) by { assert(crate::keys::k_owner_index().len() != crate::keys::k_suppress_all().len()); }
        assert(crate::keys::k_owner_index() != crate::keys::k_location_x()) by { assert(crate::keys::k_owner_index()[0] != crate::keys::k_location_x()[0]); }
        assert(crate::keys::k_owner_index() != crate::keys::k_location_y()) by { assert(crate::keys::k_owner_index()[0] != crate::keys::k_location_y()[0]); }
        assert(crate::keys::k_owner_index() != crate::keys::k_color()) by { assert(crate::keys::k_owner_index().len() != crate::keys::k_color().len()); }
        assert(crate::keys::k_owner_index() != crate::keys::k_unique_id()) by { assert(crate::keys::k_owner_index().len() != crate::keys::k_unique_id().len()); }
        assert(crate::keys::k_owner_index() != utf8_twin(crate::keys::k_symbol())) by { assert(crate::keys::k_owner_index().len() != utf8_twin(crate::keys::k_symbol()).len()); }
        assert(crate::keys::k_owner_part_id() != crate::keys::k_index_in_sheet()) by { assert(crate::keys::k_owner_part_id().len() != crate::keys::k_index_in_sheet().len()); }
        assert(crate::keys::k_owner_part_id() != crate::keys::k_orientation()) by { assert(crate::keys::k_owner_part_id()[1] != crate::keys::k_orientation()[1]); }
        assert(crate::keys::k_owner_part_id() != crate::keys::k_symbol()) by { assert(crate::keys::k_owner_part_id().len() != crate::keys::k_symbol().len()); }
        assert(crate::keys::k_owner_part_id() != crate::keys::k_is_active()) by { assert(crate::keys::k_owner_part_id().len() != crate::keys::k_is_active().len()); }
        assert(crate::keys::k_owner_part_id() != crate::keys::k_suppress_all()) by { assert(crate::keys::k_owner_part_id()[0] != crate::keys::k_suppress_all()[0]); }
        assert(crate::keys::k_owner_part_id() != crate::keys::k_location_x()) by { assert(crate::keys::k_owner_part_id().len() != crate::keys::k_location_x().len()); }
        assert(crate::keys::k_owner_part_id() != crate::keys::k_location_y()) by { assert(crate::keys::k_owner_part_id().len() != crate::keys::k_location_y().len()); }
        assert(crate::keys::k_owner_part_id() != crate::keys::k_color()) by { assert(crate::keys::k_owner_part_id().len() != crate::keys::k_color().len()); }
        assert(crate::keys::k_owner_part_id() != crate::keys::k_unique_id()) by { assert(crate::keys::k_owner_part_id().len() != crate::keys::k_unique_id().len()); }
        assert(crate::keys::k_owner_part_id() != utf8_twin(crate::keys::k_symbol())) by { assert(crate::keys::k_owner_part_id().len() != utf8_twin(crate::keys::k_symbol()).len()); }
        assert(crate::keys::k_index_in_sheet() != crate::keys::k_orientation()) by { assert(crate::keys::k_index_in_sheet().len() != crate::keys::k_orientation().len()); }
        assert(crate::keys::k_index_in_sheet() != crate::keys::k_symbol()) by { assert(crate::keys::k_index_in_sheet().len() != crate::keys::k_symbol().len()); }
        assert(crate::keys::k_index_in_sheet() != crate::keys::k_is_active()) by { assert(crate::keys::k_index_in_sheet().len() != crate::keys::k_is_active().len()); }
        assert(crate::keys::k_index_in_sheet() != crate::keys::k_suppress_all()) by { assert(crate::keys::k_index_in_sheet().len() != crate::keys::k_suppress_all().len()); }
        assert(crate::keys::k_index_in_sheet() != crate::keys::k_location_x()) by { assert(crate::keys::k_index_in_sheet().len() != crate::keys::k_location_x().len()); }
        assert(crate::keys::k_index_in_sheet() != crate::keys::k_location_y()) by { assert(crate::keys::k_index_in_sheet().len() != crate::keys::k_location_y().len()); }
        assert(crate::keys::k_index_in_sheet() != crate::keys::k_color()) by { assert(crate::keys::k_index_in_sheet().len() != crate::keys::k_color().len()); }
        assert(crate::keys::k_index_in_sheet() != crate::keys::k_unique_id()) by { assert(crate::keys::k_index_in_sheet().len() != crate::keys::k_unique_id().len()); }
        assert(crate::keys::k_index_in_sheet() != utf8_twin(crate::keys::k_symbol())) by { assert(crate::keys::k_index_in_sheet()[0] != utf8_twin(crate::keys::k_symbol())[0]); }
        assert(crate::keys::k_orientation() != crate::keys::k_symbol()) by { assert(crate::keys::k_orientation().len() != crate::keys::k_symbol().len()); }
        assert(crate::keys::k_orientation() != crate::keys::k_is_active()) by { assert(crate::keys::k_orientation().len() != crate::keys::k_is_active().len()); }
        assert(crate::keys::k_orientation() != crate::keys::k_suppress_all()) by { assert(crate::keys::k_orientation()[0] != crate::keys::k_suppress_all()[0]); }
        assert(crate::keys::k_orientation() != crate::keys::k_location_x()) by { assert(crate::keys::k_orientation().len() != crate::keys::k_location_x().len()); }
        assert(crate::keys::k_orientation() != crate::keys::k_location_y()) by { assert(crate::keys::k_orientation().len() != crate::keys::k_location_y().len()); }
        assert(crate::keys::k_orientation() != crate::keys::k_color()) by { assert(crate::keys::k_orientation().len() != crate::keys::k_color().len()); }
        assert(crate::keys::k_orientation() != crate::keys::k_unique_id()) by { assert(crate::keys::k_orientation().len() != crate::keys::k_unique_id().len()); }
        assert(crate::keys::k_orientation() != utf8_twin(crate::keys::k_symbol())) by { assert(crate::keys::k_orientation().len() != utf8_twin(crate::keys::k_symbol()).len()); }
        assert(crate::keys::k_symbol() != crate::keys::k_is_active()) by { assert(crate::keys::k_symbol().len() != crate::keys::k_is_active().len()); }
        assert(crate::keys::k_symbol() != crate::keys::k_suppress_all()) by { assert(crate::keys::k_symbol().len() != crate::keys::k_suppress_all().len()); }
        assert(crate::keys::k_symbol() != crate::keys::k_location_x()) by { assert(crate::keys::k_symbol().len() != crate::keys::k_location_x().len()); }
        assert(crate::keys::k_symbol() != crate::keys::k_location_y()) by { assert(crate::keys::k_symbol().len() != crate::keys::k_location_y().len()); }
        assert(crate::keys::k_symbol() != crate::keys::k_color()) by { assert(crate::keys::k_symbol().len() != crate::keys::k_color().len()); }
        assert(crate::keys::k_symbol() != crate::keys::k_unique_id()) by { assert(crate::keys::k_symbol().len() != crate::keys::k_unique_id().len()); }
        assert(crate::keys::k_symbol() != utf8_twin(crate::keys::k_symbol())) by { assert(crate::keys::k_symbol().len() != utf8_twin(crate::keys::k_symbol()).len()); }
        assert(crate::keys::k_is_active() != crate::keys::k_suppress_all()) by { assert(crate::keys::k_is_active().len() != crate::keys::k_suppress_all().len()); }
        assert(crate::keys::k_is_active() != crate::keys::k_location_x()) by { assert(crate::keys::k_is_active().len() != crate::keys::k_location_x().len()); }
        assert(crate::keys::k_is_active() != crate::keys::k_location_y()) by { assert(crate::keys::k_is_active().len() != crate::keys::k_location_y().len()); }
        assert(crate::keys::k_is_active() != crate::keys::k_color()) by { assert(crate::keys::k_is_active().len() != crate::keys::k_color().len()); }
        assert(crate::keys::k_is_active() != crate::keys::k_unique_id()) by { assert(crate::keys::k_is_active()[0] != crate::keys::k_unique_id()[0]); }
        assert(crate::keys::k_is_active() != utf8_twin(crate::keys::k_symbol())) by { assert(crate::keys::k_is_active().len() != utf8_twin(crate::keys::k_symbol()).len()); }
        assert(crate::keys::k_suppress_all() != crate::keys::k_location_x()) by { assert(crate::keys::k_suppress_all().len() != crate::keys::k_location_x().len()); }
        assert(crate::keys::k_suppress_all() != crate::keys::k_location_y()) by { assert(crate::keys::k_suppress_all().len() != crate::keys::k_location_y().len()); }
        assert(crate::keys::k_suppress_all() != crate::keys::k_color()) by { assert(crate::keys::k_suppress_all().len() != crate::keys::k_color().len()); }
        assert(crate::keys::k_suppress_all() != crate::keys::k_unique_id()) by { assert(crate::keys::k_suppress_all().len() != crate::keys::k_unique_id().len()); }
        assert(crate::keys::k_suppress_all() != utf8_twin(crate::keys::k_symbol())) by { assert(crate::keys::k_suppress_all().len() != utf8_twin(crate::keys::k_symbol()).len()); }
        assert(crate::keys::k_location_x() != crate::keys::k_location_y()) by { assert(crate::keys::k_location_x()[9] != crate::keys::k_location_y()[9]); }
        assert(crate::keys::k_location_x() != crate::keys::k_color()) by { assert(crate::keys::k_location_x().len() != crate::keys::k_color().len()); }
        assert(crate::keys::k_location_x() != crate::keys::k_unique_id()) by { assert(crate::keys::k_location_x().len() != crate::keys::k_unique_id().len()); }
        assert(crate::keys::k_location_x() != utf8_twin(crate::keys::k_symbol())) by { assert(crate::keys::k_location_x().len() != utf8_twin(crate::keys::k_symbol()).len()); }
        assert(crate::keys::k_location_y() != crate::keys::k_color()) by { assert(crate::keys::k_location_y().len() != crate::keys::k_color().len()); }
        assert(crate::keys::k_location_y() != crate::keys::k_unique_id()) by { assert(crate::keys::k_location_y().len() != crate::keys::k_unique_id().len()); }
        assert(crate::keys::k_location_y() != utf8_twin(crate::keys::k_symbol())) by { assert(crate::keys::k_location_y().len() != utf8_twin(crate::keys::k_symbol()).len()); }
        assert(crate::keys::k_color() != crate::keys::k_unique_id()) by { assert(crate::keys::k_color().len() != crate::keys::k_unique_id().len()); }
        assert(crate::keys::k_color() != utf8_twin(crate::keys::k_symbol())) by { assert(crate::keys::k_color().len() != utf8_twin(crate::keys::k_symbol()).len()); }
        assert(crate::keys::k_unique_id() != utf8_twin(crate::keys::k_symbol())) by { assert(crate::keys::k_unique_id().len() != utf8_twin(crate::keys::k_symbol()).len()); }
    }
        let mut x = NoErc {
        owner_index: 0,
        owner_part_id: 0,
        index_in_sheet: 0,
        orientation: 0,
        symbol: String::new(),
        is_active: false,
        suppress_all: false,
        location: Location { x: 0, y: 0 },
        color: Rgb { r: 0, g: 0, b: 0 },
        unique_id: UniqueId::Simple([0x30u8, 0x30u8, 0x30u8, 0x30u8, 0x30u8, 0x30u8, 0x30u8, 0x30u8]),
        };
    let mut seen_symbol: bool = false;
        let n = pairs.len();
        let mut i: usize = 0;
        while i < n
            invariant
                0 <= i <= n,
                n == pairs@.len(),
                !NoErc::spec_fails(p.take(i as int)),
                NoErc::spec_matches(x, p.take(i as int)),
            seen_symbol == has_key(p.take(i as int), utf8_twin(crate::keys::k_symbol())),
                counter.count == sat_add(old(counter).count, NoErc::spec_unknown(p.take(i as int))),
                0 <= NoErc::spec_unknown(p.take(i as int)) <= i,
            decreases n - i,
        {
            let key: &[u8] = pairs[i].0.as_slice();
            let val: &[u8] = pairs[i].1.as_slice();
            proof {
                assert(p[i as int] == (pairs@[i as int].0@, pairs@[i as int].1@));
                assert(p.take(i as int + 1).drop_last() =~= p.take(i as int));
                assert(p.take(i as int + 1).last() == p[i as int]);
                assert forall|j: int| 0 <= j <= i implies #[trigger] p.take(i as int + 1).take(j)
                    == p.take(j) by {
                    assert(p.take(i as int + 1).take(j) =~= p.take(j));
                }
                assert forall|j: int| 0 <= j <= i implies #[trigger] p.take(i as int).take(j)
                    == p.take(j) by {
                    assert(p.take(i as int).take(j) =~= p.take(j));
                }
            }
        if crate::common::bytes_eq(key, a_owner_index.as_slice()) {
                    match crate::parse::parse_u8(val) {
                        Ok(v) => { x.owner_index = v; },
                        Err(e) => {
                            proof {
                                assert(p[i as int].0 == crate::keys::k_owner_index());
                                assert(kind_field_fails(p, FieldKind::U8, crate::keys::k_owner_index()));
                            }
                            return Err(e);
                        },
                    }
                }
        else if crate::common::bytes_eq(key, a_owner_part_id.as_slice()) {
                    match crate::parse::parse_i8(val) {
                        Ok(v) => { x.owner_part_id = v; },
                        Err(e) => {
                            proof {
                                assert(p[i as int].0 == crate::keys::k_owner_part_id());
                                assert(kind_field_fails(p, FieldKind::I8, crate::keys::k_owner_part_id()));
                            }
                            return Err(e);
                        },
                    }
                }
        else if crate::common::bytes_eq(key, a_index_in_sheet.as_slice()) {
                    match crate::parse::parse_i16(val) {
                        Ok(v) => { x.index_in_sheet = v; },
                        Err(e) => {
                            proof {
                                assert(p[i as int].0 == crate::keys::k_index_in_sheet());
                                assert(kind_field_fails(p, FieldKind::I16, crate::keys::k_index_in_sheet()));
                            }
                            return Err(e);
                        },
                    }
                }
        else if crate::common::bytes_eq(key, a_orientation.as_slice()) {
                    match crate::parse::parse_i16(val) {
                        Ok(v) => { x.orientation = v; },
                        Err(e) => {
                            proof {
                                assert(p[i as int].0 == crate::keys::k_orientation());
                                assert(kind_field_fails(p, FieldKind::I16, crate::keys::k_orientation()));
                            }
                            return Err(e);
                        },
                    }
                }
        else if crate::common::bytes_eq(key, t_symbol.as_slice()) {
                    match crate::common::str_from_utf8(val) {
                        Ok(s) => { x.symbol = s; seen_symbol = true; },
                        Err(e) => {
                            proof {
                                assert(p[i as int].0 == utf8_twin(crate::keys::k_symbol()));
                                assert(str_field_fails(p, crate::keys::k_symbol()));
                            }
                            return Err(e);
                        },
                    }
                } else if crate::common::bytes_eq(key, a_symbol.as_slice()) {
                    if !seen_symbol {
                        match crate::common::str_from_utf8(val) {
                            Ok(s) => { x.symbol = s; },
                            Err(e) => {
                                proof {
                                    assert(p[i as int].0 == crate::keys::k_symbol());
                                    assert(!has_key(p.take(i as int), utf8_twin(crate::keys::k_symbol())));
                                    assert(str_field_fails(p, crate::keys::k_symbol()));
                                }
                                return Err(e);
                            },
                        }
                    }
                }
        else if crate::common::bytes_eq(key, a_is_active.as_slice()) {
                    match crate::parse::parse_bool(val) {
                        Ok(v) => { x.is_active = v; },
                        Err(e) => {
                            proof {
                                assert(p[i as int].0 == crate::keys::k_is_active());
                                assert(kind_field_fails(p, FieldKind::Bool, crate::keys::k_is_active()));
                            }
                            return Err(e);
                        },
                    }
                }
        else if crate::common::bytes_eq(key, a_suppress_all.as_slice()) {
                    match crate::parse::parse_bool(val) {
                        Ok(v) => { x.suppress_all = v; },
                        Err(e) => {
                            proof {
                                assert(p[i as int].0 == crate::keys::k_suppress_all());
                                assert(kind_field_fails(p, FieldKind::Bool, crate::keys::k_suppress_all()));
                            }
                            return Err(e);
                        },
                    }
                }
        else if crate::common::bytes_eq(key, a_location_x.as_slice()) {
                    match crate::parse::parse_i32(val) {
                        Ok(v) => { x.location.x = v; },
                        Err(e) => {
                            proof {
                                assert(p[i as int].0 == crate::keys::k_location_x());
                                assert(kind_field_fails(p, FieldKind::I32, crate::keys::k_location_x()));
                            }
                            return Err(e);
                        },
                    }
                }
        else if crate::common::bytes_eq(key, a_location_y.as_slice()) {
                    match crate::parse::parse_i32(val) {
                        Ok(v) => { x.location.y = v; },
                        Err(e) => {
                            proof {
                                assert(p[i as int].0 == crate::keys::k_location_y());
                                assert(kind_field_fails(p, FieldKind::I32, crate::keys::k_location_y()));
                            }
                            return Err(e);
                        },
                    }
                }
        else if crate::common::bytes_eq(key, a_color.as_slice()) {
                    match Rgb::from_utf8(val) {
                        Ok(v) => { x.color = v; },
                        Err(e) => {
                            proof {
                                assert(p[i as int].0 == crate::keys::k_color());
                                assert(kind_field_fails(p, FieldKind::Color, crate::keys::k_color()));
                            }
                            return Err(e);
                        },
                    }
                }
        else if crate::common::bytes_eq(key, a_unique_id.as_slice()) {
                    match UniqueId::from_utf8(val) {
                        Ok(v) => { x.unique_id = v; },
                        Err(e) => {
                            proof {
                                assert(p[i as int].0 == crate::keys::k_unique_id());
                                assert(kind_field_fails(p, FieldKind::Uid, crate::keys::k_unique_id()));
                            }
                            return Err(e);
                        },
                    }
                }
        else {
            crate::logging::macro_unsupported_key(counter, "NoErc", key, val);
        }
            i += 1;
        }
        proof {
            assert(p.take(n as int) =~= p);
        }
        Ok(x)
    }
}

impl NetLabel {
    /// The wire record ID of this kind.
    pub open spec fn spec_record_id() -> u32 {
        25
    }

    /// Whether the binder recognizes this wire key.
    pub open spec fn spec_known_key(k: Seq<u8>) -> bool {
        ||| k == crate::keys::k_owner_index()
        ||| k == crate::keys::k_owner_part_id()
        ||| k == crate::keys::k_index_in_sheet()
        ||| k == crate::keys::k_location_x()
        ||| k == crate::keys::k_location_y()
        ||| k == crate::keys::k_color()
        ||| k == crate::keys::k_font_id()
        ||| k == crate::keys::k_text()
        ||| k == utf8_twin(crate::keys::k_text())
        ||| k == crate::keys::k_unique_id()
    }

    /// How many pairs hold keys the binder does not recognize.
    pub open spec fn spec_unknown(p: SpecPairs) -> int
        decreases p.len(),
    {
        if p.len() == 0 {
            0
        } else {
            Self::spec_unknown(p.drop_last()) + if Self::spec_known_key(p.last().0) {
                0int
            } else {
                1int
            }
        }
    }

    /// Whether some pair's value is one its field's parser rejects.
    pub open spec fn spec_fails(p: SpecPairs) -> bool {
        ||| kind_field_fails(p, FieldKind::U8, crate::keys::k_owner_index())
        ||| kind_field_fails(p, FieldKind::I8, crate::keys::k_owner_part_id())
        ||| kind_field_fails(p, FieldKind::I16, crate::keys::k_index_in_sheet())
        ||| kind_field_fails(p, FieldKind::I32, crate::keys::k_location_x())
        ||| kind_field_fails(p, FieldKind::I32, crate::keys::k_location_y())
        ||| kind_field_fails(p, FieldKind::Color, crate::keys::k_color())
        ||| kind_field_fails(p, FieldKind::U16, crate::keys::k_font_id())
        ||| str_field_fails(p, crate::keys::k_text())
        ||| kind_field_fails(p, FieldKind::Uid, crate::keys::k_unique_id())
    }

    /// Each field as the walk of the pairs leaves it.
    pub open spec fn spec_matches(x: NetLabel, p: SpecPairs) -> bool {
        &&& x.owner_index == u8_field(p, crate::keys::k_owner_index())
        &&& x.owner_part_id == i8_field(p, crate::keys::k_owner_part_id())
        &&& x.index_in_sheet == i16_field(p, crate::keys::k_index_in_sheet())
        &&& x.location == loc_field(p, crate::keys::k_location_x(), crate::keys::k_location_y())
        &&& x.color == color_field(p, crate::keys::k_color())
        &&& x.font_id == u16_field(p, crate::keys::k_font_id())
        &&& x.text@ == str_field(p, crate::keys::k_text())
        &&& x.unique_id == uid_field(p, crate::keys::k_unique_id())
    }

    /// Bind the fields of one `NetLabel` record from its key-value pairs.
    #[verifier::loop_isolation(false)]
    #[verifier::rlimit(100)]
    pub fn from_record(pairs: &[(Vec<u8>, Vec<u8>)], counter: &mut UnsupportedCounter) -> (r:
        Result<NetLabel, ErrorKind>)
        ensures
            r is Ok <==> !NetLabel::spec_fails(pairs_view(pairs@)),
            r is Ok ==> NetLabel::spec_matches(r->Ok_0, pairs_view(pairs@)),
            r is Ok ==> final(counter).count == sat_add(
                old(counter).count,
                NetLabel::spec_unknown(pairs_view(pairs@)),
            ),
            final(counter).count >= old(counter).count,
    {
        let ghost p = pairs_view(pairs@);
        proof {
            crate::common::lemma_pairs_view(pairs@);
            assert(p.take(0) =~= Seq::<(Seq<u8>, Seq<u8>)>::empty());
        }
    let a_owner_index: [u8; 10] = [0x4fu8, 0x77u8, 0x6eu8, 0x65u8, 0x72u8, 0x49u8, 0x6eu8, 0x64u8, 0x65u8, 0x78u8];
    let a_owner_part_id: [u8; 11] = [0x4fu8, 0x77u8, 0x6eu8, 0x65u8, 0x72u8, 0x50u8, 0x61u8, 0x72u8, 0x74u8, 0x49u8, 0x64u8];
    let a_index_in_sheet: [u8; 12] = [0x49u8, 0x6eu8, 0x64u8, 0x65u8, 0x78u8, 0x49u8, 0x6eu8, 0x53u8, 0x68u8, 0x65u8, 0x65u8, 0x74u8];
    let a_location_x: [u8; 10] = [0x4cu8, 0x6fu8, 0x63u8, 0x61u8, 0x74u8, 0x69u8, 0x6fu8, 0x6eu8, 0x2eu8, 0x58u8];
    let a_location_y: [u8; 10] = [0x4cu8, 0x6fu8, 0x63u8, 0x61u8, 0x74u8, 0x69u8, 0x6fu8, 0x6eu8, 0x2eu8, 0x59u8];
    let a_color: [u8; 5] = [0x43u8, 0x6fu8, 0x6cu8, 0x6fu8, 0x72u8];
    let a_font_id: [u8; 6] = [0x46u8, 0x6fu8, 0x6eu8, 0x74u8, 0x49u8, 0x44u8];
    let a_text: [u8; 4] = [0x54u8, 0x65u8, 0x78u8, 0x74u8];
    let a_unique_id: [u8; 8] = [0x55u8, 0x6eu8, 0x69u8, 0x71u8, 0x75u8, 0x65u8, 0x49u8, 0x44u8];
    let t_text: [u8; 10] = [0x25u8, 0x55u8, 0x54u8, 0x46u8, 0x38u8, 0x25u8, 0x54u8, 0x65u8, 0x78u8, 0x74u8];
    proof {
        assert(a_owner_index@ =~= crate::keys::k_owner_index());
        assert(a_owner_part_id@ =~= crate::keys::k_owner_part_id());
        assert(a_index_in_sheet@ =~= crate::keys::k_index_in_sheet());
        assert(a_location_x@ =~= crate::keys::k_location_x());
        assert(a_location_y@ =~= crate::keys::k_location_y());
        assert(a_color@ =~= crate::keys::k_color());
        assert(a_font_id@ =~= crate::keys::k_font_id());
        assert(a_text@ =~= crate::keys::k_text());
        assert(a_unique_id@ =~= crate::keys::k_unique_id());
        assert(t_text@ =~= utf8_twin(crate::keys::k_text()));
        assert(crate::keys::k_owner_index() != crate::keys::k_owner_part_id()) by { assert(crate::keys::k_owner_index().len() != crate::keys::k_owner_part_id().len()); }
        assert(crate::keys::k_owner_index() != crate::keys::k_index_in_sheet()) by { assert(crate::keys::k_owner_index().len() != crate::keys::k_index_in_sheet().len()); }
        assert(crate::keys::k_owner_index() != crate::keys::k_location_x()) by { assert(crate::keys::k_owner_index()[0] != crate::keys::k_location_x()[0]); }
        assert(crate::keys::k_owner_index() != crate::keys::k_location_y()) by { assert(crate::keys::k_owner_index()[0] != crate::keys::k_location_y()[0]); }
        assert(crate::keys::k_owner_index() != crate::keys::k_color()) by { assert(crate::keys::k_owner_index().len() != crate::keys::k_color().len()); }
        assert(crate::keys::k_owner_index() != crate::keys::k_font_id()) by { assert(crate::keys::k_owner_index().len() != crate::keys::k_font_id().len()); }
        assert(crate::keys::k_owner_index() != crate::keys::k_text()) by { assert(crate::keys::k_owner_index().len() != crate::keys::k_text().len()); }
        assert(crate::keys::k_owner_index() != crate::keys::k_unique_id()) by { assert(crate::keys::k_owner_index().len() != crate::keys::k_unique_id().len()); }
        assert(crate::keys::k_owner_index() != utf8_twin(crate::keys::k_text())) by { assert(crate::keys::k_owner_index()[0] != utf8_twin(crate::keys::k_text())[0]); }
        assert(crate::keys::k_owner_part_id() != crate::keys::k_index_in_sheet()) by { assert(crate::keys::k_owner_part_id().len() != crate::keys::k_index_in_sheet().len()); }
        assert(crate::keys::k_owner_part_id() != crate::keys::k_location_x()) by { assert(crate::keys::k_owner_part_id().len() != crate::keys::k_location_x().len()); }
        assert(crate::keys::k_owner_part_id() != crate::keys::k_location_y()) by { assert(crate::keys::k_owner_part_id().len() != crate::keys::k_location_y().len()); }
        assert(crate::keys::k_owner_part_id() != crate::keys::k_color()) by { assert(crate::keys::k_owner_part_id().len() != crate::keys::k_color().len()); }
        assert(crate::keys::k_owner_part_id() != crate::keys::k_font_id()) by { assert(crate::keys::k_owner_part_id().len() != crate::keys::k_font_id().len()); }
        assert(crate::keys::k_owner_part_id() != crate::keys::k_text()) by { assert(crate::keys::k_owner_part_id().len() != crate::keys::k_text().len()); }
        assert(crate::keys::k_owner_part_id() != crate::keys::k_unique_id()) by { assert(crate::keys::k_owner_part_id().len() != crate::keys::k_unique_id().len()); }
        assert(crate::keys::k_owner_part_id() != utf8_twin(crate::keys::k_text())) by { assert(crate::keys::k_owner_part_id().len() != utf8_twin(crate::keys::k_text()).len()); }
        assert(crate::keys::k_index_in_sheet() != crate::keys::k_location_x()) by { assert(crate::keys::k_index_in_sheet().len() != crate::keys::k_location_x().len()); }
        assert(crate::keys::k_index_in_sheet() != crate::keys::k_location_y()) by { assert(crate::keys::k_index_in_sheet().len() != crate::keys::k_location_y().len()); }
        assert(crate::keys::k_index_in_sheet() != crate::keys::k_color()) by { assert(crate::keys::k_index_in_sheet().len() != crate::keys::k_color().len()); }
        assert(crate::keys::k_index_in_sheet() != crate::keys::k_font_id()) by { assert(crate::keys::k_index_in_sheet().len() != crate::keys::k_font_id().len()); }
        assert(crate::keys::k_index_in_sheet() != crate::keys::k_text()) by { assert(crate::keys::k_index_in_sheet().len() != crate::keys::k_text().len()); }
        assert(crate::keys::k_index_in_sheet() != crate::keys::k_unique_id()) by { assert(crate::keys::k_index_in_sheet().len() != crate::keys::k_unique_id().len()); }
        assert(crate::keys::k_index_in_sheet() != utf8_twin(crate::keys::k_text())) by { assert(crate::keys::k_index_in_sheet().len() != utf8_twin(crate::keys::k_text()).len()); }
        assert(crate::keys::k_location_x() != crate::keys::k_location_y()) by { assert(crate::keys::k_location_x()[9] != crate::keys::k_location_y()[9]); }
        assert(crate::keys::k_location_x() != crate::keys::k_color()) by { assert(crate::keys::k_location_x().len() != crate::keys::k_color().len()); }
        assert(crate::keys::k_location_x() != crate::keys::k_font_id()) by { assert(crate::keys::k_location_x().len() != crate::keys::k_font_id().len()); }
        assert(crate::keys::k_location_x() != crate::keys::k_text()) by { assert(crate::keys::k_location_x().len() != crate::keys::k_text().len()); }
        assert(crate::keys::k_location_x() != crate::keys::k_unique_id()) by { assert(crate::keys::k_location_x().len() != crate::keys::k_unique_id().len()); }
        assert(crate::keys::k_location_x() != utf8_twin(crate::keys::k_text())) by { assert(crate::keys::k_location_x()[0] != utf8_twin(crate::keys::k_text())[0]); }
        assert(crate::keys::k_location_y() != crate::keys::k_color()) by { assert(crate::keys::k_location_y().len() != crate::keys::k_color().len()); }
        assert(crate::keys::k_location_y() != crate::keys::k_font_id()) by { assert(crate::keys::k_location_y().len() != crate::keys::k_font_id().len()); }
        assert(crate::keys::k_location_y() != crate::keys::k_text()) by { assert(crate::keys::k_location_y().len() != crate::keys::k_text().len()); }
        assert(crate::keys::k_location_y() != crate::keys::k_unique_id()) by { assert(crate::keys::k_location_y().len() != crate::keys::k_unique_id().len()); }
        assert(crate::keys::k_location_y() != utf8_twin(crate::keys::k_text())) by { assert(crate::keys::k_location_y()[0] != utf8_twin(crate::keys::k_text())[0]); }
        assert(crate::keys::k_color() != crate::keys::k_font_id()) by { assert(crate::keys::k_color().len() != crate::keys::k_font_id().len()); }
        assert(crate::keys::k_color() != crate::keys::k_text()) by { assert(crate::keys::k_color().len() != crate::keys::k_text().len()); }
        assert(crate::keys::k_color() != crate::keys::k_unique_id()) by { assert(crate::keys::k_color().len() != crate::keys::k_unique_id().len()); }
        assert(crate::keys::k_color() != utf8_twin(crate::keys::k_text())) by { assert(crate::keys::k_color().len() != utf8_twin(crate::keys::k_text()).len()); }
        assert(crate::keys::k_font_id() != crate::keys::k_text()) by { assert(crate::keys::k_font_id().len() != crate::keys::k_text().len()); }
        assert(crate::keys::k_font_id() != crate::keys::k_unique_id()) by { assert(crate::keys::k_font_id().len() != crate::keys::k_unique_id().len()); }
        assert(crate::keys::k_font_id() != utf8_twin(crate::keys::k_text())) by { assert(crate::keys::k_font_id().len() != utf8_twin(crate::keys::k_text()).len()); }
        assert(crate::keys::k_text() != crate::keys::k_unique_id()) by { assert(crate::keys::k_text().len() != crate::keys::k_unique_id().len()); }
        assert(crate::keys::k_text() != utf8_twin(crate::keys::k_text())) by { assert(crate::keys::k_text().len() != utf8_twin(crate::keys::k_text()).len()); }
        assert(crate::keys::k_unique_id() != utf8_twin(crate::keys::k_text())) by { assert(crate::keys::k_unique_id().len() != utf8_twin(crate::keys::k_text()).len()); }
    }
        let mut x = NetLabel {
        owner_index: 0,
        owner_part_id: 0,
        index_in_sheet: 0,
        location: Location { x: 0, y: 0 },
        color: Rgb { r: 0, g: 0, b: 0 },
        font_id: 0,
        text: String::new(),
        unique_id: UniqueId::Simple([0x30u8, 0x30u8, 0x30u8, 0x30u8, 0x30u8, 0x30u8, 0x30u8, 0x30u8]),
        };
    let mut seen_text: bool = false;
        let n = pairs.len();
        let mut i: usize = 0;
        while i < n
            invariant
                0 <= i <= n,
                n == pairs@.len(),
                !NetLabel::spec_fails(p.take(i as int)),
                NetLabel::spec_matches(x, p.take(i as int)),
            seen_text == has_key(p.take(i as int), utf8_twin(crate::keys::k_text())),
                counter.count == sat_add(old(counter).count, NetLabel::spec_unknown(p.take(i as int))),
                0 <= NetLabel::spec_unknown(p.take(i as int)) <= i,
            decreases n - i,
        {
            let key: &[u8] = pairs[i].0.as_slice();
            let val: &[u8] = pairs[i].1.as_slice();
            proof {
                assert(p[i as int] == (pairs@[i as int].0@, pairs@[i as int].1@));
                assert(p.take(i as int + 1).drop_last() =~= p.take(i as int));
                assert(p.take(i as int + 1).last() == p[i as int]);
                assert forall|j: int| 0 <= j <= i implies #[trigger] p.take(i as int + 1).take(j)
                    == p.take(j) by {
                    assert(p.take(i as int + 1).take(j) =~= p.take(j));
                }
                assert forall|j: int| 0 <= j <= i implies #[trigger] p.take(i as int).take(j)
                    == p.take(j) by {
                    assert(p.take(i as int).take(j) =~= p.take(j));
                }
            }
        if crate::common::bytes_eq(key, a_owner_index.as_slice()) {
                    match crate::parse::parse_u8(val) {
                        Ok(v) => { x.owner_index = v; },
                        Err(e) => {
                            proof {
                                assert(p[i as int].0 == crate::keys::k_owner_index());
                                assert(kind_field_fails(p, FieldKind::U8, crate::keys::k_owner_index()));
                            }
                            return Err(e);
                        },
                    }
                }
        else if crate::common::bytes_eq(key, a_owner_part_id.as_slice()) {
                    match crate::parse::parse_i8(val) {
                        Ok(v) => { x.owner_part_id = v; },
                        Err(e) => {
                            proof {
                                assert(p[i as int].0 == crate::keys::k_owner_part_id());
                                assert(kind_field_fails(p, FieldKind::I8, crate::keys::k_owner_part_id()));
                            }
                            return Err(e);
                        },
                    }
                }
        else if crate::common::bytes_eq(key, a_index_in_sheet.as_slice()) {
                    match crate::parse::parse_i16(val) {
                        Ok(v) => { x.index_in_sheet = v; },
                        Err(e) => {
                            proof {
                                assert(p[i as int].0 == crate::keys::k_index_in_sheet());
                                assert(kind_field_fails(p, FieldKind::I16, crate::keys::k_index_in_sheet()));
                            }
                            return Err(e);
                        },
                    }
                }
        else if crate::common::bytes_eq(key, a_location_x.as_slice()) {
                    match crate::parse::parse_i32(val) {
                        Ok(v) => { x.location.x = v; },
                        Err(e) => {
                            proof {
                                assert(p[i as int].0 == crate::keys::k_location_x());
                                assert(kind_field_fails(p, FieldKind::I32, crate::keys::k_location_x()));
                            }
                            return Err(e);
                        },
                    }
                }
        else if crate::common::bytes_eq(key, a_location_y.as_slice()) {
                    match crate::parse::parse_i32(val) {
                        Ok(v) => { x.location.y = v; },
                        Err(e) => {
                            proof {
                                assert(p[i as int].0 == crate::keys::k_location_y());
                                assert(kind_field_fails(p, FieldKind::I32, crate::keys::k_location_y()));
                            }
                            return Err(e);
                        },
                    }
                }
        else if crate::common::bytes_eq(key, a_color.as_slice()) {
                    match Rgb::from_utf8(val) {
                        Ok(v) => { x.color = v; },
                        Err(e) => {
                            proof {
                                assert(p[i as int].0 == crate::keys::k_color());
                                assert(kind_field_fails(p, FieldKind::Color, crate::keys::k_color()));
                            }
                            return Err(e);
                        },
                    }
                }
        else if crate::common::bytes_eq(key, a_font_id.as_slice()) {
                    match crate::parse::parse_u16(val) {
                        Ok(v) => { x.font_id = v; },
                        Err(e) => {
                            proof {
                                assert(p[i as int].0 == crate::keys::k_font_id());
                                assert(kind_field_fails(p, FieldKind::U16, crate::keys::k_font_id()));
                            }
                            return Err(e);
                        },
                    }
                }
        else if crate::common::bytes_eq(key, t_text.as_slice()) {
                    match crate::common::str_from_utf8(val) {
                        Ok(s) => { x.text = s; seen_text = true; },
                        Err(e) => {
                            proof {
                                assert(p[i as int].0 == utf8_twin(crate::keys::k_text()));
                                assert(str_field_fails(p, crate::keys::k_text()));
                            }
                            return Err(e);
                        },
                    }
                } else if crate::common::bytes_eq(key, a_text.as_slice()) {
                    if !seen_text {
                        match crate::common::str_from_utf8(val) {
                            Ok(s) => { x.text = s; },
                            Err(e) => {
                                proof {
                                    assert(p[i as int].0 == crate::keys::k_text());
                                    assert(!has_key(p.take(i as int), utf8_twin(crate::keys::k_text())));
                                    assert(str_field_fails(p, crate::keys::k_text()));
                                }
                                return Err(e);
                            },
                        }
                    }
                }
        else if crate::common::bytes_eq(key, a_unique_id.as_slice()) {
                    match UniqueId::from_utf8(val) {
                        Ok(v) => { x.unique_id = v; },
                        Err(e) => {
                            proof {
                                assert(p[i as int].0 == crate::keys::k_unique_id());
                                assert(kind_field_fails(p, FieldKind::Uid, crate::keys::k_unique_id()));
                            }
                            return Err(e);
                        },
                    }
                }
        else {
            crate::logging::macro_unsupported_key(counter, "NetLabel", key, val);
        }
            i += 1;
        }
        proof {
            assert(p.take(n as int) =~= p);
        }
        Ok(x)
    }
}

impl TextFrame {
    /// The wire record ID of this kind.
    pub open spec fn spec_record_id() -> u32 {
        28
    }

    /// Whether the binder recognizes this wire key.
    pub open spec fn spec_known_key(k: Seq<u8>) -> bool {
        ||| k == crate::keys::k_location_x()
        ||| k == crate::keys::k_location_y()
        ||| k == crate::keys::k_location_x_frac()
        ||| k == crate::keys::k_location_y_frac()
        ||| k == crate::keys::k_corner_x()
        ||| k == crate::keys::k_corner_y()
        ||| k == crate::keys::k_corner_x_frac()
        ||| k == crate::keys::k_corner_y_frac()
        ||| k == crate::keys::k_area_color()
        ||| k == crate::keys::k_owner_index()
        ||| k == crate::keys::k_owner_part_id()
        ||| k == crate::keys::k_font_id()
        ||| k == crate::keys::k_alignment()
        ||| k == crate::keys::k_word_wrap()
        ||| k == crate::keys::k_text()
        ||| k == utf8_twin(crate::keys::k_text())
        ||| k == crate::keys::k_index_in_sheet()
        ||| k == crate::keys::k_clip_to_rect()
        ||| k == crate::keys::k_unique_id()
    }

    /// How many pairs hold keys the binder does not recognize.
    pub open spec fn spec_unknown(p: SpecPairs) -> int
        decreases p.len(),
    {
        if p.len() == 0 {
            0
        } else {
            Self::spec_unknown(p.drop_last()) + if Self::spec_known_key(p.last().0) {
                0int
            } else {
                1int
            }
        }
    }

    /// Whether some pair's value is one its field's parser rejects.
    pub open spec fn spec_fails(p: SpecPairs) -> bool {
        ||| kind_field_fails(p, FieldKind::I32, crate::keys::k_location_x())
        ||| kind_field_fails(p, FieldKind::I32, crate::keys::k_location_y())
        ||| kind_field_fails(p, FieldKind::I32, crate::keys::k_location_x_frac())
        ||| kind_field_fails(p, FieldKind::I32, crate::keys::k_location_y_frac())
        ||| kind_field_fails(p, FieldKind::I32, crate::keys::k_corner_x())
        ||| kind_field_fails(p, FieldKind::I32, crate::keys::k_corner_y())
        ||| kind_field_fails(p, FieldKind::I32, crate::keys::k_corner_x_frac())
        ||| kind_field_fails(p, FieldKind::I32, crate::keys::k_corner_y_frac())
        ||| kind_field_fails(p, FieldKind::Color, crate::keys::k_area_color())
        ||| kind_field_fails(p, FieldKind::U8, crate::keys::k_owner_index())
        ||| kind_field_fails(p, FieldKind::I8, crate::keys::k_owner_part_id())
        ||| kind_field_fails(p, FieldKind::U16, crate::keys::k_font_id())
        ||| kind_field_fails(p, FieldKind::U16, crate::keys::k_alignment())
        ||| kind_field_fails(p, FieldKind::Bool, crate::keys::k_word_wrap())
        ||| str_field_fails(p, crate::keys::k_text())
        ||| kind_field_fails(p, FieldKind::I16, crate::keys::k_index_in_sheet())
        ||| kind_field_fails(p, FieldKind::Bool, crate::keys::k_clip_to_rect())
        ||| kind_field_fails(p, FieldKind::Uid, crate::keys::k_unique_id())
    }

    /// Each field as the walk of the pairs leaves it.
    pub open spec fn spec_matches(x: TextFrame, p: SpecPairs) -> bool {
        &&& x.location == locf_field(p, crate::keys::k_location_x(), crate::keys::k_location_y(), crate::keys::k_location_x_frac(), crate::keys::k_location_y_frac())
        &&& x.corner == locf_field(p, crate::keys::k_corner_x(), crate::keys::k_corner_y(), crate::keys::k_corner_x_frac(), crate::keys::k_corner_y_frac())
        &&& x.area_color == color_field(p, crate::keys::k_area_color())
        &&& x.owner_index == u8_field(p, crate::keys::k_owner_index())
        &&& x.owner_part_id == i8_field(p, crate::keys::k_owner_part_id())
        &&& x.font_id == u16_field(p, crate::keys::k_font_id())
        &&& x.alignment == u16_field(p, crate::keys::k_alignment())
        &&& x.word_wrap == bool_field(p, crate::keys::k_word_wrap())
        &&& x.text@ == str_field(p, crate::keys::k_text())
        &&& x.index_in_sheet == i16_field(p, crate::keys::k_index_in_sheet())
        &&& x.clip_to_rect == bool_field(p, crate::keys::k_clip_to_rect())
        &&& x.unique_id == uid_field(p, crate::keys::k_unique_id())
    }

    /// Bind the fields of one `TextFrame` record from its key-value pairs.
    #[verifier::loop_isolation(false)]
    #[verifier::rlimit(100)]
    pub fn from_record(pairs: &[(Vec<u8>, Vec<u8>)], counter: &mut UnsupportedCounter) -> (r:
        Result<TextFrame, ErrorKind>)
        ensures
            r is Ok <==> !TextFrame::spec_fails(pairs_view(pairs@)),
            r is Ok ==> TextFrame::spec_matches(r->Ok_0, pairs_view(pairs@)),
            r is Ok ==> final(counter).count == sat_add(
                old(counter).count,
                TextFrame::spec_unknown(pairs_view(pairs@)),
            ),
            final(counter).count >= old(counter).count,
    {
        let ghost p = pairs_view(pairs@);
        proof {
            crate::common::lemma_pairs_view(pairs@);
            assert(p.take(0) =~= Seq::<(Seq<u8>, Seq<u8>)>::empty());
        }
    let a_location_x: [u8; 10] = [0x4cu8, 0x6fu8, 0x63u8, 0x61u8, 0x74u8, 0x69u8, 0x6fu8, 0x6eu8, 0x2eu8, 0x58u8];
    let a_location_y: [u8; 10] = [0x4cu8, 0x6fu8, 0x63u8, 0x61u8, 0x74u8, 0x69u8, 0x6fu8, 0x6eu8, 0x2eu8, 0x59u8];
    let a_location_x_frac: [u8; 15] = [0x4cu8, 0x6fu8, 0x63u8, 0x61u8, 0x74u8, 0x69u8, 0x6fu8, 0x6eu8, 0x2eu8, 0x58u8, 0x5fu8, 0x46u8, 0x72u8, 0x61u8, 0x63u8];
    let a_location_y_frac: [u8; 15] = [0x4cu8, 0x6fu8, 0x63u8, 0x61u8, 0x74u8, 0x69u8, 0x6fu8, 0x6eu8, 0x2eu8, 0x59u8, 0x5fu8, 0x46u8, 0x72u8, 0x61u8, 0x63u8];
    let a_corner_x: [u8; 8] = [0x43u8, 0x6fu8, 0x72u8, 0x6eu8, 0x65u8, 0x72u8, 0x2eu8, 0x58u8];
    let a_corner_y: [u8; 8] = [0x43u8, 0x6fu8, 0x72u8, 0x6eu8, 0x65u8, 0x72u8, 0x2eu8, 0x59u8];
    let a_corner_x_frac: [u8; 13] = [0x43u8, 0x6fu8, 0x72u8, 0x6eu8, 0x65u8, 0x72u8, 0x2eu8, 0x58u8, 0x5fu8, 0x46u8, 0x72u8, 0x61u8, 0x63u8];
    let a_corner_y_frac: [u8; 13] = [0x43u8, 0x6fu8, 0x72u8, 0x6eu8, 0x65u8, 0x72u8, 0x2eu8, 0x59u8, 0x5fu8, 0x46u8, 0x72u8, 0x61u8, 0x63u8];
    let a_area_color: [u8; 9] = [0x41u8, 0x72u8, 0x65u8, 0x61u8, 0x43u8, 0x6fu8, 0x6cu8, 0x6fu8, 0x72u8];
    let a_owner_index: [u8; 10] = [0x4fu8, 0x77u8, 0x6eu8, 0x65u8, 0x72u8, 0x49u8, 0x6eu8, 0x64u8, 0x65u8, 0x78u8];
    let a_owner_part_id: [u8; 11] = [0x4fu8, 0x77u8, 0x6eu8, 0x65u8, 0x72u8, 0x50u8, 0x61u8, 0x72u8, 0x74u8, 0x49u8, 0x64u8];
    let a_font_id: [u8; 6] = [0x46u8, 0x6fu8, 0x6eu8, 0x74u8, 0x49u8, 0x44u8];
    let a_alignment: [u8; 9] = [0x41u8, 0x6cu8, 0x69u8, 0x67u8, 0x6eu8, 0x6du8, 0x65u8, 0x6eu8, 0x74u8];
    let a_word_wrap: [u8; 8] = [0x57u8, 0x6fu8, 0x72u8, 0x64u8, 0x57u8, 0x72u8, 0x61u8, 0x70u8];
    let a_text: [u8; 4] = [0x54u8, 0x65u8, 0x78u8, 0x74u8];
    let a_index_in_sheet: [u8; 12] = [0x49u8, 0x6eu8, 0x64u8, 0x65u8, 0x78u8, 0x49u8, 0x6eu8, 0x53u8, 0x68u8, 0x65u8, 0x65u8, 0x74u8];
    let a_clip_to_rect: [u8; 10] = [0x43u8, 0x6cu8, 0x69u8, 0x70u8, 0x54u8, 0x6fu8, 0x52u8, 0x65u8, 0x63u8, 0x74u8];
    let a_unique_id: [u8; 8] = [0x55u8, 0x6eu8, 0x69u8, 0x71u8, 0x75u8, 0x65u8, 0x49u8, 0x44u8];
    let t_text: [u8; 10] = [0x25u8, 0x55u8, 0x54u8, 0x46u8, 0x38u8, 0x25u8, 0x54u8, 0x65u8, 0x78u8, 0x74u8];
    proof {
        assert(a_location_x@ =~= crate::keys::k_location_x());
        assert(a_location_y@ =~= crate::keys::k_location_y());
        assert(a_location_x_frac@ =~= crate::keys::k_location_x_frac());
        assert(a_location_y_frac@ =~= crate::keys::k_location_y_frac());
        assert(a_corner_x@ =~= crate::keys::k_corner_x());
        assert(a_corner_y@ =~= crate::keys::k_corner_y());
        assert(a_corner_x_frac@ =~= crate::keys::k_corner_x_frac());
        assert(a_corner_y_frac@ =~= crate::keys::k_corner_y_frac());
        assert(a_area_color@ =~= crate::keys::k_area_color());
        assert(a_owner_index@ =~= crate::keys::k_owner_index());
        assert(a_owner_part_id@ =~= crate::keys::k_owner_part_id());
        assert(a_font_id@ =~= crate::keys::k_font_id());
        assert(a_alignment@ =~= crate::keys::k_alignment());
        assert(a_word_wrap@ =~= crate::keys::k_word_wrap());
        assert(a_text@ =~= crate::keys::k_text());
        assert(a_index_in_sheet@ =~= crate::keys::k_index_in_sheet());
        assert(a_clip_to_rect@ =~= crate::keys::k_clip_to_rect());
        assert(a_unique_id@ =~= crate::keys::k_unique_id());
        assert(t_text@ =~= utf8_twin(crate::keys::k_text()));
        assert(crate::keys::k_location_x() != crate::keys::k_location_y()) by { assert(crate::keys::k_location_x()[9] != crate::keys::k_location_y()[9]); }
        assert(crate::keys::k_location_x() != crate::keys::k_location_x_frac()) by { assert(crate::keys::k_location_x().len() != crate::keys::k_location_x_frac().len()); }
        assert(crate::keys::k_location_x() != crate::keys::k_location_y_frac()) by { assert(crate::keys::k_location_x().len() != crate::keys::k_location_y_frac().len()); }
        assert(crate::keys::k_location_x() != crate::keys::k_corner_x()) by { assert(crate::keys::k_location_x().len() != crate::keys::k_corner_x().len()); }
        assert(crate::keys::k_location_x() != crate::keys::k_corner_y()) by { assert(crate::keys::k_location_x().len() != crate::keys::k_corner_y().len()); }
        assert(crate::keys::k_location_x() != crate::keys::k_corner_x_frac()) by { assert(crate::keys::k_location_x().len() != crate::keys::k_corner_x_frac().len()); }
        assert(crate::keys::k_location_x() != crate::keys::k_corner_y_frac()) by { assert(crate::keys::k_location_x().len() != crate::keys::k_corner_y_frac().len()); }
        assert(crate::keys::k_location_x() != crate::keys::k_area_color()) by { assert(crate::keys::k_location_x().len() != crate::keys::k_area_color().len()); }
        assert(crate::keys::k_location_x() != crate::keys::k_owner_index()) by { assert(crate::keys::k_location_x()[0] != crate::keys::k_owner_index()[0]); }
        assert(crate::keys::k_location_x() != crate::keys::k_owner_part_id()) by { assert(crate::keys::k_location_x().len() != crate::keys::k_owner_part_id().len()); }
        assert(crate::keys::k_location_x() != crate::keys::k_font_id()) by { assert(crate::keys::k_location_x().len() != crate::keys::k_font_id().len()); }
        assert(crate::keys::k_location_x() != crate::keys::k_alignment()) by { assert(crate::keys::k_location_x().len() != crate::keys::k_alignment().len()); }
        assert(crate::keys::k_location_x() != crate::keys::k_word_wrap()) by { assert(crate::keys::k_location_x().len() != crate::keys::k_word_wrap().len()); }
        assert(crate::keys::k_location_x() != crate::keys::k_text()) by { assert(crate::keys::k_location_x().len() != crate::keys::k_text().len()); }
        assert(crate::keys::k_location_x() != crate::keys::k_index_in_sheet()) by { assert(crate::keys::k_location_x().len() != crate::keys::k_index_in_sheet().len()); }
        assert(crate::keys::k_location_x() != crate::keys::k_clip_to_rect()) by { assert(crate::keys::k_location_x()[0] != crate::keys::k_clip_to_rect()[0]); }
        assert(crate::keys::k_location_x() != crate::keys::k_unique_id()) by { assert(crate::keys::k_location_x().len() != crate::keys::k_unique_id().len()); }
        assert(crate::keys::k_location_x() != utf8_twin(crate::keys::k_text())) by { assert(crate::keys::k_location_x()[0] != utf8_twin(crate::keys::k_text())[0]); }
        assert(crate::keys::k_location_y() != crate::keys::k_location_x_frac()) by { assert(crate::keys::k_location_y().len() != crate::keys::k_location_x_frac().len()); }
        assert(crate::keys::k_location_y() != crate::keys::k_location_y_frac()) by { assert(crate::keys::k_location_y().len() != crate::keys::k_location_y_frac().len()); }
        assert(crate::keys::k_location_y() != crate::keys::k_corner_x()) by { assert(crate::keys::k_location_y().len() != crate::keys::k_corner_x().len()); }
        assert(crate::keys::k_location_y() != crate::keys::k_corner_y()) by { assert(crate::keys::k_location_y().len() != crate::keys::k_corner_y().len()); }
        assert(crate::keys::k_location_y() != crate::keys::k_corner_x_frac()) by { assert(crate::keys::k_location_y().len() != crate::keys::k_corner_x_frac().len()); }
        assert(crate::keys::k_location_y() != crate::keys::k_corner_y_frac()) by { assert(crate::keys::k_location_y().len() != crate::keys::k_corner_y_frac().len()); }
        assert(crate::keys::k_location_y() != crate::keys::k_area_color()) by { assert(crate::keys::k_location_y().len() != crate::keys::k_area_color().len()); }
        assert(crate::keys::k_location_y() != crate::keys::k_owner_index()) by { assert(crate::keys::k_location_y()[0] != crate::keys::k_owner_index()[0]); }
        assert(crate::keys::k_location_y() != crate::keys::k_owner_part_id()) by { assert(crate::keys::k_location_y().len() != crate::keys::k_owner_part_id().len()); }
        assert(crate::keys::k_location_y() != crate::keys::k_font_id()) by { assert(crate::keys::k_location_y().len() != crate::keys::k_font_id().len()); }
        assert(crate::keys::k_location_y() != crate::keys::k_alignment()) by { assert(crate::keys::k_location_y().len() != crate::keys::k_alignment().len()); }
        assert(crate::keys::k_location_y() != crate::keys::k_word_wrap()) by { assert(crate::keys::k_location_y().len() != crate::keys::k_word_wrap().len()); }
        assert(crate::keys::k_location_y() != crate::keys::k_text()) by { assert(crate::keys::k_location_y().len() != crate::keys::k_text().len()); }
        assert(crate::keys::k_location_y() != crate::keys::k_index_in_sheet()) by { assert(crate::keys::k_location_y().len() != crate::keys::k_index_in_sheet().len()); }
        assert(crate::keys::k_location_y() != crate::keys::k_clip_to_rect()) by { assert(crate::keys::k_location_y()[0] != crate::keys::k_clip_to_rect()[0]); }
        assert(crate::keys::k_location_y() != crate::keys::k_unique_id()) by { assert(crate::keys::k_location_y().len() != crate::keys::k_unique_id().len()); }
        assert(crate::keys::k_location_y() != utf8_twin(crate::keys::k_text())) by { assert(crate::keys::k_location_y()[0] != utf8_twin(crate::keys::k_text())[0]); }
        assert(crate::keys::k_location_x_frac() != crate::keys::k_location_y_frac()) by { assert(crate::keys::k_location_x_frac()[9] != crate::keys::k_location_y_frac()[9]); }
        assert(crate::keys::k_location_x_frac() != crate::keys::k_corner_x()) by { assert(crate::keys::k_location_x_frac().len() != crate::keys::k_corner_x().len()); }
        assert(crate::keys::k_location_x_frac() != crate::keys::k_corner_y()) by { assert(crate::keys::k_location_x_frac().len() != crate::keys::k_corner_y().len()); }
        assert(crate::keys::k_location_x_frac() != crate::keys::k_corner_x_frac()) by { assert(crate::keys::k_location_x_frac().len() != crate::keys::k_corner_x_frac().len()); }
        assert(crate::keys::k_location_x_frac() != crate::keys::k_corner_y_frac()) by { assert(crate::keys::k_location_x_frac().len() != crate::keys::k_corner_y_frac().len()); }
        assert(crate::keys::k_location_x_frac() != crate::keys::k_area_color()) by { assert(crate::keys::k_location_x_frac().len() != crate::keys::k_area_color().len()); }
        assert(crate::keys::k_location_x_frac() != crate::keys::k_owner_index()) by { assert(crate::keys::k_location_x_frac().len() != crate::keys::k_owner_index().len()); }
        assert(crate::keys::k_location_x_frac() != crate::keys::k_owner_part_id()) by { assert(crate::keys::k_location_x_frac().len() != crate::keys::k_owner_part_id().len()); }
        assert(crate::keys::k_location_x_frac() != crate::keys::k_font_id()) by { assert(crate::keys::k_location_x_frac().len() != crate::keys::k_font_id().len()); }
        assert(crate::keys::k_location_x_frac() != crate::keys::k_alignment()) by { assert(crate::keys::k_location_x_frac().len() != crate::keys::k_alignment().len()); }
        assert(crate::keys::k_location_x_frac() != crate::keys::k_word_wrap()) by { assert(crate::keys::k_location_x_frac().len() != crate::keys::k_word_wrap().len()); }
        assert(crate::keys::k_location_x_frac() != crate::keys::k_text()) by { assert(crate::keys::k_location_x_frac().len() != crate::keys::k_text().len()); }
        assert(crate::keys::k_location_x_frac() != crate::keys::k_index_in_sheet()) by { assert(crate::keys::k_location_x_frac().len() != crate::keys::k_index_in_sheet().len()); }
        assert(crate::keys::k_location_x_frac() != crate::keys::k_clip_to_rect()) by { assert(crate::keys::k_location_x_frac().len() != crate::keys::k_clip_to_rect().len()); }
        assert(crate::keys::k_location_x_frac() != crate::keys::k_unique_id()) by { assert(crate::keys::k_location_x_frac().len() != crate::keys::k_unique_id().len()); }
        assert(crate::keys::k_location_x_frac() != utf8_twin(crate::keys::k_text())) by { assert(crate::keys::k_location_x_frac().len() != utf8_twin(crate::keys::k_text()).len()); }
        assert(crate::keys::k_location_y_frac() != crate::keys::k_corner_x()) by { assert(crate::keys::k_location_y_frac().len() != crate::keys::k_corner_x().len()); }
        assert(crate::keys::k_location_y_frac() != crate::keys::k_corner_y()) by { assert(crate::keys::k_location_y_frac().len() != crate::keys::k_corner_y().len()); }
        assert(crate::keys::k_location_y_frac() != crate::keys::k_corner_x_frac()) by { assert(crate::keys::k_location_y_frac().len() != crate::keys::k_corner_x_frac().len()); }
        assert(crate::keys::k_location_y_frac() != crate::keys::k_corner_y_frac()) by { assert(crate::keys::k_location_y_frac().len() != crate::keys::k_corner_y_frac().len()); }
        assert(crate::keys::k_location_y_frac() != crate::keys::k_area_color()) by { assert(crate::keys::k_location_y_frac().len() != crate::keys::k_area_color().len()); }
        assert(crate::keys::k_location_y_frac() != crate::keys::k_owner_index()) by { assert(crate::keys::k_location_y_frac().len() != crate::keys::k_owner_index().len()); }
        assert(crate::keys::k_location_y_frac() != crate::keys::k_owner_part_id()) by { assert(crate::keys::k_location_y_frac().len() != crate::keys::k_owner_part_id().len()); }
        assert(crate::keys::k_location_y_frac() != crate::keys::k_font_id()) by { assert(crate::keys::k_location_y_frac().len() != crate::keys::k_font_id().len()); }
        assert(crate::keys::k_location_y_frac() != crate::keys::k_alignment()) by { assert(crate::keys::k_location_y_frac().len() != crate::keys::k_alignment().len()); }
        assert(crate::keys::k_location_y_frac() != crate::keys::k_word_wrap()) by { assert(crate::keys::k_location_y_frac().len() != crate::keys::k_word_wrap().len()); }
        assert(crate::keys::k_location_y_frac() != crate::keys::k_text()) by { assert(crate::keys::k_location_y_frac().len() != crate::keys::k_text().len()); }
        assert(crate::keys::k_location_y_frac() != crate::keys::k_index_in_sheet()) by { assert(crate::keys::k_location_y_frac().len() != crate::keys::k_index_in_sheet().len()); }
        assert(crate::keys::k_location_y_frac() != crate::keys::k_clip_to_rect()) by { assert(crate::keys::k_location_y_frac().len() != crate::keys::k_clip_to_rect().len()); }
        assert(crate::keys::k_location_y_frac() != crate::keys::k_unique_id()) by { assert(crate::keys::k_location_y_frac().len() != crate::keys::k_unique_id().len()); }
        assert(crate::keys::k_location_y_frac() != utf8_twin(crate::keys::k_text())) by { assert(crate::keys::k_location_y_frac().len() != utf8_twin(crate::keys::k_text()).len()); }
        assert(crate::keys::k_corner_x() != crate::keys::k_corner_y()) by { assert(crate::keys::k_corner_x()[7] != crate::keys::k_corner_y()[7]); }
        assert(crate::keys::k_corner_x() != crate::keys::k_corner_x_frac()) by { assert(crate::keys::k_corner_x().len() != crate::keys::k_corner_x_frac().len()); }
        assert(crate::keys::k_corner_x() != crate::keys::k_corner_y_frac()) by { assert(crate::keys::k_corner_x().len() != crate::keys::k_corner_y_frac().len()); }
        assert(crate::keys::k_corner_x() != crate::keys::k_area_color()) by { assert(crate::keys::k_corner_x().len() != crate::keys::k_area_color().len()); }
        assert(crate::keys::k_corner_x() != crate::keys::k_owner_index()) by { assert(crate::keys::k_corner_x().len() != crate::keys::k_owner_index().len()); }
        assert(crate::keys::k_corner_x() != crate::keys::k_owner_part_id()) by { assert(crate::keys::k_corner_x().len() != crate::keys::k_owner_part_id().len()); }
        assert(crate::keys::k_corner_x() != crate::keys::k_font_id()) by { assert(crate::keys::k_corner_x().len() != crate::keys::k_font_id().len()); }
        assert(crate::keys::k_corner_x() != crate::keys::k_alignment()) by { assert(crate::keys::k_corner_x().len() != crate::keys::k_alignment().len()); }
        assert(crate::keys::k_corner_x() != crate::keys::k_word_wrap()) by { assert(crate::keys::k_corner_x()[0] != crate::keys::k_word_wrap()[0]); }
        assert(crate::keys::k_corner_x() != crate::keys::k_text()) by { assert(crate::keys::k_corner_x().len() != crate::keys::k_text().len()); }
        assert(crate::keys::k_corner_x() != crate::keys::k_index_in_sheet()) by { assert(crate::keys::k_corner_x().len() != crate::keys::k_index_in_sheet().len()); }
        assert(crate::keys::k_corner_x() != crate::keys::k_clip_to_rect()) by { assert(crate::keys::k_corner_x().len() != crate::keys::k_clip_to_rect().len()); }
        assert(crate::keys::k_corner_x() != crate::keys::k_unique_id()) by { assert(crate::keys::k_corner_x()[0] != crate::keys::k_unique_id()[0]); }
        assert(crate::keys::k_corner_x() != utf8_twin(crate::keys::k_text())) by { assert(crate::keys::k_corner_x().len() != utf8_twin(crate::keys::k_text()).len()); }
        assert(crate::keys::k_corner_y() != crate::keys::k_corner_x_frac()) by { assert(crate::keys::k_corner_y().len() != crate::keys::k_corner_x_frac().len()); }
        assert(crate::keys::k_corner_y() != crate::keys::k_corner_y_frac()) by { assert(crate::keys::k_corner_y().len() != crate::keys::k_corner_y_frac().len()); }
        assert(crate::keys::k_corner_y() != crate::keys::k_area_color()) by { assert(crate::keys::k_corner_y().len() != crate::keys::k_area_color().len()); }
        assert(crate::keys::k_corner_y() != crate::keys::k_owner_index()) by { assert(crate::keys::k_corner_y().len() != crate::keys::k_owner_index().len()); }
        assert(crate::keys::k_corner_y() != crate::keys::k_owner_part_id()) by { assert(crate::keys::k_corner_y().len() != crate::keys::k_owner_part_id().len()); }
        assert(crate::keys::k_corner_y() != crate::keys::k_font_id()) by { assert(crate::keys::k_corner_y().len() != crate::keys::k_font_id().len()); }
        assert(crate::keys::k_corner_y() != crate::keys::k_alignment()) by { assert(crate::keys::k_corner_y().len() != crate::keys::k_alignment().len()); }
        assert(crate::keys::k_corner_y() != crate::keys::k_word_wrap()) by { assert(crate::keys::k_corner_y()[0] != crate::keys::k_word_wrap()[0]); }
        assert(crate::keys::k_corner_y() != crate::keys::k_text()) by { assert(crate::keys::k_corner_y().len() != crate::keys::k_text().len()); }
        assert(crate::keys::k_corner_y() != crate::keys::k_index_in_sheet()) by { assert(crate::keys::k_corner_y().len() != crate::keys::k_index_in_sheet().len()); }
        assert(crate::keys::k_corner_y() != crate::keys::k_clip_to_rect()) by { assert(crate::keys::k_corner_y().len() != crate::keys::k_clip_to_rect().len()); }
        assert(crate::keys::k_corner_y() != crate::keys::k_unique_id()) by { assert(crate::keys::k_corner_y()[0] != crate::keys::k_unique_id()[0]); }
        assert(crate::keys::k_corner_y() != utf8_twin(crate::keys::k_text())) by { assert(crate::keys::k_corner_y().len() != utf8_twin(crate::keys::k_text()).len()); }
        assert(crate::keys::k_corner_x_frac() != crate::keys::k_corner_y_frac()) by { assert(crate::keys::k_corner_x_frac()[7] != crate::keys::k_corner_y_frac()[7]); }
        assert(crate::keys::k_corner_x_frac() != crate::keys::k_area_color()) by { assert(crate::keys::k_corner_x_frac().len() != crate::keys::k_area_color().len()); }
        assert(crate::keys::k_corner_x_frac() != crate::keys::k_owner_index()) by { assert(crate::keys::k_corner_x_frac().len() != crate::keys::k_owner_index().len()); }
        assert(crate::keys::k_corner_x_frac() != crate::keys::k_owner_part_id()) by { assert(crate::keys::k_corner_x_frac().len() != crate::keys::k_owner_part_id().len()); }
        assert(crate::keys::k_corner_x_frac() != crate::keys::k_font_id()) by { assert(crate::keys::k_corner_x_frac().len() != crate::keys::k_font_id().len()); }
        assert(crate::keys::k_corner_x_frac() != crate::keys::k_alignment()) by { assert(crate::keys::k_corner_x_frac().len() != crate::keys::k_alignment().len()); }
        assert(crate::keys::k_corner_x_frac() != crate::keys::k_word_wrap()) by { assert(crate::keys::k_corner_x_frac().len() != crate::keys::k_word_wrap().len()); }
        assert(crate::keys::k_corner_x_frac() != crate::keys::k_text()) by { assert(crate::keys::k_corner_x_frac().len() != crate::keys::k_text().len()); }
        assert(crate::keys::k_corner_x_frac() != crate::keys::k_index_in_sheet()) by { assert(crate::keys::k_corner_x_frac().len() != crate::keys::k_index_in_sheet().len()); }
        assert(crate::keys::k_corner_x_frac() != crate::keys::k_clip_to_rect()) by { assert(crate::keys::k_corner_x_frac().len() != crate::keys::k_clip_to_rect().len()); }
        assert(crate::keys::k_corner_x_frac() != crate::keys::k_unique_id()) by { assert(crate::keys::k_corner_x_frac().len() != crate::keys::k_unique_id().len()); }
        assert(crate::keys::k_corner_x_frac() != utf8_twin(crate::keys::k_text())) by { assert(crate::keys::k_corner_x_frac().len() != utf8_twin(crate::keys::k_text()).len()); }
        assert(crate::keys::k_corner_y_frac() != crate::keys::k_area_color()) by { assert(crate::keys::k_corner_y_frac().len() != crate::keys::k_area_color().len()); }
        assert(crate::keys::k_corner_y_frac() != crate::keys::k_owner_index()) by { assert(crate::keys::k_corner_y_frac().len() != crate::keys::k_owner_index().len()); }
        assert(crate::keys::k_corner_y_frac() != crate::keys::k_owner_part_id()) by { assert(crate::keys::k_corner_y_frac().len() != crate::keys::k_owner_part_id().len()); }
        assert(crate::keys::k_corner_y_frac() != crate::keys::k_font_id()) by { assert(crate::keys::k_corner_y_frac().len() != crate::keys::k_font_id().len()); }
        assert(crate::keys::k_corner_y_frac() != crate::keys::k_alignment()) by { assert(crate::keys::k_corner_y_frac().len() != crate::keys::k_alignment().len()); }
        assert(crate::keys::k_corner_y_frac() != crate::keys::k_word_wrap()) by { assert(crate::keys::k_corner_y_frac().len() != crate::keys::k_word_wrap().len()); }
        assert(crate::keys::k_corner_y_frac() != crate::keys::k_text()) by { assert(crate::keys::k_corner_y_frac().len() != crate::keys::k_text().len()); }
        assert(crate::keys::k_corner_y_frac() != crate::keys::k_index_in_sheet()) by { assert(crate::keys::k_corner_y_frac().len() != crate::keys::k_index_in_sheet().len()); }
        assert(crate::keys::k_corner_y_frac() != crate::keys::k_clip_to_rect()) by { assert(crate::keys::k_corner_y_frac().len() != crate::keys::k_clip_to_rect().len()); }
        assert(crate::keys::k_corner_y_frac() != crate::keys::k_unique_id()) by { assert(crate::keys::k_corner_y_frac().len() != crate::keys::k_unique_id().len()); }
        assert(crate::keys::k_corner_y_frac() != utf8_twin(crate::keys::k_text())) by { assert(crate::keys::k_corner_y_frac().len() != utf8_twin(crate::keys::k_text()).len()); }
        assert(crate::keys::k_area_color() != crate::keys::k_owner_index()) by { assert(crate::keys::k_area_color().len() != crate::keys::k_owner_index().len()); }
        assert(crate::keys::k_area_color() != crate::keys::k_owner_part_id()) by { assert(crate::keys::k_area_color().len() != crate::keys::k_owner_part_id().len()); }
        assert(crate::keys::k_area_color() != crate::keys::k_font_id()) by { assert(crate::keys::k_area_color().len() != crate::keys::k_font_id().len()); }
        assert(crate::keys::k_area_color() != crate::keys::k_alignment()) by { assert(crate::keys::k_area_color()[1] != crate::keys::k_alignment()[1]); }
        assert(crate::keys::k_area_color() != crate::keys::k_word_wrap()) by { assert(crate::keys::k_area_color().len() != crate::keys::k_word_wrap().len()); }
        assert(crate::keys::k_area_color() != crate::keys::k_text()) by { assert(crate::keys::k_area_color().len() != crate::keys::k_text().len()); }
        assert(crate::keys::k_area_color() != crate::keys::k_index_in_sheet()) by { assert(crate::keys::k_area_color().len() != crate::keys::k_index_in_sheet().len()); }
        assert(crate::keys::k_area_color() != crate::keys::k_clip_to_rect()) by { assert(crate::keys::k_area_color().len() != crate::keys::k_clip_to_rect().len()); }
        assert(crate::keys::k_area_color() != crate::keys::k_unique_id()) by { assert(crate::keys::k_area_color().len() != crate::keys::k_unique_id().len()); }
        assert(crate::keys::k_area_color() != utf8_twin(crate::keys::k_text())) by { assert(crate::keys::k_area_color().len() != utf8_twin(crate::keys::k_text()).len()); }
        assert(crate::keys::k_owner_index() != crate::keys::k_owner_part_id()) by { assert(crate::keys::k_owner_index().len() != crate::keys::k_owner_part_id().len()); }
        assert(crate::keys::k_owner_index() != crate::keys::k_font_id()) by { assert(crate::keys::k_owner_index().len() != crate::keys::k_font_id().len()); }
        assert(crate::keys::k_owner_index() != crate::keys::k_alignment()) by { assert(crate::keys::k_owner_index().len() != crate::keys::k_alignment().len()); }
        assert(crate::keys::k_owner_index() != crate::keys::k_word_wrap()) by { assert(crate::keys::k_owner_index().len() != crate::keys::k_word_wrap().len()); }
        assert(crate::keys::k_owner_index() != crate::keys::k_text()) by { assert(crate::keys::k_owner_index().len() != crate::keys::k_text().len()); }
        assert(crate::keys::k_owner_index() != crate::keys::k_index_in_sheet()) by { assert(crate::keys::k_owner_index().len() != crate::keys::k_index_in_sheet().len()); }
        assert(crate::keys::k_owner_index() != crate::keys::k_clip_to_rect()) by { assert(crate::keys::k_owner_index()[0] != crate::keys::k_clip_to_rect()[0]); }
        assert(crate::keys::k_owner_index() != crate::keys::k_unique_id()) by { assert(crate::keys::k_owner_index().len() != crate::keys::k_unique_id().len()); }
        assert(crate::keys::k_owner_index() != utf8_twin(crate::keys::k_text())) by { assert(crate::keys::k_owner_index()[0] != utf8_twin(crate::keys::k_text())[0]); }
        assert(crate::keys::k_owner_part_id() != crate::keys::k_font_id()) by { assert(crate::keys::k_owner_part_id().len() != crate::keys::k_font_id().len()); }
        assert(crate::keys::k_owner_part_id() != crate::keys::k_alignment()) by { assert(crate::keys::k_owner_part_id().len() != crate::keys::k_alignment().len()); }
        assert(crate::keys::k_owner_part_id() != crate::keys::k_word_wrap()) by { assert(crate::keys::k_owner_part_id().len() != crate::keys::k_word_wrap().len()); }
        assert(crate::keys::k_owner_part_id() != crate::keys::k_text()) by { assert(crate::keys::k_owner_part_id().len() != crate::keys::k_text().len()); }
        assert(crate::keys::k_owner_part_id() != crate::keys::k_index_in_sheet()) by { assert(crate::keys::k_owner_part_id().len() != crate::keys::k_index_in_sheet().len()); }
        assert(crate::keys::k_owner_part_id() != crate::keys::k_clip_to_rect()) by { assert(crate::keys::k_owner_part_id().len() != crate::keys::k_clip_to_rect().len()); }
        assert(crate::keys::k_owner_part_id() != crate::keys::k_unique_id()) by { assert(crate::keys::k_owner_part_id().len() != crate::keys::k_unique_id().len()); }
        assert(crate::keys::k_owner_part_id() != utf8_twin(crate::keys::k_text())) by { assert(crate::keys::k_owner_part_id().len() != utf8_twin(crate::keys::k_text()).len()); }
        assert(crate::keys::k_font_id() != crate::keys::k_alignment()) by { assert(crate::keys::k_font_id().len() != crate::keys::k_alignment().len()); }
        assert(crate::keys::k_font_id() != crate::keys::k_word_wrap()) by { assert(crate::keys::k_font_id().len() != crate::keys::k_word_wrap().len()); }
        assert(crate::keys::k_font_id() != crate::keys::k_text()) by { assert(crate::keys::k_font_id().len() != crate::keys::k_text().len()); }
        assert(crate::keys::k_font_id() != crate::keys::k_index_in_sheet()) by { assert(crate::keys::k_font_id().len() != crate::keys::k_index_in_sheet().len()); }
        assert(crate::keys::k_font_id() != crate::keys::k_clip_to_rect()) by { assert(crate::keys::k_font_id().len() != crate::keys::k_clip_to_rect().len()); }
        assert(crate::keys::k_font_id() != crate::keys::k_unique_id()) by { assert(crate::keys::k_font_id().len() != crate::keys::k_unique_id().len()); }
        assert(crate::keys::k_font_id() != utf8_twin(crate::keys::k_text())) by { assert(crate::keys::k_font_id().len() != utf8_twin(crate::keys::k_text()).len()); }
        assert(crate::keys::k_alignment() != crate::keys::k_word_wrap()) by { assert(crate::keys::k_alignment().len() != crate::keys::k_word_wrap().len()); }
        assert(crate::keys::k_alignment() != crate::keys::k_text()) by { assert(crate::keys::k_alignment().len() != crate::keys::k_text().len()); }
        assert(crate::keys::k_alignment() != crate::keys::k_index_in_sheet()) by { assert(crate::keys::k_alignment().len() != crate::keys::k_index_in_sheet().len()); }
        assert(crate::keys::k_alignment() != crate::keys::k_clip_to_rect()) by { assert(crate::keys::k_alignment().len() != crate::keys::k_clip_to_rect().len()); }
        assert(crate::keys::k_alignment() != crate::keys::k_unique_id()) by { assert(crate::keys::k_alignment().len() != crate::keys::k_unique_id().len()); }
        assert(crate::keys::k_alignment() != utf8_twin(crate::keys::k_text())) by { assert(crate::keys::k_alignment().len() != utf8_twin(crate::keys::k_text()).len()); }
        assert(crate::keys::k_word_wrap() != crate::keys::k_text()) by { assert(crate::keys::k_word_wrap().len() != crate::keys::k_text().len()); }
        assert(crate::keys::k_word_wrap() != crate::keys::k_index_in_sheet()) by { assert(crate::keys::k_word_wrap().len() != crate::keys::k_index_in_sheet().len()); }
        assert(crate::keys::k_word_wrap() != crate::keys::k_clip_to_rect()) by { assert(crate::keys::k_word_wrap().len() != crate::keys::k_clip_to_rect().len()); }
        assert(crate::keys::k_word_wrap() != crate::keys::k_unique_id()) by { assert(crate::keys::k_word_wrap()[0] != crate::keys::k_unique_id()[0]); }
        assert(crate::keys::k_word_wrap() != utf8_twin(crate::keys::k_text())) by { assert(crate::keys::k_word_wrap().len() != utf8_twin(crate::keys::k_text()).len()); }
        assert(crate::keys::k_text() != crate::keys::k_index_in_sheet()) by { assert(crate::keys::k_text().len() != crate::keys::k_index_in_sheet().len()); }
        assert(crate::keys::k_text() != crate::keys::k_clip_to_rect()) by { assert(crate::keys::k_text().len() != crate::keys::k_clip_to_rect().len()); }
        assert(crate::keys::k_text() != crate::keys::k_unique_id()) by { assert(crate::keys::k_text().len() != crate::keys::k_unique_id().len()); }
        assert(crate::keys::k_text() != utf8_twin(crate::keys::k_text())) by { assert(crate::keys::k_text().len() != utf8_twin(crate::keys::k_text()).len()); }
        assert(crate::keys::k_index_in_sheet() != crate::keys::k_clip_to_rect()) by { assert(crate::keys::k_index_in_sheet().len() != crate::keys::k_clip_to_rect().len()); }
        assert(crate::keys::k_index_in_sheet() != crate::keys::k_unique_id()) by { assert(crate::keys::k_index_in_sheet().len() != crate::keys::k_unique_id().len()); }
        assert(crate::keys::k_index_in_sheet() != utf8_twin(crate::keys::k_text())) by { assert(crate::keys::k_index_in_sheet().len() != utf8_twin(crate::keys::k_text()).len()); }
        assert(crate::keys::k_clip_to_rect() != crate::keys::k_unique_id()) by { assert(crate::keys::k_clip_to_rect().len() != crate::keys::k_unique_id().len()); }
        assert(crate::keys::k_clip_to_rect() != utf8_twin(crate::keys::k_text())) by { assert(crate::keys::k_clip_to_rect()[0] != utf8_twin(crate::keys::k_text())[0]); }
        assert(crate::keys::k_unique_id() != utf8_twin(crate::keys::k_text())) by { assert(crate::keys::k_unique_id().len() != utf8_twin(crate::keys::k_text()).len()); }
    }
        let mut x = TextFrame {
        location: LocationFract { x: 0, x_fract: 0, y: 0, y_fract: 0 },
        corner: LocationFract { x: 0, x_fract: 0, y: 0, y_fract: 0 },
        area_color: Rgb { r: 0, g: 0, b: 0 },
        owner_index: 0,
        owner_part_id: 0,
        font_id: 0,
        alignment: 0,
        word_wrap: false,
        text: String::new(),
        index_in_sheet: 0,
        clip_to_rect: false,
        unique_id: UniqueId::Simple([0x30u8, 0x30u8, 0x30u8, 0x30u8, 0x30u8, 0x30u8, 0x30u8, 0x30u8]),
        };
    let mut seen_text: bool = false;
        let n = pairs.len();
        let mut i: usize = 0;
        while i < n
            invariant
                0 <= i <= n,
                n == pairs@.len(),
                !TextFrame::spec_fails(p.take(i as int)),
                TextFrame::spec_matches(x, p.take(i as int)),
            seen_text == has_key(p.take(i as int), utf8_twin(crate::keys::k_text())),
                counter.count == sat_add(old(counter).count, TextFrame::spec_unknown(p.take(i as int))),
                0 <= TextFrame::spec_unknown(p.take(i as int)) <= i,
            decreases n - i,
        {
            let key: &[u8] = pairs[i].0.as_slice();
            let val: &[u8] = pairs[i].1.as_slice();
            proof {
                assert(p[i as int] == (pairs@[i as int].0@, pairs@[i as int].1@));
                assert(p.take(i as int + 1).drop_last() =~= p.take(i as int));
                assert(p.take(i as int + 1).last() == p[i as int]);
                assert forall|j: int| 0 <= j <= i implies #[trigger] p.take(i as int + 1).take(j)
                    == p.take(j) by {
                    assert(p.take(i as int + 1).take(j) =~= p.take(j));
                }
                assert forall|j: int| 0 <= j <= i implies #[trigger] p.take(i as int).take(j)
                    == p.take(j) by {
                    assert(p.take(i as int).take(j) =~= p.take(j));
                }
            }
        if crate::common::bytes_eq(key, a_location_x.as_slice()) {
                    match crate::parse::parse_i32(val) {
                        Ok(v) => { x.location.x = v; },
                        Err(e) => {
                            proof {
                                assert(p[i as int].0 == crate::keys::k_location_x());
                                assert(kind_field_fails(p, FieldKind::I32, crate::keys::k_location_x()));
                            }
                            return Err(e);
                        },
                    }
                }
        else if crate::common::bytes_eq(key, a_location_y.as_slice()) {
                    match crate::parse::parse_i32(val) {
                        Ok(v) => { x.location.y = v; },
                        Err(e) => {
                            proof {
                                assert(p[i as int].0 == crate::keys::k_location_y());
                                assert(kind_field_fails(p, FieldKind::I32, crate::keys::k_location_y()));
                            }
                            return Err(e);
                        },
                    }
                }
        else if crate::common::bytes_eq(key, a_location_x_frac.as_slice()) {
                    match crate::parse::parse_i32(val) {
                        Ok(v) => { x.location.x_fract = v; },
                        Err(e) => {
                            proof {
                                assert(p[i as int].0 == crate::keys::k_location_x_frac());
                                assert(kind_field_fails(p, FieldKind::I32, crate::keys::k_location_x_frac()));
                            }
                            return Err(e);
                        },
                    }
                }
        else if crate::common::bytes_eq(key, a_location_y_frac.as_slice()) {
                    match crate::parse::parse_i32(val) {
                        Ok(v) => { x.location.y_fract = v; },
                        Err(e) => {
                            proof {
                                assert(p[i as int].0 == crate::keys::k_location_y_frac());
                                assert(kind_field_fails(p, FieldKind::I32, crate::keys::k_location_y_frac()));
                            }
                            return Err(e);
                        },
                    }
                }
        else if crate::common::bytes_eq(key, a_corner_x.as_slice()) {
                    match crate::parse::parse_i32(val) {
                        Ok(v) => { x.corner.x = v; },
                        Err(e) => {
                            proof {
                                assert(p[i as int].0 == crate::keys::k_corner_x());
                                assert(kind_field_fails(p, FieldKind::I32, crate::keys::k_corner_x()));
                            }
                            return Err(e);
                        },
                    }
                }
        else if crate::common::bytes_eq(key, a_corner_y.as_slice()) {
                    match crate::parse::parse_i32(val) {
                        Ok(v) => { x.corner.y = v; },
                        Err(e) => {
                            proof {
                                assert(p[i as int].0 == crate::keys::k_corner_y());
                                assert(kind_field_fails(p, FieldKind::I32, crate::keys::k_corner_y()));
                            }
                            return Err(e);
                        },
                    }
                }
        else if crate::common::bytes_eq(key, a_corner_x_frac.as_slice()) {
                    match crate::parse::parse_i32(val) {
                        Ok(v) => { x.corner.x_fract = v; },
                        Err(e) => {
                            proof {
                                assert(p[i as int].0 == crate::keys::k_corner_x_frac());
                                assert(kind_field_fails(p, FieldKind::I32, crate::keys::k_corner_x_frac()));
                            }
                            return Err(e);
                        },
                    }
                }
        else if crate::common::bytes_eq(key, a_corner_y_frac.as_slice()) {
                    match crate::parse::parse_i32(val) {
                        Ok(v) => { x.corner.y_fract = v; },
                        Err(e) => {
                            proof {
                                assert(p[i as int].0 == crate::keys::k_corner_y_frac());
                                assert(kind_field_fails(p, FieldKind::I32, crate::keys::k_corner_y_frac()));
                            }
                            return Err(e);
                        },
                    }
                }
        else if crate::common::bytes_eq(key, a_area_color.as_slice()) {
                    match Rgb::from_utf8(val) {
                        Ok(v) => { x.area_color = v; },
                        Err(e) => {
                            proof {
                                assert(p[i as int].0 == crate::keys::k_area_color());
                                assert(kind_field_fails(p, FieldKind::Color, crate::keys::k_area_color()));
                            }
                            return Err(e);
                        },
                    }
                }
        else if crate::common::bytes_eq(key, a_owner_index.as_slice()) {
                    match crate::parse::parse_u8(val) {
                        Ok(v) => { x.owner_index = v; },
                        Err(e) => {
                            proof {
                                assert(p[i as int].0 == crate::keys::k_owner_index());
                                assert(kind_field_fails(p, FieldKind::U8, crate::keys::k_owner_index()));
                            }
                            return Err(e);
                        },
                    }
                }
        else if crate::common::bytes_eq(key, a_owner_part_id.as_slice()) {
                    match crate::parse::parse_i8(val) {
                        Ok(v) => { x.owner_part_id = v; },
                        Err(e) => {
                            proof {
                                assert(p[i as int].0 == crate::keys::k_owner_part_id());
                                assert(kind_field_fails(p, FieldKind::I8, crate::keys::k_owner_part_id()));
                            }
                            return Err(e);
                        },
                    }
                }
        else if crate::common::bytes_eq(key, a_font_id.as_slice()) {
                    match crate::parse::parse_u16(val) {
                        Ok(v) => { x.font_id = v; },
                        Err(e) => {
                            proof {
                                assert(p[i as int].0 == crate::keys::k_font_id());
                                assert(kind_field_fails(p, FieldKind::U16, crate::keys::k_font_id()));
                            }
                            return Err(e);
                        },
                    }
                }
        else if crate::common::bytes_eq(key, a_alignment.as_slice()) {
                    match crate::parse::parse_u16(val) {
                        Ok(v) => { x.alignment = v; },
                        Err(e) => {
                            proof {
                                assert(p[i as int].0 == crate::keys::k_alignment());
                                assert(kind_field_fails(p, FieldKind::U16, crate::keys::k_alignment()));
                            }
                            return Err(e);
                        },
                    }
                }
        else if crate::common::bytes_eq(key, a_word_wrap.as_slice()) {
                    match crate::parse::parse_bool(val) {
                        Ok(v) => { x.word_wrap = v; },
                        Err(e) => {
                            proof {
                                assert(p[i as int].0 == crate::keys::k_word_wrap());
                                assert(kind_field_fails(p, FieldKind::Bool, crate::keys::k_word_wrap()));
                            }
                            return Err(e);
                        },
                    }
                }
        else if crate::common::bytes_eq(key, t_text.as_slice()) {
                    match crate::common::str_from_utf8(val) {
                        Ok(s) => { x.text = s; seen_text = true; },
                        Err(e) => {
                            proof {
                                assert(p[i as int].0 == utf8_twin(crate::keys::k_text()));
                                assert(str_field_fails(p, crate::keys::k_text()));
                            }
                            return Err(e);
                        },
                    }
                } else if crate::common::bytes_eq(key, a_text.as_slice()) {
                    if !seen_text {
                        match crate::common::str_from_utf8(val) {
                            Ok(s) => { x.text = s; },
                            Err(e) => {
                                proof {
                                    assert(p[i as int].0 == crate::keys::k_text());
                                    assert(!has_key(p.take(i as int), utf8_twin(crate::keys::k_text())));
                                    assert(str_field_fails(p, crate::keys::k_text()));
                                }
                                return Err(e);
                            },
                        }
                    }
                }
        else if crate::common::bytes_eq(key, a_index_in_sheet.as_slice()) {
                    match crate::parse::parse_i16(val) {
                        Ok(v) => { x.index_in_sheet = v; },
                        Err(e) => {
                            proof {
                                assert(p[i as int].0 == crate::keys::k_index_in_sheet());
                                assert(kind_field_fails(p, FieldKind::I16, crate::keys::k_index_in_sheet()));
                            }
                            return Err(e);
                        },
                    }
                }
        else if crate::common::bytes_eq(key, a_clip_to_rect.as_slice()) {
                    match crate::parse::parse_bool(val) {
                        Ok(v) => { x.clip_to_rect = v; },
                        Err(e) => {
                            proof {
                                assert(p[i as int].0 == crate::keys::k_clip_to_rect());
                                assert(kind_field_fails(p, FieldKind::Bool, crate::keys::k_clip_to_rect()));
                            }
                            return Err(e);
                        },
                    }
                }
        else if crate::common::bytes_eq(key, a_unique_id.as_slice()) {
                    match UniqueId::from_utf8(val) {
                        Ok(v) => { x.unique_id = v; },
                        Err(e) => {
                            proof {
                                assert(p[i as int].0 == crate::keys::k_unique_id());
                                assert(kind_field_fails(p, FieldKind::Uid, crate::keys::k_unique_id()));
                            }
                            return Err(e);
                        },
                    }
                }
        else {
            crate::logging::macro_unsupported_key(counter, "TextFrame", key, val);
        }
            i += 1;
        }
        proof {
            assert(p.take(n as int) =~= p);
        }
        Ok(x)
    }
}

impl Junction {
    /// The wire record ID of this kind.
    pub open spec fn spec_record_id() -> u32 {
        29
    }

    /// Whether the binder recognizes this wire key.
    pub open spec fn spec_known_key(k: Seq<u8>) -> bool {
        ||| k == crate::keys::k_owner_index()
        ||| k == crate::keys::k_owner_part_id()
    }

    /// How many pairs hold keys the binder does not recognize.
    pub open spec fn spec_unknown(p: SpecPairs) -> int
        decreases p.len(),
    {
        if p.len() == 0 {
            0
        } else {
            Self::spec_unknown(p.drop_last()) + if Self::spec_known_key(p.last().0) {
                0int
            } else {
                1int
            }
        }
    }

    /// Whether some pair's value is one its field's parser rejects.
    pub open spec fn spec_fails(p: SpecPairs) -> bool {
        ||| kind_field_fails(p, FieldKind::U8, crate::keys::k_owner_index())
        ||| kind_field_fails(p, FieldKind::I8, crate::keys::k_owner_part_id())
    }

    /// Each field as the walk of the pairs leaves it.
    pub open spec fn spec_matches(x: Junction, p: SpecPairs) -> bool {
        &&& x.owner_index == u8_field(p, crate::keys::k_owner_index())
        &&& x.owner_part_id == i8_field(p, crate::keys::k_owner_part_id())
    }

    /// Bind the fields of one `Junction` record from its key-value pairs.
    #[verifier::loop_isolation(false)]
    #[verifier::rlimit(100)]
    pub fn from_record(pairs: &[(Vec<u8>, Vec<u8>)], counter: &mut UnsupportedCounter) -> (r:
        Result<Junction, ErrorKind>)
        ensures
            r is Ok <==> !Junction::spec_fails(pairs_view(pairs@)),
            r is Ok ==> Junction::spec_matches(r->Ok_0, pairs_view(pairs@)),
            r is Ok ==> final(counter).count == sat_add(
                old(counter).count,
                Junction::spec_unknown(pairs_view(pairs@)),
            ),
            final(counter).count >= old(counter).count,
    {
        let ghost p = pairs_view(pairs@);
        proof {
            crate::common::lemma_pairs_view(pairs@);
            assert(p.take(0) =~= Seq::<(Seq<u8>, Seq<u8>)>::empty());
        }
    let a_owner_index: [u8; 10] = [0x4fu8, 0x77u8, 0x6eu8, 0x65u8, 0x72u8, 0x49u8, 0x6eu8, 0x64u8, 0x65u8, 0x78u8];
    let a_owner_part_id: [u8; 11] = [0x4fu8, 0x77u8, 0x6eu8, 0x65u8, 0x72u8, 0x50u8, 0x61u8, 0x72u8, 0x74u8, 0x49u8, 0x64u8];
    proof {
        assert(a_owner_index@ =~= crate::keys::k_owner_index());
        assert(a_owner_part_id@ =~= crate::keys::k_owner_part_id());
        assert(crate::keys::k_owner_index() != crate::keys::k_owner_part_id()) by { assert(crate::keys::k_owner_index().len() != crate::keys::k_owner_part_id().len()); }
    }
        let mut x = Junction {
        owner_index: 0,
        owner_part_id: 0,
        };

        let n = pairs.len();
        let mut i: usize = 0;
        while i < n
            invariant
                0 <= i <= n,
                n == pairs@.len(),
                !Junction::spec_fails(p.take(i as int)),
                Junction::spec_matches(x, p.take(i as int)),

                counter.count == sat_add(old(counter).count, Junction::spec_unknown(p.take(i as int))),
                0 <= Junction::spec_unknown(p.take(i as int)) <= i,
            decreases n - i,
        {
            let key: &[u8] = pairs[i].0.as_slice();
            let val: &[u8] = pairs[i].1.as_slice();
            proof {
                assert(p[i as int] == (pairs@[i as int].0@, pairs@[i as int].1@));
                assert(p.take(i as int + 1).drop_last() =~= p.take(i as int));
                assert(p.take(i as int + 1).last() == p[i as int]);
                assert forall|j: int| 0 <= j <= i implies #[trigger] p.take(i as int + 1).take(j)
                    == p.take(j) by {
                    assert(p.take(i as int + 1).take(j) =~= p.take(j));
                }
                assert forall|j: int| 0 <= j <= i implies #[trigger] p.take(i as int).take(j)
                    == p.take(j) by {
                    assert(p.take(i as int).take(j) =~= p.take(j));
                }
            }
        if crate::common::bytes_eq(key, a_owner_index.as_slice()) {
                    match crate::parse::parse_u8(val) {
                        Ok(v) => { x.owner_index = v; },
                        Err(e) => {
                            proof {
                                assert(p[i as int].0 == crate::keys::k_owner_index());
                                assert(kind_field_fails(p, FieldKind::U8, crate::keys::k_owner_index()));
                            }
                            return Err(e);
                        },
                    }
                }
        else if crate::common::bytes_eq(key, a_owner_part_id.as_slice()) {
                    match crate::parse::parse_i8(val) {
                        Ok(v) => { x.owner_part_id = v; },
                        Err(e) => {
                            proof {
                                assert(p[i as int].0 == crate::keys::k_owner_part_id());
                                assert(kind_field_fails(p, FieldKind::I8, crate::keys::k_owner_part_id()));
                            }
                            return Err(e);
                        },
                    }
                }
        else {
            crate::logging::macro_unsupported_key(counter, "Junction", key, val);
        }
            i += 1;
        }
        proof {
            assert(p.take(n as int) =~= p);
        }
        Ok(x)
    }
}

impl Image {
    /// The wire record ID of this kind.
    pub open spec fn spec_record_id() -> u32 {
        30
    }

    /// Whether the binder recognizes this wire key.
    pub open spec fn spec_known_key(k: Seq<u8>) -> bool {
        ||| k == crate::keys::k_owner_index()
        ||| k == crate::keys::k_owner_part_id()
        ||| k == crate::keys::k_is_not_accesible()
        ||| k == crate::keys::k_index_in_sheet()
        ||| k == crate::keys::k_location_x()
        ||| k == crate::keys::k_location_y()
        ||| k == crate::keys::k_corner_x()
        ||| k == crate::keys::k_corner_y()
        ||| k == crate::keys::k_keep_aspect()
        ||| k == crate::keys::k_embed_image()
        ||| k == crate::keys::k_file_name()
        ||| k == utf8_twin(crate::keys::k_file_name())
        ||| k == crate::keys::k_unique_id()
        ||| k == crate::keys::k_corner_x_frac()
        ||| k == crate::keys::k_corner_y_frac()
    }

    /// How many pairs hold keys the binder does not recognize.
    pub open spec fn spec_unknown(p: SpecPairs) -> int
        decreases p.len(),
    {
        if p.len() == 0 {
            0
        } else {
            Self::spec_unknown(p.drop_last()) + if Self::spec_known_key(p.last().0) {
                0int
            } else {
                1int
            }
        }
    }

    /// Whether some pair's value is one its field's parser rejects.
    pub open spec fn spec_fails(p: SpecPairs) -> bool {
        ||| kind_field_fails(p, FieldKind::U8, crate::keys::k_owner_index())
        ||| kind_field_fails(p, FieldKind::I8, crate::keys::k_owner_part_id())
        ||| kind_field_fails(p, FieldKind::Bool, crate::keys::k_is_not_accesible())
        ||| kind_field_fails(p, FieldKind::I16, crate::keys::k_index_in_sheet())
        ||| kind_field_fails(p, FieldKind::I32, crate::keys::k_location_x())
        ||| kind_field_fails(p, FieldKind::I32, crate::keys::k_location_y())
        ||| kind_field_fails(p, FieldKind::I32, crate::keys::k_corner_x())
        ||| kind_field_fails(p, FieldKind::I32, crate::keys::k_corner_y())
        ||| kind_field_fails(p, FieldKind::Bool, crate::keys::k_keep_aspect())
        ||| kind_field_fails(p, FieldKind::Bool, crate::keys::k_embed_image())
        ||| str_field_fails(p, crate::keys::k_file_name())
        ||| kind_field_fails(p, FieldKind::Uid, crate::keys::k_unique_id())
        ||| kind_field_fails(p, FieldKind::I32, crate::keys::k_corner_x_frac())
        ||| kind_field_fails(p, FieldKind::I32, crate::keys::k_corner_y_frac())
    }

    /// Each field as the walk of the pairs leaves it.
    pub open spec fn spec_matches(x: Image, p: SpecPairs) -> bool {
        &&& x.owner_index == u8_field(p, crate::keys::k_owner_index())
        &&& x.owner_part_id == i8_field(p, crate::keys::k_owner_part_id())
        &&& x.is_not_accessible == bool_field(p, crate::keys::k_is_not_accesible())
        &&& x.index_in_sheet == i16_field(p, crate::keys::k_index_in_sheet())
        &&& x.location == loc_field(p, crate::keys::k_location_x(), crate::keys::k_location_y())
        &&& x.corner == loc_field(p, crate::keys::k_corner_x(), crate::keys::k_corner_y())
        &&& x.keep_aspect == bool_field(p, crate::keys::k_keep_aspect())
        &&& x.embed_image == bool_field(p, crate::keys::k_embed_image())
        &&& x.file_name@ == str_field(p, crate::keys::k_file_name())
        &&& x.unique_id == uid_field(p, crate::keys::k_unique_id())
        &&& x.corner_x_frac == i32_field(p, crate::keys::k_corner_x_frac())
        &&& x.corner_y_frac == i32_field(p, crate::keys::k_corner_y_frac())
    }

    /// Bind the fields of one `Image` record from its key-value pairs.
    #[verifier::loop_isolation(false)]
    #[verifier::rlimit(100)]
    pub fn from_record(pairs: &[(Vec<u8>, Vec<u8>)], counter: &mut UnsupportedCounter) -> (r:
        Result<Image, ErrorKind>)
        ensures
            r is Ok <==> !Image::spec_fails(pairs_view(pairs@)),
            r is Ok ==> Image::spec_matches(r->Ok_0, pairs_view(pairs@)),
            r is Ok ==> final(counter).count == sat_add(
                old(counter).count,
                Image::spec_unknown(pairs_view(pairs@)),
            ),
            final(counter).count >= old(counter).count,
    {
        let ghost p = pairs_view(pairs@);
        proof {
            crate::common::lemma_pairs_view(pairs@);
            assert(p.take(0) =~= Seq::<(Seq<u8>, Seq<u8>)>::empty());
        }
    let a_owner_index: [u8; 10] = [0x4fu8, 0x77u8, 0x6eu8, 0x65u8, 0x72u8, 0x49u8, 0x6eu8, 0x64u8, 0x65u8, 0x78u8];
    let a_owner_part_id: [u8; 11] = [0x4fu8, 0x77u8, 0x6eu8, 0x65u8, 0x72u8, 0x50u8, 0x61u8, 0x72u8, 0x74u8, 0x49u8, 0x64u8];
    let a_is_not_accesible: [u8; 14] = [0x49u8, 0x73u8, 0x4eu8, 0x6fu8, 0x74u8, 0x41u8, 0x63u8, 0x63u8, 0x65u8, 0x73u8, 0x69u8, 0x62u8, 0x6cu8, 0x65u8];
    let a_index_in_sheet: [u8; 12] = [0x49u8, 0x6eu8, 0x64u8, 0x65u8, 0x78u8, 0x49u8, 0x6eu8, 0x53u8, 0x68u8, 0x65u8, 0x65u8, 0x74u8];
    let a_location_x: [u8; 10] = [0x4cu8, 0x6fu8, 0x63u8, 0x61u8, 0x74u8, 0x69u8, 0x6fu8, 0x6eu8, 0x2eu8, 0x58u8];
    let a_location_y: [u8; 10] = [0x4cu8, 0x6fu8, 0x63u8, 0x61u8, 0x74u8, 0x69u8, 0x6fu8, 0x6eu8, 0x2eu8, 0x59u8];
    let a_corner_x: [u8; 8] = [0x43u8, 0x6fu8, 0x72u8, 0x6eu8, 0x65u8, 0x72u8, 0x2eu8, 0x58u8];
    let a_corner_y: [u8; 8] = [0x43u8, 0x6fu8, 0x72u8, 0x6eu8, 0x65u8, 0x72u8, 0x2eu8, 0x59u8];
    let a_keep_aspect: [u8; 10] = [0x4bu8, 0x65u8, 0x65u8, 0x70u8, 0x41u8, 0x73u8, 0x70u8, 0x65u8, 0x63u8, 0x74u8];
    let a_embed_image: [u8; 10] = [0x45u8, 0x6du8, 0x62u8, 0x65u8, 0x64u8, 0x49u8, 0x6du8, 0x61u8, 0x67u8, 0x65u8];
    let a_file_name: [u8; 8] = [0x46u8, 0x69u8, 0x6cu8, 0x65u8, 0x4eu8, 0x61u8, 0x6du8, 0x65u8];
    let a_unique_id: [u8; 8] = [0x55u8, 0x6eu8, 0x69u8, 0x71u8, 0x75u8, 0x65u8, 0x49u8, 0x44u8];
    let a_corner_x_frac: [u8; 13] = [0x43u8, 0x6fu8, 0x72u8, 0x6eu8, 0x65u8, 0x72u8, 0x2eu8, 0x58u8, 0x5fu8, 0x46u8, 0x72u8, 0x61u8, 0x63u8];
    let a_corner_y_frac: [u8; 13] = [0x43u8, 0x6fu8, 0x72u8, 0x6eu8, 0x65u8, 0x72u8, 0x2eu8, 0x59u8, 0x5fu8, 0x46u8, 0x72u8, 0x61u8, 0x63u8];
    let t_file_name: [u8; 14] = [0x25u8, 0x55u8, 0x54u8, 0x46u8, 0x38u8, 0x25u8, 0x46u8, 0x69u8, 0x6cu8, 0x65u8, 0x4eu8, 0x61u8, 0x6du8, 0x65u8];
    proof {
        assert(a_owner_index@ =~= crate::keys::k_owner_index());
        assert(a_owner_part_id@ =~= crate::keys::k_owner_part_id());
        assert(a_is_not_accesible@ =~= crate::keys::k_is_not_accesible());
        assert(a_index_in_sheet@ =~= crate::keys::k_index_in_sheet());
        assert(a_location_x@ =~= crate::keys::k_location_x());
        assert(a_location_y@ =~= crate::keys::k_location_y());
        assert(a_corner_x@ =~= crate::keys::k_corner_x());
        assert(a_corner_y@ =~= crate::keys::k_corner_y());
        assert(a_keep_aspect@ =~= crate::keys::k_keep_aspect());
        assert(a_embed_image@ =~= crate::keys::k_embed_image());
        assert(a_file_name@ =~= crate::keys::k_file_name());
        assert(a_unique_id@ =~= crate::keys::k_unique_id());
        assert(a_corner_x_frac@ =~= crate::keys::k_corner_x_frac());
        assert(a_corner_y_frac@ =~= crate::keys::k_corner_y_frac());
        assert(t_file_name@ =~= utf8_twin(crate::keys::k_file_name()));
        assert(crate::keys::k_owner_index() != crate::keys::k_owner_part_id()) by { assert(crate::keys::k_owner_index().len() != crate::keys::k_owner_part_id().len()); }
        assert(crate::keys::k_owner_index() != crate::keys::k_is_not_accesible()) by { assert(crate::keys::k_owner_index().len() != crate::keys::k_is_not_accesible().len()); }
        assert(crate::keys::k_owner_index() != crate::keys::k_index_in_sheet()) by { assert(crate::keys::k_owner_index().len() != crate::keys::k_index_in_sheet().len()); }
        assert(crate::keys::k_owner_index() != crate::keys::k_location_x()) by { assert(crate::keys::k_owner_index()[0] != crate::keys::k_location_x()[0]); }
        assert(crate::keys::k_owner_index() != crate::keys::k_location_y()) by { assert(crate::keys::k_owner_index()[0] != crate::keys::k_location_y()[0]); }
        assert(crate::keys::k_owner_index() != crate::keys::k_corner_x()) by { assert(crate::keys::k_owner_index().len() != crate::keys::k_corner_x().len()); }
        assert(crate::keys::k_owner_index() != crate::keys::k_corner_y()) by { assert(crate::keys::k_owner_index().len() != crate::keys::k_corner_y().len()); }
        assert(crate::keys::k_owner_index() != crate::keys::k_keep_aspect()) by { assert(crate::keys::k_owner_index()[0] != crate::keys::k_keep_aspect()[0]); }
        assert(crate::keys::k_owner_index() != crate::keys::k_embed_image()) by { assert(crate::keys::k_owner_index()[0] != crate::keys::k_embed_image()[0]); }
        assert(crate::keys::k_owner_index() != crate::keys::k_file_name()) by { assert(crate::keys::k_owner_index().len() != crate::keys::k_file_name().len()); }
        assert(crate::keys::k_owner_index() != crate::keys::k_unique_id()) by { assert(crate::keys::k_owner_index().len() != crate::keys::k_unique_id().len()); }
        assert(crate::keys::k_owner_index() != crate::keys::k_corner_x_frac()) by { assert(crate::keys::k_owner_index().len() != crate::keys::k_corner_x_frac().len()); }
        assert(crate::keys::k_owner_index() != crate::keys::k_corner_y_frac()) by { assert(crate::keys::k_owner_index().len() != crate::keys::k_corner_y_frac().len()); }
        assert(crate::keys::k_owner_index() != utf8_twin(crate::keys::k_file_name())) by { assert(crate::keys::k_owner_index().len() != utf8_twin(crate::keys::k_file_name()).len()); }
        assert(crate::keys::k_owner_part_id() != crate::keys::k_is_not_accesible()) by { assert(crate::keys::k_owner_part_id().len() != crate::keys::k_is_not_accesible().len()); }
        assert(crate::keys::k_owner_part_id() != crate::keys::k_index_in_sheet()) by { assert(crate::keys::k_owner_part_id().len() != crate::keys::k_index_in_sheet().len()); }
        assert(crate::keys::k_owner_part_id() != crate::keys::k_location_x()) by { assert(crate::keys::k_owner_part_id().len() != crate::keys::k_location_x().len()); }
        assert(crate::keys::k_owner_part_id() != crate::keys::k_location_y()) by { assert(crate::keys::k_owner_part_id().len() != crate::keys::k_location_y().len()); }
        assert(crate::keys::k_owner_part_id() != crate::keys::k_corner_x()) by { assert(crate::keys::k_owner_part_id().len() != crate::keys::k_corner_x().len()); }
        assert(crate::keys::k_owner_part_id() != crate::keys::k_corner_y()) by { assert(crate::keys::k_owner_part_id().len() != crate::keys::k_corner_y().len()); }
        assert(crate::keys::k_owner_part_id() != crate::keys::k_keep_aspect()) by { assert(crate::keys::k_owner_part_id().len() != crate::keys::k_keep_aspect().len()); }
        assert(crate::keys::k_owner_part_id() != crate::keys::k_embed_image()) by { assert(crate::keys::k_owner_part_id().len() != crate::keys::k_embed_image().len()); }
        assert(crate::keys::k_owner_part_id() != crate::keys::k_file_name()) by { assert(crate::keys::k_owner_part_id().len() != crate::keys::k_file_name().len()); }
        assert(crate::keys::k_owner_part_id() != crate::keys::k_unique_id()) by { assert(crate::keys::k_owner_part_id().len() != crate::keys::k_unique_id().len()); }
        assert(crate::keys::k_owner_part_id() != crate::keys::k_corner_x_frac()) by { assert(crate::keys::k_owner_part_id().len() != crate::keys::k_corner_x_frac().len()); }
        assert(crate::keys::k_owner_part_id() != crate::keys::k_corner_y_frac()) by { assert(crate::keys::k_owner_part_id().len() != crate::keys::k_corner_y_frac().len()); }
        assert(crate::keys::k_owner_part_id() != utf8_twin(crate::keys::k_file_name())) by { assert(crate::keys::k_owner_part_id().len() != utf8_twin(crate::keys::k_file_name()).len()); }
        assert(crate::keys::k_is_not_accesible() != crate::keys::k_index_in_sheet()) by { assert(crate::keys::k_is_not_accesible().len() != crate::keys::k_index_in_sheet().len()); }
        assert(crate::keys::k_is_not_accesible() != crate::keys::k_location_x()) by { assert(crate::keys::k_is_not_accesible().len() != crate::keys::k_location_x().len()); }
        assert(crate::keys::k_is_not_accesible() != crate::keys::k_location_y()) by { assert(crate::keys::k_is_not_accesible().len() != crate::keys::k_location_y().len()); }
        assert(crate::keys::k_is_not_accesible() != crate::keys::k_corner_x()) by { assert(crate::keys::k_is_not_accesible().len() != crate::keys::k_corner_x().len()); }
        assert(crate::keys::k_is_not_accesible() != crate::keys::k_corner_y()) by { assert(crate::keys::k_is_not_accesible().len() != crate::keys::k_corner_y().len()); }
        assert(crate::keys::k_is_not_accesible() != crate::keys::k_keep_aspect()) by { assert(crate::keys::k_is_not_accesible().len() != crate::keys::k_keep_aspect().len()); }
        assert(crate::keys::k_is_not_accesible() != crate::keys::k_embed_image()) by { assert(crate::keys::k_is_not_accesible().len() != crate::keys::k_embed_image().len()); }
        assert(crate::keys::k_is_not_accesible() != crate::keys::k_file_name()) by { assert(crate::keys::k_is_not_accesible().len() != crate::keys::k_file_name().len()); }
        assert(crate::keys::k_is_not_accesible() != crate::keys::k_unique_id()) by { assert(crate::keys::k_is_not_accesible().len() != crate::keys::k_unique_id().len()); }
        assert(crate::keys::k_is_not_accesible() != crate::keys::k_corner_x_frac()) by { assert(crate::keys::k_is_not_accesible().len() != crate::keys::k_corner_x_frac().len()); }
        assert(crate::keys::k_is_not_accesible() != crate::keys::k_corner_y_frac()) by { assert(crate::keys::k_is_not_accesible().len() != crate::keys::k_corner_y_frac().len()); }
        assert(crate::keys::k_is_not_accesible() != utf8_twin(crate::keys::k_file_name())) by { assert(crate::keys::k_is_not_accesible()[0] != utf8_twin(crate::keys::k_file_name())[0]); }
        assert(crate::keys::k_index_in_sheet() != crate::keys::k_location_x()) by { assert(crate::keys::k_index_in_sheet().len() != crate::keys::k_location_x().len()); }
        assert(crate::keys::k_index_in_sheet() != crate::keys::k_location_y()) by { assert(crate::keys::k_index_in_sheet().len() != crate::keys::k_location_y().len()); }
        assert(crate::keys::k_index_in_sheet() != crate::keys::k_corner_x()) by { assert(crate::keys::k_index_in_sheet().len() != crate::keys::k_corner_x().len()); }
        assert(crate::keys::k_index_in_sheet() != crate::keys::k_corner_y()) by { assert(crate::keys::k_index_in_sheet().len() != crate::keys::k_corner_y().len()); }
        assert(crate::keys::k_index_in_sheet() != crate::keys::k_keep_aspect()) by { assert(crate::keys::k_index_in_sheet().len() != crate::keys::k_keep_aspect().len()); }
        assert(crate::keys::k_index_in_sheet() != crate::keys::k_embed_image()) by { assert(crate::keys::k_index_in_sheet().len() != crate::keys::k_embed_image().len()); }
        assert(crate::keys::k_index_in_sheet() != crate::keys::k_file_name()) by { assert(crate::keys::k_index_in_sheet().len() != crate::keys::k_file_name().len()); }
        assert(crate::keys::k_index_in_sheet() != crate::keys::k_unique_id()) by { assert(crate::keys::k_index_in_sheet().len() != crate::keys::k_unique_id().len()); }
        assert(crate::keys::k_index_in_sheet() != crate::keys::k_corner_x_frac()) by { assert(crate::keys::k_index_in_sheet().len() != crate::keys::k_corner_x_frac().len()); }
        assert(crate::keys::k_index_in_sheet() != crate::keys::k_corner_y_frac()) by { assert(crate::keys::k_index_in_sheet().len() != crate::keys::k_corner_y_frac().len()); }
        assert(crate::keys::k_index_in_sheet() != utf8_twin(crate::keys::k_file_name())) by { assert(crate::keys::k_index_in_sheet().len() != utf8_twin(crate::keys::k_file_name()).len()); }
        assert(crate::keys::k_location_x() != crate::keys::k_location_y()) by { assert(crate::keys::k_location_x()[9] != crate::keys::k_location_y()[9]); }
        assert(crate::keys::k_location_x() != crate::keys::k_corner_x()) by { assert(crate::keys::k_location_x().len() != crate::keys::k_corner_x().len()); }
        assert(crate::keys::k_location_x() != crate::keys::k_corner_y()) by { assert(crate::keys::k_location_x().len() != crate::keys::k_corner_y().len()); }
        assert(crate::keys::k_location_x() != crate::keys::k_keep_aspect()) by { assert(crate::keys::k_location_x()[0] != crate::keys::k_keep_aspect()[0]); }
        assert(crate::keys::k_location_x() != crate::keys::k_embed_image()) by { assert(crate::keys::k_location_x()[0] != crate::keys::k_embed_image()[0]); }
        assert(crate::keys::k_location_x() != crate::keys::k_file_name()) by { assert(crate::keys::k_location_x().len() != crate::keys::k_file_name().len()); }
        assert(crate::keys::k_location_x() != crate::keys::k_unique_id()) by { assert(crate::keys::k_location_x().len() != crate::keys::k_unique_id().len()); }
        assert(crate::keys::k_location_x() != crate::keys::k_corner_x_frac()) by { assert(crate::keys::k_location_x().len() != crate::keys::k_corner_x_frac().len()); }
        assert(crate::keys::k_location_x() != crate::keys::k_corner_y_frac()) by { assert(crate::keys::k_location_x().len() != crate::keys::k_corner_y_frac().len()); }
        assert(crate::keys::k_location_x() != utf8_twin(crate::keys::k_file_name())) by { assert(crate::keys::k_location_x().len() != utf8_twin(crate::keys::k_file_name()).len()); }
        assert(crate::keys::k_location_y() != crate::keys::k_corner_x()) by { assert(crate::keys::k_location_y().len() != crate::keys::k_corner_x().len()); }
        assert(crate::keys::k_location_y() != crate::keys::k_corner_y()) by { assert(crate::keys::k_location_y().len() != crate::keys::k_corner_y().len()); }
        assert(crate::keys::k_location_y() != crate::keys::k_keep_aspect()) by { assert(crate::keys::k_location_y()[0] != crate::keys::k_keep_aspect()[0]); }
        assert(crate::keys::k_location_y() != crate::keys::k_embed_image()) by { assert(crate::keys::k_location_y()[0] != crate::keys::k_embed_image()[0]); }
        assert(crate::keys::k_location_y() != crate::keys::k_file_name()) by { assert(crate::keys::k_location_y().len() != crate::keys::k_file_name().len()); }
        assert(crate::keys::k_location_y() != crate::keys::k_unique_id()) by { assert(crate::keys::k_location_y().len() != crate::keys::k_unique_id().len()); }
        assert(crate::keys::k_location_y() != crate::keys::k_corner_x_frac()) by { assert(crate::keys::k_location_y().len() != crate::keys::k_corner_x_frac().len()); }
        assert(crate::keys::k_location_y() != crate::keys::k_corner_y_frac()) by { assert(crate::keys::k_location_y().len() != crate::keys::k_corner_y_frac().len()); }
        assert(crate::keys::k_location_y() != utf8_twin(crate::keys::k_file_name())) by { assert(crate::keys::k_location_y().len() != utf8_twin(crate::keys::k_file_name()).len()); }
        assert(crate::keys::k_corner_x() != crate::keys::k_corner_y()) by { assert(crate::keys::k_corner_x()[7] != crate::keys::k_corner_y()[7]); }
        assert(crate::keys::k_corner_x() != crate::keys::k_keep_aspect()) by { assert(crate::keys::k_corner_x().len() != crate::keys::k_keep_aspect().len()); }
        assert(crate::keys::k_corner_x() != crate::keys::k_embed_image()) by { assert(crate::keys::k_corner_x().len() != crate::keys::k_embed_image().len()); }
        assert(crate::keys::k_corner_x() != crate::keys::k_file_name()) by { assert(crate::keys::k_corner_x()[0] != crate::keys::k_file_name()[0]); }
        assert(crate::keys::k_corner_x() != crate::keys::k_unique_id()) by { assert(crate::keys::k_corner_x()[0] != crate::keys::k_unique_id()[0]); }
        assert(crate::keys::k_corner_x() != crate::keys::k_corner_x_frac()) by { assert(crate::keys::k_corner_x().len() != crate::keys::k_corner_x_frac().len()); }
        assert(crate::keys::k_corner_x() != crate::keys::k_corner_y_frac()) by { assert(crate::keys::k_corner_x().len() != crate::keys::k_corner_y_frac().len()); }
        assert(crate::keys::k_corner_x() != utf8_twin(crate::keys::k_file_name())) by { assert(crate::keys::k_corner_x().len() != utf8_twin(crate::keys::k_file_name()).len()); }
        assert(crate::keys::k_corner_y() != crate::keys::k_keep_aspect()) by { assert(crate::keys::k_corner_y().len() != crate::keys::k_keep_aspect().len()); }
        assert(crate::keys::k_corner_y() != crate::keys::k_embed_image()) by { assert(crate::keys::k_corner_y().len() != crate::keys::k_embed_image().len()); }
        assert(crate::keys::k_corner_y() != crate::keys::k_file_name()) by { assert(crate::keys::k_corner_y()[0] != crate::keys::k_file_name()[0]); }
        assert(crate::keys::k_corner_y() != crate::keys::k_unique_id()) by { assert(crate::keys::k_corner_y()[0] != crate::keys::k_unique_id()[0]); }
        assert(crate::keys::k_corner_y() != crate::keys::k_corner_x_frac()) by { assert(crate::keys::k_corner_y().len() != crate::keys::k_corner_x_frac().len()); }
        assert(crate::keys::k_corner_y() != crate::keys::k_corner_y_frac()) by { assert(crate::keys::k_corner_y().len() != crate::keys::k_corner_y_frac().len()); }
        assert(crate::keys::k_corner_y() != utf8_twin(crate::keys::k_file_name())) by { assert(crate::keys::k_corner_y().len() != utf8_twin(crate::keys::k_file_name()).len()); }
        assert(crate::keys::k_keep_aspect() != crate::keys::k_embed_image()) by { assert(crate::keys::k_keep_aspect()[0] != crate::keys::k_embed_image()[0]); }
        assert(crate::keys::k_keep_aspect() != crate::keys::k_file_name()) by { assert(crate::keys::k_keep_aspect().len() != crate::keys::k_file_name().len()); }
        assert(crate::keys::k_keep_aspect() != crate::keys::k_unique_id()) by { assert(crate::keys::k_keep_aspect().len() != crate::keys::k_unique_id().len()); }
        assert(crate::keys::k_keep_aspect() != crate::keys::k_corner_x_frac()) by { assert(crate::keys::k_keep_aspect().len() != crate::keys::k_corner_x_frac().len()); }
        assert(crate::keys::k_keep_aspect() != crate::keys::k_corner_y_frac()) by { assert(crate::keys::k_keep_aspect().len() != crate::keys::k_corner_y_frac().len()); }
        assert(crate::keys::k_keep_aspect() != utf8_twin(crate::keys::k_file_name())) by { assert(crate::keys::k_keep_aspect().len() != utf8_twin(crate::keys::k_file_name()).len()); }
        assert(crate::keys::k_embed_image() != crate::keys::k_file_name()) by { assert(crate::keys::k_embed_image().len() != crate::keys::k_file_name().len()); }
        assert(crate::keys::k_embed_image() != crate::keys::k_unique_id()) by { assert(crate::keys::k_embed_image().len() != crate::keys::k_unique_id().len()); }
        assert(crate::keys::k_embed_image() != crate::keys::k_corner_x_frac()) by { assert(crate::keys::k_embed_image().len() != crate::keys::k_corner_x_frac().len()); }
        assert(crate::keys::k_embed_image() != crate::keys::k_corner_y_frac()) by { assert(crate::keys::k_embed_image().len() != crate::keys::k_corner_y_frac().len()); }
        assert(crate::keys::k_embed_image() != utf8_twin(crate::keys::k_file_name())) by { assert(crate::keys::k_embed_image().len() != utf8_twin(crate::keys::k_file_name()).len()); }
        assert(crate::keys::k_file_name() != crate::keys::k_unique_id()) by { assert(crate::keys::k_file_name()[0] != crate::keys::k_unique_id()[0]); }
        assert(crate::keys::k_file_name() != crate::keys::k_corner_x_frac()) by { assert(crate::keys::k_file_name().len() != crate::keys::k_corner_x_frac().len()); }
        assert(crate::keys::k_file_name() != crate::keys::k_corner_y_frac()) by { assert(crate::keys::k_file_name().len() != crate::keys::k_corner_y_frac().len()); }
        assert(crate::keys::k_file_name() != utf8_twin(crate::keys::k_file_name())) by { assert(crate::keys::k_file_name().len() != utf8_twin(crate::keys::k_file_name()).len()); }
        assert(crate::keys::k_unique_id() != crate::keys::k_corner_x_frac()) by { assert(crate::keys::k_unique_id().len() != crate::keys::k_corner_x_frac().len()); }
        assert(crate::keys::k_unique_id() != crate::keys::k_corner_y_frac()) by { assert(crate::keys::k_unique_id().len() != crate::keys::k_corner_y_frac().len()); }
        assert(crate::keys::k_unique_id() != utf8_twin(crate::keys::k_file_name())) by { assert(crate::keys::k_unique_id().len() != utf8_twin(crate::keys::k_file_name()).len()); }
        assert(crate::keys::k_corner_x_frac() != crate::keys::k_corner_y_frac()) by { assert(crate::keys::k_corner_x_frac()[7] != crate::keys::k_corner_y_frac()[7]); }
        assert(crate::keys::k_corner_x_frac() != utf8_twin(crate::keys::k_file_name())) by { assert(crate::keys::k_corner_x_frac().len() != utf8_twin(crate::keys::k_file_name()).len()); }
        assert(crate::keys::k_corner_y_frac() != utf8_twin(crate::keys::k_file_name())) by { assert(crate::keys::k_corner_y_frac().len() != utf8_twin(crate::keys::k_file_name()).len()); }
    }
        let mut x = Image {
        owner_index: 0,
        owner_part_id: 0,
        is_not_accessible: false,
        index_in_sheet: 0,
        location: Location { x: 0, y: 0 },
        corner: Location { x: 0, y: 0 },
        keep_aspect: false,
        embed_image: false,
        file_name: String::new(),
        unique_id: UniqueId::Simple([0x30u8, 0x30u8, 0x30u8, 0x30u8, 0x30u8, 0x30u8, 0x30u8, 0x30u8]),
        corner_x_frac: 0,
        corner_y_frac: 0,
        };
    let mut seen_file_name: bool = false;
        let n = pairs.len();
        let mut i: usize = 0;
        while i < n
            invariant
                0 <= i <= n,
                n == pairs@.len(),
                !Image::spec_fails(p.take(i as int)),
                Image::spec_matches(x, p.take(i as int)),
            seen_file_name == has_key(p.take(i as int), utf8_twin(crate::keys::k_file_name())),
                counter.count == sat_add(old(counter).count, Image::spec_unknown(p.take(i as int))),
                0 <= Image::spec_unknown(p.take(i as int)) <= i,
            decreases n - i,
        {
            let key: &[u8] = pairs[i].0.as_slice();
            let val: &[u8] = pairs[i].1.as_slice();
            proof {
                assert(p[i as int] == (pairs@[i as int].0@, pairs@[i as int].1@));
                assert(p.take(i as int + 1).drop_last() =~= p.take(i as int));
                assert(p.take(i as int + 1).last() == p[i as int]);
                assert forall|j: int| 0 <= j <= i implies #[trigger] p.take(i as int + 1).take(j)
                    == p.take(j) by {
                    assert(p.take(i as int + 1).take(j) =~= p.take(j));
                }
                assert forall|j: int| 0 <= j <= i implies #[trigger] p.take(i as int).take(j)
                    == p.take(j) by {
                    assert(p.take(i as int).take(j) =~= p.take(j));
                }
            }
        if crate::common::bytes_eq(key, a_owner_index.as_slice()) {
                    match crate::parse::parse_u8(val) {
                        Ok(v) => { x.owner_index = v; },
                        Err(e) => {
                            proof {
                                assert(p[i as int].0 == crate::keys::k_owner_index());
                                assert(kind_field_fails(p, FieldKind::U8, crate::keys::k_owner_index()));
                            }
                            return Err(e);
                        },
                    }
                }
        else if crate::common::bytes_eq(key, a_owner_part_id.as_slice()) {
                    match crate::parse::parse_i8(val) {
                        Ok(v) => { x.owner_part_id = v; },
                        Err(e) => {
                            proof {
                                assert(p[i as int].0 == crate::keys::k_owner_part_id());
                                assert(kind_field_fails(p, FieldKind::I8, crate::keys::k_owner_part_id()));
                            }
                            return Err(e);
                        },
                    }
                }
        else if crate::common::bytes_eq(key, a_is_not_accesible.as_slice()) {
                    match crate::parse::parse_bool(val) {
                        Ok(v) => { x.is_not_accessible = v; },
                        Err(e) => {
                            proof {
                                assert(p[i as int].0 == crate::keys::k_is_not_accesible());
                                assert(kind_field_fails(p, FieldKind::Bool, crate::keys::k_is_not_accesible()));
                            }
                            return Err(e);
                        },
                    }
                }
        else if crate::common::bytes_eq(key, a_index_in_sheet.as_slice()) {
                    match crate::parse::parse_i16(val) {
                        Ok(v) => { x.index_in_sheet = v; },
                        Err(e) => {
                            proof {
                                assert(p[i as int].0 == crate::keys::k_index_in_sheet());
                                assert(kind_field_fails(p, FieldKind::I16, crate::keys::k_index_in_sheet()));
                            }
                            return Err(e);
                        },
                    }
                }
        else if crate::common::bytes_eq(key, a_location_x.as_slice()) {
                    match crate::parse::parse_i32(val) {
                        Ok(v) => { x.location.x = v; },
                        Err(e) => {
                            proof {
                                assert(p[i as int].0 == crate::keys::k_location_x());
                                assert(kind_field_fails(p, FieldKind::I32, crate::keys::k_location_x()));
                            }
                            return Err(e);
                        },
                    }
                }
        else if crate::common::bytes_eq(key, a_location_y.as_slice()) {
                    match crate::parse::parse_i32(val) {
                        Ok(v) => { x.location.y = v; },
                        Err(e) => {
                            proof {
                                assert(p[i as int].0 == crate::keys::k_location_y());
                                assert(kind_field_fails(p, FieldKind::I32, crate::keys::k_location_y()));
                            }
                            return Err(e);
                        },
                    }
                }
        else if crate::common::bytes_eq(key, a_corner_x.as_slice()) {
                    match crate::parse::parse_i32(val) {
                        Ok(v) => { x.corner.x = v; },
                        Err(e) => {
                            proof {
                                assert(p[i as int].0 == crate::keys::k_corner_x());
                                assert(kind_field_fails(p, FieldKind::I32, crate::keys::k_corner_x()));
                            }
                            return Err(e);
                        },
                    }
                }
        else if crate::common::bytes_eq(key, a_corner_y.as_slice()) {
                    match crate::parse::parse_i32(val) {
                        Ok(v) => { x.corner.y = v; },
                        Err(e) => {
                            proof {
                                assert(p[i as int].0 == crate::keys::k_corner_y());
                                assert(kind_field_fails(p, FieldKind::I32, crate::keys::k_corner_y()));
                            }
                            return Err(e);
                        },
                    }
                }
        else if crate::common::bytes_eq(key, a_keep_aspect.as_slice()) {
                    match crate::parse::parse_bool(val) {
                        Ok(v) => { x.keep_aspect = v; },
                        Err(e) => {
                            proof {
                                assert(p[i as int].0 == crate::keys::k_keep_aspect());
                                assert(kind_field_fails(p, FieldKind::Bool, crate::keys::k_keep_aspect()));
                            }
                            return Err(e);
                        },
                    }
                }
        else if crate::common::bytes_eq(key, a_embed_image.as_slice()) {
                    match crate::parse::parse_bool(val) {
                        Ok(v) => { x.embed_image = v; },
                        Err(e) => {
                            proof {
                                assert(p[i as int].0 == crate::keys::k_embed_image());
                                assert(kind_field_fails(p, FieldKind::Bool, crate::keys::k_embed_image()));
                            }
                            return Err(e);
                        },
                    }
                }
        else if crate::common::bytes_eq(key, t_file_name.as_slice()) {
                    match crate::common::str_from_utf8(val) {
                        Ok(s) => { x.file_name = s; seen_file_name = true; },
                        Err(e) => {
                            proof {
                                assert(p[i as int].0 == utf8_twin(crate::keys::k_file_name()));
                                assert(str_field_fails(p, crate::keys::k_file_name()));
                            }
                            return Err(e);
                        },
                    }
                } else if crate::common::bytes_eq(key, a_file_name.as_slice()) {
                    if !seen_file_name {
                        match crate::common::str_from_utf8(val) {
                            Ok(s) => { x.file_name = s; },
                            Err(e) => {
                                proof {
                                    assert(p[i as int].0 == crate::keys::k_file_name());
                                    assert(!has_key(p.take(i as int), utf8_twin(crate::keys::k_file_name())));
                                    assert(str_field_fails(p, crate::keys::k_file_name()));
                                }
                                return Err(e);
                            },
                        }
                    }
                }
        else if crate::common::bytes_eq(key, a_unique_id.as_slice()) {
                    match UniqueId::from_utf8(val) {
                        Ok(v) => { x.unique_id = v; },
                        Err(e) => {
                            proof {
                                assert(p[i as int].0 == crate::keys::k_unique_id());
                                assert(kind_field_fails(p, FieldKind::Uid, crate::keys::k_unique_id()));
                            }
                            return Err(e);
                        },
                    }
                }
        else if crate::common::bytes_eq(key, a_corner_x_frac.as_slice()) {
                    match crate::parse::parse_i32(val) {
                        Ok(v) => { x.corner_x_frac = v; },
                        Err(e) => {
                            proof {
                                assert(p[i as int].0 == crate::keys::k_corner_x_frac());
                                assert(kind_field_fails(p, FieldKind::I32, crate::keys::k_corner_x_frac()));
                            }
                            return Err(e);
                        },
                    }
                }
        else if crate::common::bytes_eq(key, a_corner_y_frac.as_slice()) {
                    match crate::parse::parse_i32(val) {
                        Ok(v) => { x.corner_y_frac = v; },
                        Err(e) => {
                            proof {
                                assert(p[i as int].0 == crate::keys::k_corner_y_frac());
                                assert(kind_field_fails(p, FieldKind::I32, crate::keys::k_corner_y_frac()));
                            }
                            return Err(e);
                        },
                    }
                }
        else {
            crate::logging::macro_unsupported_key(counter, "Image", key, val);
        }
            i += 1;
        }
        proof {
            assert(p.take(n as int) =~= p);
        }
        Ok(x)
    }
}

impl SheetName {
    /// The wire record ID of this kind.
    pub open spec fn spec_record_id() -> u32 {
        32
    }

    /// Whether the binder recognizes this wire key.
    pub open spec fn spec_known_key(k: Seq<u8>) -> bool {
        ||| k == crate::keys::k_owner_index()
        ||| k == crate::keys::k_owner_part_id()
        ||| k == crate::keys::k_index_in_sheet()
        ||| k == crate::keys::k_location_x()
        ||| k == crate::keys::k_location_y()
        ||| k == crate::keys::k_color()
        ||| k == crate::keys::k_font_id()
        ||| k == crate::keys::k_text()
        ||| k == utf8_twin(crate::keys::k_text())
        ||| k == crate::keys::k_unique_id()
    }

    /// How many pairs hold keys the binder does not recognize.
    pub open spec fn spec_unknown(p: SpecPairs) -> int
        decreases p.len(),
    {
        if p.len() == 0 {
            0
        } else {
            Self::spec_unknown(p.drop_last()) + if Self::spec_known_key(p.last().0) {
                0int
            } else {
                1int
            }
        }
    }

    /// Whether some pair's value is one its field's parser rejects.
    pub open spec fn spec_fails(p: SpecPairs) -> bool {
        ||| kind_field_fails(p, FieldKind::U8, crate::keys::k_owner_index())
        ||| kind_field_fails(p, FieldKind::I8, crate::keys::k_owner_part_id())
        ||| kind_field_fails(p, FieldKind::I16, crate::keys::k_index_in_sheet())
        ||| kind_field_fails(p, FieldKind::I32, crate::keys::k_location_x())
        ||| kind_field_fails(p, FieldKind::I32, crate::keys::k_location_y())
        ||| kind_field_fails(p, FieldKind::Color, crate::keys::k_color())
        ||| kind_field_fails(p, FieldKind::U16, crate::keys::k_font_id())
        ||| str_field_fails(p, crate::keys::k_text())
        ||| kind_field_fails(p, FieldKind::Uid, crate::keys::k_unique_id())
    }

    /// Each field as the walk of the pairs leaves it.
    pub open spec fn spec_matches(x: SheetName, p: SpecPairs) -> bool {
        &&& x.owner_index == u8_field(p, crate::keys::k_owner_index())
        &&& x.owner_part_id == i8_field(p, crate::keys::k_owner_part_id())
        &&& x.index_in_sheet == i16_field(p, crate::keys::k_index_in_sheet())
        &&& x.location == loc_field(p, crate::keys::k_location_x(), crate::keys::k_location_y())
        &&& x.color == color_field(p, crate::keys::k_color())
        &&& x.font_id == u16_field(p, crate::keys::k_font_id())
        &&& x.text@ == str_field(p, crate::keys::k_text())
        &&& x.unique_id == uid_field(p, crate::keys::k_unique_id())
    }

    /// Bind the fields of one `SheetName` record from its key-value pairs.
    #[verifier::loop_isolation(false)]
    #[verifier::rlimit(100)]
    pub fn from_record(pairs: &[(Vec<u8>, Vec<u8>)], counter: &mut UnsupportedCounter) -> (r:
        Result<SheetName, ErrorKind>)
        ensures
            r is Ok <==> !SheetName::spec_fails(pairs_view(pairs@)),
            r is Ok ==> SheetName::spec_matches(r->Ok_0, pairs_view(pairs@)),
            r is Ok ==> final(counter).count == sat_add(
                old(counter).count,
                SheetName::spec_unknown(pairs_view(pairs@)),
            ),
            final(counter).count >= old(counter).count,
    {
        let ghost p = pairs_view(pairs@);
        proof {
            crate::common::lemma_pairs_view(pairs@);
            assert(p.take(0) =~= Seq::<(Seq<u8>, Seq<u8>)>::empty());
        }
    let a_owner_index: [u8; 10] = [0x4fu8, 0x77u8, 0x6eu8, 0x65u8, 0x72u8, 0x49u8, 0x6eu8, 0x64u8, 0x65u8, 0x78u8];
    let a_owner_part_id: [u8; 11] = [0x4fu8, 0x77u8, 0x6eu8, 0x65u8, 0x72u8, 0x50u8, 0x61u8, 0x72u8, 0x74u8, 0x49u8, 0x64u8];
    let a_index_in_sheet: [u8; 12] = [0x49u8, 0x6eu8, 0x64u8, 0x65u8, 0x78u8, 0x49u8, 0x6eu8, 0x53u8, 0x68u8, 0x65u8, 0x65u8, 0x74u8];
    let a_location_x: [u8; 10] = [0x4cu8, 0x6fu8, 0x63u8, 0x61u8, 0x74u8, 0x69u8, 0x6fu8, 0x6eu8, 0x2eu8, 0x58u8];
    let a_location_y: [u8; 10] = [0x4cu8, 0x6fu8, 0x63u8, 0x61u8, 0x74u8, 0x69u8, 0x6fu8, 0x6eu8, 0x2eu8, 0x59u8];
    let a_color: [u8; 5] = [0x43u8, 0x6fu8, 0x6cu8, 0x6fu8, 0x72u8];
    let a_font_id: [u8; 6] = [0x46u8, 0x6fu8, 0x6eu8, 0x74u8, 0x49u8, 0x44u8];
    let a_text: [u8; 4] = [0x54u8, 0x65u8, 0x78u8, 0x74u8];
    let a_unique_id: [u8; 8] = [0x55u8, 0x6eu8, 0x69u8, 0x71u8, 0x75u8, 0x65u8, 0x49u8, 0x44u8];
    let t_text: [u8; 10] = [0x25u8, 0x55u8, 0x54u8, 0x46u8, 0x38u8, 0x25u8, 0x54u8, 0x65u8, 0x78u8, 0x74u8];
    proof {
        assert(a_owner_index@ =~= crate::keys::k_owner_index());
        assert(a_owner_part_id@ =~= crate::keys::k_owner_part_id());
        assert(a_index_in_sheet@ =~= crate::keys::k_index_in_sheet());
        assert(a_location_x@ =~= crate::keys::k_location_x());
        assert(a_location_y@ =~= crate::keys::k_location_y());
        assert(a_color@ =~= crate::keys::k_color());
        assert(a_font_id@ =~= crate::keys::k_font_id());
        assert(a_text@ =~= crate::keys::k_text());
        assert(a_unique_id@ =~= crate::keys::k_unique_id());
        assert(t_text@ =~= utf8_twin(crate::keys::k_text()));
        assert(crate::keys::k_owner_index() != crate::keys::k_owner_part_id()) by { assert(crate::keys::k_owner_index().len() != crate::keys::k_owner_part_id().len()); }
        assert(crate::keys::k_owner_index() != crate::keys::k_index_in_sheet()) by { assert(crate::keys::k_owner_index().len() != crate::keys::k_index_in_sheet().len()); }
        assert(crate::keys::k_owner_index() != crate::keys::k_location_x()) by { assert(crate::keys::k_owner_index()[0] != crate::keys::k_location_x()[0]); }
        assert(crate::keys::k_owner_index() != crate::keys::k_location_y()) by { assert(crate::keys::k_owner_index()[0] != crate::keys::k_location_y()[0]); }
        assert(crate::keys::k_owner_index() != crate::keys::k_color()) by { assert(crate::keys::k_owner_index().len() != crate::keys::k_color().len()); }
        assert(crate::keys::k_owner_index() != crate::keys::k_font_id()) by { assert(crate::keys::k_owner_index().len() != crate::keys::k_font_id().len()); }
        assert(crate::keys::k_owner_index() != crate::keys::k_text()) by { assert(crate::keys::k_owner_index().len() != crate::keys::k_text().len()); }
        assert(crate::keys::k_owner_index() != crate::keys::k_unique_id()) by { assert(crate::keys::k_owner_index().len() != crate::keys::k_unique_id().len()); }
        assert(crate::keys::k_owner_index() != utf8_twin(crate::keys::k_text())) by { assert(crate::keys::k_owner_index()[0] != utf8_twin(crate::keys::k_text())[0]); }
        assert(crate::keys::k_owner_part_id() != crate::keys::k_index_in_sheet()) by { assert(crate::keys::k_owner_part_id().len() != crate::keys::k_index_in_sheet().len()); }
        assert(crate::keys::k_owner_part_id() != crate::keys::k_location_x()) by { assert(crate::keys::k_owner_part_id().len() != crate::keys::k_location_x().len()); }
        assert(crate::keys::k_owner_part_id() != crate::keys::k_location_y()) by { assert(crate::keys::k_owner_part_id().len() != crate::keys::k_location_y().len()); }
        assert(crate::keys::k_owner_part_id() != crate::keys::k_color()) by { assert(crate::keys::k_owner_part_id().len() != crate::keys::k_color().len()); }
        assert(crate::keys::k_owner_part_id() != crate::keys::k_font_id()) by { assert(crate::keys::k_owner_part_id().len() != crate::keys::k_font_id().len()); }
        assert(crate::keys::k_owner_part_id() != crate::keys::k_text()) by { assert(crate::keys::k_owner_part_id().len() != crate::keys::k_text().len()); }
        assert(crate::keys::k_owner_part_id() != crate::keys::k_unique_id()) by { assert(crate::keys::k_owner_part_id().len() != crate::keys::k_unique_id().len()); }
        assert(crate::keys::k_owner_part_id() != utf8_twin(crate::keys::k_text())) by { assert(crate::keys::k_owner_part_id().len() != utf8_twin(crate::keys::k_text()).len()); }
        assert(crate::keys::k_index_in_sheet() != crate::keys::k_location_x()) by { assert(crate::keys::k_index_in_sheet().len() != crate::keys::k_location_x().len()); }
        assert(crate::keys::k_index_in_sheet() != crate::keys::k_location_y()) by { assert(crate::keys::k_index_in_sheet().len() != crate::keys::k_location_y().len()); }
        assert(crate::keys::k_index_in_sheet() != crate::keys::k_color()) by { assert(crate::keys::k_index_in_sheet().len() != crate::keys::k_color().len()); }
        assert(crate::keys::k_index_in_sheet() != crate::keys::k_font_id()) by { assert(crate::keys::k_index_in_sheet().len() != crate::keys::k_font_id().len()); }
        assert(crate::keys::k_index_in_sheet() != crate::keys::k_text()) by { assert(crate::keys::k_index_in_sheet().len() != crate::keys::k_text().len()); }
        assert(crate::keys::k_index_in_sheet() != crate::keys::k_unique_id()) by { assert(crate::keys::k_index_in_sheet().len() != crate::keys::k_unique_id().len()); }
        assert(crate::keys::k_index_in_sheet() != utf8_twin(crate::keys::k_text())) by { assert(crate::keys::k_index_in_sheet().len() != utf8_twin(crate::keys::k_text()).len()); }
        assert(crate::keys::k_location_x() != crate::keys::k_location_y()) by { assert(crate::keys::k_location_x()[9] != crate::keys::k_location_y()[9]); }
        assert(crate::keys::k_location_x() != crate::keys::k_color()) by { assert(crate::keys::k_location_x().len() != crate::keys::k_color().len()); }
        assert(crate::keys::k_location_x() != crate::keys::k_font_id()) by { assert(crate::keys::k_location_x().len() != crate::keys::k_font_id().len()); }
        assert(crate::keys::k_location_x() != crate::keys::k_text()) by { assert(crate::keys::k_location_x().len() != crate::keys::k_text().len()); }
        assert(crate::keys::k_location_x() != crate::keys::k_unique_id()) by { assert(crate::keys::k_location_x().len() != crate::keys::k_unique_id().len()); }
        assert(crate::keys::k_location_x() != utf8_twin(crate::keys::k_text())) by { assert(crate::keys::k_location_x()[0] != utf8_twin(crate::keys::k_text())[0]); }
        assert(crate::keys::k_location_y() != crate::keys::k_color()) by { assert(crate::keys::k_location_y().len() != crate::keys::k_color().len()); }
        assert(crate::keys::k_location_y() != crate::keys::k_font_id()) by { assert(crate::keys::k_location_y().len() != crate::keys::k_font_id().len()); }
        assert(crate::keys::k_location_y() != crate::keys::k_text()) by { assert(crate::keys::k_location_y().len() != crate::keys::k_text().len()); }
        assert(crate::keys::k_location_y() != crate::keys::k_unique_id()) by { assert(crate::keys::k_location_y().len() != crate::keys::k_unique_id().len()); }
        assert(crate::keys::k_location_y() != utf8_twin(crate::keys::k_text())) by { assert(crate::keys::k_location_y()[0] != utf8_twin(crate::keys::k_text())[0]); }
        assert(crate::keys::k_color() != crate::keys::k_font_id()) by { assert(crate::keys::k_color().len() != crate::keys::k_font_id().len()); }
        assert(crate::keys::k_color() != crate::keys::k_text()) by { assert(crate::keys::k_color().len() != crate::keys::k_text().len()); }
        assert(crate::keys::k_color() != crate::keys::k_unique_id()) by { assert(crate::keys::k_color().len() != crate::keys::k_unique_id().len()); }
        assert(crate::keys::k_color() != utf8_twin(crate::keys::k_text())) by { assert(crate::keys::k_color().len() != utf8_twin(crate::keys::k_text()).len()); }
        assert(crate::keys::k_font_id() != crate::keys::k_text()) by { assert(crate::keys::k_font_id().len() != crate::keys::k_text().len()); }
        assert(crate::keys::k_font_id() != crate::keys::k_unique_id()) by { assert(crate::keys::k_font_id().len() != crate::keys::k_unique_id().len()); }
        assert(crate::keys::k_font_id() != utf8_twin(crate::keys::k_text())) by { assert(crate::keys::k_font_id().len() != utf8_twin(crate::keys::k_text()).len()); }
        assert(crate::keys::k_text() != crate::keys::k_unique_id()) by { assert(crate::keys::k_text().len() != crate::keys::k_unique_id().len()); }
        assert(crate::keys::k_text() != utf8_twin(crate::keys::k_text())) by { assert(crate::keys::k_text().len() != utf8_twin(crate::keys::k_text()).len()); }
        assert(crate::keys::k_unique_id() != utf8_twin(crate::keys::k_text())) by { assert(crate::keys::k_unique_id().len() != utf8_twin(crate::keys::k_text()).len()); }
    }
        let mut x = SheetName {
        owner_index: 0,
        owner_part_id: 0,
        index_in_sheet: 0,
        location: Location { x: 0, y: 0 },
        color: Rgb { r: 0, g: 0, b: 0 },
        font_id: 0,
        text: String::new(),
        unique_id: UniqueId::Simple([0x30u8, 0x30u8, 0x30u8, 0x30u8, 0x30u8, 0x30u8, 0x30u8, 0x30u8]),
        };
    let mut seen_text: bool = false;
        let n = pairs.len();
        let mut i: usize = 0;
        while i < n
            invariant
                0 <= i <= n,
                n == pairs@.len(),
                !SheetName::spec_fails(p.take(i as int)),
                SheetName::spec_matches(x, p.take(i as int)),
            seen_text == has_key(p.take(i as int), utf8_twin(crate::keys::k_text())),
                counter.count == sat_add(old(counter).count, SheetName::spec_unknown(p.take(i as int))),
                0 <= SheetName::spec_unknown(p.take(i as int)) <= i,
            decreases n - i,
        {
            let key: &[u8] = pairs[i].0.as_slice();
            let val: &[u8] = pairs[i].1.as_slice();
            proof {
                assert(p[i as int] == (pairs@[i as int].0@, pairs@[i as int].1@));
                assert(p.take(i as int + 1).drop_last() =~= p.take(i as int));
                assert(p.take(i as int + 1).last() == p[i as int]);
                assert forall|j: int| 0 <= j <= i implies #[trigger] p.take(i as int + 1).take(j)
                    == p.take(j) by {
                    assert(p.take(i as int + 1).take(j) =~= p.take(j));
                }
                assert forall|j: int| 0 <= j <= i implies #[trigger] p.take(i as int).take(j)
                    == p.take(j) by {
                    assert(p.take(i as int).take(j) =~= p.take(j));
                }
            }
        if crate::common::bytes_eq(key, a_owner_index.as_slice()) {
                    match crate::parse::parse_u8(val) {
                        Ok(v) => { x.owner_index = v; },
                        Err(e) => {
                            proof {
                                assert(p[i as int].0 == crate::keys::k_owner_index());
                                assert(kind_field_fails(p, FieldKind::U8, crate::keys::k_owner_index()));
                            }
                            return Err(e);
                        },
                    }
                }
        else if crate::common::bytes_eq(key, a_owner_part_id.as_slice()) {
                    match crate::parse::parse_i8(val) {
                        Ok(v) => { x.owner_part_id = v; },
                        Err(e) => {
                            proof {
                                assert(p[i as int].0 == crate::keys::k_owner_part_id());
                                assert(kind_field_fails(p, FieldKind::I8, crate::keys::k_owner_part_id()));
                            }
                            return Err(e);
                        },
                    }
                }
        else if crate::common::bytes_eq(key, a_index_in_sheet.as_slice()) {
                    match crate::parse::parse_i16(val) {
                        Ok(v) => { x.index_in_sheet = v; },
                        Err(e) => {
                            proof {
                                assert(p[i as int].0 == crate::keys::k_index_in_sheet());
                                assert(kind_field_fails(p, FieldKind::I16, crate::keys::k_index_in_sheet()));
                            }
                            return Err(e);
                        },
                    }
                }
        else if crate::common::bytes_eq(key, a_location_x.as_slice()) {
                    match crate::parse::parse_i32(val) {
                        Ok(v) => { x.location.x = v; },
                        Err(e) => {
                            proof {
                                assert(p[i as int].0 == crate::keys::k_location_x());
                                assert(kind_field_fails(p, FieldKind::I32, crate::keys::k_location_x()));
                            }
                            return Err(e);
                        },
                    }
                }
        else if crate::common::bytes_eq(key, a_location_y.as_slice()) {
                    match crate::parse::parse_i32(val) {
                        Ok(v) => { x.location.y = v; },
                        Err(e) => {
                            proof {
                                assert(p[i as int].0 == crate::keys::k_location_y());
                                assert(kind_field_fails(p, FieldKind::I32, crate::keys::k_location_y()));
                            }
                            return Err(e);
                        },
                    }
                }
        else if crate::common::bytes_eq(key, a_color.as_slice()) {
                    match Rgb::from_utf8(val) {
                        Ok(v) => { x.color = v; },
                        Err(e) => {
                            proof {
                                assert(p[i as int].0 == crate::keys::k_color());
                                assert(kind_field_fails(p, FieldKind::Color, crate::keys::k_color()));
                            }
                            return Err(e);
                        },
                    }
                }
        else if crate::common::bytes_eq(key, a_font_id.as_slice()) {
                    match crate::parse::parse_u16(val) {
                        Ok(v) => { x.font_id = v; },
                        Err(e) => {
                            proof {
                                assert(p[i as int].0 == crate::keys::k_font_id());
                                assert(kind_field_fails(p, FieldKind::U16, crate::keys::k_font_id()));
                            }
                            return Err(e);
                        },
                    }
                }
        else if crate::common::bytes_eq(key, t_text.as_slice()) {
                    match crate::common::str_from_utf8(val) {
                        Ok(s) => { x.text = s; seen_text = true; },
                        Err(e) => {
                            proof {
                                assert(p[i as int].0 == utf8_twin(crate::keys::k_text()));
                                assert(str_field_fails(p, crate::keys::k_text()));
                            }
                            return Err(e);
                        },
                    }
                } else if crate::common::bytes_eq(key, a_text.as_slice()) {
                    if !seen_text {
                        match crate::common::str_from_utf8(val) {
                            Ok(s) => { x.text = s; },
                            Err(e) => {
                                proof {
                                    assert(p[i as int].0 == crate::keys::k_text());
                                    assert(!has_key(p.take(i as int), utf8_twin(crate::keys::k_text())));
                                    assert(str_field_fails(p, crate::keys::k_text()));
                                }
                                return Err(e);
                            },
                        }
                    }
                }
        else if crate::common::bytes_eq(key, a_unique_id.as_slice()) {
                    match UniqueId::from_utf8(val) {
                        Ok(v) => { x.unique_id = v; },
                        Err(e) => {
                            proof {
                                assert(p[i as int].0 == crate::keys::k_unique_id());
                                assert(kind_field_fails(p, FieldKind::Uid, crate::keys::k_unique_id()));
                            }
                            return Err(e);
                        },
                    }
                }
        else {
            crate::logging::macro_unsupported_key(counter, "SheetName", key, val);
        }
            i += 1;
        }
        proof {
            assert(p.take(n as int) =~= p);
        }
        Ok(x)
    }
}

impl FileName {
    /// The wire record ID of this kind.
    pub open spec fn spec_record_id() -> u32 {
        33
    }

    /// Whether the binder recognizes this wire key.
    pub open spec fn spec_known_key(k: Seq<u8>) -> bool {
        ||| k == crate::keys::k_owner_index()
        ||| k == crate::keys::k_owner_part_id()
        ||| k == crate::keys::k_index_in_sheet()
        ||| k == crate::keys::k_location_x()
        ||| k == crate::keys::k_location_y()
        ||| k == crate::keys::k_color()
        ||| k == crate::keys::k_font_id()
        ||| k == crate::keys::k_text()
        ||| k == utf8_twin(crate::keys::k_text())
        ||| k == crate::keys::k_unique_id()
    }

    /// How many pairs hold keys the binder does not recognize.
    pub open spec fn spec_unknown(p: SpecPairs) -> int
        decreases p.len(),
    {
        if p.len() == 0 {
            0
        } else {
            Self::spec_unknown(p.drop_last()) + if Self::spec_known_key(p.last().0) {
                0int
            } else {
                1int
            }
        }
    }

    /// Whether some pair's value is one its field's parser rejects.
    pub open spec fn spec_fails(p: SpecPairs) -> bool {
        ||| kind_field_fails(p, FieldKind::U8, crate::keys::k_owner_index())
        ||| kind_field_fails(p, FieldKind::I8, crate::keys::k_owner_part_id())
        ||| kind_field_fails(p, FieldKind::I16, crate::keys::k_index_in_sheet())
        ||| kind_field_fails(p, FieldKind::I32, crate::keys::k_location_x())
        ||| kind_field_fails(p, FieldKind::I32, crate::keys::k_location_y())
        ||| kind_field_fails(p, FieldKind::Color, crate::keys::k_color())
        ||| kind_field_fails(p, FieldKind::U16, crate::keys::k_font_id())
        ||| str_field_fails(p, crate::keys::k_text())
        ||| kind_field_fails(p, FieldKind::Uid, crate::keys::k_unique_id())
    }

    /// Each field as the walk of the pairs leaves it.
    pub open spec fn spec_matches(x: FileName, p: SpecPairs) -> bool {
        &&& x.owner_index == u8_field(p, crate::keys::k_owner_index())
        &&& x.owner_part_id == i8_field(p, crate::keys::k_owner_part_id())
        &&& x.index_in_sheet == i16_field(p, crate::keys::k_index_in_sheet())
        &&& x.location == loc_field(p, crate::keys::k_location_x(), crate::keys::k_location_y())
        &&& x.color == color_field(p, crate::keys::k_color())
        &&& x.font_id == u16_field(p, crate::keys::k_font_id())
        &&& x.text@ == str_field(p, crate::keys::k_text())
        &&& x.unique_id == uid_field(p, crate::keys::k_unique_id())
    }

    /// Bind the fields of one `FileName` record from its key-value pairs.
    #[verifier::loop_isolation(false)]
    #[verifier::rlimit(100)]
    pub fn from_record(pairs: &[(Vec<u8>, Vec<u8>)], counter: &mut UnsupportedCounter) -> (r:
        Result<FileName, ErrorKind>)
        ensures
            r is Ok <==> !FileName::spec_fails(pairs_view(pairs@)),
            r is Ok ==> FileName::spec_matches(r->Ok_0, pairs_view(pairs@)),
            r is Ok ==> final(counter).count == sat_add(
                old(counter).count,
                FileName::spec_unknown(pairs_view(pairs@)),
            ),
            final(counter).count >= old(counter).count,
    {
        let ghost p = pairs_view(pairs@);
        proof {
            crate::common::lemma_pairs_view(pairs@);
            assert(p.take(0) =~= Seq::<(Seq<u8>, Seq<u8>)>::empty());
        }
    let a_owner_index: [u8; 10] = [0x4fu8, 0x77u8, 0x6eu8, 0x65u8, 0x72u8, 0x49u8, 0x6eu8, 0x64u8, 0x65u8, 0x78u8];
    let a_owner_part_id: [u8; 11] = [0x4fu8, 0x77u8, 0x6eu8, 0x65u8, 0x72u8, 0x50u8, 0x61u8, 0x72u8, 0x74u8, 0x49u8, 0x64u8];
    let a_index_in_sheet: [u8; 12] = [0x49u8, 0x6eu8, 0x64u8, 0x65u8, 0x78u8, 0x49u8, 0x6eu8, 0x53u8, 0x68u8, 0x65u8, 0x65u8, 0x74u8];
    let a_location_x: [u8; 10] = [0x4cu8, 0x6fu8, 0x63u8, 0x61u8, 0x74u8, 0x69u8, 0x6fu8, 0x6eu8, 0x2eu8, 0x58u8];
    let a_location_y: [u8; 10] = [0x4cu8, 0x6fu8, 0x63u8, 0x61u8, 0x74u8, 0x69u8, 0x6fu8, 0x6eu8, 0x2eu8, 0x59u8];
    let a_color: [u8; 5] = [0x43u8, 0x6fu8, 0x6cu8, 0x6fu8, 0x72u8];
    let a_font_id: [u8; 6] = [0x46u8, 0x6fu8, 0x6eu8, 0x74u8, 0x49u8, 0x44u8];
    let a_text: [u8; 4] = [0x54u8, 0x65u8, 0x78u8, 0x74u8];
    let a_unique_id: [u8; 8] = [0x55u8, 0x6eu8, 0x69u8, 0x71u8, 0x75u8, 0x65u8, 0x49u8, 0x44u8];
    let t_text: [u8; 10] = [0x25u8, 0x55u8, 0x54u8, 0x46u8, 0x38u8, 0x25u8, 0x54u8, 0x65u8, 0x78u8, 0x74u8];
    proof {
        assert(a_owner_index@ =~= crate::keys::k_owner_index());
        assert(a_owner_part_id@ =~= crate::keys::k_owner_part_id());
        assert(a_index_in_sheet@ =~= crate::keys::k_index_in_sheet());
        assert(a_location_x@ =~= crate::keys::k_location_x());
        assert(a_location_y@ =~= crate::keys::k_location_y());
        assert(a_color@ =~= crate::keys::k_color());
        assert(a_font_id@ =~= crate::keys::k_font_id());
        assert(a_text@ =~= crate::keys::k_text());
        assert(a_unique_id@ =~= crate::keys::k_unique_id());
        assert(t_text@ =~= utf8_twin(crate::keys::k_text()));
        assert(crate::keys::k_owner_index() != crate::keys::k_owner_part_id()) by { assert(crate::keys::k_owner_index().len() != crate::keys::k_owner_part_id().len()); }
        assert(crate::keys::k_owner_index() != crate::keys::k_index_in_sheet()) by { assert(crate::keys::k_owner_index().len() != crate::keys::k_index_in_sheet().len()); }
        assert(crate::keys::k_owner_index() != crate::keys::k_location_x()) by { assert(crate::keys::k_owner_index()[0] != crate::keys::k_location_x()[0]); }
        assert(crate::keys::k_owner_index() != crate::keys::k_location_y()) by { assert(crate::keys::k_owner_index()[0] != crate::keys::k_location_y()[0]); }
        assert(crate::keys::k_owner_index() != crate::keys::k_color()) by { assert(crate::keys::k_owner_index().len() != crate::keys::k_color().len()); }
        assert(crate::keys::k_owner_index() != crate::keys::k_font_id()) by { assert(crate::keys::k_owner_index().len() != crate::keys::k_font_id().len()); }
        assert(crate::keys::k_owner_index() != crate::keys::k_text()) by { assert(crate::keys::k_owner_index().len() != crate::keys::k_text().len()); }
        assert(crate::keys::k_owner_index() != crate::keys::k_unique_id()) by { assert(crate::keys::k_owner_index().len() != crate::keys::k_unique_id().len()); }
        assert(crate::keys::k_owner_index() != utf8_twin(crate::keys::k_text())) by { assert(crate::keys::k_owner_index()[0] != utf8_twin(crate::keys::k_text())[0]); }
        assert(crate::keys::k_owner_part_id() != crate::keys::k_index_in_sheet()) by { assert(crate::keys::k_owner_part_id().len() != crate::keys::k_index_in_sheet().len()); }
        assert(crate::keys::k_owner_part_id() != crate::keys::k_location_x()) by { assert(crate::keys::k_owner_part_id().len() != crate::keys::k_location_x().len()); }
        assert(crate::keys::k_owner_part_id() != crate::keys::k_location_y()) by { assert(crate::keys::k_owner_part_id().len() != crate::keys::k_location_y().len()); }
        assert(crate::keys::k_owner_part_id() != crate::keys::k_color()) by { assert(crate::keys::k_owner_part_id().len() != crate::keys::k_color().len()); }
        assert(crate::keys::k_owner_part_id() != crate::keys::k_font_id()) by { assert(crate::keys::k_owner_part_id().len() != crate::keys::k_font_id().len()); }
        assert(crate::keys::k_owner_part_id() != crate::keys::k_text()) by { assert(crate::keys::k_owner_part_id().len() != crate::keys::k_text().len()); }
        assert(crate::keys::k_owner_part_id() != crate::keys::k_unique_id()) by { assert(crate::keys::k_owner_part_id().len() != crate::keys::k_unique_id().len()); }
        assert(crate::keys::k_owner_part_id() != utf8_twin(crate::keys::k_text())) by { assert(crate::keys::k_owner_part_id().len() != utf8_twin(crate::keys::k_text()).len()); }
        assert(crate::keys::k_index_in_sheet() != crate::keys::k_location_x()) by { assert(crate::keys::k_index_in_sheet().len() != crate::keys::k_location_x().len()); }
        assert(crate::keys::k_index_in_sheet() != crate::keys::k_location_y()) by { assert(crate::keys::k_index_in_sheet().len() != crate::keys::k_location_y().len()); }
        assert(crate::keys::k_index_in_sheet() != crate::keys::k_color()) by { assert(crate::keys::k_index_in_sheet().len() != crate::keys::k_color().len()); }
        assert(crate::keys::k_index_in_sheet() != crate::keys::k_font_id()) by { assert(crate::keys::k_index_in_sheet().len() != crate::keys::k_font_id().len()); }
        assert(crate::keys::k_index_in_sheet() != crate::keys::k_text()) by { assert(crate::keys::k_index_in_sheet().len() != crate::keys::k_text().len()); }
        assert(crate::keys::k_index_in_sheet() != crate::keys::k_unique_id()) by { assert(crate::keys::k_index_in_sheet().len() != crate::keys::k_unique_id().len()); }
        assert(crate::keys::k_index_in_sheet() != utf8_twin(crate::keys::k_text())) by { assert(crate::keys::k_index_in_sheet().len() != utf8_twin(crate::keys::k_text()).len()); }
        assert(crate::keys::k_location_x() != crate::keys::k_location_y()) by { assert(crate::keys::k_location_x()[9] != crate::keys::k_location_y()[9]); }
        assert(crate::keys::k_location_x() != crate::keys::k_color()) by { assert(crate::keys::k_location_x().len() != crate::keys::k_color().len()); }
        assert(crate::keys::k_location_x() != crate::keys::k_font_id()) by { assert(crate::keys::k_location_x().len() != crate::keys::k_font_id().len()); }
        assert(crate::keys::k_location_x() != crate::keys::k_text()) by { assert(crate::keys::k_location_x().len() != crate::keys::k_text().len()); }
        assert(crate::keys::k_location_x() != crate::keys::k_unique_id()) by { assert(crate::keys::k_location_x().len() != crate::keys::k_unique_id().len()); }
        assert(crate::keys::k_location_x() != utf8_twin(crate::keys::k_text())) by { assert(crate::keys::k_location_x()[0] != utf8_twin(crate::keys::k_text())[0]); }
        assert(crate::keys::k_location_y() != crate::keys::k_color()) by { assert(crate::keys::k_location_y().len() != crate::keys::k_color().len()); }
        assert(crate::keys::k_location_y() != crate::keys::k_font_id()) by { assert(crate::keys::k_location_y().len() != crate::keys::k_font_id().len()); }
        assert(crate::keys::k_location_y() != crate::keys::k_text()) by { assert(crate::keys::k_location_y().len() != crate::keys::k_text().len()); }
        assert(crate::keys::k_location_y() != crate::keys::k_unique_id()) by { assert(crate::keys::k_location_y().len() != crate::keys::k_unique_id().len()); }
        assert(crate::keys::k_location_y() != utf8_twin(crate::keys::k_text())) by { assert(crate::keys::k_location_y()[0] != utf8_twin(crate::keys::k_text())[0]); }
        assert(crate::keys::k_color() != crate::keys::k_font_id()) by { assert(crate::keys::k_color().len() != crate::keys::k_font_id().len()); }
        assert(crate::keys::k_color() != crate::keys::k_text()) by { assert(crate::keys::k_color().len() != crate::keys::k_text().len()); }
        assert(crate::keys::k_color() != crate::keys::k_unique_id()) by { assert(crate::keys::k_color().len() != crate::keys::k_unique_id().len()); }
        assert(crate::keys::k_color() != utf8_twin(crate::keys::k_text())) by { assert(crate::keys::k_color().len() != utf8_twin(crate::keys::k_text()).len()); }
        assert(crate::keys::k_font_id() != crate::keys::k_text()) by { assert(crate::keys::k_font_id().len() != crate::keys::k_text().len()); }
        assert(crate::keys::k_font_id() != crate::keys::k_unique_id()) by { assert(crate::keys::k_font_id().len() != crate::keys::k_unique_id().len()); }
        assert(crate::keys::k_font_id() != utf8_twin(crate::keys::k_text())) by { assert(crate::keys::k_font_id().len() != utf8_twin(crate::keys::k_text()).len()); }
        assert(crate::keys::k_text() != crate::keys::k_unique_id()) by { assert(crate::keys::k_text().len() != crate::keys::k_unique_id().len()); }
        assert(crate::keys::k_text() != utf8_twin(crate::keys::k_text())) by { assert(crate::keys::k_text().len() != utf8_twin(crate::keys::k_text()).len()); }
        assert(crate::keys::k_unique_id() != utf8_twin(crate::keys::k_text())) by { assert(crate::keys::k_unique_id().len() != utf8_twin(crate::keys::k_text()).len()); }
    }
        let mut x = FileName {
        owner_index: 0,
        owner_part_id: 0,
        index_in_sheet: 0,
        location: Location { x: 0, y: 0 },
        color: Rgb { r: 0, g: 0, b: 0 },
        font_id: 0,
        text: String::new(),
        unique_id: UniqueId::Simple([0x30u8, 0x30u8, 0x30u8, 0x30u8, 0x30u8, 0x30u8, 0x30u8, 0x30u8]),
        };
    let mut seen_text: bool = false;
        let n = pairs.len();
        let mut i: usize = 0;
        while i < n
            invariant
                0 <= i <= n,
                n == pairs@.len(),
                !FileName::spec_fails(p.take(i as int)),
                FileName::spec_matches(x, p.take(i as int)),
            seen_text == has_key(p.take(i as int), utf8_twin(crate::keys::k_text())),
                counter.count == sat_add(old(counter).count, FileName::spec_unknown(p.take(i as int))),
                0 <= FileName::spec_unknown(p.take(i as int)) <= i,
            decreases n - i,
        {
            let key: &[u8] = pairs[i].0.as_slice();
            let val: &[u8] = pairs[i].1.as_slice();
            proof {
                assert(p[i as int] == (pairs@[i as int].0@, pairs@[i as int].1@));
                assert(p.take(i as int + 1).drop_last() =~= p.take(i as int));
                assert(p.take(i as int + 1).last() == p[i as int]);
                assert forall|j: int| 0 <= j <= i implies #[trigger] p.take(i as int + 1).take(j)
                    == p.take(j) by {
                    assert(p.take(i as int + 1).take(j) =~= p.take(j));
                }
                assert forall|j: int| 0 <= j <= i implies #[trigger] p.take(i as int).take(j)
                    == p.take(j) by {
                    assert(p.take(i as int).take(j) =~= p.take(j));
                }
            }
        if crate::common::bytes_eq(key, a_owner_index.as_slice()) {
                    match crate::parse::parse_u8(val) {
                        Ok(v) => { x.owner_index = v; },
                        Err(e) => {
                            proof {
                                assert(p[i as int].0 == crate::keys::k_owner_index());
                                assert(kind_field_fails(p, FieldKind::U8, crate::keys::k_owner_index()));
                            }
                            return Err(e);
                        },
                    }
                }
        else if crate::common::bytes_eq(key, a_owner_part_id.as_slice()) {
                    match crate::parse::parse_i8(val) {
                        Ok(v) => { x.owner_part_id = v; },
                        Err(e) => {
                            proof {
                                assert(p[i as int].0 == crate::keys::k_owner_part_id());
                                assert(kind_field_fails(p, FieldKind::I8, crate::keys::k_owner_part_id()));
                            }
                            return Err(e);
                        },
                    }
                }
        else if crate::common::bytes_eq(key, a_index_in_sheet.as_slice()) {
                    match crate::parse::parse_i16(val) {
                        Ok(v) => { x.index_in_sheet = v; },
                        Err(e) => {
                            proof {
                                assert(p[i as int].0 == crate::keys::k_index_in_sheet());
                                assert(kind_field_fails(p, FieldKind::I16, crate::keys::k_index_in_sheet()));
                            }
                            return Err(e);
                        },
                    }
                }
        else if crate::common::bytes_eq(key, a_location_x.as_slice()) {
                    match crate::parse::parse_i32(val) {
                        Ok(v) => { x.location.x = v; },
                        Err(e) => {
                            proof {
                                assert(p[i as int].0 == crate::keys::k_location_x());
                                assert(kind_field_fails(p, FieldKind::I32, crate::keys::k_location_x()));
                            }
                            return Err(e);
                        },
                    }
                }
        else if crate::common::bytes_eq(key, a_location_y.as_slice()) {
                    match crate::parse::parse_i32(val) {
                        Ok(v) => { x.location.y = v; },
                        Err(e) => {
                            proof {
                                assert(p[i as int].0 == crate::keys::k_location_y());
                                assert(kind_field_fails(p, FieldKind::I32, crate::keys::k_location_y()));
                            }
                            return Err(e);
                        },
                    }
                }
        else if crate::common::bytes_eq(key, a_color.as_slice()) {
                    match Rgb::from_utf8(val) {
                        Ok(v) => { x.color = v; },
                        Err(e) => {
                            proof {
                                assert(p[i as int].0 == crate::keys::k_color());
                                assert(kind_field_fails(p, FieldKind::Color, crate::keys::k_color()));
                            }
                            return Err(e);
                        },
                    }
                }
        else if crate::common::bytes_eq(key, a_font_id.as_slice()) {
                    match crate::parse::parse_u16(val) {
                        Ok(v) => { x.font_id = v; },
                        Err(e) => {
                            proof {
                                assert(p[i as int].0 == crate::keys::k_font_id());
                                assert(kind_field_fails(p, FieldKind::U16, crate::keys::k_font_id()));
                            }
                            return Err(e);
                        },
                    }
                }
        else if crate::common::bytes_eq(key, t_text.as_slice()) {
                    match crate::common::str_from_utf8(val) {
                        Ok(s) => { x.text = s; seen_text = true; },
                        Err(e) => {
                            proof {
                                assert(p[i as int].0 == utf8_twin(crate::keys::k_text()));
                                assert(str_field_fails(p, crate::keys::k_text()));
                            }
                            return Err(e);
                        },
                    }
                } else if crate::common::bytes_eq(key, a_text.as_slice()) {
                    if !seen_text {
                        match crate::common::str_from_utf8(val) {
                            Ok(s) => { x.text = s; },
                            Err(e) => {
                                proof {
                                    assert(p[i as int].0 == crate::keys::k_text());
                                    assert(!has_key(p.take(i as int), utf8_twin(crate::keys::k_text())));
                                    assert(str_field_fails(p, crate::keys::k_text()));
                                }
                                return Err(e);
                            },
                        }
                    }
                }
        else if crate::common::bytes_eq(key, a_unique_id.as_slice()) {
                    match UniqueId::from_utf8(val) {
                        Ok(v) => { x.unique_id = v; },
                        Err(e) => {
                            proof {
                                assert(p[i as int].0 == crate::keys::k_unique_id());
                                assert(kind_field_fails(p, FieldKind::Uid, crate::keys::k_unique_id()));
                            }
                            return Err(e);
                        },
                    }
                }
        else {
            crate::logging::macro_unsupported_key(counter, "FileName", key, val);
        }
            i += 1;
        }
        proof {
            assert(p.take(n as int) =~= p);
        }
        Ok(x)
    }
}

} // verus!
