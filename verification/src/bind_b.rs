//! Field binders for the ASCII record kinds.

use vstd::prelude::*;

use crate::binder::{
    bool_field, color_field, has_key, i16_field, i32_field, i8_field, just_field,
    kind_field_fails, last_val, loc_field, locf_field, mils_i32_field, mils_u32_field,
    etype_field, opt_str_field, raw_field, ros_field, sat_add, str_field, str_field_fails,
    u16_field,
    u32_field, u8_field, uid_field, utf8_twin, FieldKind, SpecPairs,
};
use crate::common::{pairs_view, Location, LocationFract, ReadOnlyState, Rgb, UniqueId};
use crate::error::ErrorKind;
use crate::params::Justification;
use crate::logging::UnsupportedCounter;
use crate::records::{Arc, ElipticalArc, Line, PowerPort, Rectangle, SheetEntry, SheetSymbol};

verus! {

impl ElipticalArc {
    /// The wire record ID of this kind.
    pub open spec fn spec_record_id() -> u32 {
        11
    }

    /// Whether the binder recognizes this wire key.
    pub open spec fn spec_known_key(k: Seq<u8>) -> bool {
        ||| k == crate::keys::k_owner_index()
        ||| k == crate::keys::k_owner_part_id()
        ||| k == crate::keys::k_is_not_accesible()
        ||| k == crate::keys::k_index_in_sheet()
        ||| k == crate::keys::k_location_x()
        ||| k == crate::keys::k_location_y()
        ||| k == crate::keys::k_location_x_frac()
        ||| k == crate::keys::k_location_y_frac()
        ||| k == crate::keys::k_radius()
        ||| k == crate::keys::k_radius_frac()
        ||| k == crate::keys::k_secondary_radius()
        ||| k == crate::keys::k_secondary_radius_frac()
        ||| k == crate::keys::k_line_width()
        ||| k == crate::keys::k_start_angle()
        ||| k == crate::keys::k_end_angle()
        ||| k == crate::keys::k_color()
        ||| k == crate::keys::k_unique_id()
    }

    /// How many pairs hold keys the binder does not recognize.
    pub open spec fn spec_unknown(p: SpecPairs) -> int
        decreases p.len(),
    {
        if p.len() == 0 {
            0
        } else {
            Self::spec_unknown(p.drop_last()) + if Self::spec_known_key(p.last().0) {
                0int
            } else {
                1int
            }
        }
    }

    /// Whether some pair's value is one its field's parser rejects.
    pub open spec fn spec_fails(p: SpecPairs) -> bool {
        ||| kind_field_fails(p, FieldKind::U8, crate::keys::k_owner_index())
        ||| kind_field_fails(p, FieldKind::I8, crate::keys::k_owner_part_id())
        ||| kind_field_fails(p, FieldKind::Bool, crate::keys::k_is_not_accesible())
        ||| kind_field_fails(p, FieldKind::I16, crate::keys::k_index_in_sheet())
        ||| kind_field_fails(p, FieldKind::I32, crate::keys::k_location_x())
        ||| kind_field_fails(p, FieldKind::I32, crate::keys::k_location_y())
        ||| kind_field_fails(p, FieldKind::I32, crate::keys::k_location_x_frac())
        ||| kind_field_fails(p, FieldKind::I32, crate::keys::k_location_y_frac())
        ||| kind_field_fails(p, FieldKind::I8, crate::keys::k_radius())
        ||| kind_field_fails(p, FieldKind::I32, crate::keys::k_radius_frac())
        ||| kind_field_fails(p, FieldKind::I8, crate::keys::k_secondary_radius())
        ||| kind_field_fails(p, FieldKind::I32, crate::keys::k_secondary_radius_frac())
        ||| kind_field_fails(p, FieldKind::MilsI32, crate::keys::k_line_width())
        ||| kind_field_fails(p, FieldKind::Color, crate::keys::k_color())
        ||| kind_field_fails(p, FieldKind::Uid, crate::keys::k_unique_id())
    }

    /// Each field as the walk of the pairs leaves it.
    pub open spec fn spec_matches(x: ElipticalArc, p: SpecPairs) -> bool {
        &&& x.owner_index == u8_field(p, crate::keys::k_owner_index())
        &&& x.owner_part_id == i8_field(p, crate::keys::k_owner_part_id())
        &&& x.is_not_accessible == bool_field(p, crate::keys::k_is_not_accesible())
        &&& x.index_in_sheet == i16_field(p, crate::keys::k_index_in_sheet())
        &&& x.location == locf_field(p, crate::keys::k_location_x(), crate::keys::k_location_y(), crate::keys::k_location_x_frac(), crate::keys::k_location_y_frac())
        &&& x.radius == i8_field(p, crate::keys::k_radius())
        &&& x.radius_frac == i32_field(p, crate::keys::k_radius_frac())
        &&& x.secondary_radius == i8_field(p, crate::keys::k_secondary_radius())
        &&& x.secondary_radius_frac == i32_field(p, crate::keys::k_secondary_radius_frac())
        &&& x.line_width == mils_i32_field(p, crate::keys::k_line_width())
        &&& x.start_angle@ == raw_field(p, crate::keys::k_start_angle())
        &&& x.end_angle@ == raw_field(p, crate::keys::k_end_angle())
        &&& x.color == color_field(p, crate::keys::k_color())
        &&& x.unique_id == uid_field(p, crate::keys::k_unique_id())
    }

    /// Bind the fields of one `ElipticalArc` record from its key-value pairs.
    #[verifier::loop_isolation(false)]
    #[verifier::rlimit(100)]
    pub fn from_record(pairs: &[(Vec<u8>, Vec<u8>)], counter: &mut UnsupportedCounter) -> (r:
        Result<ElipticalArc, ErrorKind>)
        ensures
            r is Ok <==> !ElipticalArc::spec_fails(pairs_view(pairs@)),
            r is Ok ==> ElipticalArc::spec_matches(r->Ok_0, pairs_view(pairs@)),
            r is Ok ==> final(counter).count == sat_add(
                old(counter).count,
                ElipticalArc::spec_unknown(pairs_view(pairs@)),
            ),
            final(counter).count >= old(counter).count,
    {
        let ghost p = pairs_view(pairs@);
        proof {
            crate::common::lemma_pairs_view(pairs@);
            assert(p.take(0) =~= Seq::<(Seq<u8>, Seq<u8>)>::empty());
        }
    let a_owner_index: [u8; 10] = [0x4fu8, 0x77u8, 0x6eu8, 0x65u8, 0x72u8, 0x49u8, 0x6eu8, 0x64u8, 0x65u8, 0x78u8];
    let a_owner_part_id: [u8; 11] = [0x4fu8, 0x77u8, 0x6eu8, 0x65u8, 0x72u8, 0x50u8, 0x61u8, 0x72u8, 0x74u8, 0x49u8, 0x64u8];
    let a_is_not_accesible: [u8; 14] = [0x49u8, 0x73u8, 0x4eu8, 0x6fu8, 0x74u8, 0x41u8, 0x63u8, 0x63u8, 0x65u8, 0x73u8, 0x69u8, 0x62u8, 0x6cu8, 0x65u8];
    let a_index_in_sheet: [u8; 12] = [0x49u8, 0x6eu8, 0x64u8, 0x65u8, 0x78u8, 0x49u8, 0x6eu8, 0x53u8, 0x68u8, 0x65u8, 0x65u8, 0x74u8];
    let a_location_x: [u8; 10] = [0x4cu8, 0x6fu8, 0x63u8, 0x61u8, 0x74u8, 0x69u8, 0x6fu8, 0x6eu8, 0x2eu8, 0x58u8];
    let a_location_y: [u8; 10] = [0x4cu8, 0x6fu8, 0x63u8, 0x61u8, 0x74u8, 0x69u8, 0x6fu8, 0x6eu8, 0x2eu8, 0x59u8];
    let a_location_x_frac: [u8; 15] = [0x4cu8, 0x6fu8, 0x63u8, 0x61u8, 0x74u8, 0x69u8, 0x6fu8, 0x6eu8, 0x2eu8, 0x58u8, 0x5fu8, 0x46u8, 0x72u8, 0x61u8, 0x63u8];
    let a_location_y_frac: [u8; 15] = [0x4cu8, 0x6fu8, 0x63u8, 0x61u8, 0x74u8, 0x69u8, 0x6fu8, 0x6eu8, 0x2eu8, 0x59u8, 0x5fu8, 0x46u8, 0x72u8, 0x61u8, 0x63u8];
    let a_radius: [u8; 6] = [0x52u8, 0x61u8, 0x64u8, 0x69u8, 0x75u8, 0x73u8];
    let a_radius_frac: [u8; 11] = [0x52u8, 0x61u8, 0x64u8, 0x69u8, 0x75u8, 0x73u8, 0x5fu8, 0x46u8, 0x72u8, 0x61u8, 0x63u8];
    let a_secondary_radius: [u8; 15] = [0x53u8, 0x65u8, 0x63u8, 0x6fu8, 0x6eu8, 0x64u8, 0x61u8, 0x72u8, 0x79u8, 0x52u8, 0x61u8, 0x64u8, 0x69u8, 0x75u8, 0x73u8];
    let a_secondary_radius_frac: [u8; 20] = [0x53u8, 0x65u8, 0x63u8, 0x6fu8, 0x6eu8, 0x64u8, 0x61u8, 0x72u8, 0x79u8, 0x52u8, 0x61u8, 0x64u8, 0x69u8, 0x75u8, 0x73u8, 0x5fu8, 0x46u8, 0x72u8, 0x61u8, 0x63u8];
    let a_line_width: [u8; 9] = [0x4cu8, 0x69u8, 0x6eu8, 0x65u8, 0x57u8, 0x69u8, 0x64u8, 0x74u8, 0x68u8];
    let a_start_angle: [u8; 10] = [0x53u8, 0x74u8, 0x61u8, 0x72u8, 0x74u8, 0x41u8, 0x6eu8, 0x67u8, 0x6cu8, 0x65u8];
    let a_end_angle: [u8; 8] = [0x45u8, 0x6eu8, 0x64u8, 0x41u8, 0x6eu8, 0x67u8, 0x6cu8, 0x65u8];
    let a_color: [u8; 5] = [0x43u8, 0x6fu8, 0x6cu8, 0x6fu8, 0x72u8];
    let a_unique_id: [u8; 8] = [0x55u8, 0x6eu8, 0x69u8, 0x71u8, 0x75u8, 0x65u8, 0x49u8, 0x44u8];
    proof {
        assert(a_owner_index@ =~= crate::keys::k_owner_index());
        assert(a_owner_part_id@ =~= crate::keys::k_owner_part_id());
        assert(a_is_not_accesible@ =~= crate::keys::k_is_not_accesible());
        assert(a_index_in_sheet@ =~= crate::keys::k_index_in_sheet());
        assert(a_location_x@ =~= crate::keys::k_location_x());
        assert(a_location_y@ =~= crate::keys::k_location_y());
        assert(a_location_x_frac@ =~= crate::keys::k_location_x_frac());
        assert(a_location_y_frac@ =~= crate::keys::k_location_y_frac());
        assert(a_radius@ =~= crate::keys::k_radius());
        assert(a_radius_frac@ =~= crate::keys::k_radius_frac());
        assert(a_secondary_radius@ =~= crate::keys::k_secondary_radius());
        assert(a_secondary_radius_frac@ =~= crate::keys::k_secondary_radius_frac());
        assert(a_line_width@ =~= crate::keys::k_line_width());
        assert(a_start_angle@ =~= crate::keys::k_start_angle());
        assert(a_end_angle@ =~= crate::keys::k_end_angle());
        assert(a_color@ =~= crate::keys::k_color());
        assert(a_unique_id@ =~= crate::keys::k_unique_id());
        assert(crate::keys::k_owner_index() != crate::keys::k_owner_part_id()) by { assert(crate::keys::k_owner_index().len() != crate::keys::k_owner_part_id().len()); }
        assert(crate::keys::k_owner_index() != crate::keys::k_is_not_accesible()) by { assert(crate::keys::k_owner_index().len() != crate::keys::k_is_not_accesible().len()); }
        assert(crate::keys::k_owner_index() != crate::keys::k_index_in_sheet()) by { assert(crate::keys::k_owner_index().len() != crate::keys::k_index_in_sheet().len()); }
        assert(crate::keys::k_owner_index() != crate::keys::k_location_x()) by { assert(crate::keys::k_owner_index()[0] != crate::keys::k_location_x()[0]); }
        assert(crate::keys::k_owner_index() != crate::keys::k_location_y()) by { assert(crate::keys::k_owner_index()[0] != crate::keys::k_location_y()[0]); }
        assert(crate::keys::k_owner_index() != crate::keys::k_location_x_frac()) by { assert(crate::keys::k_owner_index().len() != crate::keys::k_location_x_frac().len()); }
        assert(crate::keys::k_owner_index() != crate::keys::k_location_y_frac()) by { assert(crate::keys::k_owner_index().len() != crate::keys::k_location_y_frac().len()); }
        assert(crate::keys::k_owner_index() != crate::keys::k_radius()) by { assert(crate::keys::k_owner_index().len() != crate::keys::k_radius().len()); }
        assert(crate::keys::k_owner_index() != crate::keys::k_radius_frac()) by { assert(crate::keys::k_owner_index().len() != crate::keys::k_radius_frac().len()); }
        assert(crate::keys::k_owner_index() != crate::keys::k_secondary_radius()) by { assert(crate::keys::k_owner_index().len() != crate::keys::k_secondary_radius().len()); }
        assert(crate::keys::k_owner_index() != crate::keys::k_secondary_radius_frac()) by { assert(crate::keys::k_owner_index().len() != crate::keys::k_secondary_radius_frac().len()); }
        assert(crate::keys::k_owner_index() != crate::keys::k_line_width()) by { assert(crate::keys::k_owner_index().len() != crate::keys::k_line_width().len()); }
        assert(crate::keys::k_owner_index() != crate::keys::k_start_angle()) by { assert(crate::keys::k_owner_index()[0] != crate::keys::k_start_angle()[0]); }
        assert(crate::keys::k_owner_index() != crate::keys::k_end_angle()) by { assert(crate::keys::k_owner_index().len() != crate::keys::k_end_angle().len()); }
        assert(crate::keys::k_owner_index() != crate::keys::k_color()) by { assert(crate::keys::k_owner_index().len() != crate::keys::k_color().len()); }
        assert(crate::keys::k_owner_index() != crate::keys::k_unique_id()) by { assert(crate::keys::k_owner_index().len() != crate::keys::k_unique_id().len()); }
        assert(crate::keys::k_owner_part_id() != crate::keys::k_is_not_accesible()) by { assert(crate::keys::k_owner_part_id().len() != crate::keys::k_is_not_accesible().len()); }
        assert(crate::keys::k_owner_part_id() != crate::keys::k_index_in_sheet()) by { assert(crate::keys::k_owner_part_id().len() != crate::keys::k_index_in_sheet().len()); }
        assert(crate::keys::k_owner_part_id() != crate::keys::k_location_x()) by { assert(crate::keys::k_owner_part_id().len() != crate::keys::k_location_x().len()); }
        assert(crate::keys::k_owner_part_id() != crate::keys::k_location_y()) by { assert(crate::keys::k_owner_part_id().len() != crate::keys::k_location_y().len()); }
        assert(crate::keys::k_owner_part_id() != crate::keys::k_location_x_frac()) by { assert(crate::keys::k_owner_part_id().len() != crate::keys::k_location_x_frac().len()); }
        assert(crate::keys::k_owner_part_id() != crate::keys::k_location_y_frac()) by { assert(crate::keys::k_owner_part_id().len() != crate::keys::k_location_y_frac().len()); }
        assert(crate::keys::k_owner_part_id() != crate::keys::k_radius()) by { assert(crate::keys::k_owner_part_id().len() != crate::keys::k_radius().len()); }
        assert(crate::keys::k_owner_part_id() != crate::keys::k_radius_frac()) by { assert(crate::keys::k_owner_part_id()[0] != crate::keys::k_radius_frac()[0]); }
        assert(crate::keys::k_owner_part_id() != crate::keys::k_secondary_radius()) by { assert(crate::keys::k_owner_part_id().len() != crate::keys::k_secondary_radius().len()); }
        assert(crate::keys::k_owner_part_id() != crate::keys::k_secondary_radius_frac()) by { assert(crate::keys::k_owner_part_id().len() != crate::keys::k_secondary_radius_frac().len()); }
        assert(crate::keys::k_owner_part_id() != crate::keys::k_line_width()) by { assert(crate::keys::k_owner_part_id().len() != crate::keys::k_line_width().len()); }
        assert(crate::keys::k_owner_part_id() != crate::keys::k_start_angle()) by { assert(crate::keys::k_owner_part_id().len() != crate::keys::k_start_angle().len()); }
        assert(crate::keys::k_owner_part_id() != crate::keys::k_end_angle()) by { assert(crate::keys::k_owner_part_id().len() != crate::keys::k_end_angle().len()); }
        assert(crate::keys::k_owner_part_id() != crate::keys::k_color()) by { assert(crate::keys::k_owner_part_id().len() != crate::keys::k_color().len()); }
        assert(crate::keys::k_owner_part_id() != crate::keys::k_unique_id()) by { assert(crate::keys::k_owner_part_id().len() != crate::keys::k_unique_id().len()); }
        assert(crate::keys::k_is_not_accesible() != crate::keys::k_index_in_sheet()) by { assert(crate::keys::k_is_not_accesible().len() != crate::keys::k_index_in_sheet().len()); }
        assert(crate::keys::k_is_not_accesible() != crate::keys::k_location_x()) by { assert(crate::keys::k_is_not_accesible().len() != crate::keys::k_location_x().len()); }
        assert(crate::keys::k_is_not_accesible() != crate::keys::k_location_y()) by { assert(crate::keys::k_is_not_accesible().len() != crate::keys::k_location_y().len()); }
        assert(crate::keys::k_is_not_accesible() != crate::keys::k_location_x_frac()) by { assert(crate::keys::k_is_not_accesible().len() != crate::keys::k_location_x_frac().len()); }
        assert(crate::keys::k_is_not_accesible() != crate::keys::k_location_y_frac()) by { assert(crate::keys::k_is_not_accesible().len() != crate::keys::k_location_y_frac().len()); }
        assert(crate::keys::k_is_not_accesible() != crate::keys::k_radius()) by { assert(crate::keys::k_is_not_accesible().len() != crate::keys::k_radius().len()); }
        assert(crate::keys::k_is_not_accesible() != crate::keys::k_radius_frac()) by { assert(crate::keys::k_is_not_accesible().len() != crate::keys::k_radius_frac().len()); }
        assert(crate::keys::k_is_not_accesible() != crate::keys::k_secondary_radius()) by { assert(crate::keys::k_is_not_accesible().len() != crate::keys::k_secondary_radius().len()); }
        assert(crate::keys::k_is_not_accesible() != crate::keys::k_secondary_radius_frac()) by { assert(crate::keys::k_is_not_accesible().len() != crate::keys::k_secondary_radius_frac().len()); }
        assert(crate::keys::k_is_not_accesible() != crate::keys::k_line_width()) by { assert(crate::keys::k_is_not_accesible().len() != crate::keys::k_line_width().len()); }
        assert(crate::keys::k_is_not_accesible() != crate::keys::k_start_angle()) by { assert(crate::keys::k_is_not_accesible().len() != crate::keys::k_start_angle().len()); }
        assert(crate::keys::k_is_not_accesible() != crate::keys::k_end_angle()) by { assert(crate::keys::k_is_not_accesible().len() != crate::keys::k_end_angle().len()); }
        assert(crate::keys::k_is_not_accesible() != crate::keys::k_color()) by { assert(crate::keys::k_is_not_accesible().len() != crate::keys::k_color().len()); }
        assert(crate::keys::k_is_not_accesible() != crate::keys::k_unique_id()) by { assert(crate::keys::k_is_not_accesible().len() != crate::keys::k_unique_id().len()); }
        assert(crate::keys::k_index_in_sheet() != crate::keys::k_location_x()) by { assert(crate::keys::k_index_in_sheet().len() != crate::keys::k_location_x().len()); }
        assert(crate::keys::k_index_in_sheet() != crate::keys::k_location_y()) by { assert(crate::keys::k_index_in_sheet().len() != crate::keys::k_location_y().len()); }
        assert(crate::keys::k_index_in_sheet() != crate::keys::k_location_x_frac()) by { assert(crate::keys::k_index_in_sheet().len() != crate::keys::k_location_x_frac().len()); }
        assert(crate::keys::k_index_in_sheet() != crate::keys::k_location_y_frac()) by { assert(crate::keys::k_index_in_sheet().len() != crate::keys::k_location_y_frac().len()); }
        assert(crate::keys::k_index_in_sheet() != crate::keys::k_radius()) by { assert(crate::keys::k_index_in_sheet().len() != crate::keys::k_radius().len()); }
        assert(crate::keys::k_index_in_sheet() != crate::keys::k_radius_frac()) by { assert(crate::keys::k_index_in_sheet().len() != crate::keys::k_radius_frac().len()); }
        assert(crate::keys::k_index_in_sheet() != crate::keys::k_secondary_radius()) by { assert(crate::keys::k_index_in_sheet().len() != crate::keys::k_secondary_radius().len()); }
        assert(crate::keys::k_index_in_sheet() != crate::keys::k_secondary_radius_frac()) by { assert(crate::keys::k_index_in_sheet().len() != crate::keys::k_secondary_radius_frac().len()); }
        assert(crate::keys::k_index_in_sheet() != crate::keys::k_line_width()) by { assert(crate::keys::k_index_in_sheet().len() != crate::keys::k_line_width().len()); }
        assert(crate::keys::k_index_in_sheet() != crate::keys::k_start_angle()) by { assert(crate::keys::k_index_in_sheet().len() != crate::keys::k_start_angle().len()); }
        assert(crate::keys::k_index_in_sheet() != crate::keys::k_end_angle()) by { assert(crate::keys::k_index_in_sheet().len() != crate::keys::k_end_angle().len()); }
        assert(crate::keys::k_index_in_sheet() != crate::keys::k_color()) by { assert(crate::keys::k_index_in_sheet().len() != crate::keys::k_color().len()); }
        assert(crate::keys::k_index_in_sheet() != crate::keys::k_unique_id()) by { assert(crate::keys::k_index_in_sheet().len() != crate::keys::k_unique_id().len()); }
        assert(crate::keys::k_location_x() != crate::keys::k_location_y()) by { assert(crate::keys::k_location_x()[9] != crate::keys::k_location_y()[9]); }
        assert(crate::keys::k_location_x() != crate::keys::k_location_x_frac()) by { assert(crate::keys::k_location_x().len() != crate::keys::k_location_x_frac().len()); }
        assert(crate::keys::k_location_x() != crate::keys::k_location_y_frac()) by { assert(crate::keys::k_location_x().len() != crate::keys::k_location_y_frac().len()); }
        assert(crate::keys::k_location_x() != crate::keys::k_radius()) by { assert(crate::keys::k_location_x().len() != crate::keys::k_radius().len()); }
        assert(crate::keys::k_location_x() != crate::keys::k_radius_frac()) by { assert(crate::keys::k_location_x().len() != crate::keys::k_radius_frac().len()); }
        assert(crate::keys::k_location_x() != crate::keys::k_secondary_radius()) by { assert(crate::keys::k_location_x().len() != crate::keys::k_secondary_radius().len()); }
        assert(crate::keys::k_location_x() != crate::keys::k_secondary_radius_frac()) by { assert(crate::keys::k_location_x().len() != crate::keys::k_secondary_radius_frac().len()); }
        assert(crate::keys::k_location_x() != crate::keys::k_line_width()) by { assert(crate::keys::k_location_x().len() != crate::keys::k_line_width().len()); }
        assert(crate::keys::k_location_x() != crate::keys::k_start_angle()) by { assert(crate::keys::k_location_x()[0] != crate::keys::k_start_angle()[0]); }
        assert(crate::keys::k_location_x() != crate::keys::k_end_angle()) by { assert(crate::keys::k_location_x().len() != crate::keys::k_end_angle().len()); }
        assert(crate::keys::k_location_x() != crate::keys::k_color()) by { assert(crate::keys::k_location_x().len() != crate::keys::k_color().len()); }
        assert(crate::keys::k_location_x() != crate::keys::k_unique_id()) by { assert(crate::keys::k_location_x().len() != crate::keys::k_unique_id().len()); }
        assert(crate::keys::k_location_y() != crate::keys::k_location_x_frac()) by { assert(crate::keys::k_location_y().len() != crate::keys::k_location_x_frac().len()); }
        assert(crate::keys::k_location_y() != crate::keys::k_location_y_frac()) by { assert(crate::keys::k_location_y().len() != crate::keys::k_location_y_frac().len()); }
        assert(crate::keys::k_location_y() != crate::keys::k_radius()) by { assert(crate::keys::k_location_y().len() != crate::keys::k_radius().len()); }
        assert(crate::keys::k_location_y() != crate::keys::k_radius_frac()) by { assert(crate::keys::k_location_y().len() != crate::keys::k_radius_frac().len()); }
        assert(crate::keys::k_location_y() != crate::keys::k_secondary_radius()) by { assert(crate::keys::k_location_y().len() != crate::keys::k_secondary_radius().len()); }
        assert(crate::keys::k_location_y() != crate::keys::k_secondary_radius_frac()) by { assert(crate::keys::k_location_y().len() != crate::keys::k_secondary_radius_frac().len()); }
        assert(crate::keys::k_location_y() != crate::keys::k_line_width()) by { assert(crate::keys::k_location_y().len() != crate::keys::k_line_width().len()); }
        assert(crate::keys::k_location_y() != crate::keys::k_start_angle()) by { assert(crate::keys::k_location_y()[0] != crate::keys::k_start_angle()[0]); }
        assert(crate::keys::k_location_y() != crate::keys::k_end_angle()) by { assert(crate::keys::k_location_y().len() != crate::keys::k_end_angle().len()); }
        assert(crate::keys::k_location_y() != crate::keys::k_color()) by { assert(crate::keys::k_location_y().len() != crate::keys::k_color().len()); }
        assert(crate::keys::k_location_y() != crate::keys::k_unique_id()) by { assert(crate::keys::k_location_y().len() != crate::keys::k_unique_id().len()); }
        assert(crate::keys::k_location_x_frac() != crate::keys::k_location_y_frac()) by { assert(crate::keys::k_location_x_frac()[9] != crate::keys::k_location_y_frac()[9]); }
        assert(crate::keys::k_location_x_frac() != crate::keys::k_radius()) by { assert(crate::keys::k_location_x_frac().len() != crate::keys::k_radius().len()); }
        assert(crate::keys::k_location_x_frac() != crate::keys::k_radius_frac()) by { assert(crate::keys::k_location_x_frac().len() != crate::keys::k_radius_frac().len()); }
        assert(crate::keys::k_location_x_frac() != crate::keys::k_secondary_radius()) by { assert(crate::keys::k_location_x_frac()[0] != crate::keys::k_secondary_radius()[0]); }
        assert(crate::keys::k_location_x_frac() != crate::keys::k_secondary_radius_frac()) by { assert(crate::keys::k_location_x_frac().len() != crate::keys::k_secondary_radius_frac().len()); }
        assert(crate::keys::k_location_x_frac() != crate::keys::k_line_width()) by { assert(crate::keys::k_location_x_frac().len() != crate::keys::k_line_width().len()); }
        assert(crate::keys::k_location_x_frac() != crate::keys::k_start_angle()) by { assert(crate::keys::k_location_x_frac().len() != crate::keys::k_start_angle().len()); }
        assert(crate::keys::k_location_x_frac() != crate::keys::k_end_angle()) by { assert(crate::keys::k_location_x_frac().len() != crate::keys::k_end_angle().len()); }
        assert(crate::keys::k_location_x_frac() != crate::keys::k_color()) by { assert(crate::keys::k_location_x_frac().len() != crate::keys::k_color().len()); }
        assert(crate::keys::k_location_x_frac() != crate::keys::k_unique_id()) by { assert(crate::keys::k_location_x_frac().len() != crate::keys::k_unique_id().len()); }
        assert(crate::keys::k_location_y_frac() != crate::keys::k_radius()) by { assert(crate::keys::k_location_y_frac().len() != crate::keys::k_radius().len()); }
        assert(crate::keys::k_location_y_frac() != crate::keys::k_radius_frac()) by { assert(crate::keys::k_location_y_frac().len() != crate::keys::k_radius_frac().len()); }
        assert(crate::keys::k_location_y_frac() != crate::keys::k_secondary_radius()) by { assert(crate::keys::k_location_y_frac()[0] != crate::keys::k_secondary_radius()[0]); }
        assert(crate::keys::k_location_y_frac() != crate::keys::k_secondary_radius_frac()) by { assert(crate::keys::k_location_y_frac().len() != crate::keys::k_secondary_radius_frac().len()); }
        assert(crate::keys::k_location_y_frac() != crate::keys::k_line_width()) by { assert(crate::keys::k_location_y_frac().len() != crate::keys::k_line_width().len()); }
        assert(crate::keys::k_location_y_frac() != crate::keys::k_start_angle()) by { assert(crate::keys::k_location_y_frac().len() != crate::keys::k_start_angle().len()); }
        assert(crate::keys::k_location_y_frac() != crate::keys::k_end_angle()) by { assert(crate::keys::k_location_y_frac().len() != crate::keys::k_end_angle().len()); }
        assert(crate::keys::k_location_y_frac() != crate::keys::k_color()) by { assert(crate::keys::k_location_y_frac().len() != crate::keys::k_color().len()); }
        assert(crate::keys::k_location_y_frac() != crate::keys::k_unique_id()) by { assert(crate::keys::k_location_y_frac().len() != crate::keys::k_unique_id().len()); }
        assert(crate::keys::k_radius() != crate::keys::k_radius_frac()) by { assert(crate::keys::k_radius().len() != crate::keys::k_radius_frac().len()); }
        assert(crate::keys::k_radius() != crate::keys::k_secondary_radius()) by { assert(crate::keys::k_radius().len() != crate::keys::k_secondary_radius().len()); }
        assert(crate::keys::k_radius() != crate::keys::k_secondary_radius_frac()) by { assert(crate::keys::k_radius().len() != crate::keys::k_secondary_radius_frac().len()); }
        assert(crate::keys::k_radius() != crate::keys::k_line_width()) by { assert(crate::keys::k_radius().len() != crate::keys::k_line_width().len()); }
        assert(crate::keys::k_radius() != crate::keys::k_start_angle()) by { assert(crate::keys::k_radius().len() != crate::keys::k_start_angle().len()); }
        assert(crate::keys::k_radius() != crate::keys::k_end_angle()) by { assert(crate::keys::k_radius().len() != crate::keys::k_end_angle().len()); }
        assert(crate::keys::k_radius() != crate::keys::k_color()) by { assert(crate::keys::k_radius().len() != crate::keys::k_color().len()); }
        assert(crate::keys::k_radius() != crate::keys::k_unique_id()) by { assert(crate::keys::k_radius().len() != crate::keys::k_unique_id().len()); }
        assert(crate::keys::k_radius_frac() != crate::keys::k_secondary_radius()) by { assert(crate::keys::k_radius_frac().len() != crate::keys::k_secondary_radius().len()); }
        assert(crate::keys::k_radius_frac() != crate::keys::k_secondary_radius_frac()) by { assert(crate::keys::k_radius_frac().len() != crate::keys::k_secondary_radius_frac().len()); }
        assert(crate::keys::k_radius_frac() != crate::keys::k_line_width()) by { assert(crate::keys::k_radius_frac().len() != crate::keys::k_line_width().len()); }
        assert(crate::keys::k_radius_frac() != crate::keys::k_start_angle()) by { assert(crate::keys::k_radius_frac().len() != crate::keys::k_start_angle().len()); }
        assert(crate::keys::k_radius_frac() != crate::keys::k_end_angle()) by { assert(crate::keys::k_radius_frac().len() != crate::keys::k_end_angle().len()); }
        assert(crate::keys::k_radius_frac() != crate::keys::k_color()) by { assert(crate::keys::k_radius_frac().len() != crate::keys::k_color().len()); }
        assert(crate::keys::k_radius_frac() != crate::keys::k_unique_id()) by { assert(crate::keys::k_radius_frac().len() != crate::keys::k_unique_id().len()); }
        assert(crate::keys::k_secondary_radius() != crate::keys::k_secondary_radius_frac()) by { assert(crate::keys::k_secondary_radius().len() != crate::keys::k_secondary_radius_frac().len()); }
        assert(crate::keys::k_secondary_radius() != crate::keys::k_line_width()) by { assert(crate::keys::k_secondary_radius().len() != crate::keys::k_line_width().len()); }
        assert(crate::keys::k_secondary_radius() != crate::keys::k_start_angle()) by { assert(crate::keys::k_secondary_radius().len() != crate::keys::k_start_angle().len()); }
        assert(crate::keys::k_secondary_radius() != crate::keys::k_end_angle()) by { assert(crate::keys::k_secondary_radius().len() != crate::keys::k_end_angle().len()); }
        assert(crate::keys::k_secondary_radius() != crate::keys::k_color()) by { assert(crate::keys::k_secondary_radius().len() != crate::keys::k_color().len()); }
        assert(crate::keys::k_secondary_radius() != crate::keys::k_unique_id()) by { assert(crate::keys::k_secondary_radius().len() != crate::keys::k_unique_id().len()); }
        assert(crate::keys::k_secondary_radius_frac() != crate::keys::k_line_width()) by { assert(crate::keys::k_secondary_radius_frac().len() != crate::keys::k_line_width().len()); }
        assert(crate::keys::k_secondary_radius_frac() != crate::keys::k_start_angle()) by { assert(crate::keys::k_secondary_radius_frac().len() != crate::keys::k_start_angle().len()); }
        assert(crate::keys::k_secondary_radius_frac() != crate::keys::k_end_angle()) by { assert(crate::keys::k_secondary_radius_frac().len() != crate::keys::k_end_angle().len()); }
        assert(crate::keys::k_secondary_radius_frac() != crate::keys::k_color()) by { assert(crate::keys::k_secondary_radius_frac().len() != crate::keys::k_color().len()); }
        assert(crate::keys::k_secondary_radius_frac() != crate::keys::k_unique_id()) by { assert(crate::keys::k_secondary_radius_frac().len() != crate::keys::k_unique_id().len()); }
        assert(crate::keys::k_line_width() != crate::keys::k_start_angle()) by { assert(crate::keys::k_line_width().len() != crate::keys::k_start_angle().len()); }
        assert(crate::keys::k_line_width() != crate::keys::k_end_angle()) by { assert(crate::keys::k_line_width().len() != crate::keys::k_end_angle().len()); }
        assert(crate::keys::k_line_width() != crate::keys::k_color()) by { assert(crate::keys::k_line_width().len() != crate::keys::k_color().len()); }
        assert(crate::keys::k_line_width() != crate::keys::k_unique_id()) by { assert(crate::keys::k_line_width().len() != crate::keys::k_unique_id().len()); }
        assert(crate::keys::k_start_angle() != crate::keys::k_end_angle()) by { assert(crate::keys::k_start_angle().len() != crate::keys::k_end_angle().len()); }
        assert(crate::keys::k_start_angle() != crate::keys::k_color()) by { assert(crate::keys::k_start_angle().len() != crate::keys::k_color().len()); }
        assert(crate::keys::k_start_angle() != crate::keys::k_unique_id()) by { assert(crate::keys::k_start_angle().len() != crate::keys::k_unique_id().len()); }
        assert(crate::keys::k_end_angle() != crate::keys::k_color()) by { assert(crate::keys::k_end_angle().len() != crate::keys::k_color().len()); }
        assert(crate::keys::k_end_angle() != crate::keys::k_unique_id()) by { assert(crate::keys::k_end_angle()[0] != crate::keys::k_unique_id()[0]); }
        assert(crate::keys::k_color() != crate::keys::k_unique_id()) by { assert(crate::keys::k_color().len() != crate::keys::k_unique_id().len()); }
    }
        let mut x = ElipticalArc {
        owner_index: 0,
        owner_part_id: 0,
        is_not_accessible: false,
        index_in_sheet: 0,
        location: LocationFract { x: 0, x_fract: 0, y: 0, y_fract: 0 },
        radius: 0,
        radius_frac: 0,
        secondary_radius: 0,
        secondary_radius_frac: 0,
        line_width: 0,
        start_angle: String::new(),
        end_angle: String::new(),
        color: Rgb { r: 0, g: 0, b: 0 },
        unique_id: UniqueId::Simple([0x30u8, 0x30u8, 0x30u8, 0x30u8, 0x30u8, 0x30u8, 0x30u8, 0x30u8]),
        };

        let n = pairs.len();
        let mut i: usize = 0;
        while i < n
            invariant
                0 <= i <= n,
                n == pairs@.len(),
                !ElipticalArc::spec_fails(p.take(i as int)),
                ElipticalArc::spec_matches(x, p.take(i as int)),

                counter.count == sat_add(old(counter).count, ElipticalArc::spec_unknown(p.take(i as int))),
                0 <= ElipticalArc::spec_unknown(p.take(i as int)) <= i,
            decreases n - i,
        {
            let key: &[u8] = pairs[i].0.as_slice();
            let val: &[u8] = pairs[i].1.as_slice();
            proof {
                assert(p[i as int] == (pairs@[i as int].0@, pairs@[i as int].1@));
                assert(p.take(i as int + 1).drop_last() =~= p.take(i as int));
                assert(p.take(i as int + 1).last() == p[i as int]);
                assert forall|j: int| 0 <= j <= i implies #[trigger] p.take(i as int + 1).take(j)
                    == p.take(j) by {
                    assert(p.take(i as int + 1).take(j) =~= p.take(j));
                }
                assert forall|j: int| 0 <= j <= i implies #[trigger] p.take(i as int).take(j)
                    == p.take(j) by {
                    assert(p.take(i as int).take(j) =~= p.take(j));
                }
            }
        if crate::common::bytes_eq(key, a_owner_index.as_slice()) {
                    match crate::parse::parse_u8(val) {
                        Ok(v) => { x.owner_index = v; },
                        Err(e) => {
                            proof {
                                assert(p[i as int].0 == crate::keys::k_owner_index());
                                assert(kind_field_fails(p, FieldKind::U8, crate::keys::k_owner_index()));
                            }
                            return Err(e);
                        },
                    }
                }
        else if crate::common::bytes_eq(key, a_owner_part_id.as_slice()) {
                    match crate::parse::parse_i8(val) {
                        Ok(v) => { x.owner_part_id = v; },
                        Err(e) => {
                            proof {
                                assert(p[i as int].0 == crate::keys::k_owner_part_id());
                                assert(kind_field_fails(p, FieldKind::I8, crate::keys::k_owner_part_id()));
                            }
                            return Err(e);
                        },
                    }
                }
        else if crate::common::bytes_eq(key, a_is_not_accesible.as_slice()) {
                    match crate::parse::parse_bool(val) {
                        Ok(v) => { x.is_not_accessible = v; },
                        Err(e) => {
                            proof {
                                assert(p[i as int].0 == crate::keys::k_is_not_accesible());
                                assert(kind_field_fails(p, FieldKind::Bool, crate::keys::k_is_not_accesible()));
                            }
                            return Err(e);
                        },
                    }
                }
        else if crate::common::bytes_eq(key, a_index_in_sheet.as_slice()) {
                    match crate::parse::parse_i16(val) {
                        Ok(v) => { x.index_in_sheet = v; },
                        Err(e) => {
                            proof {
                                assert(p[i as int].0 == crate::keys::k_index_in_sheet());
                                assert(kind_field_fails(p, FieldKind::I16, crate::keys::k_index_in_sheet()));
                            }
                            return Err(e);
                        },
                    }
                }
        else if crate::common::bytes_eq(key, a_location_x.as_slice()) {
                    match crate::parse::parse_i32(val) {
                        Ok(v) => { x.location.x = v; },
                        Err(e) => {
                            proof {
                                assert(p[i as int].0 == crate::keys::k_location_x());
                                assert(kind_field_fails(p, FieldKind::I32, crate::keys::k_location_x()));
                            }
                            return Err(e);
                        },
                    }
                }
        else if crate::common::bytes_eq(key, a_location_y.as_slice()) {
                    match crate::parse::parse_i32(val) {
                        Ok(v) => { x.location.y = v; },
                        Err(e) => {
                            proof {
                                assert(p[i as int].0 == crate::keys::k_location_y());
                                assert(kind_field_fails(p, FieldKind::I32, crate::keys::k_location_y()));
                            }
                            return Err(e);
                        },
                    }
                }
        else if crate::common::bytes_eq(key, a_location_x_frac.as_slice()) {
                    match crate::parse::parse_i32(val) {
                        Ok(v) => { x.location.x_fract = v; },
                        Err(e) => {
                            proof {
                                assert(p[i as int].0 == crate::keys::k_location_x_frac());
                                assert(kind_field_fails(p, FieldKind::I32, crate::keys::k_location_x_frac()));
                            }
                            return Err(e);
                        },
                    }
                }
        else if crate::common::bytes_eq(key, a_location_y_frac.as_slice()) {
                    match crate::parse::parse_i32(val) {
                        Ok(v) => { x.location.y_fract = v; },
                        Err(e) => {
                            proof {
                                assert(p[i as int].0 == crate::keys::k_location_y_frac());
                                assert(kind_field_fails(p, FieldKind::I32, crate::keys::k_location_y_frac()));
                            }
                            return Err(e);
                        },
                    }
                }
        else if crate::common::bytes_eq(key, a_radius.as_slice()) {
                    match crate::parse::parse_i8(val) {
                        Ok(v) => { x.radius = v; },
                        Err(e) => {
                            proof {
                                assert(p[i as int].0 == crate::keys::k_radius());
                                assert(kind_field_fails(p, FieldKind::I8, crate::keys::k_radius()));
                            }
                            return Err(e);
                        },
                    }
                }
        else if crate::common::bytes_eq(key, a_radius_frac.as_slice()) {
                    match crate::parse::parse_i32(val) {
                        Ok(v) => { x.radius_frac = v; },
                        Err(e) => {
                            proof {
                                assert(p[i as int].0 == crate::keys::k_radius_frac());
                                assert(kind_field_fails(p, FieldKind::I32, crate::keys::k_radius_frac()));
                            }
                            return Err(e);
                        },
                    }
                }
        else if crate::common::bytes_eq(key, a_secondary_radius.as_slice()) {
                    match crate::parse::parse_i8(val) {
                        Ok(v) => { x.secondary_radius = v; },
                        Err(e) => {
                            proof {
                                assert(p[i as int].0 == crate::keys::k_secondary_radius());
                                assert(kind_field_fails(p, FieldKind::I8, crate::keys::k_secondary_radius()));
                            }
                            return Err(e);
                        },
                    }
                }
        else if crate::common::bytes_eq(key, a_secondary_radius_frac.as_slice()) {
                    match crate::parse::parse_i32(val) {
                        Ok(v) => { x.secondary_radius_frac = v; },
                        Err(e) => {
                            proof {
                                assert(p[i as int].0 == crate::keys::k_secondary_radius_frac());
                                assert(kind_field_fails(p, FieldKind::I32, crate::keys::k_secondary_radius_frac()));
                            }
                            return Err(e);
                        },
                    }
                }
        else if crate::common::bytes_eq(key, a_line_width.as_slice()) {
                    match crate::parse::parse_i32(val) {
                        Ok(n) => match crate::common::mils_to_nm_i32(n) {
                            Ok(v) => { x.line_width = v; },
                            Err(e) => {
                                proof {
                                    assert(p[i as int].0 == crate::keys::k_line_width());
                                    assert(kind_field_fails(p, FieldKind::MilsI32, crate::keys::k_line_width()));
                                }
                                return Err(e);
                            },
                        },
                        Err(e) => {
                            proof {
                                assert(p[i as int].0 == crate::keys::k_line_width());
                                assert(kind_field_fails(p, FieldKind::MilsI32, crate::keys::k_line_width()));
                            }
                            return Err(e);
                        },
                    }
                }
        else if crate::common::bytes_eq(key, a_start_angle.as_slice()) {
                    x.start_angle = crate::common::buf2lstr(val);
                }
        else if crate::common::bytes_eq(key, a_end_angle.as_slice()) {
                    x.end_angle = crate::common::buf2lstr(val);
                }
        else if crate::common::bytes_eq(key, a_color.as_slice()) {
                    match Rgb::from_utf8(val) {
                        Ok(v) => { x.color = v; },
                        Err(e) => {
                            proof {
                                assert(p[i as int].0 == crate::keys::k_color());
                                assert(kind_field_fails(p, FieldKind::Color, crate::keys::k_color()));
                            }
                            return Err(e);
                        },
                    }
                }
        else if crate::common::bytes_eq(key, a_unique_id.as_slice()) {
                    match UniqueId::from_utf8(val) {
                        Ok(v) => { x.unique_id = v; },
                        Err(e) => {
                            proof {
                                assert(p[i as int].0 == crate::keys::k_unique_id());
                                assert(kind_field_fails(p, FieldKind::Uid, crate::keys::k_unique_id()));
                            }
                            return Err(e);
                        },
                    }
                }
        else {
            crate::logging::macro_unsupported_key(counter, "ElipticalArc", key, val);
        }
            i += 1;
        }
        proof {
            assert(p.take(n as int) =~= p);
        }
        Ok(x)
    }
}

impl Arc {
    /// The wire record ID of this kind.
    pub open spec fn spec_record_id() -> u32 {
        12
    }

    /// Whether the binder recognizes this wire key.
    pub open spec fn spec_known_key(k: Seq<u8>) -> bool {
        ||| k == crate::keys::k_owner_index()
        ||| k == crate::keys::k_owner_part_id()
        ||| k == crate::keys::k_is_not_accesible()
        ||| k == crate::keys::k_index_in_sheet()
        ||| k == crate::keys::k_location_x()
        ||| k == crate::keys::k_location_y()
        ||| k == crate::keys::k_location_x_frac()
        ||| k == crate::keys::k_location_y_frac()
        ||| k == crate::keys::k_radius()
        ||| k == crate::keys::k_radius_frac()
        ||| k == crate::keys::k_secondary_radius()
        ||| k == crate::keys::k_secondary_radius_frac()
        ||| k == crate::keys::k_line_width()
        ||| k == crate::keys::k_start_angle()
        ||| k == crate::keys::k_end_angle()
        ||| k == crate::keys::k_color()
        ||| k == crate::keys::k_unique_id()
    }

    /// How many pairs hold keys the binder does not recognize.
    pub open spec fn spec_unknown(p: SpecPairs) -> int
        decreases p.len(),
    {
        if p.len() == 0 {
            0
        } else {
            Self::spec_unknown(p.drop_last()) + if Self::spec_known_key(p.last().0) {
                0int
            } else {
                1int
            }
        }
    }

    /// Whether some pair's value is one its field's parser rejects.
    pub open spec fn spec_fails(p: SpecPairs) -> bool {
        ||| kind_field_fails(p, FieldKind::U8, crate::keys::k_owner_index())
        ||| kind_field_fails(p, FieldKind::I8, crate::keys::k_owner_part_id())
        ||| kind_field_fails(p, FieldKind::Bool, crate::keys::k_is_not_accesible())
        ||| kind_field_fails(p, FieldKind::I16, crate::keys::k_index_in_sheet())
        ||| kind_field_fails(p, FieldKind::I32, crate::keys::k_location_x())
        ||| kind_field_fails(p, FieldKind::I32, crate::keys::k_location_y())
        ||| kind_field_fails(p, FieldKind::I32, crate::keys::k_location_x_frac())
        ||| kind_field_fails(p, FieldKind::I32, crate::keys::k_location_y_frac())
        ||| kind_field_fails(p, FieldKind::I8, crate::keys::k_radius())
        ||| kind_field_fails(p, FieldKind::I32, crate::keys::k_radius_frac())
        ||| kind_field_fails(p, FieldKind::I8, crate::keys::k_secondary_radius())
        ||| kind_field_fails(p, FieldKind::I32, crate::keys::k_secondary_radius_frac())
        ||| kind_field_fails(p, FieldKind::MilsI32, crate::keys::k_line_width())
        ||| kind_field_fails(p, FieldKind::Color, crate::keys::k_color())
        ||| kind_field_fails(p, FieldKind::Uid, crate::keys::k_unique_id())
    }

    /// Each field as the walk of the pairs leaves it.
    pub open spec fn spec_matches(x: Arc, p: SpecPairs) -> bool {
        &&& x.owner_index == u8_field(p, crate::keys::k_owner_index())
        &&& x.owner_part_id == i8_field(p, crate::keys::k_owner_part_id())
        &&& x.is_not_accessible == bool_field(p, crate::keys::k_is_not_accesible())
        &&& x.index_in_sheet == i16_field(p, crate::keys::k_index_in_sheet())
        &&& x.location == locf_field(p, crate::keys::k_location_x(), crate::keys::k_location_y(), crate::keys::k_location_x_frac(), crate::keys::k_location_y_frac())
        &&& x.radius == i8_field(p, crate::keys::k_radius())
        &&& x.radius_frac == i32_field(p, crate::keys::k_radius_frac())
        &&& x.secondary_radius == i8_field(p, crate::keys::k_secondary_radius())
        &&& x.secondary_radius_frac == i32_field(p, crate::keys::k_secondary_radius_frac())
        &&& x.line_width == mils_i32_field(p, crate::keys::k_line_width())
        &&& x.start_angle@ == raw_field(p, crate::keys::k_start_angle())
        &&& x.end_angle@ == raw_field(p, crate::keys::k_end_angle())
        &&& x.color == color_field(p, crate::keys::k_color())
        &&& x.unique_id == uid_field(p, crate::keys::k_unique_id())
    }

    /// Bind the fields of one `Arc` record from its key-value pairs.
    #[verifier::loop_isolation(false)]
    #[verifier::rlimit(100)]
    pub fn from_record(pairs: &[(Vec<u8>, Vec<u8>)], counter: &mut UnsupportedCounter) -> (r:
        Result<Arc, ErrorKind>)
        ensures
            r is Ok <==> !Arc::spec_fails(pairs_view(pairs@)),
            r is Ok ==> Arc::spec_matches(r->Ok_0, pairs_view(pairs@)),
            r is Ok ==> final(counter).count == sat_add(
                old(counter).count,
                Arc::spec_unknown(pairs_view(pairs@)),
            ),
            final(counter).count >= old(counter).count,
    {
        let ghost p = pairs_view(pairs@);
        proof {
            crate::common::lemma_pairs_view(pairs@);
            assert(p.take(0) =~= Seq::<(Seq<u8>, Seq<u8>)>::empty());
        }
    let a_owner_index: [u8; 10] = [0x4fu8, 0x77u8, 0x6eu8, 0x65u8, 0x72u8, 0x49u8, 0x6eu8, 0x64u8, 0x65u8, 0x78u8];
    let a_owner_part_id: [u8; 11] = [0x4fu8, 0x77u8, 0x6eu8, 0x65u8, 0x72u8, 0x50u8, 0x61u8, 0x72u8, 0x74u8, 0x49u8, 0x64u8];
    let a_is_not_accesible: [u8; 14] = [0x49u8, 0x73u8, 0x4eu8, 0x6fu8, 0x74u8, 0x41u8, 0x63u8, 0x63u8, 0x65u8, 0x73u8, 0x69u8, 0x62u8, 0x6cu8, 0x65u8];
    let a_index_in_sheet: [u8; 12] = [0x49u8, 0x6eu8, 0x64u8, 0x65u8, 0x78u8, 0x49u8, 0x6eu8, 0x53u8, 0x68u8, 0x65u8, 0x65u8, 0x74u8];
    let a_location_x: [u8; 10] = [0x4cu8, 0x6fu8, 0x63u8, 0x61u8, 0x74u8, 0x69u8, 0x6fu8, 0x6eu8, 0x2eu8, 0x58u8];
    let a_location_y: [u8; 10] = [0x4cu8, 0x6fu8, 0x63u8, 0x61u8, 0x74u8, 0x69u8, 0x6fu8, 0x6eu8, 0x2eu8, 0x59u8];
    let a_location_x_frac: [u8; 15] = [0x4cu8, 0x6fu8, 0x63u8, 0x61u8, 0x74u8, 0x69u8, 0x6fu8, 0x6eu8, 0x2eu8, 0x58u8, 0x5fu8, 0x46u8, 0x72u8, 0x61u8, 0x63u8];
    let a_location_y_frac: [u8; 15] = [0x4cu8, 0x6fu8, 0x63u8, 0x61u8, 0x74u8, 0x69u8, 0x6fu8, 0x6eu8, 0x2eu8, 0x59u8, 0x5fu8, 0x46u8, 0x72u8, 0x61u8, 0x63u8];
    let a_radius: [u8; 6] = [0x52u8, 0x61u8, 0x64u8, 0x69u8, 0x75u8, 0x73u8];
    let a_radius_frac: [u8; 11] = [0x52u8, 0x61u8, 0x64u8, 0x69u8, 0x75u8, 0x73u8, 0x5fu8, 0x46u8, 0x72u8, 0x61u8, 0x63u8];
    let a_secondary_radius: [u8; 15] = [0x53u8, 0x65u8, 0x63u8, 0x6fu8, 0x6eu8, 0x64u8, 0x61u8, 0x72u8, 0x79u8, 0x52u8, 0x61u8, 0x64u8, 0x69u8, 0x75u8, 0x73u8];
    let a_secondary_radius_frac: [u8; 20] = [0x53u8, 0x65u8, 0x63u8, 0x6fu8, 0x6eu8, 0x64u8, 0x61u8, 0x72u8, 0x79u8, 0x52u8, 0x61u8, 0x64u8, 0x69u8, 0x75u8, 0x73u8, 0x5fu8, 0x46u8, 0x72u8, 0x61u8, 0x63u8];
    let a_line_width: [u8; 9] = [0x4cu8, 0x69u8, 0x6eu8, 0x65u8, 0x57u8, 0x69u8, 0x64u8, 0x74u8, 0x68u8];
    let a_start_angle: [u8; 10] = [0x53u8, 0x74u8, 0x61u8, 0x72u8, 0x74u8, 0x41u8, 0x6eu8, 0x67u8, 0x6cu8, 0x65u8];
    let a_end_angle: [u8; 8] = [0x45u8, 0x6eu8, 0x64u8, 0x41u8, 0x6eu8, 0x67u8, 0x6cu8, 0x65u8];
    let a_color: [u8; 5] = [0x43u8, 0x6fu8, 0x6cu8, 0x6fu8, 0x72u8];
    let a_unique_id: [u8; 8] = [0x55u8, 0x6eu8, 0x69u8, 0x71u8, 0x75u8, 0x65u8, 0x49u8, 0x44u8];
    proof {
        assert(a_owner_index@ =~= crate::keys::k_owner_index());
        assert(a_owner_part_id@ =~= crate::keys::k_owner_part_id());
        assert(a_is_not_accesible@ =~= crate::keys::k_is_not_accesible());
        assert(a_index_in_sheet@ =~= crate::keys::k_index_in_sheet());
        assert(a_location_x@ =~= crate::keys::k_location_x());
        assert(a_location_y@ =~= crate::keys::k_location_y());
        assert(a_location_x_frac@ =~= crate::keys::k_location_x_frac());
        assert(a_location_y_frac@ =~= crate::keys::k_location_y_frac());
        assert(a_radius@ =~= crate::keys::k_radius());
        assert(a_radius_frac@ =~= crate::keys::k_radius_frac());
        assert(a_secondary_radius@ =~= crate::keys::k_secondary_radius());
        assert(a_secondary_radius_frac@ =~= crate::keys::k_secondary_radius_frac());
        assert(a_line_width@ =~= crate::keys::k_line_width());
        assert(a_start_angle@ =~= crate::keys::k_start_angle());
        assert(a_end_angle@ =~= crate::keys::k_end_angle());
        assert(a_color@ =~= crate::keys::k_color());
        assert(a_unique_id@ =~= crate::keys::k_unique_id());
        assert(crate::keys::k_owner_index() != crate::keys::k_owner_part_id()) by { assert(crate::keys::k_owner_index().len() != crate::keys::k_owner_part_id().len()); }
        assert(crate::keys::k_owner_index() != crate::keys::k_is_not_accesible()) by { assert(crate::keys::k_owner_index().len() != crate::keys::k_is_not_accesible().len()); }
        assert(crate::keys::k_owner_index() != crate::keys::k_index_in_sheet()) by { assert(crate::keys::k_owner_index().len() != crate::keys::k_index_in_sheet().len()); }
        assert(crate::keys::k_owner_index() != crate::keys::k_location_x()) by { assert(crate::keys::k_owner_index()[0] != crate::keys::k_location_x()[0]); }
        assert(crate::keys::k_owner_index() != crate::keys::k_location_y()) by { assert(crate::keys::k_owner_index()[0] != crate::keys::k_location_y()[0]); }
        assert(crate::keys::k_owner_index() != crate::keys::k_location_x_frac()) by { assert(crate::keys::k_owner_index().len() != crate::keys::k_location_x_frac().len()); }
        assert(crate::keys::k_owner_index() != crate::keys::k_location_y_frac()) by { assert(crate::keys::k_owner_index().len() != crate::keys::k_location_y_frac().len()); }
        assert(crate::keys::k_owner_index() != crate::keys::k_radius()) by { assert(crate::keys::k_owner_index().len() != crate::keys::k_radius().len()); }
        assert(crate::keys::k_owner_index() != crate::keys::k_radius_frac()) by { assert(crate::keys::k_owner_index().len() != crate::keys::k_radius_frac().len()); }
        assert(crate::keys::k_owner_index() != crate::keys::k_secondary_radius()) by { assert(crate::keys::k_owner_index().len() != crate::keys::k_secondary_radius().len()); }
        assert(crate::keys::k_owner_index() != crate::keys::k_secondary_radius_frac()) by { assert(crate::keys::k_owner_index().len() != crate::keys::k_secondary_radius_frac().len()); }
        assert(crate::keys::k_owner_index() != crate::keys::k_line_width()) by { assert(crate::keys::k_owner_index().len() != crate::keys::k_line_width().len()); }
        assert(crate::keys::k_owner_index() != crate::keys::k_start_angle()) by { assert(crate::keys::k_owner_index()[0] != crate::keys::k_start_angle()[0]); }
        assert(crate::keys::k_owner_index() != crate::keys::k_end_angle()) by { assert(crate::keys::k_owner_index().len() != crate::keys::k_end_angle().len()); }
        assert(crate::keys::k_owner_index() != crate::keys::k_color()) by { assert(crate::keys::k_owner_index().len() != crate::keys::k_color().len()); }
        assert(crate::keys::k_owner_index() != crate::keys::k_unique_id()) by { assert(crate::keys::k_owner_index().len() != crate::keys::k_unique_id().len()); }
        assert(crate::keys::k_owner_part_id() != crate::keys::k_is_not_accesible()) by { assert(crate::keys::k_owner_part_id().len() != crate::keys::k_is_not_accesible().len()); }
        assert(crate::keys::k_owner_part_id() != crate::keys::k_index_in_sheet()) by { assert(crate::keys::k_owner_part_id().len() != crate::keys::k_index_in_sheet().len()); }
        assert(crate::keys::k_owner_part_id() != crate::keys::k_location_x()) by { assert(crate::keys::k_owner_part_id().len() != crate::keys::k_location_x().len()); }
        assert(crate::keys::k_owner_part_id() != crate::keys::k_location_y()) by { assert(crate::keys::k_owner_part_id().len() != crate::keys::k_location_y().len()); }
        assert(crate::keys::k_owner_part_id() != crate::keys::k_location_x_frac()) by { assert(crate::keys::k_owner_part_id().len() != crate::keys::k_location_x_frac().len()); }
        assert(crate::keys::k_owner_part_id() != crate::keys::k_location_y_frac()) by { assert(crate::keys::k_owner_part_id().len() != crate::keys::k_location_y_frac().len()); }
        assert(crate::keys::k_owner_part_id() != crate::keys::k_radius()) by { assert(crate::keys::k_owner_part_id().len() != crate::keys::k_radius().len()); }
        assert(crate::keys::k_owner_part_id() != crate::keys::k_radius_frac()) by { assert(crate::keys::k_owner_part_id()[0] != crate::keys::k_radius_frac()[0]); }
        assert(crate::keys::k_owner_part_id() != crate::keys::k_secondary_radius()) by { assert(crate::keys::k_owner_part_id().len() != crate::keys::k_secondary_radius().len()); }
        assert(crate::keys::k_owner_part_id() != crate::keys::k_secondary_radius_frac()) by { assert(crate::keys::k_owner_part_id().len() != crate::keys::k_secondary_radius_frac().len()); }
        assert(crate::keys::k_owner_part_id() != crate::keys::k_line_width()) by { assert(crate::keys::k_owner_part_id().len() != crate::keys::k_line_width().len()); }
        assert(crate::keys::k_owner_part_id() != crate::keys::k_start_angle()) by { assert(crate::keys::k_owner_part_id().len() != crate::keys::k_start_angle().len()); }
        assert(crate::keys::k_owner_part_id() != crate::keys::k_end_angle()) by { assert(crate::keys::k_owner_part_id().len() != crate::keys::k_end_angle().len()); }
        assert(crate::keys::k_owner_part_id() != crate::keys::k_color()) by { assert(crate::keys::k_owner_part_id().len() != crate::keys::k_color().len()); }
        assert(crate::keys::k_owner_part_id() != crate::keys::k_unique_id()) by { assert(crate::keys::k_owner_part_id().len() != crate::keys::k_unique_id().len()); }
        assert(crate::keys::k_is_not_accesible() != crate::keys::k_index_in_sheet()) by { assert(crate::keys::k_is_not_accesible().len() != crate::keys::k_index_in_sheet().len()); }
        assert(crate::keys::k_is_not_accesible() != crate::keys::k_location_x()) by { assert(crate::keys::k_is_not_accesible().len() != crate::keys::k_location_x().len()); }
        assert(crate::keys::k_is_not_accesible() != crate::keys::k_location_y()) by { assert(crate::keys::k_is_not_accesible().len() != crate::keys::k_location_y().len()); }
        assert(crate::keys::k_is_not_accesible() != crate::keys::k_location_x_frac()) by { assert(crate::keys::k_is_not_accesible().len() != crate::keys::k_location_x_frac().len()); }
        assert(crate::keys::k_is_not_accesible() != crate::keys::k_location_y_frac()) by { assert(crate::keys::k_is_not_accesible().len() != crate::keys::k_location_y_frac().len()); }
        assert(crate::keys::k_is_not_accesible() != crate::keys::k_radius()) by { assert(crate::keys::k_is_not_accesible().len() != crate::keys::k_radius().len()); }
        assert(crate::keys::k_is_not_accesible() != crate::keys::k_radius_frac()) by { assert(crate::keys::k_is_not_accesible().len() != crate::keys::k_radius_frac().len()); }
        assert(crate::keys::k_is_not_accesible() != crate::keys::k_secondary_radius()) by { assert(crate::keys::k_is_not_accesible().len() != crate::keys::k_secondary_radius().len()); }
        assert(crate::keys::k_is_not_accesible() != crate::keys::k_secondary_radius_frac()) by { assert(crate::keys::k_is_not_accesible().len() != crate::keys::k_secondary_radius_frac().len()); }
        assert(crate::keys::k_is_not_accesible() != crate::keys::k_line_width()) by { assert(crate::keys::k_is_not_accesible().len() != crate::keys::k_line_width().len()); }
        assert(crate::keys::k_is_not_accesible() != crate::keys::k_start_angle()) by { assert(crate::keys::k_is_not_accesible().len() != crate::keys::k_start_angle().len()); }
        assert(crate::keys::k_is_not_accesible() != crate::keys::k_end_angle()) by { assert(crate::keys::k_is_not_accesible().len() != crate::keys::k_end_angle().len()); }
        assert(crate::keys::k_is_not_accesible() != crate::keys::k_color()) by { assert(crate::keys::k_is_not_accesible().len() != crate::keys::k_color().len()); }
        assert(crate::keys::k_is_not_accesible() != crate::keys::k_unique_id()) by { assert(crate::keys::k_is_not_accesible().len() != crate::keys::k_unique_id().len()); }
        assert(crate::keys::k_index_in_sheet() != crate::keys::k_location_x()) by { assert(crate::keys::k_index_in_sheet().len() != crate::keys::k_location_x().len()); }
        assert(crate::keys::k_index_in_sheet() != crate::keys::k_location_y()) by { assert(crate::keys::k_index_in_sheet().len() != crate::keys::k_location_y().len()); }
        assert(crate::keys::k_index_in_sheet() != crate::keys::k_location_x_frac()) by { assert(crate::keys::k_index_in_sheet().len() != crate::keys::k_location_x_frac().len()); }
        assert(crate::keys::k_index_in_sheet() != crate::keys::k_location_y_frac()) by { assert(crate::keys::k_index_in_sheet().len() != crate::keys::k_location_y_frac().len()); }
        assert(crate::keys::k_index_in_sheet() != crate::keys::k_radius()) by { assert(crate::keys::k_index_in_sheet().len() != crate::keys::k_radius().len()); }
        assert(crate::keys::k_index_in_sheet() != crate::keys::k_radius_frac()) by { assert(crate::keys::k_index_in_sheet().len() != crate::keys::k_radius_frac().len()); }
        assert(crate::keys::k_index_in_sheet() != crate::keys::k_secondary_radius()) by { assert(crate::keys::k_index_in_sheet().len() != crate::keys::k_secondary_radius().len()); }
        assert(crate::keys::k_index_in_sheet() != crate::keys::k_secondary_radius_frac()) by { assert(crate::keys::k_index_in_sheet().len() != crate::keys::k_secondary_radius_frac().len()); }
        assert(crate::keys::k_index_in_sheet() != crate::keys::k_line_width()) by { assert(crate::keys::k_index_in_sheet().len() != crate::keys::k_line_width().len()); }
        assert(crate::keys::k_index_in_sheet() != crate::keys::k_start_angle()) by { assert(crate::keys::k_index_in_sheet().len() != crate::keys::k_start_angle().len()); }
        assert(crate::keys::k_index_in_sheet() != crate::keys::k_end_angle()) by { assert(crate::keys::k_index_in_sheet().len() != crate::keys::k_end_angle().len()); }
        assert(crate::keys::k_index_in_sheet() != crate::keys::k_color()) by { assert(crate::keys::k_index_in_sheet().len() != crate::keys::k_color().len()); }
        assert(crate::keys::k_index_in_sheet() != crate::keys::k_unique_id()) by { assert(crate::keys::k_index_in_sheet().len() != crate::keys::k_unique_id().len()); }
        assert(crate::keys::k_location_x() != crate::keys::k_location_y()) by { assert(crate::keys::k_location_x()[9] != crate::keys::k_location_y()[9]); }
        assert(crate::keys::k_location_x() != crate::keys::k_location_x_frac()) by { assert(crate::keys::k_location_x().len() != crate::keys::k_location_x_frac().len()); }
        assert(crate::keys::k_location_x() != crate::keys::k_location_y_frac()) by { assert(crate::keys::k_location_x().len() != crate::keys::k_location_y_frac().len()); }
        assert(crate::keys::k_location_x() != crate::keys::k_radius()) by { assert(crate::keys::k_location_x().len() != crate::keys::k_radius().len()); }
        assert(crate::keys::k_location_x() != crate::keys::k_radius_frac()) by { assert(crate::keys::k_location_x().len() != crate::keys::k_radius_frac().len()); }
        assert(crate::keys::k_location_x() != crate::keys::k_secondary_radius()) by { assert(crate::keys::k_location_x().len() != crate::keys::k_secondary_radius().len()); }
        assert(crate::keys::k_location_x() != crate::keys::k_secondary_radius_frac()) by { assert(crate::keys::k_location_x().len() != crate::keys::k_secondary_radius_frac().len()); }
        assert(crate::keys::k_location_x() != crate::keys::k_line_width()) by { assert(crate::keys::k_location_x().len() != crate::keys::k_line_width().len()); }
        assert(crate::keys::k_location_x() != crate::keys::k_start_angle()) by { assert(crate::keys::k_location_x()[0] != crate::keys::k_start_angle()[0]); }
        assert(crate::keys::k_location_x() != crate::keys::k_end_angle()) by { assert(crate::keys::k_location_x().len() != crate::keys::k_end_angle().len()); }
        assert(crate::keys::k_location_x() != crate::keys::k_color()) by { assert(crate::keys::k_location_x().len() != crate::keys::k_color().len()); }
        assert(crate::keys::k_location_x() != crate::keys::k_unique_id()) by { assert(crate::keys::k_location_x().len() != crate::keys::k_unique_id().len()); }
        assert(crate::keys::k_location_y() != crate::keys::k_location_x_frac()) by { assert(crate::keys::k_location_y().len() != crate::keys::k_location_x_frac().len()); }
        assert(crate::keys::k_location_y() != crate::keys::k_location_y_frac()) by { assert(crate::keys::k_location_y().len() != crate::keys::k_location_y_frac().len()); }
        assert(crate::keys::k_location_y() != crate::keys::k_radius()) by { assert(crate::keys::k_location_y().len() != crate::keys::k_radius().len()); }
        assert(crate::keys::k_location_y() != crate::keys::k_radius_frac()) by { assert(crate::keys::k_location_y().len() != crate::keys::k_radius_frac().len()); }
        assert(crate::keys::k_location_y() != crate::keys::k_secondary_radius()) by { assert(crate::keys::k_location_y().len() != crate::keys::k_secondary_radius().len()); }
        assert(crate::keys::k_location_y() != crate::keys::k_secondary_radius_frac()) by { assert(crate::keys::k_location_y().len() != crate::keys::k_secondary_radius_frac().len()); }
        assert(crate::keys::k_location_y() != crate::keys::k_line_width()) by { assert(crate::keys::k_location_y().len() != crate::keys::k_line_width().len()); }
        assert(crate::keys::k_location_y() != crate::keys::k_start_angle()) by { assert(crate::keys::k_location_y()[0] != crate::keys::k_start_angle()[0]); }
        assert(crate::keys::k_location_y() != crate::keys::k_end_angle()) by { assert(crate::keys::k_location_y().len() != crate::keys::k_end_angle().len()); }
        assert(crate::keys::k_location_y() != crate::keys::k_color()) by { assert(crate::keys::k_location_y().len() != crate::keys::k_color().len()); }
        assert(crate::keys::k_location_y() != crate::keys::k_unique_id()) by { assert(crate::keys::k_location_y().len() != crate::keys::k_unique_id().len()); }
        assert(crate::keys::k_location_x_frac() != crate::keys::k_location_y_frac()) by { assert(crate::keys::k_location_x_frac()[9] != crate::keys::k_location_y_frac()[9]); }
        assert(crate::keys::k_location_x_frac() != crate::keys::k_radius()) by { assert(crate::keys::k_location_x_frac().len() != crate::keys::k_radius().len()); }
        assert(crate::keys::k_location_x_frac() != crate::keys::k_radius_frac()) by { assert(crate::keys::k_location_x_frac().len() != crate::keys::k_radius_frac().len()); }
        assert(crate::keys::k_location_x_frac() != crate::keys::k_secondary_radius()) by { assert(crate::keys::k_location_x_frac()[0] != crate::keys::k_secondary_radius()[0]); }
        assert(crate::keys::k_location_x_frac() != crate::keys::k_secondary_radius_frac()) by { assert(crate::keys::k_location_x_frac().len() != crate::keys::k_secondary_radius_frac().len()); }
        assert(crate::keys::k_location_x_frac() != crate::keys::k_line_width()) by { assert(crate::keys::k_location_x_frac().len() != crate::keys::k_line_width().len()); }
        assert(crate::keys::k_location_x_frac() != crate::keys::k_start_angle()) by { assert(crate::keys::k_location_x_frac().len() != crate::keys::k_start_angle().len()); }
        assert(crate::keys::k_location_x_frac() != crate::keys::k_end_angle()) by { assert(crate::keys::k_location_x_frac().len() != crate::keys::k_end_angle().len()); }
        assert(crate::keys::k_location_x_frac() != crate::keys::k_color()) by { assert(crate::keys::k_location_x_frac().len() != crate::keys::k_color().len()); }
        assert(crate::keys::k_location_x_frac() != crate::keys::k_unique_id()) by { assert(crate::keys::k_location_x_frac().len() != crate::keys::k_unique_id().len()); }
        assert(crate::keys::k_location_y_frac() != crate::keys::k_radius()) by { assert(crate::keys::k_location_y_frac().len() != crate::keys::k_radius().len()); }
        assert(crate::keys::k_location_y_frac() != crate::keys::k_radius_frac()) by { assert(crate::keys::k_location_y_frac().len() != crate::keys::k_radius_frac().len()); }
        assert(crate::keys::k_location_y_frac() != crate::keys::k_secondary_radius()) by { assert(crate::keys::k_location_y_frac()[0] != crate::keys::k_secondary_radius()[0]); }
        assert(crate::keys::k_location_y_frac() != crate::keys::k_secondary_radius_frac()) by { assert(crate::keys::k_location_y_frac().len() != crate::keys::k_secondary_radius_frac().len()); }
        assert(crate::keys::k_location_y_frac() != crate::keys::k_line_width()) by { assert(crate::keys::k_location_y_frac().len() != crate::keys::k_line_width().len()); }
        assert(crate::keys::k_location_y_frac() != crate::keys::k_start_angle()) by { assert(crate::keys::k_location_y_frac().len() != crate::keys::k_start_angle().len()); }
        assert(crate::keys::k_location_y_frac() != crate::keys::k_end_angle()) by { assert(crate::keys::k_location_y_frac().len() != crate::keys::k_end_angle().len()); }
        assert(crate::keys::k_location_y_frac() != crate::keys::k_color()) by { assert(crate::keys::k_location_y_frac().len() != crate::keys::k_color().len()); }
        assert(crate::keys::k_location_y_frac() != crate::keys::k_unique_id()) by { assert(crate::keys::k_location_y_frac().len() != crate::keys::k_unique_id().len()); }
        assert(crate::keys::k_radius() != crate::keys::k_radius_frac()) by { assert(crate::keys::k_radius().len() != crate::keys::k_radius_frac().len()); }
        assert(crate::keys::k_radius() != crate::keys::k_secondary_radius()) by { assert(crate::keys::k_radius().len() != crate::keys::k_secondary_radius().len()); }
        assert(crate::keys::k_radius() != crate::keys::k_secondary_radius_frac()) by { assert(crate::keys::k_radius().len() != crate::keys::k_secondary_radius_frac().len()); }
        assert(crate::keys::k_radius() != crate::keys::k_line_width()) by { assert(crate::keys::k_radius().len() != crate::keys::k_line_width().len()); }
        assert(crate::keys::k_radius() != crate::keys::k_start_angle()) by { assert(crate::keys::k_radius().len() != crate::keys::k_start_angle().len()); }
        assert(crate::keys::k_radius() != crate::keys::k_end_angle()) by { assert(crate::keys::k_radius().len() != crate::keys::k_end_angle().len()); }
        assert(crate::keys::k_radius() != crate::keys::k_color()) by { assert(crate::keys::k_radius().len() != crate::keys::k_color().len()); }
        assert(crate::keys::k_radius() != crate::keys::k_unique_id()) by { assert(crate::keys::k_radius().len() != crate::keys::k_unique_id().len()); }
        assert(crate::keys::k_radius_frac() != crate::keys::k_secondary_radius()) by { assert(crate::keys::k_radius_frac().len() != crate::keys::k_secondary_radius().len()); }
        assert(crate::keys::k_radius_frac() != crate::keys::k_secondary_radius_frac()) by { assert(crate::keys::k_radius_frac().len() != crate::keys::k_secondary_radius_frac().len()); }
        assert(crate::keys::k_radius_frac() != crate::keys::k_line_width()) by { assert(crate::keys::k_radius_frac().len() != crate::keys::k_line_width().len()); }
        assert(crate::keys::k_radius_frac() != crate::keys::k_start_angle()) by { assert(crate::keys::k_radius_frac().len() != crate::keys::k_start_angle().len()); }
        assert(crate::keys::k_radius_frac() != crate::keys::k_end_angle()) by { assert(crate::keys::k_radius_frac().len() != crate::keys::k_end_angle().len()); }
        assert(crate::keys::k_radius_frac() != crate::keys::k_color()) by { assert(crate::keys::k_radius_frac().len() != crate::keys::k_color().len()); }
        assert(crate::keys::k_radius_frac() != crate::keys::k_unique_id()) by { assert(crate::keys::k_radius_frac().len() != crate::keys::k_unique_id().len()); }
        assert(crate::keys::k_secondary_radius() != crate::keys::k_secondary_radius_frac()) by { assert(crate::keys::k_secondary_radius().len() != crate::keys::k_secondary_radius_frac().len()); }
        assert(crate::keys::k_secondary_radius() != crate::keys::k_line_width()) by { assert(crate::keys::k_secondary_radius().len() != crate::keys::k_line_width().len()); }
        assert(crate::keys::k_secondary_radius() != crate::keys::k_start_angle()) by { assert(crate::keys::k_secondary_radius().len() != crate::keys::k_start_angle().len()); }
        assert(crate::keys::k_secondary_radius() != crate::keys::k_end_angle()) by { assert(crate::keys::k_secondary_radius().len() != crate::keys::k_end_angle().len()); }
        assert(crate::keys::k_secondary_radius() != crate::keys::k_color()) by { assert(crate::keys::k_secondary_radius().len() != crate::keys::k_color().len()); }
        assert(crate::keys::k_secondary_radius() != crate::keys::k_unique_id()) by { assert(crate::keys::k_secondary_radius().len() != crate::keys::k_unique_id().len()); }
        assert(crate::keys::k_secondary_radius_frac() != crate::keys::k_line_width()) by { assert(crate::keys::k_secondary_radius_frac().len() != crate::keys::k_line_width().len()); }
        assert(crate::keys::k_secondary_radius_frac() != crate::keys::k_start_angle()) by { assert(crate::keys::k_secondary_radius_frac().len() != crate::keys::k_start_angle().len()); }
        assert(crate::keys::k_secondary_radius_frac() != crate::keys::k_end_angle()) by { assert(crate::keys::k_secondary_radius_frac().len() != crate::keys::k_end_angle().len()); }
        assert(crate::keys::k_secondary_radius_frac() != crate::keys::k_color()) by { assert(crate::keys::k_secondary_radius_frac().len() != crate::keys::k_color().len()); }
        assert(crate::keys::k_secondary_radius_frac() != crate::keys::k_unique_id()) by { assert(crate::keys::k_secondary_radius_frac().len() != crate::keys::k_unique_id().len()); }
        assert(crate::keys::k_line_width() != crate::keys::k_start_angle()) by { assert(crate::keys::k_line_width().len() != crate::keys::k_start_angle().len()); }
        assert(crate::keys::k_line_width() != crate::keys::k_end_angle()) by { assert(crate::keys::k_line_width().len() != crate::keys::k_end_angle().len()); }
        assert(crate::keys::k_line_width() != crate::keys::k_color()) by { assert(crate::keys::k_line_width().len() != crate::keys::k_color().len()); }
        assert(crate::keys::k_line_width() != crate::keys::k_unique_id()) by { assert(crate::keys::k_line_width().len() != crate::keys::k_unique_id().len()); }
        assert(crate::keys::k_start_angle() != crate::keys::k_end_angle()) by { assert(crate::keys::k_start_angle().len() != crate::keys::k_end_angle().len()); }
        assert(crate::keys::k_start_angle() != crate::keys::k_color()) by { assert(crate::keys::k_start_angle().len() != crate::keys::k_color().len()); }
        assert(crate::keys::k_start_angle() != crate::keys::k_unique_id()) by { assert(crate::keys::k_start_angle().len() != crate::keys::k_unique_id().len()); }
        assert(crate::keys::k_end_angle() != crate::keys::k_color()) by { assert(crate::keys::k_end_angle().len() != crate::keys::k_color().len()); }
        assert(crate::keys::k_end_angle() != crate::keys::k_unique_id()) by { assert(crate::keys::k_end_angle()[0] != crate::keys::k_unique_id()[0]); }
        assert(crate::keys::k_color() != crate::keys::k_unique_id()) by { assert(crate::keys::k_color().len() != crate::keys::k_unique_id().len()); }
    }
        let mut x = Arc {
        owner_index: 0,
        owner_part_id: 0,
        is_not_accessible: false,
        index_in_sheet: 0,
        location: LocationFract { x: 0, x_fract: 0, y: 0, y_fract: 0 },
        radius: 0,
        radius_frac: 0,
        secondary_radius: 0,
        secondary_radius_frac: 0,
        line_width: 0,
        start_angle: String::new(),
        end_angle: String::new(),
        color: Rgb { r: 0, g: 0, b: 0 },
        unique_id: UniqueId::Simple([0x30u8, 0x30u8, 0x30u8, 0x30u8, 0x30u8, 0x30u8, 0x30u8, 0x30u8]),
        };

        let n = pairs.len();
        let mut i: usize = 0;
        while i < n
            invariant
                0 <= i <= n,
                n == pairs@.len(),
                !Arc::spec_fails(p.take(i as int)),
                Arc::spec_matches(x, p.take(i as int)),

                counter.count == sat_add(old(counter).count, Arc::spec_unknown(p.take(i as int))),
                0 <= Arc::spec_unknown(p.take(i as int)) <= i,
            decreases n - i,
        {
            let key: &[u8] = pairs[i].0.as_slice();
            let val: &[u8] = pairs[i].1.as_slice();
            proof {
                assert(p[i as int] == (pairs@[i as int].0@, pairs@[i as int].1@));
                assert(p.take(i as int + 1).drop_last() =~= p.take(i as int));
                assert(p.take(i as int + 1).last() == p[i as int]);
                assert forall|j: int| 0 <= j <= i implies #[trigger] p.take(i as int + 1).take(j)
                    == p.take(j) by {
                    assert(p.take(i as int + 1).take(j) =~= p.take(j));
                }
                assert forall|j: int| 0 <= j <= i implies #[trigger] p.take(i as int).take(j)
                    == p.take(j) by {
                    assert(p.take(i as int).take(j) =~= p.take(j));
                }
            }
        if crate::common::bytes_eq(key, a_owner_index.as_slice()) {
                    match crate::parse::parse_u8(val) {
                        Ok(v) => { x.owner_index = v; },
                        Err(e) => {
                            proof {
                                assert(p[i as int].0 == crate::keys::k_owner_index());
                                assert(kind_field_fails(p, FieldKind::U8, crate::keys::k_owner_index()));
                            }
                            return Err(e);
                        },
                    }
                }
        else if crate::common::bytes_eq(key, a_owner_part_id.as_slice()) {
                    match crate::parse::parse_i8(val) {
                        Ok(v) => { x.owner_part_id = v; },
                        Err(e) => {
                            proof {
                                assert(p[i as int].0 == crate::keys::k_owner_part_id());
                                assert(kind_field_fails(p, FieldKind::I8, crate::keys::k_owner_part_id()));
                            }
                            return Err(e);
                        },
                    }
                }
        else if crate::common::bytes_eq(key, a_is_not_accesible.as_slice()) {
                    match crate::parse::parse_bool(val) {
                        Ok(v) => { x.is_not_accessible = v; },
                        Err(e) => {
                            proof {
                                assert(p[i as int].0 == crate::keys::k_is_not_accesible());
                                assert(kind_field_fails(p, FieldKind::Bool, crate::keys::k_is_not_accesible()));
                            }
                            return Err(e);
                        },
                    }
                }
        else if crate::common::bytes_eq(key, a_index_in_sheet.as_slice()) {
                    match crate::parse::parse_i16(val) {
                        Ok(v) => { x.index_in_sheet = v; },
                        Err(e) => {
                            proof {
                                assert(p[i as int].0 == crate::keys::k_index_in_sheet());
                                assert(kind_field_fails(p, FieldKind::I16, crate::keys::k_index_in_sheet()));
                            }
                            return Err(e);
                        },
                    }
                }
        else if crate::common::bytes_eq(key, a_location_x.as_slice()) {
                    match crate::parse::parse_i32(val) {
                        Ok(v) => { x.location.x = v; },
                        Err(e) => {
                            proof {
                                assert(p[i as int].0 == crate::keys::k_location_x());
                                assert(kind_field_fails(p, FieldKind::I32, crate::keys::k_location_x()));
                            }
                            return Err(e);
                        },
                    }
                }
        else if crate::common::bytes_eq(key, a_location_y.as_slice()) {
                    match crate::parse::parse_i32(val) {
                        Ok(v) => { x.location.y = v; },
                        Err(e) => {
                            proof {
                                assert(p[i as int].0 == crate::keys::k_location_y());
                                assert(kind_field_fails(p, FieldKind::I32, crate::keys::k_location_y()));
                            }
                            return Err(e);
                        },
                    }
                }
        else if crate::common::bytes_eq(key, a_location_x_frac.as_slice()) {
                    match crate::parse::parse_i32(val) {
                        Ok(v) => { x.location.x_fract = v; },
                        Err(e) => {
                            proof {
                                assert(p[i as int].0 == crate::keys::k_location_x_frac());
                                assert(kind_field_fails(p, FieldKind::I32, crate::keys::k_location_x_frac()));
                            }
                            return Err(e);
                        },
                    }
                }
        else if crate::common::bytes_eq(key, a_location_y_frac.as_slice()) {
                    match crate::parse::parse_i32(val) {
                        Ok(v) => { x.location.y_fract = v; },
                        Err(e) => {
                            proof {
                                assert(p[i as int].0 == crate::keys::k_location_y_frac());
                                assert(kind_field_fails(p, FieldKind::I32, crate::keys::k_location_y_frac()));
                            }
                            return Err(e);
                        },
                    }
                }
        else if crate::common::bytes_eq(key, a_radius.as_slice()) {
                    match crate::parse::parse_i8(val) {
                        Ok(v) => { x.radius = v; },
                        Err(e) => {
                            proof {
                                assert(p[i as int].0 == crate::keys::k_radius());
                                assert(kind_field_fails(p, FieldKind::I8, crate::keys::k_radius()));
                            }
                            return Err(e);
                        },
                    }
                }
        else if crate::common::bytes_eq(key, a_radius_frac.as_slice()) {
                    match crate::parse::parse_i32(val) {
                        Ok(v) => { x.radius_frac = v; },
                        Err(e) => {
                            proof {
                                assert(p[i as int].0 == crate::keys::k_radius_frac());
                                assert(kind_field_fails(p, FieldKind::I32, crate::keys::k_radius_frac()));
                            }
                            return Err(e);
                        },
                    }
                }
        else if crate::common::bytes_eq(key, a_secondary_radius.as_slice()) {
                    match crate::parse::parse_i8(val) {
                        Ok(v) => { x.secondary_radius = v; },
                        Err(e) => {
                            proof {
                                assert(p[i as int].0 == crate::keys::k_secondary_radius());
                                assert(kind_field_fails(p, FieldKind::I8, crate::keys::k_secondary_radius()));
                            }
                            return Err(e);
                        },
                    }
                }
        else if crate::common::bytes_eq(key, a_secondary_radius_frac.as_slice()) {
                    match crate::parse::parse_i32(val) {
                        Ok(v) => { x.secondary_radius_frac = v; },
                        Err(e) => {
                            proof {
                                assert(p[i as int].0 == crate::keys::k_secondary_radius_frac());
                                assert(kind_field_fails(p, FieldKind::I32, crate::keys::k_secondary_radius_frac()));
                            }
                            return Err(e);
                        },
                    }
                }
        else if crate::common::bytes_eq(key, a_line_width.as_slice()) {
                    match crate::parse::parse_i32(val) {
                        Ok(n) => match crate::common::mils_to_nm_i32(n) {
                            Ok(v) => { x.line_width = v; },
                            Err(e) => {
                                proof {
                                    assert(p[i as int].0 == crate::keys::k_line_width());
                                    assert(kind_field_fails(p, FieldKind::MilsI32, crate::keys::k_line_width()));
                                }
                                return Err(e);
                            },
                        },
                        Err(e) => {
                            proof {
                                assert(p[i as int].0 == crate::keys::k_line_width());
                                assert(kind_field_fails(p, FieldKind::MilsI32, crate::keys::k_line_width()));
                            }
                            return Err(e);
                        },
                    }
                }
        else if crate::common::bytes_eq(key, a_start_angle.as_slice()) {
                    x.start_angle = crate::common::buf2lstr(val);
                }
        else if crate::common::bytes_eq(key, a_end_angle.as_slice()) {
                    x.end_angle = crate::common::buf2lstr(val);
                }
        else if crate::common::bytes_eq(key, a_color.as_slice()) {
                    match Rgb::from_utf8(val) {
                        Ok(v) => { x.color = v; },
                        Err(e) => {
                            proof {
                                assert(p[i as int].0 == crate::keys::k_color());
                                assert(kind_field_fails(p, FieldKind::Color, crate::keys::k_color()));
                            }
                            return Err(e);
                        },
                    }
                }
        else if crate::common::bytes_eq(key, a_unique_id.as_slice()) {
                    match UniqueId::from_utf8(val) {
                        Ok(v) => { x.unique_id = v; },
                        Err(e) => {
                            proof {
                                assert(p[i as int].0 == crate::keys::k_unique_id());
                                assert(kind_field_fails(p, FieldKind::Uid, crate::keys::k_unique_id()));
                            }
                            return Err(e);
                        },
                    }
                }
        else {
            crate::logging::macro_unsupported_key(counter, "Arc", key, val);
        }
            i += 1;
        }
        proof {
            assert(p.take(n as int) =~= p);
        }
        Ok(x)
    }
}

impl Line {
    /// The wire record ID of this kind.
    pub open spec fn spec_record_id() -> u32 {
        13
    }

    /// Whether the binder recognizes this wire key.
    pub open spec fn spec_known_key(k: Seq<u8>) -> bool {
        ||| k == crate::keys::k_color()
        ||| k == crate::keys::k_corner_x()
        ||| k == crate::keys::k_corner_y()
        ||| k == crate::keys::k_index_in_sheet()
        ||| k == crate::keys::k_is_not_accesible()
        ||| k == crate::keys::k_is_solid()
        ||| k == crate::keys::k_line_width()
        ||| k == crate::keys::k_location_count()
        ||| k == crate::keys::k_location_x()
        ||| k == crate::keys::k_location_y()
        ||| k == crate::keys::k_owner_index()
        ||| k == crate::keys::k_owner_part_id()
        ||| k == crate::keys::k_owner_part_display_mode()
        ||| k == crate::keys::k_unique_id()
    }

    /// How many pairs hold keys the binder does not recognize.
    pub open spec fn spec_unknown(p: SpecPairs) -> int
        decreases p.len(),
    {
        if p.len() == 0 {
            0
        } else {
            Self::spec_unknown(p.drop_last()) + if Self::spec_known_key(p.last().0) {
                0int
            } else {
                1int
            }
        }
    }

    /// Whether some pair's value is one its field's parser rejects.
    pub open spec fn spec_fails(p: SpecPairs) -> bool {
        ||| kind_field_fails(p, FieldKind::Color, crate::keys::k_color())
        ||| kind_field_fails(p, FieldKind::I32, crate::keys::k_corner_x())
        ||| kind_field_fails(p, FieldKind::I32, crate::keys::k_corner_y())
        ||| kind_field_fails(p, FieldKind::I16, crate::keys::k_index_in_sheet())
        ||| kind_field_fails(p, FieldKind::Bool, crate::keys::k_is_not_accesible())
        ||| kind_field_fails(p, FieldKind::Bool, crate::keys::k_is_solid())
        ||| kind_field_fails(p, FieldKind::MilsU32, crate::keys::k_line_width())
        ||| kind_field_fails(p, FieldKind::U16, crate::keys::k_location_count())
        ||| kind_field_fails(p, FieldKind::I32, crate::keys::k_location_x())
        ||| kind_field_fails(p, FieldKind::I32, crate::keys::k_location_y())
        ||| kind_field_fails(p, FieldKind::U8, crate::keys::k_owner_index())
        ||| kind_field_fails(p, FieldKind::I8, crate::keys::k_owner_part_id())
        ||| kind_field_fails(p, FieldKind::I8, crate::keys::k_owner_part_display_mode())
        ||| kind_field_fails(p, FieldKind::Uid, crate::keys::k_unique_id())
    }

    /// Each field as the walk of the pairs leaves it.
    pub open spec fn spec_matches(x: Line, p: SpecPairs) -> bool {
        &&& x.color == color_field(p, crate::keys::k_color())
        &&& x.corner_x == i32_field(p, crate::keys::k_corner_x())
        &&& x.corner_y == i32_field(p, crate::keys::k_corner_y())
        &&& x.index_in_sheet == i16_field(p, crate::keys::k_index_in_sheet())
        &&& x.is_not_accessible == bool_field(p, crate::keys::k_is_not_accesible())
        &&& x.is_solid == bool_field(p, crate::keys::k_is_solid())
        &&& x.line_width == mils_u32_field(p, crate::keys::k_line_width())
        &&& x.location_count == u16_field(p, crate::keys::k_location_count())
        &&& x.location_x == i32_field(p, crate::keys::k_location_x())
        &&& x.location_y == i32_field(p, crate::keys::k_location_y())
        &&& x.owner_index == u8_field(p, crate::keys::k_owner_index())
        &&& x.owner_part_id == i8_field(p, crate::keys::k_owner_part_id())
        &&& x.owner_part_display_mode == i8_field(p, crate::keys::k_owner_part_display_mode())
        &&& x.unique_id == uid_field(p, crate::keys::k_unique_id())
    }

    /// Bind the fields of one `Line` record from its key-value pairs.
    #[verifier::loop_isolation(false)]
    #[verifier::rlimit(100)]
    pub fn from_record(pairs: &[(Vec<u8>, Vec<u8>)], counter: &mut UnsupportedCounter) -> (r:
        Result<Line, ErrorKind>)
        ensures
            r is Ok <==> !Line::spec_fails(pairs_view(pairs@)),
            r is Ok ==> Line::spec_matches(r->Ok_0, pairs_view(pairs@)),
            r is Ok ==> final(counter).count == sat_add(
                old(counter).count,
                Line::spec_unknown(pairs_view(pairs@)),
            ),
            final(counter).count >= old(counter).count,
    {
        let ghost p = pairs_view(pairs@);
        proof {
            crate::common::lemma_pairs_view(pairs@);
            assert(p.take(0) =~= Seq::<(Seq<u8>, Seq<u8>)>::empty());
        }
    let a_color: [u8; 5] = [0x43u8, 0x6fu8, 0x6cu8, 0x6fu8, 0x72u8];
    let a_corner_x: [u8; 8] = [0x43u8, 0x6fu8, 0x72u8, 0x6eu8, 0x65u8, 0x72u8, 0x2eu8, 0x58u8];
    let a_corner_y: [u8; 8] = [0x43u8, 0x6fu8, 0x72u8, 0x6eu8, 0x65u8, 0x72u8, 0x2eu8, 0x59u8];
    let a_index_in_sheet: [u8; 12] = [0x49u8, 0x6eu8, 0x64u8, 0x65u8, 0x78u8, 0x49u8, 0x6eu8, 0x53u8, 0x68u8, 0x65u8, 0x65u8, 0x74u8];
    let a_is_not_accesible: [u8; 14] = [0x49u8, 0x73u8, 0x4eu8, 0x6fu8, 0x74u8, 0x41u8, 0x63u8, 0x63u8, 0x65u8, 0x73u8, 0x69u8, 0x62u8, 0x6cu8, 0x65u8];
    let a_is_solid: [u8; 7] = [0x49u8, 0x73u8, 0x53u8, 0x6fu8, 0x6cu8, 0x69u8, 0x64u8];
    let a_line_width: [u8; 9] = [0x4cu8, 0x69u8, 0x6eu8, 0x65u8, 0x57u8, 0x69u8, 0x64u8, 0x74u8, 0x68u8];
    let a_location_count: [u8; 13] = [0x4cu8, 0x6fu8, 0x63u8, 0x61u8, 0x74u8, 0x69u8, 0x6fu8, 0x6eu8, 0x43u8, 0x6fu8, 0x75u8, 0x6eu8, 0x74u8];
    let a_location_x: [u8; 10] = [0x4cu8, 0x6fu8, 0x63u8, 0x61u8, 0x74u8, 0x69u8, 0x6fu8, 0x6eu8, 0x2eu8, 0x58u8];
    let a_location_y: [u8; 10] = [0x4cu8, 0x6fu8, 0x63u8, 0x61u8, 0x74u8, 0x69u8, 0x6fu8, 0x6eu8, 0x2eu8, 0x59u8];
    let a_owner_index: [u8; 10] = [0x4fu8, 0x77u8, 0x6eu8, 0x65u8, 0x72u8, 0x49u8, 0x6eu8, 0x64u8, 0x65u8, 0x78u8];
    let a_owner_part_id: [u8; 11] = [0x4fu8, 0x77u8, 0x6eu8, 0x65u8, 0x72u8, 0x50u8, 0x61u8, 0x72u8, 0x74u8, 0x49u8, 0x64u8];
    let a_owner_part_display_mode: [u8; 20] = [0x4fu8, 0x77u8, 0x6eu8, 0x65u8, 0x72u8, 0x50u8, 0x61u8, 0x72u8, 0x74u8, 0x44u8, 0x69u8, 0x73u8, 0x70u8, 0x6cu8, 0x61u8, 0x79u8, 0x4du8, 0x6fu8, 0x64u8, 0x65u8];
    let a_unique_id: [u8; 8] = [0x55u8, 0x6eu8, 0x69u8, 0x71u8, 0x75u8, 0x65u8, 0x49u8, 0x44u8];
    proof {
        assert(a_color@ =~= crate::keys::k_color());
        assert(a_corner_x@ =~= crate::keys::k_corner_x());
        assert(a_corner_y@ =~= crate::keys::k_corner_y());
        assert(a_index_in_sheet@ =~= crate::keys::k_index_in_sheet());
        assert(a_is_not_accesible@ =~= crate::keys::k_is_not_accesible());
        assert(a_is_solid@ =~= crate::keys::k_is_solid());
        assert(a_line_width@ =~= crate::keys::k_line_width());
        assert(a_location_count@ =~= crate::keys::k_location_count());
        assert(a_location_x@ =~= crate::keys::k_location_x());
        assert(a_location_y@ =~= crate::keys::k_location_y());
        assert(a_owner_index@ =~= crate::keys::k_owner_index());
        assert(a_owner_part_id@ =~= crate::keys::k_owner_part_id());
        assert(a_owner_part_display_mode@ =~= crate::keys::k_owner_part_display_mode());
        assert(a_unique_id@ =~= crate::keys::k_unique_id());
        assert(crate::keys::k_color() != crate::keys::k_corner_x()) by { assert(crate::keys::k_color().len() != crate::keys::k_corner_x().len()); }
        assert(crate::keys::k_color() != crate::keys::k_corner_y()) by { assert(crate::keys::k_color().len() != crate::keys::k_corner_y().len()); }
        assert(crate::keys::k_color() != crate::keys::k_index_in_sheet()) by { assert(crate::keys::k_color().len() != crate::keys::k_index_in_sheet().len()); }
        assert(crate::keys::k_color() != crate::keys::k_is_not_accesible()) by { assert(crate::keys::k_color().len() != crate::keys::k_is_not_accesible().len()); }
        assert(crate::keys::k_color() != crate::keys::k_is_solid()) by { assert(crate::keys::k_color().len() != crate::keys::k_is_solid().len()); }
        assert(crate::keys::k_color() != crate::keys::k_line_width()) by { assert(crate::keys::k_color().len() != crate::keys::k_line_width().len()); }
        assert(crate::keys::k_color() != crate::keys::k_location_count()) by { assert(crate::keys::k_color().len() != crate::keys::k_location_count().len()); }
        assert(crate::keys::k_color() != crate::keys::k_location_x()) by { assert(crate::keys::k_color().len() != crate::keys::k_location_x().len()); }
        assert(crate::keys::k_color() != crate::keys::k_location_y()) by { assert(crate::keys::k_color().len() != crate::keys::k_location_y().len()); }
        assert(crate::keys::k_color() != crate::keys::k_owner_index()) by { assert(crate::keys::k_color().len() != crate::keys::k_owner_index().len()); }
        assert(crate::keys::k_color() != crate::keys::k_owner_part_id()) by { assert(crate::keys::k_color().len() != crate::keys::k_owner_part_id().len()); }
        assert(crate::keys::k_color() != crate::keys::k_owner_part_display_mode()) by { assert(crate::keys::k_color().len() != crate::keys::k_owner_part_display_mode().len()); }
        assert(crate::keys::k_color() != crate::keys::k_unique_id()) by { assert(crate::keys::k_color().len() != crate::keys::k_unique_id().len()); }
        assert(crate::keys::k_corner_x() != crate::keys::k_corner_y()) by { assert(crate::keys::k_corner_x()[7] != crate::keys::k_corner_y()[7]); }
        assert(crate::keys::k_corner_x() != crate::keys::k_index_in_sheet()) by { assert(crate::keys::k_corner_x().len() != crate::keys::k_index_in_sheet().len()); }
        assert(crate::keys::k_corner_x() != crate::keys::k_is_not_accesible()) by { assert(crate::keys::k_corner_x().len() != crate::keys::k_is_not_accesible().len()); }
        assert(crate::keys::k_corner_x() != crate::keys::k_is_solid()) by { assert(crate::keys::k_corner_x().len() != crate::keys::k_is_solid().len()); }
        assert(crate::keys::k_corner_x() != crate::keys::k_line_width()) by { assert(crate::keys::k_corner_x().len() != crate::keys::k_line_width().len()); }
        assert(crate::keys::k_corner_x() != crate::keys::k_location_count()) by { assert(crate::keys::k_corner_x().len() != crate::keys::k_location_count().len()); }
        assert(crate::keys::k_corner_x() != crate::keys::k_location_x()) by { assert(crate::keys::k_corner_x().len() != crate::keys::k_location_x().len()); }
        assert(crate::keys::k_corner_x() != crate::keys::k_location_y()) by { assert(crate::keys::k_corner_x().len() != crate::keys::k_location_y().len()); }
        assert(crate::keys::k_corner_x() != crate::keys::k_owner_index()) by { assert(crate::keys::k_corner_x().len() != crate::keys::k_owner_index().len()); }
        assert(crate::keys::k_corner_x() != crate::keys::k_owner_part_id()) by { assert(crate::keys::k_corner_x().len() != crate::keys::k_owner_part_id().len()); }
        assert(crate::keys::k_corner_x() != crate::keys::k_owner_part_display_mode()) by { assert(crate::keys::k_corner_x().len() != crate::keys::k_owner_part_display_mode().len()); }
        assert(crate::keys::k_corner_x() != crate::keys::k_unique_id()) by { assert(crate::keys::k_corner_x()[0] != crate::keys::k_unique_id()[0]); }
        assert(crate::keys::k_corner_y() != crate::keys::k_index_in_sheet()) by { assert(crate::keys::k_corner_y().len() != crate::keys::k_index_in_sheet().len()); }
        assert(crate::keys::k_corner_y() != crate::keys::k_is_not_accesible()) by { assert(crate::keys::k_corner_y().len() != crate::keys::k_is_not_accesible().len()); }
        assert(crate::keys::k_corner_y() != crate::keys::k_is_solid()) by { assert(crate::keys::k_corner_y().len() != crate::keys::k_is_solid().len()); }
        assert(crate::keys::k_corner_y() != crate::keys::k_line_width()) by { assert(crate::keys::k_corner_y().len() != crate::keys::k_line_width().len()); }
        assert(crate::keys::k_corner_y() != crate::keys::k_location_count()) by { assert(crate::keys::k_corner_y().len() != crate::keys::k_location_count().len()); }
        assert(crate::keys::k_corner_y() != crate::keys::k_location_x()) by { assert(crate::keys::k_corner_y().len() != crate::keys::k_location_x().len()); }
        assert(crate::keys::k_corner_y() != crate::keys::k_location_y()) by { assert(crate::keys::k_corner_y().len() != crate::keys::k_location_y().len()); }
        assert(crate::keys::k_corner_y() != crate::keys::k_owner_index()) by { assert(crate::keys::k_corner_y().len() != crate::keys::k_owner_index().len()); }
        assert(crate::keys::k_corner_y() != crate::keys::k_owner_part_id()) by { assert(crate::keys::k_corner_y().len() != crate::keys::k_owner_part_id().len()); }
        assert(crate::keys::k_corner_y() != crate::keys::k_owner_part_display_mode()) by { assert(crate::keys::k_corner_y().len() != crate::keys::k_owner_part_display_mode().len()); }
        assert(crate::keys::k_corner_y() != crate::keys::k_unique_id()) by { assert(crate::keys::k_corner_y()[0] != crate::keys::k_unique_id()[0]); }
        assert(crate::keys::k_index_in_sheet() != crate::keys::k_is_not_accesible()) by { assert(crate::keys::k_index_in_sheet().len() != crate::keys::k_is_not_accesible().len()); }
        assert(crate::keys::k_index_in_sheet() != crate::keys::k_is_solid()) by { assert(crate::keys::k_index_in_sheet().len() != crate::keys::k_is_solid().len()); }
        assert(crate::keys::k_index_in_sheet() != crate::keys::k_line_width()) by { assert(crate::keys::k_index_in_sheet().len() != crate::keys::k_line_width().len()); }
        assert(crate::keys::k_index_in_sheet() != crate::keys::k_location_count()) by { assert(crate::keys::k_index_in_sheet().len() != crate::keys::k_location_count().len()); }
        assert(crate::keys::k_index_in_sheet() != crate::keys::k_location_x()) by { assert(crate::keys::k_index_in_sheet().len() != crate::keys::k_location_x().len()); }
        assert(crate::keys::k_index_in_sheet() != crate::keys::k_location_y()) by { assert(crate::keys::k_index_in_sheet().len() != crate::keys::k_location_y().len()); }
        assert(crate::keys::k_index_in_sheet() != crate::keys::k_owner_index()) by { assert(crate::keys::k_index_in_sheet().len() != crate::keys::k_owner_index().len()); }
        assert(crate::keys::k_index_in_sheet() != crate::keys::k_owner_part_id()) by { assert(crate::keys::k_index_in_sheet().len() != crate::keys::k_owner_part_id().len()); }
        assert(crate::keys::k_index_in_sheet() != crate::keys::k_owner_part_display_mode()) by { assert(crate::keys::k_index_in_sheet().len() != crate::keys::k_owner_part_display_mode().len()); }
        assert(crate::keys::k_index_in_sheet() != crate::keys::k_unique_id()) by { assert(crate::keys::k_index_in_sheet().len() != crate::keys::k_unique_id().len()); }
        assert(crate::keys::k_is_not_accesible() != crate::keys::k_is_solid()) by { assert(crate::keys::k_is_not_accesible().len() != crate::keys::k_is_solid().len()); }
        assert(crate::keys::k_is_not_accesible() != crate::keys::k_line_width()) by { assert(crate::keys::k_is_not_accesible().len() != crate::keys::k_line_width().len()); }
        assert(crate::keys::k_is_not_accesible() != crate::keys::k_location_count()) by { assert(crate::keys::k_is_not_accesible().len() != crate::keys::k_location_count().len()); }
        assert(crate::keys::k_is_not_accesible() != crate::keys::k_location_x()) by { assert(crate::keys::k_is_not_accesible().len() != crate::keys::k_location_x().len()); }
        assert(crate::keys::k_is_not_accesible() != crate::keys::k_location_y()) by { assert(crate::keys::k_is_not_accesible().len() != crate::keys::k_location_y().len()); }
        assert(crate::keys::k_is_not_accesible() != crate::keys::k_owner_index()) by { assert(crate::keys::k_is_not_accesible().len() != crate::keys::k_owner_index().len()); }
        assert(crate::keys::k_is_not_accesible() != crate::keys::k_owner_part_id()) by { assert(crate::keys::k_is_not_accesible().len() != crate::keys::k_owner_part_id().len()); }
        assert(crate::keys::k_is_not_accesible() != crate::keys::k_owner_part_display_mode()) by { assert(crate::keys::k_is_not_accesible().len() != crate::keys::k_owner_part_display_mode().len()); }
        assert(crate::keys::k_is_not_accesible() != crate::keys::k_unique_id()) by { assert(crate::keys::k_is_not_accesible().len() != crate::keys::k_unique_id().len()); }
        assert(crate::keys::k_is_solid() != crate::keys::k_line_width()) by { assert(crate::keys::k_is_solid().len() != crate::keys::k_line_width().len()); }
        assert(crate::keys::k_is_solid() != crate::keys::k_location_count()) by { assert(crate::keys::k_is_solid().len() != crate::keys::k_location_count().len()); }
        assert(crate::keys::k_is_solid() != crate::keys::k_location_x()) by { assert(crate::keys::k_is_solid().len() != crate::keys::k_location_x().len()); }
        assert(crate::keys::k_is_solid() != crate::keys::k_location_y()) by { assert(crate::keys::k_is_solid().len() != crate::keys::k_location_y().len()); }
        assert(crate::keys::k_is_solid() != crate::keys::k_owner_index()) by { assert(crate::keys::k_is_solid().len() != crate::keys::k_owner_index().len()); }
        assert(crate::keys::k_is_solid() != crate::keys::k_owner_part_id()) by { assert(crate::keys::k_is_solid().len() != crate::keys::k_owner_part_id().len()); }
        assert(crate::keys::k_is_solid() != crate::keys::k_owner_part_display_mode()) by { assert(crate::keys::k_is_solid().len() != crate::keys::k_owner_part_display_mode().len()); }
        assert(crate::keys::k_is_solid() != crate::keys::k_unique_id()) by { assert(crate::keys::k_is_solid().len() != crate::keys::k_unique_id().len()); }
        assert(crate::keys::k_line_width() != crate::keys::k_location_count()) by { assert(crate::keys::k_line_width().len() != crate::keys::k_location_count().len()); }
        assert(crate::keys::k_line_width() != crate::keys::k_location_x()) by { assert(crate::keys::k_line_width().len() != crate::keys::k_location_x().len()); }
        assert(crate::keys::k_line_width() != crate::keys::k_location_y()) by { assert(crate::keys::k_line_width().len() != crate::keys::k_location_y().len()); }
        assert(crate::keys::k_line_width() != crate::keys::k_owner_index()) by { assert(crate::keys::k_line_width().len() != crate::keys::k_owner_index().len()); }
        assert(crate::keys::k_line_width() != crate::keys::k_owner_part_id()) by { assert(crate::keys::k_line_width().len() != crate::keys::k_owner_part_id().len()); }
        assert(crate::keys::k_line_width() != crate::keys::k_owner_part_display_mode()) by { assert(crate::keys::k_line_width().len() != crate::keys::k_owner_part_display_mode().len()); }
        assert(crate::keys::k_line_width() != crate::keys::k_unique_id()) by { assert(crate::keys::k_line_width().len() != crate::keys::k_unique_id().len()); }
        assert(crate::keys::k_location_count() != crate::keys::k_location_x()) by { assert(crate::keys::k_location_count().len() != crate::keys::k_location_x().len()); }
        assert(crate::keys::k_location_count() != crate::keys::k_location_y()) by { assert(crate::keys::k_location_count().len() != crate::keys::k_location_y().len()); }
        assert(crate::keys::k_location_count() != crate::keys::k_owner_index()) by { assert(crate::keys::k_location_count().len() != crate::keys::k_owner_index().len()); }
        assert(crate::keys::k_location_count() != crate::keys::k_owner_part_id()) by { assert(crate::keys::k_location_count().len() != crate::keys::k_owner_part_id().len()); }
        assert(crate::keys::k_location_count() != crate::keys::k_owner_part_display_mode()) by { assert(crate::keys::k_location_count().len() != crate::keys::k_owner_part_display_mode().len()); }
        assert(crate::keys::k_location_count() != crate::keys::k_unique_id()) by { assert(crate::keys::k_location_count().len() != crate::keys::k_unique_id().len()); }
        assert(crate::keys::k_location_x() != crate::keys::k_location_y()) by { assert(crate::keys::k_location_x()[9] != crate::keys::k_location_y()[9]); }
        assert(crate::keys::k_location_x() != crate::keys::k_owner_index()) by { assert(crate::keys::k_location_x()[0] != crate::keys::k_owner_index()[0]); }
        assert(crate::keys::k_location_x() != crate::keys::k_owner_part_id()) by { assert(crate::keys::k_location_x().len() != crate::keys::k_owner_part_id().len()); }
        assert(crate::keys::k_location_x() != crate::keys::k_owner_part_display_mode()) by { assert(crate::keys::k_location_x().len() != crate::keys::k_owner_part_display_mode().len()); }
        assert(crate::keys::k_location_x() != crate::keys::k_unique_id()) by { assert(crate::keys::k_location_x().len() != crate::keys::k_unique_id().len()); }
        assert(crate::keys::k_location_y() != crate::keys::k_owner_index()) by { assert(crate::keys::k_location_y()[0] != crate::keys::k_owner_index()[0]); }
        assert(crate::keys::k_location_y() != crate::keys::k_owner_part_id()) by { assert(crate::keys::k_location_y().len() != crate::keys::k_owner_part_id().len()); }
        assert(crate::keys::k_location_y() != crate::keys::k_owner_part_display_mode()) by { assert(crate::keys::k_location_y().len() != crate::keys::k_owner_part_display_mode().len()); }
        assert(crate::keys::k_location_y() != crate::keys::k_unique_id()) by { assert(crate::keys::k_location_y().len() != crate::keys::k_unique_id().len()); }
        assert(crate::keys::k_owner_index() != crate::keys::k_owner_part_id()) by { assert(crate::keys::k_owner_index().len() != crate::keys::k_owner_part_id().len()); }
        assert(crate::keys::k_owner_index() != crate::keys::k_owner_part_display_mode()) by { assert(crate::keys::k_owner_index().len() != crate::keys::k_owner_part_display_mode().len()); }
        assert(crate::keys::k_owner_index() != crate::keys::k_unique_id()) by { assert(crate::keys::k_owner_index().len() != crate::keys::k_unique_id().len()); }
        assert(crate::keys::k_owner_part_id() != crate::keys::k_owner_part_display_mode()) by { assert(crate::keys::k_owner_part_id().len() != crate::keys::k_owner_part_display_mode().len()); }
        assert(crate::keys::k_owner_part_id() != crate::keys::k_unique_id()) by { assert(crate::keys::k_owner_part_id().len() != crate::keys::k_unique_id().len()); }
        assert(crate::keys::k_owner_part_display_mode() != crate::keys::k_unique_id()) by { assert(crate::keys::k_owner_part_display_mode().len() != crate::keys::k_unique_id().len()); }
    }
        let mut x = Line {
        color: Rgb { r: 0, g: 0, b: 0 },
        corner_x: 0,
        corner_y: 0,
        index_in_sheet: 0,
        is_not_accessible: false,
        is_solid: false,
        line_width: 0,
        location_count: 0,
        location_x: 0,
        location_y: 0,
        owner_index: 0,
        owner_part_id: 0,
        owner_part_display_mode: 0,
        unique_id: UniqueId::Simple([0x30u8, 0x30u8, 0x30u8, 0x30u8, 0x30u8, 0x30u8, 0x30u8, 0x30u8]),
        };

        let n = pairs.len();
        let mut i: usize = 0;
        while i < n
            invariant
                0 <= i <= n,
                n == pairs@.len(),
                !Line::spec_fails(p.take(i as int)),
                Line::spec_matches(x, p.take(i as int)),

                counter.count == sat_add(old(counter).count, Line::spec_unknown(p.take(i as int))),
                0 <= Line::spec_unknown(p.take(i as int)) <= i,
            decreases n - i,
        {
            let key: &[u8] = pairs[i].0.as_slice();
            let val: &[u8] = pairs[i].1.as_slice();
            proof {
                assert(p[i as int] == (pairs@[i as int].0@, pairs@[i as int].1@));
                assert(p.take(i as int + 1).drop_last() =~= p.take(i as int));
                assert(p.take(i as int + 1).last() == p[i as int]);
                assert forall|j: int| 0 <= j <= i implies #[trigger] p.take(i as int + 1).take(j)
                    == p.take(j) by {
                    assert(p.take(i as int + 1).take(j) =~= p.take(j));
                }
                assert forall|j: int| 0 <= j <= i implies #[trigger] p.take(i as int).take(j)
                    == p.take(j) by {
                    assert(p.take(i as int).take(j) =~= p.take(j));
                }
            }
        if crate::common::bytes_eq(key, a_color.as_slice()) {
                    match Rgb::from_utf8(val) {
                        Ok(v) => { x.color = v; },
                        Err(e) => {
                            proof {
                                assert(p[i as int].0 == crate::keys::k_color());
                                assert(kind_field_fails(p, FieldKind::Color, crate::keys::k_color()));
                            }
                            return Err(e);
                        },
                    }
                }
        else if crate::common::bytes_eq(key, a_corner_x.as_slice()) {
                    match crate::parse::parse_i32(val) {
                        Ok(v) => { x.corner_x = v; },
                        Err(e) => {
                            proof {
                                assert(p[i as int].0 == crate::keys::k_corner_x());
                                assert(kind_field_fails(p, FieldKind::I32, crate::keys::k_corner_x()));
                            }
                            return Err(e);
                        },
                    }
                }
        else if crate::common::bytes_eq(key, a_corner_y.as_slice()) {
                    match crate::parse::parse_i32(val) {
                        Ok(v) => { x.corner_y = v; },
                        Err(e) => {
                            proof {
                                assert(p[i as int].0 == crate::keys::k_corner_y());
                                assert(kind_field_fails(p, FieldKind::I32, crate::keys::k_corner_y()));
                            }
                            return Err(e);
                        },
                    }
                }
        else if crate::common::bytes_eq(key, a_index_in_sheet.as_slice()) {
                    match crate::parse::parse_i16(val) {
                        Ok(v) => { x.index_in_sheet = v; },
                        Err(e) => {
                            proof {
                                assert(p[i as int].0 == crate::keys::k_index_in_sheet());
                                assert(kind_field_fails(p, FieldKind::I16, crate::keys::k_index_in_sheet()));
                            }
                            return Err(e);
                        },
                    }
                }
        else if crate::common::bytes_eq(key, a_is_not_accesible.as_slice()) {
                    match crate::parse::parse_bool(val) {
                        Ok(v) => { x.is_not_accessible = v; },
                        Err(e) => {
                            proof {
                                assert(p[i as int].0 == crate::keys::k_is_not_accesible());
                                assert(kind_field_fails(p, FieldKind::Bool, crate::keys::k_is_not_accesible()));
                            }
                            return Err(e);
                        },
                    }
                }
        else if crate::common::bytes_eq(key, a_is_solid.as_slice()) {
                    match crate::parse::parse_bool(val) {
                        Ok(v) => { x.is_solid = v; },
                        Err(e) => {
                            proof {
                                assert(p[i as int].0 == crate::keys::k_is_solid());
                                assert(kind_field_fails(p, FieldKind::Bool, crate::keys::k_is_solid()));
                            }
                            return Err(e);
                        },
                    }
                }
        else if crate::common::bytes_eq(key, a_line_width.as_slice()) {
                    match crate::parse::parse_u32(val) {
                        Ok(n) => match crate::common::mils_to_nm_u32(n) {
                            Ok(v) => { x.line_width = v; },
                            Err(e) => {
                                proof {
                                    assert(p[i as int].0 == crate::keys::k_line_width());
                                    assert(kind_field_fails(p, FieldKind::MilsU32, crate::keys::k_line_width()));
                                }
                                return Err(e);
                            },
                        },
                        Err(e) => {
                            proof {
                                assert(p[i as int].0 == crate::keys::k_line_width());
                                assert(kind_field_fails(p, FieldKind::MilsU32, crate::keys::k_line_width()));
                            }
                            return Err(e);
                        },
                    }
                }
        else if crate::common::bytes_eq(key, a_location_count.as_slice()) {
                    match crate::parse::parse_u16(val) {
                        Ok(v) => { x.location_count = v; },
                        Err(e) => {
                            proof {
                                assert(p[i as int].0 == crate::keys::k_location_count());
                                assert(kind_field_fails(p, FieldKind::U16, crate::keys::k_location_count()));
                            }
                            return Err(e);
                        },
                    }
                }
        else if crate::common::bytes_eq(key, a_location_x.as_slice()) {
                    match crate::parse::parse_i32(val) {
                        Ok(v) => { x.location_x = v; },
                        Err(e) => {
                            proof {
                                assert(p[i as int].0 == crate::keys::k_location_x());
                                assert(kind_field_fails(p, FieldKind::I32, crate::keys::k_location_x()));
                            }
                            return Err(e);
                        },
                    }
                }
        else if crate::common::bytes_eq(key, a_location_y.as_slice()) {
                    match crate::parse::parse_i32(val) {
                        Ok(v) => { x.location_y = v; },
                        Err(e) => {
                            proof {
                                assert(p[i as int].0 == crate::keys::k_location_y());
                                assert(kind_field_fails(p, FieldKind::I32, crate::keys::k_location_y()));
                            }
                            return Err(e);
                        },
                    }
                }
        else if crate::common::bytes_eq(key, a_owner_index.as_slice()) {
                    match crate::parse::parse_u8(val) {
                        Ok(v) => { x.owner_index = v; },
                        Err(e) => {
                            proof {
                                assert(p[i as int].0 == crate::keys::k_owner_index());
                                assert(kind_field_fails(p, FieldKind::U8, crate::keys::k_owner_index()));
                            }
                            return Err(e);
                        },
                    }
                }
        else if crate::common::bytes_eq(key, a_owner_part_id.as_slice()) {
                    match crate::parse::parse_i8(val) {
                        Ok(v) => { x.owner_part_id = v; },
                        Err(e) => {
                            proof {
                                assert(p[i as int].0 == crate::keys::k_owner_part_id());
                                assert(kind_field_fails(p, FieldKind::I8, crate::keys::k_owner_part_id()));
                            }
                            return Err(e);
                        },
                    }
                }
        else if crate::common::bytes_eq(key, a_owner_part_display_mode.as_slice()) {
                    match crate::parse::parse_i8(val) {
                        Ok(v) => { x.owner_part_display_mode = v; },
                        Err(e) => {
                            proof {
                                assert(p[i as int].0 == crate::keys::k_owner_part_display_mode());
                                assert(kind_field_fails(p, FieldKind::I8, crate::keys::k_owner_part_display_mode()));
                            }
                            return Err(e);
                        },
                    }
                }
        else if crate::common::bytes_eq(key, a_unique_id.as_slice()) {
                    match UniqueId::from_utf8(val) {
                        Ok(v) => { x.unique_id = v; },
                        Err(e) => {
                            proof {
                                assert(p[i as int].0 == crate::keys::k_unique_id());
                                assert(kind_field_fails(p, FieldKind::Uid, crate::keys::k_unique_id()));
                            }
                            return Err(e);
                        },
                    }
                }
        else {
            crate::logging::macro_unsupported_key(counter, "Line", key, val);
        }
            i += 1;
        }
        proof {
            assert(p.take(n as int) =~= p);
        }
        Ok(x)
    }
}

impl Rectangle {
    /// The wire record ID of this kind.
    pub open spec fn spec_record_id() -> u32 {
        14
    }

    /// Whether the binder recognizes this wire key.
    pub open spec fn spec_known_key(k: Seq<u8>) -> bool {
        ||| k == crate::keys::k_area_color()
        ||| k == crate::keys::k_color()
        ||| k == crate::keys::k_corner_x()
        ||| k == crate::keys::k_corner_y()
        ||| k == crate::keys::k_corner_x_frac()
        ||| k == crate::keys::k_corner_y_frac()
        ||| k == crate::keys::k_index_in_sheet()
        ||| k == crate::keys::k_is_not_accesible()
        ||| k == crate::keys::k_is_solid()
        ||| k == crate::keys::k_line_width()
        ||| k == crate::keys::k_location_x()
        ||| k == crate::keys::k_location_y()
        ||| k == crate::keys::k_location_x_frac()
        ||| k == crate::keys::k_location_y_frac()
        ||| k == crate::keys::k_owner_index()
        ||| k == crate::keys::k_owner_part_id()
        ||| k == crate::keys::k_owner_part_display_mode()
        ||| k == crate::keys::k_transparent()
        ||| k == crate::keys::k_unique_id()
    }

    /// How many pairs hold keys the binder does not recognize.
    pub open spec fn spec_unknown(p: SpecPairs) -> int
        decreases p.len(),
    {
        if p.len() == 0 {
            0
        } else {
            Self::spec_unknown(p.drop_last()) + if Self::spec_known_key(p.last().0) {
                0int
            } else {
                1int
            }
        }
    }

    /// Whether some pair's value is one its field's parser rejects.
    pub open spec fn spec_fails(p: SpecPairs) -> bool {
        ||| kind_field_fails(p, FieldKind::Color, crate::keys::k_area_color())
        ||| kind_field_fails(p, FieldKind::Color, crate::keys::k_color())
        ||| kind_field_fails(p, FieldKind::I32, crate::keys::k_corner_x())
        ||| kind_field_fails(p, FieldKind::I32, crate::keys::k_corner_y())
        ||| kind_field_fails(p, FieldKind::I32, crate::keys::k_corner_x_frac())
        ||| kind_field_fails(p, FieldKind::I32, crate::keys::k_corner_y_frac())
        ||| kind_field_fails(p, FieldKind::I16, crate::keys::k_index_in_sheet())
        ||| kind_field_fails(p, FieldKind::Bool, crate::keys::k_is_not_accesible())
        ||| kind_field_fails(p, FieldKind::Bool, crate::keys::k_is_solid())
        ||| kind_field_fails(p, FieldKind::MilsU32, crate::keys::k_line_width())
        ||| kind_field_fails(p, FieldKind::I32, crate::keys::k_location_x())
        ||| kind_field_fails(p, FieldKind::I32, crate::keys::k_location_y())
        ||| kind_field_fails(p, FieldKind::I32, crate::keys::k_location_x_frac())
        ||| kind_field_fails(p, FieldKind::I32, crate::keys::k_location_y_frac())
        ||| kind_field_fails(p, FieldKind::U8, crate::keys::k_owner_index())
        ||| kind_field_fails(p, FieldKind::I8, crate::keys::k_owner_part_id())
        ||| kind_field_fails(p, FieldKind::I8, crate::keys::k_owner_part_display_mode())
        ||| kind_field_fails(p, FieldKind::Bool, crate::keys::k_transparent())
        ||| kind_field_fails(p, FieldKind::Uid, crate::keys::k_unique_id())
    }

    /// Each field as the walk of the pairs leaves it.
    pub open spec fn spec_matches(x: Rectangle, p: SpecPairs) -> bool {
        &&& x.area_color == color_field(p, crate::keys::k_area_color())
        &&& x.color == color_field(p, crate::keys::k_color())
        &&& x.corner == locf_field(p, crate::keys::k_corner_x(), crate::keys::k_corner_y(), crate::keys::k_corner_x_frac(), crate::keys::k_corner_y_frac())
        &&& x.index_in_sheet == i16_field(p, crate::keys::k_index_in_sheet())
        &&& x.is_not_accessible == bool_field(p, crate::keys::k_is_not_accesible())
        &&& x.is_solid == bool_field(p, crate::keys::k_is_solid())
        &&& x.line_width == mils_u32_field(p, crate::keys::k_line_width())
        &&& x.location == locf_field(p, crate::keys::k_location_x(), crate::keys::k_location_y(), crate::keys::k_location_x_frac(), crate::keys::k_location_y_frac())
        &&& x.owner_index == u8_field(p, crate::keys::k_owner_index())
        &&& x.owner_part_id == i8_field(p, crate::keys::k_owner_part_id())
        &&& x.owner_part_display_mode == i8_field(p, crate::keys::k_owner_part_display_mode())
        &&& x.transparent == bool_field(p, crate::keys::k_transparent())
        &&& x.unique_id == uid_field(p, crate::keys::k_unique_id())
    }

    /// Bind the fields of one `Rectangle` record from its key-value pairs.
    #[verifier::loop_isolation(false)]
    #[verifier::rlimit(100)]
    pub fn from_record(pairs: &[(Vec<u8>, Vec<u8>)], counter: &mut UnsupportedCounter) -> (r:
        Result<Rectangle, ErrorKind>)
        ensures
            r is Ok <==> !Rectangle::spec_fails(pairs_view(pairs@)),
            r is Ok ==> Rectangle::spec_matches(r->Ok_0, pairs_view(pairs@)),
            r is Ok ==> final(counter).count == sat_add(
                old(counter).count,
                Rectangle::spec_unknown(pairs_view(pairs@)),
            ),
            final(counter).count >= old(counter).count,
    {
        let ghost p = pairs_view(pairs@);
        proof {
            crate::common::lemma_pairs_view(pairs@);
            assert(p.take(0) =~= Seq::<(Seq<u8>, Seq<u8>)>::empty());
        }
    let a_area_color: [u8; 9] = [0x41u8, 0x72u8, 0x65u8, 0x61u8, 0x43u8, 0x6fu8, 0x6cu8, 0x6fu8, 0x72u8];
    let a_color: [u8; 5] = [0x43u8, 0x6fu8, 0x6cu8, 0x6fu8, 0x72u8];
    let a_corner_x: [u8; 8] = [0x43u8, 0x6fu8, 0x72u8, 0x6eu8, 0x65u8, 0x72u8, 0x2eu8, 0x58u8];
    let a_corner_y: [u8; 8] = [0x43u8, 0x6fu8, 0x72u8, 0x6eu8, 0x65u8, 0x72u8, 0x2eu8, 0x59u8];
    let a_corner_x_frac: [u8; 13] = [0x43u8, 0x6fu8, 0x72u8, 0x6eu8, 0x65u8, 0x72u8, 0x2eu8, 0x58u8, 0x5fu8, 0x46u8, 0x72u8, 0x61u8, 0x63u8];
    let a_corner_y_frac: [u8; 13] = [0x43u8, 0x6fu8, 0x72u8, 0x6eu8, 0x65u8, 0x72u8, 0x2eu8, 0x59u8, 0x5fu8, 0x46u8, 0x72u8, 0x61u8, 0x63u8];
    let a_index_in_sheet: [u8; 12] = [0x49u8, 0x6eu8, 0x64u8, 0x65u8, 0x78u8, 0x49u8, 0x6eu8, 0x53u8, 0x68u8, 0x65u8, 0x65u8, 0x74u8];
    let a_is_not_accesible: [u8; 14] = [0x49u8, 0x73u8, 0x4eu8, 0x6fu8, 0x74u8, 0x41u8, 0x63u8, 0x63u8, 0x65u8, 0x73u8, 0x69u8, 0x62u8, 0x6cu8, 0x65u8];
    let a_is_solid: [u8; 7] = [0x49u8, 0x73u8, 0x53u8, 0x6fu8, 0x6cu8, 0x69u8, 0x64u8];
    let a_line_width: [u8; 9] = [0x4cu8, 0x69u8, 0x6eu8, 0x65u8, 0x57u8, 0x69u8, 0x64u8, 0x74u8, 0x68u8];
    let a_location_x: [u8; 10] = [0x4cu8, 0x6fu8, 0x63u8, 0x61u8, 0x74u8, 0x69u8, 0x6fu8, 0x6eu8, 0x2eu8, 0x58u8];
    let a_location_y: [u8; 10] = [0x4cu8, 0x6fu8, 0x63u8, 0x61u8, 0x74u8, 0x69u8, 0x6fu8, 0x6eu8, 0x2eu8, 0x59u8];
    let a_location_x_frac: [u8; 15] = [0x4cu8, 0x6fu8, 0x63u8, 0x61u8, 0x74u8, 0x69u8, 0x6fu8, 0x6eu8, 0x2eu8, 0x58u8, 0x5fu8, 0x46u8, 0x72u8, 0x61u8, 0x63u8];
    let a_location_y_frac: [u8; 15] = [0x4cu8, 0x6fu8, 0x63u8, 0x61u8, 0x74u8, 0x69u8, 0x6fu8, 0x6eu8, 0x2eu8, 0x59u8, 0x5fu8, 0x46u8, 0x72u8, 0x61u8, 0x63u8];
    let a_owner_index: [u8; 10] = [0x4fu8, 0x77u8, 0x6eu8, 0x65u8, 0x72u8, 0x49u8, 0x6eu8, 0x64u8, 0x65u8, 0x78u8];
    let a_owner_part_id: [u8; 11] = [0x4fu8, 0x77u8, 0x6eu8, 0x65u8, 0x72u8, 0x50u8, 0x61u8, 0x72u8, 0x74u8, 0x49u8, 0x64u8];
    let a_owner_part_display_mode: [u8; 20] = [0x4fu8, 0x77u8, 0x6eu8, 0x65u8, 0x72u8, 0x50u8, 0x61u8, 0x72u8, 0x74u8, 0x44u8, 0x69u8, 0x73u8, 0x70u8, 0x6cu8, 0x61u8, 0x79u8, 0x4du8, 0x6fu8, 0x64u8, 0x65u8];
    let a_transparent: [u8; 11] = [0x54u8, 0x72u8, 0x61u8, 0x6eu8, 0x73u8, 0x70u8, 0x61u8, 0x72u8, 0x65u8, 0x6eu8, 0x74u8];
    let a_unique_id: [u8; 8] = [0x55u8, 0x6eu8, 0x69u8, 0x71u8, 0x75u8, 0x65u8, 0x49u8, 0x44u8];
    proof {
        assert(a_area_color@ =~= crate::keys::k_area_color());
        assert(a_color@ =~= crate::keys::k_color());
        assert(a_corner_x@ =~= crate::keys::k_corner_x());
        assert(a_corner_y@ =~= crate::keys::k_corner_y());
        assert(a_corner_x_frac@ =~= crate::keys::k_corner_x_frac());
        assert(a_corner_y_frac@ =~= crate::keys::k_corner_y_frac());
        assert(a_index_in_sheet@ =~= crate::keys::k_index_in_sheet());
        assert(a_is_not_accesible@ =~= crate::keys::k_is_not_accesible());
        assert(a_is_solid@ =~= crate::keys::k_is_solid());
        assert(a_line_width@ =~= crate::keys::k_line_width());
        assert(a_location_x@ =~= crate::keys::k_location_x());
        assert(a_location_y@ =~= crate::keys::k_location_y());
        assert(a_location_x_frac@ =~= crate::keys::k_location_x_frac());
        assert(a_location_y_frac@ =~= crate::keys::k_location_y_frac());
        assert(a_owner_index@ =~= crate::keys::k_owner_index());
        assert(a_owner_part_id@ =~= crate::keys::k_owner_part_id());
        assert(a_owner_part_display_mode@ =~= crate::keys::k_owner_part_display_mode());
        assert(a_transparent@ =~= crate::keys::k_transparent());
        assert(a_unique_id@ =~= crate::keys::k_unique_id());
        assert(crate::keys::k_area_color() != crate::keys::k_color()) by { assert(crate::keys::k_area_color().len() != crate::keys::k_color().len()); }
        assert(crate::keys::k_area_color() != crate::keys::k_corner_x()) by { assert(crate::keys::k_area_color().len() != crate::keys::k_corner_x().len()); }
        assert(crate::keys::k_area_color() != crate::keys::k_corner_y()) by { assert(crate::keys::k_area_color().len() != crate::keys::k_corner_y().len()); }
        assert(crate::keys::k_area_color() != crate::keys::k_corner_x_frac()) by { assert(crate::keys::k_area_color().len() != crate::keys::k_corner_x_frac().len()); }
        assert(crate::keys::k_area_color() != crate::keys::k_corner_y_frac()) by { assert(crate::keys::k_area_color().len() != crate::keys::k_corner_y_frac().len()); }
        assert(crate::keys::k_area_color() != crate::keys::k_index_in_sheet()) by { assert(crate::keys::k_area_color().len() != crate::keys::k_index_in_sheet().len()); }
        assert(crate::keys::k_area_color() != crate::keys::k_is_not_accesible()) by { assert(crate::keys::k_area_color().len() != crate::keys::k_is_not_accesible().len()); }
        assert(crate::keys::k_area_color() != crate::keys::k_is_solid()) by { assert(crate::keys::k_area_color().len() != crate::keys::k_is_solid().len()); }
        assert(crate::keys::k_area_color() != crate::keys::k_line_width()) by { assert(crate::keys::k_area_color()[0] != crate::keys::k_line_width()[0]); }
        assert(crate::keys::k_area_color() != crate::keys::k_location_x()) by { assert(crate::keys::k_area_color().len() != crate::keys::k_location_x().len()); }
        assert(crate::keys::k_area_color() != crate::keys::k_location_y()) by { assert(crate::keys::k_area_color().len() != crate::keys::k_location_y().len()); }
        assert(crate::keys::k_area_color() != crate::keys::k_location_x_frac()) by { assert(crate::keys::k_area_color().len() != crate::keys::k_location_x_frac().len()); }
        assert(crate::keys::k_area_color() != crate::keys::k_location_y_frac()) by { assert(crate::keys::k_area_color().len() != crate::keys::k_location_y_frac().len()); }
        assert(crate::keys::k_area_color() != crate::keys::k_owner_index()) by { assert(crate::keys::k_area_color().len() != crate::keys::k_owner_index().len()); }
        assert(crate::keys::k_area_color() != crate::keys::k_owner_part_id()) by { assert(crate::keys::k_area_color().len() != crate::keys::k_owner_part_id().len()); }
        assert(crate::keys::k_area_color() != crate::keys::k_owner_part_display_mode()) by { assert(crate::keys::k_area_color().len() != crate::keys::k_owner_part_display_mode().len()); }
        assert(crate::keys::k_area_color() != crate::keys::k_transparent()) by { assert(crate::keys::k_area_color().len() != crate::keys::k_transparent().len()); }
        assert(crate::keys::k_area_color() != crate::keys::k_unique_id()) by { assert(crate::keys::k_area_color().len() != crate::keys::k_unique_id().len()); }
        assert(crate::keys::k_color() != crate::keys::k_corner_x()) by { assert(crate::keys::k_color().len() != crate::keys::k_corner_x().len()); }
        assert(crate::keys::k_color() != crate::keys::k_corner_y()) by { assert(crate::keys::k_color().len() != crate::keys::k_corner_y().len()); }
        assert(crate::keys::k_color() != crate::keys::k_corner_x_frac()) by { assert(crate::keys::k_color().len() != crate::keys::k_corner_x_frac().len()); }
        assert(crate::keys::k_color() != crate::keys::k_corner_y_frac()) by { assert(crate::keys::k_color().len() != crate::keys::k_corner_y_frac().len()); }
        assert(crate::keys::k_color() != crate::keys::k_index_in_sheet()) by { assert(crate::keys::k_color().len() != crate::keys::k_index_in_sheet().len()); }
        assert(crate::keys::k_color() != crate::keys::k_is_not_accesible()) by { assert(crate::keys::k_color().len() != crate::keys::k_is_not_accesible().len()); }
        assert(crate::keys::k_color() != crate::keys::k_is_solid()) by { assert(crate::keys::k_color().len() != crate::keys::k_is_solid().len()); }
        assert(crate::keys::k_color() != crate::keys::k_line_width()) by { assert(crate::keys::k_color().len() != crate::keys::k_line_width().len()); }
        assert(crate::keys::k_color() != crate::keys::k_location_x()) by { assert(crate::keys::k_color().len() != crate::keys::k_location_x().len()); }
        assert(crate::keys::k_color() != crate::keys::k_location_y()) by { assert(crate::keys::k_color().len() != crate::keys::k_location_y().len()); }
        assert(crate::keys::k_color() != crate::keys::k_location_x_frac()) by { assert(crate::keys::k_color().len() != crate::keys::k_location_x_frac().len()); }
        assert(crate::keys::k_color() != crate::keys::k_location_y_frac()) by { assert(crate::keys::k_color().len() != crate::keys::k_location_y_frac().len()); }
        assert(crate::keys::k_color() != crate::keys::k_owner_index()) by { assert(crate::keys::k_color().len() != crate::keys::k_owner_index().len()); }
        assert(crate::keys::k_color() != crate::keys::k_owner_part_id()) by { assert(crate::keys::k_color().len() != crate::keys::k_owner_part_id().len()); }
        assert(crate::keys::k_color() != crate::keys::k_owner_part_display_mode()) by { assert(crate::keys::k_color().len() != crate::keys::k_owner_part_display_mode().len()); }
        assert(crate::keys::k_color() != crate::keys::k_transparent()) by { assert(crate::keys::k_color().len() != crate::keys::k_transparent().len()); }
        assert(crate::keys::k_color() != crate::keys::k_unique_id()) by { assert(crate::keys::k_color().len() != crate::keys::k_unique_id().len()); }
        assert(crate::keys::k_corner_x() != crate::keys::k_corner_y()) by { assert(crate::keys::k_corner_x()[7] != crate::keys::k_corner_y()[7]); }
        assert(crate::keys::k_corner_x() != crate::keys::k_corner_x_frac()) by { assert(crate::keys::k_corner_x().len() != crate::keys::k_corner_x_frac().len()); }
        assert(crate::keys::k_corner_x() != crate::keys::k_corner_y_frac()) by { assert(crate::keys::k_corner_x().len() != crate::keys::k_corner_y_frac().len()); }
        assert(crate::keys::k_corner_x() != crate::keys::k_index_in_sheet()) by { assert(crate::keys::k_corner_x().len() != crate::keys::k_index_in_sheet().len()); }
        assert(crate::keys::k_corner_x() != crate::keys::k_is_not_accesible()) by { assert(crate::keys::k_corner_x().len() != crate::keys::k_is_not_accesible().len()); }
        assert(crate::keys::k_corner_x() != crate::keys::k_is_solid()) by { assert(crate::keys::k_corner_x().len() != crate::keys::k_is_solid().len()); }
        assert(crate::keys::k_corner_x() != crate::keys::k_line_width()) by { assert(crate::keys::k_corner_x().len() != crate::keys::k_line_width().len()); }
        assert(crate::keys::k_corner_x() != crate::keys::k_location_x()) by { assert(crate::keys::k_corner_x().len() != crate::keys::k_location_x().len()); }
        assert(crate::keys::k_corner_x() != crate::keys::k_location_y()) by { assert(crate::keys::k_corner_x().len() != crate::keys::k_location_y().len()); }
        assert(crate::keys::k_corner_x() != crate::keys::k_location_x_frac()) by { assert(crate::keys::k_corner_x().len() != crate::keys::k_location_x_frac().len()); }
        assert(crate::keys::k_corner_x() != crate::keys::k_location_y_frac()) by { assert(crate::keys::k_corner_x().len() != crate::keys::k_location_y_frac().len()); }
        assert(crate::keys::k_corner_x() != crate::keys::k_owner_index()) by { assert(crate::keys::k_corner_x().len() != crate::keys::k_owner_index().len()); }
        assert(crate::keys::k_corner_x() != crate::keys::k_owner_part_id()) by { assert(crate::keys::k_corner_x().len() != crate::keys::k_owner_part_id().len()); }
        assert(crate::keys::k_corner_x() != crate::keys::k_owner_part_display_mode()) by { assert(crate::keys::k_corner_x().len() != crate::keys::k_owner_part_display_mode().len()); }
        assert(crate::keys::k_corner_x() != crate::keys::k_transparent()) by { assert(crate::keys::k_corner_x().len() != crate::keys::k_transparent().len()); }
        assert(crate::keys::k_corner_x() != crate::keys::k_unique_id()) by { assert(crate::keys::k_corner_x()[0] != crate::keys::k_unique_id()[0]); }
        assert(crate::keys::k_corner_y() != crate::keys::k_corner_x_frac()) by { assert(crate::keys::k_corner_y().len() != crate::keys::k_corner_x_frac().len()); }
        assert(crate::keys::k_corner_y() != crate::keys::k_corner_y_frac()) by { assert(crate::keys::k_corner_y().len() != crate::keys::k_corner_y_frac().len()); }
        assert(crate::keys::k_corner_y() != crate::keys::k_index_in_sheet()) by { assert(crate::keys::k_corner_y().len() != crate::keys::k_index_in_sheet().len()); }
        assert(crate::keys::k_corner_y() != crate::keys::k_is_not_accesible()) by { assert(crate::keys::k_corner_y().len() != crate::keys::k_is_not_accesible().len()); }
        assert(crate::keys::k_corner_y() != crate::keys::k_is_solid()) by { assert(crate::keys::k_corner_y().len() != crate::keys::k_is_solid().len()); }
        assert(crate::keys::k_corner_y() != crate::keys::k_line_width()) by { assert(crate::keys::k_corner_y().len() != crate::keys::k_line_width().len()); }
        assert(crate::keys::k_corner_y() != crate::keys::k_location_x()) by { assert(crate::keys::k_corner_y().len() != crate::keys::k_location_x().len()); }
        assert(crate::keys::k_corner_y() != crate::keys::k_location_y()) by { assert(crate::keys::k_corner_y().len() != crate::keys::k_location_y().len()); }
        assert(crate::keys::k_corner_y() != crate::keys::k_location_x_frac()) by { assert(crate::keys::k_corner_y().len() != crate::keys::k_location_x_frac().len()); }
        assert(crate::keys::k_corner_y() != crate::keys::k_location_y_frac()) by { assert(crate::keys::k_corner_y().len() != crate::keys::k_location_y_frac().len()); }
        assert(crate::keys::k_corner_y() != crate::keys::k_owner_index()) by { assert(crate::keys::k_corner_y().len() != crate::keys::k_owner_index().len()); }
        assert(crate::keys::k_corner_y() != crate::keys::k_owner_part_id()) by { assert(crate::keys::k_corner_y().len() != crate::keys::k_owner_part_id().len()); }
        assert(crate::keys::k_corner_y() != crate::keys::k_owner_part_display_mode()) by { assert(crate::keys::k_corner_y().len() != crate::keys::k_owner_part_display_mode().len()); }
        assert(crate::keys::k_corner_y() != crate::keys::k_transparent()) by { assert(crate::keys::k_corner_y().len() != crate::keys::k_transparent().len()); }
        assert(crate::keys::k_corner_y() != crate::keys::k_unique_id()) by { assert(crate::keys::k_corner_y()[0] != crate::keys::k_unique_id()[0]); }
        assert(crate::keys::k_corner_x_frac() != crate::keys::k_corner_y_frac()) by { assert(crate::keys::k_corner_x_frac()[7] != crate::keys::k_corner_y_frac()[7]); }
        assert(crate::keys::k_corner_x_frac() != crate::keys::k_index_in_sheet()) by { assert(crate::keys::k_corner_x_frac().len() != crate::keys::k_index_in_sheet().len()); }
        assert(crate::keys::k_corner_x_frac() != crate::keys::k_is_not_accesible()) by { assert(crate::keys::k_corner_x_frac().len() != crate::keys::k_is_not_accesible().len()); }
        assert(crate::keys::k_corner_x_frac() != crate::keys::k_is_solid()) by { assert(crate::keys::k_corner_x_frac().len() != crate::keys::k_is_solid().len()); }
        assert(crate::keys::k_corner_x_frac() != crate::keys::k_line_width()) by { assert(crate::keys::k_corner_x_frac().len() != crate::keys::k_line_width().len()); }
        assert(crate::keys::k_corner_x_frac() != crate::keys::k_location_x()) by { assert(crate::keys::k_corner_x_frac().len() != crate::keys::k_location_x().len()); }
        assert(crate::keys::k_corner_x_frac() != crate::keys::k_location_y()) by { assert(crate::keys::k_corner_x_frac().len() != crate::keys::k_location_y().len()); }
        assert(crate::keys::k_corner_x_frac() != crate::keys::k_location_x_frac()) by { assert(crate::keys::k_corner_x_frac().len() != crate::keys::k_location_x_frac().len()); }
        assert(crate::keys::k_corner_x_frac() != crate::keys::k_location_y_frac()) by { assert(crate::keys::k_corner_x_frac().len() != crate::keys::k_location_y_frac().len()); }
        assert(crate::keys::k_corner_x_frac() != crate::keys::k_owner_index()) by { assert(crate::keys::k_corner_x_frac().len() != crate::keys::k_owner_index().len()); }
        assert(crate::keys::k_corner_x_frac() != crate::keys::k_owner_part_id()) by { assert(crate::keys::k_corner_x_frac().len() != crate::keys::k_owner_part_id().len()); }
        assert(crate::keys::k_corner_x_frac() != crate::keys::k_owner_part_display_mode()) by { assert(crate::keys::k_corner_x_frac().len() != crate::keys::k_owner_part_display_mode().len()); }
        assert(crate::keys::k_corner_x_frac() != crate::keys::k_transparent()) by { assert(crate::keys::k_corner_x_frac().len() != crate::keys::k_transparent().len()); }
        assert(crate::keys::k_corner_x_frac() != crate::keys::k_unique_id()) by { assert(crate::keys::k_corner_x_frac().len() != crate::keys::k_unique_id().len()); }
        assert(crate::keys::k_corner_y_frac() != crate::keys::k_index_in_sheet()) by { assert(crate::keys::k_corner_y_frac().len() != crate::keys::k_index_in_sheet().len()); }
        assert(crate::keys::k_corner_y_frac() != crate::keys::k_is_not_accesible()) by { assert(crate::keys::k_corner_y_frac().len() != crate::keys::k_is_not_accesible().len()); }
        assert(crate::keys::k_corner_y_frac() != crate::keys::k_is_solid()) by { assert(crate::keys::k_corner_y_frac().len() != crate::keys::k_is_solid().len()); }
        assert(crate::keys::k_corner_y_frac() != crate::keys::k_line_width()) by { assert(crate::keys::k_corner_y_frac().len() != crate::keys::k_line_width().len()); }
        assert(crate::keys::k_corner_y_frac() != crate::keys::k_location_x()) by { assert(crate::keys::k_corner_y_frac().len() != crate::keys::k_location_x().len()); }
        assert(crate::keys::k_corner_y_frac() != crate::keys::k_location_y()) by { assert(crate::keys::k_corner_y_frac().len() != crate::keys::k_location_y().len()); }
        assert(crate::keys::k_corner_y_frac() != crate::keys::k_location_x_frac()) by { assert(crate::keys::k_corner_y_frac().len() != crate::keys::k_location_x_frac().len()); }
        assert(crate::keys::k_corner_y_frac() != crate::keys::k_location_y_frac()) by { assert(crate::keys::k_corner_y_frac().len() != crate::keys::k_location_y_frac().len()); }
        assert(crate::keys::k_corner_y_frac() != crate::keys::k_owner_index()) by { assert(crate::keys::k_corner_y_frac().len() != crate::keys::k_owner_index().len()); }
        assert(crate::keys::k_corner_y_frac() != crate::keys::k_owner_part_id()) by { assert(crate::keys::k_corner_y_frac().len() != crate::keys::k_owner_part_id().len()); }
        assert(crate::keys::k_corner_y_frac() != crate::keys::k_owner_part_display_mode()) by { assert(crate::keys::k_corner_y_frac().len() != crate::keys::k_owner_part_display_mode().len()); }
        assert(crate::keys::k_corner_y_frac() != crate::keys::k_transparent()) by { assert(crate::keys::k_corner_y_frac().len() != crate::keys::k_transparent().len()); }
        assert(crate::keys::k_corner_y_frac() != crate::keys::k_unique_id()) by { assert(crate::keys::k_corner_y_frac().len() != crate::keys::k_unique_id().len()); }
        assert(crate::keys::k_index_in_sheet() != crate::keys::k_is_not_accesible()) by { assert(crate::keys::k_index_in_sheet().len() != crate::keys::k_is_not_accesible().len()); }
        assert(crate::keys::k_index_in_sheet() != crate::keys::k_is_solid()) by { assert(crate::keys::k_index_in_sheet().len() != crate::keys::k_is_solid().len()); }
        assert(crate::keys::k_index_in_sheet() != crate::keys::k_line_width()) by { assert(crate::keys::k_index_in_sheet().len() != crate::keys::k_line_width().len()); }
        assert(crate::keys::k_index_in_sheet() != crate::keys::k_location_x()) by { assert(crate::keys::k_index_in_sheet().len() != crate::keys::k_location_x().len()); }
        assert(crate::keys::k_index_in_sheet() != crate::keys::k_location_y()) by { assert(crate::keys::k_index_in_sheet().len() != crate::keys::k_location_y().len()); }
        assert(crate::keys::k_index_in_sheet() != crate::keys::k_location_x_frac()) by { assert(crate::keys::k_index_in_sheet().len() != crate::keys::k_location_x_frac().len()); }
        assert(crate::keys::k_index_in_sheet() != crate::keys::k_location_y_frac()) by { assert(crate::keys::k_index_in_sheet().len() != crate::keys::k_location_y_frac().len()); }
        assert(crate::keys::k_index_in_sheet() != crate::keys::k_owner_index()) by { assert(crate::keys::k_index_in_sheet().len() != crate::keys::k_owner_index().len()); }
        assert(crate::keys::k_index_in_sheet() != crate::keys::k_owner_part_id()) by { assert(crate::keys::k_index_in_sheet().len() != crate::keys::k_owner_part_id().len()); }
        assert(crate::keys::k_index_in_sheet() != crate::keys::k_owner_part_display_mode()) by { assert(crate::keys::k_index_in_sheet().len() != crate::keys::k_owner_part_display_mode().len()); }
        assert(crate::keys::k_index_in_sheet() != crate::keys::k_transparent()) by { assert(crate::keys::k_index_in_sheet().len() != crate::keys::k_transparent().len()); }
        assert(crate::keys::k_index_in_sheet() != crate::keys::k_unique_id()) by { assert(crate::keys::k_index_in_sheet().len() != crate::keys::k_unique_id().len()); }
        assert(crate::keys::k_is_not_accesible() != crate::keys::k_is_solid()) by { assert(crate::keys::k_is_not_accesible().len() != crate::keys::k_is_solid().len()); }
        assert(crate::keys::k_is_not_accesible() != crate::keys::k_line_width()) by { assert(crate::keys::k_is_not_accesible().len() != crate::keys::k_line_width().len()); }
        assert(crate::keys::k_is_not_accesible() != crate::keys::k_location_x()) by { assert(crate::keys::k_is_not_accesible().len() != crate::keys::k_location_x().len()); }
        assert(crate::keys::k_is_not_accesible() != crate::keys::k_location_y()) by { assert(crate::keys::k_is_not_accesible().len() != crate::keys::k_location_y().len()); }
        assert(crate::keys::k_is_not_accesible() != crate::keys::k_location_x_frac()) by { assert(crate::keys::k_is_not_accesible().len() != crate::keys::k_location_x_frac().len()); }
        assert(crate::keys::k_is_not_accesible() != crate::keys::k_location_y_frac()) by { assert(crate::keys::k_is_not_accesible().len() != crate::keys::k_location_y_frac().len()); }
        assert(crate::keys::k_is_not_accesible() != crate::keys::k_owner_index()) by { assert(crate::keys::k_is_not_accesible().len() != crate::keys::k_owner_index().len()); }
        assert(crate::keys::k_is_not_accesible() != crate::keys::k_owner_part_id()) by { assert(crate::keys::k_is_not_accesible().len() != crate::keys::k_owner_part_id().len()); }
        assert(crate::keys::k_is_not_accesible() != crate::keys::k_owner_part_display_mode()) by { assert(crate::keys::k_is_not_accesible().len() != crate::keys::k_owner_part_display_mode().len()); }
        assert(crate::keys::k_is_not_accesible() != crate::keys::k_transparent()) by { assert(crate::keys::k_is_not_accesible().len() != crate::keys::k_transparent().len()); }
        assert(crate::keys::k_is_not_accesible() != crate::keys::k_unique_id()) by { assert(crate::keys::k_is_not_accesible().len() != crate::keys::k_unique_id().len()); }
        assert(crate::keys::k_is_solid() != crate::keys::k_line_width()) by { assert(crate::keys::k_is_solid().len() != crate::keys::k_line_width().len()); }
        assert(crate::keys::k_is_solid() != crate::keys::k_location_x()) by { assert(crate::keys::k_is_solid().len() != crate::keys::k_location_x().len()); }
        assert(crate::keys::k_is_solid() != crate::keys::k_location_y()) by { assert(crate::keys::k_is_solid().len() != crate::keys::k_location_y().len()); }
        assert(crate::keys::k_is_solid() != crate::keys::k_location_x_frac()) by { assert(crate::keys::k_is_solid().len() != crate::keys::k_location_x_frac().len()); }
        assert(crate::keys::k_is_solid() != crate::keys::k_location_y_frac()) by { assert(crate::keys::k_is_solid().len() != crate::keys::k_location_y_frac().len()); }
        assert(crate::keys::k_is_solid() != crate::keys::k_owner_index()) by { assert(crate::keys::k_is_solid().len() != crate::keys::k_owner_index().len()); }
        assert(crate::keys::k_is_solid() != crate::keys::k_owner_part_id()) by { assert(crate::keys::k_is_solid().len() != crate::keys::k_owner_part_id().len()); }
        assert(crate::keys::k_is_solid() != crate::keys::k_owner_part_display_mode()) by { assert(crate::keys::k_is_solid().len() != crate::keys::k_owner_part_display_mode().len()); }
        assert(crate::keys::k_is_solid() != crate::keys::k_transparent()) by { assert(crate::keys::k_is_solid().len() != crate::keys::k_transparent().len()); }
        assert(crate::keys::k_is_solid() != crate::keys::k_unique_id()) by { assert(crate::keys::k_is_solid().len() != crate::keys::k_unique_id().len()); }
        assert(crate::keys::k_line_width() != crate::keys::k_location_x()) by { assert(crate::keys::k_line_width().len() != crate::keys::k_location_x().len()); }
        assert(crate::keys::k_line_width() != crate::keys::k_location_y()) by { assert(crate::keys::k_line_width().len() != crate::keys::k_location_y().len()); }
        assert(crate::keys::k_line_width() != crate::keys::k_location_x_frac()) by { assert(crate::keys::k_line_width().len() != crate::keys::k_location_x_frac().len()); }
        assert(crate::keys::k_line_width() != crate::keys::k_location_y_frac()) by { assert(crate::keys::k_line_width().len() != crate::keys::k_location_y_frac().len()); }
        assert(crate::keys::k_line_width() != crate::keys::k_owner_index()) by { assert(crate::keys::k_line_width().len() != crate::keys::k_owner_index().len()); }
        assert(crate::keys::k_line_width() != crate::keys::k_owner_part_id()) by { assert(crate::keys::k_line_width().len() != crate::keys::k_owner_part_id().len()); }
        assert(crate::keys::k_line_width() != crate::keys::k_owner_part_display_mode()) by { assert(crate::keys::k_line_width().len() != crate::keys::k_owner_part_display_mode().len()); }
        assert(crate::keys::k_line_width() != crate::keys::k_transparent()) by { assert(crate::keys::k_line_width().len() != crate::keys::k_transparent().len()); }
        assert(crate::keys::k_line_width() != crate::keys::k_unique_id()) by { assert(crate::keys::k_line_width().len() != crate::keys::k_unique_id().len()); }
        assert(crate::keys::k_location_x() != crate::keys::k_location_y()) by { assert(crate::keys::k_location_x()[9] != crate::keys::k_location_y()[9]); }
        assert(crate::keys::k_location_x() != crate::keys::k_location_x_frac()) by { assert(crate::keys::k_location_x().len() != crate::keys::k_location_x_frac().len()); }
        assert(crate::keys::k_location_x() != crate::keys::k_location_y_frac()) by { assert(crate::keys::k_location_x().len() != crate::keys::k_location_y_frac().len()); }
        assert(crate::keys::k_location_x() != crate::keys::k_owner_index()) by { assert(crate::keys::k_location_x()[0] != crate::keys::k_owner_index()[0]); }
        assert(crate::keys::k_location_x() != crate::keys::k_owner_part_id()) by { assert(crate::keys::k_location_x().len() != crate::keys::k_owner_part_id().len()); }
        assert(crate::keys::k_location_x() != crate::keys::k_owner_part_display_mode()) by { assert(crate::keys::k_location_x().len() != crate::keys::k_owner_part_display_mode().len()); }
        assert(crate::keys::k_location_x() != crate::keys::k_transparent()) by { assert(crate::keys::k_location_x().len() != crate::keys::k_transparent().len()); }
        assert(crate::keys::k_location_x() != crate::keys::k_unique_id()) by { assert(crate::keys::k_location_x().len() != crate::keys::k_unique_id().len()); }
        assert(crate::keys::k_location_y() != crate::keys::k_location_x_frac()) by { assert(crate::keys::k_location_y().len() != crate::keys::k_location_x_frac().len()); }
        assert(crate::keys::k_location_y() != crate::keys::k_location_y_frac()) by { assert(crate::keys::k_location_y().len() != crate::keys::k_location_y_frac().len()); }
        assert(crate::keys::k_location_y() != crate::keys::k_owner_index()) by { assert(crate::keys::k_location_y()[0] != crate::keys::k_owner_index()[0]); }
        assert(crate::keys::k_location_y() != crate::keys::k_owner_part_id()) by { assert(crate::keys::k_location_y().len() != crate::keys::k_owner_part_id().len()); }
        assert(crate::keys::k_location_y() != crate::keys::k_owner_part_display_mode()) by { assert(crate::keys::k_location_y().len() != crate::keys::k_owner_part_display_mode().len()); }
        assert(crate::keys::k_location_y() != crate::keys::k_transparent()) by { assert(crate::keys::k_location_y().len() != crate::keys::k_transparent().len()); }
        assert(crate::keys::k_location_y() != crate::keys::k_unique_id()) by { assert(crate::keys::k_location_y().len() != crate::keys::k_unique_id().len()); }
        assert(crate::keys::k_location_x_frac() != crate::keys::k_location_y_frac()) by { assert(crate::keys::k_location_x_frac()[9] != crate::keys::k_location_y_frac()[9]); }
        assert(crate::keys::k_location_x_frac() != crate::keys::k_owner_index()) by { assert(crate::keys::k_location_x_frac().len() != crate::keys::k_owner_index().len()); }
        assert(crate::keys::k_location_x_frac() != crate::keys::k_owner_part_id()) by { assert(crate::keys::k_location_x_frac().len() != crate::keys::k_owner_part_id().len()); }
        assert(crate::keys::k_location_x_frac() != crate::keys::k_owner_part_display_mode()) by { assert(crate::keys::k_location_x_frac().len() != crate::keys::k_owner_part_display_mode().len()); }
        assert(crate::keys::k_location_x_frac() != crate::keys::k_transparent()) by { assert(crate::keys::k_location_x_frac().len() != crate::keys::k_transparent().len()); }
        assert(crate::keys::k_location_x_frac() != crate::keys::k_unique_id()) by { assert(crate::keys::k_location_x_frac().len() != crate::keys::k_unique_id().len()); }
        assert(crate::keys::k_location_y_frac() != crate::keys::k_owner_index()) by { assert(crate::keys::k_location_y_frac().len() != crate::keys::k_owner_index().len()); }
        assert(crate::keys::k_location_y_frac() != crate::keys::k_owner_part_id()) by { assert(crate::keys::k_location_y_frac().len() != crate::keys::k_owner_part_id().len()); }
        assert(crate::keys::k_location_y_frac() != crate::keys::k_owner_part_display_mode()) by { assert(crate::keys::k_location_y_frac().len() != crate::keys::k_owner_part_display_mode().len()); }
        assert(crate::keys::k_location_y_frac() != crate::keys::k_transparent()) by { assert(crate::keys::k_location_y_frac().len() != crate::keys::k_transparent().len()); }
        assert(crate::keys::k_location_y_frac() != crate::keys::k_unique_id()) by { assert(crate::keys::k_location_y_frac().len() != crate::keys::k_unique_id().len()); }
        assert(crate::keys::k_owner_index() != crate::keys::k_owner_part_id()) by { assert(crate::keys::k_owner_index().len() != crate::keys::k_owner_part_id().len()); }
        assert(crate::keys::k_owner_index() != crate::keys::k_owner_part_display_mode()) by { assert(crate::keys::k_owner_index().len() != crate::keys::k_owner_part_display_mode().len()); }
        assert(crate::keys::k_owner_index() != crate::keys::k_transparent()) by { assert(crate::keys::k_owner_index().len() != crate::keys::k_transparent().len()); }
        assert(crate::keys::k_owner_index() != crate::keys::k_unique_id()) by { assert(crate::keys::k_owner_index().len() != crate::keys::k_unique_id().len()); }
        assert(crate::keys::k_owner_part_id() != crate::keys::k_owner_part_display_mode()) by { assert(crate::keys::k_owner_part_id().len() != crate::keys::k_owner_part_display_mode().len()); }
        assert(crate::keys::k_owner_part_id() != crate::keys::k_transparent()) by { assert(crate::keys::k_owner_part_id()[0] != crate::keys::k_transparent()[0]); }
        assert(crate::keys::k_owner_part_id() != crate::keys::k_unique_id()) by { assert(crate::keys::k_owner_part_id().len() != crate::keys::k_unique_id().len()); }
        assert(crate::keys::k_owner_part_display_mode() != crate::keys::k_transparent()) by { assert(crate::keys::k_owner_part_display_mode().len() != crate::keys::k_transparent().len()); }
        assert(crate::keys::k_owner_part_display_mode() != crate::keys::k_unique_id()) by { assert(crate::keys::k_owner_part_display_mode().len() != crate::keys::k_unique_id().len()); }
        assert(crate::keys::k_transparent() != crate::keys::k_unique_id()) by { assert(crate::keys::k_transparent().len() != crate::keys::k_unique_id().len()); }
    }
        let mut x = Rectangle {
        area_color: Rgb { r: 0, g: 0, b: 0 },
        color: Rgb { r: 0, g: 0, b: 0 },
        corner: LocationFract { x: 0, x_fract: 0, y: 0, y_fract: 0 },
        index_in_sheet: 0,
        is_not_accessible: false,
        is_solid: false,
        line_width: 0,
        location: LocationFract { x: 0, x_fract: 0, y: 0, y_fract: 0 },
        owner_index: 0,
        owner_part_id: 0,
        owner_part_display_mode: 0,
        transparent: false,
        unique_id: UniqueId::Simple([0x30u8, 0x30u8, 0x30u8, 0x30u8, 0x30u8, 0x30u8, 0x30u8, 0x30u8]),
        };

        let n = pairs.len();
        let mut i: usize = 0;
        while i < n
            invariant
                0 <= i <= n,
                n == pairs@.len(),
                !Rectangle::spec_fails(p.take(i as int)),
                Rectangle::spec_matches(x, p.take(i as int)),

                counter.count == sat_add(old(counter).count, Rectangle::spec_unknown(p.take(i as int))),
                0 <= Rectangle::spec_unknown(p.take(i as int)) <= i,
            decreases n - i,
        {
            let key: &[u8] = pairs[i].0.as_slice();
            let val: &[u8] = pairs[i].1.as_slice();
            proof {
                assert(p[i as int] == (pairs@[i as int].0@, pairs@[i as int].1@));
                assert(p.take(i as int + 1).drop_last() =~= p.take(i as int));
                assert(p.take(i as int + 1).last() == p[i as int]);
                assert forall|j: int| 0 <= j <= i implies #[trigger] p.take(i as int + 1).take(j)
                    == p.take(j) by {
                    assert(p.take(i as int + 1).take(j) =~= p.take(j));
                }
                assert forall|j: int| 0 <= j <= i implies #[trigger] p.take(i as int).take(j)
                    == p.take(j) by {
                    assert(p.take(i as int).take(j) =~= p.take(j));
                }
            }
        if crate::common::bytes_eq(key, a_area_color.as_slice()) {
                    match Rgb::from_utf8(val) {
                        Ok(v) => { x.area_color = v; },
                        Err(e) => {
                            proof {
                                assert(p[i as int].0 == crate::keys::k_area_color());
                                assert(kind_field_fails(p, FieldKind::Color, crate::keys::k_area_color()));
                            }
                            return Err(e);
                        },
                    }
                }
        else if crate::common::bytes_eq(key, a_color.as_slice()) {
                    match Rgb::from_utf8(val) {
                        Ok(v) => { x.color = v; },
                        Err(e) => {
                            proof {
                                assert(p[i as int].0 == crate::keys::k_color());
                                assert(kind_field_fails(p, FieldKind::Color, crate::keys::k_color()));
                            }
                            return Err(e);
                        },
                    }
                }
        else if crate::common::bytes_eq(key, a_corner_x.as_slice()) {
                    match crate::parse::parse_i32(val) {
                        Ok(v) => { x.corner.x = v; },
                        Err(e) => {
                            proof {
                                assert(p[i as int].0 == crate::keys::k_corner_x());
                                assert(kind_field_fails(p, FieldKind::I32, crate::keys::k_corner_x()));
                            }
                            return Err(e);
                        },
                    }
                }
        else if crate::common::bytes_eq(key, a_corner_y.as_slice()) {
                    match crate::parse::parse_i32(val) {
                        Ok(v) => { x.corner.y = v; },
                        Err(e) => {
                            proof {
                                assert(p[i as int].0 == crate::keys::k_corner_y());
                                assert(kind_field_fails(p, FieldKind::I32, crate::keys::k_corner_y()));
                            }
                            return Err(e);
                        },
                    }
                }
        else if crate::common::bytes_eq(key, a_corner_x_frac.as_slice()) {
                    match crate::parse::parse_i32(val) {
                        Ok(v) => { x.corner.x_fract = v; },
                        Err(e) => {
                            proof {
                                assert(p[i as int].0 == crate::keys::k_corner_x_frac());
                                assert(kind_field_fails(p, FieldKind::I32, crate::keys::k_corner_x_frac()));
                            }
                            return Err(e);
                        },
                    }
                }
        else if crate::common::bytes_eq(key, a_corner_y_frac.as_slice()) {
                    match crate::parse::parse_i32(val) {
                        Ok(v) => { x.corner.y_fract = v; },
                        Err(e) => {
                            proof {
                                assert(p[i as int].0 == crate::keys::k_corner_y_frac());
                                assert(kind_field_fails(p, FieldKind::I32, crate::keys::k_corner_y_frac()));
                            }
                            return Err(e);
                        },
                    }
                }
        else if crate::common::bytes_eq(key, a_index_in_sheet.as_slice()) {
                    match crate::parse::parse_i16(val) {
                        Ok(v) => { x.index_in_sheet = v; },
                        Err(e) => {
                            proof {
                                assert(p[i as int].0 == crate::keys::k_index_in_sheet());
                                assert(kind_field_fails(p, FieldKind::I16, crate::keys::k_index_in_sheet()));
                            }
                            return Err(e);
                        },
                    }
                }
        else if crate::common::bytes_eq(key, a_is_not_accesible.as_slice()) {
                    match crate::parse::parse_bool(val) {
                        Ok(v) => { x.is_not_accessible = v; },
                        Err(e) => {
                            proof {
                                assert(p[i as int].0 == crate::keys::k_is_not_accesible());
                                assert(kind_field_fails(p, FieldKind::Bool, crate::keys::k_is_not_accesible()));
                            }
                            return Err(e);
                        },
                    }
                }
        else if crate::common::bytes_eq(key, a_is_solid.as_slice()) {
                    match crate::parse::parse_bool(val) {
                        Ok(v) => { x.is_solid = v; },
                        Err(e) => {
                            proof {
                                assert(p[i as int].0 == crate::keys::k_is_solid());
                                assert(kind_field_fails(p, FieldKind::Bool, crate::keys::k_is_solid()));
                            }
                            return Err(e);
                        },
                    }
                }
        else if crate::common::bytes_eq(key, a_line_width.as_slice()) {
                    match crate::parse::parse_u32(val) {
                        Ok(n) => match crate::common::mils_to_nm_u32(n) {
                            Ok(v) => { x.line_width = v; },
                            Err(e) => {
                                proof {
                                    assert(p[i as int].0 == crate::keys::k_line_width());
                                    assert(kind_field_fails(p, FieldKind::MilsU32, crate::keys::k_line_width()));
                                }
                                return Err(e);
                            },
                        },
                        Err(e) => {
                            proof {
                                assert(p[i as int].0 == crate::keys::k_line_width());
                                assert(kind_field_fails(p, FieldKind::MilsU32, crate::keys::k_line_width()));
                            }
                            return Err(e);
                        },
                    }
                }
        else if crate::common::bytes_eq(key, a_location_x.as_slice()) {
                    match crate::parse::parse_i32(val) {
                        Ok(v) => { x.location.x = v; },
                        Err(e) => {
                            proof {
                                assert(p[i as int].0 == crate::keys::k_location_x());
                                assert(kind_field_fails(p, FieldKind::I32, crate::keys::k_location_x()));
                            }
                            return Err(e);
                        },
                    }
                }
        else if crate::common::bytes_eq(key, a_location_y.as_slice()) {
                    match crate::parse::parse_i32(val) {
                        Ok(v) => { x.location.y = v; },
                        Err(e) => {
                            proof {
                                assert(p[i as int].0 == crate::keys::k_location_y());
                                assert(kind_field_fails(p, FieldKind::I32, crate::keys::k_location_y()));
                            }
                            return Err(e);
                        },
                    }
                }
        else if crate::common::bytes_eq(key, a_location_x_frac.as_slice()) {
                    match crate::parse::parse_i32(val) {
                        Ok(v) => { x.location.x_fract = v; },
                        Err(e) => {
                            proof {
                                assert(p[i as int].0 == crate::keys::k_location_x_frac());
                                assert(kind_field_fails(p, FieldKind::I32, crate::keys::k_location_x_frac()));
                            }
                            return Err(e);
                        },
                    }
                }
        else if crate::common::bytes_eq(key, a_location_y_frac.as_slice()) {
                    match crate::parse::parse_i32(val) {
                        Ok(v) => { x.location.y_fract = v; },
                        Err(e) => {
                            proof {
                                assert(p[i as int].0 == crate::keys::k_location_y_frac());
                                assert(kind_field_fails(p, FieldKind::I32, crate::keys::k_location_y_frac()));
                            }
                            return Err(e);
                        },
                    }
                }
        else if crate::common::bytes_eq(key, a_owner_index.as_slice()) {
                    match crate::parse::parse_u8(val) {
                        Ok(v) => { x.owner_index = v; },
                        Err(e) => {
                            proof {
                                assert(p[i as int].0 == crate::keys::k_owner_index());
                                assert(kind_field_fails(p, FieldKind::U8, crate::keys::k_owner_index()));
                            }
                            return Err(e);
                        },
                    }
                }
        else if crate::common::bytes_eq(key, a_owner_part_id.as_slice()) {
                    match crate::parse::parse_i8(val) {
                        Ok(v) => { x.owner_part_id = v; },
                        Err(e) => {
                            proof {
                                assert(p[i as int].0 == crate::keys::k_owner_part_id());
                                assert(kind_field_fails(p, FieldKind::I8, crate::keys::k_owner_part_id()));
                            }
                            return Err(e);
                        },
                    }
                }
        else if crate::common::bytes_eq(key, a_owner_part_display_mode.as_slice()) {
                    match crate::parse::parse_i8(val) {
                        Ok(v) => { x.owner_part_display_mode = v; },
                        Err(e) => {
                            proof {
                                assert(p[i as int].0 == crate::keys::k_owner_part_display_mode());
                                assert(kind_field_fails(p, FieldKind::I8, crate::keys::k_owner_part_display_mode()));
                            }
                            return Err(e);
                        },
                    }
                }
        else if crate::common::bytes_eq(key, a_transparent.as_slice()) {
                    match crate::parse::parse_bool(val) {
                        Ok(v) => { x.transparent = v; },
                        Err(e) => {
                            proof {
                                assert(p[i as int].0 == crate::keys::k_transparent());
                                assert(kind_field_fails(p, FieldKind::Bool, crate::keys::k_transparent()));
                            }
                            return Err(e);
                        },
                    }
                }
        else if crate::common::bytes_eq(key, a_unique_id.as_slice()) {
                    match UniqueId::from_utf8(val) {
                        Ok(v) => { x.unique_id = v; },
                        Err(e) => {
                            proof {
                                assert(p[i as int].0 == crate::keys::k_unique_id());
                                assert(kind_field_fails(p, FieldKind::Uid, crate::keys::k_unique_id()));
                            }
                            return Err(e);
                        },
                    }
                }
        else {
            crate::logging::macro_unsupported_key(counter, "Rectangle", key, val);
        }
            i += 1;
        }
        proof {
            assert(p.take(n as int) =~= p);
        }
        Ok(x)
    }
}

impl SheetSymbol {
    /// The wire record ID of this kind.
    pub open spec fn spec_record_id() -> u32 {
        15
    }

    /// Whether the binder recognizes this wire key.
    pub open spec fn spec_known_key(k: Seq<u8>) -> bool {
        ||| k == crate::keys::k_owner_index()
        ||| k == crate::keys::k_owner_part_id()
        ||| k == crate::keys::k_index_in_sheet()
        ||| k == crate::keys::k_line_width()
        ||| k == crate::keys::k_color()
        ||| k == crate::keys::k_area_color()
        ||| k == crate::keys::k_is_solid()
        ||| k == crate::keys::k_location_x()
        ||| k == crate::keys::k_location_y()
        ||| k == crate::keys::k_symbol_type()
        ||| k == utf8_twin(crate::keys::k_symbol_type())
        ||| k == crate::keys::k_show_net_name()
        ||| k == crate::keys::k_x_size()
        ||| k == crate::keys::k_y_size()
        ||| k == crate::keys::k_orientation()
        ||| k == crate::keys::k_font_id()
        ||| k == crate::keys::k_text()
        ||| k == utf8_twin(crate::keys::k_text())
        ||| k == crate::keys::k_unique_id()
    }

    /// How many pairs hold keys the binder does not recognize.
    pub open spec fn spec_unknown(p: SpecPairs) -> int
        decreases p.len(),
    {
        if p.len() == 0 {
            0
        } else {
            Self::spec_unknown(p.drop_last()) + if Self::spec_known_key(p.last().0) {
                0int
            } else {
                1int
            }
        }
    }

    /// Whether some pair's value is one its field's parser rejects.
    pub open spec fn spec_fails(p: SpecPairs) -> bool {
        ||| kind_field_fails(p, FieldKind::U8, crate::keys::k_owner_index())
        ||| kind_field_fails(p, FieldKind::I8, crate::keys::k_owner_part_id())
        ||| kind_field_fails(p, FieldKind::I16, crate::keys::k_index_in_sheet())
        ||| kind_field_fails(p, FieldKind::MilsU32, crate::keys::k_line_width())
        ||| kind_field_fails(p, FieldKind::Color, crate::keys::k_color())
        ||| kind_field_fails(p, FieldKind::Color, crate::keys::k_area_color())
        ||| kind_field_fails(p, FieldKind::Bool, crate::keys::k_is_solid())
        ||| kind_field_fails(p, FieldKind::I32, crate::keys::k_location_x())
        ||| kind_field_fails(p, FieldKind::I32, crate::keys::k_location_y())
        ||| str_field_fails(p, crate::keys::k_symbol_type())
        ||| kind_field_fails(p, FieldKind::Bool, crate::keys::k_show_net_name())
        ||| kind_field_fails(p, FieldKind::I32, crate::keys::k_x_size())
        ||| kind_field_fails(p, FieldKind::I32, crate::keys::k_y_size())
        ||| kind_field_fails(p, FieldKind::I32, crate::keys::k_orientation())
        ||| kind_field_fails(p, FieldKind::U16, crate::keys::k_font_id())
        ||| str_field_fails(p, crate::keys::k_text())
        ||| kind_field_fails(p, FieldKind::Uid, crate::keys::k_unique_id())
    }

    /// Each field as the walk of the pairs leaves it.
    pub open spec fn spec_matches(x: SheetSymbol, p: SpecPairs) -> bool {
        &&& x.owner_index == u8_field(p, crate::keys::k_owner_index())
        &&& x.owner_part_id == i8_field(p, crate::keys::k_owner_part_id())
        &&& x.index_in_sheet == i16_field(p, crate::keys::k_index_in_sheet())
        &&& x.line_width == mils_u32_field(p, crate::keys::k_line_width())
        &&& x.color == color_field(p, crate::keys::k_color())
        &&& x.area_color == color_field(p, crate::keys::k_area_color())
        &&& x.is_solid == bool_field(p, crate::keys::k_is_solid())
        &&& x.location == loc_field(p, crate::keys::k_location_x(), crate::keys::k_location_y())
        &&& x.symbol_type@ == str_field(p, crate::keys::k_symbol_type())
        &&& x.show_net_name == bool_field(p, crate::keys::k_show_net_name())
        &&& x.x_size == i32_field(p, crate::keys::k_x_size())
        &&& x.y_size == i32_field(p, crate::keys::k_y_size())
        &&& x.orientation == i32_field(p, crate::keys::k_orientation())
        &&& x.font_id == u16_field(p, crate::keys::k_font_id())
        &&& x.text@ == str_field(p, crate::keys::k_text())
        &&& x.unique_id == uid_field(p, crate::keys::k_unique_id())
    }

    /// Bind the fields of one `SheetSymbol` record from its key-value pairs.
    #[verifier::loop_isolation(false)]
    #[verifier::rlimit(100)]
    pub fn from_record(pairs: &[(Vec<u8>, Vec<u8>)], counter: &mut UnsupportedCounter) -> (r:
        Result<SheetSymbol, ErrorKind>)
        ensures
            r is Ok <==> !SheetSymbol::spec_fails(pairs_view(pairs@)),
            r is Ok ==> SheetSymbol::spec_matches(r->Ok_0, pairs_view(pairs@)),
            r is Ok ==> final(counter).count == sat_add(
                old(counter).count,
                SheetSymbol::spec_unknown(pairs_view(pairs@)),
            ),
            final(counter).count >= old(counter).count,
    {
        let ghost p = pairs_view(pairs@);
        proof {
            crate::common::lemma_pairs_view(pairs@);
            assert(p.take(0) =~= Seq::<(Seq<u8>, Seq<u8>)>::empty());
        }
    let a_owner_index: [u8; 10] = [0x4fu8, 0x77u8, 0x6eu8, 0x65u8, 0x72u8, 0x49u8, 0x6eu8, 0x64u8, 0x65u8, 0x78u8];
    let a_owner_part_id: [u8; 11] = [0x4fu8, 0x77u8, 0x6eu8, 0x65u8, 0x72u8, 0x50u8, 0x61u8, 0x72u8, 0x74u8, 0x49u8, 0x64u8];
    let a_index_in_sheet: [u8; 12] = [0x49u8, 0x6eu8, 0x64u8, 0x65u8, 0x78u8, 0x49u8, 0x6eu8, 0x53u8, 0x68u8, 0x65u8, 0x65u8, 0x74u8];
    let a_line_width: [u8; 9] = [0x4cu8, 0x69u8, 0x6eu8, 0x65u8, 0x57u8, 0x69u8, 0x64u8, 0x74u8, 0x68u8];
    let a_color: [u8; 5] = [0x43u8, 0x6fu8, 0x6cu8, 0x6fu8, 0x72u8];
    let a_area_color: [u8; 9] = [0x41u8, 0x72u8, 0x65u8, 0x61u8, 0x43u8, 0x6fu8, 0x6cu8, 0x6fu8, 0x72u8];
    let a_is_solid: [u8; 7] = [0x49u8, 0x73u8, 0x53u8, 0x6fu8, 0x6cu8, 0x69u8, 0x64u8];
    let a_location_x: [u8; 10] = [0x4cu8, 0x6fu8, 0x63u8, 0x61u8, 0x74u8, 0x69u8, 0x6fu8, 0x6eu8, 0x2eu8, 0x58u8];
    let a_location_y: [u8; 10] = [0x4cu8, 0x6fu8, 0x63u8, 0x61u8, 0x74u8, 0x69u8, 0x6fu8, 0x6eu8, 0x2eu8, 0x59u8];
    let a_symbol_type: [u8; 10] = [0x53u8, 0x79u8, 0x6du8, 0x62u8, 0x6fu8, 0x6cu8, 0x54u8, 0x79u8, 0x70u8, 0x65u8];
    let a_show_net_name: [u8; 11] = [0x53u8, 0x68u8, 0x6fu8, 0x77u8, 0x4eu8, 0x65u8, 0x74u8, 0x4eu8, 0x61u8, 0x6du8, 0x65u8];
    let a_x_size: [u8; 5] = [0x58u8, 0x53u8, 0x69u8, 0x7au8, 0x65u8];
    let a_y_size: [u8; 5] = [0x59u8, 0x53u8, 0x69u8, 0x7au8, 0x65u8];
    let a_orientation: [u8; 11] = [0x4fu8, 0x72u8, 0x69u8, 0x65u8, 0x6eu8, 0x74u8, 0x61u8, 0x74u8, 0x69u8, 0x6fu8, 0x6eu8];
    let a_font_id: [u8; 6] = [0x46u8, 0x6fu8, 0x6eu8, 0x74u8, 0x49u8, 0x44u8];
    let a_text: [u8; 4] = [0x54u8, 0x65u8, 0x78u8, 0x74u8];
    let a_unique_id: [u8; 8] = [0x55u8, 0x6eu8, 0x69u8, 0x71u8, 0x75u8, 0x65u8, 0x49u8, 0x44u8];
    let t_symbol_type: [u8; 16] = [0x25u8, 0x55u8, 0x54u8, 0x46u8, 0x38u8, 0x25u8, 0x53u8, 0x79u8, 0x6du8, 0x62u8, 0x6fu8, 0x6cu8, 0x54u8, 0x79u8, 0x70u8, 0x65u8];
    let t_text: [u8; 10] = [0x25u8, 0x55u8, 0x54u8, 0x46u8, 0x38u8, 0x25u8, 0x54u8, 0x65u8, 0x78u8, 0x74u8];
    proof {
        assert(a_owner_index@ =~= crate::keys::k_owner_index());
        assert(a_owner_part_id@ =~= crate::keys::k_owner_part_id());
        assert(a_index_in_sheet@ =~= crate::keys::k_index_in_sheet());
        assert(a_line_width@ =~= crate::keys::k_line_width());
        assert(a_color@ =~= crate::keys::k_color());
        assert(a_area_color@ =~= crate::keys::k_area_color());
        assert(a_is_solid@ =~= crate::keys::k_is_solid());
        assert(a_location_x@ =~= crate::keys::k_location_x());
        assert(a_location_y@ =~= crate::keys::k_location_y());
        assert(a_symbol_type@ =~= crate::keys::k_symbol_type());
        assert(a_show_net_name@ =~= crate::keys::k_show_net_name());
        assert(a_x_size@ =~= crate::keys::k_x_size());
        assert(a_y_size@ =~= crate::keys::k_y_size());
        assert(a_orientation@ =~= crate::keys::k_orientation());
        assert(a_font_id@ =~= crate::keys::k_font_id());
        assert(a_text@ =~= crate::keys::k_text());
        assert(a_unique_id@ =~= crate::keys::k_unique_id());
        assert(t_symbol_type@ =~= utf8_twin(crate::keys::k_symbol_type()));
        assert(t_text@ =~= utf8_twin(crate::keys::k_text()));
        assert(crate::keys::k_owner_index() != crate::keys::k_owner_part_id()) by { assert(crate::keys::k_owner_index().len() != crate::keys::k_owner_part_id().len()); }
        assert(crate::keys::k_owner_index() != crate::keys::k_index_in_sheet()) by { assert(crate::keys::k_owner_index().len() != crate::keys::k_index_in_sheet().len()); }
        assert(crate::keys::k_owner_index() != crate::keys::k_line_width()) by { assert(crate::keys::k_owner_index().len() != crate::keys::k_line_width().len()); }
        assert(crate::keys::k_owner_index() != crate::keys::k_color()) by { assert(crate::keys::k_owner_index().len() != crate::keys::k_color().len()); }
        assert(crate::keys::k_owner_index() != crate::keys::k_area_color()) by { assert(crate::keys::k_owner_index().len() != crate::keys::k_area_color().len()); }
        assert(crate::keys::k_owner_index() != crate::keys::k_is_solid()) by { assert(crate::keys::k_owner_index().len() != crate::keys::k_is_solid().len()); }
        assert(crate::keys::k_owner_index() != crate::keys::k_location_x()) by { assert(crate::keys::k_owner_index()[0] != crate::keys::k_location_x()[0]); }
        assert(crate::keys::k_owner_index() != crate::keys::k_location_y()) by { assert(crate::keys::k_owner_index()[0] != crate::keys::k_location_y()[0]); }
        assert(crate::keys::k_owner_index() != crate::keys::k_symbol_type()) by { assert(crate::keys::k_owner_index()[0] != crate::keys::k_symbol_type()[0]); }
        assert(crate::keys::k_owner_index() != crate::keys::k_show_net_name()) by { assert(crate::keys::k_owner_index().len() != crate::keys::k_show_net_name().len()); }
        assert(crate::keys::k_owner_index() != crate::keys::k_x_size()) by { assert(crate::keys::k_owner_index().len() != crate::keys::k_x_size().len()); }
        assert(crate::keys::k_owner_index() != crate::keys::k_y_size()) by { assert(crate::keys::k_owner_index().len() != crate::keys::k_y_size().len()); }
        assert(crate::keys::k_owner_index() != crate::keys::k_orientation()) by { assert(crate::keys::k_owner_index().len() != crate::keys::k_orientation().len()); }
        assert(crate::keys::k_owner_index() != crate::keys::k_font_id()) by { assert(crate::keys::k_owner_index().len() != crate::keys::k_font_id().len()); }
        assert(crate::keys::k_owner_index() != crate::keys::k_text()) by { assert(crate::keys::k_owner_index().len() != crate::keys::k_text().len()); }
        assert(crate::keys::k_owner_index() != crate::keys::k_unique_id()) by { assert(crate::keys::k_owner_index().len() != crate::keys::k_unique_id().len()); }
        assert(crate::keys::k_owner_index() != utf8_twin(crate::keys::k_symbol_type())) by { assert(crate::keys::k_owner_index().len() != utf8_twin(crate::keys::k_symbol_type()).len()); }
        assert(crate::keys::k_owner_index() != utf8_twin(crate::keys::k_text())) by { assert(crate::keys::k_owner_index()[0] != utf8_twin(crate::keys::k_text())[0]); }
        assert(crate::keys::k_owner_part_id() != crate::keys::k_index_in_sheet()) by { assert(crate::keys::k_owner_part_id().len() != crate::keys::k_index_in_sheet().len()); }
        assert(crate::keys::k_owner_part_id() != crate::keys::k_line_width()) by { assert(crate::keys::k_owner_part_id().len() != crate::keys::k_line_width().len()); }
        assert(crate::keys::k_owner_part_id() != crate::keys::k_color()) by { assert(crate::keys::k_owner_part_id().len() != crate::keys::k_color().len()); }
        assert(crate::keys::k_owner_part_id() != crate::keys::k_area_color()) by { assert(crate::keys::k_owner_part_id().len() != crate::keys::k_area_color().len()); }
        assert(crate::keys::k_owner_part_id() != crate::keys::k_is_solid()) by { assert(crate::keys::k_owner_part_id().len() != crate::keys::k_is_solid().len()); }
        assert(crate::keys::k_owner_part_id() != crate::keys::k_location_x()) by { assert(crate::keys::k_owner_part_id().len() != crate::keys::k_location_x().len()); }
        assert(crate::keys::k_owner_part_id() != crate::keys::k_location_y()) by { assert(crate::keys::k_owner_part_id().len() != crate::keys::k_location_y().len()); }
        assert(crate::keys::k_owner_part_id() != crate::keys::k_symbol_type()) by { assert(crate::keys::k_owner_part_id().len() != crate::keys::k_symbol_type().len()); }
        assert(crate::keys::k_owner_part_id() != crate::keys::k_show_net_name()) by { assert(crate::keys::k_owner_part_id()[0] != crate::keys::k_show_net_name()[0]); }
        assert(crate::keys::k_owner_part_id() != crate::keys::k_x_size()) by { assert(crate::keys::k_owner_part_id().len() != crate::keys::k_x_size().len()); }
        assert(crate::keys::k_owner_part_id() != crate::keys::k_y_size()) by { assert(crate::keys::k_owner_part_id().len() != crate::keys::k_y_size().len()); }
        assert(crate::keys::k_owner_part_id() != crate::keys::k_orientation()) by { assert(crate::keys::k_owner_part_id()[1] != crate::keys::k_orientation()[1]); }
        assert(crate::keys::k_owner_part_id() != crate::keys::k_font_id()) by { assert(crate::keys::k_owner_part_id().len() != crate::keys::k_font_id().len()); }
        assert(crate::keys::k_owner_part_id() != crate::keys::k_text()) by { assert(crate::keys::k_owner_part_id().len() != crate::keys::k_text().len()); }
        assert(crate::keys::k_owner_part_id() != crate::keys::k_unique_id()) by { assert(crate::keys::k_owner_part_id().len() != crate::keys::k_unique_id().len()); }
        assert(crate::keys::k_owner_part_id() != utf8_twin(crate::keys::k_symbol_type())) by { assert(crate::keys::k_owner_part_id().len() != utf8_twin(crate::keys::k_symbol_type()).len()); }
        assert(crate::keys::k_owner_part_id() != utf8_twin(crate::keys::k_text())) by { assert(crate::keys::k_owner_part_id().len() != utf8_twin(crate::keys::k_text()).len()); }
        assert(crate::keys::k_index_in_sheet() != crate::keys::k_line_width()) by { assert(crate::keys::k_index_in_sheet().len() != crate::keys::k_line_width().len()); }
        assert(crate::keys::k_index_in_sheet() != crate::keys::k_color()) by { assert(crate::keys::k_index_in_sheet().len() != crate::keys::k_color().len()); }
        assert(crate::keys::k_index_in_sheet() != crate::keys::k_area_color()) by { assert(crate::keys::k_index_in_sheet().len() != crate::keys::k_area_color().len()); }
        assert(crate::keys::k_index_in_sheet() != crate::keys::k_is_solid()) by { assert(crate::keys::k_index_in_sheet().len() != crate::keys::k_is_solid().len()); }
        assert(crate::keys::k_index_in_sheet() != crate::keys::k_location_x()) by { assert(crate::keys::k_index_in_sheet().len() != crate::keys::k_location_x().len()); }
        assert(crate::keys::k_index_in_sheet() != crate::keys::k_location_y()) by { assert(crate::keys::k_index_in_sheet().len() != crate::keys::k_location_y().len()); }
        assert(crate::keys::k_index_in_sheet() != crate::keys::k_symbol_type()) by { assert(crate::keys::k_index_in_sheet().len() != crate::keys::k_symbol_type().len()); }
        assert(crate::keys::k_index_in_sheet() != crate::keys::k_show_net_name()) by { assert(crate::keys::k_index_in_sheet().len() != crate::keys::k_show_net_name().len()); }
        assert(crate::keys::k_index_in_sheet() != crate::keys::k_x_size()) by { assert(crate::keys::k_index_in_sheet().len() != crate::keys::k_x_size().len()); }
        assert(crate::keys::k_index_in_sheet() != crate::keys::k_y_size()) by { assert(crate::keys::k_index_in_sheet().len() != crate::keys::k_y_size().len()); }
        assert(crate::keys::k_index_in_sheet() != crate::keys::k_orientation()) by { assert(crate::keys::k_index_in_sheet().len() != crate::keys::k_orientation().len()); }
        assert(crate::keys::k_index_in_sheet() != crate::keys::k_font_id()) by { assert(crate::keys::k_index_in_sheet().len() != crate::keys::k_font_id().len()); }
        assert(crate::keys::k_index_in_sheet() != crate::keys::k_text()) by { assert(crate::keys::k_index_in_sheet().len() != crate::keys::k_text().len()); }
        assert(crate::keys::k_index_in_sheet() != crate::keys::k_unique_id()) by { assert(crate::keys::k_index_in_sheet().len() != crate::keys::k_unique_id().len()); }
        assert(crate::keys::k_index_in_sheet() != utf8_twin(crate::keys::k_symbol_type())) by { assert(crate::keys::k_index_in_sheet().len() != utf8_twin(crate::keys::k_symbol_type()).len()); }
        assert(crate::keys::k_index_in_sheet() != utf8_twin(crate::keys::k_text())) by { assert(crate::keys::k_index_in_sheet().len() != utf8_twin(crate::keys::k_text()).len()); }
        assert(crate::keys::k_line_width() != crate::keys::k_color()) by { assert(crate::keys::k_line_width().len() != crate::keys::k_color().len()); }
        assert(crate::keys::k_line_width() != crate::keys::k_area_color()) by { assert(crate::keys::k_line_width()[0] != crate::keys::k_area_color()[0]); }
        assert(crate::keys::k_line_width() != crate::keys::k_is_solid()) by { assert(crate::keys::k_line_width().len() != crate::keys::k_is_solid().len()); }
        assert(crate::keys::k_line_width() != crate::keys::k_location_x()) by { assert(crate::keys::k_line_width().len() != crate::keys::k_location_x().len()); }
        assert(crate::keys::k_line_width() != crate::keys::k_location_y()) by { assert(crate::keys::k_line_width().len() != crate::keys::k_location_y().len()); }
        assert(crate::keys::k_line_width() != crate::keys::k_symbol_type()) by { assert(crate::keys::k_line_width().len() != crate::keys::k_symbol_type().len()); }
        assert(crate::keys::k_line_width() != crate::keys::k_show_net_name()) by { assert(crate::keys::k_line_width().len() != crate::keys::k_show_net_name().len()); }
        assert(crate::keys::k_line_width() != crate::keys::k_x_size()) by { assert(crate::keys::k_line_width().len() != crate::keys::k_x_size().len()); }
        assert(crate::keys::k_line_width() != crate::keys::k_y_size()) by { assert(crate::keys::k_line_width().len() != crate::keys::k_y_size().len()); }
        assert(crate::keys::k_line_width() != crate::keys::k_orientation()) by { assert(crate::keys::k_line_width().len() != crate::keys::k_orientation().len()); }
        assert(crate::keys::k_line_width() != crate::keys::k_font_id()) by { assert(crate::keys::k_line_width().len() != crate::keys::k_font_id().len()); }
        assert(crate::keys::k_line_width() != crate::keys::k_text()) by { assert(crate::keys::k_line_width().len() != crate::keys::k_text().len()); }
        assert(crate::keys::k_line_width() != crate::keys::k_unique_id()) by { assert(crate::keys::k_line_width().len() != crate::keys::k_unique_id().len()); }
        assert(crate::keys::k_line_width() != utf8_twin(crate::keys::k_symbol_type())) by { assert(crate::keys::k_line_width().len() != utf8_twin(crate::keys::k_symbol_type()).len()); }
        assert(crate::keys::k_line_width() != utf8_twin(crate::keys::k_text())) by { assert(crate::keys::k_line_width().len() != utf8_twin(crate::keys::k_text()).len()); }
        assert(crate::keys::k_color() != crate::keys::k_area_color()) by { assert(crate::keys::k_color().len() != crate::keys::k_area_color().len()); }
        assert(crate::keys::k_color() != crate::keys::k_is_solid()) by { assert(crate::keys::k_color().len() != crate::keys::k_is_solid().len()); }
        assert(crate::keys::k_color() != crate::keys::k_location_x()) by { assert(crate::keys::k_color().len() != crate::keys::k_location_x().len()); }
        assert(crate::keys::k_color() != crate::keys::k_location_y()) by { assert(crate::keys::k_color().len() != crate::keys::k_location_y().len()); }
        assert(crate::keys::k_color() != crate::keys::k_symbol_type()) by { assert(crate::keys::k_color().len() != crate::keys::k_symbol_type().len()); }
        assert(crate::keys::k_color() != crate::keys::k_show_net_name()) by { assert(crate::keys::k_color().len() != crate::keys::k_show_net_name().len()); }
        assert(crate::keys::k_color() != crate::keys::k_x_size()) by { assert(crate::keys::k_color()[0] != crate::keys::k_x_size()[0]); }
        assert(crate::keys::k_color() != crate::keys::k_y_size()) by { assert(crate::keys::k_color()[0] != crate::keys::k_y_size()[0]); }
        assert(crate::keys::k_color() != crate::keys::k_orientation()) by { assert(crate::keys::k_color().len() != crate::keys::k_orientation().len()); }
        assert(crate::keys::k_color() != crate::keys::k_font_id()) by { assert(crate::keys::k_color().len() != crate::keys::k_font_id().len()); }
        assert(crate::keys::k_color() != crate::keys::k_text()) by { assert(crate::keys::k_color().len() != crate::keys::k_text().len()); }
        assert(crate::keys::k_color() != crate::keys::k_unique_id()) by { assert(crate::keys::k_color().len() != crate::keys::k_unique_id().len()); }
        assert(crate::keys::k_color() != utf8_twin(crate::keys::k_symbol_type())) by { assert(crate::keys::k_color().len() != utf8_twin(crate::keys::k_symbol_type()).len()); }
        assert(crate::keys::k_color() != utf8_twin(crate::keys::k_text())) by { assert(crate::keys::k_color().len() != utf8_twin(crate::keys::k_text()).len()); }
        assert(crate::keys::k_area_color() != crate::keys::k_is_solid()) by { assert(crate::keys::k_area_color().len() != crate::keys::k_is_solid().len()); }
        assert(crate::keys::k_area_color() != crate::keys::k_location_x()) by { assert(crate::keys::k_area_color().len() != crate::keys::k_location_x().len()); }
        assert(crate::keys::k_area_color() != crate::keys::k_location_y()) by { assert(crate::keys::k_area_color().len() != crate::keys::k_location_y().len()); }
        assert(crate::keys::k_area_color() != crate::keys::k_symbol_type()) by { assert(crate::keys::k_area_color().len() != crate::keys::k_symbol_type().len()); }
        assert(crate::keys::k_area_color() != crate::keys::k_show_net_name()) by { assert(crate::keys::k_area_color().len() != crate::keys::k_show_net_name().len()); }
        assert(crate::keys::k_area_color() != crate::keys::k_x_size()) by { assert(crate::keys::k_area_color().len() != crate::keys::k_x_size().len()); }
        assert(crate::keys::k_area_color() != crate::keys::k_y_size()) by { assert(crate::keys::k_area_color().len() != crate::keys::k_y_size().len()); }
        assert(crate::keys::k_area_color() != crate::keys::k_orientation()) by { assert(crate::keys::k_area_color().len() != crate::keys::k_orientation().len()); }
        assert(crate::keys::k_area_color() != crate::keys::k_font_id()) by { assert(crate::keys::k_area_color().len() != crate::keys::k_font_id().len()); }
        assert(crate::keys::k_area_color() != crate::keys::k_text()) by { assert(crate::keys::k_area_color().len() != crate::keys::k_text().len()); }
        assert(crate::keys::k_area_color() != crate::keys::k_unique_id()) by { assert(crate::keys::k_area_color().len() != crate::keys::k_unique_id().len()); }
        assert(crate::keys::k_area_color() != utf8_twin(crate::keys::k_symbol_type())) by { assert(crate::keys::k_area_color().len() != utf8_twin(crate::keys::k_symbol_type()).len()); }
        assert(crate::keys::k_area_color() != utf8_twin(crate::keys::k_text())) by { assert(crate::keys::k_area_color().len() != utf8_twin(crate::keys::k_text()).len()); }
        assert(crate::keys::k_is_solid() != crate::keys::k_location_x()) by { assert(crate::keys::k_is_solid().len() != crate::keys::k_location_x().len()); }
        assert(crate::keys::k_is_solid() != crate::keys::k_location_y()) by { assert(crate::keys::k_is_solid().len() != crate::keys::k_location_y().len()); }
        assert(crate::keys::k_is_solid() != crate::keys::k_symbol_type()) by { assert(crate::keys::k_is_solid().len() != crate::keys::k_symbol_type().len()); }
        assert(crate::keys::k_is_solid() != crate::keys::k_show_net_name()) by { assert(crate::keys::k_is_solid().len() != crate::keys::k_show_net_name().len()); }
        assert(crate::keys::k_is_solid() != crate::keys::k_x_size()) by { assert(crate::keys::k_is_solid().len() != crate::keys::k_x_size().len()); }
        assert(crate::keys::k_is_solid() != crate::keys::k_y_size()) by { assert(crate::keys::k_is_solid().len() != crate::keys::k_y_size().len()); }
        assert(crate::keys::k_is_solid() != crate::keys::k_orientation()) by { assert(crate::keys::k_is_solid().len() != crate::keys::k_orientation().len()); }
        assert(crate::keys::k_is_solid() != crate::keys::k_font_id()) by { assert(crate::keys::k_is_solid().len() != crate::keys::k_font_id().len()); }
        assert(crate::keys::k_is_solid() != crate::keys::k_text()) by { assert(crate::keys::k_is_solid().len() != crate::keys::k_text().len()); }
        assert(crate::keys::k_is_solid() != crate::keys::k_unique_id()) by { assert(crate::keys::k_is_solid().len() != crate::keys::k_unique_id().len()); }
        assert(crate::keys::k_is_solid() != utf8_twin(crate::keys::k_symbol_type())) by { assert(crate::keys::k_is_solid().len() != utf8_twin(crate::keys::k_symbol_type()).len()); }
        assert(crate::keys::k_is_solid() != utf8_twin(crate::keys::k_text())) by { assert(crate::keys::k_is_solid().len() != utf8_twin(crate::keys::k_text()).len()); }
        assert(crate::keys::k_location_x() != crate::keys::k_location_y()) by { assert(crate::keys::k_location_x()[9] != crate::keys::k_location_y()[9]); }
        assert(crate::keys::k_location_x() != crate::keys::k_symbol_type()) by { assert(crate::keys::k_location_x()[0] != crate::keys::k_symbol_type()[0]); }
        assert(crate::keys::k_location_x() != crate::keys::k_show_net_name()) by { assert(crate::keys::k_location_x().len() != crate::keys::k_show_net_name().len()); }
        assert(crate::keys::k_location_x() != crate::keys::k_x_size()) by { assert(crate::keys::k_location_x().len() != crate::keys::k_x_size().len()); }
        assert(crate::keys::k_location_x() != crate::keys::k_y_size()) by { assert(crate::keys::k_location_x().len() != crate::keys::k_y_size().len()); }
        assert(crate::keys::k_location_x() != crate::keys::k_orientation()) by { assert(crate::keys::k_location_x().len() != crate::keys::k_orientation().len()); }
        assert(crate::keys::k_location_x() != crate::keys::k_font_id()) by { assert(crate::keys::k_location_x().len() != crate::keys::k_font_id().len()); }
        assert(crate::keys::k_location_x() != crate::keys::k_text()) by { assert(crate::keys::k_location_x().len() != crate::keys::k_text().len()); }
        assert(crate::keys::k_location_x() != crate::keys::k_unique_id()) by { assert(crate::keys::k_location_x().len() != crate::keys::k_unique_id().len()); }
        assert(crate::keys::k_location_x() != utf8_twin(crate::keys::k_symbol_type())) by { assert(crate::keys::k_location_x().len() != utf8_twin(crate::keys::k_symbol_type()).len()); }
        assert(crate::keys::k_location_x() != utf8_twin(crate::keys::k_text())) by { assert(crate::keys::k_location_x()[0] != utf8_twin(crate::keys::k_text())[0]); }
        assert(crate::keys::k_location_y() != crate::keys::k_symbol_type()) by { assert(crate::keys::k_location_y()[0] != crate::keys::k_symbol_type()[0]); }
        assert(crate::keys::k_location_y() != crate::keys::k_show_net_name()) by { assert(crate::keys::k_location_y().len() != crate::keys::k_show_net_name().len()); }
        assert(crate::keys::k_location_y() != crate::keys::k_x_size()) by { assert(crate::keys::k_location_y().len() != crate::keys::k_x_size().len()); }
        assert(crate::keys::k_location_y() != crate::keys::k_y_size()) by { assert(crate::keys::k_location_y().len() != crate::keys::k_y_size().len()); }
        assert(crate::keys::k_location_y() != crate::keys::k_orientation()) by { assert(crate::keys::k_location_y().len() != crate::keys::k_orientation().len()); }
        assert(crate::keys::k_location_y() != crate::keys::k_font_id()) by { assert(crate::keys::k_location_y().len() != crate::keys::k_font_id().len()); }
        assert(crate::keys::k_location_y() != crate::keys::k_text()) by { assert(crate::keys::k_location_y().len() != crate::keys::k_text().len()); }
        assert(crate::keys::k_location_y() != crate::keys::k_unique_id()) by { assert(crate::keys::k_location_y().len() != crate::keys::k_unique_id().len()); }
        assert(crate::keys::k_location_y() != utf8_twin(crate::keys::k_symbol_type())) by { assert(crate::keys::k_location_y().len() != utf8_twin(crate::keys::k_symbol_type()).len()); }
        assert(crate::keys::k_location_y() != utf8_twin(crate::keys::k_text())) by { assert(crate::keys::k_location_y()[0] != utf8_twin(crate::keys::k_text())[0]); }
        assert(crate::keys::k_symbol_type() != crate::keys::k_show_net_name()) by { assert(crate::keys::k_symbol_type().len() != crate::keys::k_show_net_name().len()); }
        assert(crate::keys::k_symbol_type() != crate::keys::k_x_size()) by { assert(crate::keys::k_symbol_type().len() != crate::keys::k_x_size().len()); }
        assert(crate::keys::k_symbol_type() != crate::keys::k_y_size()) by { assert(crate::keys::k_symbol_type().len() != crate::keys::k_y_size().len()); }
        assert(crate::keys::k_symbol_type() != crate::keys::k_orientation()) by { assert(crate::keys::k_symbol_type().len() != crate::keys::k_orientation().len()); }
        assert(crate::keys::k_symbol_type() != crate::keys::k_font_id()) by { assert(crate::keys::k_symbol_type().len() != crate::keys::k_font_id().len()); }
        assert(crate::keys::k_symbol_type() != crate::keys::k_text()) by { assert(crate::keys::k_symbol_type().len() != crate::keys::k_text().len()); }
        assert(crate::keys::k_symbol_type() != crate::keys::k_unique_id()) by { assert(crate::keys::k_symbol_type().len() != crate::keys::k_unique_id().len()); }
        assert(crate::keys::k_symbol_type() != utf8_twin(crate::keys::k_symbol_type())) by { assert(crate::keys::k_symbol_type().len() != utf8_twin(crate::keys::k_symbol_type()).len()); }
        assert(crate::keys::k_symbol_type() != utf8_twin(crate::keys::k_text())) by { assert(crate::keys::k_symbol_type()[0] != utf8_twin(crate::keys::k_text())[0]); }
        assert(crate::keys::k_show_net_name() != crate::keys::k_x_size()) by { assert(crate::keys::k_show_net_name().len() != crate::keys::k_x_size().len()); }
        assert(crate::keys::k_show_net_name() != crate::keys::k_y_size()) by { assert(crate::keys::k_show_net_name().len() != crate::keys::k_y_size().len()); }
        assert(crate::keys::k_show_net_name() != crate::keys::k_orientation()) by { assert(crate::keys::k_show_net_name()[0] != crate::keys::k_orientation()[0]); }
        assert(crate::keys::k_show_net_name() != crate::keys::k_font_id()) by { assert(crate::keys::k_show_net_name().len() != crate::keys::k_font_id().len()); }
        assert(crate::keys::k_show_net_name() != crate::keys::k_text()) by { assert(crate::keys::k_show_net_name().len() != crate::keys::k_text().len()); }
        assert(crate::keys::k_show_net_name() != crate::keys::k_unique_id()) by { assert(crate::keys::k_show_net_name().len() != crate::keys::k_unique_id().len()); }
        assert(crate::keys::k_show_net_name() != utf8_twin(crate::keys::k_symbol_type())) by { assert(crate::keys::k_show_net_name().len() != utf8_twin(crate::keys::k_symbol_type()).len()); }
        assert(crate::keys::k_show_net_name() != utf8_twin(crate::keys::k_text())) by { assert(crate::keys::k_show_net_name().len() != utf8_twin(crate::keys::k_text()).len()); }
        assert(crate::keys::k_x_size() != crate::keys::k_y_size()) by { assert(crate::keys::k_x_size()[0] != crate::keys::k_y_size()[0]); }
        assert(crate::keys::k_x_size() != crate::keys::k_orientation()) by { assert(crate::keys::k_x_size().len() != crate::keys::k_orientation().len()); }
        assert(crate::keys::k_x_size() != crate::keys::k_font_id()) by { assert(crate::keys::k_x_size().len() != crate::keys::k_font_id().len()); }
        assert(crate::keys::k_x_size() != crate::keys::k_text()) by { assert(crate::keys::k_x_size().len() != crate::keys::k_text().len()); }
        assert(crate::keys::k_x_size() != crate::keys::k_unique_id()) by { assert(crate::keys::k_x_size().len() != crate::keys::k_unique_id().len()); }
        assert(crate::keys::k_x_size() != utf8_twin(crate::keys::k_symbol_type())) by { assert(crate::keys::k_x_size().len() != utf8_twin(crate::keys::k_symbol_type()).len()); }
        assert(crate::keys::k_x_size() != utf8_twin(crate::keys::k_text())) by { assert(crate::keys::k_x_size().len() != utf8_twin(crate::keys::k_text()).len()); }
        assert(crate::keys::k_y_size() != crate::keys::k_orientation()) by { assert(crate::keys::k_y_size().len() != crate::keys::k_orientation().len()); }
        assert(crate::keys::k_y_size() != crate::keys::k_font_id()) by { assert(crate::keys::k_y_size().len() != crate::keys::k_font_id().len()); }
        assert(crate::keys::k_y_size() != crate::keys::k_text()) by { assert(crate::keys::k_y_size().len() != crate::keys::k_text().len()); }
        assert(crate::keys::k_y_size() != crate::keys::k_unique_id()) by { assert(crate::keys::k_y_size().len() != crate::keys::k_unique_id().len()); }
        assert(crate::keys::k_y_size() != utf8_twin(crate::keys::k_symbol_type())) by { assert(crate::keys::k_y_size().len() != utf8_twin(crate::keys::k_symbol_type()).len()); }
        assert(crate::keys::k_y_size() != utf8_twin(crate::keys::k_text())) by { assert(crate::keys::k_y_size().len() != utf8_twin(crate::keys::k_text()).len()); }
        assert(crate::keys::k_orientation() != crate::keys::k_font_id()) by { assert(crate::keys::k_orientation().len() != crate::keys::k_font_id().len()); }
        assert(crate::keys::k_orientation() != crate::keys::k_text()) by { assert(crate::keys::k_orientation().len() != crate::keys::k_text().len()); }
        assert(crate::keys::k_orientation() != crate::keys::k_unique_id()) by { assert(crate::keys::k_orientation().len() != crate::keys::k_unique_id().len()); }
        assert(crate::keys::k_orientation() != utf8_twin(crate::keys::k_symbol_type())) by { assert(crate::keys::k_orientation().len() != utf8_twin(crate::keys::k_symbol_type()).len()); }
        assert(crate::keys::k_orientation() != utf8_twin(crate::keys::k_text())) by { assert(crate::keys::k_orientation().len() != utf8_twin(crate::keys::k_text()).len()); }
        assert(crate::keys::k_font_id() != crate::keys::k_text()) by { assert(crate::keys::k_font_id().len() != crate::keys::k_text().len()); }
        assert(crate::keys::k_font_id() != crate::keys::k_unique_id()) by { assert(crate::keys::k_font_id().len() != crate::keys::k_unique_id().len()); }
        assert(crate::keys::k_font_id() != utf8_twin(crate::keys::k_symbol_type())) by { assert(crate::keys::k_font_id().len() != utf8_twin(crate::keys::k_symbol_type()).len()); }
        assert(crate::keys::k_font_id() != utf8_twin(crate::keys::k_text())) by { assert(crate::keys::k_font_id().len() != utf8_twin(crate::keys::k_text()).len()); }
        assert(crate::keys::k_text() != crate::keys::k_unique_id()) by { assert(crate::keys::k_text().len() != crate::keys::k_unique_id().len()); }
        assert(crate::keys::k_text() != utf8_twin(crate::keys::k_symbol_type())) by { assert(crate::keys::k_text().len() != utf8_twin(crate::keys::k_symbol_type()).len()); }
        assert(crate::keys::k_text() != utf8_twin(crate::keys::k_text())) by { assert(crate::keys::k_text().len() != utf8_twin(crate::keys::k_text()).len()); }
        assert(crate::keys::k_unique_id() != utf8_twin(crate::keys::k_symbol_type())) by { assert(crate::keys::k_unique_id().len() != utf8_twin(crate::keys::k_symbol_type()).len()); }
        assert(crate::keys::k_unique_id() != utf8_twin(crate::keys::k_text())) by { assert(crate::keys::k_unique_id().len() != utf8_twin(crate::keys::k_text()).len()); }
        assert(utf8_twin(crate::keys::k_symbol_type()) != utf8_twin(crate::keys::k_text())) by { assert(utf8_twin(crate::keys::k_symbol_type()).len() != utf8_twin(crate::keys::k_text()).len()); }
    }
        let mut x = SheetSymbol {
        owner_index: 0,
        owner_part_id: 0,
        index_in_sheet: 0,
        line_width: 0,
        color: Rgb { r: 0, g: 0, b: 0 },
        area_color: Rgb { r: 0, g: 0, b: 0 },
        is_solid: false,
        location: Location { x: 0, y: 0 },
        symbol_type: String::new(),
        show_net_name: false,
        x_size: 0,
        y_size: 0,
        orientation: 0,
        font_id: 0,
        text: String::new(),
        unique_id: UniqueId::Simple([0x30u8, 0x30u8, 0x30u8, 0x30u8, 0x30u8, 0x30u8, 0x30u8, 0x30u8]),
        };
    let mut seen_symbol_type: bool = false;
    let mut seen_text: bool = false;
        let n = pairs.len();
        let mut i: usize = 0;
        while i < n
            invariant
                0 <= i <= n,
                n == pairs@.len(),
                !SheetSymbol::spec_fails(p.take(i as int)),
                SheetSymbol::spec_matches(x, p.take(i as int)),
            seen_symbol_type == has_key(p.take(i as int), utf8_twin(crate::keys::k_symbol_type())),
            seen_text == has_key(p.take(i as int), utf8_twin(crate::keys::k_text())),
                counter.count == sat_add(old(counter).count, SheetSymbol::spec_unknown(p.take(i as int))),
                0 <= SheetSymbol::spec_unknown(p.take(i as int)) <= i,
            decreases n - i,
        {
            let key: &[u8] = pairs[i].0.as_slice();
            let val: &[u8] = pairs[i].1.as_slice();
            proof {
                assert(p[i as int] == (pairs@[i as int].0@, pairs@[i as int].1@));
                assert(p.take(i as int + 1).drop_last() =~= p.take(i as int));
                assert(p.take(i as int + 1).last() == p[i as int]);
                assert forall|j: int| 0 <= j <= i implies #[trigger] p.take(i as int + 1).take(j)
                    == p.take(j) by {
                    assert(p.take(i as int + 1).take(j) =~= p.take(j));
                }
                assert forall|j: int| 0 <= j <= i implies #[trigger] p.take(i as int).take(j)
                    == p.take(j) by {
                    assert(p.take(i as int).take(j) =~= p.take(j));
                }
            }
        if crate::common::bytes_eq(key, a_owner_index.as_slice()) {
                    match crate::parse::parse_u8(val) {
                        Ok(v) => { x.owner_index = v; },
                        Err(e) => {
                            proof {
                                assert(p[i as int].0 == crate::keys::k_owner_index());
                                assert(kind_field_fails(p, FieldKind::U8, crate::keys::k_owner_index()));
                            }
                            return Err(e);
                        },
                    }
                }
        else if crate::common::bytes_eq(key, a_owner_part_id.as_slice()) {
                    match crate::parse::parse_i8(val) {
                        Ok(v) => { x.owner_part_id = v; },
                        Err(e) => {
                            proof {
                                assert(p[i as int].0 == crate::keys::k_owner_part_id());
                                assert(kind_field_fails(p, FieldKind::I8, crate::keys::k_owner_part_id()));
                            }
                            return Err(e);
                        },
                    }
                }
        else if crate::common::bytes_eq(key, a_index_in_sheet.as_slice()) {
                    match crate::parse::parse_i16(val) {
                        Ok(v) => { x.index_in_sheet = v; },
                        Err(e) => {
                            proof {
                                assert(p[i as int].0 == crate::keys::k_index_in_sheet());
                                assert(kind_field_fails(p, FieldKind::I16, crate::keys::k_index_in_sheet()));
                            }
                            return Err(e);
                        },
                    }
                }
        else if crate::common::bytes_eq(key, a_line_width.as_slice()) {
                    match crate::parse::parse_u32(val) {
                        Ok(n) => match crate::common::mils_to_nm_u32(n) {
                            Ok(v) => { x.line_width = v; },
                            Err(e) => {
                                proof {
                                    assert(p[i as int].0 == crate::keys::k_line_width());
                                    assert(kind_field_fails(p, FieldKind::MilsU32, crate::keys::k_line_width()));
                                }
                                return Err(e);
                            },
                        },
                        Err(e) => {
                            proof {
                                assert(p[i as int].0 == crate::keys::k_line_width());
                                assert(kind_field_fails(p, FieldKind::MilsU32, crate::keys::k_line_width()));
                            }
                            return Err(e);
                        },
                    }
                }
        else if crate::common::bytes_eq(key, a_color.as_slice()) {
                    match Rgb::from_utf8(val) {
                        Ok(v) => { x.color = v; },
                        Err(e) => {
                            proof {
                                assert(p[i as int].0 == crate::keys::k_color());
                                assert(kind_field_fails(p, FieldKind::Color, crate::keys::k_color()));
                            }
                            return Err(e);
                        },
                    }
                }
        else if crate::common::bytes_eq(key, a_area_color.as_slice()) {
                    match Rgb::from_utf8(val) {
                        Ok(v) => { x.area_color = v; },
                        Err(e) => {
                            proof {
                                assert(p[i as int].0 == crate::keys::k_area_color());
                                assert(kind_field_fails(p, FieldKind::Color, crate::keys::k_area_color()));
                            }
                            return Err(e);
                        },
                    }
                }
        else if crate::common::bytes_eq(key, a_is_solid.as_slice()) {
                    match crate::parse::parse_bool(val) {
                        Ok(v) => { x.is_solid = v; },
                        Err(e) => {
                            proof {
                                assert(p[i as int].0 == crate::keys::k_is_solid());
                                assert(kind_field_fails(p, FieldKind::Bool, crate::keys::k_is_solid()));
                            }
                            return Err(e);
                        },
                    }
                }
        else if crate::common::bytes_eq(key, a_location_x.as_slice()) {
                    match crate::parse::parse_i32(val) {
                        Ok(v) => { x.location.x = v; },
                        Err(e) => {
                            proof {
                                assert(p[i as int].0 == crate::keys::k_location_x());
                                assert(kind_field_fails(p, FieldKind::I32, crate::keys::k_location_x()));
                            }
                            return Err(e);
                        },
                    }
                }
        else if crate::common::bytes_eq(key, a_location_y.as_slice()) {
                    match crate::parse::parse_i32(val) {
                        Ok(v) => { x.location.y = v; },
                        Err(e) => {
                            proof {
                                assert(p[i as int].0 == crate::keys::k_location_y());
                                assert(kind_field_fails(p, FieldKind::I32, crate::keys::k_location_y()));
                            }
                            return Err(e);
                        },
                    }
                }
        else if crate::common::bytes_eq(key, t_symbol_type.as_slice()) {
                    match crate::common::str_from_utf8(val) {
                        Ok(s) => { x.symbol_type = s; seen_symbol_type = true; },
                        Err(e) => {
                            proof {
                                assert(p[i as int].0 == utf8_twin(crate::keys::k_symbol_type()));
                                assert(str_field_fails(p, crate::keys::k_symbol_type()));
                            }
                            return Err(e);
                        },
                    }
                } else if crate::common::bytes_eq(key, a_symbol_type.as_slice()) {
                    if !seen_symbol_type {
                        match crate::common::str_from_utf8(val) {
                            Ok(s) => { x.symbol_type = s; },
                            Err(e) => {
                                proof {
                                    assert(p[i as int].0 == crate::keys::k_symbol_type());
                                    assert(!has_key(p.take(i as int), utf8_twin(crate::keys::k_symbol_type())));
                                    assert(str_field_fails(p, crate::keys::k_symbol_type()));
                                }
                                return Err(e);
                            },
                        }
                    }
                }
        else if crate::common::bytes_eq(key, a_show_net_name.as_slice()) {
                    match crate::parse::parse_bool(val) {
                        Ok(v) => { x.show_net_name = v; },
                        Err(e) => {
                            proof {
                                assert(p[i as int].0 == crate::keys::k_show_net_name());
                                assert(kind_field_fails(p, FieldKind::Bool, crate::keys::k_show_net_name()));
                            }
                            return Err(e);
                        },
                    }
                }
        else if crate::common::bytes_eq(key, a_x_size.as_slice()) {
                    match crate::parse::parse_i32(val) {
                        Ok(v) => { x.x_size = v; },
                        Err(e) => {
                            proof {
                                assert(p[i as int].0 == crate::keys::k_x_size());
                                assert(kind_field_fails(p, FieldKind::I32, crate::keys::k_x_size()));
                            }
                            return Err(e);
                        },
                    }
                }
        else if crate::common::bytes_eq(key, a_y_size.as_slice()) {
                    match crate::parse::parse_i32(val) {
                        Ok(v) => { x.y_size = v; },
                        Err(e) => {
                            proof {
                                assert(p[i as int].0 == crate::keys::k_y_size());
                                assert(kind_field_fails(p, FieldKind::I32, crate::keys::k_y_size()));
                            }
                            return Err(e);
                        },
                    }
                }
        else if crate::common::bytes_eq(key, a_orientation.as_slice()) {
                    match crate::parse::parse_i32(val) {
                        Ok(v) => { x.orientation = v; },
                        Err(e) => {
                            proof {
                                assert(p[i as int].0 == crate::keys::k_orientation());
                                assert(kind_field_fails(p, FieldKind::I32, crate::keys::k_orientation()));
                            }
                            return Err(e);
                        },
                    }
                }
        else if crate::common::bytes_eq(key, a_font_id.as_slice()) {
                    match crate::parse::parse_u16(val) {
                        Ok(v) => { x.font_id = v; },
                        Err(e) => {
                            proof {
                                assert(p[i as int].0 == crate::keys::k_font_id());
                                assert(kind_field_fails(p, FieldKind::U16, crate::keys::k_font_id()));
                            }
                            return Err(e);
                        },
                    }
                }
        else if crate::common::bytes_eq(key, t_text.as_slice()) {
                    match crate::common::str_from_utf8(val) {
                        Ok(s) => { x.text = s; seen_text = true; },
                        Err(e) => {
                            proof {
                                assert(p[i as int].0 == utf8_twin(crate::keys::k_text()));
                                assert(str_field_fails(p, crate::keys::k_text()));
                            }
                            return Err(e);
                        },
                    }
                } else if crate::common::bytes_eq(key, a_text.as_slice()) {
                    if !seen_text {
                        match crate::common::str_from_utf8(val) {
                            Ok(s) => { x.text = s; },
                            Err(e) => {
                                proof {
                                    assert(p[i as int].0 == crate::keys::k_text());
                                    assert(!has_key(p.take(i as int), utf8_twin(crate::keys::k_text())));
                                    assert(str_field_fails(p, crate::keys::k_text()));
                                }
                                return Err(e);
                            },
                        }
                    }
                }
        else if crate::common::bytes_eq(key, a_unique_id.as_slice()) {
                    match UniqueId::from_utf8(val) {
                        Ok(v) => { x.unique_id = v; },
                        Err(e) => {
                            proof {
                                assert(p[i as int].0 == crate::keys::k_unique_id());
                                assert(kind_field_fails(p, FieldKind::Uid, crate::keys::k_unique_id()));
                            }
                            return Err(e);
                        },
                    }
                }
        else {
            crate::logging::macro_unsupported_key(counter, "SheetSymbol", key, val);
        }
            i += 1;
        }
        proof {
            assert(p.take(n as int) =~= p);
        }
        Ok(x)
    }
}

impl SheetEntry {
    /// The wire record ID of this kind.
    pub open spec fn spec_record_id() -> u32 {
        16
    }

    /// Whether the binder recognizes this wire key.
    pub open spec fn spec_known_key(k: Seq<u8>) -> bool {
        ||| k == crate::keys::k_owner_index()
        ||| k == crate::keys::k_owner_part_id()
        ||| k == crate::keys::k_index_in_sheet()
        ||| k == crate::keys::k_text_color()
        ||| k == crate::keys::k_area_color()
        ||| k == crate::keys::k_text_font_id()
        ||| k == crate::keys::k_text_style()
        ||| k == utf8_twin(crate::keys::k_text_style())
        ||| k == crate::keys::k_name()
        ||| k == utf8_twin(crate::keys::k_name())
        ||| k == crate::keys::k_unique_id()
        ||| k == crate::keys::k_arrow_kind()
        ||| k == utf8_twin(crate::keys::k_arrow_kind())
        ||| k == crate::keys::k_distance_from_top()
        ||| k == crate::keys::k_color()
        ||| k == crate::keys::k_io_type()
        ||| k == crate::keys::k_side()
    }

    /// How many pairs hold keys the binder does not recognize.
    pub open spec fn spec_unknown(p: SpecPairs) -> int
        decreases p.len(),
    {
        if p.len() == 0 {
            0
        } else {
            Self::spec_unknown(p.drop_last()) + if Self::spec_known_key(p.last().0) {
                0int
            } else {
                1int
            }
        }
    }

    /// Whether some pair's value is one its field's parser rejects.
    pub open spec fn spec_fails(p: SpecPairs) -> bool {
        ||| kind_field_fails(p, FieldKind::U8, crate::keys::k_owner_index())
        ||| kind_field_fails(p, FieldKind::I8, crate::keys::k_owner_part_id())
        ||| kind_field_fails(p, FieldKind::I16, crate::keys::k_index_in_sheet())
        ||| kind_field_fails(p, FieldKind::Color, crate::keys::k_text_color())
        ||| kind_field_fails(p, FieldKind::Color, crate::keys::k_area_color())
        ||| kind_field_fails(p, FieldKind::U16, crate::keys::k_text_font_id())
        ||| str_field_fails(p, crate::keys::k_text_style())
        ||| str_field_fails(p, crate::keys::k_name())
        ||| kind_field_fails(p, FieldKind::Uid, crate::keys::k_unique_id())
        ||| str_field_fails(p, crate::keys::k_arrow_kind())
        ||| kind_field_fails(p, FieldKind::I32, crate::keys::k_distance_from_top())
        ||| kind_field_fails(p, FieldKind::Color, crate::keys::k_color())
        ||| kind_field_fails(p, FieldKind::I32, crate::keys::k_io_type())
        ||| kind_field_fails(p, FieldKind::I32, crate::keys::k_side())
    }

    /// Each field as the walk of the pairs leaves it.
    pub open spec fn spec_matches(x: SheetEntry, p: SpecPairs) -> bool {
        &&& x.owner_index == u8_field(p, crate::keys::k_owner_index())
        &&& x.owner_part_id == i8_field(p, crate::keys::k_owner_part_id())
        &&& x.index_in_sheet == i16_field(p, crate::keys::k_index_in_sheet())
        &&& x.text_color == color_field(p, crate::keys::k_text_color())
        &&& x.area_color == color_field(p, crate::keys::k_area_color())
        &&& x.text_font_id == u16_field(p, crate::keys::k_text_font_id())
        &&& x.text_style@ == str_field(p, crate::keys::k_text_style())
        &&& x.name@ == str_field(p, crate::keys::k_name())
        &&& x.unique_id == uid_field(p, crate::keys::k_unique_id())
        &&& x.arrow_kind@ == str_field(p, crate::keys::k_arrow_kind())
        &&& x.distance_from_top == i32_field(p, crate::keys::k_distance_from_top())
        &&& x.color == color_field(p, crate::keys::k_color())
        &&& x.io_type == i32_field(p, crate::keys::k_io_type())
        &&& x.side == i32_field(p, crate::keys::k_side())
    }

    /// Bind the fields of one `SheetEntry` record from its key-value pairs.
    #[verifier::loop_isolation(false)]
    #[verifier::rlimit(100)]
    pub fn from_record(pairs: &[(Vec<u8>, Vec<u8>)], counter: &mut UnsupportedCounter) -> (r:
        Result<SheetEntry, ErrorKind>)
        ensures
            r is Ok <==> !SheetEntry::spec_fails(pairs_view(pairs@)),
            r is Ok ==> SheetEntry::spec_matches(r->Ok_0, pairs_view(pairs@)),
            r is Ok ==> final(counter).count == sat_add(
                old(counter).count,
                SheetEntry::spec_unknown(pairs_view(pairs@)),
            ),
            final(counter).count >= old(counter).count,
    {
        let ghost p = pairs_view(pairs@);
        proof {
            crate::common::lemma_pairs_view(pairs@);
            assert(p.take(0) =~= Seq::<(Seq<u8>, Seq<u8>)>::empty());
        }
    let a_owner_index: [u8; 10] = [0x4fu8, 0x77u8, 0x6eu8, 0x65u8, 0x72u8, 0x49u8, 0x6eu8, 0x64u8, 0x65u8, 0x78u8];
    let a_owner_part_id: [u8; 11] = [0x4fu8, 0x77u8, 0x6eu8, 0x65u8, 0x72u8, 0x50u8, 0x61u8, 0x72u8, 0x74u8, 0x49u8, 0x64u8];
    let a_index_in_sheet: [u8; 12] = [0x49u8, 0x6eu8, 0x64u8, 0x65u8, 0x78u8, 0x49u8, 0x6eu8, 0x53u8, 0x68u8, 0x65u8, 0x65u8, 0x74u8];
    let a_text_color: [u8; 9] = [0x54u8, 0x65u8, 0x78u8, 0x74u8, 0x43u8, 0x6fu8, 0x6cu8, 0x6fu8, 0x72u8];
    let a_area_color: [u8; 9] = [0x41u8, 0x72u8, 0x65u8, 0x61u8, 0x43u8, 0x6fu8, 0x6cu8, 0x6fu8, 0x72u8];
    let a_text_font_id: [u8; 10] = [0x54u8, 0x65u8, 0x78u8, 0x74u8, 0x46u8, 0x6fu8, 0x6eu8, 0x74u8, 0x49u8, 0x44u8];
    let a_text_style: [u8; 9] = [0x54u8, 0x65u8, 0x78u8, 0x74u8, 0x53u8, 0x74u8, 0x79u8, 0x6cu8, 0x65u8];
    let a_name: [u8; 4] = [0x4eu8, 0x61u8, 0x6du8, 0x65u8];
    let a_unique_id: [u8; 8] = [0x55u8, 0x6eu8, 0x69u8, 0x71u8, 0x75u8, 0x65u8, 0x49u8, 0x44u8];
    let a_arrow_kind: [u8; 9] = [0x41u8, 0x72u8, 0x72u8, 0x6fu8, 0x77u8, 0x4bu8, 0x69u8, 0x6eu8, 0x64u8];
    let a_distance_from_top: [u8; 15] = [0x44u8, 0x69u8, 0x73u8, 0x74u8, 0x61u8, 0x6eu8, 0x63u8, 0x65u8, 0x46u8, 0x72u8, 0x6fu8, 0x6du8, 0x54u8, 0x6fu8, 0x70u8];
    let a_color: [u8; 5] = [0x43u8, 0x6fu8, 0x6cu8, 0x6fu8, 0x72u8];
    let a_io_type: [u8; 6] = [0x49u8, 0x4fu8, 0x54u8, 0x79u8, 0x70u8, 0x65u8];
    let a_side: [u8; 4] = [0x53u8, 0x69u8, 0x64u8, 0x65u8];
    let t_text_style: [u8; 15] = [0x25u8, 0x55u8, 0x54u8, 0x46u8, 0x38u8, 0x25u8, 0x54u8, 0x65u8, 0x78u8, 0x74u8, 0x53u8, 0x74u8, 0x79u8, 0x6cu8, 0x65u8];
    let t_name: [u8; 10] = [0x25u8, 0x55u8, 0x54u8, 0x46u8, 0x38u8, 0x25u8, 0x4eu8, 0x61u8, 0x6du8, 0x65u8];
    let t_arrow_kind: [u8; 15] = [0x25u8, 0x55u8, 0x54u8, 0x46u8, 0x38u8, 0x25u8, 0x41u8, 0x72u8, 0x72u8, 0x6fu8, 0x77u8, 0x4bu8, 0x69u8, 0x6eu8, 0x64u8];
    proof {
        assert(a_owner_index@ =~= crate::keys::k_owner_index());
        assert(a_owner_part_id@ =~= crate::keys::k_owner_part_id());
        assert(a_index_in_sheet@ =~= crate::keys::k_index_in_sheet());
        assert(a_text_color@ =~= crate::keys::k_text_color());
        assert(a_area_color@ =~= crate::keys::k_area_color());
        assert(a_text_font_id@ =~= crate::keys::k_text_font_id());
        assert(a_text_style@ =~= crate::keys::k_text_style());
        assert(a_name@ =~= crate::keys::k_name());
        assert(a_unique_id@ =~= crate::keys::k_unique_id());
        assert(a_arrow_kind@ =~= crate::keys::k_arrow_kind());
        assert(a_distance_from_top@ =~= crate::keys::k_distance_from_top());
        assert(a_color@ =~= crate::keys::k_color());
        assert(a_io_type@ =~= crate::keys::k_io_type());
        assert(a_side@ =~= crate::keys::k_side());
        assert(t_text_style@ =~= utf8_twin(crate::keys::k_text_style()));
        assert(t_name@ =~= utf8_twin(crate::keys::k_name()));
        assert(t_arrow_kind@ =~= utf8_twin(crate::keys::k_arrow_kind()));
        assert(crate::keys::k_owner_index() != crate::keys::k_owner_part_id()) by { assert(crate::keys::k_owner_index().len() != crate::keys::k_owner_part_id().len()); }
        assert(crate::keys::k_owner_index() != crate::keys::k_index_in_sheet()) by { assert(crate::keys::k_owner_index().len() != crate::keys::k_index_in_sheet().len()); }
        assert(crate::keys::k_owner_index() != crate::keys::k_text_color()) by { assert(crate::keys::k_owner_index().len() != crate::keys::k_text_color().len()); }
        assert(crate::keys::k_owner_index() != crate::keys::k_area_color()) by { assert(crate::keys::k_owner_index().len() != crate::keys::k_area_color().len()); }
        assert(crate::keys::k_owner_index() != crate::keys::k_text_font_id()) by { assert(crate::keys::k_owner_index()[0] != crate::keys::k_text_font_id()[0]); }
        assert(crate::keys::k_owner_index() != crate::keys::k_text_style()) by { assert(crate::keys::k_owner_index().len() != crate::keys::k_text_style().len()); }
        assert(crate::keys::k_owner_index() != crate::keys::k_name()) by { assert(crate::keys::k_owner_index().len() != crate::keys::k_name().len()); }
        assert(crate::keys::k_owner_index() != crate::keys::k_unique_id()) by { assert(crate::keys::k_owner_index().len() != crate::keys::k_unique_id().len()); }
        assert(crate::keys::k_owner_index() != crate::keys::k_arrow_kind()) by { assert(crate::keys::k_owner_index().len() != crate::keys::k_arrow_kind().len()); }
        assert(crate::keys::k_owner_index() != crate::keys::k_distance_from_top()) by { assert(crate::keys::k_owner_index().len() != crate::keys::k_distance_from_top().len()); }
        assert(crate::keys::k_owner_index() != crate::keys::k_color()) by { assert(crate::keys::k_owner_index().len() != crate::keys::k_color().len()); }
        assert(crate::keys::k_owner_index() != crate::keys::k_io_type()) by { assert(crate::keys::k_owner_index().len() != crate::keys::k_io_type().len()); }
        assert(crate::keys::k_owner_index() != crate::keys::k_side()) by { assert(crate::keys::k_owner_index().len() != crate::keys::k_side().len()); }
        assert(crate::keys::k_owner_index() != utf8_twin(crate::keys::k_text_style())) by { assert(crate::keys::k_owner_index().len() != utf8_twin(crate::keys::k_text_style()).len()); }
        assert(crate::keys::k_owner_index() != utf8_twin(crate::keys::k_name())) by { assert(crate::keys::k_owner_index()[0] != utf8_twin(crate::keys::k_name())[0]); }
        assert(crate::keys::k_owner_index() != utf8_twin(crate::keys::k_arrow_kind())) by { assert(crate::keys::k_owner_index().len() != utf8_twin(crate::keys::k_arrow_kind()).len()); }
        assert(crate::keys::k_owner_part_id() != crate::keys::k_index_in_sheet()) by { assert(crate::keys::k_owner_part_id().len() != crate::keys::k_index_in_sheet().len()); }
        assert(crate::keys::k_owner_part_id() != crate::keys::k_text_color()) by { assert(crate::keys::k_owner_part_id().len() != crate::keys::k_text_color().len()); }
        assert(crate::keys::k_owner_part_id() != crate::keys::k_area_color()) by { assert(crate::keys::k_owner_part_id().len() != crate::keys::k_area_color().len()); }
        assert(crate::keys::k_owner_part_id() != crate::keys::k_text_font_id()) by { assert(crate::keys::k_owner_part_id().len() != crate::keys::k_text_font_id().len()); }
        assert(crate::keys::k_owner_part_id() != crate::keys::k_text_style()) by { assert(crate::keys::k_owner_part_id().len() != crate::keys::k_text_style().len()); }
        assert(crate::keys::k_owner_part_id() != crate::keys::k_name()) by { assert(crate::keys::k_owner_part_id().len() != crate::keys::k_name().len()); }
        assert(crate::keys::k_owner_part_id() != crate::keys::k_unique_id()) by { assert(crate::keys::k_owner_part_id().len() != crate::keys::k_unique_id().len()); }
        assert(crate::keys::k_owner_part_id() != crate::keys::k_arrow_kind()) by { assert(crate::keys::k_owner_part_id().len() != crate::keys::k_arrow_kind().len()); }
        assert(crate::keys::k_owner_part_id() != crate::keys::k_distance_from_top()) by { assert(crate::keys::k_owner_part_id().len() != crate::keys::k_distance_from_top().len()); }
        assert(crate::keys::k_owner_part_id() != crate::keys::k_color()) by { assert(crate::keys::k_owner_part_id().len() != crate::keys::k_color().len()); }
        assert(crate::keys::k_owner_part_id() != crate::keys::k_io_type()) by { assert(crate::keys::k_owner_part_id().len() != crate::keys::k_io_type().len()); }
        assert(crate::keys::k_owner_part_id() != crate::keys::k_side()) by { assert(crate::keys::k_owner_part_id().len() != crate::keys::k_side().len()); }
        assert(crate::keys::k_owner_part_id() != utf8_twin(crate::keys::k_text_style())) by { assert(crate::keys::k_owner_part_id().len() != utf8_twin(crate::keys::k_text_style()).len()); }
        assert(crate::keys::k_owner_part_id() != utf8_twin(crate::keys::k_name())) by { assert(crate::keys::k_owner_part_id().len() != utf8_twin(crate::keys::k_name()).len()); }
        assert(crate::keys::k_owner_part_id() != utf8_twin(crate::keys::k_arrow_kind())) by { assert(crate::keys::k_owner_part_id().len() != utf8_twin(crate::keys::k_arrow_kind()).len()); }
        assert(crate::keys::k_index_in_sheet() != crate::keys::k_text_color()) by { assert(crate::keys::k_index_in_sheet().len() != crate::keys::k_text_color().len()); }
        assert(crate::keys::k_index_in_sheet() != crate::keys::k_area_color()) by { assert(crate::keys::k_index_in_sheet().len() != crate::keys::k_area_color().len()); }
        assert(crate::keys::k_index_in_sheet() != crate::keys::k_text_font_id()) by { assert(crate::keys::k_index_in_sheet().len() != crate::keys::k_text_font_id().len()); }
        assert(crate::keys::k_index_in_sheet() != crate::keys::k_text_style()) by { assert(crate::keys::k_index_in_sheet().len() != crate::keys::k_text_style().len()); }
        assert(crate::keys::k_index_in_sheet() != crate::keys::k_name()) by { assert(crate::keys::k_index_in_sheet().len() != crate::keys::k_name().len()); }
        assert(crate::keys::k_index_in_sheet() != crate::keys::k_unique_id()) by { assert(crate::keys::k_index_in_sheet().len() != crate::keys::k_unique_id().len()); }
        assert(crate::keys::k_index_in_sheet() != crate::keys::k_arrow_kind()) by { assert(crate::keys::k_index_in_sheet().len() != crate::keys::k_arrow_kind().len()); }
        assert(crate::keys::k_index_in_sheet() != crate::keys::k_distance_from_top()) by { assert(crate::keys::k_index_in_sheet().len() != crate::keys::k_distance_from_top().len()); }
        assert(crate::keys::k_index_in_sheet() != crate::keys::k_color()) by { assert(crate::keys::k_index_in_sheet().len() != crate::keys::k_color().len()); }
        assert(crate::keys::k_index_in_sheet() != crate::keys::k_io_type()) by { assert(crate::keys::k_index_in_sheet().len() != crate::keys::k_io_type().len()); }
        assert(crate::keys::k_index_in_sheet() != crate::keys::k_side()) by { assert(crate::keys::k_index_in_sheet().len() != crate::keys::k_side().len()); }
        assert(crate::keys::k_index_in_sheet() != utf8_twin(crate::keys::k_text_style())) by { assert(crate::keys::k_index_in_sheet().len() != utf8_twin(crate::keys::k_text_style()).len()); }
        assert(crate::keys::k_index_in_sheet() != utf8_twin(crate::keys::k_name())) by { assert(crate::keys::k_index_in_sheet().len() != utf8_twin(crate::keys::k_name()).len()); }
        assert(crate::keys::k_index_in_sheet() != utf8_twin(crate::keys::k_arrow_kind())) by { assert(crate::keys::k_index_in_sheet().len() != utf8_twin(crate::keys::k_arrow_kind()).len()); }
        assert(crate::keys::k_text_color() != crate::keys::k_area_color()) by { assert(crate::keys::k_text_color()[0] != crate::keys::k_area_color()[0]); }
        assert(crate::keys::k_text_color() != crate::keys::k_text_font_id()) by { assert(crate::keys::k_text_color().len() != crate::keys::k_text_font_id().len()); }
        assert(crate::keys::k_text_color() != crate::keys::k_text_style()) by { assert(crate::keys::k_text_color()[4] != crate::keys::k_text_style()[4]); }
        assert(crate::keys::k_text_color() != crate::keys::k_name()) by { assert(crate::keys::k_text_color().len() != crate::keys::k_name().len()); }
        assert(crate::keys::k_text_color() != crate::keys::k_unique_id()) by { assert(crate::keys::k_text_color().len() != crate::keys::k_unique_id().len()); }
        assert(crate::keys::k_text_color() != crate::keys::k_arrow_kind()) by { assert(crate::keys::k_text_color()[0] != crate::keys::k_arrow_kind()[0]); }
        assert(crate::keys::k_text_color() != crate::keys::k_distance_from_top()) by { assert(crate::keys::k_text_color().len() != crate::keys::k_distance_from_top().len()); }
        assert(crate::keys::k_text_color() != crate::keys::k_color()) by { assert(crate::keys::k_text_color().len() != crate::keys::k_color().len()); }
        assert(crate::keys::k_text_color() != crate::keys::k_io_type()) by { assert(crate::keys::k_text_color().len() != crate::keys::k_io_type().len()); }
        assert(crate::keys::k_text_color() != crate::keys::k_side()) by { assert(crate::keys::k_text_color().len() != crate::keys::k_side().len()); }
        assert(crate::keys::k_text_color() != utf8_twin(crate::keys::k_text_style())) by { assert(crate::keys::k_text_color().len() != utf8_twin(crate::keys::k_text_style()).len()); }
        assert(crate::keys::k_text_color() != utf8_twin(crate::keys::k_name())) by { assert(crate::keys::k_text_color().len() != utf8_twin(crate::keys::k_name()).len()); }
        assert(crate::keys::k_text_color() != utf8_twin(crate::keys::k_arrow_kind())) by { assert(crate::keys::k_text_color().len() != utf8_twin(crate::keys::k_arrow_kind()).len()); }
        assert(crate::keys::k_area_color() != crate::keys::k_text_font_id()) by { assert(crate::keys::k_area_color().len() != crate::keys::k_text_font_id().len()); }
        assert(crate::keys::k_area_color() != crate::keys::k_text_style()) by { assert(crate::keys::k_area_color()[0] != crate::keys::k_text_style()[0]); }
        assert(crate::keys::k_area_color() != crate::keys::k_name()) by { assert(crate::keys::k_area_color().len() != crate::keys::k_name().len()); }
        assert(crate::keys::k_area_color() != crate::keys::k_unique_id()) by { assert(crate::keys::k_area_color().len() != crate::keys::k_unique_id().len()); }
        assert(crate::keys::k_area_color() != crate::keys::k_arrow_kind()) by { assert(crate::keys::k_area_color()[2] != crate::keys::k_arrow_kind()[2]); }
        assert(crate::keys::k_area_color() != crate::keys::k_distance_from_top()) by { assert(crate::keys::k_area_color().len() != crate::keys::k_distance_from_top().len()); }
        assert(crate::keys::k_area_color() != crate::keys::k_color()) by { assert(crate::keys::k_area_color().len() != crate::keys::k_color().len()); }
        assert(crate::keys::k_area_color() != crate::keys::k_io_type()) by { assert(crate::keys::k_area_color().len() != crate::keys::k_io_type().len()); }
        assert(crate::keys::k_area_color() != crate::keys::k_side()) by { assert(crate::keys::k_area_color().len() != crate::keys::k_side().len()); }
        assert(crate::keys::k_area_color() != utf8_twin(crate::keys::k_text_style())) by { assert(crate::keys::k_area_color().len() != utf8_twin(crate::keys::k_text_style()).len()); }
        assert(crate::keys::k_area_color() != utf8_twin(crate::keys::k_name())) by { assert(crate::keys::k_area_color().len() != utf8_twin(crate::keys::k_name()).len()); }
        assert(crate::keys::k_area_color() != utf8_twin(crate::keys::k_arrow_kind())) by { assert(crate::keys::k_area_color().len() != utf8_twin(crate::keys::k_arrow_kind()).len()); }
        assert(crate::keys::k_text_font_id() != crate::keys::k_text_style()) by { assert(crate::keys::k_text_font_id().len() != crate::keys::k_text_style().len()); }
        assert(crate::keys::k_text_font_id() != crate::keys::k_name()) by { assert(crate::keys::k_text_font_id().len() != crate::keys::k_name().len()); }
        assert(crate::keys::k_text_font_id() != crate::keys::k_unique_id()) by { assert(crate::keys::k_text_font_id().len() != crate::keys::k_unique_id().len()); }
        assert(crate::keys::k_text_font_id() != crate::keys::k_arrow_kind()) by { assert(crate::keys::k_text_font_id().len() != crate::keys::k_arrow_kind().len()); }
        assert(crate::keys::k_text_font_id() != crate::keys::k_distance_from_top()) by { assert(crate::keys::k_text_font_id().len() != crate::keys::k_distance_from_top().len()); }
        assert(crate::keys::k_text_font_id() != crate::keys::k_color()) by { assert(crate::keys::k_text_font_id().len() != crate::keys::k_color().len()); }
        assert(crate::keys::k_text_font_id() != crate::keys::k_io_type()) by { assert(crate::keys::k_text_font_id().len() != crate::keys::k_io_type().len()); }
        assert(crate::keys::k_text_font_id() != crate::keys::k_side()) by { assert(crate::keys::k_text_font_id().len() != crate::keys::k_side().len()); }
        assert(crate::keys::k_text_font_id() != utf8_twin(crate::keys::k_text_style())) by { assert(crate::keys::k_text_font_id().len() != utf8_twin(crate::keys::k_text_style()).len()); }
        assert(crate::keys::k_text_font_id() != utf8_twin(crate::keys::k_name())) by { assert(crate::keys::k_text_font_id()[0] != utf8_twin(crate::keys::k_name())[0]); }
        assert(crate::keys::k_text_font_id() != utf8_twin(crate::keys::k_arrow_kind())) by { assert(crate::keys::k_text_font_id().len() != utf8_twin(crate::keys::k_arrow_kind()).len()); }
        assert(crate::keys::k_text_style() != crate::keys::k_name()) by { assert(crate::keys::k_text_style().len() != crate::keys::k_name().len()); }
        assert(crate::keys::k_text_style() != crate::keys::k_unique_id()) by { assert(crate::keys::k_text_style().len() != crate::keys::k_unique_id().len()); }
        assert(crate::keys::k_text_style() != crate::keys::k_arrow_kind()) by { assert(crate::keys::k_text_style()[0] != crate::keys::k_arrow_kind()[0]); }
        assert(crate::keys::k_text_style() != crate::keys::k_distance_from_top()) by { assert(crate::keys::k_text_style().len() != crate::keys::k_distance_from_top().len()); }
        assert(crate::keys::k_text_style() != crate::keys::k_color()) by { assert(crate::keys::k_text_style().len() != crate::keys::k_color().len()); }
        assert(crate::keys::k_text_style() != crate::keys::k_io_type()) by { assert(crate::keys::k_text_style().len() != crate::keys::k_io_type().len()); }
        assert(crate::keys::k_text_style() != crate::keys::k_side()) by { assert(crate::keys::k_text_style().len() != crate::keys::k_side().len()); }
        assert(crate::keys::k_text_style() != utf8_twin(crate::keys::k_text_style())) by { assert(crate::keys::k_text_style().len() != utf8_twin(crate::keys::k_text_style()).len()); }
        assert(crate::keys::k_text_style() != utf8_twin(crate::keys::k_name())) by { assert(crate::keys::k_text_style().len() != utf8_twin(crate::keys::k_name()).len()); }
        assert(crate::keys::k_text_style() != utf8_twin(crate::keys::k_arrow_kind())) by { assert(crate::keys::k_text_style().len() != utf8_twin(crate::keys::k_arrow_kind()).len()); }
        assert(crate::keys::k_name() != crate::keys::k_unique_id()) by { assert(crate::keys::k_name().len() != crate::keys::k_unique_id().len()); }
        assert(crate::keys::k_name() != crate::keys::k_arrow_kind()) by { assert(crate::keys::k_name().len() != crate::keys::k_arrow_kind().len()); }
        assert(crate::keys::k_name() != crate::keys::k_distance_from_top()) by { assert(crate::keys::k_name().len() != crate::keys::k_distance_from_top().len()); }
        assert(crate::keys::k_name() != crate::keys::k_color()) by { assert(crate::keys::k_name().len() != crate::keys::k_color().len()); }
        assert(crate::keys::k_name() != crate::keys::k_io_type()) by { assert(crate::keys::k_name().len() != crate::keys::k_io_type().len()); }
        assert(crate::keys::k_name() != crate::keys::k_side()) by { assert(crate::keys::k_name()[0] != crate::keys::k_side()[0]); }
        assert(crate::keys::k_name() != utf8_twin(crate::keys::k_text_style())) by { assert(crate::keys::k_name().len() != utf8_twin(crate::keys::k_text_style()).len()); }
        assert(crate::keys::k_name() != utf8_twin(crate::keys::k_name())) by { assert(crate::keys::k_name().len() != utf8_twin(crate::keys::k_name()).len()); }
        assert(crate::keys::k_name() != utf8_twin(crate::keys::k_arrow_kind())) by { assert(crate::keys::k_name().len() != utf8_twin(crate::keys::k_arrow_kind()).len()); }
        assert(crate::keys::k_unique_id() != crate::keys::k_arrow_kind()) by { assert(crate::keys::k_unique_id().len() != crate::keys::k_arrow_kind().len()); }
        assert(crate::keys::k_unique_id() != crate::keys::k_distance_from_top()) by { assert(crate::keys::k_unique_id().len() != crate::keys::k_distance_from_top().len()); }
        assert(crate::keys::k_unique_id() != crate::keys::k_color()) by { assert(crate::keys::k_unique_id().len() != crate::keys::k_color().len()); }
        assert(crate::keys::k_unique_id() != crate::keys::k_io_type()) by { assert(crate::keys::k_unique_id().len() != crate::keys::k_io_type().len()); }
        assert(crate::keys::k_unique_id() != crate::keys::k_side()) by { assert(crate::keys::k_unique_id().len() != crate::keys::k_side().len()); }
        assert(crate::keys::k_unique_id() != utf8_twin(crate::keys::k_text_style())) by { assert(crate::keys::k_unique_id().len() != utf8_twin(crate::keys::k_text_style()).len()); }
        assert(crate::keys::k_unique_id() != utf8_twin(crate::keys::k_name())) by { assert(crate::keys::k_unique_id().len() != utf8_twin(crate::keys::k_name()).len()); }
        assert(crate::keys::k_unique_id() != utf8_twin(crate::keys::k_arrow_kind())) by { assert(crate::keys::k_unique_id().len() != utf8_twin(crate::keys::k_arrow_kind()).len()); }
        assert(crate::keys::k_arrow_kind() != crate::keys::k_distance_from_top()) by { assert(crate::keys::k_arrow_kind().len() != crate::keys::k_distance_from_top().len()); }
        assert(crate::keys::k_arrow_kind() != crate::keys::k_color()) by { assert(crate::keys::k_arrow_kind().len() != crate::keys::k_color().len()); }
        assert(crate::keys::k_arrow_kind() != crate::keys::k_io_type()) by { assert(crate::keys::k_arrow_kind().len() != crate::keys::k_io_type().len()); }
        assert(crate::keys::k_arrow_kind() != crate::keys::k_side()) by { assert(crate::keys::k_arrow_kind().len() != crate::keys::k_side().len()); }
        assert(crate::keys::k_arrow_kind() != utf8_twin(crate::keys::k_text_style())) by { assert(crate::keys::k_arrow_kind().len() != utf8_twin(crate::keys::k_text_style()).len()); }
        assert(crate::keys::k_arrow_kind() != utf8_twin(crate::keys::k_name())) by { assert(crate::keys::k_arrow_kind().len() != utf8_twin(crate::keys::k_name()).len()); }
        assert(crate::keys::k_arrow_kind() != utf8_twin(crate::keys::k_arrow_kind())) by { assert(crate::keys::k_arrow_kind().len() != utf8_twin(crate::keys::k_arrow_kind()).len()); }
        assert(crate::keys::k_distance_from_top() != crate::keys::k_color()) by { assert(crate::keys::k_distance_from_top().len() != crate::keys::k_color().len()); }
        assert(crate::keys::k_distance_from_top() != crate::keys::k_io_type()) by { assert(crate::keys::k_distance_from_top().len() != crate::keys::k_io_type().len()); }
        assert(crate::keys::k_distance_from_top() != crate::keys::k_side()) by { assert(crate::keys::k_distance_from_top().len() != crate::keys::k_side().len()); }
        assert(crate::keys::k_distance_from_top() != utf8_twin(crate::keys::k_text_style())) by { assert(crate::keys::k_distance_from_top()[0] != utf8_twin(crate::keys::k_text_style())[0]); }
        assert(crate::keys::k_distance_from_top() != utf8_twin(crate::keys::k_name())) by { assert(crate::keys::k_distance_from_top().len() != utf8_twin(crate::keys::k_name()).len()); }
        assert(crate::keys::k_distance_from_top() != utf8_twin(crate::keys::k_arrow_kind())) by { assert(crate::keys::k_distance_from_top()[0] != utf8_twin(crate::keys::k_arrow_kind())[0]); }
        assert(crate::keys::k_color() != crate::keys::k_io_type()) by { assert(crate::keys::k_color().len() != crate::keys::k_io_type().len()); }
        assert(crate::keys::k_color() != crate::keys::k_side()) by { assert(crate::keys::k_color().len() != crate::keys::k_side().len()); }
        assert(crate::keys::k_color() != utf8_twin(crate::keys::k_text_style())) by { assert(crate::keys::k_color().len() != utf8_twin(crate::keys::k_text_style()).len()); }
        assert(crate::keys::k_color() != utf8_twin(crate::keys::k_name())) by { assert(crate::keys::k_color().len() != utf8_twin(crate::keys::k_name()).len()); }
        assert(crate::keys::k_color() != utf8_twin(crate::keys::k_arrow_kind())) by { assert(crate::keys::k_color().len() != utf8_twin(crate::keys::k_arrow_kind()).len()); }
        assert(crate::keys::k_io_type() != crate::keys::k_side()) by { assert(crate::keys::k_io_type().len() != crate::keys::k_side().len()); }
        assert(crate::keys::k_io_type() != utf8_twin(crate::keys::k_text_style())) by { assert(crate::keys::k_io_type().len() != utf8_twin(crate::keys::k_text_style()).len()); }
        assert(crate::keys::k_io_type() != utf8_twin(crate::keys::k_name())) by { assert(crate::keys::k_io_type().len() != utf8_twin(crate::keys::k_name()).len()); }
        assert(crate::keys::k_io_type() != utf8_twin(crate::keys::k_arrow_kind())) by { assert(crate::keys::k_io_type().len() != utf8_twin(crate::keys::k_arrow_kind()).len()); }
        assert(crate::keys::k_side() != utf8_twin(crate::keys::k_text_style())) by { assert(crate::keys::k_side().len() != utf8_twin(crate::keys::k_text_style()).len()); }
        assert(crate::keys::k_side() != utf8_twin(crate::keys::k_name())) by { assert(crate::keys::k_side().len() != utf8_twin(crate::keys::k_name()).len()); }
        assert(crate::keys::k_side() != utf8_twin(crate::keys::k_arrow_kind())) by { assert(crate::keys::k_side().len() != utf8_twin(crate::keys::k_arrow_kind()).len()); }
        assert(utf8_twin(crate::keys::k_text_style()) != utf8_twin(crate::keys::k_name())) by { assert(utf8_twin(crate::keys::k_text_style()).len() != utf8_twin(crate::keys::k_name()).len()); }
        assert(utf8_twin(crate::keys::k_text_style()) != utf8_twin(crate::keys::k_arrow_kind())) by { assert(utf8_twin(crate::keys::k_text_style())[6] != utf8_twin(crate::keys::k_arrow_kind())[6]); }
        assert(utf8_twin(crate::keys::k_name()) != utf8_twin(crate::keys::k_arrow_kind())) by { assert(utf8_twin(crate::keys::k_name()).len() != utf8_twin(crate::keys::k_arrow_kind()).len()); }
    }
        let mut x = SheetEntry {
        owner_index: 0,
        owner_part_id: 0,
        index_in_sheet: 0,
        text_color: Rgb { r: 0, g: 0, b: 0 },
        area_color: Rgb { r: 0, g: 0, b: 0 },
        text_font_id: 0,
        text_style: String::new(),
        name: String::new(),
        unique_id: UniqueId::Simple([0x30u8, 0x30u8, 0x30u8, 0x30u8, 0x30u8, 0x30u8, 0x30u8, 0x30u8]),
        arrow_kind: String::new(),
        distance_from_top: 0,
        color: Rgb { r: 0, g: 0, b: 0 },
        io_type: 0,
        side: 0,
        };
    let mut seen_text_style: bool = false;
    let mut seen_name: bool = false;
    let mut seen_arrow_kind: bool = false;
        let n = pairs.len();
        let mut i: usize = 0;
        while i < n
            invariant
                0 <= i <= n,
                n == pairs@.len(),
                !SheetEntry::spec_fails(p.take(i as int)),
                SheetEntry::spec_matches(x, p.take(i as int)),
            seen_text_style == has_key(p.take(i as int), utf8_twin(crate::keys::k_text_style())),
            seen_name == has_key(p.take(i as int), utf8_twin(crate::keys::k_name())),
            seen_arrow_kind == has_key(p.take(i as int), utf8_twin(crate::keys::k_arrow_kind())),
                counter.count == sat_add(old(counter).count, SheetEntry::spec_unknown(p.take(i as int))),
                0 <= SheetEntry::spec_unknown(p.take(i as int)) <= i,
            decreases n - i,
        {
            let key: &[u8] = pairs[i].0.as_slice();
            let val: &[u8] = pairs[i].1.as_slice();
            proof {
                assert(p[i as int] == (pairs@[i as int].0@, pairs@[i as int].1@));
                assert(p.take(i as int + 1).drop_last() =~= p.take(i as int));
                assert(p.take(i as int + 1).last() == p[i as int]);
                assert forall|j: int| 0 <= j <= i implies #[trigger] p.take(i as int + 1).take(j)
                    == p.take(j) by {
                    assert(p.take(i as int + 1).take(j) =~= p.take(j));
                }
                assert forall|j: int| 0 <= j <= i implies #[trigger] p.take(i as int).take(j)
                    == p.take(j) by {
                    assert(p.take(i as int).take(j) =~= p.take(j));
                }
            }
        if crate::common::bytes_eq(key, a_owner_index.as_slice()) {
                    match crate::parse::parse_u8(val) {
                        Ok(v) => { x.owner_index = v; },
                        Err(e) => {
                            proof {
                                assert(p[i as int].0 == crate::keys::k_owner_index());
                                assert(kind_field_fails(p, FieldKind::U8, crate::keys::k_owner_index()));
                            }
                            return Err(e);
                        },
                    }
                }
        else if crate::common::bytes_eq(key, a_owner_part_id.as_slice()) {
                    match crate::parse::parse_i8(val) {
                        Ok(v) => { x.owner_part_id = v; },
                        Err(e) => {
                            proof {
                                assert(p[i as int].0 == crate::keys::k_owner_part_id());
                                assert(kind_field_fails(p, FieldKind::I8, crate::keys::k_owner_part_id()));
                            }
                            return Err(e);
                        },
                    }
                }
        else if crate::common::bytes_eq(key, a_index_in_sheet.as_slice()) {
                    match crate::parse::parse_i16(val) {
                        Ok(v) => { x.index_in_sheet = v; },
                        Err(e) => {
                            proof {
                                assert(p[i as int].0 == crate::keys::k_index_in_sheet());
                                assert(kind_field_fails(p, FieldKind::I16, crate::keys::k_index_in_sheet()));
                            }
                            return Err(e);
                        },
                    }
                }
        else if crate::common::bytes_eq(key, a_text_color.as_slice()) {
                    match Rgb::from_utf8(val) {
                        Ok(v) => { x.text_color = v; },
                        Err(e) => {
                            proof {
                                assert(p[i as int].0 == crate::keys::k_text_color());
                                assert(kind_field_fails(p, FieldKind::Color, crate::keys::k_text_color()));
                            }
                            return Err(e);
                        },
                    }
                }
        else if crate::common::bytes_eq(key, a_area_color.as_slice()) {
                    match Rgb::from_utf8(val) {
                        Ok(v) => { x.area_color = v; },
                        Err(e) => {
                            proof {
                                assert(p[i as int].0 == crate::keys::k_area_color());
                                assert(kind_field_fails(p, FieldKind::Color, crate::keys::k_area_color()));
                            }
                            return Err(e);
                        },
                    }
                }
        else if crate::common::bytes_eq(key, a_text_font_id.as_slice()) {
                    match crate::parse::parse_u16(val) {
                        Ok(v) => { x.text_font_id = v; },
                        Err(e) => {
                            proof {
                                assert(p[i as int].0 == crate::keys::k_text_font_id());
                                assert(kind_field_fails(p, FieldKind::U16, crate::keys::k_text_font_id()));
                            }
                            return Err(e);
                        },
                    }
                }
        else if crate::common::bytes_eq(key, t_text_style.as_slice()) {
                    match crate::common::str_from_utf8(val) {
                        Ok(s) => { x.text_style = s; seen_text_style = true; },
                        Err(e) => {
                            proof {
                                assert(p[i as int].0 == utf8_twin(crate::keys::k_text_style()));
                                assert(str_field_fails(p, crate::keys::k_text_style()));
                            }
                            return Err(e);
                        },
                    }
                } else if crate::common::bytes_eq(key, a_text_style.as_slice()) {
                    if !seen_text_style {
                        match crate::common::str_from_utf8(val) {
                            Ok(s) => { x.text_style = s; },
                            Err(e) => {
                                proof {
                                    assert(p[i as int].0 == crate::keys::k_text_style());
                                    assert(!has_key(p.take(i as int), utf8_twin(crate::keys::k_text_style())));
                                    assert(str_field_fails(p, crate::keys::k_text_style()));
                                }
                                return Err(e);
                            },
                        }
                    }
                }
        else if crate::common::bytes_eq(key, t_name.as_slice()) {
                    match crate::common::str_from_utf8(val) {
                        Ok(s) => { x.name = s; seen_name = true; },
                        Err(e) => {
                            proof {
                                assert(p[i as int].0 == utf8_twin(crate::keys::k_name()));
                                assert(str_field_fails(p, crate::keys::k_name()));
                            }
                            return Err(e);
                        },
                    }
                } else if crate::common::bytes_eq(key, a_name.as_slice()) {
                    if !seen_name {
                        match crate::common::str_from_utf8(val) {
                            Ok(s) => { x.name = s; },
                            Err(e) => {
                                proof {
                                    assert(p[i as int].0 == crate::keys::k_name());
                                    assert(!has_key(p.take(i as int), utf8_twin(crate::keys::k_name())));
                                    assert(str_field_fails(p, crate::keys::k_name()));
                                }
                                return Err(e);
                            },
                        }
                    }
                }
        else if crate::common::bytes_eq(key, a_unique_id.as_slice()) {
                    match UniqueId::from_utf8(val) {
                        Ok(v) => { x.unique_id = v; },
                        Err(e) => {
                            proof {
                                assert(p[i as int].0 == crate::keys::k_unique_id());
                                assert(kind_field_fails(p, FieldKind::Uid, crate::keys::k_unique_id()));
                            }
                            return Err(e);
                        },
                    }
                }
        else if crate::common::bytes_eq(key, t_arrow_kind.as_slice()) {
                    match crate::common::str_from_utf8(val) {
                        Ok(s) => { x.arrow_kind = s; seen_arrow_kind = true; },
                        Err(e) => {
                            proof {
                                assert(p[i as int].0 == utf8_twin(crate::keys::k_arrow_kind()));
                                assert(str_field_fails(p, crate::keys::k_arrow_kind()));
                            }
                            return Err(e);
                        },
                    }
                } else if crate::common::bytes_eq(key, a_arrow_kind.as_slice()) {
                    if !seen_arrow_kind {
                        match crate::common::str_from_utf8(val) {
                            Ok(s) => { x.arrow_kind = s; },
                            Err(e) => {
                                proof {
                                    assert(p[i as int].0 == crate::keys::k_arrow_kind());
                                    assert(!has_key(p.take(i as int), utf8_twin(crate::keys::k_arrow_kind())));
                                    assert(str_field_fails(p, crate::keys::k_arrow_kind()));
                                }
                                return Err(e);
                            },
                        }
                    }
                }
        else if crate::common::bytes_eq(key, a_distance_from_top.as_slice()) {
                    match crate::parse::parse_i32(val) {
                        Ok(v) => { x.distance_from_top = v; },
                        Err(e) => {
                            proof {
                                assert(p[i as int].0 == crate::keys::k_distance_from_top());
                                assert(kind_field_fails(p, FieldKind::I32, crate::keys::k_distance_from_top()));
                            }
                            return Err(e);
                        },
                    }
                }
        else if crate::common::bytes_eq(key, a_color.as_slice()) {
                    match Rgb::from_utf8(val) {
                        Ok(v) => { x.color = v; },
                        Err(e) => {
                            proof {
                                assert(p[i as int].0 == crate::keys::k_color());
                                assert(kind_field_fails(p, FieldKind::Color, crate::keys::k_color()));
                            }
                            return Err(e);
                        },
                    }
                }
        else if crate::common::bytes_eq(key, a_io_type.as_slice()) {
                    match crate::parse::parse_i32(val) {
                        Ok(v) => { x.io_type = v; },
                        Err(e) => {
                            proof {
                                assert(p[i as int].0 == crate::keys::k_io_type());
                                assert(kind_field_fails(p, FieldKind::I32, crate::keys::k_io_type()));
                            }
                            return Err(e);
                        },
                    }
                }
        else if crate::common::bytes_eq(key, a_side.as_slice()) {
                    match crate::parse::parse_i32(val) {
                        Ok(v) => { x.side = v; },
                        Err(e) => {
                            proof {
                                assert(p[i as int].0 == crate::keys::k_side());
                                assert(kind_field_fails(p, FieldKind::I32, crate::keys::k_side()));
                            }
                            return Err(e);
                        },
                    }
                }
        else {
            crate::logging::macro_unsupported_key(counter, "SheetEntry", key, val);
        }
            i += 1;
        }
        proof {
            assert(p.take(n as int) =~= p);
        }
        Ok(x)
    }
}

impl PowerPort {
    /// The wire record ID of this kind.
    pub open spec fn spec_record_id() -> u32 {
        17
    }

    /// Whether the binder recognizes this wire key.
    pub open spec fn spec_known_key(k: Seq<u8>) -> bool {
        ||| k == crate::keys::k_owner_index()
        ||| k == crate::keys::k_owner_part_id()
        ||| k == crate::keys::k_is_cross_sheet_connector()
        ||| k == crate::keys::k_index_in_sheet()
        ||| k == crate::keys::k_style()
        ||| k == crate::keys::k_show_net_name()
        ||| k == crate::keys::k_location_x()
        ||| k == crate::keys::k_location_y()
        ||| k == crate::keys::k_orientation()
        ||| k == crate::keys::k_font_id()
        ||| k == crate::keys::k_text()
        ||| k == utf8_twin(crate::keys::k_text())
        ||| k == crate::keys::k_unique_id()
        ||| k == crate::keys::k_color()
    }

    /// How many pairs hold keys the binder does not recognize.
    pub open spec fn spec_unknown(p: SpecPairs) -> int
        decreases p.len(),
    {
        if p.len() == 0 {
            0
        } else {
            Self::spec_unknown(p.drop_last()) + if Self::spec_known_key(p.last().0) {
                0int
            } else {
                1int
            }
        }
    }

    /// Whether some pair's value is one its field's parser rejects.
    pub open spec fn spec_fails(p: SpecPairs) -> bool {
        ||| kind_field_fails(p, FieldKind::U8, crate::keys::k_owner_index())
        ||| kind_field_fails(p, FieldKind::I8, crate::keys::k_owner_part_id())
        ||| kind_field_fails(p, FieldKind::Bool, crate::keys::k_is_cross_sheet_connector())
        ||| kind_field_fails(p, FieldKind::I16, crate::keys::k_index_in_sheet())
        ||| kind_field_fails(p, FieldKind::I16, crate::keys::k_style())
        ||| kind_field_fails(p, FieldKind::Bool, crate::keys::k_show_net_name())
        ||| kind_field_fails(p, FieldKind::I32, crate::keys::k_location_x())
        ||| kind_field_fails(p, FieldKind::I32, crate::keys::k_location_y())
        ||| kind_field_fails(p, FieldKind::I32, crate::keys::k_orientation())
        ||| kind_field_fails(p, FieldKind::U16, crate::keys::k_font_id())
        ||| str_field_fails(p, crate::keys::k_text())
        ||| kind_field_fails(p, FieldKind::Uid, crate::keys::k_unique_id())
        ||| kind_field_fails(p, FieldKind::Color, crate::keys::k_color())
    }

    /// Each field as the walk of the pairs leaves it.
    pub open spec fn spec_matches(x: PowerPort, p: SpecPairs) -> bool {
        &&& x.owner_index == u8_field(p, crate::keys::k_owner_index())
        &&& x.owner_part_id == i8_field(p, crate::keys::k_owner_part_id())
        &&& x.is_cross_sheet_connector == bool_field(p, crate::keys::k_is_cross_sheet_connector())
        &&& x.index_in_sheet == i16_field(p, crate::keys::k_index_in_sheet())
        &&& x.style == i16_field(p, crate::keys::k_style())
        &&& x.show_net_name == bool_field(p, crate::keys::k_show_net_name())
        &&& x.location == loc_field(p, crate::keys::k_location_x(), crate::keys::k_location_y())
        &&& x.orientation == i32_field(p, crate::keys::k_orientation())
        &&& x.font_id == u16_field(p, crate::keys::k_font_id())
        &&& x.text@ == str_field(p, crate::keys::k_text())
        &&& x.unique_id == uid_field(p, crate::keys::k_unique_id())
        &&& x.color == color_field(p, crate::keys::k_color())
    }

    /// Bind the fields of one `PowerPort` record from its key-value pairs.
    #[verifier::loop_isolation(false)]
    #[verifier::rlimit(100)]
    pub fn from_record(pairs: &[(Vec<u8>, Vec<u8>)], counter: &mut UnsupportedCounter) -> (r:
        Result<PowerPort, ErrorKind>)
        ensures
            r is Ok <==> !PowerPort::spec_fails(pairs_view(pairs@)),
            r is Ok ==> PowerPort::spec_matches(r->Ok_0, pairs_view(pairs@)),
            r is Ok ==> final(counter).count == sat_add(
                old(counter).count,
                PowerPort::spec_unknown(pairs_view(pairs@)),
            ),
            final(counter).count >= old(counter).count,
    {
        let ghost p = pairs_view(pairs@);
        proof {
            crate::common::lemma_pairs_view(pairs@);
            assert(p.take(0) =~= Seq::<(Seq<u8>, Seq<u8>)>::empty());
        }
    let a_owner_index: [u8; 10] = [0x4fu8, 0x77u8, 0x6eu8, 0x65u8, 0x72u8, 0x49u8, 0x6eu8, 0x64u8, 0x65u8, 0x78u8];
    let a_owner_part_id: [u8; 11] = [0x4fu8, 0x77u8, 0x6eu8, 0x65u8, 0x72u8, 0x50u8, 0x61u8, 0x72u8, 0x74u8, 0x49u8, 0x64u8];
    let a_is_cross_sheet_connector: [u8; 21] = [0x49u8, 0x73u8, 0x43u8, 0x72u8, 0x6fu8, 0x73u8, 0x73u8, 0x53u8, 0x68u8, 0x65u8, 0x65u8, 0x74u8, 0x43u8, 0x6fu8, 0x6eu8, 0x6eu8, 0x65u8, 0x63u8, 0x74u8, 0x6fu8, 0x72u8];
    let a_index_in_sheet: [u8; 12] = [0x49u8, 0x6eu8, 0x64u8, 0x65u8, 0x78u8, 0x49u8, 0x6eu8, 0x53u8, 0x68u8, 0x65u8, 0x65u8, 0x74u8];
    let a_style: [u8; 5] = [0x53u8, 0x74u8, 0x79u8, 0x6cu8, 0x65u8];
    let a_show_net_name: [u8; 11] = [0x53u8, 0x68u8, 0x6fu8, 0x77u8, 0x4eu8, 0x65u8, 0x74u8, 0x4eu8, 0x61u8, 0x6du8, 0x65u8];
    let a_location_x: [u8; 10] = [0x4cu8, 0x6fu8, 0x63u8, 0x61u8, 0x74u8, 0x69u8, 0x6fu8, 0x6eu8, 0x2eu8, 0x58u8];
    let a_location_y: [u8; 10] = [0x4cu8, 0x6fu8, 0x63u8, 0x61u8, 0x74u8, 0x69u8, 0x6fu8, 0x6eu8, 0x2eu8, 0x59u8];
    let a_orientation: [u8; 11] = [0x4fu8, 0x72u8, 0x69u8, 0x65u8, 0x6eu8, 0x74u8, 0x61u8, 0x74u8, 0x69u8, 0x6fu8, 0x6eu8];
    let a_font_id: [u8; 6] = [0x46u8, 0x6fu8, 0x6eu8, 0x74u8, 0x49u8, 0x44u8];
    let a_text: [u8; 4] = [0x54u8, 0x65u8, 0x78u8, 0x74u8];
    let a_unique_id: [u8; 8] = [0x55u8, 0x6eu8, 0x69u8, 0x71u8, 0x75u8, 0x65u8, 0x49u8, 0x44u8];
    let a_color: [u8; 5] = [0x43u8, 0x6fu8, 0x6cu8, 0x6fu8, 0x72u8];
    let t_text: [u8; 10] = [0x25u8, 0x55u8, 0x54u8, 0x46u8, 0x38u8, 0x25u8, 0x54u8, 0x65u8, 0x78u8, 0x74u8];
    proof {
        assert(a_owner_index@ =~= crate::keys::k_owner_index());
        assert(a_owner_part_id@ =~= crate::keys::k_owner_part_id());
        assert(a_is_cross_sheet_connector@ =~= crate::keys::k_is_cross_sheet_connector());
        assert(a_index_in_sheet@ =~= crate::keys::k_index_in_sheet());
        assert(a_style@ =~= crate::keys::k_style());
        assert(a_show_net_name@ =~= crate::keys::k_show_net_name());
        assert(a_location_x@ =~= crate::keys::k_location_x());
        assert(a_location_y@ =~= crate::keys::k_location_y());
        assert(a_orientation@ =~= crate::keys::k_orientation());
        assert(a_font_id@ =~= crate::keys::k_font_id());
        assert(a_text@ =~= crate::keys::k_text());
        assert(a_unique_id@ =~= crate::keys::k_unique_id());
        assert(a_color@ =~= crate::keys::k_color());
        assert(t_text@ =~= utf8_twin(crate::keys::k_text()));
        assert(crate::keys::k_owner_index() != crate::keys::k_owner_part_id()) by { assert(crate::keys::k_owner_index().len() != crate::keys::k_owner_part_id().len()); }
        assert(crate::keys::k_owner_index() != crate::keys::k_is_cross_sheet_connector()) by { assert(crate::keys::k_owner_index().len() != crate::keys::k_is_cross_sheet_connector().len()); }
        assert(crate::keys::k_owner_index() != crate::keys::k_index_in_sheet()) by { assert(crate::keys::k_owner_index().len() != crate::keys::k_index_in_sheet().len()); }
        assert(crate::keys::k_owner_index() != crate::keys::k_style()) by { assert(crate::keys::k_owner_index().len() != crate::keys::k_style().len()); }
        assert(crate::keys::k_owner_index() != crate::keys::k_show_net_name()) by { assert(crate::keys::k_owner_index().len() != crate::keys::k_show_net_name().len()); }
        assert(crate::keys::k_owner_index() != crate::keys::k_location_x()) by { assert(crate::keys::k_owner_index()[0] != crate::keys::k_location_x()[0]); }
        assert(crate::keys::k_owner_index() != crate::keys::k_location_y()) by { assert(crate::keys::k_owner_index()[0] != crate::keys::k_location_y()[0]); }
        assert(crate::keys::k_owner_index() != crate::keys::k_orientation()) by { assert(crate::keys::k_owner_index().len() != crate::keys::k_orientation().len()); }
        assert(crate::keys::k_owner_index() != crate::keys::k_font_id()) by { assert(crate::keys::k_owner_index().len() != crate::keys::k_font_id().len()); }
        assert(crate::keys::k_owner_index() != crate::keys::k_text()) by { assert(crate::keys::k_owner_index().len() != crate::keys::k_text().len()); }
        assert(crate::keys::k_owner_index() != crate::keys::k_unique_id()) by { assert(crate::keys::k_owner_index().len() != crate::keys::k_unique_id().len()); }
        assert(crate::keys::k_owner_index() != crate::keys::k_color()) by { assert(crate::keys::k_owner_index().len() != crate::keys::k_color().len()); }
        assert(crate::keys::k_owner_index() != utf8_twin(crate::keys::k_text())) by { assert(crate::keys::k_owner_index()[0] != utf8_twin(crate::keys::k_text())[0]); }
        assert(crate::keys::k_owner_part_id() != crate::keys::k_is_cross_sheet_connector()) by { assert(crate::keys::k_owner_part_id().len() != crate::keys::k_is_cross_sheet_connector().len()); }
        assert(crate::keys::k_owner_part_id() != crate::keys::k_index_in_sheet()) by { assert(crate::keys::k_owner_part_id().len() != crate::keys::k_index_in_sheet().len()); }
        assert(crate::keys::k_owner_part_id() != crate::keys::k_style()) by { assert(crate::keys::k_owner_part_id().len() != crate::keys::k_style().len()); }
        assert(crate::keys::k_owner_part_id() != crate::keys::k_show_net_name()) by { assert(crate::keys::k_owner_part_id()[0] != crate::keys::k_show_net_name()[0]); }
        assert(crate::keys::k_owner_part_id() != crate::keys::k_location_x()) by { assert(crate::keys::k_owner_part_id().len() != crate::keys::k_location_x().len()); }
        assert(crate::keys::k_owner_part_id() != crate::keys::k_location_y()) by { assert(crate::keys::k_owner_part_id().len() != crate::keys::k_location_y().len()); }
        assert(crate::keys::k_owner_part_id() != crate::keys::k_orientation()) by { assert(crate::keys::k_owner_part_id()[1] != crate::keys::k_orientation()[1]); }
        assert(crate::keys::k_owner_part_id() != crate::keys::k_font_id()) by { assert(crate::keys::k_owner_part_id().len() != crate::keys::k_font_id().len()); }
        assert(crate::keys::k_owner_part_id() != crate::keys::k_text()) by { assert(crate::keys::k_owner_part_id().len() != crate::keys::k_text().len()); }
        assert(crate::keys::k_owner_part_id() != crate::keys::k_unique_id()) by { assert(crate::keys::k_owner_part_id().len() != crate::keys::k_unique_id().len()); }
        assert(crate::keys::k_owner_part_id() != crate::keys::k_color()) by { assert(crate::keys::k_owner_part_id().len() != crate::keys::k_color().len()); }
        assert(crate::keys::k_owner_part_id() != utf8_twin(crate::keys::k_text())) by { assert(crate::keys::k_owner_part_id().len() != utf8_twin(crate::keys::k_text()).len()); }
        assert(crate::keys::k_is_cross_sheet_connector() != crate::keys::k_index_in_sheet()) by { assert(crate::keys::k_is_cross_sheet_connector().len() != crate::keys::k_index_in_sheet().len()); }
        assert(crate::keys::k_is_cross_sheet_connector() != crate::keys::k_style()) by { assert(crate::keys::k_is_cross_sheet_connector().len() != crate::keys::k_style().len()); }
        assert(crate::keys::k_is_cross_sheet_connector() != crate::keys::k_show_net_name()) by { assert(crate::keys::k_is_cross_sheet_connector().len() != crate::keys::k_show_net_name().len()); }
        assert(crate::keys::k_is_cross_sheet_connector() != crate::keys::k_location_x()) by { assert(crate::keys::k_is_cross_sheet_connector().len() != crate::keys::k_location_x().len()); }
        assert(crate::keys::k_is_cross_sheet_connector() != crate::keys::k_location_y()) by { assert(crate::keys::k_is_cross_sheet_connector().len() != crate::keys::k_location_y().len()); }
        assert(crate::keys::k_is_cross_sheet_connector() != crate::keys::k_orientation()) by { assert(crate::keys::k_is_cross_sheet_connector().len() != crate::keys::k_orientation().len()); }
        assert(crate::keys::k_is_cross_sheet_connector() != crate::keys::k_font_id()) by { assert(crate::keys::k_is_cross_sheet_connector().len() != crate::keys::k_font_id().len()); }
        assert(crate::keys::k_is_cross_sheet_connector() != crate::keys::k_text()) by { assert(crate::keys::k_is_cross_sheet_connector().len() != crate::keys::k_text().len()); }
        assert(crate::keys::k_is_cross_sheet_connector() != crate::keys::k_unique_id()) by { assert(crate::keys::k_is_cross_sheet_connector().len() != crate::keys::k_unique_id().len()); }
        assert(crate::keys::k_is_cross_sheet_connector() != crate::keys::k_color()) by { assert(crate::keys::k_is_cross_sheet_connector().len() != crate::keys::k_color().len()); }
        assert(crate::keys::k_is_cross_sheet_connector() != utf8_twin(crate::keys::k_text())) by { assert(crate::keys::k_is_cross_sheet_connector().len() != utf8_twin(crate::keys::k_text()).len()); }
        assert(crate::keys::k_index_in_sheet() != crate::keys::k_style()) by { assert(crate::keys::k_index_in_sheet().len() != crate::keys::k_style().len()); }
        assert(crate::keys::k_index_in_sheet() != crate::keys::k_show_net_name()) by { assert(crate::keys::k_index_in_sheet().len() != crate::keys::k_show_net_name().len()); }
        assert(crate::keys::k_index_in_sheet() != crate::keys::k_location_x()) by { assert(crate::keys::k_index_in_sheet().len() != crate::keys::k_location_x().len()); }
        assert(crate::keys::k_index_in_sheet() != crate::keys::k_location_y()) by { assert(crate::keys::k_index_in_sheet().len() != crate::keys::k_location_y().len()); }
        assert(crate::keys::k_index_in_sheet() != crate::keys::k_orientation()) by { assert(crate::keys::k_index_in_sheet().len() != crate::keys::k_orientation().len()); }
        assert(crate::keys::k_index_in_sheet() != crate::keys::k_font_id()) by { assert(crate::keys::k_index_in_sheet().len() != crate::keys::k_font_id().len()); }
        assert(crate::keys::k_index_in_sheet() != crate::keys::k_text()) by { assert(crate::keys::k_index_in_sheet().len() != crate::keys::k_text().len()); }
        assert(crate::keys::k_index_in_sheet() != crate::keys::k_unique_id()) by { assert(crate::keys::k_index_in_sheet().len() != crate::keys::k_unique_id().len()); }
        assert(crate::keys::k_index_in_sheet() != crate::keys::k_color()) by { assert(crate::keys::k_index_in_sheet().len() != crate::keys::k_color().len()); }
        assert(crate::keys::k_index_in_sheet() != utf8_twin(crate::keys::k_text())) by { assert(crate::keys::k_index_in_sheet().len() != utf8_twin(crate::keys::k_text()).len()); }
        assert(crate::keys::k_style() != crate::keys::k_show_net_name()) by { assert(crate::keys::k_style().len() != crate::keys::k_show_net_name().len()); }
        assert(crate::keys::k_style() != crate::keys::k_location_x()) by { assert(crate::keys::k_style().len() != crate::keys::k_location_x().len()); }
        assert(crate::keys::k_style() != crate::keys::k_location_y()) by { assert(crate::keys::k_style().len() != crate::keys::k_location_y().len()); }
        assert(crate::keys::k_style() != crate::keys::k_orientation()) by { assert(crate::keys::k_style().len() != crate::keys::k_orientation().len()); }
        assert(crate::keys::k_style() != crate::keys::k_font_id()) by { assert(crate::keys::k_style().len() != crate::keys::k_font_id().len()); }
        assert(crate::keys::k_style() != crate::keys::k_text()) by { assert(crate::keys::k_style().len() != crate::keys::k_text().len()); }
        assert(crate::keys::k_style() != crate::keys::k_unique_id()) by { assert(crate::keys::k_style().len() != crate::keys::k_unique_id().len()); }
        assert(crate::keys::k_style() != crate::keys::k_color()) by { assert(crate::keys::k_style()[0] != crate::keys::k_color()[0]); }
        assert(crate::keys::k_style() != utf8_twin(crate::keys::k_text())) by { assert(crate::keys::k_style().len() != utf8_twin(crate::keys::k_text()).len()); }
        assert(crate::keys::k_show_net_name() != crate::keys::k_location_x()) by { assert(crate::keys::k_show_net_name().len() != crate::keys::k_location_x().len()); }
        assert(crate::keys::k_show_net_name() != crate::keys::k_location_y()) by { assert(crate::keys::k_show_net_name().len() != crate::keys::k_location_y().len()); }
        assert(crate::keys::k_show_net_name() != crate::keys::k_orientation()) by { assert(crate::keys::k_show_net_name()[0] != crate::keys::k_orientation()[0]); }
        assert(crate::keys::k_show_net_name() != crate::keys::k_font_id()) by { assert(crate::keys::k_show_net_name().len() != crate::keys::k_font_id().len()); }
        assert(crate::keys::k_show_net_name() != crate::keys::k_text()) by { assert(crate::keys::k_show_net_name().len() != crate::keys::k_text().len()); }
        assert(crate::keys::k_show_net_name() != crate::keys::k_unique_id()) by { assert(crate::keys::k_show_net_name().len() != crate::keys::k_unique_id().len()); }
        assert(crate::keys::k_show_net_name() != crate::keys::k_color()) by { assert(crate::keys::k_show_net_name().len() != crate::keys::k_color().len()); }
        assert(crate::keys::k_show_net_name() != utf8_twin(crate::keys::k_text())) by { assert(crate::keys::k_show_net_name().len() != utf8_twin(crate::keys::k_text()).len()); }
        assert(crate::keys::k_location_x() != crate::keys::k_location_y()) by { assert(crate::keys::k_location_x()[9] != crate::keys::k_location_y()[9]); }
        assert(crate::keys::k_location_x() != crate::keys::k_orientation()) by { assert(crate::keys::k_location_x().len() != crate::keys::k_orientation().len()); }
        assert(crate::keys::k_location_x() != crate::keys::k_font_id()) by { assert(crate::keys::k_location_x().len() != crate::keys::k_font_id().len()); }
        assert(crate::keys::k_location_x() != crate::keys::k_text()) by { assert(crate::keys::k_location_x().len() != crate::keys::k_text().len()); }
        assert(crate::keys::k_location_x() != crate::keys::k_unique_id()) by { assert(crate::keys::k_location_x().len() != crate::keys::k_unique_id().len()); }
        assert(crate::keys::k_location_x() != crate::keys::k_color()) by { assert(crate::keys::k_location_x().len() != crate::keys::k_color().len()); }
        assert(crate::keys::k_location_x() != utf8_twin(crate::keys::k_text())) by { assert(crate::keys::k_location_x()[0] != utf8_twin(crate::keys::k_text())[0]); }
        assert(crate::keys::k_location_y() != crate::keys::k_orientation()) by { assert(crate::keys::k_location_y().len() != crate::keys::k_orientation().len()); }
        assert(crate::keys::k_location_y() != crate::keys::k_font_id()) by { assert(crate::keys::k_location_y().len() != crate::keys::k_font_id().len()); }
        assert(crate::keys::k_location_y() != crate::keys::k_text()) by { assert(crate::keys::k_location_y().len() != crate::keys::k_text().len()); }
        assert(crate::keys::k_location_y() != crate::keys::k_unique_id()) by { assert(crate::keys::k_location_y().len() != crate::keys::k_unique_id().len()); }
        assert(crate::keys::k_location_y() != crate::keys::k_color()) by { assert(crate::keys::k_location_y().len() != crate::keys::k_color().len()); }
        assert(crate::keys::k_location_y() != utf8_twin(crate::keys::k_text())) by { assert(crate::keys::k_location_y()[0] != utf8_twin(crate::keys::k_text())[0]); }
        assert(crate::keys::k_orientation() != crate::keys::k_font_id()) by { assert(crate::keys::k_orientation().len() != crate::keys::k_font_id().len()); }
        assert(crate::keys::k_orientation() != crate::keys::k_text()) by { assert(crate::keys::k_orientation().len() != crate::keys::k_text().len()); }
        assert(crate::keys::k_orientation() != crate::keys::k_unique_id()) by { assert(crate::keys::k_orientation().len() != crate::keys::k_unique_id().len()); }
        assert(crate::keys::k_orientation() != crate::keys::k_color()) by { assert(crate::keys::k_orientation().len() != crate::keys::k_color().len()); }
        assert(crate::keys::k_orientation() != utf8_twin(crate::keys::k_text())) by { assert(crate::keys::k_orientation().len() != utf8_twin(crate::keys::k_text()).len()); }
        assert(crate::keys::k_font_id() != crate::keys::k_text()) by { assert(crate::keys::k_font_id().len() != crate::keys::k_text().len()); }
        assert(crate::keys::k_font_id() != crate::keys::k_unique_id()) by { assert(crate::keys::k_font_id().len() != crate::keys::k_unique_id().len()); }
        assert(crate::keys::k_font_id() != crate::keys::k_color()) by { assert(crate::keys::k_font_id().len() != crate::keys::k_color().len()); }
        assert(crate::keys::k_font_id() != utf8_twin(crate::keys::k_text())) by { assert(crate::keys::k_font_id().len() != utf8_twin(crate::keys::k_text()).len()); }
        assert(crate::keys::k_text() != crate::keys::k_unique_id()) by { assert(crate::keys::k_text().len() != crate::keys::k_unique_id().len()); }
        assert(crate::keys::k_text() != crate::keys::k_color()) by { assert(crate::keys::k_text().len() != crate::keys::k_color().len()); }
        assert(crate::keys::k_text() != utf8_twin(crate::keys::k_text())) by { assert(crate::keys::k_text().len() != utf8_twin(crate::keys::k_text()).len()); }
        assert(crate::keys::k_unique_id() != crate::keys::k_color()) by { assert(crate::keys::k_unique_id().len() != crate::keys::k_color().len()); }
        assert(crate::keys::k_unique_id() != utf8_twin(crate::keys::k_text())) by { assert(crate::keys::k_unique_id().len() != utf8_twin(crate::keys::k_text()).len()); }
        assert(crate::keys::k_color() != utf8_twin(crate::keys::k_text())) by { assert(crate::keys::k_color().len() != utf8_twin(crate::keys::k_text()).len()); }
    }
        let mut x = PowerPort {
        owner_index: 0,
        owner_part_id: 0,
        is_cross_sheet_connector: false,
        index_in_sheet: 0,
        style: 0,
        show_net_name: false,
        location: Location { x: 0, y: 0 },
        orientation: 0,
        font_id: 0,
        text: String::new(),
        unique_id: UniqueId::Simple([0x30u8, 0x30u8, 0x30u8, 0x30u8, 0x30u8, 0x30u8, 0x30u8, 0x30u8]),
        color: Rgb { r: 0, g: 0, b: 0 },
        };
    let mut seen_text: bool = false;
        let n = pairs.len();
        let mut i: usize = 0;
        while i < n
            invariant
                0 <= i <= n,
                n == pairs@.len(),
                !PowerPort::spec_fails(p.take(i as int)),
                PowerPort::spec_matches(x, p.take(i as int)),
            seen_text == has_key(p.take(i as int), utf8_twin(crate::keys::k_text())),
                counter.count == sat_add(old(counter).count, PowerPort::spec_unknown(p.take(i as int))),
                0 <= PowerPort::spec_unknown(p.take(i as int)) <= i,
            decreases n - i,
        {
            let key: &[u8] = pairs[i].0.as_slice();
            let val: &[u8] = pairs[i].1.as_slice();
            proof {
                assert(p[i as int] == (pairs@[i as int].0@, pairs@[i as int].1@));
                assert(p.take(i as int + 1).drop_last() =~= p.take(i as int));
                assert(p.take(i as int + 1).last() == p[i as int]);
                assert forall|j: int| 0 <= j <= i implies #[trigger] p.take(i as int + 1).take(j)
                    == p.take(j) by {
                    assert(p.take(i as int + 1).take(j) =~= p.take(j));
                }
                assert forall|j: int| 0 <= j <= i implies #[trigger] p.take(i as int).take(j)
                    == p.take(j) by {
                    assert(p.take(i as int).take(j) =~= p.take(j));
                }
            }
        if crate::common::bytes_eq(key, a_owner_index.as_slice()) {
                    match crate::parse::parse_u8(val) {
                        Ok(v) => { x.owner_index = v; },
                        Err(e) => {
                            proof {
                                assert(p[i as int].0 == crate::keys::k_owner_index());
                                assert(kind_field_fails(p, FieldKind::U8, crate::keys::k_owner_index()));
                            }
                            return Err(e);
                        },
                    }
                }
        else if crate::common::bytes_eq(key, a_owner_part_id.as_slice()) {
                    match crate::parse::parse_i8(val) {
                        Ok(v) => { x.owner_part_id = v; },
                        Err(e) => {
                            proof {
                                assert(p[i as int].0 == crate::keys::k_owner_part_id());
                                assert(kind_field_fails(p, FieldKind::I8, crate::keys::k_owner_part_id()));
                            }
                            return Err(e);
                        },
                    }
                }
        else if crate::common::bytes_eq(key, a_is_cross_sheet_connector.as_slice()) {
                    match crate::parse::parse_bool(val) {
                        Ok(v) => { x.is_cross_sheet_connector = v; },
                        Err(e) => {
                            proof {
                                assert(p[i as int].0 == crate::keys::k_is_cross_sheet_connector());
                                assert(kind_field_fails(p, FieldKind::Bool, crate::keys::k_is_cross_sheet_connector()));
                            }
                            return Err(e);
                        },
                    }
                }
        else if crate::common::bytes_eq(key, a_index_in_sheet.as_slice()) {
                    match crate::parse::parse_i16(val) {
                        Ok(v) => { x.index_in_sheet = v; },
                        Err(e) => {
                            proof {
                                assert(p[i as int].0 == crate::keys::k_index_in_sheet());
                                assert(kind_field_fails(p, FieldKind::I16, crate::keys::k_index_in_sheet()));
                            }
                            return Err(e);
                        },
                    }
                }
        else if crate::common::bytes_eq(key, a_style.as_slice()) {
                    match crate::parse::parse_i16(val) {
                        Ok(v) => { x.style = v; },
                        Err(e) => {
                            proof {
                                assert(p[i as int].0 == crate::keys::k_style());
                                assert(kind_field_fails(p, FieldKind::I16, crate::keys::k_style()));
                            }
                            return Err(e);
                        },
                    }
                }
        else if crate::common::bytes_eq(key, a_show_net_name.as_slice()) {
                    match crate::parse::parse_bool(val) {
                        Ok(v) => { x.show_net_name = v; },
                        Err(e) => {
                            proof {
                                assert(p[i as int].0 == crate::keys::k_show_net_name());
                                assert(kind_field_fails(p, FieldKind::Bool, crate::keys::k_show_net_name()));
                            }
                            return Err(e);
                        },
                    }
                }
        else if crate::common::bytes_eq(key, a_location_x.as_slice()) {
                    match crate::parse::parse_i32(val) {
                        Ok(v) => { x.location.x = v; },
                        Err(e) => {
                            proof {
                                assert(p[i as int].0 == crate::keys::k_location_x());
                                assert(kind_field_fails(p, FieldKind::I32, crate::keys::k_location_x()));
                            }
                            return Err(e);
                        },
                    }
                }
        else if crate::common::bytes_eq(key, a_location_y.as_slice()) {
                    match crate::parse::parse_i32(val) {
                        Ok(v) => { x.location.y = v; },
                        Err(e) => {
                            proof {
                                assert(p[i as int].0 == crate::keys::k_location_y());
                                assert(kind_field_fails(p, FieldKind::I32, crate::keys::k_location_y()));
                            }
                            return Err(e);
                        },
                    }
                }
        else if crate::common::bytes_eq(key, a_orientation.as_slice()) {
                    match crate::parse::parse_i32(val) {
                        Ok(v) => { x.orientation = v; },
                        Err(e) => {
                            proof {
                                assert(p[i as int].0 == crate::keys::k_orientation());
                                assert(kind_field_fails(p, FieldKind::I32, crate::keys::k_orientation()));
                            }
                            return Err(e);
                        },
                    }
                }
        else if crate::common::bytes_eq(key, a_font_id.as_slice()) {
                    match crate::parse::parse_u16(val) {
                        Ok(v) => { x.font_id = v; },
                        Err(e) => {
                            proof {
                                assert(p[i as int].0 == crate::keys::k_font_id());
                                assert(kind_field_fails(p, FieldKind::U16, crate::keys::k_font_id()));
                            }
                            return Err(e);
                        },
                    }
                }
        else if crate::common::bytes_eq(key, t_text.as_slice()) {
                    match crate::common::str_from_utf8(val) {
                        Ok(s) => { x.text = s; seen_text = true; },
                        Err(e) => {
                            proof {
                                assert(p[i as int].0 == utf8_twin(crate::keys::k_text()));
                                assert(str_field_fails(p, crate::keys::k_text()));
                            }
                            return Err(e);
                        },
                    }
                } else if crate::common::bytes_eq(key, a_text.as_slice()) {
                    if !seen_text {
                        match crate::common::str_from_utf8(val) {
                            Ok(s) => { x.text = s; },
                            Err(e) => {
                                proof {
                                    assert(p[i as int].0 == crate::keys::k_text());
                                    assert(!has_key(p.take(i as int), utf8_twin(crate::keys::k_text())));
                                    assert(str_field_fails(p, crate::keys::k_text()));
                                }
                                return Err(e);
                            },
                        }
                    }
                }
        else if crate::common::bytes_eq(key, a_unique_id.as_slice()) {
                    match UniqueId::from_utf8(val) {
                        Ok(v) => { x.unique_id = v; },
                        Err(e) => {
                            proof {
                                assert(p[i as int].0 == crate::keys::k_unique_id());
                                assert(kind_field_fails(p, FieldKind::Uid, crate::keys::k_unique_id()));
                            }
                            return Err(e);
                        },
                    }
                }
        else if crate::common::bytes_eq(key, a_color.as_slice()) {
                    match Rgb::from_utf8(val) {
                        Ok(v) => { x.color = v; },
                        Err(e) => {
                            proof {
                                assert(p[i as int].0 == crate::keys::k_color());
                                assert(kind_field_fails(p, FieldKind::Color, crate::keys::k_color()));
                            }
                            return Err(e);
                        },
                    }
                }
        else {
            crate::logging::macro_unsupported_key(counter, "PowerPort", key, val);
        }
            i += 1;
        }
        proof {
            assert(p.take(n as int) =~= p);
        }
        Ok(x)
    }
}

} // verus!
