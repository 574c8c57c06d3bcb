//! Field binders for the ASCII record kinds.

use vstd::prelude::*;

use crate::binder::{
    bool_field, color_field, has_key, i16_field, i32_field, i8_field, just_field,
    kind_field_fails, last_val, loc_field, locf_field, mils_i32_field, mils_u32_field,
    etype_field, opt_str_field, raw_field, ros_field, sat_add, str_field, str_field_fails,
    u16_field,
    u32_field, u8_field, uid_field, utf8_twin, FieldKind, SpecPairs,
};
use crate::common::{pairs_view, Location, LocationFract, ReadOnlyState, Rgb, UniqueId};
use crate::error::ErrorKind;
use crate::params::Justification;
use crate::logging::UnsupportedCounter;
use crate::records::{Ellipse, IeeeSymbol, Label, MetaData, Piechart, RectangleRounded};

verus! {

impl MetaData {
    /// The wire record ID of this kind.
    pub open spec fn spec_record_id() -> u32 {
        1
    }

    /// Whether the binder recognizes this wire key.
    pub open spec fn spec_known_key(k: Seq<u8>) -> bool {
        ||| k == crate::keys::k_all_pin_count()
        ||| k == crate::keys::k_area_color()
        ||| k == crate::keys::k_color()
        ||| k == crate::keys::k_current_part_id()
        ||| k == crate::keys::k_database_table_name()
        ||| k == utf8_twin(crate::keys::k_database_table_name())
        ||| k == crate::keys::k_component_description()
        ||| k == utf8_twin(crate::keys::k_component_description())
        ||| k == crate::keys::k_display_mode_count()
        ||| k == crate::keys::k_index_in_sheet()
        ||| k == crate::keys::k_library_path()
        ||| k == utf8_twin(crate::keys::k_library_path())
        ||| k == crate::keys::k_lib_reference()
        ||| k == utf8_twin(crate::keys::k_lib_reference())
        ||| k == crate::keys::k_owner_part_id()
        ||| k == crate::keys::k_part_count()
        ||| k == crate::keys::k_part_id_locked()
        ||| k == crate::keys::k_not_use_db_table_name()
        ||| k == crate::keys::k_orientation()
        ||| k == crate::keys::k_sheet_part_file_name()
        ||| k == utf8_twin(crate::keys::k_sheet_part_file_name())
        ||| k == crate::keys::k_design_item_id()
        ||| k == utf8_twin(crate::keys::k_design_item_id())
        ||| k == crate::keys::k_source_library_name()
        ||| k == utf8_twin(crate::keys::k_source_library_name())
        ||| k == crate::keys::k_target_file_name()
        ||| k == utf8_twin(crate::keys::k_target_file_name())
        ||| k == crate::keys::k_location_x()
        ||| k == crate::keys::k_location_y()
        ||| k == crate::keys::k_unique_id()
    }

    /// How many pairs hold keys the binder does not recognize.
    pub open spec fn spec_unknown(p: SpecPairs) -> int
        decreases p.len(),
    {
        if p.len() == 0 {
            0
        } else {
            Self::spec_unknown(p.drop_last()) + if Self::spec_known_key(p.last().0) {
                0int
            } else {
                1int
            }
        }
    }

    /// Whether some pair's value is one its field's parser rejects.
    pub open spec fn spec_fails(p: SpecPairs) -> bool {
        ||| kind_field_fails(p, FieldKind::U32, crate::keys::k_all_pin_count())
        ||| kind_field_fails(p, FieldKind::Color, crate::keys::k_area_color())
        ||| kind_field_fails(p, FieldKind::Color, crate::keys::k_color())
        ||| kind_field_fails(p, FieldKind::U8, crate::keys::k_current_part_id())
        ||| str_field_fails(p, crate::keys::k_database_table_name())
        ||| str_field_fails(p, crate::keys::k_component_description())
        ||| kind_field_fails(p, FieldKind::U8, crate::keys::k_display_mode_count())
        ||| kind_field_fails(p, FieldKind::I16, crate::keys::k_index_in_sheet())
        ||| str_field_fails(p, crate::keys::k_library_path())
        ||| str_field_fails(p, crate::keys::k_lib_reference())
        ||| kind_field_fails(p, FieldKind::I8, crate::keys::k_owner_part_id())
        ||| kind_field_fails(p, FieldKind::U8, crate::keys::k_part_count())
        ||| kind_field_fails(p, FieldKind::Bool, crate::keys::k_part_id_locked())
        ||| kind_field_fails(p, FieldKind::Bool, crate::keys::k_not_use_db_table_name())
        ||| kind_field_fails(p, FieldKind::I32, crate::keys::k_orientation())
        ||| str_field_fails(p, crate::keys::k_sheet_part_file_name())
        ||| str_field_fails(p, crate::keys::k_design_item_id())
        ||| str_field_fails(p, crate::keys::k_source_library_name())
        ||| str_field_fails(p, crate::keys::k_target_file_name())
        ||| kind_field_fails(p, FieldKind::I32, crate::keys::k_location_x())
        ||| kind_field_fails(p, FieldKind::I32, crate::keys::k_location_y())
        ||| kind_field_fails(p, FieldKind::Uid, crate::keys::k_unique_id())
    }

    /// Each field as the walk of the pairs leaves it.
    pub open spec fn spec_matches(x: MetaData, p: SpecPairs) -> bool {
        &&& x.all_pin_count == u32_field(p, crate::keys::k_all_pin_count())
        &&& x.area_color == color_field(p, crate::keys::k_area_color())
        &&& x.color == color_field(p, crate::keys::k_color())
        &&& x.current_part_id == u8_field(p, crate::keys::k_current_part_id())
        &&& x.database_table_name@ == str_field(p, crate::keys::k_database_table_name())
        &&& (x.description is Some <==> opt_str_field(p, crate::keys::k_component_description()) is Some)
        &&& (x.description is Some ==> x.description->0@ == opt_str_field(p, crate::keys::k_component_description())->0)
        &&& x.display_mode_count == u8_field(p, crate::keys::k_display_mode_count())
        &&& x.index_in_sheet == i16_field(p, crate::keys::k_index_in_sheet())
        &&& x.library_path@ == str_field(p, crate::keys::k_library_path())
        &&& x.libref@ == str_field(p, crate::keys::k_lib_reference())
        &&& x.owner_part_id == i8_field(p, crate::keys::k_owner_part_id())
        &&& x.part_count == u8_field(p, crate::keys::k_part_count())
        &&& x.part_id_locked == bool_field(p, crate::keys::k_part_id_locked())
        &&& x.not_use_db_table_name == bool_field(p, crate::keys::k_not_use_db_table_name())
        &&& x.orientation == i32_field(p, crate::keys::k_orientation())
        &&& x.sheet_part_file_name@ == str_field(p, crate::keys::k_sheet_part_file_name())
        &&& x.design_item_id@ == str_field(p, crate::keys::k_design_item_id())
        &&& x.source_library_name@ == str_field(p, crate::keys::k_source_library_name())
        &&& x.target_file_name@ == str_field(p, crate::keys::k_target_file_name())
        &&& x.location == loc_field(p, crate::keys::k_location_x(), crate::keys::k_location_y())
        &&& x.unique_id == uid_field(p, crate::keys::k_unique_id())
    }

    /// Bind one pair into the record under construction.
    #[verifier::rlimit(100)]
    fn bind_pair(
        x: &mut MetaData,
        seen_database_table_name: &mut bool,
        seen_description: &mut bool,
        seen_library_path: &mut bool,
        seen_libref: &mut bool,
        seen_sheet_part_file_name: &mut bool,
        seen_design_item_id: &mut bool,
        seen_source_library_name: &mut bool,
        seen_target_file_name: &mut bool,
        key: &[u8],
        val: &[u8],
        counter: &mut UnsupportedCounter,
        Ghost(p): Ghost<SpecPairs>,
        Ghost(i): Ghost<int>,
    ) -> (r: Result<(), ErrorKind>)
        requires
            0 <= i < p.len(),
            p[i] == (key@, val@),
            !MetaData::spec_fails(p.take(i)),
            MetaData::spec_matches(*old(x), p.take(i)),
            *old(seen_database_table_name) == has_key(p.take(i), utf8_twin(crate::keys::k_database_table_name())),
            *old(seen_description) == has_key(p.take(i), utf8_twin(crate::keys::k_component_description())),
            *old(seen_library_path) == has_key(p.take(i), utf8_twin(crate::keys::k_library_path())),
            *old(seen_libref) == has_key(p.take(i), utf8_twin(crate::keys::k_lib_reference())),
            *old(seen_sheet_part_file_name) == has_key(p.take(i), utf8_twin(crate::keys::k_sheet_part_file_name())),
            *old(seen_design_item_id) == has_key(p.take(i), utf8_twin(crate::keys::k_design_item_id())),
            *old(seen_source_library_name) == has_key(p.take(i), utf8_twin(crate::keys::k_source_library_name())),
            *old(seen_target_file_name) == has_key(p.take(i), utf8_twin(crate::keys::k_target_file_name())),
        ensures
            r is Ok <==> !MetaData::spec_fails(p.take(i + 1)),
            r is Err ==> MetaData::spec_fails(p),
            r is Ok ==> MetaData::spec_matches(*final(x), p.take(i + 1)),
            r is Ok ==> *final(seen_database_table_name) == has_key(p.take(i + 1), utf8_twin(crate::keys::k_database_table_name())),
            r is Ok ==> *final(seen_description) == has_key(p.take(i + 1), utf8_twin(crate::keys::k_component_description())),
            r is Ok ==> *final(seen_library_path) == has_key(p.take(i + 1), utf8_twin(crate::keys::k_library_path())),
            r is Ok ==> *final(seen_libref) == has_key(p.take(i + 1), utf8_twin(crate::keys::k_lib_reference())),
            r is Ok ==> *final(seen_sheet_part_file_name) == has_key(p.take(i + 1), utf8_twin(crate::keys::k_sheet_part_file_name())),
            r is Ok ==> *final(seen_design_item_id) == has_key(p.take(i + 1), utf8_twin(crate::keys::k_design_item_id())),
            r is Ok ==> *final(seen_source_library_name) == has_key(p.take(i + 1), utf8_twin(crate::keys::k_source_library_name())),
            r is Ok ==> *final(seen_target_file_name) == has_key(p.take(i + 1), utf8_twin(crate::keys::k_target_file_name())),
            MetaData::spec_known_key(p[i].0) ==> final(counter).count == old(counter).count,
            !MetaData::spec_known_key(p[i].0) ==> final(counter).count == sat_add(
                old(counter).count,
                1,
            ),
            final(counter).count >= old(counter).count,
    {
        proof {
            assert(p.take(i + 1).drop_last() =~= p.take(i));
            assert(p.take(i + 1).last() == p[i]);
            assert forall|j: int| 0 <= j <= i implies #[trigger] p.take(i + 1).take(j)
                == p.take(j) by {
                assert(p.take(i + 1).take(j) =~= p.take(j));
            }
            assert forall|j: int| 0 <= j <= i implies #[trigger] p.take(i).take(j)
                == p.take(j) by {
                assert(p.take(i).take(j) =~= p.take(j));
            }
        }
    let a_all_pin_count: [u8; 11] = [0x41u8, 0x6cu8, 0x6cu8, 0x50u8, 0x69u8, 0x6eu8, 0x43u8, 0x6fu8, 0x75u8, 0x6eu8, 0x74u8];
        let a_area_color: [u8; 9] = [0x41u8, 0x72u8, 0x65u8, 0x61u8, 0x43u8, 0x6fu8, 0x6cu8, 0x6fu8, 0x72u8];
        let a_color: [u8; 5] = [0x43u8, 0x6fu8, 0x6cu8, 0x6fu8, 0x72u8];
        let a_current_part_id: [u8; 13] = [0x43u8, 0x75u8, 0x72u8, 0x72u8, 0x65u8, 0x6eu8, 0x74u8, 0x50u8, 0x61u8, 0x72u8, 0x74u8, 0x49u8, 0x64u8];
        let a_database_table_name: [u8; 17] = [0x44u8, 0x61u8, 0x74u8, 0x61u8, 0x62u8, 0x61u8, 0x73u8, 0x65u8, 0x54u8, 0x61u8, 0x62u8, 0x6cu8, 0x65u8, 0x4eu8, 0x61u8, 0x6du8, 0x65u8];
        let a_component_description: [u8; 20] = [0x43u8, 0x6fu8, 0x6du8, 0x70u8, 0x6fu8, 0x6eu8, 0x65u8, 0x6eu8, 0x74u8, 0x44u8, 0x65u8, 0x73u8, 0x63u8, 0x72u8, 0x69u8, 0x70u8, 0x74u8, 0x69u8, 0x6fu8, 0x6eu8];
        let a_display_mode_count: [u8; 16] = [0x44u8, 0x69u8, 0x73u8, 0x70u8, 0x6cu8, 0x61u8, 0x79u8, 0x4du8, 0x6fu8, 0x64u8, 0x65u8, 0x43u8, 0x6fu8, 0x75u8, 0x6eu8, 0x74u8];
        let a_index_in_sheet: [u8; 12] = [0x49u8, 0x6eu8, 0x64u8, 0x65u8, 0x78u8, 0x49u8, 0x6eu8, 0x53u8, 0x68u8, 0x65u8, 0x65u8, 0x74u8];
        let a_library_path: [u8; 11] = [0x4cu8, 0x69u8, 0x62u8, 0x72u8, 0x61u8, 0x72u8, 0x79u8, 0x50u8, 0x61u8, 0x74u8, 0x68u8];
        let a_lib_reference: [u8; 12] = [0x4cu8, 0x69u8, 0x62u8, 0x52u8, 0x65u8, 0x66u8, 0x65u8, 0x72u8, 0x65u8, 0x6eu8, 0x63u8, 0x65u8];
        let a_owner_part_id: [u8; 11] = [0x4fu8, 0x77u8, 0x6eu8, 0x65u8, 0x72u8, 0x50u8, 0x61u8, 0x72u8, 0x74u8, 0x49u8, 0x64u8];
        let a_part_count: [u8; 9] = [0x50u8, 0x61u8, 0x72u8, 0x74u8, 0x43u8, 0x6fu8, 0x75u8, 0x6eu8, 0x74u8];
        let a_part_id_locked: [u8; 12] = [0x50u8, 0x61u8, 0x72u8, 0x74u8, 0x49u8, 0x44u8, 0x4cu8, 0x6fu8, 0x63u8, 0x6bu8, 0x65u8, 0x64u8];
        let a_not_use_db_table_name: [u8; 17] = [0x4eu8, 0x6fu8, 0x74u8, 0x55u8, 0x73u8, 0x65u8, 0x44u8, 0x62u8, 0x54u8, 0x61u8, 0x62u8, 0x6cu8, 0x65u8, 0x4eu8, 0x61u8, 0x6du8, 0x65u8];
        let a_orientation: [u8; 11] = [0x4fu8, 0x72u8, 0x69u8, 0x65u8, 0x6eu8, 0x74u8, 0x61u8, 0x74u8, 0x69u8, 0x6fu8, 0x6eu8];
        let a_sheet_part_file_name: [u8; 17] = [0x53u8, 0x68u8, 0x65u8, 0x65u8, 0x74u8, 0x50u8, 0x61u8, 0x72u8, 0x74u8, 0x46u8, 0x69u8, 0x6cu8, 0x65u8, 0x4eu8, 0x61u8, 0x6du8, 0x65u8];
        let a_design_item_id: [u8; 12] = [0x44u8, 0x65u8, 0x73u8, 0x69u8, 0x67u8, 0x6eu8, 0x49u8, 0x74u8, 0x65u8, 0x6du8, 0x49u8, 0x64u8];
        let a_source_library_name: [u8; 17] = [0x53u8, 0x6fu8, 0x75u8, 0x72u8, 0x63u8, 0x65u8, 0x4cu8, 0x69u8, 0x62u8, 0x72u8, 0x61u8, 0x72u8, 0x79u8, 0x4eu8, 0x61u8, 0x6du8, 0x65u8];
        let a_target_file_name: [u8; 14] = [0x54u8, 0x61u8, 0x72u8, 0x67u8, 0x65u8, 0x74u8, 0x46u8, 0x69u8, 0x6cu8, 0x65u8, 0x4eu8, 0x61u8, 0x6du8, 0x65u8];
        let a_location_x: [u8; 10] = [0x4cu8, 0x6fu8, 0x63u8, 0x61u8, 0x74u8, 0x69u8, 0x6fu8, 0x6eu8, 0x2eu8, 0x58u8];
        let a_location_y: [u8; 10] = [0x4cu8, 0x6fu8, 0x63u8, 0x61u8, 0x74u8, 0x69u8, 0x6fu8, 0x6eu8, 0x2eu8, 0x59u8];
        let a_unique_id: [u8; 8] = [0x55u8, 0x6eu8, 0x69u8, 0x71u8, 0x75u8, 0x65u8, 0x49u8, 0x44u8];
        let t_database_table_name: [u8; 23] = [0x25u8, 0x55u8, 0x54u8, 0x46u8, 0x38u8, 0x25u8, 0x44u8, 0x61u8, 0x74u8, 0x61u8, 0x62u8, 0x61u8, 0x73u8, 0x65u8, 0x54u8, 0x61u8, 0x62u8, 0x6cu8, 0x65u8, 0x4eu8, 0x61u8, 0x6du8, 0x65u8];
        let t_component_description: [u8; 26] = [0x25u8, 0x55u8, 0x54u8, 0x46u8, 0x38u8, 0x25u8, 0x43u8, 0x6fu8, 0x6du8, 0x70u8, 0x6fu8, 0x6eu8, 0x65u8, 0x6eu8, 0x74u8, 0x44u8, 0x65u8, 0x73u8, 0x63u8, 0x72u8, 0x69u8, 0x70u8, 0x74u8, 0x69u8, 0x6fu8, 0x6eu8];
        let t_library_path: [u8; 17] = [0x25u8, 0x55u8, 0x54u8, 0x46u8, 0x38u8, 0x25u8, 0x4cu8, 0x69u8, 0x62u8, 0x72u8, 0x61u8, 0x72u8, 0x79u8, 0x50u8, 0x61u8, 0x74u8, 0x68u8];
        let t_lib_reference: [u8; 18] = [0x25u8, 0x55u8, 0x54u8, 0x46u8, 0x38u8, 0x25u8, 0x4cu8, 0x69u8, 0x62u8, 0x52u8, 0x65u8, 0x66u8, 0x65u8, 0x72u8, 0x65u8, 0x6eu8, 0x63u8, 0x65u8];
        let t_sheet_part_file_name: [u8; 23] = [0x25u8, 0x55u8, 0x54u8, 0x46u8, 0x38u8, 0x25u8, 0x53u8, 0x68u8, 0x65u8, 0x65u8, 0x74u8, 0x50u8, 0x61u8, 0x72u8, 0x74u8, 0x46u8, 0x69u8, 0x6cu8, 0x65u8, 0x4eu8, 0x61u8, 0x6du8, 0x65u8];
        let t_design_item_id: [u8; 18] = [0x25u8, 0x55u8, 0x54u8, 0x46u8, 0x38u8, 0x25u8, 0x44u8, 0x65u8, 0x73u8, 0x69u8, 0x67u8, 0x6eu8, 0x49u8, 0x74u8, 0x65u8, 0x6du8, 0x49u8, 0x64u8];
        let t_source_library_name: [u8; 23] = [0x25u8, 0x55u8, 0x54u8, 0x46u8, 0x38u8, 0x25u8, 0x53u8, 0x6fu8, 0x75u8, 0x72u8, 0x63u8, 0x65u8, 0x4cu8, 0x69u8, 0x62u8, 0x72u8, 0x61u8, 0x72u8, 0x79u8, 0x4eu8, 0x61u8, 0x6du8, 0x65u8];
        let t_target_file_name: [u8; 20] = [0x25u8, 0x55u8, 0x54u8, 0x46u8, 0x38u8, 0x25u8, 0x54u8, 0x61u8, 0x72u8, 0x67u8, 0x65u8, 0x74u8, 0x46u8, 0x69u8, 0x6cu8, 0x65u8, 0x4eu8, 0x61u8, 0x6du8, 0x65u8];
        proof {
            assert(a_all_pin_count@ =~= crate::keys::k_all_pin_count());
            assert(a_area_color@ =~= crate::keys::k_area_color());
            assert(a_color@ =~= crate::keys::k_color());
            assert(a_current_part_id@ =~= crate::keys::k_current_part_id());
            assert(a_database_table_name@ =~= crate::keys::k_database_table_name());
            assert(a_component_description@ =~= crate::keys::k_component_description());
            assert(a_display_mode_count@ =~= crate::keys::k_display_mode_count());
            assert(a_index_in_sheet@ =~= crate::keys::k_index_in_sheet());
            assert(a_library_path@ =~= crate::keys::k_library_path());
            assert(a_lib_reference@ =~= crate::keys::k_lib_reference());
            assert(a_owner_part_id@ =~= crate::keys::k_owner_part_id());
            assert(a_part_count@ =~= crate::keys::k_part_count());
            assert(a_part_id_locked@ =~= crate::keys::k_part_id_locked());
            assert(a_not_use_db_table_name@ =~= crate::keys::k_not_use_db_table_name());
            assert(a_orientation@ =~= crate::keys::k_orientation());
            assert(a_sheet_part_file_name@ =~= crate::keys::k_sheet_part_file_name());
            assert(a_design_item_id@ =~= crate::keys::k_design_item_id());
            assert(a_source_library_name@ =~= crate::keys::k_source_library_name());
            assert(a_target_file_name@ =~= crate::keys::k_target_file_name());
            assert(a_location_x@ =~= crate::keys::k_location_x());
            assert(a_location_y@ =~= crate::keys::k_location_y());
            assert(a_unique_id@ =~= crate::keys::k_unique_id());
            assert(t_database_table_name@ =~= utf8_twin(crate::keys::k_database_table_name()));
            assert(t_component_description@ =~= utf8_twin(crate::keys::k_component_description()));
            assert(t_library_path@ =~= utf8_twin(crate::keys::k_library_path()));
            assert(t_lib_reference@ =~= utf8_twin(crate::keys::k_lib_reference()));
            assert(t_sheet_part_file_name@ =~= utf8_twin(crate::keys::k_sheet_part_file_name()));
            assert(t_design_item_id@ =~= utf8_twin(crate::keys::k_design_item_id()));
            assert(t_source_library_name@ =~= utf8_twin(crate::keys::k_source_library_name()));
            assert(t_target_file_name@ =~= utf8_twin(crate::keys::k_target_file_name()));
            assert(crate::keys::k_all_pin_count() != crate::keys::k_area_color()) by { assert(crate::keys::k_all_pin_count().len() != crate::keys::k_area_color().len()); }
            assert(crate::keys::k_all_pin_count() != crate::keys::k_color()) by { assert(crate::keys::k_all_pin_count().len() != crate::keys::k_color().len()); }
            assert(crate::keys::k_all_pin_count() != crate::keys::k_current_part_id()) by { assert(crate::keys::k_all_pin_count().len() != crate::keys::k_current_part_id().len()); }
            assert(crate::keys::k_all_pin_count() != crate::keys::k_database_table_name()) by { assert(crate::keys::k_all_pin_count().len() != crate::keys::k_database_table_name().len()); }
            assert(crate::keys::k_all_pin_count() != crate::keys::k_component_description()) by { assert(crate::keys::k_all_pin_count().len() != crate::keys::k_component_description().len()); }
            assert(crate::keys::k_all_pin_count() != crate::keys::k_display_mode_count()) by { assert(crate::keys::k_all_pin_count().len() != crate::keys::k_display_mode_count().len()); }
            assert(crate::keys::k_all_pin_count() != crate::keys::k_index_in_sheet()) by { assert(crate::keys::k_all_pin_count().len() != crate::keys::k_index_in_sheet().len()); }
            assert(crate::keys::k_all_pin_count() != crate::keys::k_library_path()) by { assert(crate::keys::k_all_pin_count()[0] != crate::keys::k_library_path()[0]); }
            assert(crate::keys::k_all_pin_count() != crate::keys::k_lib_reference()) by { assert(crate::keys::k_all_pin_count().len() != crate::keys::k_lib_reference().len()); }
            assert(crate::keys::k_all_pin_count() != crate::keys::k_owner_part_id()) by { assert(crate::keys::k_all_pin_count()[0] != crate::keys::k_owner_part_id()[0]); }
            assert(crate::keys::k_all_pin_count() != crate::keys::k_part_count()) by { assert(crate::keys::k_all_pin_count().len() != crate::keys::k_part_count().len()); }
            assert(crate::keys::k_all_pin_count() != crate::keys::k_part_id_locked()) by { assert(crate::keys::k_all_pin_count().len() != crate::keys::k_part_id_locked().len()); }
            assert(crate::keys::k_all_pin_count() != crate::keys::k_not_use_db_table_name()) by { assert(crate::keys::k_all_pin_count().len() != crate::keys::k_not_use_db_table_name().len()); }
            assert(crate::keys::k_all_pin_count() != crate::keys::k_orientation()) by { assert(crate::keys::k_all_pin_count()[0] != crate::keys::k_orientation()[0]); }
            assert(crate::keys::k_all_pin_count() != crate::keys::k_sheet_part_file_name()) by { assert(crate::keys::k_all_pin_count().len() != crate::keys::k_sheet_part_file_name().len()); }
            assert(crate::keys::k_all_pin_count() != crate::keys::k_design_item_id()) by { assert(crate::keys::k_all_pin_count().len() != crate::keys::k_design_item_id().len()); }
            assert(crate::keys::k_all_pin_count() != crate::keys::k_source_library_name()) by { assert(crate::keys::k_all_pin_count().len() != crate::keys::k_source_library_name().len()); }
            assert(crate::keys::k_all_pin_count() != crate::keys::k_target_file_name()) by { assert(crate::keys::k_all_pin_count().len() != crate::keys::k_target_file_name().len()); }
            assert(crate::keys::k_all_pin_count() != crate::keys::k_location_x()) by { assert(crate::keys::k_all_pin_count().len() != crate::keys::k_location_x().len()); }
            assert(crate::keys::k_all_pin_count() != crate::keys::k_location_y()) by { assert(crate::keys::k_all_pin_count().len() != crate::keys::k_location_y().len()); }
            assert(crate::keys::k_all_pin_count() != crate::keys::k_unique_id()) by { assert(crate::keys::k_all_pin_count().len() != crate::keys::k_unique_id().len()); }
            assert(crate::keys::k_all_pin_count() != utf8_twin(crate::keys::k_database_table_name())) by { assert(crate::keys::k_all_pin_count().len() != utf8_twin(crate::keys::k_database_table_name()).len()); }
            assert(crate::keys::k_all_pin_count() != utf8_twin(crate::keys::k_component_description())) by { assert(crate::keys::k_all_pin_count().len() != utf8_twin(crate::keys::k_component_description()).len()); }
            assert(crate::keys::k_all_pin_count() != utf8_twin(crate::keys::k_library_path())) by { assert(crate::keys::k_all_pin_count().len() != utf8_twin(crate::keys::k_library_path()).len()); }
            assert(crate::keys::k_all_pin_count() != utf8_twin(crate::keys::k_lib_reference())) by { assert(crate::keys::k_all_pin_count().len() != utf8_twin(crate::keys::k_lib_reference()).len()); }
            assert(crate::keys::k_all_pin_count() != utf8_twin(crate::keys::k_sheet_part_file_name())) by { assert(crate::keys::k_all_pin_count().len() != utf8_twin(crate::keys::k_sheet_part_file_name()).len()); }
            assert(crate::keys::k_all_pin_count() != utf8_twin(crate::keys::k_design_item_id())) by { assert(crate::keys::k_all_pin_count().len() != utf8_twin(crate::keys::k_design_item_id()).len()); }
            assert(crate::keys::k_all_pin_count() != utf8_twin(crate::keys::k_source_library_name())) by { assert(crate::keys::k_all_pin_count().len() != utf8_twin(crate::keys::k_source_library_name()).len()); }
            assert(crate::keys::k_all_pin_count() != utf8_twin(crate::keys::k_target_file_name())) by { assert(crate::keys::k_all_pin_count().len() != utf8_twin(crate::keys::k_target_file_name()).len()); }
            assert(crate::keys::k_area_color() != crate::keys::k_color()) by { assert(crate::keys::k_area_color().len() != crate::keys::k_color().len()); }
            assert(crate::keys::k_area_color() != crate::keys::k_current_part_id()) by { assert(crate::keys::k_area_color().len() != crate::keys::k_current_part_id().len()); }
            assert(crate::keys::k_area_color() != crate::keys::k_database_table_name()) by { assert(crate::keys::k_area_color().len() != crate::keys::k_database_table_name().len()); }
            assert(crate::keys::k_area_color() != crate::keys::k_component_description()) by { assert(crate::keys::k_area_color().len() != crate::keys::k_component_description().len()); }
            assert(crate::keys::k_area_color() != crate::keys::k_display_mode_count()) by { assert(crate::keys::k_area_color().len() != crate::keys::k_display_mode_count().len()); }
            assert(crate::keys::k_area_color() != crate::keys::k_index_in_sheet()) by { assert(crate::keys::k_area_color().len() != crate::keys::k_index_in_sheet().len()); }
            assert(crate::keys::k_area_color() != crate::keys::k_library_path()) by { assert(crate::keys::k_area_color().len() != crate::keys::k_library_path().len()); }
            assert(crate::keys::k_area_color() != crate::keys::k_lib_reference()) by { assert(crate::keys::k_area_color().len() != crate::keys::k_lib_reference().len()); }
            assert(crate::keys::k_area_color() != crate::keys::k_owner_part_id()) by { assert(crate::keys::k_area_color().len() != crate::keys::k_owner_part_id().len()); }
            assert(crate::keys::k_area_color() != crate::keys::k_part_count()) by { assert(crate::keys::k_area_color()[0] != crate::keys::k_part_count()[0]); }
            assert(crate::keys::k_area_color() != crate::keys::k_part_id_locked()) by { assert(crate::keys::k_area_color().len() != crate::keys::k_part_id_locked().len()); }
            assert(crate::keys::k_area_color() != crate::keys::k_not_use_db_table_name()) by { assert(crate::keys::k_area_color().len() != crate::keys::k_not_use_db_table_name().len()); }
            assert(crate::keys::k_area_color() != crate::keys::k_orientation()) by { assert(crate::keys::k_area_color().len() != crate::keys::k_orientation().len()); }
            assert(crate::keys::k_area_color() != crate::keys::k_sheet_part_file_name()) by { assert(crate::keys::k_area_color().len() != crate::keys::k_sheet_part_file_name().len()); }
            assert(crate::keys::k_area_color() != crate::keys::k_design_item_id()) by { assert(crate::keys::k_area_color().len() != crate::keys::k_design_item_id().len()); }
            assert(crate::keys::k_area_color() != crate::keys::k_source_library_name()) by { assert(crate::keys::k_area_color().len() != crate::keys::k_source_library_name().len()); }
            assert(crate::keys::k_area_color() != crate::keys::k_target_file_name()) by { assert(crate::keys::k_area_color().len() != crate::keys::k_target_file_name().len()); }
            assert(crate::keys::k_area_color() != crate::keys::k_location_x()) by { assert(crate::keys::k_area_color().len() != crate::keys::k_location_x().len()); }
            assert(crate::keys::k_area_color() != crate::keys::k_location_y()) by { assert(crate::keys::k_area_color().len() != crate::keys::k_location_y().len()); }
            assert(crate::keys::k_area_color() != crate::keys::k_unique_id()) by { assert(crate::keys::k_area_color().len() != crate::keys::k_unique_id().len()); }
            assert(crate::keys::k_area_color() != utf8_twin(crate::keys::k_database_table_name())) by { assert(crate::keys::k_area_color().len() != utf8_twin(crate::keys::k_database_table_name()).len()); }
            assert(crate::keys::k_area_color() != utf8_twin(crate::keys::k_component_description())) by { assert(crate::keys::k_area_color().len() != utf8_twin(crate::keys::k_component_description()).len()); }
            assert(crate::keys::k_area_color() != utf8_twin(crate::keys::k_library_path())) by { assert(crate::keys::k_area_color().len() != utf8_twin(crate::keys::k_library_path()).len()); }
            assert(crate::keys::k_area_color() != utf8_twin(crate::keys::k_lib_reference())) by { assert(crate::keys::k_area_color().len() != utf8_twin(crate::keys::k_lib_reference()).len()); }
            assert(crate::keys::k_area_color() != utf8_twin(crate::keys::k_sheet_part_file_name())) by { assert(crate::keys::k_area_color().len() != utf8_twin(crate::keys::k_sheet_part_file_name()).len()); }
            assert(crate::keys::k_area_color() != utf8_twin(crate::keys::k_design_item_id())) by { assert(crate::keys::k_area_color().len() != utf8_twin(crate::keys::k_design_item_id()).len()); }
            assert(crate::keys::k_area_color() != utf8_twin(crate::keys::k_source_library_name())) by { assert(crate::keys::k_area_color().len() != utf8_twin(crate::keys::k_source_library_name()).len()); }
            assert(crate::keys::k_area_color() != utf8_twin(crate::keys::k_target_file_name())) by { assert(crate::keys::k_area_color().len() != utf8_twin(crate::keys::k_target_file_name()).len()); }
            assert(crate::keys::k_color() != crate::keys::k_current_part_id()) by { assert(crate::keys::k_color().len() != crate::keys::k_current_part_id().len()); }
            assert(crate::keys::k_color() != crate::keys::k_database_table_name()) by { assert(crate::keys::k_color().len() != crate::keys::k_database_table_name().len()); }
            assert(crate::keys::k_color() != crate::keys::k_component_description()) by { assert(crate::keys::k_color().len() != crate::keys::k_component_description().len()); }
            assert(crate::keys::k_color() != crate::keys::k_display_mode_count()) by { assert(crate::keys::k_color().len() != crate::keys::k_display_mode_count().len()); }
            assert(crate::keys::k_color() != crate::keys::k_index_in_sheet()) by { assert(crate::keys::k_color().len() != crate::keys::k_index_in_sheet().len()); }
            assert(crate::keys::k_color() != crate::keys::k_library_path()) by { assert(crate::keys::k_color().len() != crate::keys::k_library_path().len()); }
            assert(crate::keys::k_color() != crate::keys::k_lib_reference()) by { assert(crate::keys::k_color().len() != crate::keys::k_lib_reference().len()); }
            assert(crate::keys::k_color() != crate::keys::k_owner_part_id()) by { assert(crate::keys::k_color().len() != crate::keys::k_owner_part_id().len()); }
            assert(crate::keys::k_color() != crate::keys::k_part_count()) by { assert(crate::keys::k_color().len() != crate::keys::k_part_count().len()); }
            assert(crate::keys::k_color() != crate::keys::k_part_id_locked()) by { assert(crate::keys::k_color().len() != crate::keys::k_part_id_locked().len()); }
            assert(crate::keys::k_color() != crate::keys::k_not_use_db_table_name()) by { assert(crate::keys::k_color().len() != crate::keys::k_not_use_db_table_name().len()); }
            assert(crate::keys::k_color() != crate::keys::k_orientation()) by { assert(crate::keys::k_color().len() != crate::keys::k_orientation().len()); }
            assert(crate::keys::k_color() != crate::keys::k_sheet_part_file_name()) by { assert(crate::keys::k_color().len() != crate::keys::k_sheet_part_file_name().len()); }
            assert(crate::keys::k_color() != crate::keys::k_design_item_id()) by { assert(crate::keys::k_color().len() != crate::keys::k_design_item_id().len()); }
            assert(crate::keys::k_color() != crate::keys::k_source_library_name()) by { assert(crate::keys::k_color().len() != crate::keys::k_source_library_name().len()); }
            assert(crate::keys::k_color() != crate::keys::k_target_file_name()) by { assert(crate::keys::k_color().len() != crate::keys::k_target_file_name().len()); }
            assert(crate::keys::k_color() != crate::keys::k_location_x()) by { assert(crate::keys::k_color().len() != crate::keys::k_location_x().len()); }
            assert(crate::keys::k_color() != crate::keys::k_location_y()) by { assert(crate::keys::k_color().len() != crate::keys::k_location_y().len()); }
            assert(crate::keys::k_color() != crate::keys::k_unique_id()) by { assert(crate::keys::k_color().len() != crate::keys::k_unique_id().len()); }
            assert(crate::keys::k_color() != utf8_twin(crate::keys::k_database_table_name())) by { assert(crate::keys::k_color().len() != utf8_twin(crate::keys::k_database_table_name()).len()); }
            assert(crate::keys::k_color() != utf8_twin(crate::keys::k_component_description())) by { assert(crate::keys::k_color().len() != utf8_twin(crate::keys::k_component_description()).len()); }
            assert(crate::keys::k_color() != utf8_twin(crate::keys::k_library_path())) by { assert(crate::keys::k_color().len() != utf8_twin(crate::keys::k_library_path()).len()); }
            assert(crate::keys::k_color() != utf8_twin(crate::keys::k_lib_reference())) by { assert(crate::keys::k_color().len() != utf8_twin(crate::keys::k_lib_reference()).len()); }
            assert(crate::keys::k_color() != utf8_twin(crate::keys::k_sheet_part_file_name())) by { assert(crate::keys::k_color().len() != utf8_twin(crate::keys::k_sheet_part_file_name()).len()); }
            assert(crate::keys::k_color() != utf8_twin(crate::keys::k_design_item_id())) by { assert(crate::keys::k_color().len() != utf8_twin(crate::keys::k_design_item_id()).len()); }
            assert(crate::keys::k_color() != utf8_twin(crate::keys::k_source_library_name())) by { assert(crate::keys::k_color().len() != utf8_twin(crate::keys::k_source_library_name()).len()); }
            assert(crate::keys::k_color() != utf8_twin(crate::keys::k_target_file_name())) by { assert(crate::keys::k_color().len() != utf8_twin(crate::keys::k_target_file_name()).len()); }
            assert(crate::keys::k_current_part_id() != crate::keys::k_database_table_name()) by { assert(crate::keys::k_current_part_id().len() != crate::keys::k_database_table_name().len()); }
            assert(crate::keys::k_current_part_id() != crate::keys::k_component_description()) by { assert(crate::keys::k_current_part_id().len() != crate::keys::k_component_description().len()); }
            assert(crate::keys::k_current_part_id() != crate::keys::k_display_mode_count()) by { assert(crate::keys::k_current_part_id().len() != crate::keys::k_display_mode_count().len()); }
            assert(crate::keys::k_current_part_id() != crate::keys::k_index_in_sheet()) by { assert(crate::keys::k_current_part_id().len() != crate::keys::k_index_in_sheet().len()); }
            assert(crate::keys::k_current_part_id() != crate::keys::k_library_path()) by { assert(crate::keys::k_current_part_id().len() != crate::keys::k_library_path().len()); }
            assert(crate::keys::k_current_part_id() != crate::keys::k_lib_reference()) by { assert(crate::keys::k_current_part_id().len() != crate::keys::k_lib_reference().len()); }
            assert(crate::keys::k_current_part_id() != crate::keys::k_owner_part_id()) by { assert(crate::keys::k_current_part_id().len() != crate::keys::k_owner_part_id().len()); }
            assert(crate::keys::k_current_part_id() != crate::keys::k_part_count()) by { assert(crate::keys::k_current_part_id().len() != crate::keys::k_part_count().len()); }
            assert(crate::keys::k_current_part_id() != crate::keys::k_part_id_locked()) by { assert(crate::keys::k_current_part_id().len() != crate::keys::k_part_id_locked().len()); }
            assert(crate::keys::k_current_part_id() != crate::keys::k_not_use_db_table_name()) by { assert(crate::keys::k_current_part_id().len() != crate::keys::k_not_use_db_table_name().len()); }
            assert(crate::keys::k_current_part_id() != crate::keys::k_orientation()) by { assert(crate::keys::k_current_part_id().len() != crate::keys::k_orientation().len()); }
            assert(crate::keys::k_current_part_id() != crate::keys::k_sheet_part_file_name()) by { assert(crate::keys::k_current_part_id().len() != crate::keys::k_sheet_part_file_name().len()); }
            assert(crate::keys::k_current_part_id() != crate::keys::k_design_item_id()) by { assert(crate::keys::k_current_part_id().len() != crate::keys::k_design_item_id().len()); }
            assert(crate::keys::k_current_part_id() != crate::keys::k_source_library_name()) by { assert(crate::keys::k_current_part_id().len() != crate::keys::k_source_library_name().len()); }
            assert(crate::keys::k_current_part_id() != crate::keys::k_target_file_name()) by { assert(crate::keys::k_current_part_id().len() != crate::keys::k_target_file_name().len()); }
            assert(crate::keys::k_current_part_id() != crate::keys::k_location_x()) by { assert(crate::keys::k_current_part_id().len() != crate::keys::k_location_x().len()); }
            assert(crate::keys::k_current_part_id() != crate::keys::k_location_y()) by { assert(crate::keys::k_current_part_id().len() != crate::keys::k_location_y().len()); }
            assert(crate::keys::k_current_part_id() != crate::keys::k_unique_id()) by { assert(crate::keys::k_current_part_id().len() != crate::keys::k_unique_id().len()); }
            assert(crate::keys::k_current_part_id() != utf8_twin(crate::keys::k_database_table_name())) by { assert(crate::keys::k_current_part_id().len() != utf8_twin(crate::keys::k_database_table_name()).len()); }
            assert(crate::keys::k_current_part_id() != utf8_twin(crate::keys::k_component_description())) by { assert(crate::keys::k_current_part_id().len() != utf8_twin(crate::keys::k_component_description()).len()); }
            assert(crate::keys::k_current_part_id() != utf8_twin(crate::keys::k_library_path())) by { assert(crate::keys::k_current_part_id().len() != utf8_twin(crate::keys::k_library_path()).len()); }
            assert(crate::keys::k_current_part_id() != utf8_twin(crate::keys::k_lib_reference())) by { assert(crate::keys::k_current_part_id().len() != utf8_twin(crate::keys::k_lib_reference()).len()); }
            assert(crate::keys::k_current_part_id() != utf8_twin(crate::keys::k_sheet_part_file_name())) by { assert(crate::keys::k_current_part_id().len() != utf8_twin(crate::keys::k_sheet_part_file_name()).len()); }
            assert(crate::keys::k_current_part_id() != utf8_twin(crate::keys::k_design_item_id())) by { assert(crate::keys::k_current_part_id().len() != utf8_twin(crate::keys::k_design_item_id()).len()); }
            assert(crate::keys::k_current_part_id() != utf8_twin(crate::keys::k_source_library_name())) by { assert(crate::keys::k_current_part_id().len() != utf8_twin(crate::keys::k_source_library_name()).len()); }
            assert(crate::keys::k_current_part_id() != utf8_twin(crate::keys::k_target_file_name())) by { assert(crate::keys::k_current_part_id().len() != utf8_twin(crate::keys::k_target_file_name()).len()); }
            assert(crate::keys::k_database_table_name() != crate::keys::k_component_description()) by { assert(crate::keys::k_database_table_name().len() != crate::keys::k_component_description().len()); }
            assert(crate::keys::k_database_table_name() != crate::keys::k_display_mode_count()) by { assert(crate::keys::k_database_table_name().len() != crate::keys::k_display_mode_count().len()); }
            assert(crate::keys::k_database_table_name() != crate::keys::k_index_in_sheet()) by { assert(crate::keys::k_database_table_name().len() != crate::keys::k_index_in_sheet().len()); }
            assert(crate::keys::k_database_table_name() != crate::keys::k_library_path()) by { assert(crate::keys::k_database_table_name().len() != crate::keys::k_library_path().len()); }
            assert(crate::keys::k_database_table_name() != crate::keys::k_lib_reference()) by { assert(crate::keys::k_database_table_name().len() != crate::keys::k_lib_reference().len()); }
            assert(crate::keys::k_database_table_name() != crate::keys::k_owner_part_id()) by { assert(crate::keys::k_database_table_name().len() != crate::keys::k_owner_part_id().len()); }
            assert(crate::keys::k_database_table_name() != crate::keys::k_part_count()) by { assert(crate::keys::k_database_table_name().len() != crate::keys::k_part_count().len()); }
            assert(crate::keys::k_database_table_name() != crate::keys::k_part_id_locked()) by { assert(crate::keys::k_database_table_name().len() != crate::keys::k_part_id_locked().len()); }
            assert(crate::keys::k_database_table_name() != crate::keys::k_not_use_db_table_name()) by { assert(crate::keys::k_database_table_name()[0] != crate::keys::k_not_use_db_table_name()[0]); }
            assert(crate::keys::k_database_table_name() != crate::keys::k_orientation()) by { assert(crate::keys::k_database_table_name().len() != crate::keys::k_orientation().len()); }
            assert(crate::keys::k_database_table_name() != crate::keys::k_sheet_part_file_name()) by { assert(crate::keys::k_database_table_name()[0] != crate::keys::k_sheet_part_file_name()[0]); }
            assert(crate::keys::k_database_table_name() != crate::keys::k_design_item_id()) by { assert(crate::keys::k_database_table_name().len() != crate::keys::k_design_item_id().len()); }
            assert(crate::keys::k_database_table_name() != crate::keys::k_source_library_name()) by { assert(crate::keys::k_database_table_name()[0] != crate::keys::k_source_library_name()[0]); }
            assert(crate::keys::k_database_table_name() != crate::keys::k_target_file_name()) by { assert(crate::keys::k_database_table_name().len() != crate::keys::k_target_file_name().len()); }
            assert(crate::keys::k_database_table_name() != crate::keys::k_location_x()) by { assert(crate::keys::k_database_table_name().len() != crate::keys::k_location_x().len()); }
            assert(crate::keys::k_database_table_name() != crate::keys::k_location_y()) by { assert(crate::keys::k_database_table_name().len() != crate::keys::k_location_y().len()); }
            assert(crate::keys::k_database_table_name() != crate::keys::k_unique_id()) by { assert(crate::keys::k_database_table_name().len() != crate::keys::k_unique_id().len()); }
            assert(crate::keys::k_database_table_name() != utf8_twin(crate::keys::k_database_table_name())) by { assert(crate::keys::k_database_table_name().len() != utf8_twin(crate::keys::k_database_table_name()).len()); }
            assert(crate::keys::k_database_table_name() != utf8_twin(crate::keys::k_component_description())) by { assert(crate::keys::k_database_table_name().len() != utf8_twin(crate::keys::k_component_description()).len()); }
            assert(crate::keys::k_database_table_name() != utf8_twin(crate::keys::k_library_path())) by { assert(crate::keys::k_database_table_name()[0] != utf8_twin(crate::keys::k_library_path())[0]); }
            assert(crate::keys::k_database_table_name() != utf8_twin(crate::keys::k_lib_reference())) by { assert(crate::keys::k_database_table_name().len() != utf8_twin(crate::keys::k_lib_reference()).len()); }
            assert(crate::keys::k_database_table_name() != utf8_twin(crate::keys::k_sheet_part_file_name())) by { assert(crate::keys::k_database_table_name().len() != utf8_twin(crate::keys::k_sheet_part_file_name()).len()); }
            assert(crate::keys::k_database_table_name() != utf8_twin(crate::keys::k_design_item_id())) by { assert(crate::keys::k_database_table_name().len() != utf8_twin(crate::keys::k_design_item_id()).len()); }
            assert(crate::keys::k_database_table_name() != utf8_twin(crate::keys::k_source_library_name())) by { assert(crate::keys::k_database_table_name().len() != utf8_twin(crate::keys::k_source_library_name()).len()); }
            assert(crate::keys::k_database_table_name() != utf8_twin(crate::keys::k_target_file_name())) by { assert(crate::keys::k_database_table_name().len() != utf8_twin(crate::keys::k_target_file_name()).len()); }
            assert(crate::keys::k_component_description() != crate::keys::k_display_mode_count()) by { assert(crate::keys::k_component_description().len() != crate::keys::k_display_mode_count().len()); }
            assert(crate::keys::k_component_description() != crate::keys::k_index_in_sheet()) by { assert(crate::keys::k_component_description().len() != crate::keys::k_index_in_sheet().len()); }
            assert(crate::keys::k_component_description() != crate::keys::k_library_path()) by { assert(crate::keys::k_component_description().len() != crate::keys::k_library_path().len()); }
            assert(crate::keys::k_component_description() != crate::keys::k_lib_reference()) by { assert(crate::keys::k_component_description().len() != crate::keys::k_lib_reference().len()); }
            assert(crate::keys::k_component_description() != crate::keys::k_owner_part_id()) by { assert(crate::keys::k_component_description().len() != crate::keys::k_owner_part_id().len()); }
            assert(crate::keys::k_component_description() != crate::keys::k_part_count()) by { assert(crate::keys::k_component_description().len() != crate::keys::k_part_count().len()); }
            assert(crate::keys::k_component_description() != crate::keys::k_part_id_locked()) by { assert(crate::keys::k_component_description().len() != crate::keys::k_part_id_locked().len()); }
            assert(crate::keys::k_component_description() != crate::keys::k_not_use_db_table_name()) by { assert(crate::keys::k_component_description().len() != crate::keys::k_not_use_db_table_name().len()); }
            assert(crate::keys::k_component_description() != crate::keys::k_orientation()) by { assert(crate::keys::k_component_description().len() != crate::keys::k_orientation().len()); }
            assert(crate::keys::k_component_description() != crate::keys::k_sheet_part_file_name()) by { assert(crate::keys::k_component_description().len() != crate::keys::k_sheet_part_file_name().len()); }
            assert(crate::keys::k_component_description() != crate::keys::k_design_item_id()) by { assert(crate::keys::k_component_description().len() != crate::keys::k_design_item_id().len()); }
            assert(crate::keys::k_component_description() != crate::keys::k_source_library_name()) by { assert(crate::keys::k_component_description().len() != crate::keys::k_source_library_name().len()); }
            assert(crate::keys::k_component_description() != crate::keys::k_target_file_name()) by { assert(crate::keys::k_component_description().len() != crate::keys::k_target_file_name().len()); }
            assert(crate::keys::k_component_description() != crate::keys::k_location_x()) by { assert(crate::keys::k_component_description().len() != crate::keys::k_location_x().len()); }
            assert(crate::keys::k_component_description() != crate::keys::k_location_y()) by { assert(crate::keys::k_component_description().len() != crate::keys::k_location_y().len()); }
            assert(crate::keys::k_component_description() != crate::keys::k_unique_id()) by { assert(crate::keys::k_component_description().len() != crate::keys::k_unique_id().len()); }
            assert(crate::keys::k_component_description() != utf8_twin(crate::keys::k_database_table_name())) by { assert(crate::keys::k_component_description().len() != utf8_twin(crate::keys::k_database_table_name()).len()); }
            assert(crate::keys::k_component_description() != utf8_twin(crate::keys::k_component_description())) by { assert(crate::keys::k_component_description().len() != utf8_twin(crate::keys::k_component_description()).len()); }
            assert(crate::keys::k_component_description() != utf8_twin(crate::keys::k_library_path())) by { assert(crate::keys::k_component_description().len() != utf8_twin(crate::keys::k_library_path()).len()); }
            assert(crate::keys::k_component_description() != utf8_twin(crate::keys::k_lib_reference())) by { assert(crate::keys::k_component_description().len() != utf8_twin(crate::keys::k_lib_reference()).len()); }
            assert(crate::keys::k_component_description() != utf8_twin(crate::keys::k_sheet_part_file_name())) by { assert(crate::keys::k_component_description().len() != utf8_twin(crate::keys::k_sheet_part_file_name()).len()); }
            assert(crate::keys::k_component_description() != utf8_twin(crate::keys::k_design_item_id())) by { assert(crate::keys::k_component_description().len() != utf8_twin(crate::keys::k_design_item_id()).len()); }
            assert(crate::keys::k_component_description() != utf8_twin(crate::keys::k_source_library_name())) by { assert(crate::keys::k_component_description().len() != utf8_twin(crate::keys::k_source_library_name()).len()); }
            assert(crate::keys::k_component_description() != utf8_twin(crate::keys::k_target_file_name())) by { assert(crate::keys::k_component_description()[0] != utf8_twin(crate::keys::k_target_file_name())[0]); }
            assert(crate::keys::k_display_mode_count() != crate::keys::k_index_in_sheet()) by { assert(crate::keys::k_display_mode_count().len() != crate::keys::k_index_in_sheet().len()); }
            assert(crate::keys::k_display_mode_count() != crate::keys::k_library_path()) by { assert(crate::keys::k_display_mode_count().len() != crate::keys::k_library_path().len()); }
            assert(crate::keys::k_display_mode_count() != crate::keys::k_lib_reference()) by { assert(crate::keys::k_display_mode_count().len() != crate::keys::k_lib_reference().len()); }
            assert(crate::keys::k_display_mode_count() != crate::keys::k_owner_part_id()) by { assert(crate::keys::k_display_mode_count().len() != crate::keys::k_owner_part_id().len()); }
            assert(crate::keys::k_display_mode_count() != crate::keys::k_part_count()) by { assert(crate::keys::k_display_mode_count().len() != crate::keys::k_part_count().len()); }
            assert(crate::keys::k_display_mode_count() != crate::keys::k_part_id_locked()) by { assert(crate::keys::k_display_mode_count().len() != crate::keys::k_part_id_locked().len()); }
            assert(crate::keys::k_display_mode_count() != crate::keys::k_not_use_db_table_name()) by { assert(crate::keys::k_display_mode_count().len() != crate::keys::k_not_use_db_table_name().len()); }
            assert(crate::keys::k_display_mode_count() != crate::keys::k_orientation()) by { assert(crate::keys::k_display_mode_count().len() != crate::keys::k_orientation().len()); }
            assert(crate::keys::k_display_mode_count() != crate::keys::k_sheet_part_file_name()) by { assert(crate::keys::k_display_mode_count().len() != crate::keys::k_sheet_part_file_name().len()); }
            assert(crate::keys::k_display_mode_count() != crate::keys::k_design_item_id()) by { assert(crate::keys::k_display_mode_count().len() != crate::keys::k_design_item_id().len()); }
            assert(crate::keys::k_display_mode_count() != crate::keys::k_source_library_name()) by { assert(crate::keys::k_display_mode_count().len() != crate::keys::k_source_library_name().len()); }
            assert(crate::keys::k_display_mode_count() != crate::keys::k_target_file_name()) by { assert(crate::keys::k_display_mode_count().len() != crate::keys::k_target_file_name().len()); }
            assert(crate::keys::k_display_mode_count() != crate::keys::k_location_x()) by { assert(crate::keys::k_display_mode_count().len() != crate::keys::k_location_x().len()); }
            assert(crate::keys::k_display_mode_count() != crate::keys::k_location_y()) by { assert(crate::keys::k_display_mode_count().len() != crate::keys::k_location_y().len()); }
            assert(crate::keys::k_display_mode_count() != crate::keys::k_unique_id()) by { assert(crate::keys::k_display_mode_count().len() != crate::keys::k_unique_id().len()); }
            assert(crate::keys::k_display_mode_count() != utf8_twin(crate::keys::k_database_table_name())) by { assert(crate::keys::k_display_mode_count().len() != utf8_twin(crate::keys::k_database_table_name()).len()); }
            assert(crate::keys::k_display_mode_count() != utf8_twin(crate::keys::k_component_description())) by { assert(crate::keys::k_display_mode_count().len() != utf8_twin(crate::keys::k_component_description()).len()); }
            assert(crate::keys::k_display_mode_count() != utf8_twin(crate::keys::k_library_path())) by { assert(crate::keys::k_display_mode_count().len() != utf8_twin(crate::keys::k_library_path()).len()); }
            assert(crate::keys::k_display_mode_count() != utf8_twin(crate::keys::k_lib_reference())) by { assert(crate::keys::k_display_mode_count().len() != utf8_twin(crate::keys::k_lib_reference()).len()); }
            assert(crate::keys::k_display_mode_count() != utf8_twin(crate::keys::k_sheet_part_file_name())) by { assert(crate::keys::k_display_mode_count().len() != utf8_twin(crate::keys::k_sheet_part_file_name()).len()); }
            assert(crate::keys::k_display_mode_count() != utf8_twin(crate::keys::k_design_item_id())) by { assert(crate::keys::k_display_mode_count().len() != utf8_twin(crate::keys::k_design_item_id()).len()); }
            assert(crate::keys::k_display_mode_count() != utf8_twin(crate::keys::k_source_library_name())) by { assert(crate::keys::k_display_mode_count().len() != utf8_twin(crate::keys::k_source_library_name()).len()); }
            assert(crate::keys::k_display_mode_count() != utf8_twin(crate::keys::k_target_file_name())) by { assert(crate::keys::k_display_mode_count().len() != utf8_twin(crate::keys::k_target_file_name()).len()); }
            assert(crate::keys::k_index_in_sheet() != crate::keys::k_library_path()) by { assert(crate::keys::k_index_in_sheet().len() != crate::keys::k_library_path().len()); }
            assert(crate::keys::k_index_in_sheet() != crate::keys::k_lib_reference()) by { assert(crate::keys::k_index_in_sheet()[0] != crate::keys::k_lib_reference()[0]); }
            assert(crate::keys::k_index_in_sheet() != crate::keys::k_owner_part_id()) by { assert(crate::keys::k_index_in_sheet().len() != crate::keys::k_owner_part_id().len()); }
            assert(crate::keys::k_index_in_sheet() != crate::keys::k_part_count()) by { assert(crate::keys::k_index_in_sheet().len() != crate::keys::k_part_count().len()); }
            assert(crate::keys::k_index_in_sheet() != crate::keys::k_part_id_locked()) by { assert(crate::keys::k_index_in_sheet()[0] != crate::keys::k_part_id_locked()[0]); }
            assert(crate::keys::k_index_in_sheet() != crate::keys::k_not_use_db_table_name()) by { assert(crate::keys::k_index_in_sheet().len() != crate::keys::k_not_use_db_table_name().len()); }
            assert(crate::keys::k_index_in_sheet() != crate::keys::k_orientation()) by { assert(crate::keys::k_index_in_sheet().len() != crate::keys::k_orientation().len()); }
            assert(crate::keys::k_index_in_sheet() != crate::keys::k_sheet_part_file_name()) by { assert(crate::keys::k_index_in_sheet().len() != crate::keys::k_sheet_part_file_name().len()); }
            assert(crate::keys::k_index_in_sheet() != crate::keys::k_design_item_id()) by { assert(crate::keys::k_index_in_sheet()[0] != crate::keys::k_design_item_id()[0]); }
            assert(crate::keys::k_index_in_sheet() != crate::keys::k_source_library_name()) by { assert(crate::keys::k_index_in_sheet().len() != crate::keys::k_source_library_name().len()); }
            assert(crate::keys::k_index_in_sheet() != crate::keys::k_target_file_name()) by { assert(crate::keys::k_index_in_sheet().len() != crate::keys::k_target_file_name().len()); }
            assert(crate::keys::k_index_in_sheet() != crate::keys::k_location_x()) by { assert(crate::keys::k_index_in_sheet().len() != crate::keys::k_location_x().len()); }
            assert(crate::keys::k_index_in_sheet() != crate::keys::k_location_y()) by { assert(crate::keys::k_index_in_sheet().len() != crate::keys::k_location_y().len()); }
            assert(crate::keys::k_index_in_sheet() != crate::keys::k_unique_id()) by { assert(crate::keys::k_index_in_sheet().len() != crate::keys::k_unique_id().len()); }
            assert(crate::keys::k_index_in_sheet() != utf8_twin(crate::keys::k_database_table_name())) by { assert(crate::keys::k_index_in_sheet().len() != utf8_twin(crate::keys::k_database_table_name()).len()); }
            assert(crate::keys::k_index_in_sheet() != utf8_twin(crate::keys::k_component_description())) by { assert(crate::keys::k_index_in_sheet().len() != utf8_twin(crate::keys::k_component_description()).len()); }
            assert(crate::keys::k_index_in_sheet() != utf8_twin(crate::keys::k_library_path())) by { assert(crate::keys::k_index_in_sheet().len() != utf8_twin(crate::keys::k_library_path()).len()); }
            assert(crate::keys::k_index_in_sheet() != utf8_twin(crate::keys::k_lib_reference())) by { assert(crate::keys::k_index_in_sheet().len() != utf8_twin(crate::keys::k_lib_reference()).len()); }
            assert(crate::keys::k_index_in_sheet() != utf8_twin(crate::keys::k_sheet_part_file_name())) by { assert(crate::keys::k_index_in_sheet().len() != utf8_twin(crate::keys::k_sheet_part_file_name()).len()); }
            assert(crate::keys::k_index_in_sheet() != utf8_twin(crate::keys::k_design_item_id())) by { assert(crate::keys::k_index_in_sheet().len() != utf8_twin(crate::keys::k_design_item_id()).len()); }
            assert(crate::keys::k_index_in_sheet() != utf8_twin(crate::keys::k_source_library_name())) by { assert(crate::keys::k_index_in_sheet().len() != utf8_twin(crate::keys::k_source_library_name()).len()); }
            assert(crate::keys::k_index_in_sheet() != utf8_twin(crate::keys::k_target_file_name())) by { assert(crate::keys::k_index_in_sheet().len() != utf8_twin(crate::keys::k_target_file_name()).len()); }
            assert(crate::keys::k_library_path() != crate::keys::k_lib_reference()) by { assert(crate::keys::k_library_path().len() != crate::keys::k_lib_reference().len()); }
            assert(crate::keys::k_library_path() != crate::keys::k_owner_part_id()) by { assert(crate::keys::k_library_path()[0] != crate::keys::k_owner_part_id()[0]); }
            assert(crate::keys::k_library_path() != crate::keys::k_part_count()) by { assert(crate::keys::k_library_path().len() != crate::keys::k_part_count().len()); }
            assert(crate::keys::k_library_path() != crate::keys::k_part_id_locked()) by { assert(crate::keys::k_library_path().len() != crate::keys::k_part_id_locked().len()); }
            assert(crate::keys::k_library_path() != crate::keys::k_not_use_db_table_name()) by { assert(crate::keys::k_library_path().len() != crate::keys::k_not_use_db_table_name().len()); }
            assert(crate::keys::k_library_path() != crate::keys::k_orientation()) by { assert(crate::keys::k_library_path()[0] != crate::keys::k_orientation()[0]); }
            assert(crate::keys::k_library_path() != crate::keys::k_sheet_part_file_name()) by { assert(crate::keys::k_library_path().len() != crate::keys::k_sheet_part_file_name().len()); }
            assert(crate::keys::k_library_path() != crate::keys::k_design_item_id()) by { assert(crate::keys::k_library_path().len() != crate::keys::k_design_item_id().len()); }
            assert(crate::keys::k_library_path() != crate::keys::k_source_library_name()) by { assert(crate::keys::k_library_path().len() != crate::keys::k_source_library_name().len()); }
            assert(crate::keys::k_library_path() != crate::keys::k_target_file_name()) by { assert(crate::keys::k_library_path().len() != crate::keys::k_target_file_name().len()); }
            assert(crate::keys::k_library_path() != crate::keys::k_location_x()) by { assert(crate::keys::k_library_path().len() != crate::keys::k_location_x().len()); }
            assert(crate::keys::k_library_path() != crate::keys::k_location_y()) by { assert(crate::keys::k_library_path().len() != crate::keys::k_location_y().len()); }
            assert(crate::keys::k_library_path() != crate::keys::k_unique_id()) by { assert(crate::keys::k_library_path().len() != crate::keys::k_unique_id().len()); }
            assert(crate::keys::k_library_path() != utf8_twin(crate::keys::k_database_table_name())) by { assert(crate::keys::k_library_path().len() != utf8_twin(crate::keys::k_database_table_name()).len()); }
            assert(crate::keys::k_library_path() != utf8_twin(crate::keys::k_component_description())) by { assert(crate::keys::k_library_path().len() != utf8_twin(crate::keys::k_component_description()).len()); }
            assert(crate::keys::k_library_path() != utf8_twin(crate::keys::k_library_path())) by { assert(crate::keys::k_library_path().len() != utf8_twin(crate::keys::k_library_path()).len()); }
            assert(crate::keys::k_library_path() != utf8_twin(crate::keys::k_lib_reference())) by { assert(crate::keys::k_library_path().len() != utf8_twin(crate::keys::k_lib_reference()).len()); }
            assert(crate::keys::k_library_path() != utf8_twin(crate::keys::k_sheet_part_file_name())) by { assert(crate::keys::k_library_path().len() != utf8_twin(crate::keys::k_sheet_part_file_name()).len()); }
            assert(crate::keys::k_library_path() != utf8_twin(crate::keys::k_design_item_id())) by { assert(crate::keys::k_library_path().len() != utf8_twin(crate::keys::k_design_item_id()).len()); }
            assert(crate::keys::k_library_path() != utf8_twin(crate::keys::k_source_library_name())) by { assert(crate::keys::k_library_path().len() != utf8_twin(crate::keys::k_source_library_name()).len()); }
            assert(crate::keys::k_library_path() != utf8_twin(crate::keys::k_target_file_name())) by { assert(crate::keys::k_library_path().len() != utf8_twin(crate::keys::k_target_file_name()).len()); }
            assert(crate::keys::k_lib_reference() != crate::keys::k_owner_part_id()) by { assert(crate::keys::k_lib_reference().len() != crate::keys::k_owner_part_id().len()); }
            assert(crate::keys::k_lib_reference() != crate::keys::k_part_count()) by { assert(crate::keys::k_lib_reference().len() != crate::keys::k_part_count().len()); }
            assert(crate::keys::k_lib_reference() != crate::keys::k_part_id_locked()) by { assert(crate::keys::k_lib_reference()[0] != crate::keys::k_part_id_locked()[0]); }
            assert(crate::keys::k_lib_reference() != crate::keys::k_not_use_db_table_name()) by { assert(crate::keys::k_lib_reference().len() != crate::keys::k_not_use_db_table_name().len()); }
            assert(crate::keys::k_lib_reference() != crate::keys::k_orientation()) by { assert(crate::keys::k_lib_reference().len() != crate::keys::k_orientation().len()); }
            assert(crate::keys::k_lib_reference() != crate::keys::k_sheet_part_file_name()) by { assert(crate::keys::k_lib_reference().len() != crate::keys::k_sheet_part_file_name().len()); }
            assert(crate::keys::k_lib_reference() != crate::keys::k_design_item_id()) by { assert(crate::keys::k_lib_reference()[0] != crate::keys::k_design_item_id()[0]); }
            assert(crate::keys::k_lib_reference() != crate::keys::k_source_library_name()) by { assert(crate::keys::k_lib_reference().len() != crate::keys::k_source_library_name().len()); }
            assert(crate::keys::k_lib_reference() != crate::keys::k_target_file_name()) by { assert(crate::keys::k_lib_reference().len() != crate::keys::k_target_file_name().len()); }
            assert(crate::keys::k_lib_reference() != crate::keys::k_location_x()) by { assert(crate::keys::k_lib_reference().len() != crate::keys::k_location_x().len()); }
            assert(crate::keys::k_lib_reference() != crate::keys::k_location_y()) by { assert(crate::keys::k_lib_reference().len() != crate::keys::k_location_y().len()); }
            assert(crate::keys::k_lib_reference() != crate::keys::k_unique_id()) by { assert(crate::keys::k_lib_reference().len() != crate::keys::k_unique_id().len()); }
            assert(crate::keys::k_lib_reference() != utf8_twin(crate::keys::k_database_table_name())) by { assert(crate::keys::k_lib_reference().len() != utf8_twin(crate::keys::k_database_table_name()).len()); }
            assert(crate::keys::k_lib_reference() != utf8_twin(crate::keys::k_component_description())) by { assert(crate::keys::k_lib_reference().len() != utf8_twin(crate::keys::k_component_description()).len()); }
            assert(crate::keys::k_lib_reference() != utf8_twin(crate::keys::k_library_path())) by { assert(crate::keys::k_lib_reference().len() != utf8_twin(crate::keys::k_library_path()).len()); }
            assert(crate::keys::k_lib_reference() != utf8_twin(crate::keys::k_lib_reference())) by { assert(crate::keys::k_lib_reference().len() != utf8_twin(crate::keys::k_lib_reference()).len()); }
            assert(crate::keys::k_lib_reference() != utf8_twin(crate::keys::k_sheet_part_file_name())) by { assert(crate::keys::k_lib_reference().len() != utf8_twin(crate::keys::k_sheet_part_file_name()).len()); }
            assert(crate::keys::k_lib_reference() != utf8_twin(crate::keys::k_design_item_id())) by { assert(crate::keys::k_lib_reference().len() != utf8_twin(crate::keys::k_design_item_id()).len()); }
            assert(crate::keys::k_lib_reference() != utf8_twin(crate::keys::k_source_library_name())) by { assert(crate::keys::k_lib_reference().len() != utf8_twin(crate::keys::k_source_library_name()).len()); }
            assert(crate::keys::k_lib_reference() != utf8_twin(crate::keys::k_target_file_name())) by { assert(crate::keys::k_lib_reference().len() != utf8_twin(crate::keys::k_target_file_name()).len()); }
            assert(crate::keys::k_owner_part_id() != crate::keys::k_part_count()) by { assert(crate::keys::k_owner_part_id().len() != crate::keys::k_part_count().len()); }
            assert(crate::keys::k_owner_part_id() != crate::keys::k_part_id_locked()) by { assert(crate::keys::k_owner_part_id().len() != crate::keys::k_part_id_locked().len()); }
            assert(crate::keys::k_owner_part_id() != crate::keys::k_not_use_db_table_name()) by { assert(crate::keys::k_owner_part_id().len() != crate::keys::k_not_use_db_table_name().len()); }
            assert(crate::keys::k_owner_part_id() != crate::keys::k_orientation()) by { assert(crate::keys::k_owner_part_id()[1] != crate::keys::k_orientation()[1]); }
            assert(crate::keys::k_owner_part_id() != crate::keys::k_sheet_part_file_name()) by { assert(crate::keys::k_owner_part_id().len() != crate::keys::k_sheet_part_file_name().len()); }
            assert(crate::keys::k_owner_part_id() != crate::keys::k_design_item_id()) by { assert(crate::keys::k_owner_part_id().len() != crate::keys::k_design_item_id().len()); }
            assert(crate::keys::k_owner_part_id() != crate::keys::k_source_library_name()) by { assert(crate::keys::k_owner_part_id().len() != crate::keys::k_source_library_name().len()); }
            assert(crate::keys::k_owner_part_id() != crate::keys::k_target_file_name()) by { assert(crate::keys::k_owner_part_id().len() != crate::keys::k_target_file_name().len()); }
            assert(crate::keys::k_owner_part_id() != crate::keys::k_location_x()) by { assert(crate::keys::k_owner_part_id().len() != crate::keys::k_location_x().len()); }
            assert(crate::keys::k_owner_part_id() != crate::keys::k_location_y()) by { assert(crate::keys::k_owner_part_id().len() != crate::keys::k_location_y().len()); }
            assert(crate::keys::k_owner_part_id() != crate::keys::k_unique_id()) by { assert(crate::keys::k_owner_part_id().len() != crate::keys::k_unique_id().len()); }
            assert(crate::keys::k_owner_part_id() != utf8_twin(crate::keys::k_database_table_name())) by { assert(crate::keys::k_owner_part_id().len() != utf8_twin(crate::keys::k_database_table_name()).len()); }
            assert(crate::keys::k_owner_part_id() != utf8_twin(crate::keys::k_component_description())) by { assert(crate::keys::k_owner_part_id().len() != utf8_twin(crate::keys::k_component_description()).len()); }
            assert(crate::keys::k_owner_part_id() != utf8_twin(crate::keys::k_library_path())) by { assert(crate::keys::k_owner_part_id().len() != utf8_twin(crate::keys::k_library_path()).len()); }
            assert(crate::keys::k_owner_part_id() != utf8_twin(crate::keys::k_lib_reference())) by { assert(crate::keys::k_owner_part_id().len() != utf8_twin(crate::keys::k_lib_reference()).len()); }
            assert(crate::keys::k_owner_part_id() != utf8_twin(crate::keys::k_sheet_part_file_name())) by { assert(crate::keys::k_owner_part_id().len() != utf8_twin(crate::keys::k_sheet_part_file_name()).len()); }
            assert(crate::keys::k_owner_part_id() != utf8_twin(crate::keys::k_design_item_id())) by { assert(crate::keys::k_owner_part_id().len() != utf8_twin(crate::keys::k_design_item_id()).len()); }
            assert(crate::keys::k_owner_part_id() != utf8_twin(crate::keys::k_source_library_name())) by { assert(crate::keys::k_owner_part_id().len() != utf8_twin(crate::keys::k_source_library_name()).len()); }
            assert(crate::keys::k_owner_part_id() != utf8_twin(crate::keys::k_target_file_name())) by { assert(crate::keys::k_owner_part_id().len() != utf8_twin(crate::keys::k_target_file_name()).len()); }
            assert(crate::keys::k_part_count() != crate::keys::k_part_id_locked()) by { assert(crate::keys::k_part_count().len() != crate::keys::k_part_id_locked().len()); }
            assert(crate::keys::k_part_count() != crate::keys::k_not_use_db_table_name()) by { assert(crate::keys::k_part_count().len() != crate::keys::k_not_use_db_table_name().len()); }
            assert(crate::keys::k_part_count() != crate::keys::k_orientation()) by { assert(crate::keys::k_part_count().len() != crate::keys::k_orientation().len()); }
            assert(crate::keys::k_part_count() != crate::keys::k_sheet_part_file_name()) by { assert(crate::keys::k_part_count().len() != crate::keys::k_sheet_part_file_name().len()); }
            assert(crate::keys::k_part_count() != crate::keys::k_design_item_id()) by { assert(crate::keys::k_part_count().len() != crate::keys::k_design_item_id().len()); }
            assert(crate::keys::k_part_count() != crate::keys::k_source_library_name()) by { assert(crate::keys::k_part_count().len() != crate::keys::k_source_library_name().len()); }
            assert(crate::keys::k_part_count() != crate::keys::k_target_file_name()) by { assert(crate::keys::k_part_count().len() != crate::keys::k_target_file_name().len()); }
            assert(crate::keys::k_part_count() != crate::keys::k_location_x()) by { assert(crate::keys::k_part_count().len() != crate::keys::k_location_x().len()); }
            assert(crate::keys::k_part_count() != crate::keys::k_location_y()) by { assert(crate::keys::k_part_count().len() != crate::keys::k_location_y().len()); }
            assert(crate::keys::k_part_count() != crate::keys::k_unique_id()) by { assert(crate::keys::k_part_count().len() != crate::keys::k_unique_id().len()); }
            assert(crate::keys::k_part_count() != utf8_twin(crate::keys::k_database_table_name())) by { assert(crate::keys::k_part_count().len() != utf8_twin(crate::keys::k_database_table_name()).len()); }
            assert(crate::keys::k_part_count() != utf8_twin(crate::keys::k_component_description())) by { assert(crate::keys::k_part_count().len() != utf8_twin(crate::keys::k_component_description()).len()); }
            assert(crate::keys::k_part_count() != utf8_twin(crate::keys::k_library_path())) by { assert(crate::keys::k_part_count().len() != utf8_twin(crate::keys::k_library_path()).len()); }
            assert(crate::keys::k_part_count() != utf8_twin(crate::keys::k_lib_reference())) by { assert(crate::keys::k_part_count().len() != utf8_twin(crate::keys::k_lib_reference()).len()); }
            assert(crate::keys::k_part_count() != utf8_twin(crate::keys::k_sheet_part_file_name())) by { assert(crate::keys::k_part_count().len() != utf8_twin(crate::keys::k_sheet_part_file_name()).len()); }
            assert(crate::keys::k_part_count() != utf8_twin(crate::keys::k_design_item_id())) by { assert(crate::keys::k_part_count().len() != utf8_twin(crate::keys::k_design_item_id()).len()); }
            assert(crate::keys::k_part_count() != utf8_twin(crate::keys::k_source_library_name())) by { assert(crate::keys::k_part_count().len() != utf8_twin(crate::keys::k_source_library_name()).len()); }
            assert(crate::keys::k_part_count() != utf8_twin(crate::keys::k_target_file_name())) by { assert(crate::keys::k_part_count().len() != utf8_twin(crate::keys::k_target_file_name()).len()); }
            assert(crate::keys::k_part_id_locked() != crate::keys::k_not_use_db_table_name()) by { assert(crate::keys::k_part_id_locked().len() != crate::keys::k_not_use_db_table_name().len()); }
            assert(crate::keys::k_part_id_locked() != crate::keys::k_orientation()) by { assert(crate::keys::k_part_id_locked().len() != crate::keys::k_orientation().len()); }
            assert(crate::keys::k_part_id_locked() != crate::keys::k_sheet_part_file_name()) by { assert(crate::keys::k_part_id_locked().len() != crate::keys::k_sheet_part_file_name().len()); }
            assert(crate::keys::k_part_id_locked() != crate::keys::k_design_item_id()) by { assert(crate::keys::k_part_id_locked()[0] != crate::keys::k_design_item_id()[0]); }
            assert(crate::keys::k_part_id_locked() != crate::keys::k_source_library_name()) by { assert(crate::keys::k_part_id_locked().len() != crate::keys::k_source_library_name().len()); }
            assert(crate::keys::k_part_id_locked() != crate::keys::k_target_file_name()) by { assert(crate::keys::k_part_id_locked().len() != crate::keys::k_target_file_name().len()); }
            assert(crate::keys::k_part_id_locked() != crate::keys::k_location_x()) by { assert(crate::keys::k_part_id_locked().len() != crate::keys::k_location_x().len()); }
            assert(crate::keys::k_part_id_locked() != crate::keys::k_location_y()) by { assert(crate::keys::k_part_id_locked().len() != crate::keys::k_location_y().len()); }
            assert(crate::keys::k_part_id_locked() != crate::keys::k_unique_id()) by { assert(crate::keys::k_part_id_locked().len() != crate::keys::k_unique_id().len()); }
            assert(crate::keys::k_part_id_locked() != utf8_twin(crate::keys::k_database_table_name())) by { assert(crate::keys::k_part_id_locked().len() != utf8_twin(crate::keys::k_database_table_name()).len()); }
            assert(crate::keys::k_part_id_locked() != utf8_twin(crate::keys::k_component_description())) by { assert(crate::keys::k_part_id_locked().len() != utf8_twin(crate::keys::k_component_description()).len()); }
            assert(crate::keys::k_part_id_locked() != utf8_twin(crate::keys::k_library_path())) by { assert(crate::keys::k_part_id_locked().len() != utf8_twin(crate::keys::k_library_path()).len()); }
            assert(crate::keys::k_part_id_locked() != utf8_twin(crate::keys::k_lib_reference())) by { assert(crate::keys::k_part_id_locked().len() != utf8_twin(crate::keys::k_lib_reference()).len()); }
            assert(crate::keys::k_part_id_locked() != utf8_twin(crate::keys::k_sheet_part_file_name())) by { assert(crate::keys::k_part_id_locked().len() != utf8_twin(crate::keys::k_sheet_part_file_name()).len()); }
            assert(crate::keys::k_part_id_locked() != utf8_twin(crate::keys::k_design_item_id())) by { assert(crate::keys::k_part_id_locked().len() != utf8_twin(crate::keys::k_design_item_id()).len()); }
            assert(crate::keys::k_part_id_locked() != utf8_twin(crate::keys::k_source_library_name())) by { assert(crate::keys::k_part_id_locked().len() != utf8_twin(crate::keys::k_source_library_name()).len()); }
            assert(crate::keys::k_part_id_locked() != utf8_twin(crate::keys::k_target_file_name())) by { assert(crate::keys::k_part_id_locked().len() != utf8_twin(crate::keys::k_target_file_name()).len()); }
            assert(crate::keys::k_not_use_db_table_name() != crate::keys::k_orientation()) by { assert(crate::keys::k_not_use_db_table_name().len() != crate::keys::k_orientation().len()); }
            assert(crate::keys::k_not_use_db_table_name() != crate::keys::k_sheet_part_file_name()) by { assert(crate::keys::k_not_use_db_table_name()[0] != crate::keys::k_sheet_part_file_name()[0]); }
            assert(crate::keys::k_not_use_db_table_name() != crate::keys::k_design_item_id()) by { assert(crate::keys::k_not_use_db_table_name().len() != crate::keys::k_design_item_id().len()); }
            assert(crate::keys::k_not_use_db_table_name() != crate::keys::k_source_library_name()) by { assert(crate::keys::k_not_use_db_table_name()[0] != crate::keys::k_source_library_name()[0]); }
            assert(crate::keys::k_not_use_db_table_name() != crate::keys::k_target_file_name()) by { assert(crate::keys::k_not_use_db_table_name().len() != crate::keys::k_target_file_name().len()); }
            assert(crate::keys::k_not_use_db_table_name() != crate::keys::k_location_x()) by { assert(crate::keys::k_not_use_db_table_name().len() != crate::keys::k_location_x().len()); }
            assert(crate::keys::k_not_use_db_table_name() != crate::keys::k_location_y()) by { assert(crate::keys::k_not_use_db_table_name().len() != crate::keys::k_location_y().len()); }
            assert(crate::keys::k_not_use_db_table_name() != crate::keys::k_unique_id()) by { assert(crate::keys::k_not_use_db_table_name().len() != crate::keys::k_unique_id().len()); }
            assert(crate::keys::k_not_use_db_table_name() != utf8_twin(crate::keys::k_database_table_name())) by { assert(crate::keys::k_not_use_db_table_name().len() != utf8_twin(crate::keys::k_database_table_name()).len()); }
            assert(crate::keys::k_not_use_db_table_name() != utf8_twin(crate::keys::k_component_description())) by { assert(crate::keys::k_not_use_db_table_name().len() != utf8_twin(crate::keys::k_component_description()).len()); }
            assert(crate::keys::k_not_use_db_table_name() != utf8_twin(crate::keys::k_library_path())) by { assert(crate::keys::k_not_use_db_table_name()[0] != utf8_twin(crate::keys::k_library_path())[0]); }
            assert(crate::keys::k_not_use_db_table_name() != utf8_twin(crate::keys::k_lib_reference())) by { assert(crate::keys::k_not_use_db_table_name().len() != utf8_twin(crate::keys::k_lib_reference()).len()); }
            assert(crate::keys::k_not_use_db_table_name() != utf8_twin(crate::keys::k_sheet_part_file_name())) by { assert(crate::keys::k_not_use_db_table_name().len() != utf8_twin(crate::keys::k_sheet_part_file_name()).len()); }
            assert(crate::keys::k_not_use_db_table_name() != utf8_twin(crate::keys::k_design_item_id())) by { assert(crate::keys::k_not_use_db_table_name().len() != utf8_twin(crate::keys::k_design_item_id()).len()); }
            assert(crate::keys::k_not_use_db_table_name() != utf8_twin(crate::keys::k_source_library_name())) by { assert(crate::keys::k_not_use_db_table_name().len() != utf8_twin(crate::keys::k_source_library_name()).len()); }
            assert(crate::keys::k_not_use_db_table_name() != utf8_twin(crate::keys::k_target_file_name())) by { assert(crate::keys::k_not_use_db_table_name().len() != utf8_twin(crate::keys::k_target_file_name()).len()); }
            assert(crate::keys::k_orientation() != crate::keys::k_sheet_part_file_name()) by { assert(crate::keys::k_orientation().len() != crate::keys::k_sheet_part_file_name().len()); }
            assert(crate::keys::k_orientation() != crate::keys::k_design_item_id()) by { assert(crate::keys::k_orientation().len() != crate::keys::k_design_item_id().len()); }
            assert(crate::keys::k_orientation() != crate::keys::k_source_library_name()) by { assert(crate::keys::k_orientation().len() != crate::keys::k_source_library_name().len()); }
            assert(crate::keys::k_orientation() != crate::keys::k_target_file_name()) by { assert(crate::keys::k_orientation().len() != crate::keys::k_target_file_name().len()); }
            assert(crate::keys::k_orientation() != crate::keys::k_location_x()) by { assert(crate::keys::k_orientation().len() != crate::keys::k_location_x().len()); }
            assert(crate::keys::k_orientation() != crate::keys::k_location_y()) by { assert(crate::keys::k_orientation().len() != crate::keys::k_location_y().len()); }
            assert(crate::keys::k_orientation() != crate::keys::k_unique_id()) by { assert(crate::keys::k_orientation().len() != crate::keys::k_unique_id().len()); }
            assert(crate::keys::k_orientation() != utf8_twin(crate::keys::k_database_table_name())) by { assert(crate::keys::k_orientation().len() != utf8_twin(crate::keys::k_database_table_name()).len()); }
            assert(crate::keys::k_orientation() != utf8_twin(crate::keys::k_component_description())) by { assert(crate::keys::k_orientation().len() != utf8_twin(crate::keys::k_component_description()).len()); }
            assert(crate::keys::k_orientation() != utf8_twin(crate::keys::k_library_path())) by { assert(crate::keys::k_orientation().len() != utf8_twin(crate::keys::k_library_path()).len()); }
            assert(crate::keys::k_orientation() != utf8_twin(crate::keys::k_lib_reference())) by { assert(crate::keys::k_orientation().len() != utf8_twin(crate::keys::k_lib_reference()).len()); }
            assert(crate::keys::k_orientation() != utf8_twin(crate::keys::k_sheet_part_file_name())) by { assert(crate::keys::k_orientation().len() != utf8_twin(crate::keys::k_sheet_part_file_name()).len()); }
            assert(crate::keys::k_orientation() != utf8_twin(crate::keys::k_design_item_id())) by { assert(crate::keys::k_orientation().len() != utf8_twin(crate::keys::k_design_item_id()).len()); }
            assert(crate::keys::k_orientation() != utf8_twin(crate::keys::k_source_library_name())) by { assert(crate::keys::k_orientation().len() != utf8_twin(crate::keys::k_source_library_name()).len()); }
            assert(crate::keys::k_orientation() != utf8_twin(crate::keys::k_target_file_name())) by { assert(crate::keys::k_orientation().len() != utf8_twin(crate::keys::k_target_file_name()).len()); }
            assert(crate::keys::k_sheet_part_file_name() != crate::keys::k_design_item_id()) by { assert(crate::keys::k_sheet_part_file_name().len() != crate::keys::k_design_item_id().len()); }
            assert(crate::keys::k_sheet_part_file_name() != crate::keys::k_source_library_name()) by { assert(crate::keys::k_sheet_part_file_name()[1] != crate::keys::k_source_library_name()[1]); }
            assert(crate::keys::k_sheet_part_file_name() != crate::keys::k_target_file_name()) by { assert(crate::keys::k_sheet_part_file_name().len() != crate::keys::k_target_file_name().len()); }
            assert(crate::keys::k_sheet_part_file_name() != crate::keys::k_location_x()) by { assert(crate::keys::k_sheet_part_file_name().len() != crate::keys::k_location_x().len()); }
            assert(crate::keys::k_sheet_part_file_name() != crate::keys::k_location_y()) by { assert(crate::keys::k_sheet_part_file_name().len() != crate::keys::k_location_y().len()); }
            assert(crate::keys::k_sheet_part_file_name() != crate::keys::k_unique_id()) by { assert(crate::keys::k_sheet_part_file_name().len() != crate::keys::k_unique_id().len()); }
            assert(crate::keys::k_sheet_part_file_name() != utf8_twin(crate::keys::k_database_table_name())) by { assert(crate::keys::k_sheet_part_file_name().len() != utf8_twin(crate::keys::k_database_table_name()).len()); }
            assert(crate::keys::k_sheet_part_file_name() != utf8_twin(crate::keys::k_component_description())) by { assert(crate::keys::k_sheet_part_file_name().len() != utf8_twin(crate::keys::k_component_description()).len()); }
            assert(crate::keys::k_sheet_part_file_name() != utf8_twin(crate::keys::k_library_path())) by { assert(crate::keys::k_sheet_part_file_name()[0] != utf8_twin(crate::keys::k_library_path())[0]); }
            assert(crate::keys::k_sheet_part_file_name() != utf8_twin(crate::keys::k_lib_reference())) by { assert(crate::keys::k_sheet_part_file_name().len() != utf8_twin(crate::keys::k_lib_reference()).len()); }
            assert(crate::keys::k_sheet_part_file_name() != utf8_twin(crate::keys::k_sheet_part_file_name())) by { assert(crate::keys::k_sheet_part_file_name().len() != utf8_twin(crate::keys::k_sheet_part_file_name()).len()); }
            assert(crate::keys::k_sheet_part_file_name() != utf8_twin(crate::keys::k_design_item_id())) by { assert(crate::keys::k_sheet_part_file_name().len() != utf8_twin(crate::keys::k_design_item_id()).len()); }
            assert(crate::keys::k_sheet_part_file_name() != utf8_twin(crate::keys::k_source_library_name())) by { assert(crate::keys::k_sheet_part_file_name().len() != utf8_twin(crate::keys::k_source_library_name()).len()); }
            assert(crate::keys::k_sheet_part_file_name() != utf8_twin(crate::keys::k_target_file_name())) by { assert(crate::keys::k_sheet_part_file_name().len() != utf8_twin(crate::keys::k_target_file_name()).len()); }
            assert(crate::keys::k_design_item_id() != crate::keys::k_source_library_name()) by { assert(crate::keys::k_design_item_id().len() != crate::keys::k_source_library_name().len()); }
            assert(crate::keys::k_design_item_id() != crate::keys::k_target_file_name()) by { assert(crate::keys::k_design_item_id().len() != crate::keys::k_target_file_name().len()); }
            assert(crate::keys::k_design_item_id() != crate::keys::k_location_x()) by { assert(crate::keys::k_design_item_id().len() != crate::keys::k_location_x().len()); }
            assert(crate::keys::k_design_item_id() != crate::keys::k_location_y()) by { assert(crate::keys::k_design_item_id().len() != crate::keys::k_location_y().len()); }
            assert(crate::keys::k_design_item_id() != crate::keys::k_unique_id()) by { assert(crate::keys::k_design_item_id().len() != crate::keys::k_unique_id().len()); }
            assert(crate::keys::k_design_item_id() != utf8_twin(crate::keys::k_database_table_name())) by { assert(crate::keys::k_design_item_id().len() != utf8_twin(crate::keys::k_database_table_name()).len()); }
            assert(crate::keys::k_design_item_id() != utf8_twin(crate::keys::k_component_description())) by { assert(crate::keys::k_design_item_id().len() != utf8_twin(crate::keys::k_component_description()).len()); }
            assert(crate::keys::k_design_item_id() != utf8_twin(crate::keys::k_library_path())) by { assert(crate::keys::k_design_item_id().len() != utf8_twin(crate::keys::k_library_path()).len()); }
            assert(crate::keys::k_design_item_id() != utf8_twin(crate::keys::k_lib_reference())) by { assert(crate::keys::k_design_item_id().len() != utf8_twin(crate::keys::k_lib_reference()).len()); }
            assert(crate::keys::k_design_item_id() != utf8_twin(crate::keys::k_sheet_part_file_name())) by { assert(crate::keys::k_design_item_id().len() != utf8_twin(crate::keys::k_sheet_part_file_name()).len()); }
            assert(crate::keys::k_design_item_id() != utf8_twin(crate::keys::k_design_item_id())) by { assert(crate::keys::k_design_item_id().len() != utf8_twin(crate::keys::k_design_item_id()).len()); }
            assert(crate::keys::k_design_item_id() != utf8_twin(crate::keys::k_source_library_name())) by { assert(crate::keys::k_design_item_id().len() != utf8_twin(crate::keys::k_source_library_name()).len()); }
            assert(crate::keys::k_design_item_id() != utf8_twin(crate::keys::k_target_file_name())) by { assert(crate::keys::k_design_item_id().len() != utf8_twin(crate::keys::k_target_file_name()).len()); }
            assert(crate::keys::k_source_library_name() != crate::keys::k_target_file_name()) by { assert(crate::keys::k_source_library_name().len() != crate::keys::k_target_file_name().len()); }
            assert(crate::keys::k_source_library_name() != crate::keys::k_location_x()) by { assert(crate::keys::k_source_library_name().len() != crate::keys::k_location_x().len()); }
            assert(crate::keys::k_source_library_name() != crate::keys::k_location_y()) by { assert(crate::keys::k_source_library_name().len() != crate::keys::k_location_y().len()); }
            assert(crate::keys::k_source_library_name() != crate::keys::k_unique_id()) by { assert(crate::keys::k_source_library_name().len() != crate::keys::k_unique_id().len()); }
            assert(crate::keys::k_source_library_name() != utf8_twin(crate::keys::k_database_table_name())) by { assert(crate::keys::k_source_library_name().len() != utf8_twin(crate::keys::k_database_table_name()).len()); }
            assert(crate::keys::k_source_library_name() != utf8_twin(crate::keys::k_component_description())) by { assert(crate::keys::k_source_library_name().len() != utf8_twin(crate::keys::k_component_description()).len()); }
            assert(crate::keys::k_source_library_name() != utf8_twin(crate::keys::k_library_path())) by { assert(crate::keys::k_source_library_name()[0] != utf8_twin(crate::keys::k_library_path())[0]); }
            assert(crate::keys::k_source_library_name() != utf8_twin(crate::keys::k_lib_reference())) by { assert(crate::keys::k_source_library_name().len() != utf8_twin(crate::keys::k_lib_reference()).len()); }
            assert(crate::keys::k_source_library_name() != utf8_twin(crate::keys::k_sheet_part_file_name())) by { assert(crate::keys::k_source_library_name().len() != utf8_twin(crate::keys::k_sheet_part_file_name()).len()); }
            assert(crate::keys::k_source_library_name() != utf8_twin(crate::keys::k_design_item_id())) by { assert(crate::keys::k_source_library_name().len() != utf8_twin(crate::keys::k_design_item_id()).len()); }
            assert(crate::keys::k_source_library_name() != utf8_twin(crate::keys::k_source_library_name())) by { assert(crate::keys::k_source_library_name().len() != utf8_twin(crate::keys::k_source_library_name()).len()); }
            assert(crate::keys::k_source_library_name() != utf8_twin(crate::keys::k_target_file_name())) by { assert(crate::keys::k_source_library_name().len() != utf8_twin(crate::keys::k_target_file_name()).len()); }
            assert(crate::keys::k_target_file_name() != crate::keys::k_location_x()) by { assert(crate::keys::k_target_file_name().len() != crate::keys::k_location_x().len()); }
            assert(crate::keys::k_target_file_name() != crate::keys::k_location_y()) by { assert(crate::keys::k_target_file_name().len() != crate::keys::k_location_y().len()); }
            assert(crate::keys::k_target_file_name() != crate::keys::k_unique_id()) by { assert(crate::keys::k_target_file_name().len() != crate::keys::k_unique_id().len()); }
            assert(crate::keys::k_target_file_name() != utf8_twin(crate::keys::k_database_table_name())) by { assert(crate::keys::k_target_file_name().len() != utf8_twin(crate::keys::k_database_table_name()).len()); }
            assert(crate::keys::k_target_file_name() != utf8_twin(crate::keys::k_component_description())) by { assert(crate::keys::k_target_file_name().len() != utf8_twin(crate::keys::k_component_description()).len()); }
            assert(crate::keys::k_target_file_name() != utf8_twin(crate::keys::k_library_path())) by { assert(crate::keys::k_target_file_name().len() != utf8_twin(crate::keys::k_library_path()).len()); }
            assert(crate::keys::k_target_file_name() != utf8_twin(crate::keys::k_lib_reference())) by { assert(crate::keys::k_target_file_name().len() != utf8_twin(crate::keys::k_lib_reference()).len()); }
            assert(crate::keys::k_target_file_name() != utf8_twin(crate::keys::k_sheet_part_file_name())) by { assert(crate::keys::k_target_file_name().len() != utf8_twin(crate::keys::k_sheet_part_file_name()).len()); }
            assert(crate::keys::k_target_file_name() != utf8_twin(crate::keys::k_design_item_id())) by { assert(crate::keys::k_target_file_name().len() != utf8_twin(crate::keys::k_design_item_id()).len()); }
            assert(crate::keys::k_target_file_name() != utf8_twin(crate::keys::k_source_library_name())) by { assert(crate::keys::k_target_file_name().len() != utf8_twin(crate::keys::k_source_library_name()).len()); }
            assert(crate::keys::k_target_file_name() != utf8_twin(crate::keys::k_target_file_name())) by { assert(crate::keys::k_target_file_name().len() != utf8_twin(crate::keys::k_target_file_name()).len()); }
            assert(crate::keys::k_location_x() != crate::keys::k_location_y()) by { assert(crate::keys::k_location_x()[9] != crate::keys::k_location_y()[9]); }
            assert(crate::keys::k_location_x() != crate::keys::k_unique_id()) by { assert(crate::keys::k_location_x().len() != crate::keys::k_unique_id().len()); }
            assert(crate::keys::k_location_x() != utf8_twin(crate::keys::k_database_table_name())) by { assert(crate::keys::k_location_x().len() != utf8_twin(crate::keys::k_database_table_name()).len()); }
            assert(crate::keys::k_location_x() != utf8_twin(crate::keys::k_component_description())) by { assert(crate::keys::k_location_x().len() != utf8_twin(crate::keys::k_component_description()).len()); }
            assert(crate::keys::k_location_x() != utf8_twin(crate::keys::k_library_path())) by { assert(crate::keys::k_location_x().len() != utf8_twin(crate::keys::k_library_path()).len()); }
            assert(crate::keys::k_location_x() != utf8_twin(crate::keys::k_lib_reference())) by { assert(crate::keys::k_location_x().len() != utf8_twin(crate::keys::k_lib_reference()).len()); }
            assert(crate::keys::k_location_x() != utf8_twin(crate::keys::k_sheet_part_file_name())) by { assert(crate::keys::k_location_x().len() != utf8_twin(crate::keys::k_sheet_part_file_name()).len()); }
            assert(crate::keys::k_location_x() != utf8_twin(crate::keys::k_design_item_id())) by { assert(crate::keys::k_location_x().len() != utf8_twin(crate::keys::k_design_item_id()).len()); }
            assert(crate::keys::k_location_x() != utf8_twin(crate::keys::k_source_library_name())) by { assert(crate::keys::k_location_x().len() != utf8_twin(crate::keys::k_source_library_name()).len()); }
            assert(crate::keys::k_location_x() != utf8_twin(crate::keys::k_target_file_name())) by { assert(crate::keys::k_location_x().len() != utf8_twin(crate::keys::k_target_file_name()).len()); }
            assert(crate::keys::k_location_y() != crate::keys::k_unique_id()) by { assert(crate::keys::k_location_y().len() != crate::keys::k_unique_id().len()); }
            assert(crate::keys::k_location_y() != utf8_twin(crate::keys::k_database_table_name())) by { assert(crate::keys::k_location_y().len() != utf8_twin(crate::keys::k_database_table_name()).len()); }
            assert(crate::keys::k_location_y() != utf8_twin(crate::keys::k_component_description())) by { assert(crate::keys::k_location_y().len() != utf8_twin(crate::keys::k_component_description()).len()); }
            assert(crate::keys::k_location_y() != utf8_twin(crate::keys::k_library_path())) by { assert(crate::keys::k_location_y().len() != utf8_twin(crate::keys::k_library_path()).len()); }
            assert(crate::keys::k_location_y() != utf8_twin(crate::keys::k_lib_reference())) by { assert(crate::keys::k_location_y().len() != utf8_twin(crate::keys::k_lib_reference()).len()); }
            assert(crate::keys::k_location_y() != utf8_twin(crate::keys::k_sheet_part_file_name())) by { assert(crate::keys::k_location_y().len() != utf8_twin(crate::keys::k_sheet_part_file_name()).len()); }
            assert(crate::keys::k_location_y() != utf8_twin(crate::keys::k_design_item_id())) by { assert(crate::keys::k_location_y().len() != utf8_twin(crate::keys::k_design_item_id()).len()); }
            assert(crate::keys::k_location_y() != utf8_twin(crate::keys::k_source_library_name())) by { assert(crate::keys::k_location_y().len() != utf8_twin(crate::keys::k_source_library_name()).len()); }
            assert(crate::keys::k_location_y() != utf8_twin(crate::keys::k_target_file_name())) by { assert(crate::keys::k_location_y().len() != utf8_twin(crate::keys::k_target_file_name()).len()); }
            assert(crate::keys::k_unique_id() != utf8_twin(crate::keys::k_database_table_name())) by { assert(crate::keys::k_unique_id().len() != utf8_twin(crate::keys::k_database_table_name()).len()); }
            assert(crate::keys::k_unique_id() != utf8_twin(crate::keys::k_component_description())) by { assert(crate::keys::k_unique_id().len() != utf8_twin(crate::keys::k_component_description()).len()); }
            assert(crate::keys::k_unique_id() != utf8_twin(crate::keys::k_library_path())) by { assert(crate::keys::k_unique_id().len() != utf8_twin(crate::keys::k_library_path()).len()); }
            assert(crate::keys::k_unique_id() != utf8_twin(crate::keys::k_lib_reference())) by { assert(crate::keys::k_unique_id().len() != utf8_twin(crate::keys::k_lib_reference()).len()); }
            assert(crate::keys::k_unique_id() != utf8_twin(crate::keys::k_sheet_part_file_name())) by { assert(crate::keys::k_unique_id().len() != utf8_twin(crate::keys::k_sheet_part_file_name()).len()); }
            assert(crate::keys::k_unique_id() != utf8_twin(crate::keys::k_design_item_id())) by { assert(crate::keys::k_unique_id().len() != utf8_twin(crate::keys::k_design_item_id()).len()); }
            assert(crate::keys::k_unique_id() != utf8_twin(crate::keys::k_source_library_name())) by { assert(crate::keys::k_unique_id().len() != utf8_twin(crate::keys::k_source_library_name()).len()); }
            assert(crate::keys::k_unique_id() != utf8_twin(crate::keys::k_target_file_name())) by { assert(crate::keys::k_unique_id().len() != utf8_twin(crate::keys::k_target_file_name()).len()); }
            assert(utf8_twin(crate::keys::k_database_table_name()) != utf8_twin(crate::keys::k_component_description())) by { assert(utf8_twin(crate::keys::k_database_table_name()).len() != utf8_twin(crate::keys::k_component_description()).len()); }
            assert(utf8_twin(crate::keys::k_database_table_name()) != utf8_twin(crate::keys::k_library_path())) by { assert(utf8_twin(crate::keys::k_database_table_name()).len() != utf8_twin(crate::keys::k_library_path()).len()); }
            assert(utf8_twin(crate::keys::k_database_table_name()) != utf8_twin(crate::keys::k_lib_reference())) by { assert(utf8_twin(crate::keys::k_database_table_name()).len() != utf8_twin(crate::keys::k_lib_reference()).len()); }
            assert(utf8_twin(crate::keys::k_database_table_name()) != utf8_twin(crate::keys::k_sheet_part_file_name())) by { assert(utf8_twin(crate::keys::k_database_table_name())[6] != utf8_twin(crate::keys::k_sheet_part_file_name())[6]); }
            assert(utf8_twin(crate::keys::k_database_table_name()) != utf8_twin(crate::keys::k_design_item_id())) by { assert(utf8_twin(crate::keys::k_database_table_name()).len() != utf8_twin(crate::keys::k_design_item_id()).len()); }
            assert(utf8_twin(crate::keys::k_database_table_name()) != utf8_twin(crate::keys::k_source_library_name())) by { assert(utf8_twin(crate::keys::k_database_table_name())[6] != utf8_twin(crate::keys::k_source_library_name())[6]); }
            assert(utf8_twin(crate::keys::k_database_table_name()) != utf8_twin(crate::keys::k_target_file_name())) by { assert(utf8_twin(crate::keys::k_database_table_name()).len() != utf8_twin(crate::keys::k_target_file_name()).len()); }
            assert(utf8_twin(crate::keys::k_component_description()) != utf8_twin(crate::keys::k_library_path())) by { assert(utf8_twin(crate::keys::k_component_description()).len() != utf8_twin(crate::keys::k_library_path()).len()); }
            assert(utf8_twin(crate::keys::k_component_description()) != utf8_twin(crate::keys::k_lib_reference())) by { assert(utf8_twin(crate::keys::k_component_description()).len() != utf8_twin(crate::keys::k_lib_reference()).len()); }
            assert(utf8_twin(crate::keys::k_component_description()) != utf8_twin(crate::keys::k_sheet_part_file_name())) by { assert(utf8_twin(crate::keys::k_component_description()).len() != utf8_twin(crate::keys::k_sheet_part_file_name()).len()); }
            assert(utf8_twin(crate::keys::k_component_description()) != utf8_twin(crate::keys::k_design_item_id())) by { assert(utf8_twin(crate::keys::k_component_description()).len() != utf8_twin(crate::keys::k_design_item_id()).len()); }
            assert(utf8_twin(crate::keys::k_component_description()) != utf8_twin(crate::keys::k_source_library_name())) by { assert(utf8_twin(crate::keys::k_component_description()).len() != utf8_twin(crate::keys::k_source_library_name()).len()); }
            assert(utf8_twin(crate::keys::k_component_description()) != utf8_twin(crate::keys::k_target_file_name())) by { assert(utf8_twin(crate::keys::k_component_description()).len() != utf8_twin(crate::keys::k_target_file_name()).len()); }
            assert(utf8_twin(crate::keys::k_library_path()) != utf8_twin(crate::keys::k_lib_reference())) by { assert(utf8_twin(crate::keys::k_library_path()).len() != utf8_twin(crate::keys::k_lib_reference()).len()); }
            assert(utf8_twin(crate::keys::k_library_path()) != utf8_twin(crate::keys::k_sheet_part_file_name())) by { assert(utf8_twin(crate::keys::k_library_path()).len() != utf8_twin(crate::keys::k_sheet_part_file_name()).len()); }
            assert(utf8_twin(crate::keys::k_library_path()) != utf8_twin(crate::keys::k_design_item_id())) by { assert(utf8_twin(crate::keys::k_library_path()).len() != utf8_twin(crate::keys::k_design_item_id()).len()); }
            assert(utf8_twin(crate::keys::k_library_path()) != utf8_twin(crate::keys::k_source_library_name())) by { assert(utf8_twin(crate::keys::k_library_path()).len() != utf8_twin(crate::keys::k_source_library_name()).len()); }
            assert(utf8_twin(crate::keys::k_library_path()) != utf8_twin(crate::keys::k_target_file_name())) by { assert(utf8_twin(crate::keys::k_library_path()).len() != utf8_twin(crate::keys::k_target_file_name()).len()); }
            assert(utf8_twin(crate::keys::k_lib_reference()) != utf8_twin(crate::keys::k_sheet_part_file_name())) by { assert(utf8_twin(crate::keys::k_lib_reference()).len() != utf8_twin(crate::keys::k_sheet_part_file_name()).len()); }
            assert(utf8_twin(crate::keys::k_lib_reference()) != utf8_twin(crate::keys::k_design_item_id())) by { assert(utf8_twin(crate::keys::k_lib_reference())[6] != utf8_twin(crate::keys::k_design_item_id())[6]); }
            assert(utf8_twin(crate::keys::k_lib_reference()) != utf8_twin(crate::keys::k_source_library_name())) by { assert(utf8_twin(crate::keys::k_lib_reference()).len() != utf8_twin(crate::keys::k_source_library_name()).len()); }
            assert(utf8_twin(crate::keys::k_lib_reference()) != utf8_twin(crate::keys::k_target_file_name())) by { assert(utf8_twin(crate::keys::k_lib_reference()).len() != utf8_twin(crate::keys::k_target_file_name()).len()); }
            assert(utf8_twin(crate::keys::k_sheet_part_file_name()) != utf8_twin(crate::keys::k_design_item_id())) by { assert(utf8_twin(crate::keys::k_sheet_part_file_name()).len() != utf8_twin(crate::keys::k_design_item_id()).len()); }
            assert(utf8_twin(crate::keys::k_sheet_part_file_name()) != utf8_twin(crate::keys::k_source_library_name())) by { assert(utf8_twin(crate::keys::k_sheet_part_file_name())[7] != utf8_twin(crate::keys::k_source_library_name())[7]); }
            assert(utf8_twin(crate::keys::k_sheet_part_file_name()) != utf8_twin(crate::keys::k_target_file_name())) by { assert(utf8_twin(crate::keys::k_sheet_part_file_name()).len() != utf8_twin(crate::keys::k_target_file_name()).len()); }
            assert(utf8_twin(crate::keys::k_design_item_id()) != utf8_twin(crate::keys::k_source_library_name())) by { assert(utf8_twin(crate::keys::k_design_item_id()).len() != utf8_twin(crate::keys::k_source_library_name()).len()); }
            assert(utf8_twin(crate::keys::k_design_item_id()) != utf8_twin(crate::keys::k_target_file_name())) by { assert(utf8_twin(crate::keys::k_design_item_id()).len() != utf8_twin(crate::keys::k_target_file_name()).len()); }
            assert(utf8_twin(crate::keys::k_source_library_name()) != utf8_twin(crate::keys::k_target_file_name())) by { assert(utf8_twin(crate::keys::k_source_library_name()).len() != utf8_twin(crate::keys::k_target_file_name()).len()); }
        }
        if crate::common::bytes_eq(key, a_all_pin_count.as_slice()) {
                    match crate::parse::parse_u32(val) {
                        Ok(v) => { x.all_pin_count = v; },
                        Err(e) => {
                            proof {
                                assert(p[i].0 == crate::keys::k_all_pin_count());
                                assert(kind_field_fails(p, FieldKind::U32, crate::keys::k_all_pin_count()));
                            }
                            return Err(e);
                        },
                    }
                }
        else if crate::common::bytes_eq(key, a_area_color.as_slice()) {
                    match Rgb::from_utf8(val) {
                        Ok(v) => { x.area_color = v; },
                        Err(e) => {
                            proof {
                                assert(p[i].0 == crate::keys::k_area_color());
                                assert(kind_field_fails(p, FieldKind::Color, crate::keys::k_area_color()));
                            }
                            return Err(e);
                        },
                    }
                }
        else if crate::common::bytes_eq(key, a_color.as_slice()) {
                    match Rgb::from_utf8(val) {
                        Ok(v) => { x.color = v; },
                        Err(e) => {
                            proof {
                                assert(p[i].0 == crate::keys::k_color());
                                assert(kind_field_fails(p, FieldKind::Color, crate::keys::k_color()));
                            }
                            return Err(e);
                        },
                    }
                }
        else if crate::common::bytes_eq(key, a_current_part_id.as_slice()) {
                    match crate::parse::parse_u8(val) {
                        Ok(v) => { x.current_part_id = v; },
                        Err(e) => {
                            proof {
                                assert(p[i].0 == crate::keys::k_current_part_id());
                                assert(kind_field_fails(p, FieldKind::U8, crate::keys::k_current_part_id()));
                            }
                            return Err(e);
                        },
                    }
                }
        else if crate::common::bytes_eq(key, t_database_table_name.as_slice()) {
                    match crate::common::str_from_utf8(val) {
                        Ok(s) => { x.database_table_name = s; *seen_database_table_name = true; },
                        Err(e) => {
                            proof {
                                assert(p[i].0 == utf8_twin(crate::keys::k_database_table_name()));
                                assert(str_field_fails(p, crate::keys::k_database_table_name()));
                            }
                            return Err(e);
                        },
                    }
                } else if crate::common::bytes_eq(key, a_database_table_name.as_slice()) {
                    if !*seen_database_table_name {
                        match crate::common::str_from_utf8(val) {
                            Ok(s) => { x.database_table_name = s; },
                            Err(e) => {
                                proof {
                                    assert(p[i].0 == crate::keys::k_database_table_name());
                                    assert(!has_key(p.take(i), utf8_twin(crate::keys::k_database_table_name())));
                                    assert(str_field_fails(p, crate::keys::k_database_table_name()));
                                }
                                return Err(e);
                            },
                        }
                    }
                }
        else if crate::common::bytes_eq(key, t_component_description.as_slice()) {
                    match crate::common::str_from_utf8(val) {
                        Ok(s) => { x.description = Some(s); *seen_description = true; },
                        Err(e) => {
                            proof {
                                assert(p[i].0 == utf8_twin(crate::keys::k_component_description()));
                                assert(str_field_fails(p, crate::keys::k_component_description()));
                            }
                            return Err(e);
                        },
                    }
                } else if crate::common::bytes_eq(key, a_component_description.as_slice()) {
                    if !*seen_description {
                        match crate::common::str_from_utf8(val) {
                            Ok(s) => { x.description = Some(s); },
                            Err(e) => {
                                proof {
                                    assert(p[i].0 == crate::keys::k_component_description());
                                    assert(!has_key(p.take(i), utf8_twin(crate::keys::k_component_description())));
                                    assert(str_field_fails(p, crate::keys::k_component_description()));
                                }
                                return Err(e);
                            },
                        }
                    }
                }
        else if crate::common::bytes_eq(key, a_display_mode_count.as_slice()) {
                    match crate::parse::parse_u8(val) {
                        Ok(v) => { x.display_mode_count = v; },
                        Err(e) => {
                            proof {
                                assert(p[i].0 == crate::keys::k_display_mode_count());
                                assert(kind_field_fails(p, FieldKind::U8, crate::keys::k_display_mode_count()));
                            }
                            return Err(e);
                        },
                    }
                }
        else if crate::common::bytes_eq(key, a_index_in_sheet.as_slice()) {
                    match crate::parse::parse_i16(val) {
                        Ok(v) => { x.index_in_sheet = v; },
                        Err(e) => {
                            proof {
                                assert(p[i].0 == crate::keys::k_index_in_sheet());
                                assert(kind_field_fails(p, FieldKind::I16, crate::keys::k_index_in_sheet()));
                            }
                            return Err(e);
                        },
                    }
                }
        else if crate::common::bytes_eq(key, t_library_path.as_slice()) {
                    match crate::common::str_from_utf8(val) {
                        Ok(s) => { x.library_path = s; *seen_library_path = true; },
                        Err(e) => {
                            proof {
                                assert(p[i].0 == utf8_twin(crate::keys::k_library_path()));
                                assert(str_field_fails(p, crate::keys::k_library_path()));
                            }
                            return Err(e);
                        },
                    }
                } else if crate::common::bytes_eq(key, a_library_path.as_slice()) {
                    if !*seen_library_path {
                        match crate::common::str_from_utf8(val) {
                            Ok(s) => { x.library_path = s; },
                            Err(e) => {
                                proof {
                                    assert(p[i].0 == crate::keys::k_library_path());
                                    assert(!has_key(p.take(i), utf8_twin(crate::keys::k_library_path())));
                                    assert(str_field_fails(p, crate::keys::k_library_path()));
                                }
                                return Err(e);
                            },
                        }
                    }
                }
        else if crate::common::bytes_eq(key, t_lib_reference.as_slice()) {
                    match crate::common::str_from_utf8(val) {
                        Ok(s) => { x.libref = s; *seen_libref = true; },
                        Err(e) => {
                            proof {
                                assert(p[i].0 == utf8_twin(crate::keys::k_lib_reference()));
                                assert(str_field_fails(p, crate::keys::k_lib_reference()));
                            }
                            return Err(e);
                        },
                    }
                } else if crate::common::bytes_eq(key, a_lib_reference.as_slice()) {
                    if !*seen_libref {
                        match crate::common::str_from_utf8(val) {
                            Ok(s) => { x.libref = s; },
                            Err(e) => {
                                proof {
                                    assert(p[i].0 == crate::keys::k_lib_reference());
                                    assert(!has_key(p.take(i), utf8_twin(crate::keys::k_lib_reference())));
                                    assert(str_field_fails(p, crate::keys::k_lib_reference()));
                                }
                                return Err(e);
                            },
                        }
                    }
                }
        else if crate::common::bytes_eq(key, a_owner_part_id.as_slice()) {
                    match crate::parse::parse_i8(val) {
                        Ok(v) => { x.owner_part_id = v; },
                        Err(e) => {
                            proof {
                                assert(p[i].0 == crate::keys::k_owner_part_id());
                                assert(kind_field_fails(p, FieldKind::I8, crate::keys::k_owner_part_id()));
                            }
                            return Err(e);
                        },
                    }
                }
        else if crate::common::bytes_eq(key, a_part_count.as_slice()) {
                    match crate::parse::parse_u8(val) {
                        Ok(v) => { x.part_count = v; },
                        Err(e) => {
                            proof {
                                assert(p[i].0 == crate::keys::k_part_count());
                                assert(kind_field_fails(p, FieldKind::U8, crate::keys::k_part_count()));
                            }
                            return Err(e);
                        },
                    }
                }
        else if crate::common::bytes_eq(key, a_part_id_locked.as_slice()) {
                    match crate::parse::parse_bool(val) {
                        Ok(v) => { x.part_id_locked = v; },
                        Err(e) => {
                            proof {
                                assert(p[i].0 == crate::keys::k_part_id_locked());
                                assert(kind_field_fails(p, FieldKind::Bool, crate::keys::k_part_id_locked()));
                            }
                            return Err(e);
                        },
                    }
                }
        else if crate::common::bytes_eq(key, a_not_use_db_table_name.as_slice()) {
                    match crate::parse::parse_bool(val) {
                        Ok(v) => { x.not_use_db_table_name = v; },
                        Err(e) => {
                            proof {
                                assert(p[i].0 == crate::keys::k_not_use_db_table_name());
                                assert(kind_field_fails(p, FieldKind::Bool, crate::keys::k_not_use_db_table_name()));
                            }
                            return Err(e);
                        },
                    }
                }
        else if crate::common::bytes_eq(key, a_orientation.as_slice()) {
                    match crate::parse::parse_i32(val) {
                        Ok(v) => { x.orientation = v; },
                        Err(e) => {
                            proof {
                                assert(p[i].0 == crate::keys::k_orientation());
                                assert(kind_field_fails(p, FieldKind::I32, crate::keys::k_orientation()));
                            }
                            return Err(e);
                        },
                    }
                }
        else if crate::common::bytes_eq(key, t_sheet_part_file_name.as_slice()) {
                    match crate::common::str_from_utf8(val) {
                        Ok(s) => { x.sheet_part_file_name = s; *seen_sheet_part_file_name = true; },
                        Err(e) => {
                            proof {
                                assert(p[i].0 == utf8_twin(crate::keys::k_sheet_part_file_name()));
                                assert(str_field_fails(p, crate::keys::k_sheet_part_file_name()));
                            }
                            return Err(e);
                        },
                    }
                } else if crate::common::bytes_eq(key, a_sheet_part_file_name.as_slice()) {
                    if !*seen_sheet_part_file_name {
                        match crate::common::str_from_utf8(val) {
                            Ok(s) => { x.sheet_part_file_name = s; },
                            Err(e) => {
                                proof {
                                    assert(p[i].0 == crate::keys::k_sheet_part_file_name());
                                    assert(!has_key(p.take(i), utf8_twin(crate::keys::k_sheet_part_file_name())));
                                    assert(str_field_fails(p, crate::keys::k_sheet_part_file_name()));
                                }
                                return Err(e);
                            },
                        }
                    }
                }
        else if crate::common::bytes_eq(key, t_design_item_id.as_slice()) {
                    match crate::common::str_from_utf8(val) {
                        Ok(s) => { x.design_item_id = s; *seen_design_item_id = true; },
                        Err(e) => {
                            proof {
                                assert(p[i].0 == utf8_twin(crate::keys::k_design_item_id()));
                                assert(str_field_fails(p, crate::keys::k_design_item_id()));
                            }
                            return Err(e);
                        },
                    }
                } else if crate::common::bytes_eq(key, a_design_item_id.as_slice()) {
                    if !*seen_design_item_id {
                        match crate::common::str_from_utf8(val) {
                            Ok(s) => { x.design_item_id = s; },
                            Err(e) => {
                                proof {
                                    assert(p[i].0 == crate::keys::k_design_item_id());
                                    assert(!has_key(p.take(i), utf8_twin(crate::keys::k_design_item_id())));
                                    assert(str_field_fails(p, crate::keys::k_design_item_id()));
                                }
                                return Err(e);
                            },
                        }
                    }
                }
        else if crate::common::bytes_eq(key, t_source_library_name.as_slice()) {
                    match crate::common::str_from_utf8(val) {
                        Ok(s) => { x.source_library_name = s; *seen_source_library_name = true; },
                        Err(e) => {
                            proof {
                                assert(p[i].0 == utf8_twin(crate::keys::k_source_library_name()));
                                assert(str_field_fails(p, crate::keys::k_source_library_name()));
                            }
                            return Err(e);
                        },
                    }
                } else if crate::common::bytes_eq(key, a_source_library_name.as_slice()) {
                    if !*seen_source_library_name {
                        match crate::common::str_from_utf8(val) {
                            Ok(s) => { x.source_library_name = s; },
                            Err(e) => {
                                proof {
                                    assert(p[i].0 == crate::keys::k_source_library_name());
                                    assert(!has_key(p.take(i), utf8_twin(crate::keys::k_source_library_name())));
                                    assert(str_field_fails(p, crate::keys::k_source_library_name()));
                                }
                                return Err(e);
                            },
                        }
                    }
                }
        else if crate::common::bytes_eq(key, t_target_file_name.as_slice()) {
                    match crate::common::str_from_utf8(val) {
                        Ok(s) => { x.target_file_name = s; *seen_target_file_name = true; },
                        Err(e) => {
                            proof {
                                assert(p[i].0 == utf8_twin(crate::keys::k_target_file_name()));
                                assert(str_field_fails(p, crate::keys::k_target_file_name()));
                            }
                            return Err(e);
                        },
                    }
                } else if crate::common::bytes_eq(key, a_target_file_name.as_slice()) {
                    if !*seen_target_file_name {
                        match crate::common::str_from_utf8(val) {
                            Ok(s) => { x.target_file_name = s; },
                            Err(e) => {
                                proof {
                                    assert(p[i].0 == crate::keys::k_target_file_name());
                                    assert(!has_key(p.take(i), utf8_twin(crate::keys::k_target_file_name())));
                                    assert(str_field_fails(p, crate::keys::k_target_file_name()));
                                }
                                return Err(e);
                            },
                        }
                    }
                }
        else if crate::common::bytes_eq(key, a_location_x.as_slice()) {
                    match crate::parse::parse_i32(val) {
                        Ok(v) => { x.location.x = v; },
                        Err(e) => {
                            proof {
                                assert(p[i].0 == crate::keys::k_location_x());
                                assert(kind_field_fails(p, FieldKind::I32, crate::keys::k_location_x()));
                            }
                            return Err(e);
                        },
                    }
                }
        else if crate::common::bytes_eq(key, a_location_y.as_slice()) {
                    match crate::parse::parse_i32(val) {
                        Ok(v) => { x.location.y = v; },
                        Err(e) => {
                            proof {
                                assert(p[i].0 == crate::keys::k_location_y());
                                assert(kind_field_fails(p, FieldKind::I32, crate::keys::k_location_y()));
                            }
                            return Err(e);
                        },
                    }
                }
        else if crate::common::bytes_eq(key, a_unique_id.as_slice()) {
                    match UniqueId::from_utf8(val) {
                        Ok(v) => { x.unique_id = v; },
                        Err(e) => {
                            proof {
                                assert(p[i].0 == crate::keys::k_unique_id());
                                assert(kind_field_fails(p, FieldKind::Uid, crate::keys::k_unique_id()));
                            }
                            return Err(e);
                        },
                    }
                }
        else {
            crate::logging::macro_unsupported_key(counter, "MetaData", key, val);
        }
        Ok(())
    }

    /// Bind the fields of one `MetaData` record from its key-value pairs.
    #[verifier::loop_isolation(false)]
    #[verifier::rlimit(100)]
    pub fn from_record(pairs: &[(Vec<u8>, Vec<u8>)], counter: &mut UnsupportedCounter) -> (r:
        Result<MetaData, ErrorKind>)
        ensures
            r is Ok <==> !MetaData::spec_fails(pairs_view(pairs@)),
            r is Ok ==> MetaData::spec_matches(r->Ok_0, pairs_view(pairs@)),
            r is Ok ==> final(counter).count == sat_add(
                old(counter).count,
                MetaData::spec_unknown(pairs_view(pairs@)),
            ),
            final(counter).count >= old(counter).count,
    {
        let ghost p = pairs_view(pairs@);
        proof {
            crate::common::lemma_pairs_view(pairs@);
            assert(p.take(0) =~= Seq::<(Seq<u8>, Seq<u8>)>::empty());
        }
        let mut x = MetaData {
            all_pin_count: 0,
            area_color: Rgb { r: 0, g: 0, b: 0 },
            color: Rgb { r: 0, g: 0, b: 0 },
            current_part_id: 0,
            database_table_name: String::new(),
            description: None,
            display_mode_count: 0,
            index_in_sheet: 0,
            library_path: String::new(),
            libref: String::new(),
            owner_part_id: 0,
            part_count: 0,
            part_id_locked: false,
            not_use_db_table_name: false,
            orientation: 0,
            sheet_part_file_name: String::new(),
            design_item_id: String::new(),
            source_library_name: String::new(),
            target_file_name: String::new(),
            location: Location { x: 0, y: 0 },
            unique_id: UniqueId::Simple([0x30u8, 0x30u8, 0x30u8, 0x30u8, 0x30u8, 0x30u8, 0x30u8, 0x30u8]),
        };
        let mut seen_database_table_name: bool = false;
        let mut seen_description: bool = false;
        let mut seen_library_path: bool = false;
        let mut seen_libref: bool = false;
        let mut seen_sheet_part_file_name: bool = false;
        let mut seen_design_item_id: bool = false;
        let mut seen_source_library_name: bool = false;
        let mut seen_target_file_name: bool = false;
        let n = pairs.len();
        let mut i: usize = 0;
        while i < n
            invariant
                0 <= i <= n,
                n == pairs@.len(),
                !MetaData::spec_fails(p.take(i as int)),
                MetaData::spec_matches(x, p.take(i as int)),
                seen_database_table_name == has_key(p.take(i as int), utf8_twin(crate::keys::k_database_table_name())),
                seen_description == has_key(p.take(i as int), utf8_twin(crate::keys::k_component_description())),
                seen_library_path == has_key(p.take(i as int), utf8_twin(crate::keys::k_library_path())),
                seen_libref == has_key(p.take(i as int), utf8_twin(crate::keys::k_lib_reference())),
                seen_sheet_part_file_name == has_key(p.take(i as int), utf8_twin(crate::keys::k_sheet_part_file_name())),
                seen_design_item_id == has_key(p.take(i as int), utf8_twin(crate::keys::k_design_item_id())),
                seen_source_library_name == has_key(p.take(i as int), utf8_twin(crate::keys::k_source_library_name())),
                seen_target_file_name == has_key(p.take(i as int), utf8_twin(crate::keys::k_target_file_name())),
                counter.count == sat_add(old(counter).count, MetaData::spec_unknown(p.take(i as int))),
                0 <= MetaData::spec_unknown(p.take(i as int)) <= i,
            decreases n - i,
        {
            let key: &[u8] = pairs[i].0.as_slice();
            let val: &[u8] = pairs[i].1.as_slice();
            proof {
                assert(p[i as int] == (pairs@[i as int].0@, pairs@[i as int].1@));
                assert(p.take(i as int + 1).drop_last() =~= p.take(i as int));
                assert(p.take(i as int + 1).last() == p[i as int]);
            }
            match Self::bind_pair(
                &mut x,
                &mut seen_database_table_name, &mut seen_description, &mut seen_library_path, &mut seen_libref, &mut seen_sheet_part_file_name, &mut seen_design_item_id, &mut seen_source_library_name, &mut seen_target_file_name,
                key,
                val,
                counter,
                Ghost(p),
                Ghost(i as int),
            ) {
                Ok(u) => { let _ = u; },
                Err(e) => {
                    return Err(e);
                },
            }
            i += 1;
        }
        proof {
            assert(p.take(n as int) =~= p);
        }
        Ok(x)
    }
}

impl IeeeSymbol {
    /// The wire record ID of this kind.
    pub open spec fn spec_record_id() -> u32 {
        3
    }

    /// Whether the binder recognizes this wire key.
    pub open spec fn spec_known_key(k: Seq<u8>) -> bool {
        ||| k == crate::keys::k_is_not_accesible()
        ||| k == crate::keys::k_location_x()
        ||| k == crate::keys::k_location_y()
        ||| k == crate::keys::k_owner_index()
        ||| k == crate::keys::k_owner_part_id()
    }

    /// How many pairs hold keys the binder does not recognize.
    pub open spec fn spec_unknown(p: SpecPairs) -> int
        decreases p.len(),
    {
        if p.len() == 0 {
            0
        } else {
            Self::spec_unknown(p.drop_last()) + if Self::spec_known_key(p.last().0) {
                0int
            } else {
                1int
            }
        }
    }

    /// Whether some pair's value is one its field's parser rejects.
    pub open spec fn spec_fails(p: SpecPairs) -> bool {
        ||| kind_field_fails(p, FieldKind::Bool, crate::keys::k_is_not_accesible())
        ||| kind_field_fails(p, FieldKind::I32, crate::keys::k_location_x())
        ||| kind_field_fails(p, FieldKind::I32, crate::keys::k_location_y())
        ||| kind_field_fails(p, FieldKind::U8, crate::keys::k_owner_index())
        ||| kind_field_fails(p, FieldKind::I8, crate::keys::k_owner_part_id())
    }

    /// Each field as the walk of the pairs leaves it.
    pub open spec fn spec_matches(x: IeeeSymbol, p: SpecPairs) -> bool {
        &&& x.is_not_accessible == bool_field(p, crate::keys::k_is_not_accesible())
        &&& x.location == loc_field(p, crate::keys::k_location_x(), crate::keys::k_location_y())
        &&& x.owner_index == u8_field(p, crate::keys::k_owner_index())
        &&& x.owner_part_id == i8_field(p, crate::keys::k_owner_part_id())
    }

    /// Bind the fields of one `IeeeSymbol` record from its key-value pairs.
    #[verifier::loop_isolation(false)]
    #[verifier::rlimit(100)]
    pub fn from_record(pairs: &[(Vec<u8>, Vec<u8>)], counter: &mut UnsupportedCounter) -> (r:
        Result<IeeeSymbol, ErrorKind>)
        ensures
            r is Ok <==> !IeeeSymbol::spec_fails(pairs_view(pairs@)),
            r is Ok ==> IeeeSymbol::spec_matches(r->Ok_0, pairs_view(pairs@)),
            r is Ok ==> final(counter).count == sat_add(
                old(counter).count,
                IeeeSymbol::spec_unknown(pairs_view(pairs@)),
            ),
            final(counter).count >= old(counter).count,
    {
        let ghost p = pairs_view(pairs@);
        proof {
            crate::common::lemma_pairs_view(pairs@);
            assert(p.take(0) =~= Seq::<(Seq<u8>, Seq<u8>)>::empty());
        }
    let a_is_not_accesible: [u8; 14] = [0x49u8, 0x73u8, 0x4eu8, 0x6fu8, 0x74u8, 0x41u8, 0x63u8, 0x63u8, 0x65u8, 0x73u8, 0x69u8, 0x62u8, 0x6cu8, 0x65u8];
    let a_location_x: [u8; 10] = [0x4cu8, 0x6fu8, 0x63u8, 0x61u8, 0x74u8, 0x69u8, 0x6fu8, 0x6eu8, 0x2eu8, 0x58u8];
    let a_location_y: [u8; 10] = [0x4cu8, 0x6fu8, 0x63u8, 0x61u8, 0x74u8, 0x69u8, 0x6fu8, 0x6eu8, 0x2eu8, 0x59u8];
    let a_owner_index: [u8; 10] = [0x4fu8, 0x77u8, 0x6eu8, 0x65u8, 0x72u8, 0x49u8, 0x6eu8, 0x64u8, 0x65u8, 0x78u8];
    let a_owner_part_id: [u8; 11] = [0x4fu8, 0x77u8, 0x6eu8, 0x65u8, 0x72u8, 0x50u8, 0x61u8, 0x72u8, 0x74u8, 0x49u8, 0x64u8];
    proof {
        assert(a_is_not_accesible@ =~= crate::keys::k_is_not_accesible());
        assert(a_location_x@ =~= crate::keys::k_location_x());
        assert(a_location_y@ =~= crate::keys::k_location_y());
        assert(a_owner_index@ =~= crate::keys::k_owner_index());
        assert(a_owner_part_id@ =~= crate::keys::k_owner_part_id());
        assert(crate::keys::k_is_not_accesible() != crate::keys::k_location_x()) by { assert(crate::keys::k_is_not_accesible().len() != crate::keys::k_location_x().len()); }
        assert(crate::keys::k_is_not_accesible() != crate::keys::k_location_y()) by { assert(crate::keys::k_is_not_accesible().len() != crate::keys::k_location_y().len()); }
        assert(crate::keys::k_is_not_accesible() != crate::keys::k_owner_index()) by { assert(crate::keys::k_is_not_accesible().len() != crate::keys::k_owner_index().len()); }
        assert(crate::keys::k_is_not_accesible() != crate::keys::k_owner_part_id()) by { assert(crate::keys::k_is_not_accesible().len() != crate::keys::k_owner_part_id().len()); }
        assert(crate::keys::k_location_x() != crate::keys::k_location_y()) by { assert(crate::keys::k_location_x()[9] != crate::keys::k_location_y()[9]); }
        assert(crate::keys::k_location_x() != crate::keys::k_owner_index()) by { assert(crate::keys::k_location_x()[0] != crate::keys::k_owner_index()[0]); }
        assert(crate::keys::k_location_x() != crate::keys::k_owner_part_id()) by { assert(crate::keys::k_location_x().len() != crate::keys::k_owner_part_id().len()); }
        assert(crate::keys::k_location_y() != crate::keys::k_owner_index()) by { assert(crate::keys::k_location_y()[0] != crate::keys::k_owner_index()[0]); }
        assert(crate::keys::k_location_y() != crate::keys::k_owner_part_id()) by { assert(crate::keys::k_location_y().len() != crate::keys::k_owner_part_id().len()); }
        assert(crate::keys::k_owner_index() != crate::keys::k_owner_part_id()) by { assert(crate::keys::k_owner_index().len() != crate::keys::k_owner_part_id().len()); }
    }
        let mut x = IeeeSymbol {
        is_not_accessible: false,
        location: Location { x: 0, y: 0 },
        owner_index: 0,
        owner_part_id: 0,
        };

        let n = pairs.len();
        let mut i: usize = 0;
        while i < n
            invariant
                0 <= i <= n,
                n == pairs@.len(),
                !IeeeSymbol::spec_fails(p.take(i as int)),
                IeeeSymbol::spec_matches(x, p.take(i as int)),

                counter.count == sat_add(old(counter).count, IeeeSymbol::spec_unknown(p.take(i as int))),
                0 <= IeeeSymbol::spec_unknown(p.take(i as int)) <= i,
            decreases n - i,
        {
            let key: &[u8] = pairs[i].0.as_slice();
            let val: &[u8] = pairs[i].1.as_slice();
            proof {
                assert(p[i as int] == (pairs@[i as int].0@, pairs@[i as int].1@));
                assert(p.take(i as int + 1).drop_last() =~= p.take(i as int));
                assert(p.take(i as int + 1).last() == p[i as int]);
                assert forall|j: int| 0 <= j <= i implies #[trigger] p.take(i as int + 1).take(j)
                    == p.take(j) by {
                    assert(p.take(i as int + 1).take(j) =~= p.take(j));
                }
                assert forall|j: int| 0 <= j <= i implies #[trigger] p.take(i as int).take(j)
                    == p.take(j) by {
                    assert(p.take(i as int).take(j) =~= p.take(j));
                }
            }
        if crate::common::bytes_eq(key, a_is_not_accesible.as_slice()) {
                    match crate::parse::parse_bool(val) {
                        Ok(v) => { x.is_not_accessible = v; },
                        Err(e) => {
                            proof {
                                assert(p[i as int].0 == crate::keys::k_is_not_accesible());
                                assert(kind_field_fails(p, FieldKind::Bool, crate::keys::k_is_not_accesible()));
                            }
                            return Err(e);
                        },
                    }
                }
        else if crate::common::bytes_eq(key, a_location_x.as_slice()) {
                    match crate::parse::parse_i32(val) {
                        Ok(v) => { x.location.x = v; },
                        Err(e) => {
                            proof {
                                assert(p[i as int].0 == crate::keys::k_location_x());
                                assert(kind_field_fails(p, FieldKind::I32, crate::keys::k_location_x()));
                            }
                            return Err(e);
                        },
                    }
                }
        else if crate::common::bytes_eq(key, a_location_y.as_slice()) {
                    match crate::parse::parse_i32(val) {
                        Ok(v) => { x.location.y = v; },
                        Err(e) => {
                            proof {
                                assert(p[i as int].0 == crate::keys::k_location_y());
                                assert(kind_field_fails(p, FieldKind::I32, crate::keys::k_location_y()));
                            }
                            return Err(e);
                        },
                    }
                }
        else if crate::common::bytes_eq(key, a_owner_index.as_slice()) {
                    match crate::parse::parse_u8(val) {
                        Ok(v) => { x.owner_index = v; },
                        Err(e) => {
                            proof {
                                assert(p[i as int].0 == crate::keys::k_owner_index());
                                assert(kind_field_fails(p, FieldKind::U8, crate::keys::k_owner_index()));
                            }
                            return Err(e);
                        },
                    }
                }
        else if crate::common::bytes_eq(key, a_owner_part_id.as_slice()) {
                    match crate::parse::parse_i8(val) {
                        Ok(v) => { x.owner_part_id = v; },
                        Err(e) => {
                            proof {
                                assert(p[i as int].0 == crate::keys::k_owner_part_id());
                                assert(kind_field_fails(p, FieldKind::I8, crate::keys::k_owner_part_id()));
                            }
                            return Err(e);
                        },
                    }
                }
        else {
            crate::logging::macro_unsupported_key(counter, "IeeeSymbol", key, val);
        }
            i += 1;
        }
        proof {
            assert(p.take(n as int) =~= p);
        }
        Ok(x)
    }
}

impl Label {
    /// The wire record ID of this kind.
    pub open spec fn spec_record_id() -> u32 {
        4
    }

    /// Whether the binder recognizes this wire key.
    pub open spec fn spec_known_key(k: Seq<u8>) -> bool {
        ||| k == crate::keys::k_color()
        ||| k == crate::keys::k_font_id()
        ||| k == crate::keys::k_index_in_sheet()
        ||| k == crate::keys::k_is_not_accesible()
        ||| k == crate::keys::k_is_mirrored()
        ||| k == crate::keys::k_location_x()
        ||| k == crate::keys::k_location_y()
        ||| k == crate::keys::k_location_x_frac()
        ||| k == crate::keys::k_location_y_frac()
        ||| k == crate::keys::k_orientation()
        ||| k == crate::keys::k_owner_index()
        ||| k == crate::keys::k_owner_part_id()
        ||| k == crate::keys::k_text()
        ||| k == utf8_twin(crate::keys::k_text())
        ||| k == crate::keys::k_unique_id()
        ||| k == crate::keys::k_justification()
    }

    /// How many pairs hold keys the binder does not recognize.
    pub open spec fn spec_unknown(p: SpecPairs) -> int
        decreases p.len(),
    {
        if p.len() == 0 {
            0
        } else {
            Self::spec_unknown(p.drop_last()) + if Self::spec_known_key(p.last().0) {
                0int
            } else {
                1int
            }
        }
    }

    /// Whether some pair's value is one its field's parser rejects.
    pub open spec fn spec_fails(p: SpecPairs) -> bool {
        ||| kind_field_fails(p, FieldKind::Color, crate::keys::k_color())
        ||| kind_field_fails(p, FieldKind::U16, crate::keys::k_font_id())
        ||| kind_field_fails(p, FieldKind::I16, crate::keys::k_index_in_sheet())
        ||| kind_field_fails(p, FieldKind::Bool, crate::keys::k_is_not_accesible())
        ||| kind_field_fails(p, FieldKind::Bool, crate::keys::k_is_mirrored())
        ||| kind_field_fails(p, FieldKind::I32, crate::keys::k_location_x())
        ||| kind_field_fails(p, FieldKind::I32, crate::keys::k_location_y())
        ||| kind_field_fails(p, FieldKind::I32, crate::keys::k_location_x_frac())
        ||| kind_field_fails(p, FieldKind::I32, crate::keys::k_location_y_frac())
        ||| kind_field_fails(p, FieldKind::I32, crate::keys::k_orientation())
        ||| kind_field_fails(p, FieldKind::U8, crate::keys::k_owner_index())
        ||| kind_field_fails(p, FieldKind::I8, crate::keys::k_owner_part_id())
        ||| str_field_fails(p, crate::keys::k_text())
        ||| kind_field_fails(p, FieldKind::Uid, crate::keys::k_unique_id())
        ||| kind_field_fails(p, FieldKind::Just, crate::keys::k_justification())
    }

    /// Each field as the walk of the pairs leaves it.
    pub open spec fn spec_matches(x: Label, p: SpecPairs) -> bool {
        &&& x.color == color_field(p, crate::keys::k_color())
        &&& x.font_id == u16_field(p, crate::keys::k_font_id())
        &&& x.index_in_sheet == i16_field(p, crate::keys::k_index_in_sheet())
        &&& x.is_not_accessible == bool_field(p, crate::keys::k_is_not_accesible())
        &&& x.is_mirrored == bool_field(p, crate::keys::k_is_mirrored())
        &&& x.location == locf_field(p, crate::keys::k_location_x(), crate::keys::k_location_y(), crate::keys::k_location_x_frac(), crate::keys::k_location_y_frac())
        &&& x.orientation == i32_field(p, crate::keys::k_orientation())
        &&& x.owner_index == u8_field(p, crate::keys::k_owner_index())
        &&& x.owner_part_id == i8_field(p, crate::keys::k_owner_part_id())
        &&& x.text@ == str_field(p, crate::keys::k_text())
        &&& x.unique_id == uid_field(p, crate::keys::k_unique_id())
        &&& x.justification == just_field(p, crate::keys::k_justification())
    }

    /// Bind the fields of one `Label` record from its key-value pairs.
    #[verifier::loop_isolation(false)]
    #[verifier::rlimit(100)]
    pub fn from_record(pairs: &[(Vec<u8>, Vec<u8>)], counter: &mut UnsupportedCounter) -> (r:
        Result<Label, ErrorKind>)
        ensures
            r is Ok <==> !Label::spec_fails(pairs_view(pairs@)),
            r is Ok ==> Label::spec_matches(r->Ok_0, pairs_view(pairs@)),
            r is Ok ==> final(counter).count == sat_add(
                old(counter).count,
                Label::spec_unknown(pairs_view(pairs@)),
            ),
            final(counter).count >= old(counter).count,
    {
        let ghost p = pairs_view(pairs@);
        proof {
            crate::common::lemma_pairs_view(pairs@);
            assert(p.take(0) =~= Seq::<(Seq<u8>, Seq<u8>)>::empty());
        }
    let a_color: [u8; 5] = [0x43u8, 0x6fu8, 0x6cu8, 0x6fu8, 0x72u8];
    let a_font_id: [u8; 6] = [0x46u8, 0x6fu8, 0x6eu8, 0x74u8, 0x49u8, 0x44u8];
    let a_index_in_sheet: [u8; 12] = [0x49u8, 0x6eu8, 0x64u8, 0x65u8, 0x78u8, 0x49u8, 0x6eu8, 0x53u8, 0x68u8, 0x65u8, 0x65u8, 0x74u8];
    let a_is_not_accesible: [u8; 14] = [0x49u8, 0x73u8, 0x4eu8, 0x6fu8, 0x74u8, 0x41u8, 0x63u8, 0x63u8, 0x65u8, 0x73u8, 0x69u8, 0x62u8, 0x6cu8, 0x65u8];
    let a_is_mirrored: [u8; 10] = [0x49u8, 0x73u8, 0x4du8, 0x69u8, 0x72u8, 0x72u8, 0x6fu8, 0x72u8, 0x65u8, 0x64u8];
    let a_location_x: [u8; 10] = [0x4cu8, 0x6fu8, 0x63u8, 0x61u8, 0x74u8, 0x69u8, 0x6fu8, 0x6eu8, 0x2eu8, 0x58u8];
    let a_location_y: [u8; 10] = [0x4cu8, 0x6fu8, 0x63u8, 0x61u8, 0x74u8, 0x69u8, 0x6fu8, 0x6eu8, 0x2eu8, 0x59u8];
    let a_location_x_frac: [u8; 15] = [0x4cu8, 0x6fu8, 0x63u8, 0x61u8, 0x74u8, 0x69u8, 0x6fu8, 0x6eu8, 0x2eu8, 0x58u8, 0x5fu8, 0x46u8, 0x72u8, 0x61u8, 0x63u8];
    let a_location_y_frac: [u8; 15] = [0x4cu8, 0x6fu8, 0x63u8, 0x61u8, 0x74u8, 0x69u8, 0x6fu8, 0x6eu8, 0x2eu8, 0x59u8, 0x5fu8, 0x46u8, 0x72u8, 0x61u8, 0x63u8];
    let a_orientation: [u8; 11] = [0x4fu8, 0x72u8, 0x69u8, 0x65u8, 0x6eu8, 0x74u8, 0x61u8, 0x74u8, 0x69u8, 0x6fu8, 0x6eu8];
    let a_owner_index: [u8; 10] = [0x4fu8, 0x77u8, 0x6eu8, 0x65u8, 0x72u8, 0x49u8, 0x6eu8, 0x64u8, 0x65u8, 0x78u8];
    let a_owner_part_id: [u8; 11] = [0x4fu8, 0x77u8, 0x6eu8, 0x65u8, 0x72u8, 0x50u8, 0x61u8, 0x72u8, 0x74u8, 0x49u8, 0x64u8];
    let a_text: [u8; 4] = [0x54u8, 0x65u8, 0x78u8, 0x74u8];
    let a_unique_id: [u8; 8] = [0x55u8, 0x6eu8, 0x69u8, 0x71u8, 0x75u8, 0x65u8, 0x49u8, 0x44u8];
    let a_justification: [u8; 13] = [0x4au8, 0x75u8, 0x73u8, 0x74u8, 0x69u8, 0x66u8, 0x69u8, 0x63u8, 0x61u8, 0x74u8, 0x69u8, 0x6fu8, 0x6eu8];
    let t_text: [u8; 10] = [0x25u8, 0x55u8, 0x54u8, 0x46u8, 0x38u8, 0x25u8, 0x54u8, 0x65u8, 0x78u8, 0x74u8];
    proof {
        assert(a_color@ =~= crate::keys::k_color());
        assert(a_font_id@ =~= crate::keys::k_font_id());
        assert(a_index_in_sheet@ =~= crate::keys::k_index_in_sheet());
        assert(a_is_not_accesible@ =~= crate::keys::k_is_not_accesible());
        assert(a_is_mirrored@ =~= crate::keys::k_is_mirrored());
        assert(a_location_x@ =~= crate::keys::k_location_x());
        assert(a_location_y@ =~= crate::keys::k_location_y());
        assert(a_location_x_frac@ =~= crate::keys::k_location_x_frac());
        assert(a_location_y_frac@ =~= crate::keys::k_location_y_frac());
        assert(a_orientation@ =~= crate::keys::k_orientation());
        assert(a_owner_index@ =~= crate::keys::k_owner_index());
        assert(a_owner_part_id@ =~= crate::keys::k_owner_part_id());
        assert(a_text@ =~= crate::keys::k_text());
        assert(a_unique_id@ =~= crate::keys::k_unique_id());
        assert(a_justification@ =~= crate::keys::k_justification());
        assert(t_text@ =~= utf8_twin(crate::keys::k_text()));
        assert(crate::keys::k_color() != crate::keys::k_font_id()) by { assert(crate::keys::k_color().len() != crate::keys::k_font_id().len()); }
        assert(crate::keys::k_color() != crate::keys::k_index_in_sheet()) by { assert(crate::keys::k_color().len() != crate::keys::k_index_in_sheet().len()); }
        assert(crate::keys::k_color() != crate::keys::k_is_not_accesible()) by { assert(crate::keys::k_color().len() != crate::keys::k_is_not_accesible().len()); }
        assert(crate::keys::k_color() != crate::keys::k_is_mirrored()) by { assert(crate::keys::k_color().len() != crate::keys::k_is_mirrored().len()); }
        assert(crate::keys::k_color() != crate::keys::k_location_x()) by { assert(crate::keys::k_color().len() != crate::keys::k_location_x().len()); }
        assert(crate::keys::k_color() != crate::keys::k_location_y()) by { assert(crate::keys::k_color().len() != crate::keys::k_location_y().len()); }
        assert(crate::keys::k_color() != crate::keys::k_location_x_frac()) by { assert(crate::keys::k_color().len() != crate::keys::k_location_x_frac().len()); }
        assert(crate::keys::k_color() != crate::keys::k_location_y_frac()) by { assert(crate::keys::k_color().len() != crate::keys::k_location_y_frac().len()); }
        assert(crate::keys::k_color() != crate::keys::k_orientation()) by { assert(crate::keys::k_color().len() != crate::keys::k_orientation().len()); }
        assert(crate::keys::k_color() != crate::keys::k_owner_index()) by { assert(crate::keys::k_color().len() != crate::keys::k_owner_index().len()); }
        assert(crate::keys::k_color() != crate::keys::k_owner_part_id()) by { assert(crate::keys::k_color().len() != crate::keys::k_owner_part_id().len()); }
        assert(crate::keys::k_color() != crate::keys::k_text()) by { assert(crate::keys::k_color().len() != crate::keys::k_text().len()); }
        assert(crate::keys::k_color() != crate::keys::k_unique_id()) by { assert(crate::keys::k_color().len() != crate::keys::k_unique_id().len()); }
        assert(crate::keys::k_color() != crate::keys::k_justification()) by { assert(crate::keys::k_color().len() != crate::keys::k_justification().len()); }
        assert(crate::keys::k_color() != utf8_twin(crate::keys::k_text())) by { assert(crate::keys::k_color().len() != utf8_twin(crate::keys::k_text()).len()); }
        assert(crate::keys::k_font_id() != crate::keys::k_index_in_sheet()) by { assert(crate::keys::k_font_id().len() != crate::keys::k_index_in_sheet().len()); }
        assert(crate::keys::k_font_id() != crate::keys::k_is_not_accesible()) by { assert(crate::keys::k_font_id().len() != crate::keys::k_is_not_accesible().len()); }
        assert(crate::keys::k_font_id() != crate::keys::k_is_mirrored()) by { assert(crate::keys::k_font_id().len() != crate::keys::k_is_mirrored().len()); }
        assert(crate::keys::k_font_id() != crate::keys::k_location_x()) by { assert(crate::keys::k_font_id().len() != crate::keys::k_location_x().len()); }
        assert(crate::keys::k_font_id() != crate::keys::k_location_y()) by { assert(crate::keys::k_font_id().len() != crate::keys::k_location_y().len()); }
        assert(crate::keys::k_font_id() != crate::keys::k_location_x_frac()) by { assert(crate::keys::k_font_id().len() != crate::keys::k_location_x_frac().len()); }
        assert(crate::keys::k_font_id() != crate::keys::k_location_y_frac()) by { assert(crate::keys::k_font_id().len() != crate::keys::k_location_y_frac().len()); }
        assert(crate::keys::k_font_id() != crate::keys::k_orientation()) by { assert(crate::keys::k_font_id().len() != crate::keys::k_orientation().len()); }
        assert(crate::keys::k_font_id() != crate::keys::k_owner_index()) by { assert(crate::keys::k_font_id().len() != crate::keys::k_owner_index().len()); }
        assert(crate::keys::k_font_id() != crate::keys::k_owner_part_id()) by { assert(crate::keys::k_font_id().len() != crate::keys::k_owner_part_id().len()); }
        assert(crate::keys::k_font_id() != crate::keys::k_text()) by { assert(crate::keys::k_font_id().len() != crate::keys::k_text().len()); }
        assert(crate::keys::k_font_id() != crate::keys::k_unique_id()) by { assert(crate::keys::k_font_id().len() != crate::keys::k_unique_id().len()); }
        assert(crate::keys::k_font_id() != crate::keys::k_justification()) by { assert(crate::keys::k_font_id().len() != crate::keys::k_justification().len()); }
        assert(crate::keys::k_font_id() != utf8_twin(crate::keys::k_text())) by { assert(crate::keys::k_font_id().len() != utf8_twin(crate::keys::k_text()).len()); }
        assert(crate::keys::k_index_in_sheet() != crate::keys::k_is_not_accesible()) by { assert(crate::keys::k_index_in_sheet().len() != crate::keys::k_is_not_accesible().len()); }
        assert(crate::keys::k_index_in_sheet() != crate::keys::k_is_mirrored()) by { assert(crate::keys::k_index_in_sheet().len() != crate::keys::k_is_mirrored().len()); }
        assert(crate::keys::k_index_in_sheet() != crate::keys::k_location_x()) by { assert(crate::keys::k_index_in_sheet().len() != crate::keys::k_location_x().len()); }
        assert(crate::keys::k_index_in_sheet() != crate::keys::k_location_y()) by { assert(crate::keys::k_index_in_sheet().len() != crate::keys::k_location_y().len()); }
        assert(crate::keys::k_index_in_sheet() != crate::keys::k_location_x_frac()) by { assert(crate::keys::k_index_in_sheet().len() != crate::keys::k_location_x_frac().len()); }
        assert(crate::keys::k_index_in_sheet() != crate::keys::k_location_y_frac()) by { assert(crate::keys::k_index_in_sheet().len() != crate::keys::k_location_y_frac().len()); }
        assert(crate::keys::k_index_in_sheet() != crate::keys::k_orientation()) by { assert(crate::keys::k_index_in_sheet().len() != crate::keys::k_orientation().len()); }
        assert(crate::keys::k_index_in_sheet() != crate::keys::k_owner_index()) by { assert(crate::keys::k_index_in_sheet().len() != crate::keys::k_owner_index().len()); }
        assert(crate::keys::k_index_in_sheet() != crate::keys::k_owner_part_id()) by { assert(crate::keys::k_index_in_sheet().len() != crate::keys::k_owner_part_id().len()); }
        assert(crate::keys::k_index_in_sheet() != crate::keys::k_text()) by { assert(crate::keys::k_index_in_sheet().len() != crate::keys::k_text().len()); }
        assert(crate::keys::k_index_in_sheet() != crate::keys::k_unique_id()) by { assert(crate::keys::k_index_in_sheet().len() != crate::keys::k_unique_id().len()); }
        assert(crate::keys::k_index_in_sheet() != crate::keys::k_justification()) by { assert(crate::keys::k_index_in_sheet().len() != crate::keys::k_justification().len()); }
        assert(crate::keys::k_index_in_sheet() != utf8_twin(crate::keys::k_text())) by { assert(crate::keys::k_index_in_sheet().len() != utf8_twin(crate::keys::k_text()).len()); }
        assert(crate::keys::k_is_not_accesible() != crate::keys::k_is_mirrored()) by { assert(crate::keys::k_is_not_accesible().len() != crate::keys::k_is_mirrored().len()); }
        assert(crate::keys::k_is_not_accesible() != crate::keys::k_location_x()) by { assert(crate::keys::k_is_not_accesible().len() != crate::keys::k_location_x().len()); }
        assert(crate::keys::k_is_not_accesible() != crate::keys::k_location_y()) by { assert(crate::keys::k_is_not_accesible().len() != crate::keys::k_location_y().len()); }
        assert(crate::keys::k_is_not_accesible() != crate::keys::k_location_x_frac()) by { assert(crate::keys::k_is_not_accesible().len() != crate::keys::k_location_x_frac().len()); }
        assert(crate::keys::k_is_not_accesible() != crate::keys::k_location_y_frac()) by { assert(crate::keys::k_is_not_accesible().len() != crate::keys::k_location_y_frac().len()); }
        assert(crate::keys::k_is_not_accesible() != crate::keys::k_orientation()) by { assert(crate::keys::k_is_not_accesible().len() != crate::keys::k_orientation().len()); }
        assert(crate::keys::k_is_not_accesible() != crate::keys::k_owner_index()) by { assert(crate::keys::k_is_not_accesible().len() != crate::keys::k_owner_index().len()); }
        assert(crate::keys::k_is_not_accesible() != crate::keys::k_owner_part_id()) by { assert(crate::keys::k_is_not_accesible().len() != crate::keys::k_owner_part_id().len()); }
        assert(crate::keys::k_is_not_accesible() != crate::keys::k_text()) by { assert(crate::keys::k_is_not_accesible().len() != crate::keys::k_text().len()); }
        assert(crate::keys::k_is_not_accesible() != crate::keys::k_unique_id()) by { assert(crate::keys::k_is_not_accesible().len() != crate::keys::k_unique_id().len()); }
        assert(crate::keys::k_is_not_accesible() != crate::keys::k_justification()) by { assert(crate::keys::k_is_not_accesible().len() != crate::keys::k_justification().len()); }
        assert(crate::keys::k_is_not_accesible() != utf8_twin(crate::keys::k_text())) by { assert(crate::keys::k_is_not_accesible().len() != utf8_twin(crate::keys::k_text()).len()); }
        assert(crate::keys::k_is_mirrored() != crate::keys::k_location_x()) by { assert(crate::keys::k_is_mirrored()[0] != crate::keys::k_location_x()[0]); }
        assert(crate::keys::k_is_mirrored() != crate::keys::k_location_y()) by { assert(crate::keys::k_is_mirrored()[0] != crate::keys::k_location_y()[0]); }
        assert(crate::keys::k_is_mirrored() != crate::keys::k_location_x_frac()) by { assert(crate::keys::k_is_mirrored().len() != crate::keys::k_location_x_frac().len()); }
        assert(crate::keys::k_is_mirrored() != crate::keys::k_location_y_frac()) by { assert(crate::keys::k_is_mirrored().len() != crate::keys::k_location_y_frac().len()); }
        assert(crate::keys::k_is_mirrored() != crate::keys::k_orientation()) by { assert(crate::keys::k_is_mirrored().len() != crate::keys::k_orientation().len()); }
        assert(crate::keys::k_is_mirrored() != crate::keys::k_owner_index()) by { assert(crate::keys::k_is_mirrored()[0] != crate::keys::k_owner_index()[0]); }
        assert(crate::keys::k_is_mirrored() != crate::keys::k_owner_part_id()) by { assert(crate::keys::k_is_mirrored().len() != crate::keys::k_owner_part_id().len()); }
        assert(crate::keys::k_is_mirrored() != crate::keys::k_text()) by { assert(crate::keys::k_is_mirrored().len() != crate::keys::k_text().len()); }
        assert(crate::keys::k_is_mirrored() != crate::keys::k_unique_id()) by { assert(crate::keys::k_is_mirrored().len() != crate::keys::k_unique_id().len()); }
        assert(crate::keys::k_is_mirrored() != crate::keys::k_justification()) by { assert(crate::keys::k_is_mirrored().len() != crate::keys::k_justification().len()); }
        assert(crate::keys::k_is_mirrored() != utf8_twin(crate::keys::k_text())) by { assert(crate::keys::k_is_mirrored()[0] != utf8_twin(crate::keys::k_text())[0]); }
        assert(crate::keys::k_location_x() != crate::keys::k_location_y()) by { assert(crate::keys::k_location_x()[9] != crate::keys::k_location_y()[9]); }
        assert(crate::keys::k_location_x() != crate::keys::k_location_x_frac()) by { assert(crate::keys::k_location_x().len() != crate::keys::k_location_x_frac().len()); }
        assert(crate::keys::k_location_x() != crate::keys::k_location_y_frac()) by { assert(crate::keys::k_location_x().len() != crate::keys::k_location_y_frac().len()); }
        assert(crate::keys::k_location_x() != crate::keys::k_orientation()) by { assert(crate::keys::k_location_x().len() != crate::keys::k_orientation().len()); }
        assert(crate::keys::k_location_x() != crate::keys::k_owner_index()) by { assert(crate::keys::k_location_x()[0] != crate::keys::k_owner_index()[0]); }
        assert(crate::keys::k_location_x() != crate::keys::k_owner_part_id()) by { assert(crate::keys::k_location_x().len() != crate::keys::k_owner_part_id().len()); }
        assert(crate::keys::k_location_x() != crate::keys::k_text()) by { assert(crate::keys::k_location_x().len() != crate::keys::k_text().len()); }
        assert(crate::keys::k_location_x() != crate::keys::k_unique_id()) by { assert(crate::keys::k_location_x().len() != crate::keys::k_unique_id().len()); }
        assert(crate::keys::k_location_x() != crate::keys::k_justification()) by { assert(crate::keys::k_location_x().len() != crate::keys::k_justification().len()); }
        assert(crate::keys::k_location_x() != utf8_twin(crate::keys::k_text())) by { assert(crate::keys::k_location_x()[0] != utf8_twin(crate::keys::k_text())[0]); }
        assert(crate::keys::k_location_y() != crate::keys::k_location_x_frac()) by { assert(crate::keys::k_location_y().len() != crate::keys::k_location_x_frac().len()); }
        assert(crate::keys::k_location_y() != crate::keys::k_location_y_frac()) by { assert(crate::keys::k_location_y().len() != crate::keys::k_location_y_frac().len()); }
        assert(crate::keys::k_location_y() != crate::keys::k_orientation()) by { assert(crate::keys::k_location_y().len() != crate::keys::k_orientation().len()); }
        assert(crate::keys::k_location_y() != crate::keys::k_owner_index()) by { assert(crate::keys::k_location_y()[0] != crate::keys::k_owner_index()[0]); }
        assert(crate::keys::k_location_y() != crate::keys::k_owner_part_id()) by { assert(crate::keys::k_location_y().len() != crate::keys::k_owner_part_id().len()); }
        assert(crate::keys::k_location_y() != crate::keys::k_text()) by { assert(crate::keys::k_location_y().len() != crate::keys::k_text().len()); }
        assert(crate::keys::k_location_y() != crate::keys::k_unique_id()) by { assert(crate::keys::k_location_y().len() != crate::keys::k_unique_id().len()); }
        assert(crate::keys::k_location_y() != crate::keys::k_justification()) by { assert(crate::keys::k_location_y().len() != crate::keys::k_justification().len()); }
        assert(crate::keys::k_location_y() != utf8_twin(crate::keys::k_text())) by { assert(crate::keys::k_location_y()[0] != utf8_twin(crate::keys::k_text())[0]); }
        assert(crate::keys::k_location_x_frac() != crate::keys::k_location_y_frac()) by { assert(crate::keys::k_location_x_frac()[9] != crate::keys::k_location_y_frac()[9]); }
        assert(crate::keys::k_location_x_frac() != crate::keys::k_orientation()) by { assert(crate::keys::k_location_x_frac().len() != crate::keys::k_orientation().len()); }
        assert(crate::keys::k_location_x_frac() != crate::keys::k_owner_index()) by { assert(crate::keys::k_location_x_frac().len() != crate::keys::k_owner_index().len()); }
        assert(crate::keys::k_location_x_frac() != crate::keys::k_owner_part_id()) by { assert(crate::keys::k_location_x_frac().len() != crate::keys::k_owner_part_id().len()); }
        assert(crate::keys::k_location_x_frac() != crate::keys::k_text()) by { assert(crate::keys::k_location_x_frac().len() != crate::keys::k_text().len()); }
        assert(crate::keys::k_location_x_frac() != crate::keys::k_unique_id()) by { assert(crate::keys::k_location_x_frac().len() != crate::keys::k_unique_id().len()); }
        assert(crate::keys::k_location_x_frac() != crate::keys::k_justification()) by { assert(crate::keys::k_location_x_frac().len() != crate::keys::k_justification().len()); }
        assert(crate::keys::k_location_x_frac() != utf8_twin(crate::keys::k_text())) by { assert(crate::keys::k_location_x_frac().len() != utf8_twin(crate::keys::k_text()).len()); }
        assert(crate::keys::k_location_y_frac() != crate::keys::k_orientation()) by { assert(crate::keys::k_location_y_frac().len() != crate::keys::k_orientation().len()); }
        assert(crate::keys::k_location_y_frac() != crate::keys::k_owner_index()) by { assert(crate::keys::k_location_y_frac().len() != crate::keys::k_owner_index().len()); }
        assert(crate::keys::k_location_y_frac() != crate::keys::k_owner_part_id()) by { assert(crate::keys::k_location_y_frac().len() != crate::keys::k_owner_part_id().len()); }
        assert(crate::keys::k_location_y_frac() != crate::keys::k_text()) by { assert(crate::keys::k_location_y_frac().len() != crate::keys::k_text().len()); }
        assert(crate::keys::k_location_y_frac() != crate::keys::k_unique_id()) by { assert(crate::keys::k_location_y_frac().len() != crate::keys::k_unique_id().len()); }
        assert(crate::keys::k_location_y_frac() != crate::keys::k_justification()) by { assert(crate::keys::k_location_y_frac().len() != crate::keys::k_justification().len()); }
        assert(crate::keys::k_location_y_frac() != utf8_twin(crate::keys::k_text())) by { assert(crate::keys::k_location_y_frac().len() != utf8_twin(crate::keys::k_text()).len()); }
        assert(crate::keys::k_orientation() != crate::keys::k_owner_index()) by { assert(crate::keys::k_orientation().len() != crate::keys::k_owner_index().len()); }
        assert(crate::keys::k_orientation() != crate::keys::k_owner_part_id()) by { assert(crate::keys::k_orientation()[1] != crate::keys::k_owner_part_id()[1]); }
        assert(crate::keys::k_orientation() != crate::keys::k_text()) by { assert(crate::keys::k_orientation().len() != crate::keys::k_text().len()); }
        assert(crate::keys::k_orientation() != crate::keys::k_unique_id()) by { assert(crate::keys::k_orientation().len() != crate::keys::k_unique_id().len()); }
        assert(crate::keys::k_orientation() != crate::keys::k_justification()) by { assert(crate::keys::k_orientation().len() != crate::keys::k_justification().len()); }
        assert(crate::keys::k_orientation() != utf8_twin(crate::keys::k_text())) by { assert(crate::keys::k_orientation().len() != utf8_twin(crate::keys::k_text()).len()); }
        assert(crate::keys::k_owner_index() != crate::keys::k_owner_part_id()) by { assert(crate::keys::k_owner_index().len() != crate::keys::k_owner_part_id().len()); }
        assert(crate::keys::k_owner_index() != crate::keys::k_text()) by { assert(crate::keys::k_owner_index().len() != crate::keys::k_text().len()); }
        assert(crate::keys::k_owner_index() != crate::keys::k_unique_id()) by { assert(crate::keys::k_owner_index().len() != crate::keys::k_unique_id().len()); }
        assert(crate::keys::k_owner_index() != crate::keys::k_justification()) by { assert(crate::keys::k_owner_index().len() != crate::keys::k_justification().len()); }
        assert(crate::keys::k_owner_index() != utf8_twin(crate::keys::k_text())) by { assert(crate::keys::k_owner_index()[0] != utf8_twin(crate::keys::k_text())[0]); }
        assert(crate::keys::k_owner_part_id() != crate::keys::k_text()) by { assert(crate::keys::k_owner_part_id().len() != crate::keys::k_text().len()); }
        assert(crate::keys::k_owner_part_id() != crate::keys::k_unique_id()) by { assert(crate::keys::k_owner_part_id().len() != crate::keys::k_unique_id().len()); }
        assert(crate::keys::k_owner_part_id() != crate::keys::k_justification()) by { assert(crate::keys::k_owner_part_id().len() != crate::keys::k_justification().len()); }
        assert(crate::keys::k_owner_part_id() != utf8_twin(crate::keys::k_text())) by { assert(crate::keys::k_owner_part_id().len() != utf8_twin(crate::keys::k_text()).len()); }
        assert(crate::keys::k_text() != crate::keys::k_unique_id()) by { assert(crate::keys::k_text().len() != crate::keys::k_unique_id().len()); }
        assert(crate::keys::k_text() != crate::keys::k_justification()) by { assert(crate::keys::k_text().len() != crate::keys::k_justification().len()); }
        assert(crate::keys::k_text() != utf8_twin(crate::keys::k_text())) by { assert(crate::keys::k_text().len() != utf8_twin(crate::keys::k_text()).len()); }
        assert(crate::keys::k_unique_id() != crate::keys::k_justification()) by { assert(crate::keys::k_unique_id().len() != crate::keys::k_justification().len()); }
        assert(crate::keys::k_unique_id() != utf8_twin(crate::keys::k_text())) by { assert(crate::keys::k_unique_id().len() != utf8_twin(crate::keys::k_text()).len()); }
        assert(crate::keys::k_justification() != utf8_twin(crate::keys::k_text())) by { assert(crate::keys::k_justification().len() != utf8_twin(crate::keys::k_text()).len()); }
    }
        let mut x = Label {
        color: Rgb { r: 0, g: 0, b: 0 },
        font_id: 0,
        index_in_sheet: 0,
        is_not_accessible: false,
        is_mirrored: false,
        location: LocationFract { x: 0, x_fract: 0, y: 0, y_fract: 0 },
        orientation: 0,
        owner_index: 0,
        owner_part_id: 0,
        text: String::new(),
        unique_id: UniqueId::Simple([0x30u8, 0x30u8, 0x30u8, 0x30u8, 0x30u8, 0x30u8, 0x30u8, 0x30u8]),
        justification: Justification::BottomLeft,
        };
    let mut seen_text: bool = false;
        let n = pairs.len();
        let mut i: usize = 0;
        while i < n
            invariant
                0 <= i <= n,
                n == pairs@.len(),
                !Label::spec_fails(p.take(i as int)),
                Label::spec_matches(x, p.take(i as int)),
            seen_text == has_key(p.take(i as int), utf8_twin(crate::keys::k_text())),
                counter.count == sat_add(old(counter).count, Label::spec_unknown(p.take(i as int))),
                0 <= Label::spec_unknown(p.take(i as int)) <= i,
            decreases n - i,
        {
            let key: &[u8] = pairs[i].0.as_slice();
            let val: &[u8] = pairs[i].1.as_slice();
            proof {
                assert(p[i as int] == (pairs@[i as int].0@, pairs@[i as int].1@));
                assert(p.take(i as int + 1).drop_last() =~= p.take(i as int));
                assert(p.take(i as int + 1).last() == p[i as int]);
                assert forall|j: int| 0 <= j <= i implies #[trigger] p.take(i as int + 1).take(j)
                    == p.take(j) by {
                    assert(p.take(i as int + 1).take(j) =~= p.take(j));
                }
                assert forall|j: int| 0 <= j <= i implies #[trigger] p.take(i as int).take(j)
                    == p.take(j) by {
                    assert(p.take(i as int).take(j) =~= p.take(j));
                }
            }
        if crate::common::bytes_eq(key, a_color.as_slice()) {
                    match Rgb::from_utf8(val) {
                        Ok(v) => { x.color = v; },
                        Err(e) => {
                            proof {
                                assert(p[i as int].0 == crate::keys::k_color());
                                assert(kind_field_fails(p, FieldKind::Color, crate::keys::k_color()));
                            }
                            return Err(e);
                        },
                    }
                }
        else if crate::common::bytes_eq(key, a_font_id.as_slice()) {
                    match crate::parse::parse_u16(val) {
                        Ok(v) => { x.font_id = v; },
                        Err(e) => {
                            proof {
                                assert(p[i as int].0 == crate::keys::k_font_id());
                                assert(kind_field_fails(p, FieldKind::U16, crate::keys::k_font_id()));
                            }
                            return Err(e);
                        },
                    }
                }
        else if crate::common::bytes_eq(key, a_index_in_sheet.as_slice()) {
                    match crate::parse::parse_i16(val) {
                        Ok(v) => { x.index_in_sheet = v; },
                        Err(e) => {
                            proof {
                                assert(p[i as int].0 == crate::keys::k_index_in_sheet());
                                assert(kind_field_fails(p, FieldKind::I16, crate::keys::k_index_in_sheet()));
                            }
                            return Err(e);
                        },
                    }
                }
        else if crate::common::bytes_eq(key, a_is_not_accesible.as_slice()) {
                    match crate::parse::parse_bool(val) {
                        Ok(v) => { x.is_not_accessible = v; },
                        Err(e) => {
                            proof {
                                assert(p[i as int].0 == crate::keys::k_is_not_accesible());
                                assert(kind_field_fails(p, FieldKind::Bool, crate::keys::k_is_not_accesible()));
                            }
                            return Err(e);
                        },
                    }
                }
        else if crate::common::bytes_eq(key, a_is_mirrored.as_slice()) {
                    match crate::parse::parse_bool(val) {
                        Ok(v) => { x.is_mirrored = v; },
                        Err(e) => {
                            proof {
                                assert(p[i as int].0 == crate::keys::k_is_mirrored());
                                assert(kind_field_fails(p, FieldKind::Bool, crate::keys::k_is_mirrored()));
                            }
                            return Err(e);
                        },
                    }
                }
        else if crate::common::bytes_eq(key, a_location_x.as_slice()) {
                    match crate::parse::parse_i32(val) {
                        Ok(v) => { x.location.x = v; },
                        Err(e) => {
                            proof {
                                assert(p[i as int].0 == crate::keys::k_location_x());
                                assert(kind_field_fails(p, FieldKind::I32, crate::keys::k_location_x()));
                            }
                            return Err(e);
                        },
                    }
                }
        else if crate::common::bytes_eq(key, a_location_y.as_slice()) {
                    match crate::parse::parse_i32(val) {
                        Ok(v) => { x.location.y = v; },
                        Err(e) => {
                            proof {
                                assert(p[i as int].0 == crate::keys::k_location_y());
                                assert(kind_field_fails(p, FieldKind::I32, crate::keys::k_location_y()));
                            }
                            return Err(e);
                        },
                    }
                }
        else if crate::common::bytes_eq(key, a_location_x_frac.as_slice()) {
                    match crate::parse::parse_i32(val) {
                        Ok(v) => { x.location.x_fract = v; },
                        Err(e) => {
                            proof {
                                assert(p[i as int].0 == crate::keys::k_location_x_frac());
                                assert(kind_field_fails(p, FieldKind::I32, crate::keys::k_location_x_frac()));
                            }
                            return Err(e);
                        },
                    }
                }
        else if crate::common::bytes_eq(key, a_location_y_frac.as_slice()) {
                    match crate::parse::parse_i32(val) {
                        Ok(v) => { x.location.y_fract = v; },
                        Err(e) => {
                            proof {
                                assert(p[i as int].0 == crate::keys::k_location_y_frac());
                                assert(kind_field_fails(p, FieldKind::I32, crate::keys::k_location_y_frac()));
                            }
                            return Err(e);
                        },
                    }
                }
        else if crate::common::bytes_eq(key, a_orientation.as_slice()) {
                    match crate::parse::parse_i32(val) {
                        Ok(v) => { x.orientation = v; },
                        Err(e) => {
                            proof {
                                assert(p[i as int].0 == crate::keys::k_orientation());
                                assert(kind_field_fails(p, FieldKind::I32, crate::keys::k_orientation()));
                            }
                            return Err(e);
                        },
                    }
                }
        else if crate::common::bytes_eq(key, a_owner_index.as_slice()) {
                    match crate::parse::parse_u8(val) {
                        Ok(v) => { x.owner_index = v; },
                        Err(e) => {
                            proof {
                                assert(p[i as int].0 == crate::keys::k_owner_index());
                                assert(kind_field_fails(p, FieldKind::U8, crate::keys::k_owner_index()));
                            }
                            return Err(e);
                        },
                    }
                }
        else if crate::common::bytes_eq(key, a_owner_part_id.as_slice()) {
                    match crate::parse::parse_i8(val) {
                        Ok(v) => { x.owner_part_id = v; },
                        Err(e) => {
                            proof {
                                assert(p[i as int].0 == crate::keys::k_owner_part_id());
                                assert(kind_field_fails(p, FieldKind::I8, crate::keys::k_owner_part_id()));
                            }
                            return Err(e);
                        },
                    }
                }
        else if crate::common::bytes_eq(key, t_text.as_slice()) {
                    match crate::common::str_from_utf8(val) {
                        Ok(s) => { x.text = s; seen_text = true; },
                        Err(e) => {
                            proof {
                                assert(p[i as int].0 == utf8_twin(crate::keys::k_text()));
                                assert(str_field_fails(p, crate::keys::k_text()));
                            }
                            return Err(e);
                        },
                    }
                } else if crate::common::bytes_eq(key, a_text.as_slice()) {
                    if !seen_text {
                        match crate::common::str_from_utf8(val) {
                            Ok(s) => { x.text = s; },
                            Err(e) => {
                                proof {
                                    assert(p[i as int].0 == crate::keys::k_text());
                                    assert(!has_key(p.take(i as int), utf8_twin(crate::keys::k_text())));
                                    assert(str_field_fails(p, crate::keys::k_text()));
                                }
                                return Err(e);
                            },
                        }
                    }
                }
        else if crate::common::bytes_eq(key, a_unique_id.as_slice()) {
                    match UniqueId::from_utf8(val) {
                        Ok(v) => { x.unique_id = v; },
                        Err(e) => {
                            proof {
                                assert(p[i as int].0 == crate::keys::k_unique_id());
                                assert(kind_field_fails(p, FieldKind::Uid, crate::keys::k_unique_id()));
                            }
                            return Err(e);
                        },
                    }
                }
        else if crate::common::bytes_eq(key, a_justification.as_slice()) {
                    match crate::params::Justification::from_utf8(val) {
                        Ok(v) => { x.justification = v; },
                        Err(e) => {
                            proof {
                                assert(p[i as int].0 == crate::keys::k_justification());
                                assert(kind_field_fails(p, FieldKind::Just, crate::keys::k_justification()));
                            }
                            return Err(e);
                        },
                    }
                }
        else {
            crate::logging::macro_unsupported_key(counter, "Label", key, val);
        }
            i += 1;
        }
        proof {
            assert(p.take(n as int) =~= p);
        }
        Ok(x)
    }
}

impl Ellipse {
    /// The wire record ID of this kind.
    pub open spec fn spec_record_id() -> u32 {
        8
    }

    /// Whether the binder recognizes this wire key.
    pub open spec fn spec_known_key(k: Seq<u8>) -> bool {
        ||| k == crate::keys::k_area_color()
        ||| k == crate::keys::k_color()
        ||| k == crate::keys::k_index_in_sheet()
        ||| k == crate::keys::k_is_not_accesible()
        ||| k == crate::keys::k_is_solid()
        ||| k == crate::keys::k_line_width()
        ||| k == crate::keys::k_location_x()
        ||| k == crate::keys::k_location_y()
        ||| k == crate::keys::k_owner_index()
        ||| k == crate::keys::k_owner_part_id()
        ||| k == crate::keys::k_owner_part_display_mode()
        ||| k == crate::keys::k_radius()
        ||| k == crate::keys::k_secondary_radius()
        ||| k == crate::keys::k_unique_id()
    }

    /// How many pairs hold keys the binder does not recognize.
    pub open spec fn spec_unknown(p: SpecPairs) -> int
        decreases p.len(),
    {
        if p.len() == 0 {
            0
        } else {
            Self::spec_unknown(p.drop_last()) + if Self::spec_known_key(p.last().0) {
                0int
            } else {
                1int
            }
        }
    }

    /// Whether some pair's value is one its field's parser rejects.
    pub open spec fn spec_fails(p: SpecPairs) -> bool {
        ||| kind_field_fails(p, FieldKind::Color, crate::keys::k_area_color())
        ||| kind_field_fails(p, FieldKind::Color, crate::keys::k_color())
        ||| kind_field_fails(p, FieldKind::I16, crate::keys::k_index_in_sheet())
        ||| kind_field_fails(p, FieldKind::Bool, crate::keys::k_is_not_accesible())
        ||| kind_field_fails(p, FieldKind::Bool, crate::keys::k_is_solid())
        ||| kind_field_fails(p, FieldKind::MilsU32, crate::keys::k_line_width())
        ||| kind_field_fails(p, FieldKind::I32, crate::keys::k_location_x())
        ||| kind_field_fails(p, FieldKind::I32, crate::keys::k_location_y())
        ||| kind_field_fails(p, FieldKind::U8, crate::keys::k_owner_index())
        ||| kind_field_fails(p, FieldKind::I8, crate::keys::k_owner_part_id())
        ||| kind_field_fails(p, FieldKind::I8, crate::keys::k_owner_part_display_mode())
        ||| kind_field_fails(p, FieldKind::I32, crate::keys::k_radius())
        ||| kind_field_fails(p, FieldKind::I32, crate::keys::k_secondary_radius())
        ||| kind_field_fails(p, FieldKind::Uid, crate::keys::k_unique_id())
    }

    /// Each field as the walk of the pairs leaves it.
    pub open spec fn spec_matches(x: Ellipse, p: SpecPairs) -> bool {
        &&& x.area_color == color_field(p, crate::keys::k_area_color())
        &&& x.color == color_field(p, crate::keys::k_color())
        &&& x.index_in_sheet == i16_field(p, crate::keys::k_index_in_sheet())
        &&& x.is_not_accessible == bool_field(p, crate::keys::k_is_not_accesible())
        &&& x.is_solid == bool_field(p, crate::keys::k_is_solid())
        &&& x.line_width == mils_u32_field(p, crate::keys::k_line_width())
        &&& x.location == loc_field(p, crate::keys::k_location_x(), crate::keys::k_location_y())
        &&& x.owner_index == u8_field(p, crate::keys::k_owner_index())
        &&& x.owner_part_id == i8_field(p, crate::keys::k_owner_part_id())
        &&& x.owner_part_display_mode == i8_field(p, crate::keys::k_owner_part_display_mode())
        &&& x.radius == i32_field(p, crate::keys::k_radius())
        &&& x.secondary_radius == i32_field(p, crate::keys::k_secondary_radius())
        &&& x.unique_id == uid_field(p, crate::keys::k_unique_id())
    }

    /// Bind the fields of one `Ellipse` record from its key-value pairs.
    #[verifier::loop_isolation(false)]
    #[verifier::rlimit(100)]
    pub fn from_record(pairs: &[(Vec<u8>, Vec<u8>)], counter: &mut UnsupportedCounter) -> (r:
        Result<Ellipse, ErrorKind>)
        ensures
            r is Ok <==> !Ellipse::spec_fails(pairs_view(pairs@)),
            r is Ok ==> Ellipse::spec_matches(r->Ok_0, pairs_view(pairs@)),
            r is Ok ==> final(counter).count == sat_add(
                old(counter).count,
                Ellipse::spec_unknown(pairs_view(pairs@)),
            ),
            final(counter).count >= old(counter).count,
    {
        let ghost p = pairs_view(pairs@);
        proof {
            crate::common::lemma_pairs_view(pairs@);
            assert(p.take(0) =~= Seq::<(Seq<u8>, Seq<u8>)>::empty());
        }
    let a_area_color: [u8; 9] = [0x41u8, 0x72u8, 0x65u8, 0x61u8, 0x43u8, 0x6fu8, 0x6cu8, 0x6fu8, 0x72u8];
    let a_color: [u8; 5] = [0x43u8, 0x6fu8, 0x6cu8, 0x6fu8, 0x72u8];
    let a_index_in_sheet: [u8; 12] = [0x49u8, 0x6eu8, 0x64u8, 0x65u8, 0x78u8, 0x49u8, 0x6eu8, 0x53u8, 0x68u8, 0x65u8, 0x65u8, 0x74u8];
    let a_is_not_accesible: [u8; 14] = [0x49u8, 0x73u8, 0x4eu8, 0x6fu8, 0x74u8, 0x41u8, 0x63u8, 0x63u8, 0x65u8, 0x73u8, 0x69u8, 0x62u8, 0x6cu8, 0x65u8];
    let a_is_solid: [u8; 7] = [0x49u8, 0x73u8, 0x53u8, 0x6fu8, 0x6cu8, 0x69u8, 0x64u8];
    let a_line_width: [u8; 9] = [0x4cu8, 0x69u8, 0x6eu8, 0x65u8, 0x57u8, 0x69u8, 0x64u8, 0x74u8, 0x68u8];
    let a_location_x: [u8; 10] = [0x4cu8, 0x6fu8, 0x63u8, 0x61u8, 0x74u8, 0x69u8, 0x6fu8, 0x6eu8, 0x2eu8, 0x58u8];
    let a_location_y: [u8; 10] = [0x4cu8, 0x6fu8, 0x63u8, 0x61u8, 0x74u8, 0x69u8, 0x6fu8, 0x6eu8, 0x2eu8, 0x59u8];
    let a_owner_index: [u8; 10] = [0x4fu8, 0x77u8, 0x6eu8, 0x65u8, 0x72u8, 0x49u8, 0x6eu8, 0x64u8, 0x65u8, 0x78u8];
    let a_owner_part_id: [u8; 11] = [0x4fu8, 0x77u8, 0x6eu8, 0x65u8, 0x72u8, 0x50u8, 0x61u8, 0x72u8, 0x74u8, 0x49u8, 0x64u8];
    let a_owner_part_display_mode: [u8; 20] = [0x4fu8, 0x77u8, 0x6eu8, 0x65u8, 0x72u8, 0x50u8, 0x61u8, 0x72u8, 0x74u8, 0x44u8, 0x69u8, 0x73u8, 0x70u8, 0x6cu8, 0x61u8, 0x79u8, 0x4du8, 0x6fu8, 0x64u8, 0x65u8];
    let a_radius: [u8; 6] = [0x52u8, 0x61u8, 0x64u8, 0x69u8, 0x75u8, 0x73u8];
    let a_secondary_radius: [u8; 15] = [0x53u8, 0x65u8, 0x63u8, 0x6fu8, 0x6eu8, 0x64u8, 0x61u8, 0x72u8, 0x79u8, 0x52u8, 0x61u8, 0x64u8, 0x69u8, 0x75u8, 0x73u8];
    let a_unique_id: [u8; 8] = [0x55u8, 0x6eu8, 0x69u8, 0x71u8, 0x75u8, 0x65u8, 0x49u8, 0x44u8];
    proof {
        assert(a_area_color@ =~= crate::keys::k_area_color());
        assert(a_color@ =~= crate::keys::k_color());
        assert(a_index_in_sheet@ =~= crate::keys::k_index_in_sheet());
        assert(a_is_not_accesible@ =~= crate::keys::k_is_not_accesible());
        assert(a_is_solid@ =~= crate::keys::k_is_solid());
        assert(a_line_width@ =~= crate::keys::k_line_width());
        assert(a_location_x@ =~= crate::keys::k_location_x());
        assert(a_location_y@ =~= crate::keys::k_location_y());
        assert(a_owner_index@ =~= crate::keys::k_owner_index());
        assert(a_owner_part_id@ =~= crate::keys::k_owner_part_id());
        assert(a_owner_part_display_mode@ =~= crate::keys::k_owner_part_display_mode());
        assert(a_radius@ =~= crate::keys::k_radius());
        assert(a_secondary_radius@ =~= crate::keys::k_secondary_radius());
        assert(a_unique_id@ =~= crate::keys::k_unique_id());
        assert(crate::keys::k_area_color() != crate::keys::k_color()) by { assert(crate::keys::k_area_color().len() != crate::keys::k_color().len()); }
        assert(crate::keys::k_area_color() != crate::keys::k_index_in_sheet()) by { assert(crate::keys::k_area_color().len() != crate::keys::k_index_in_sheet().len()); }
        assert(crate::keys::k_area_color() != crate::keys::k_is_not_accesible()) by { assert(crate::keys::k_area_color().len() != crate::keys::k_is_not_accesible().len()); }
        assert(crate::keys::k_area_color() != crate::keys::k_is_solid()) by { assert(crate::keys::k_area_color().len() != crate::keys::k_is_solid().len()); }
        assert(crate::keys::k_area_color() != crate::keys::k_line_width()) by { assert(crate::keys::k_area_color()[0] != crate::keys::k_line_width()[0]); }
        assert(crate::keys::k_area_color() != crate::keys::k_location_x()) by { assert(crate::keys::k_area_color().len() != crate::keys::k_location_x().len()); }
        assert(crate::keys::k_area_color() != crate::keys::k_location_y()) by { assert(crate::keys::k_area_color().len() != crate::keys::k_location_y().len()); }
        assert(crate::keys::k_area_color() != crate::keys::k_owner_index()) by { assert(crate::keys::k_area_color().len() != crate::keys::k_owner_index().len()); }
        assert(crate::keys::k_area_color() != crate::keys::k_owner_part_id()) by { assert(crate::keys::k_area_color().len() != crate::keys::k_owner_part_id().len()); }
        assert(crate::keys::k_area_color() != crate::keys::k_owner_part_display_mode()) by { assert(crate::keys::k_area_color().len() != crate::keys::k_owner_part_display_mode().len()); }
        assert(crate::keys::k_area_color() != crate::keys::k_radius()) by { assert(crate::keys::k_area_color().len() != crate::keys::k_radius().len()); }
        assert(crate::keys::k_area_color() != crate::keys::k_secondary_radius()) by { assert(crate::keys::k_area_color().len() != crate::keys::k_secondary_radius().len()); }
        assert(crate::keys::k_area_color() != crate::keys::k_unique_id()) by { assert(crate::keys::k_area_color().len() != crate::keys::k_unique_id().len()); }
        assert(crate::keys::k_color() != crate::keys::k_index_in_sheet()) by { assert(crate::keys::k_color().len() != crate::keys::k_index_in_sheet().len()); }
        assert(crate::keys::k_color() != crate::keys::k_is_not_accesible()) by { assert(crate::keys::k_color().len() != crate::keys::k_is_not_accesible().len()); }
        assert(crate::keys::k_color() != crate::keys::k_is_solid()) by { assert(crate::keys::k_color().len() != crate::keys::k_is_solid().len()); }
        assert(crate::keys::k_color() != crate::keys::k_line_width()) by { assert(crate::keys::k_color().len() != crate::keys::k_line_width().len()); }
        assert(crate::keys::k_color() != crate::keys::k_location_x()) by { assert(crate::keys::k_color().len() != crate::keys::k_location_x().len()); }
        assert(crate::keys::k_color() != crate::keys::k_location_y()) by { assert(crate::keys::k_color().len() != crate::keys::k_location_y().len()); }
        assert(crate::keys::k_color() != crate::keys::k_owner_index()) by { assert(crate::keys::k_color().len() != crate::keys::k_owner_index().len()); }
        assert(crate::keys::k_color() != crate::keys::k_owner_part_id()) by { assert(crate::keys::k_color().len() != crate::keys::k_owner_part_id().len()); }
        assert(crate::keys::k_color() != crate::keys::k_owner_part_display_mode()) by { assert(crate::keys::k_color().len() != crate::keys::k_owner_part_display_mode().len()); }
        assert(crate::keys::k_color() != crate::keys::k_radius()) by { assert(crate::keys::k_color().len() != crate::keys::k_radius().len()); }
        assert(crate::keys::k_color() != crate::keys::k_secondary_radius()) by { assert(crate::keys::k_color().len() != crate::keys::k_secondary_radius().len()); }
        assert(crate::keys::k_color() != crate::keys::k_unique_id()) by { assert(crate::keys::k_color().len() != crate::keys::k_unique_id().len()); }
        assert(crate::keys::k_index_in_sheet() != crate::keys::k_is_not_accesible()) by { assert(crate::keys::k_index_in_sheet().len() != crate::keys::k_is_not_accesible().len()); }
        assert(crate::keys::k_index_in_sheet() != crate::keys::k_is_solid()) by { assert(crate::keys::k_index_in_sheet().len() != crate::keys::k_is_solid().len()); }
        assert(crate::keys::k_index_in_sheet() != crate::keys::k_line_width()) by { assert(crate::keys::k_index_in_sheet().len() != crate::keys::k_line_width().len()); }
        assert(crate::keys::k_index_in_sheet() != crate::keys::k_location_x()) by { assert(crate::keys::k_index_in_sheet().len() != crate::keys::k_location_x().len()); }
        assert(crate::keys::k_index_in_sheet() != crate::keys::k_location_y()) by { assert(crate::keys::k_index_in_sheet().len() != crate::keys::k_location_y().len()); }
        assert(crate::keys::k_index_in_sheet() != crate::keys::k_owner_index()) by { assert(crate::keys::k_index_in_sheet().len() != crate::keys::k_owner_index().len()); }
        assert(crate::keys::k_index_in_sheet() != crate::keys::k_owner_part_id()) by { assert(crate::keys::k_index_in_sheet().len() != crate::keys::k_owner_part_id().len()); }
        assert(crate::keys::k_index_in_sheet() != crate::keys::k_owner_part_display_mode()) by { assert(crate::keys::k_index_in_sheet().len() != crate::keys::k_owner_part_display_mode().len()); }
        assert(crate::keys::k_index_in_sheet() != crate::keys::k_radius()) by { assert(crate::keys::k_index_in_sheet().len() != crate::keys::k_radius().len()); }
        assert(crate::keys::k_index_in_sheet() != crate::keys::k_secondary_radius()) by { assert(crate::keys::k_index_in_sheet().len() != crate::keys::k_secondary_radius().len()); }
        assert(crate::keys::k_index_in_sheet() != crate::keys::k_unique_id()) by { assert(crate::keys::k_index_in_sheet().len() != crate::keys::k_unique_id().len()); }
        assert(crate::keys::k_is_not_accesible() != crate::keys::k_is_solid()) by { assert(crate::keys::k_is_not_accesible().len() != crate::keys::k_is_solid().len()); }
        assert(crate::keys::k_is_not_accesible() != crate::keys::k_line_width()) by { assert(crate::keys::k_is_not_accesible().len() != crate::keys::k_line_width().len()); }
        assert(crate::keys::k_is_not_accesible() != crate::keys::k_location_x()) by { assert(crate::keys::k_is_not_accesible().len() != crate::keys::k_location_x().len()); }
        assert(crate::keys::k_is_not_accesible() != crate::keys::k_location_y()) by { assert(crate::keys::k_is_not_accesible().len() != crate::keys::k_location_y().len()); }
        assert(crate::keys::k_is_not_accesible() != crate::keys::k_owner_index()) by { assert(crate::keys::k_is_not_accesible().len() != crate::keys::k_owner_index().len()); }
        assert(crate::keys::k_is_not_accesible() != crate::keys::k_owner_part_id()) by { assert(crate::keys::k_is_not_accesible().len() != crate::keys::k_owner_part_id().len()); }
        assert(crate::keys::k_is_not_accesible() != crate::keys::k_owner_part_display_mode()) by { assert(crate::keys::k_is_not_accesible().len() != crate::keys::k_owner_part_display_mode().len()); }
        assert(crate::keys::k_is_not_accesible() != crate::keys::k_radius()) by { assert(crate::keys::k_is_not_accesible().len() != crate::keys::k_radius().len()); }
        assert(crate::keys::k_is_not_accesible() != crate::keys::k_secondary_radius()) by { assert(crate::keys::k_is_not_accesible().len() != crate::keys::k_secondary_radius().len()); }
        assert(crate::keys::k_is_not_accesible() != crate::keys::k_unique_id()) by { assert(crate::keys::k_is_not_accesible().len() != crate::keys::k_unique_id().len()); }
        assert(crate::keys::k_is_solid() != crate::keys::k_line_width()) by { assert(crate::keys::k_is_solid().len() != crate::keys::k_line_width().len()); }
        assert(crate::keys::k_is_solid() != crate::keys::k_location_x()) by { assert(crate::keys::k_is_solid().len() != crate::keys::k_location_x().len()); }
        assert(crate::keys::k_is_solid() != crate::keys::k_location_y()) by { assert(crate::keys::k_is_solid().len() != crate::keys::k_location_y().len()); }
        assert(crate::keys::k_is_solid() != crate::keys::k_owner_index()) by { assert(crate::keys::k_is_solid().len() != crate::keys::k_owner_index().len()); }
        assert(crate::keys::k_is_solid() != crate::keys::k_owner_part_id()) by { assert(crate::keys::k_is_solid().len() != crate::keys::k_owner_part_id().len()); }
        assert(crate::keys::k_is_solid() != crate::keys::k_owner_part_display_mode()) by { assert(crate::keys::k_is_solid().len() != crate::keys::k_owner_part_display_mode().len()); }
        assert(crate::keys::k_is_solid() != crate::keys::k_radius()) by { assert(crate::keys::k_is_solid().len() != crate::keys::k_radius().len()); }
        assert(crate::keys::k_is_solid() != crate::keys::k_secondary_radius()) by { assert(crate::keys::k_is_solid().len() != crate::keys::k_secondary_radius().len()); }
        assert(crate::keys::k_is_solid() != crate::keys::k_unique_id()) by { assert(crate::keys::k_is_solid().len() != crate::keys::k_unique_id().len()); }
        assert(crate::keys::k_line_width() != crate::keys::k_location_x()) by { assert(crate::keys::k_line_width().len() != crate::keys::k_location_x().len()); }
        assert(crate::keys::k_line_width() != crate::keys::k_location_y()) by { assert(crate::keys::k_line_width().len() != crate::keys::k_location_y().len()); }
        assert(crate::keys::k_line_width() != crate::keys::k_owner_index()) by { assert(crate::keys::k_line_width().len() != crate::keys::k_owner_index().len()); }
        assert(crate::keys::k_line_width() != crate::keys::k_owner_part_id()) by { assert(crate::keys::k_line_width().len() != crate::keys::k_owner_part_id().len()); }
        assert(crate::keys::k_line_width() != crate::keys::k_owner_part_display_mode()) by { assert(crate::keys::k_line_width().len() != crate::keys::k_owner_part_display_mode().len()); }
        assert(crate::keys::k_line_width() != crate::keys::k_radius()) by { assert(crate::keys::k_line_width().len() != crate::keys::k_radius().len()); }
        assert(crate::keys::k_line_width() != crate::keys::k_secondary_radius()) by { assert(crate::keys::k_line_width().len() != crate::keys::k_secondary_radius().len()); }
        assert(crate::keys::k_line_width() != crate::keys::k_unique_id()) by { assert(crate::keys::k_line_width().len() != crate::keys::k_unique_id().len()); }
        assert(crate::keys::k_location_x() != crate::keys::k_location_y()) by { assert(crate::keys::k_location_x()[9] != crate::keys::k_location_y()[9]); }
        assert(crate::keys::k_location_x() != crate::keys::k_owner_index()) by { assert(crate::keys::k_location_x()[0] != crate::keys::k_owner_index()[0]); }
        assert(crate::keys::k_location_x() != crate::keys::k_owner_part_id()) by { assert(crate::keys::k_location_x().len() != crate::keys::k_owner_part_id().len()); }
        assert(crate::keys::k_location_x() != crate::keys::k_owner_part_display_mode()) by { assert(crate::keys::k_location_x().len() != crate::keys::k_owner_part_display_mode().len()); }
        assert(crate::keys::k_location_x() != crate::keys::k_radius()) by { assert(crate::keys::k_location_x().len() != crate::keys::k_radius().len()); }
        assert(crate::keys::k_location_x() != crate::keys::k_secondary_radius()) by { assert(crate::keys::k_location_x().len() != crate::keys::k_secondary_radius().len()); }
        assert(crate::keys::k_location_x() != crate::keys::k_unique_id()) by { assert(crate::keys::k_location_x().len() != crate::keys::k_unique_id().len()); }
        assert(crate::keys::k_location_y() != crate::keys::k_owner_index()) by { assert(crate::keys::k_location_y()[0] != crate::keys::k_owner_index()[0]); }
        assert(crate::keys::k_location_y() != crate::keys::k_owner_part_id()) by { assert(crate::keys::k_location_y().len() != crate::keys::k_owner_part_id().len()); }
        assert(crate::keys::k_location_y() != crate::keys::k_owner_part_display_mode()) by { assert(crate::keys::k_location_y().len() != crate::keys::k_owner_part_display_mode().len()); }
        assert(crate::keys::k_location_y() != crate::keys::k_radius()) by { assert(crate::keys::k_location_y().len() != crate::keys::k_radius().len()); }
        assert(crate::keys::k_location_y() != crate::keys::k_secondary_radius()) by { assert(crate::keys::k_location_y().len() != crate::keys::k_secondary_radius().len()); }
        assert(crate::keys::k_location_y() != crate::keys::k_unique_id()) by { assert(crate::keys::k_location_y().len() != crate::keys::k_unique_id().len()); }
        assert(crate::keys::k_owner_index() != crate::keys::k_owner_part_id()) by { assert(crate::keys::k_owner_index().len() != crate::keys::k_owner_part_id().len()); }
        assert(crate::keys::k_owner_index() != crate::keys::k_owner_part_display_mode()) by { assert(crate::keys::k_owner_index().len() != crate::keys::k_owner_part_display_mode().len()); }
        assert(crate::keys::k_owner_index() != crate::keys::k_radius()) by { assert(crate::keys::k_owner_index().len() != crate::keys::k_radius().len()); }
        assert(crate::keys::k_owner_index() != crate::keys::k_secondary_radius()) by { assert(crate::keys::k_owner_index().len() != crate::keys::k_secondary_radius().len()); }
        assert(crate::keys::k_owner_index() != crate::keys::k_unique_id()) by { assert(crate::keys::k_owner_index().len() != crate::keys::k_unique_id().len()); }
        assert(crate::keys::k_owner_part_id() != crate::keys::k_owner_part_display_mode()) by { assert(crate::keys::k_owner_part_id().len() != crate::keys::k_owner_part_display_mode().len()); }
        assert(crate::keys::k_owner_part_id() != crate::keys::k_radius()) by { assert(crate::keys::k_owner_part_id().len() != crate::keys::k_radius().len()); }
        assert(crate::keys::k_owner_part_id() != crate::keys::k_secondary_radius()) by { assert(crate::keys::k_owner_part_id().len() != crate::keys::k_secondary_radius().len()); }
        assert(crate::keys::k_owner_part_id() != crate::keys::k_unique_id()) by { assert(crate::keys::k_owner_part_id().len() != crate::keys::k_unique_id().len()); }
        assert(crate::keys::k_owner_part_display_mode() != crate::keys::k_radius()) by { assert(crate::keys::k_owner_part_display_mode().len() != crate::keys::k_radius().len()); }
        assert(crate::keys::k_owner_part_display_mode() != crate::keys::k_secondary_radius()) by { assert(crate::keys::k_owner_part_display_mode().len() != crate::keys::k_secondary_radius().len()); }
        assert(crate::keys::k_owner_part_display_mode() != crate::keys::k_unique_id()) by { assert(crate::keys::k_owner_part_display_mode().len() != crate::keys::k_unique_id().len()); }
        assert(crate::keys::k_radius() != crate::keys::k_secondary_radius()) by { assert(crate::keys::k_radius().len() != crate::keys::k_secondary_radius().len()); }
        assert(crate::keys::k_radius() != crate::keys::k_unique_id()) by { assert(crate::keys::k_radius().len() != crate::keys::k_unique_id().len()); }
        assert(crate::keys::k_secondary_radius() != crate::keys::k_unique_id()) by { assert(crate::keys::k_secondary_radius().len() != crate::keys::k_unique_id().len()); }
    }
        let mut x = Ellipse {
        area_color: Rgb { r: 0, g: 0, b: 0 },
        color: Rgb { r: 0, g: 0, b: 0 },
        index_in_sheet: 0,
        is_not_accessible: false,
        is_solid: false,
        line_width: 0,
        location: Location { x: 0, y: 0 },
        owner_index: 0,
        owner_part_id: 0,
        owner_part_display_mode: 0,
        radius: 0,
        secondary_radius: 0,
        unique_id: UniqueId::Simple([0x30u8, 0x30u8, 0x30u8, 0x30u8, 0x30u8, 0x30u8, 0x30u8, 0x30u8]),
        };

        let n = pairs.len();
        let mut i: usize = 0;
        while i < n
            invariant
                0 <= i <= n,
                n == pairs@.len(),
                !Ellipse::spec_fails(p.take(i as int)),
                Ellipse::spec_matches(x, p.take(i as int)),

                counter.count == sat_add(old(counter).count, Ellipse::spec_unknown(p.take(i as int))),
                0 <= Ellipse::spec_unknown(p.take(i as int)) <= i,
            decreases n - i,
        {
            let key: &[u8] = pairs[i].0.as_slice();
            let val: &[u8] = pairs[i].1.as_slice();
            proof {
                assert(p[i as int] == (pairs@[i as int].0@, pairs@[i as int].1@));
                assert(p.take(i as int + 1).drop_last() =~= p.take(i as int));
                assert(p.take(i as int + 1).last() == p[i as int]);
                assert forall|j: int| 0 <= j <= i implies #[trigger] p.take(i as int + 1).take(j)
                    == p.take(j) by {
                    assert(p.take(i as int + 1).take(j) =~= p.take(j));
                }
                assert forall|j: int| 0 <= j <= i implies #[trigger] p.take(i as int).take(j)
                    == p.take(j) by {
                    assert(p.take(i as int).take(j) =~= p.take(j));
                }
            }
        if crate::common::bytes_eq(key, a_area_color.as_slice()) {
                    match Rgb::from_utf8(val) {
                        Ok(v) => { x.area_color = v; },
                        Err(e) => {
                            proof {
                                assert(p[i as int].0 == crate::keys::k_area_color());
                                assert(kind_field_fails(p, FieldKind::Color, crate::keys::k_area_color()));
                            }
                            return Err(e);
                        },
                    }
                }
        else if crate::common::bytes_eq(key, a_color.as_slice()) {
                    match Rgb::from_utf8(val) {
                        Ok(v) => { x.color = v; },
                        Err(e) => {
                            proof {
                                assert(p[i as int].0 == crate::keys::k_color());
                                assert(kind_field_fails(p, FieldKind::Color, crate::keys::k_color()));
                            }
                            return Err(e);
                        },
                    }
                }
        else if crate::common::bytes_eq(key, a_index_in_sheet.as_slice()) {
                    match crate::parse::parse_i16(val) {
                        Ok(v) => { x.index_in_sheet = v; },
                        Err(e) => {
                            proof {
                                assert(p[i as int].0 == crate::keys::k_index_in_sheet());
                                assert(kind_field_fails(p, FieldKind::I16, crate::keys::k_index_in_sheet()));
                            }
                            return Err(e);
                        },
                    }
                }
        else if crate::common::bytes_eq(key, a_is_not_accesible.as_slice()) {
                    match crate::parse::parse_bool(val) {
                        Ok(v) => { x.is_not_accessible = v; },
                        Err(e) => {
                            proof {
                                assert(p[i as int].0 == crate::keys::k_is_not_accesible());
                                assert(kind_field_fails(p, FieldKind::Bool, crate::keys::k_is_not_accesible()));
                            }
                            return Err(e);
                        },
                    }
                }
        else if crate::common::bytes_eq(key, a_is_solid.as_slice()) {
                    match crate::parse::parse_bool(val) {
                        Ok(v) => { x.is_solid = v; },
                        Err(e) => {
                            proof {
                                assert(p[i as int].0 == crate::keys::k_is_solid());
                                assert(kind_field_fails(p, FieldKind::Bool, crate::keys::k_is_solid()));
                            }
                            return Err(e);
                        },
                    }
                }
        else if crate::common::bytes_eq(key, a_line_width.as_slice()) {
                    match crate::parse::parse_u32(val) {
                        Ok(n) => match crate::common::mils_to_nm_u32(n) {
                            Ok(v) => { x.line_width = v; },
                            Err(e) => {
                                proof {
                                    assert(p[i as int].0 == crate::keys::k_line_width());
                                    assert(kind_field_fails(p, FieldKind::MilsU32, crate::keys::k_line_width()));
                                }
                                return Err(e);
                            },
                        },
                        Err(e) => {
                            proof {
                                assert(p[i as int].0 == crate::keys::k_line_width());
                                assert(kind_field_fails(p, FieldKind::MilsU32, crate::keys::k_line_width()));
                            }
                            return Err(e);
                        },
                    }
                }
        else if crate::common::bytes_eq(key, a_location_x.as_slice()) {
                    match crate::parse::parse_i32(val) {
                        Ok(v) => { x.location.x = v; },
                        Err(e) => {
                            proof {
                                assert(p[i as int].0 == crate::keys::k_location_x());
                                assert(kind_field_fails(p, FieldKind::I32, crate::keys::k_location_x()));
                            }
                            return Err(e);
                        },
                    }
                }
        else if crate::common::bytes_eq(key, a_location_y.as_slice()) {
                    match crate::parse::parse_i32(val) {
                        Ok(v) => { x.location.y = v; },
                        Err(e) => {
                            proof {
                                assert(p[i as int].0 == crate::keys::k_location_y());
                                assert(kind_field_fails(p, FieldKind::I32, crate::keys::k_location_y()));
                            }
                            return Err(e);
                        },
                    }
                }
        else if crate::common::bytes_eq(key, a_owner_index.as_slice()) {
                    match crate::parse::parse_u8(val) {
                        Ok(v) => { x.owner_index = v; },
                        Err(e) => {
                            proof {
                                assert(p[i as int].0 == crate::keys::k_owner_index());
                                assert(kind_field_fails(p, FieldKind::U8, crate::keys::k_owner_index()));
                            }
                            return Err(e);
                        },
                    }
                }
        else if crate::common::bytes_eq(key, a_owner_part_id.as_slice()) {
                    match crate::parse::parse_i8(val) {
                        Ok(v) => { x.owner_part_id = v; },
                        Err(e) => {
                            proof {
                                assert(p[i as int].0 == crate::keys::k_owner_part_id());
                                assert(kind_field_fails(p, FieldKind::I8, crate::keys::k_owner_part_id()));
                            }
                            return Err(e);
                        },
                    }
                }
        else if crate::common::bytes_eq(key, a_owner_part_display_mode.as_slice()) {
                    match crate::parse::parse_i8(val) {
                        Ok(v) => { x.owner_part_display_mode = v; },
                        Err(e) => {
                            proof {
                                assert(p[i as int].0 == crate::keys::k_owner_part_display_mode());
                                assert(kind_field_fails(p, FieldKind::I8, crate::keys::k_owner_part_display_mode()));
                            }
                            return Err(e);
                        },
                    }
                }
        else if crate::common::bytes_eq(key, a_radius.as_slice()) {
                    match crate::parse::parse_i32(val) {
                        Ok(v) => { x.radius = v; },
                        Err(e) => {
                            proof {
                                assert(p[i as int].0 == crate::keys::k_radius());
                                assert(kind_field_fails(p, FieldKind::I32, crate::keys::k_radius()));
                            }
                            return Err(e);
                        },
                    }
                }
        else if crate::common::bytes_eq(key, a_secondary_radius.as_slice()) {
                    match crate::parse::parse_i32(val) {
                        Ok(v) => { x.secondary_radius = v; },
                        Err(e) => {
                            proof {
                                assert(p[i as int].0 == crate::keys::k_secondary_radius());
                                assert(kind_field_fails(p, FieldKind::I32, crate::keys::k_secondary_radius()));
                            }
                            return Err(e);
                        },
                    }
                }
        else if crate::common::bytes_eq(key, a_unique_id.as_slice()) {
                    match UniqueId::from_utf8(val) {
                        Ok(v) => { x.unique_id = v; },
                        Err(e) => {
                            proof {
                                assert(p[i as int].0 == crate::keys::k_unique_id());
                                assert(kind_field_fails(p, FieldKind::Uid, crate::keys::k_unique_id()));
                            }
                            return Err(e);
                        },
                    }
                }
        else {
            crate::logging::macro_unsupported_key(counter, "Ellipse", key, val);
        }
            i += 1;
        }
        proof {
            assert(p.take(n as int) =~= p);
        }
        Ok(x)
    }
}

impl Piechart {
    /// The wire record ID of this kind.
    pub open spec fn spec_record_id() -> u32 {
        9
    }

    /// Whether the binder recognizes this wire key.
    pub open spec fn spec_known_key(k: Seq<u8>) -> bool {
        ||| k == crate::keys::k_owner_index()
        ||| k == crate::keys::k_owner_part_id()
    }

    /// How many pairs hold keys the binder does not recognize.
    pub open spec fn spec_unknown(p: SpecPairs) -> int
        decreases p.len(),
    {
        if p.len() == 0 {
            0
        } else {
            Self::spec_unknown(p.drop_last()) + if Self::spec_known_key(p.last().0) {
                0int
            } else {
                1int
            }
        }
    }

    /// Whether some pair's value is one its field's parser rejects.
    pub open spec fn spec_fails(p: SpecPairs) -> bool {
        ||| kind_field_fails(p, FieldKind::U8, crate::keys::k_owner_index())
        ||| kind_field_fails(p, FieldKind::I8, crate::keys::k_owner_part_id())
    }

    /// Each field as the walk of the pairs leaves it.
    pub open spec fn spec_matches(x: Piechart, p: SpecPairs) -> bool {
        &&& x.owner_index == u8_field(p, crate::keys::k_owner_index())
        &&& x.owner_part_id == i8_field(p, crate::keys::k_owner_part_id())
    }

    /// Bind the fields of one `Piechart` record from its key-value pairs.
    #[verifier::loop_isolation(false)]
    #[verifier::rlimit(100)]
    pub fn from_record(pairs: &[(Vec<u8>, Vec<u8>)], counter: &mut UnsupportedCounter) -> (r:
        Result<Piechart, ErrorKind>)
        ensures
            r is Ok <==> !Piechart::spec_fails(pairs_view(pairs@)),
            r is Ok ==> Piechart::spec_matches(r->Ok_0, pairs_view(pairs@)),
            r is Ok ==> final(counter).count == sat_add(
                old(counter).count,
                Piechart::spec_unknown(pairs_view(pairs@)),
            ),
            final(counter).count >= old(counter).count,
    {
        let ghost p = pairs_view(pairs@);
        proof {
            crate::common::lemma_pairs_view(pairs@);
            assert(p.take(0) =~= Seq::<(Seq<u8>, Seq<u8>)>::empty());
        }
    let a_owner_index: [u8; 10] = [0x4fu8, 0x77u8, 0x6eu8, 0x65u8, 0x72u8, 0x49u8, 0x6eu8, 0x64u8, 0x65u8, 0x78u8];
    let a_owner_part_id: [u8; 11] = [0x4fu8, 0x77u8, 0x6eu8, 0x65u8, 0x72u8, 0x50u8, 0x61u8, 0x72u8, 0x74u8, 0x49u8, 0x64u8];
    proof {
        assert(a_owner_index@ =~= crate::keys::k_owner_index());
        assert(a_owner_part_id@ =~= crate::keys::k_owner_part_id());
        assert(crate::keys::k_owner_index() != crate::keys::k_owner_part_id()) by { assert(crate::keys::k_owner_index().len() != crate::keys::k_owner_part_id().len()); }
    }
        let mut x = Piechart {
        owner_index: 0,
        owner_part_id: 0,
        };

        let n = pairs.len();
        let mut i: usize = 0;
        while i < n
            invariant
                0 <= i <= n,
                n == pairs@.len(),
                !Piechart::spec_fails(p.take(i as int)),
                Piechart::spec_matches(x, p.take(i as int)),

                counter.count == sat_add(old(counter).count, Piechart::spec_unknown(p.take(i as int))),
                0 <= Piechart::spec_unknown(p.take(i as int)) <= i,
            decreases n - i,
        {
            let key: &[u8] = pairs[i].0.as_slice();
            let val: &[u8] = pairs[i].1.as_slice();
            proof {
                assert(p[i as int] == (pairs@[i as int].0@, pairs@[i as int].1@));
                assert(p.take(i as int + 1).drop_last() =~= p.take(i as int));
                assert(p.take(i as int + 1).last() == p[i as int]);
                assert forall|j: int| 0 <= j <= i implies #[trigger] p.take(i as int + 1).take(j)
                    == p.take(j) by {
                    assert(p.take(i as int + 1).take(j) =~= p.take(j));
                }
                assert forall|j: int| 0 <= j <= i implies #[trigger] p.take(i as int).take(j)
                    == p.take(j) by {
                    assert(p.take(i as int).take(j) =~= p.take(j));
                }
            }
        if crate::common::bytes_eq(key, a_owner_index.as_slice()) {
                    match crate::parse::parse_u8(val) {
                        Ok(v) => { x.owner_index = v; },
                        Err(e) => {
                            proof {
                                assert(p[i as int].0 == crate::keys::k_owner_index());
                                assert(kind_field_fails(p, FieldKind::U8, crate::keys::k_owner_index()));
                            }
                            return Err(e);
                        },
                    }
                }
        else if crate::common::bytes_eq(key, a_owner_part_id.as_slice()) {
                    match crate::parse::parse_i8(val) {
                        Ok(v) => { x.owner_part_id = v; },
                        Err(e) => {
                            proof {
                                assert(p[i as int].0 == crate::keys::k_owner_part_id());
                                assert(kind_field_fails(p, FieldKind::I8, crate::keys::k_owner_part_id()));
                            }
                            return Err(e);
                        },
                    }
                }
        else {
            crate::logging::macro_unsupported_key(counter, "Piechart", key, val);
        }
            i += 1;
        }
        proof {
            assert(p.take(n as int) =~= p);
        }
        Ok(x)
    }
}

impl RectangleRounded {
    /// The wire record ID of this kind.
    pub open spec fn spec_record_id() -> u32 {
        10
    }

    /// Whether the binder recognizes this wire key.
    pub open spec fn spec_known_key(k: Seq<u8>) -> bool {
        ||| k == crate::keys::k_area_color()
        ||| k == crate::keys::k_color()
        ||| k == crate::keys::k_corner_x()
        ||| k == crate::keys::k_corner_y()
        ||| k == crate::keys::k_corner_x_radius()
        ||| k == crate::keys::k_corner_y_radius()
        ||| k == crate::keys::k_index_in_sheet()
        ||| k == crate::keys::k_is_not_accesible()
        ||| k == crate::keys::k_is_solid()
        ||| k == crate::keys::k_line_width()
        ||| k == crate::keys::k_location_x()
        ||| k == crate::keys::k_location_y()
        ||| k == crate::keys::k_owner_index()
        ||| k == crate::keys::k_owner_part_id()
        ||| k == crate::keys::k_owner_part_display_mode()
        ||| k == crate::keys::k_transparent()
        ||| k == crate::keys::k_unique_id()
    }

    /// How many pairs hold keys the binder does not recognize.
    pub open spec fn spec_unknown(p: SpecPairs) -> int
        decreases p.len(),
    {
        if p.len() == 0 {
            0
        } else {
            Self::spec_unknown(p.drop_last()) + if Self::spec_known_key(p.last().0) {
                0int
            } else {
                1int
            }
        }
    }

    /// Whether some pair's value is one its field's parser rejects.
    pub open spec fn spec_fails(p: SpecPairs) -> bool {
        ||| kind_field_fails(p, FieldKind::Color, crate::keys::k_area_color())
        ||| kind_field_fails(p, FieldKind::Color, crate::keys::k_color())
        ||| kind_field_fails(p, FieldKind::I32, crate::keys::k_corner_x())
        ||| kind_field_fails(p, FieldKind::I32, crate::keys::k_corner_y())
        ||| kind_field_fails(p, FieldKind::I32, crate::keys::k_corner_x_radius())
        ||| kind_field_fails(p, FieldKind::I32, crate::keys::k_corner_y_radius())
        ||| kind_field_fails(p, FieldKind::I16, crate::keys::k_index_in_sheet())
        ||| kind_field_fails(p, FieldKind::Bool, crate::keys::k_is_not_accesible())
        ||| kind_field_fails(p, FieldKind::Bool, crate::keys::k_is_solid())
        ||| kind_field_fails(p, FieldKind::MilsU32, crate::keys::k_line_width())
        ||| kind_field_fails(p, FieldKind::I32, crate::keys::k_location_x())
        ||| kind_field_fails(p, FieldKind::I32, crate::keys::k_location_y())
        ||| kind_field_fails(p, FieldKind::U8, crate::keys::k_owner_index())
        ||| kind_field_fails(p, FieldKind::I8, crate::keys::k_owner_part_id())
        ||| kind_field_fails(p, FieldKind::I8, crate::keys::k_owner_part_display_mode())
        ||| kind_field_fails(p, FieldKind::Bool, crate::keys::k_transparent())
        ||| kind_field_fails(p, FieldKind::Uid, crate::keys::k_unique_id())
    }

    /// Each field as the walk of the pairs leaves it.
    pub open spec fn spec_matches(x: RectangleRounded, p: SpecPairs) -> bool {
        &&& x.area_color == color_field(p, crate::keys::k_area_color())
        &&& x.color == color_field(p, crate::keys::k_color())
        &&& x.corner == loc_field(p, crate::keys::k_corner_x(), crate::keys::k_corner_y())
        &&& x.corner_x_radius == i32_field(p, crate::keys::k_corner_x_radius())
        &&& x.corner_y_radius == i32_field(p, crate::keys::k_corner_y_radius())
        &&& x.index_in_sheet == i16_field(p, crate::keys::k_index_in_sheet())
        &&& x.is_not_accessible == bool_field(p, crate::keys::k_is_not_accesible())
        &&& x.is_solid == bool_field(p, crate::keys::k_is_solid())
        &&& x.line_width == mils_u32_field(p, crate::keys::k_line_width())
        &&& x.location == loc_field(p, crate::keys::k_location_x(), crate::keys::k_location_y())
        &&& x.owner_index == u8_field(p, crate::keys::k_owner_index())
        &&& x.owner_part_id == i8_field(p, crate::keys::k_owner_part_id())
        &&& x.owner_part_display_mode == i8_field(p, crate::keys::k_owner_part_display_mode())
        &&& x.transparent == bool_field(p, crate::keys::k_transparent())
        &&& x.unique_id == uid_field(p, crate::keys::k_unique_id())
    }

    /// Bind the fields of one `RectangleRounded` record from its key-value pairs.
    #[verifier::loop_isolation(false)]
    #[verifier::rlimit(100)]
    pub fn from_record(pairs: &[(Vec<u8>, Vec<u8>)], counter: &mut UnsupportedCounter) -> (r:
        Result<RectangleRounded, ErrorKind>)
        ensures
            r is Ok <==> !RectangleRounded::spec_fails(pairs_view(pairs@)),
            r is Ok ==> RectangleRounded::spec_matches(r->Ok_0, pairs_view(pairs@)),
            r is Ok ==> final(counter).count == sat_add(
                old(counter).count,
                RectangleRounded::spec_unknown(pairs_view(pairs@)),
            ),
            final(counter).count >= old(counter).count,
    {
        let ghost p = pairs_view(pairs@);
        proof {
            crate::common::lemma_pairs_view(pairs@);
            assert(p.take(0) =~= Seq::<(Seq<u8>, Seq<u8>)>::empty());
        }
    let a_area_color: [u8; 9] = [0x41u8, 0x72u8, 0x65u8, 0x61u8, 0x43u8, 0x6fu8, 0x6cu8, 0x6fu8, 0x72u8];
    let a_color: [u8; 5] = [0x43u8, 0x6fu8, 0x6cu8, 0x6fu8, 0x72u8];
    let a_corner_x: [u8; 8] = [0x43u8, 0x6fu8, 0x72u8, 0x6eu8, 0x65u8, 0x72u8, 0x2eu8, 0x58u8];
    let a_corner_y: [u8; 8] = [0x43u8, 0x6fu8, 0x72u8, 0x6eu8, 0x65u8, 0x72u8, 0x2eu8, 0x59u8];
    let a_corner_x_radius: [u8; 13] = [0x43u8, 0x6fu8, 0x72u8, 0x6eu8, 0x65u8, 0x72u8, 0x58u8, 0x52u8, 0x61u8, 0x64u8, 0x69u8, 0x75u8, 0x73u8];
    let a_corner_y_radius: [u8; 13] = [0x43u8, 0x6fu8, 0x72u8, 0x6eu8, 0x65u8, 0x72u8, 0x59u8, 0x52u8, 0x61u8, 0x64u8, 0x69u8, 0x75u8, 0x73u8];
    let a_index_in_sheet: [u8; 12] = [0x49u8, 0x6eu8, 0x64u8, 0x65u8, 0x78u8, 0x49u8, 0x6eu8, 0x53u8, 0x68u8, 0x65u8, 0x65u8, 0x74u8];
    let a_is_not_accesible: [u8; 14] = [0x49u8, 0x73u8, 0x4eu8, 0x6fu8, 0x74u8, 0x41u8, 0x63u8, 0x63u8, 0x65u8, 0x73u8, 0x69u8, 0x62u8, 0x6cu8, 0x65u8];
    let a_is_solid: [u8; 7] = [0x49u8, 0x73u8, 0x53u8, 0x6fu8, 0x6cu8, 0x69u8, 0x64u8];
    let a_line_width: [u8; 9] = [0x4cu8, 0x69u8, 0x6eu8, 0x65u8, 0x57u8, 0x69u8, 0x64u8, 0x74u8, 0x68u8];
    let a_location_x: [u8; 10] = [0x4cu8, 0x6fu8, 0x63u8, 0x61u8, 0x74u8, 0x69u8, 0x6fu8, 0x6eu8, 0x2eu8, 0x58u8];
    let a_location_y: [u8; 10] = [0x4cu8, 0x6fu8, 0x63u8, 0x61u8, 0x74u8, 0x69u8, 0x6fu8, 0x6eu8, 0x2eu8, 0x59u8];
    let a_owner_index: [u8; 10] = [0x4fu8, 0x77u8, 0x6eu8, 0x65u8, 0x72u8, 0x49u8, 0x6eu8, 0x64u8, 0x65u8, 0x78u8];
    let a_owner_part_id: [u8; 11] = [0x4fu8, 0x77u8, 0x6eu8, 0x65u8, 0x72u8, 0x50u8, 0x61u8, 0x72u8, 0x74u8, 0x49u8, 0x64u8];
    let a_owner_part_display_mode: [u8; 20] = [0x4fu8, 0x77u8, 0x6eu8, 0x65u8, 0x72u8, 0x50u8, 0x61u8, 0x72u8, 0x74u8, 0x44u8, 0x69u8, 0x73u8, 0x70u8, 0x6cu8, 0x61u8, 0x79u8, 0x4du8, 0x6fu8, 0x64u8, 0x65u8];
    let a_transparent: [u8; 11] = [0x54u8, 0x72u8, 0x61u8, 0x6eu8, 0x73u8, 0x70u8, 0x61u8, 0x72u8, 0x65u8, 0x6eu8, 0x74u8];
    let a_unique_id: [u8; 8] = [0x55u8, 0x6eu8, 0x69u8, 0x71u8, 0x75u8, 0x65u8, 0x49u8, 0x44u8];
    proof {
        assert(a_area_color@ =~= crate::keys::k_area_color());
        assert(a_color@ =~= crate::keys::k_color());
        assert(a_corner_x@ =~= crate::keys::k_corner_x());
        assert(a_corner_y@ =~= crate::keys::k_corner_y());
        assert(a_corner_x_radius@ =~= crate::keys::k_corner_x_radius());
        assert(a_corner_y_radius@ =~= crate::keys::k_corner_y_radius());
        assert(a_index_in_sheet@ =~= crate::keys::k_index_in_sheet());
        assert(a_is_not_accesible@ =~= crate::keys::k_is_not_accesible());
        assert(a_is_solid@ =~= crate::keys::k_is_solid());
        assert(a_line_width@ =~= crate::keys::k_line_width());
        assert(a_location_x@ =~= crate::keys::k_location_x());
        assert(a_location_y@ =~= crate::keys::k_location_y());
        assert(a_owner_index@ =~= crate::keys::k_owner_index());
        assert(a_owner_part_id@ =~= crate::keys::k_owner_part_id());
        assert(a_owner_part_display_mode@ =~= crate::keys::k_owner_part_display_mode());
        assert(a_transparent@ =~= crate::keys::k_transparent());
        assert(a_unique_id@ =~= crate::keys::k_unique_id());
        assert(crate::keys::k_area_color() != crate::keys::k_color()) by { assert(crate::keys::k_area_color().len() != crate::keys::k_color().len()); }
        assert(crate::keys::k_area_color() != crate::keys::k_corner_x()) by { assert(crate::keys::k_area_color().len() != crate::keys::k_corner_x().len()); }
        assert(crate::keys::k_area_color() != crate::keys::k_corner_y()) by { assert(crate::keys::k_area_color().len() != crate::keys::k_corner_y().len()); }
        assert(crate::keys::k_area_color() != crate::keys::k_corner_x_radius()) by { assert(crate::keys::k_area_color().len() != crate::keys::k_corner_x_radius().len()); }
        assert(crate::keys::k_area_color() != crate::keys::k_corner_y_radius()) by { assert(crate::keys::k_area_color().len() != crate::keys::k_corner_y_radius().len()); }
        assert(crate::keys::k_area_color() != crate::keys::k_index_in_sheet()) by { assert(crate::keys::k_area_color().len() != crate::keys::k_index_in_sheet().len()); }
        assert(crate::keys::k_area_color() != crate::keys::k_is_not_accesible()) by { assert(crate::keys::k_area_color().len() != crate::keys::k_is_not_accesible().len()); }
        assert(crate::keys::k_area_color() != crate::keys::k_is_solid()) by { assert(crate::keys::k_area_color().len() != crate::keys::k_is_solid().len()); }
        assert(crate::keys::k_area_color() != crate::keys::k_line_width()) by { assert(crate::keys::k_area_color()[0] != crate::keys::k_line_width()[0]); }
        assert(crate::keys::k_area_color() != crate::keys::k_location_x()) by { assert(crate::keys::k_area_color().len() != crate::keys::k_location_x().len()); }
        assert(crate::keys::k_area_color() != crate::keys::k_location_y()) by { assert(crate::keys::k_area_color().len() != crate::keys::k_location_y().len()); }
        assert(crate::keys::k_area_color() != crate::keys::k_owner_index()) by { assert(crate::keys::k_area_color().len() != crate::keys::k_owner_index().len()); }
        assert(crate::keys::k_area_color() != crate::keys::k_owner_part_id()) by { assert(crate::keys::k_area_color().len() != crate::keys::k_owner_part_id().len()); }
        assert(crate::keys::k_area_color() != crate::keys::k_owner_part_display_mode()) by { assert(crate::keys::k_area_color().len() != crate::keys::k_owner_part_display_mode().len()); }
        assert(crate::keys::k_area_color() != crate::keys::k_transparent()) by { assert(crate::keys::k_area_color().len() != crate::keys::k_transparent().len()); }
        assert(crate::keys::k_area_color() != crate::keys::k_unique_id()) by { assert(crate::keys::k_area_color().len() != crate::keys::k_unique_id().len()); }
        assert(crate::keys::k_color() != crate::keys::k_corner_x()) by { assert(crate::keys::k_color().len() != crate::keys::k_corner_x().len()); }
        assert(crate::keys::k_color() != crate::keys::k_corner_y()) by { assert(crate::keys::k_color().len() != crate::keys::k_corner_y().len()); }
        assert(crate::keys::k_color() != crate::keys::k_corner_x_radius()) by { assert(crate::keys::k_color().len() != crate::keys::k_corner_x_radius().len()); }
        assert(crate::keys::k_color() != crate::keys::k_corner_y_radius()) by { assert(crate::keys::k_color().len() != crate::keys::k_corner_y_radius().len()); }
        assert(crate::keys::k_color() != crate::keys::k_index_in_sheet()) by { assert(crate::keys::k_color().len() != crate::keys::k_index_in_sheet().len()); }
        assert(crate::keys::k_color() != crate::keys::k_is_not_accesible()) by { assert(crate::keys::k_color().len() != crate::keys::k_is_not_accesible().len()); }
        assert(crate::keys::k_color() != crate::keys::k_is_solid()) by { assert(crate::keys::k_color().len() != crate::keys::k_is_solid().len()); }
        assert(crate::keys::k_color() != crate::keys::k_line_width()) by { assert(crate::keys::k_color().len() != crate::keys::k_line_width().len()); }
        assert(crate::keys::k_color() != crate::keys::k_location_x()) by { assert(crate::keys::k_color().len() != crate::keys::k_location_x().len()); }
        assert(crate::keys::k_color() != crate::keys::k_location_y()) by { assert(crate::keys::k_color().len() != crate::keys::k_location_y().len()); }
        assert(crate::keys::k_color() != crate::keys::k_owner_index()) by { assert(crate::keys::k_color().len() != crate::keys::k_owner_index().len()); }
        assert(crate::keys::k_color() != crate::keys::k_owner_part_id()) by { assert(crate::keys::k_color().len() != crate::keys::k_owner_part_id().len()); }
        assert(crate::keys::k_color() != crate::keys::k_owner_part_display_mode()) by { assert(crate::keys::k_color().len() != crate::keys::k_owner_part_display_mode().len()); }
        assert(crate::keys::k_color() != crate::keys::k_transparent()) by { assert(crate::keys::k_color().len() != crate::keys::k_transparent().len()); }
        assert(crate::keys::k_color() != crate::keys::k_unique_id()) by { assert(crate::keys::k_color().len() != crate::keys::k_unique_id().len()); }
        assert(crate::keys::k_corner_x() != crate::keys::k_corner_y()) by { assert(crate::keys::k_corner_x()[7] != crate::keys::k_corner_y()[7]); }
        assert(crate::keys::k_corner_x() != crate::keys::k_corner_x_radius()) by { assert(crate::keys::k_corner_x().len() != crate::keys::k_corner_x_radius().len()); }
        assert(crate::keys::k_corner_x() != crate::keys::k_corner_y_radius()) by { assert(crate::keys::k_corner_x().len() != crate::keys::k_corner_y_radius().len()); }
        assert(crate::keys::k_corner_x() != crate::keys::k_index_in_sheet()) by { assert(crate::keys::k_corner_x().len() != crate::keys::k_index_in_sheet().len()); }
        assert(crate::keys::k_corner_x() != crate::keys::k_is_not_accesible()) by { assert(crate::keys::k_corner_x().len() != crate::keys::k_is_not_accesible().len()); }
        assert(crate::keys::k_corner_x() != crate::keys::k_is_solid()) by { assert(crate::keys::k_corner_x().len() != crate::keys::k_is_solid().len()); }
        assert(crate::keys::k_corner_x() != crate::keys::k_line_width()) by { assert(crate::keys::k_corner_x().len() != crate::keys::k_line_width().len()); }
        assert(crate::keys::k_corner_x() != crate::keys::k_location_x()) by { assert(crate::keys::k_corner_x().len() != crate::keys::k_location_x().len()); }
        assert(crate::keys::k_corner_x() != crate::keys::k_location_y()) by { assert(crate::keys::k_corner_x().len() != crate::keys::k_location_y().len()); }
        assert(crate::keys::k_corner_x() != crate::keys::k_owner_index()) by { assert(crate::keys::k_corner_x().len() != crate::keys::k_owner_index().len()); }
        assert(crate::keys::k_corner_x() != crate::keys::k_owner_part_id()) by { assert(crate::keys::k_corner_x().len() != crate::keys::k_owner_part_id().len()); }
        assert(crate::keys::k_corner_x() != crate::keys::k_owner_part_display_mode()) by { assert(crate::keys::k_corner_x().len() != crate::keys::k_owner_part_display_mode().len()); }
        assert(crate::keys::k_corner_x() != crate::keys::k_transparent()) by { assert(crate::keys::k_corner_x().len() != crate::keys::k_transparent().len()); }
        assert(crate::keys::k_corner_x() != crate::keys::k_unique_id()) by { assert(crate::keys::k_corner_x()[0] != crate::keys::k_unique_id()[0]); }
        assert(crate::keys::k_corner_y() != crate::keys::k_corner_x_radius()) by { assert(crate::keys::k_corner_y().len() != crate::keys::k_corner_x_radius().len()); }
        assert(crate::keys::k_corner_y() != crate::keys::k_corner_y_radius()) by { assert(crate::keys::k_corner_y().len() != crate::keys::k_corner_y_radius().len()); }
        assert(crate::keys::k_corner_y() != crate::keys::k_index_in_sheet()) by { assert(crate::keys::k_corner_y().len() != crate::keys::k_index_in_sheet().len()); }
        assert(crate::keys::k_corner_y() != crate::keys::k_is_not_accesible()) by { assert(crate::keys::k_corner_y().len() != crate::keys::k_is_not_accesible().len()); }
        assert(crate::keys::k_corner_y() != crate::keys::k_is_solid()) by { assert(crate::keys::k_corner_y().len() != crate::keys::k_is_solid().len()); }
        assert(crate::keys::k_corner_y() != crate::keys::k_line_width()) by { assert(crate::keys::k_corner_y().len() != crate::keys::k_line_width().len()); }
        assert(crate::keys::k_corner_y() != crate::keys::k_location_x()) by { assert(crate::keys::k_corner_y().len() != crate::keys::k_location_x().len()); }
        assert(crate::keys::k_corner_y() != crate::keys::k_location_y()) by { assert(crate::keys::k_corner_y().len() != crate::keys::k_location_y().len()); }
        assert(crate::keys::k_corner_y() != crate::keys::k_owner_index()) by { assert(crate::keys::k_corner_y().len() != crate::keys::k_owner_index().len()); }
        assert(crate::keys::k_corner_y() != crate::keys::k_owner_part_id()) by { assert(crate::keys::k_corner_y().len() != crate::keys::k_owner_part_id().len()); }
        assert(crate::keys::k_corner_y() != crate::keys::k_owner_part_display_mode()) by { assert(crate::keys::k_corner_y().len() != crate::keys::k_owner_part_display_mode().len()); }
        assert(crate::keys::k_corner_y() != crate::keys::k_transparent()) by { assert(crate::keys::k_corner_y().len() != crate::keys::k_transparent().len()); }
        assert(crate::keys::k_corner_y() != crate::keys::k_unique_id()) by { assert(crate::keys::k_corner_y()[0] != crate::keys::k_unique_id()[0]); }
        assert(crate::keys::k_corner_x_radius() != crate::keys::k_corner_y_radius()) by { assert(crate::keys::k_corner_x_radius()[6] != crate::keys::k_corner_y_radius()[6]); }
        assert(crate::keys::k_corner_x_radius() != crate::keys::k_index_in_sheet()) by { assert(crate::keys::k_corner_x_radius().len() != crate::keys::k_index_in_sheet().len()); }
        assert(crate::keys::k_corner_x_radius() != crate::keys::k_is_not_accesible()) by { assert(crate::keys::k_corner_x_radius().len() != crate::keys::k_is_not_accesible().len()); }
        assert(crate::keys::k_corner_x_radius() != crate::keys::k_is_solid()) by { assert(crate::keys::k_corner_x_radius().len() != crate::keys::k_is_solid().len()); }
        assert(crate::keys::k_corner_x_radius() != crate::keys::k_line_width()) by { assert(crate::keys::k_corner_x_radius().len() != crate::keys::k_line_width().len()); }
        assert(crate::keys::k_corner_x_radius() != crate::keys::k_location_x()) by { assert(crate::keys::k_corner_x_radius().len() != crate::keys::k_location_x().len()); }
        assert(crate::keys::k_corner_x_radius() != crate::keys::k_location_y()) by { assert(crate::keys::k_corner_x_radius().len() != crate::keys::k_location_y().len()); }
        assert(crate::keys::k_corner_x_radius() != crate::keys::k_owner_index()) by { assert(crate::keys::k_corner_x_radius().len() != crate::keys::k_owner_index().len()); }
        assert(crate::keys::k_corner_x_radius() != crate::keys::k_owner_part_id()) by { assert(crate::keys::k_corner_x_radius().len() != crate::keys::k_owner_part_id().len()); }
        assert(crate::keys::k_corner_x_radius() != crate::keys::k_owner_part_display_mode()) by { assert(crate::keys::k_corner_x_radius().len() != crate::keys::k_owner_part_display_mode().len()); }
        assert(crate::keys::k_corner_x_radius() != crate::keys::k_transparent()) by { assert(crate::keys::k_corner_x_radius().len() != crate::keys::k_transparent().len()); }
        assert(crate::keys::k_corner_x_radius() != crate::keys::k_unique_id()) by { assert(crate::keys::k_corner_x_radius().len() != crate::keys::k_unique_id().len()); }
        assert(crate::keys::k_corner_y_radius() != crate::keys::k_index_in_sheet()) by { assert(crate::keys::k_corner_y_radius().len() != crate::keys::k_index_in_sheet().len()); }
        assert(crate::keys::k_corner_y_radius() != crate::keys::k_is_not_accesible()) by { assert(crate::keys::k_corner_y_radius().len() != crate::keys::k_is_not_accesible().len()); }
        assert(crate::keys::k_corner_y_radius() != crate::keys::k_is_solid()) by { assert(crate::keys::k_corner_y_radius().len() != crate::keys::k_is_solid().len()); }
        assert(crate::keys::k_corner_y_radius() != crate::keys::k_line_width()) by { assert(crate::keys::k_corner_y_radius().len() != crate::keys::k_line_width().len()); }
        assert(crate::keys::k_corner_y_radius() != crate::keys::k_location_x()) by { assert(crate::keys::k_corner_y_radius().len() != crate::keys::k_location_x().len()); }
        assert(crate::keys::k_corner_y_radius() != crate::keys::k_location_y()) by { assert(crate::keys::k_corner_y_radius().len() != crate::keys::k_location_y().len()); }
        assert(crate::keys::k_corner_y_radius() != crate::keys::k_owner_index()) by { assert(crate::keys::k_corner_y_radius().len() != crate::keys::k_owner_index().len()); }
        assert(crate::keys::k_corner_y_radius() != crate::keys::k_owner_part_id()) by { assert(crate::keys::k_corner_y_radius().len() != crate::keys::k_owner_part_id().len()); }
        assert(crate::keys::k_corner_y_radius() != crate::keys::k_owner_part_display_mode()) by { assert(crate::keys::k_corner_y_radius().len() != crate::keys::k_owner_part_display_mode().len()); }
        assert(crate::keys::k_corner_y_radius() != crate::keys::k_transparent()) by { assert(crate::keys::k_corner_y_radius().len() != crate::keys::k_transparent().len()); }
        assert(crate::keys::k_corner_y_radius() != crate::keys::k_unique_id()) by { assert(crate::keys::k_corner_y_radius().len() != crate::keys::k_unique_id().len()); }
        assert(crate::keys::k_index_in_sheet() != crate::keys::k_is_not_accesible()) by { assert(crate::keys::k_index_in_sheet().len() != crate::keys::k_is_not_accesible().len()); }
        assert(crate::keys::k_index_in_sheet() != crate::keys::k_is_solid()) by { assert(crate::keys::k_index_in_sheet().len() != crate::keys::k_is_solid().len()); }
        assert(crate::keys::k_index_in_sheet() != crate::keys::k_line_width()) by { assert(crate::keys::k_index_in_sheet().len() != crate::keys::k_line_width().len()); }
        assert(crate::keys::k_index_in_sheet() != crate::keys::k_location_x()) by { assert(crate::keys::k_index_in_sheet().len() != crate::keys::k_location_x().len()); }
        assert(crate::keys::k_index_in_sheet() != crate::keys::k_location_y()) by { assert(crate::keys::k_index_in_sheet().len() != crate::keys::k_location_y().len()); }
        assert(crate::keys::k_index_in_sheet() != crate::keys::k_owner_index()) by { assert(crate::keys::k_index_in_sheet().len() != crate::keys::k_owner_index().len()); }
        assert(crate::keys::k_index_in_sheet() != crate::keys::k_owner_part_id()) by { assert(crate::keys::k_index_in_sheet().len() != crate::keys::k_owner_part_id().len()); }
        assert(crate::keys::k_index_in_sheet() != crate::keys::k_owner_part_display_mode()) by { assert(crate::keys::k_index_in_sheet().len() != crate::keys::k_owner_part_display_mode().len()); }
        assert(crate::keys::k_index_in_sheet() != crate::keys::k_transparent()) by { assert(crate::keys::k_index_in_sheet().len() != crate::keys::k_transparent().len()); }
        assert(crate::keys::k_index_in_sheet() != crate::keys::k_unique_id()) by { assert(crate::keys::k_index_in_sheet().len() != crate::keys::k_unique_id().len()); }
        assert(crate::keys::k_is_not_accesible() != crate::keys::k_is_solid()) by { assert(crate::keys::k_is_not_accesible().len() != crate::keys::k_is_solid().len()); }
        assert(crate::keys::k_is_not_accesible() != crate::keys::k_line_width()) by { assert(crate::keys::k_is_not_accesible().len() != crate::keys::k_line_width().len()); }
        assert(crate::keys::k_is_not_accesible() != crate::keys::k_location_x()) by { assert(crate::keys::k_is_not_accesible().len() != crate::keys::k_location_x().len()); }
        assert(crate::keys::k_is_not_accesible() != crate::keys::k_location_y()) by { assert(crate::keys::k_is_not_accesible().len() != crate::keys::k_location_y().len()); }
        assert(crate::keys::k_is_not_accesible() != crate::keys::k_owner_index()) by { assert(crate::keys::k_is_not_accesible().len() != crate::keys::k_owner_index().len()); }
        assert(crate::keys::k_is_not_accesible() != crate::keys::k_owner_part_id()) by { assert(crate::keys::k_is_not_accesible().len() != crate::keys::k_owner_part_id().len()); }
        assert(crate::keys::k_is_not_accesible() != crate::keys::k_owner_part_display_mode()) by { assert(crate::keys::k_is_not_accesible().len() != crate::keys::k_owner_part_display_mode().len()); }
        assert(crate::keys::k_is_not_accesible() != crate::keys::k_transparent()) by { assert(crate::keys::k_is_not_accesible().len() != crate::keys::k_transparent().len()); }
        assert(crate::keys::k_is_not_accesible() != crate::keys::k_unique_id()) by { assert(crate::keys::k_is_not_accesible().len() != crate::keys::k_unique_id().len()); }
        assert(crate::keys::k_is_solid() != crate::keys::k_line_width()) by { assert(crate::keys::k_is_solid().len() != crate::keys::k_line_width().len()); }
        assert(crate::keys::k_is_solid() != crate::keys::k_location_x()) by { assert(crate::keys::k_is_solid().len() != crate::keys::k_location_x().len()); }
        assert(crate::keys::k_is_solid() != crate::keys::k_location_y()) by { assert(crate::keys::k_is_solid().len() != crate::keys::k_location_y().len()); }
        assert(crate::keys::k_is_solid() != crate::keys::k_owner_index()) by { assert(crate::keys::k_is_solid().len() != crate::keys::k_owner_index().len()); }
        assert(crate::keys::k_is_solid() != crate::keys::k_owner_part_id()) by { assert(crate::keys::k_is_solid().len() != crate::keys::k_owner_part_id().len()); }
        assert(crate::keys::k_is_solid() != crate::keys::k_owner_part_display_mode()) by { assert(crate::keys::k_is_solid().len() != crate::keys::k_owner_part_display_mode().len()); }
        assert(crate::keys::k_is_solid() != crate::keys::k_transparent()) by { assert(crate::keys::k_is_solid().len() != crate::keys::k_transparent().len()); }
        assert(crate::keys::k_is_solid() != crate::keys::k_unique_id()) by { assert(crate::keys::k_is_solid().len() != crate::keys::k_unique_id().len()); }
        assert(crate::keys::k_line_width() != crate::keys::k_location_x()) by { assert(crate::keys::k_line_width().len() != crate::keys::k_location_x().len()); }
        assert(crate::keys::k_line_width() != crate::keys::k_location_y()) by { assert(crate::keys::k_line_width().len() != crate::keys::k_location_y().len()); }
        assert(crate::keys::k_line_width() != crate::keys::k_owner_index()) by { assert(crate::keys::k_line_width().len() != crate::keys::k_owner_index().len()); }
        assert(crate::keys::k_line_width() != crate::keys::k_owner_part_id()) by { assert(crate::keys::k_line_width().len() != crate::keys::k_owner_part_id().len()); }
        assert(crate::keys::k_line_width() != crate::keys::k_owner_part_display_mode()) by { assert(crate::keys::k_line_width().len() != crate::keys::k_owner_part_display_mode().len()); }
        assert(crate::keys::k_line_width() != crate::keys::k_transparent()) by { assert(crate::keys::k_line_width().len() != crate::keys::k_transparent().len()); }
        assert(crate::keys::k_line_width() != crate::keys::k_unique_id()) by { assert(crate::keys::k_line_width().len() != crate::keys::k_unique_id().len()); }
        assert(crate::keys::k_location_x() != crate::keys::k_location_y()) by { assert(crate::keys::k_location_x()[9] != crate::keys::k_location_y()[9]); }
        assert(crate::keys::k_location_x() != crate::keys::k_owner_index()) by { assert(crate::keys::k_location_x()[0] != crate::keys::k_owner_index()[0]); }
        assert(crate::keys::k_location_x() != crate::keys::k_owner_part_id()) by { assert(crate::keys::k_location_x().len() != crate::keys::k_owner_part_id().len()); }
        assert(crate::keys::k_location_x() != crate::keys::k_owner_part_display_mode()) by { assert(crate::keys::k_location_x().len() != crate::keys::k_owner_part_display_mode().len()); }
        assert(crate::keys::k_location_x() != crate::keys::k_transparent()) by { assert(crate::keys::k_location_x().len() != crate::keys::k_transparent().len()); }
        assert(crate::keys::k_location_x() != crate::keys::k_unique_id()) by { assert(crate::keys::k_location_x().len() != crate::keys::k_unique_id().len()); }
        assert(crate::keys::k_location_y() != crate::keys::k_owner_index()) by { assert(crate::keys::k_location_y()[0] != crate::keys::k_owner_index()[0]); }
        assert(crate::keys::k_location_y() != crate::keys::k_owner_part_id()) by { assert(crate::keys::k_location_y().len() != crate::keys::k_owner_part_id().len()); }
        assert(crate::keys::k_location_y() != crate::keys::k_owner_part_display_mode()) by { assert(crate::keys::k_location_y().len() != crate::keys::k_owner_part_display_mode().len()); }
        assert(crate::keys::k_location_y() != crate::keys::k_transparent()) by { assert(crate::keys::k_location_y().len() != crate::keys::k_transparent().len()); }
        assert(crate::keys::k_location_y() != crate::keys::k_unique_id()) by { assert(crate::keys::k_location_y().len() != crate::keys::k_unique_id().len()); }
        assert(crate::keys::k_owner_index() != crate::keys::k_owner_part_id()) by { assert(crate::keys::k_owner_index().len() != crate::keys::k_owner_part_id().len()); }
        assert(crate::keys::k_owner_index() != crate::keys::k_owner_part_display_mode()) by { assert(crate::keys::k_owner_index().len() != crate::keys::k_owner_part_display_mode().len()); }
        assert(crate::keys::k_owner_index() != crate::keys::k_transparent()) by { assert(crate::keys::k_owner_index().len() != crate::keys::k_transparent().len()); }
        assert(crate::keys::k_owner_index() != crate::keys::k_unique_id()) by { assert(crate::keys::k_owner_index().len() != crate::keys::k_unique_id().len()); }
        assert(crate::keys::k_owner_part_id() != crate::keys::k_owner_part_display_mode()) by { assert(crate::keys::k_owner_part_id().len() != crate::keys::k_owner_part_display_mode().len()); }
        assert(crate::keys::k_owner_part_id() != crate::keys::k_transparent()) by { assert(crate::keys::k_owner_part_id()[0] != crate::keys::k_transparent()[0]); }
        assert(crate::keys::k_owner_part_id() != crate::keys::k_unique_id()) by { assert(crate::keys::k_owner_part_id().len() != crate::keys::k_unique_id().len()); }
        assert(crate::keys::k_owner_part_display_mode() != crate::keys::k_transparent()) by { assert(crate::keys::k_owner_part_display_mode().len() != crate::keys::k_transparent().len()); }
        assert(crate::keys::k_owner_part_display_mode() != crate::keys::k_unique_id()) by { assert(crate::keys::k_owner_part_display_mode().len() != crate::keys::k_unique_id().len()); }
        assert(crate::keys::k_transparent() != crate::keys::k_unique_id()) by { assert(crate::keys::k_transparent().len() != crate::keys::k_unique_id().len()); }
    }
        let mut x = RectangleRounded {
        area_color: Rgb { r: 0, g: 0, b: 0 },
        color: Rgb { r: 0, g: 0, b: 0 },
        corner: Location { x: 0, y: 0 },
        corner_x_radius: 0,
        corner_y_radius: 0,
        index_in_sheet: 0,
        is_not_accessible: false,
        is_solid: false,
        line_width: 0,
        location: Location { x: 0, y: 0 },
        owner_index: 0,
        owner_part_id: 0,
        owner_part_display_mode: 0,
        transparent: false,
        unique_id: UniqueId::Simple([0x30u8, 0x30u8, 0x30u8, 0x30u8, 0x30u8, 0x30u8, 0x30u8, 0x30u8]),
        };

        let n = pairs.len();
        let mut i: usize = 0;
        while i < n
            invariant
                0 <= i <= n,
                n == pairs@.len(),
                !RectangleRounded::spec_fails(p.take(i as int)),
                RectangleRounded::spec_matches(x, p.take(i as int)),

                counter.count == sat_add(old(counter).count, RectangleRounded::spec_unknown(p.take(i as int))),
                0 <= RectangleRounded::spec_unknown(p.take(i as int)) <= i,
            decreases n - i,
        {
            let key: &[u8] = pairs[i].0.as_slice();
            let val: &[u8] = pairs[i].1.as_slice();
            proof {
                assert(p[i as int] == (pairs@[i as int].0@, pairs@[i as int].1@));
                assert(p.take(i as int + 1).drop_last() =~= p.take(i as int));
                assert(p.take(i as int + 1).last() == p[i as int]);
                assert forall|j: int| 0 <= j <= i implies #[trigger] p.take(i as int + 1).take(j)
                    == p.take(j) by {
                    assert(p.take(i as int + 1).take(j) =~= p.take(j));
                }
                assert forall|j: int| 0 <= j <= i implies #[trigger] p.take(i as int).take(j)
                    == p.take(j) by {
                    assert(p.take(i as int).take(j) =~= p.take(j));
                }
            }
        if crate::common::bytes_eq(key, a_area_color.as_slice()) {
                    match Rgb::from_utf8(val) {
                        Ok(v) => { x.area_color = v; },
                        Err(e) => {
                            proof {
                                assert(p[i as int].0 == crate::keys::k_area_color());
                                assert(kind_field_fails(p, FieldKind::Color, crate::keys::k_area_color()));
                            }
                            return Err(e);
                        },
                    }
                }
        else if crate::common::bytes_eq(key, a_color.as_slice()) {
                    match Rgb::from_utf8(val) {
                        Ok(v) => { x.color = v; },
                        Err(e) => {
                            proof {
                                assert(p[i as int].0 == crate::keys::k_color());
                                assert(kind_field_fails(p, FieldKind::Color, crate::keys::k_color()));
                            }
                            return Err(e);
                        },
                    }
                }
        else if crate::common::bytes_eq(key, a_corner_x.as_slice()) {
                    match crate::parse::parse_i32(val) {
                        Ok(v) => { x.corner.x = v; },
                        Err(e) => {
                            proof {
                                assert(p[i as int].0 == crate::keys::k_corner_x());
                                assert(kind_field_fails(p, FieldKind::I32, crate::keys::k_corner_x()));
                            }
                            return Err(e);
                        },
                    }
                }
        else if crate::common::bytes_eq(key, a_corner_y.as_slice()) {
                    match crate::parse::parse_i32(val) {
                        Ok(v) => { x.corner.y = v; },
                        Err(e) => {
                            proof {
                                assert(p[i as int].0 == crate::keys::k_corner_y());
                                assert(kind_field_fails(p, FieldKind::I32, crate::keys::k_corner_y()));
                            }
                            return Err(e);
                        },
                    }
                }
        else if crate::common::bytes_eq(key, a_corner_x_radius.as_slice()) {
                    match crate::parse::parse_i32(val) {
                        Ok(v) => { x.corner_x_radius = v; },
                        Err(e) => {
                            proof {
                                assert(p[i as int].0 == crate::keys::k_corner_x_radius());
                                assert(kind_field_fails(p, FieldKind::I32, crate::keys::k_corner_x_radius()));
                            }
                            return Err(e);
                        },
                    }
                }
        else if crate::common::bytes_eq(key, a_corner_y_radius.as_slice()) {
                    match crate::parse::parse_i32(val) {
                        Ok(v) => { x.corner_y_radius = v; },
                        Err(e) => {
                            proof {
                                assert(p[i as int].0 == crate::keys::k_corner_y_radius());
                                assert(kind_field_fails(p, FieldKind::I32, crate::keys::k_corner_y_radius()));
                            }
                            return Err(e);
                        },
                    }
                }
        else if crate::common::bytes_eq(key, a_index_in_sheet.as_slice()) {
                    match crate::parse::parse_i16(val) {
                        Ok(v) => { x.index_in_sheet = v; },
                        Err(e) => {
                            proof {
                                assert(p[i as int].0 == crate::keys::k_index_in_sheet());
                                assert(kind_field_fails(p, FieldKind::I16, crate::keys::k_index_in_sheet()));
                            }
                            return Err(e);
                        },
                    }
                }
        else if crate::common::bytes_eq(key, a_is_not_accesible.as_slice()) {
                    match crate::parse::parse_bool(val) {
                        Ok(v) => { x.is_not_accessible = v; },
                        Err(e) => {
                            proof {
                                assert(p[i as int].0 == crate::keys::k_is_not_accesible());
                                assert(kind_field_fails(p, FieldKind::Bool, crate::keys::k_is_not_accesible()));
                            }
                            return Err(e);
                        },
                    }
                }
        else if crate::common::bytes_eq(key, a_is_solid.as_slice()) {
                    match crate::parse::parse_bool(val) {
                        Ok(v) => { x.is_solid = v; },
                        Err(e) => {
                            proof {
                                assert(p[i as int].0 == crate::keys::k_is_solid());
                                assert(kind_field_fails(p, FieldKind::Bool, crate::keys::k_is_solid()));
                            }
                            return Err(e);
                        },
                    }
                }
        else if crate::common::bytes_eq(key, a_line_width.as_slice()) {
                    match crate::parse::parse_u32(val) {
                        Ok(n) => match crate::common::mils_to_nm_u32(n) {
                            Ok(v) => { x.line_width = v; },
                            Err(e) => {
                                proof {
                                    assert(p[i as int].0 == crate::keys::k_line_width());
                                    assert(kind_field_fails(p, FieldKind::MilsU32, crate::keys::k_line_width()));
                                }
                                return Err(e);
                            },
                        },
                        Err(e) => {
                            proof {
                                assert(p[i as int].0 == crate::keys::k_line_width());
                                assert(kind_field_fails(p, FieldKind::MilsU32, crate::keys::k_line_width()));
                            }
                            return Err(e);
                        },
                    }
                }
        else if crate::common::bytes_eq(key, a_location_x.as_slice()) {
                    match crate::parse::parse_i32(val) {
                        Ok(v) => { x.location.x = v; },
                        Err(e) => {
                            proof {
                                assert(p[i as int].0 == crate::keys::k_location_x());
                                assert(kind_field_fails(p, FieldKind::I32, crate::keys::k_location_x()));
                            }
                            return Err(e);
                        },
                    }
                }
        else if crate::common::bytes_eq(key, a_location_y.as_slice()) {
                    match crate::parse::parse_i32(val) {
                        Ok(v) => { x.location.y = v; },
                        Err(e) => {
                            proof {
                                assert(p[i as int].0 == crate::keys::k_location_y());
                                assert(kind_field_fails(p, FieldKind::I32, crate::keys::k_location_y()));
                            }
                            return Err(e);
                        },
                    }
                }
        else if crate::common::bytes_eq(key, a_owner_index.as_slice()) {
                    match crate::parse::parse_u8(val) {
                        Ok(v) => { x.owner_index = v; },
                        Err(e) => {
                            proof {
                                assert(p[i as int].0 == crate::keys::k_owner_index());
                                assert(kind_field_fails(p, FieldKind::U8, crate::keys::k_owner_index()));
                            }
                            return Err(e);
                        },
                    }
                }
        else if crate::common::bytes_eq(key, a_owner_part_id.as_slice()) {
                    match crate::parse::parse_i8(val) {
                        Ok(v) => { x.owner_part_id = v; },
                        Err(e) => {
                            proof {
                                assert(p[i as int].0 == crate::keys::k_owner_part_id());
                                assert(kind_field_fails(p, FieldKind::I8, crate::keys::k_owner_part_id()));
                            }
                            return Err(e);
                        },
                    }
                }
        else if crate::common::bytes_eq(key, a_owner_part_display_mode.as_slice()) {
                    match crate::parse::parse_i8(val) {
                        Ok(v) => { x.owner_part_display_mode = v; },
                        Err(e) => {
                            proof {
                                assert(p[i as int].0 == crate::keys::k_owner_part_display_mode());
                                assert(kind_field_fails(p, FieldKind::I8, crate::keys::k_owner_part_display_mode()));
                            }
                            return Err(e);
                        },
                    }
                }
        else if crate::common::bytes_eq(key, a_transparent.as_slice()) {
                    match crate::parse::parse_bool(val) {
                        Ok(v) => { x.transparent = v; },
                        Err(e) => {
                            proof {
                                assert(p[i as int].0 == crate::keys::k_transparent());
                                assert(kind_field_fails(p, FieldKind::Bool, crate::keys::k_transparent()));
                            }
                            return Err(e);
                        },
                    }
                }
        else if crate::common::bytes_eq(key, a_unique_id.as_slice()) {
                    match UniqueId::from_utf8(val) {
                        Ok(v) => { x.unique_id = v; },
                        Err(e) => {
                            proof {
                                assert(p[i as int].0 == crate::keys::k_unique_id());
                                assert(kind_field_fails(p, FieldKind::Uid, crate::keys::k_unique_id()));
                            }
                            return Err(e);
                        },
                    }
                }
        else {
            crate::logging::macro_unsupported_key(counter, "RectangleRounded", key, val);
        }
            i += 1;
        }
        proof {
            assert(p.take(n as int) =~= p);
        }
        Ok(x)
    }
}

} // verus!
