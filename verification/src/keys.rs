//! The wire keys the field binders recognize, as byte sequences.

use vstd::prelude::*;

verus! {

/// `Alignment`
pub open spec fn k_alignment() -> Seq<u8> {
    seq![0x41u8, 0x6cu8, 0x69u8, 0x67u8, 0x6eu8, 0x6du8, 0x65u8, 0x6eu8, 0x74u8]
}

/// `AllPinCount`
pub open spec fn k_all_pin_count() -> Seq<u8> {
    seq![0x41u8, 0x6cu8, 0x6cu8, 0x50u8, 0x69u8, 0x6eu8, 0x43u8, 0x6fu8, 0x75u8, 0x6eu8, 0x74u8]
}

/// `AreaColor`
pub open spec fn k_area_color() -> Seq<u8> {
    seq![0x41u8, 0x72u8, 0x65u8, 0x61u8, 0x43u8, 0x6fu8, 0x6cu8, 0x6fu8, 0x72u8]
}

/// `ArrowKind`
pub open spec fn k_arrow_kind() -> Seq<u8> {
    seq![0x41u8, 0x72u8, 0x72u8, 0x6fu8, 0x77u8, 0x4bu8, 0x69u8, 0x6eu8, 0x64u8]
}

/// `BorderOn`
pub open spec fn k_border_on() -> Seq<u8> {
    seq![0x42u8, 0x6fu8, 0x72u8, 0x64u8, 0x65u8, 0x72u8, 0x4fu8, 0x6eu8]
}

/// `BorderWidth`
pub open spec fn k_border_width() -> Seq<u8> {
    seq![0x42u8, 0x6fu8, 0x72u8, 0x64u8, 0x65u8, 0x72u8, 0x57u8, 0x69u8, 0x64u8, 0x74u8, 0x68u8]
}

/// `ClipToRect`
pub open spec fn k_clip_to_rect() -> Seq<u8> {
    seq![0x43u8, 0x6cu8, 0x69u8, 0x70u8, 0x54u8, 0x6fu8, 0x52u8, 0x65u8, 0x63u8, 0x74u8]
}

/// `Color`
pub open spec fn k_color() -> Seq<u8> {
    seq![0x43u8, 0x6fu8, 0x6cu8, 0x6fu8, 0x72u8]
}

/// `ComponentDescription`
pub open spec fn k_component_description() -> Seq<u8> {
    seq![0x43u8, 0x6fu8, 0x6du8, 0x70u8, 0x6fu8, 0x6eu8, 0x65u8, 0x6eu8, 0x74u8, 0x44u8, 0x65u8, 0x73u8, 0x63u8, 0x72u8, 0x69u8, 0x70u8, 0x74u8, 0x69u8, 0x6fu8, 0x6eu8]
}

/// `Corner.X`
pub open spec fn k_corner_x() -> Seq<u8> {
    seq![0x43u8, 0x6fu8, 0x72u8, 0x6eu8, 0x65u8, 0x72u8, 0x2eu8, 0x58u8]
}

/// `Corner.X_Frac`
pub open spec fn k_corner_x_frac() -> Seq<u8> {
    seq![0x43u8, 0x6fu8, 0x72u8, 0x6eu8, 0x65u8, 0x72u8, 0x2eu8, 0x58u8, 0x5fu8, 0x46u8, 0x72u8, 0x61u8, 0x63u8]
}

/// `Corner.Y`
pub open spec fn k_corner_y() -> Seq<u8> {
    seq![0x43u8, 0x6fu8, 0x72u8, 0x6eu8, 0x65u8, 0x72u8, 0x2eu8, 0x59u8]
}

/// `Corner.Y_Frac`
pub open spec fn k_corner_y_frac() -> Seq<u8> {
    seq![0x43u8, 0x6fu8, 0x72u8, 0x6eu8, 0x65u8, 0x72u8, 0x2eu8, 0x59u8, 0x5fu8, 0x46u8, 0x72u8, 0x61u8, 0x63u8]
}

/// `CornerXRadius`
pub open spec fn k_corner_x_radius() -> Seq<u8> {
    seq![0x43u8, 0x6fu8, 0x72u8, 0x6eu8, 0x65u8, 0x72u8, 0x58u8, 0x52u8, 0x61u8, 0x64u8, 0x69u8, 0x75u8, 0x73u8]
}

/// `CornerYRadius`
pub open spec fn k_corner_y_radius() -> Seq<u8> {
    seq![0x43u8, 0x6fu8, 0x72u8, 0x6eu8, 0x65u8, 0x72u8, 0x59u8, 0x52u8, 0x61u8, 0x64u8, 0x69u8, 0x75u8, 0x73u8]
}

/// `CurrentPartId`
pub open spec fn k_current_part_id() -> Seq<u8> {
    seq![0x43u8, 0x75u8, 0x72u8, 0x72u8, 0x65u8, 0x6eu8, 0x74u8, 0x50u8, 0x61u8, 0x72u8, 0x74u8, 0x49u8, 0x64u8]
}

/// `CustomMarginWidth`
pub open spec fn k_custom_margin_width() -> Seq<u8> {
    seq![0x43u8, 0x75u8, 0x73u8, 0x74u8, 0x6fu8, 0x6du8, 0x4du8, 0x61u8, 0x72u8, 0x67u8, 0x69u8, 0x6eu8, 0x57u8, 0x69u8, 0x64u8, 0x74u8, 0x68u8]
}

/// `CustomX`
pub open spec fn k_custom_x() -> Seq<u8> {
    seq![0x43u8, 0x75u8, 0x73u8, 0x74u8, 0x6fu8, 0x6du8, 0x58u8]
}

/// `CustomXZones`
pub open spec fn k_custom_x_zones() -> Seq<u8> {
    seq![0x43u8, 0x75u8, 0x73u8, 0x74u8, 0x6fu8, 0x6du8, 0x58u8, 0x5au8, 0x6fu8, 0x6eu8, 0x65u8, 0x73u8]
}

/// `CustomY`
pub open spec fn k_custom_y() -> Seq<u8> {
    seq![0x43u8, 0x75u8, 0x73u8, 0x74u8, 0x6fu8, 0x6du8, 0x59u8]
}

/// `CustomYZones`
pub open spec fn k_custom_y_zones() -> Seq<u8> {
    seq![0x43u8, 0x75u8, 0x73u8, 0x74u8, 0x6fu8, 0x6du8, 0x59u8, 0x5au8, 0x6fu8, 0x6eu8, 0x65u8, 0x73u8]
}

/// `DatabaseDatalinksLocked`
pub open spec fn k_database_datalinks_locked() -> Seq<u8> {
    seq![0x44u8, 0x61u8, 0x74u8, 0x61u8, 0x62u8, 0x61u8, 0x73u8, 0x65u8, 0x44u8, 0x61u8, 0x74u8, 0x61u8, 0x6cu8, 0x69u8, 0x6eu8, 0x6bu8, 0x73u8, 0x4cu8, 0x6fu8, 0x63u8, 0x6bu8, 0x65u8, 0x64u8]
}

/// `DatabaseTableName`
pub open spec fn k_database_table_name() -> Seq<u8> {
    seq![0x44u8, 0x61u8, 0x74u8, 0x61u8, 0x62u8, 0x61u8, 0x73u8, 0x65u8, 0x54u8, 0x61u8, 0x62u8, 0x6cu8, 0x65u8, 0x4eu8, 0x61u8, 0x6du8, 0x65u8]
}

/// `DatafileCount`
pub open spec fn k_datafile_count() -> Seq<u8> {
    seq![0x44u8, 0x61u8, 0x74u8, 0x61u8, 0x66u8, 0x69u8, 0x6cu8, 0x65u8, 0x43u8, 0x6fu8, 0x75u8, 0x6eu8, 0x74u8]
}

/// `DatalinksLocked`
pub open spec fn k_datalinks_locked() -> Seq<u8> {
    seq![0x44u8, 0x61u8, 0x74u8, 0x61u8, 0x6cu8, 0x69u8, 0x6eu8, 0x6bu8, 0x73u8, 0x4cu8, 0x6fu8, 0x63u8, 0x6bu8, 0x65u8, 0x64u8]
}

/// `Description`
pub open spec fn k_description() -> Seq<u8> {
    seq![0x44u8, 0x65u8, 0x73u8, 0x63u8, 0x72u8, 0x69u8, 0x70u8, 0x74u8, 0x69u8, 0x6fu8, 0x6eu8]
}

/// `DesignItemId`
pub open spec fn k_design_item_id() -> Seq<u8> {
    seq![0x44u8, 0x65u8, 0x73u8, 0x69u8, 0x67u8, 0x6eu8, 0x49u8, 0x74u8, 0x65u8, 0x6du8, 0x49u8, 0x64u8]
}

/// `Designator`
pub open spec fn k_designator() -> Seq<u8> {
    seq![0x44u8, 0x65u8, 0x73u8, 0x69u8, 0x67u8, 0x6eu8, 0x61u8, 0x74u8, 0x6fu8, 0x72u8]
}

/// `DisplayModeCount`
pub open spec fn k_display_mode_count() -> Seq<u8> {
    seq![0x44u8, 0x69u8, 0x73u8, 0x70u8, 0x6cu8, 0x61u8, 0x79u8, 0x4du8, 0x6fu8, 0x64u8, 0x65u8, 0x43u8, 0x6fu8, 0x75u8, 0x6eu8, 0x74u8]
}

/// `Display_Unit`
pub open spec fn k_display_unit() -> Seq<u8> {
    seq![0x44u8, 0x69u8, 0x73u8, 0x70u8, 0x6cu8, 0x61u8, 0x79u8, 0x5fu8, 0x55u8, 0x6eu8, 0x69u8, 0x74u8]
}

/// `DistanceFromTop`
pub open spec fn k_distance_from_top() -> Seq<u8> {
    seq![0x44u8, 0x69u8, 0x73u8, 0x74u8, 0x61u8, 0x6eu8, 0x63u8, 0x65u8, 0x46u8, 0x72u8, 0x6fu8, 0x6du8, 0x54u8, 0x6fu8, 0x70u8]
}

/// `Electrical`
pub open spec fn k_electrical() -> Seq<u8> {
    seq![0x45u8, 0x6cu8, 0x65u8, 0x63u8, 0x74u8, 0x72u8, 0x69u8, 0x63u8, 0x61u8, 0x6cu8]
}

/// `EmbedImage`
pub open spec fn k_embed_image() -> Seq<u8> {
    seq![0x45u8, 0x6du8, 0x62u8, 0x65u8, 0x64u8, 0x49u8, 0x6du8, 0x61u8, 0x67u8, 0x65u8]
}

/// `EndAngle`
pub open spec fn k_end_angle() -> Seq<u8> {
    seq![0x45u8, 0x6eu8, 0x64u8, 0x41u8, 0x6eu8, 0x67u8, 0x6cu8, 0x65u8]
}

/// `FileName`
pub open spec fn k_file_name() -> Seq<u8> {
    seq![0x46u8, 0x69u8, 0x6cu8, 0x65u8, 0x4eu8, 0x61u8, 0x6du8, 0x65u8]
}

/// `FileVersionInfo`
pub open spec fn k_file_version_info() -> Seq<u8> {
    seq![0x46u8, 0x69u8, 0x6cu8, 0x65u8, 0x56u8, 0x65u8, 0x72u8, 0x73u8, 0x69u8, 0x6fu8, 0x6eu8, 0x49u8, 0x6eu8, 0x66u8, 0x6fu8]
}

/// `FontID`
pub open spec fn k_font_id() -> Seq<u8> {
    seq![0x46u8, 0x6fu8, 0x6eu8, 0x74u8, 0x49u8, 0x44u8]
}

/// `FontIdCount`
pub open spec fn k_font_id_count() -> Seq<u8> {
    seq![0x46u8, 0x6fu8, 0x6eu8, 0x74u8, 0x49u8, 0x64u8, 0x43u8, 0x6fu8, 0x75u8, 0x6eu8, 0x74u8]
}

/// `FormalType`
pub open spec fn k_formal_type() -> Seq<u8> {
    seq![0x46u8, 0x6fu8, 0x72u8, 0x6du8, 0x61u8, 0x6cu8, 0x54u8, 0x79u8, 0x70u8, 0x65u8]
}

/// `Height`
pub open spec fn k_height() -> Seq<u8> {
    seq![0x48u8, 0x65u8, 0x69u8, 0x67u8, 0x68u8, 0x74u8]
}

/// `HotSpotGridOn`
pub open spec fn k_hot_spot_grid_on() -> Seq<u8> {
    seq![0x48u8, 0x6fu8, 0x74u8, 0x53u8, 0x70u8, 0x6fu8, 0x74u8, 0x47u8, 0x72u8, 0x69u8, 0x64u8, 0x4fu8, 0x6eu8]
}

/// `HotSpotGridSize`
pub open spec fn k_hot_spot_grid_size() -> Seq<u8> {
    seq![0x48u8, 0x6fu8, 0x74u8, 0x53u8, 0x70u8, 0x6fu8, 0x74u8, 0x47u8, 0x72u8, 0x69u8, 0x64u8, 0x53u8, 0x69u8, 0x7au8, 0x65u8]
}

/// `IOType`
pub open spec fn k_io_type() -> Seq<u8> {
    seq![0x49u8, 0x4fu8, 0x54u8, 0x79u8, 0x70u8, 0x65u8]
}

/// `IndexInSheet`
pub open spec fn k_index_in_sheet() -> Seq<u8> {
    seq![0x49u8, 0x6eu8, 0x64u8, 0x65u8, 0x78u8, 0x49u8, 0x6eu8, 0x53u8, 0x68u8, 0x65u8, 0x65u8, 0x74u8]
}

/// `IsActive`
pub open spec fn k_is_active() -> Seq<u8> {
    seq![0x49u8, 0x73u8, 0x41u8, 0x63u8, 0x74u8, 0x69u8, 0x76u8, 0x65u8]
}

/// `IsBOC`
pub open spec fn k_is_boc() -> Seq<u8> {
    seq![0x49u8, 0x73u8, 0x42u8, 0x4fu8, 0x43u8]
}

/// `IsCrossSheetConnector`
pub open spec fn k_is_cross_sheet_connector() -> Seq<u8> {
    seq![0x49u8, 0x73u8, 0x43u8, 0x72u8, 0x6fu8, 0x73u8, 0x73u8, 0x53u8, 0x68u8, 0x65u8, 0x65u8, 0x74u8, 0x43u8, 0x6fu8, 0x6eu8, 0x6eu8, 0x65u8, 0x63u8, 0x74u8, 0x6fu8, 0x72u8]
}

/// `IsCurrent`
pub open spec fn k_is_current() -> Seq<u8> {
    seq![0x49u8, 0x73u8, 0x43u8, 0x75u8, 0x72u8, 0x72u8, 0x65u8, 0x6eu8, 0x74u8]
}

/// `IsHidden`
pub open spec fn k_is_hidden() -> Seq<u8> {
    seq![0x49u8, 0x73u8, 0x48u8, 0x69u8, 0x64u8, 0x64u8, 0x65u8, 0x6eu8]
}

/// `IsMirrored`
pub open spec fn k_is_mirrored() -> Seq<u8> {
    seq![0x49u8, 0x73u8, 0x4du8, 0x69u8, 0x72u8, 0x72u8, 0x6fu8, 0x72u8, 0x65u8, 0x64u8]
}

/// `IsNotAccesible`
pub open spec fn k_is_not_accesible() -> Seq<u8> {
    seq![0x49u8, 0x73u8, 0x4eu8, 0x6fu8, 0x74u8, 0x41u8, 0x63u8, 0x63u8, 0x65u8, 0x73u8, 0x69u8, 0x62u8, 0x6cu8, 0x65u8]
}

/// `IsSolid`
pub open spec fn k_is_solid() -> Seq<u8> {
    seq![0x49u8, 0x73u8, 0x53u8, 0x6fu8, 0x6cu8, 0x69u8, 0x64u8]
}

/// `Justification`
pub open spec fn k_justification() -> Seq<u8> {
    seq![0x4au8, 0x75u8, 0x73u8, 0x74u8, 0x69u8, 0x66u8, 0x69u8, 0x63u8, 0x61u8, 0x74u8, 0x69u8, 0x6fu8, 0x6eu8]
}

/// `KeepAspect`
pub open spec fn k_keep_aspect() -> Seq<u8> {
    seq![0x4bu8, 0x65u8, 0x65u8, 0x70u8, 0x41u8, 0x73u8, 0x70u8, 0x65u8, 0x63u8, 0x74u8]
}

/// `LibReference`
pub open spec fn k_lib_reference() -> Seq<u8> {
    seq![0x4cu8, 0x69u8, 0x62u8, 0x52u8, 0x65u8, 0x66u8, 0x65u8, 0x72u8, 0x65u8, 0x6eu8, 0x63u8, 0x65u8]
}

/// `LibraryPath`
pub open spec fn k_library_path() -> Seq<u8> {
    seq![0x4cu8, 0x69u8, 0x62u8, 0x72u8, 0x61u8, 0x72u8, 0x79u8, 0x50u8, 0x61u8, 0x74u8, 0x68u8]
}

/// `LineWidth`
pub open spec fn k_line_width() -> Seq<u8> {
    seq![0x4cu8, 0x69u8, 0x6eu8, 0x65u8, 0x57u8, 0x69u8, 0x64u8, 0x74u8, 0x68u8]
}

/// `Location.X`
pub open spec fn k_location_x() -> Seq<u8> {
    seq![0x4cu8, 0x6fu8, 0x63u8, 0x61u8, 0x74u8, 0x69u8, 0x6fu8, 0x6eu8, 0x2eu8, 0x58u8]
}

/// `Location.X_Frac`
pub open spec fn k_location_x_frac() -> Seq<u8> {
    seq![0x4cu8, 0x6fu8, 0x63u8, 0x61u8, 0x74u8, 0x69u8, 0x6fu8, 0x6eu8, 0x2eu8, 0x58u8, 0x5fu8, 0x46u8, 0x72u8, 0x61u8, 0x63u8]
}

/// `Location.Y`
pub open spec fn k_location_y() -> Seq<u8> {
    seq![0x4cu8, 0x6fu8, 0x63u8, 0x61u8, 0x74u8, 0x69u8, 0x6fu8, 0x6eu8, 0x2eu8, 0x59u8]
}

/// `Location.Y_Frac`
pub open spec fn k_location_y_frac() -> Seq<u8> {
    seq![0x4cu8, 0x6fu8, 0x63u8, 0x61u8, 0x74u8, 0x69u8, 0x6fu8, 0x6eu8, 0x2eu8, 0x59u8, 0x5fu8, 0x46u8, 0x72u8, 0x61u8, 0x63u8]
}

/// `LocationCount`
pub open spec fn k_location_count() -> Seq<u8> {
    seq![0x4cu8, 0x6fu8, 0x63u8, 0x61u8, 0x74u8, 0x69u8, 0x6fu8, 0x6eu8, 0x43u8, 0x6fu8, 0x75u8, 0x6eu8, 0x74u8]
}

/// `ModelDatafileEntity0`
pub open spec fn k_model_datafile_entity0() -> Seq<u8> {
    seq![0x4du8, 0x6fu8, 0x64u8, 0x65u8, 0x6cu8, 0x44u8, 0x61u8, 0x74u8, 0x61u8, 0x66u8, 0x69u8, 0x6cu8, 0x65u8, 0x45u8, 0x6eu8, 0x74u8, 0x69u8, 0x74u8, 0x79u8, 0x30u8]
}

/// `ModelDatafileKind0`
pub open spec fn k_model_datafile_kind0() -> Seq<u8> {
    seq![0x4du8, 0x6fu8, 0x64u8, 0x65u8, 0x6cu8, 0x44u8, 0x61u8, 0x74u8, 0x61u8, 0x66u8, 0x69u8, 0x6cu8, 0x65u8, 0x4bu8, 0x69u8, 0x6eu8, 0x64u8, 0x30u8]
}

/// `ModelName`
pub open spec fn k_model_name() -> Seq<u8> {
    seq![0x4du8, 0x6fu8, 0x64u8, 0x65u8, 0x6cu8, 0x4eu8, 0x61u8, 0x6du8, 0x65u8]
}

/// `ModelType`
pub open spec fn k_model_type() -> Seq<u8> {
    seq![0x4du8, 0x6fu8, 0x64u8, 0x65u8, 0x6cu8, 0x54u8, 0x79u8, 0x70u8, 0x65u8]
}

/// `Name`
pub open spec fn k_name() -> Seq<u8> {
    seq![0x4eu8, 0x61u8, 0x6du8, 0x65u8]
}

/// `NotUseDbTableName`
pub open spec fn k_not_use_db_table_name() -> Seq<u8> {
    seq![0x4eu8, 0x6fu8, 0x74u8, 0x55u8, 0x73u8, 0x65u8, 0x44u8, 0x62u8, 0x54u8, 0x61u8, 0x62u8, 0x6cu8, 0x65u8, 0x4eu8, 0x61u8, 0x6du8, 0x65u8]
}

/// `Orientation`
pub open spec fn k_orientation() -> Seq<u8> {
    seq![0x4fu8, 0x72u8, 0x69u8, 0x65u8, 0x6eu8, 0x74u8, 0x61u8, 0x74u8, 0x69u8, 0x6fu8, 0x6eu8]
}

/// `OwnerIndex`
pub open spec fn k_owner_index() -> Seq<u8> {
    seq![0x4fu8, 0x77u8, 0x6eu8, 0x65u8, 0x72u8, 0x49u8, 0x6eu8, 0x64u8, 0x65u8, 0x78u8]
}

/// `OwnerPartDisplayMode`
pub open spec fn k_owner_part_display_mode() -> Seq<u8> {
    seq![0x4fu8, 0x77u8, 0x6eu8, 0x65u8, 0x72u8, 0x50u8, 0x61u8, 0x72u8, 0x74u8, 0x44u8, 0x69u8, 0x73u8, 0x70u8, 0x6cu8, 0x61u8, 0x79u8, 0x4du8, 0x6fu8, 0x64u8, 0x65u8]
}

/// `OwnerPartId`
pub open spec fn k_owner_part_id() -> Seq<u8> {
    seq![0x4fu8, 0x77u8, 0x6eu8, 0x65u8, 0x72u8, 0x50u8, 0x61u8, 0x72u8, 0x74u8, 0x49u8, 0x64u8]
}

/// `PartCount`
pub open spec fn k_part_count() -> Seq<u8> {
    seq![0x50u8, 0x61u8, 0x72u8, 0x74u8, 0x43u8, 0x6fu8, 0x75u8, 0x6eu8, 0x74u8]
}

/// `PartIDLocked`
pub open spec fn k_part_id_locked() -> Seq<u8> {
    seq![0x50u8, 0x61u8, 0x72u8, 0x74u8, 0x49u8, 0x44u8, 0x4cu8, 0x6fu8, 0x63u8, 0x6bu8, 0x65u8, 0x64u8]
}

/// `PinLength`
pub open spec fn k_pin_length() -> Seq<u8> {
    seq![0x50u8, 0x69u8, 0x6eu8, 0x4cu8, 0x65u8, 0x6eu8, 0x67u8, 0x74u8, 0x68u8]
}

/// `PinPropagationDelay`
pub open spec fn k_pin_propagation_delay() -> Seq<u8> {
    seq![0x50u8, 0x69u8, 0x6eu8, 0x50u8, 0x72u8, 0x6fu8, 0x70u8, 0x61u8, 0x67u8, 0x61u8, 0x74u8, 0x69u8, 0x6fu8, 0x6eu8, 0x44u8, 0x65u8, 0x6cu8, 0x61u8, 0x79u8]
}

/// `Radius`
pub open spec fn k_radius() -> Seq<u8> {
    seq![0x52u8, 0x61u8, 0x64u8, 0x69u8, 0x75u8, 0x73u8]
}

/// `Radius_Frac`
pub open spec fn k_radius_frac() -> Seq<u8> {
    seq![0x52u8, 0x61u8, 0x64u8, 0x69u8, 0x75u8, 0x73u8, 0x5fu8, 0x46u8, 0x72u8, 0x61u8, 0x63u8]
}

/// `ReadOnlyState`
pub open spec fn k_read_only_state() -> Seq<u8> {
    seq![0x52u8, 0x65u8, 0x61u8, 0x64u8, 0x4fu8, 0x6eu8, 0x6cu8, 0x79u8, 0x53u8, 0x74u8, 0x61u8, 0x74u8, 0x65u8]
}

/// `SecondaryRadius`
pub open spec fn k_secondary_radius() -> Seq<u8> {
    seq![0x53u8, 0x65u8, 0x63u8, 0x6fu8, 0x6eu8, 0x64u8, 0x61u8, 0x72u8, 0x79u8, 0x52u8, 0x61u8, 0x64u8, 0x69u8, 0x75u8, 0x73u8]
}

/// `SecondaryRadius_Frac`
pub open spec fn k_secondary_radius_frac() -> Seq<u8> {
    seq![0x53u8, 0x65u8, 0x63u8, 0x6fu8, 0x6eu8, 0x64u8, 0x61u8, 0x72u8, 0x79u8, 0x52u8, 0x61u8, 0x64u8, 0x69u8, 0x75u8, 0x73u8, 0x5fu8, 0x46u8, 0x72u8, 0x61u8, 0x63u8]
}

/// `SheetNumberSpaceSize`
pub open spec fn k_sheet_number_space_size() -> Seq<u8> {
    seq![0x53u8, 0x68u8, 0x65u8, 0x65u8, 0x74u8, 0x4eu8, 0x75u8, 0x6du8, 0x62u8, 0x65u8, 0x72u8, 0x53u8, 0x70u8, 0x61u8, 0x63u8, 0x65u8, 0x53u8, 0x69u8, 0x7au8, 0x65u8]
}

/// `SheetPartFileName`
pub open spec fn k_sheet_part_file_name() -> Seq<u8> {
    seq![0x53u8, 0x68u8, 0x65u8, 0x65u8, 0x74u8, 0x50u8, 0x61u8, 0x72u8, 0x74u8, 0x46u8, 0x69u8, 0x6cu8, 0x65u8, 0x4eu8, 0x61u8, 0x6du8, 0x65u8]
}

/// `ShowNetName`
pub open spec fn k_show_net_name() -> Seq<u8> {
    seq![0x53u8, 0x68u8, 0x6fu8, 0x77u8, 0x4eu8, 0x65u8, 0x74u8, 0x4eu8, 0x61u8, 0x6du8, 0x65u8]
}

/// `Side`
pub open spec fn k_side() -> Seq<u8> {
    seq![0x53u8, 0x69u8, 0x64u8, 0x65u8]
}

/// `SnapGridOn`
pub open spec fn k_snap_grid_on() -> Seq<u8> {
    seq![0x53u8, 0x6eu8, 0x61u8, 0x70u8, 0x47u8, 0x72u8, 0x69u8, 0x64u8, 0x4fu8, 0x6eu8]
}

/// `SnapGridSize`
pub open spec fn k_snap_grid_size() -> Seq<u8> {
    seq![0x53u8, 0x6eu8, 0x61u8, 0x70u8, 0x47u8, 0x72u8, 0x69u8, 0x64u8, 0x53u8, 0x69u8, 0x7au8, 0x65u8]
}

/// `SourceLibraryName`
pub open spec fn k_source_library_name() -> Seq<u8> {
    seq![0x53u8, 0x6fu8, 0x75u8, 0x72u8, 0x63u8, 0x65u8, 0x4cu8, 0x69u8, 0x62u8, 0x72u8, 0x61u8, 0x72u8, 0x79u8, 0x4eu8, 0x61u8, 0x6du8, 0x65u8]
}

/// `StartAngle`
pub open spec fn k_start_angle() -> Seq<u8> {
    seq![0x53u8, 0x74u8, 0x61u8, 0x72u8, 0x74u8, 0x41u8, 0x6eu8, 0x67u8, 0x6cu8, 0x65u8]
}

/// `Style`
pub open spec fn k_style() -> Seq<u8> {
    seq![0x53u8, 0x74u8, 0x79u8, 0x6cu8, 0x65u8]
}

/// `SuppressAll`
pub open spec fn k_suppress_all() -> Seq<u8> {
    seq![0x53u8, 0x75u8, 0x70u8, 0x70u8, 0x72u8, 0x65u8, 0x73u8, 0x73u8, 0x41u8, 0x6cu8, 0x6cu8]
}

/// `SwapIDPart`
pub open spec fn k_swap_id_part() -> Seq<u8> {
    seq![0x53u8, 0x77u8, 0x61u8, 0x70u8, 0x49u8, 0x44u8, 0x50u8, 0x61u8, 0x72u8, 0x74u8]
}

/// `Symbol`
pub open spec fn k_symbol() -> Seq<u8> {
    seq![0x53u8, 0x79u8, 0x6du8, 0x62u8, 0x6fu8, 0x6cu8]
}

/// `SymbolType`
pub open spec fn k_symbol_type() -> Seq<u8> {
    seq![0x53u8, 0x79u8, 0x6du8, 0x62u8, 0x6fu8, 0x6cu8, 0x54u8, 0x79u8, 0x70u8, 0x65u8]
}

/// `SystemFont`
pub open spec fn k_system_font() -> Seq<u8> {
    seq![0x53u8, 0x79u8, 0x73u8, 0x74u8, 0x65u8, 0x6du8, 0x46u8, 0x6fu8, 0x6eu8, 0x74u8]
}

/// `TargetFileName`
pub open spec fn k_target_file_name() -> Seq<u8> {
    seq![0x54u8, 0x61u8, 0x72u8, 0x67u8, 0x65u8, 0x74u8, 0x46u8, 0x69u8, 0x6cu8, 0x65u8, 0x4eu8, 0x61u8, 0x6du8, 0x65u8]
}

/// `Text`
pub open spec fn k_text() -> Seq<u8> {
    seq![0x54u8, 0x65u8, 0x78u8, 0x74u8]
}

/// `TextColor`
pub open spec fn k_text_color() -> Seq<u8> {
    seq![0x54u8, 0x65u8, 0x78u8, 0x74u8, 0x43u8, 0x6fu8, 0x6cu8, 0x6fu8, 0x72u8]
}

/// `TextFontID`
pub open spec fn k_text_font_id() -> Seq<u8> {
    seq![0x54u8, 0x65u8, 0x78u8, 0x74u8, 0x46u8, 0x6fu8, 0x6eu8, 0x74u8, 0x49u8, 0x44u8]
}

/// `TextStyle`
pub open spec fn k_text_style() -> Seq<u8> {
    seq![0x54u8, 0x65u8, 0x78u8, 0x74u8, 0x53u8, 0x74u8, 0x79u8, 0x6cu8, 0x65u8]
}

/// `Transparent`
pub open spec fn k_transparent() -> Seq<u8> {
    seq![0x54u8, 0x72u8, 0x61u8, 0x6eu8, 0x73u8, 0x70u8, 0x61u8, 0x72u8, 0x65u8, 0x6eu8, 0x74u8]
}

/// `UniqueID`
pub open spec fn k_unique_id() -> Seq<u8> {
    seq![0x55u8, 0x6eu8, 0x69u8, 0x71u8, 0x75u8, 0x65u8, 0x49u8, 0x44u8]
}

/// `UseComponentLibrary`
pub open spec fn k_use_component_library() -> Seq<u8> {
    seq![0x55u8, 0x73u8, 0x65u8, 0x43u8, 0x6fu8, 0x6du8, 0x70u8, 0x6fu8, 0x6eu8, 0x65u8, 0x6eu8, 0x74u8, 0x4cu8, 0x69u8, 0x62u8, 0x72u8, 0x61u8, 0x72u8, 0x79u8]
}

/// `UseMBCS`
pub open spec fn k_use_mbcs() -> Seq<u8> {
    seq![0x55u8, 0x73u8, 0x65u8, 0x4du8, 0x42u8, 0x43u8, 0x53u8]
}

/// `VisibleGridOn`
pub open spec fn k_visible_grid_on() -> Seq<u8> {
    seq![0x56u8, 0x69u8, 0x73u8, 0x69u8, 0x62u8, 0x6cu8, 0x65u8, 0x47u8, 0x72u8, 0x69u8, 0x64u8, 0x4fu8, 0x6eu8]
}

/// `VisibleGridSize`
pub open spec fn k_visible_grid_size() -> Seq<u8> {
    seq![0x56u8, 0x69u8, 0x73u8, 0x69u8, 0x62u8, 0x6cu8, 0x65u8, 0x47u8, 0x72u8, 0x69u8, 0x64u8, 0x53u8, 0x69u8, 0x7au8, 0x65u8]
}

/// `Width`
pub open spec fn k_width() -> Seq<u8> {
    seq![0x57u8, 0x69u8, 0x64u8, 0x74u8, 0x68u8]
}

/// `WordWrap`
pub open spec fn k_word_wrap() -> Seq<u8> {
    seq![0x57u8, 0x6fu8, 0x72u8, 0x64u8, 0x57u8, 0x72u8, 0x61u8, 0x70u8]
}

/// `XSize`
pub open spec fn k_x_size() -> Seq<u8> {
    seq![0x58u8, 0x53u8, 0x69u8, 0x7au8, 0x65u8]
}

/// `YSize`
pub open spec fn k_y_size() -> Seq<u8> {
    seq![0x59u8, 0x53u8, 0x69u8, 0x7au8, 0x65u8]
}

} // verus!
