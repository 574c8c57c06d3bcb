//! The field binder for the `Sheet` record, which carries the document's
//! font table as an embedded array.

use vstd::prelude::*;

use crate::binder::{
    ok_bool, ok_i32, ok_i8, ok_u16, ok_u32, ok_u8, ok_uid, sat_add, utf8_twin, SpecPairs,
};
use crate::common::{pairs_view, spec_is_number_pattern, Rgb, UniqueId};
use crate::error::ErrorKind;
use crate::font::{Font, FontCollection};
use crate::logging::UnsupportedCounter;
use crate::parse::{int_val, is_uint_text, uint_val};
use crate::records::Sheet;
use vstd::utf8::{decode_utf8, valid_utf8};

verus! {

/// The `FontName` item-key prefix.
pub open spec fn spec_font_name_pfx() -> Seq<u8> {
    seq![0x46u8, 0x6fu8, 0x6eu8, 0x74u8, 0x4eu8, 0x61u8, 0x6du8, 0x65u8]
}

/// The `Size` item-key prefix.
pub open spec fn spec_size_pfx() -> Seq<u8> {
    seq![0x53u8, 0x69u8, 0x7au8, 0x65u8]
}

/// One font of the sheet's table, as the binder assembles it.
pub struct FontSpec {
    pub name: Seq<char>,
    pub size: u16,
}

/// The fields of a `Sheet` record as the walk of its pairs leaves them.
pub struct SheetState {
    pub owner_index: u8,
    pub owner_part_id: i8,
    pub snap_grid_size: i32,
    pub snap_grid_on: bool,
    pub visible_grid_on: bool,
    pub visible_grid_size: i32,
    pub custom_x: i32,
    pub custom_y: i32,
    pub custom_x_zones: u16,
    pub custom_y_zones: u16,
    pub custom_margin_width: u16,
    pub hot_spot_grid_on: bool,
    pub hot_spot_grid_size: i32,
    pub system_font: u16,
    pub border_on: bool,
    pub sheet_number_space_size: i32,
    pub area_color: Rgb,
    pub display_unit: u16,
    pub use_mbcs: bool,
    pub is_boc: bool,
    pub fonts: Seq<FontSpec>,
    pub file_version_info: Seq<char>,
    pub seen_fvi: bool,
}

impl Sheet {
    /// The wire record ID of this kind.
    pub open spec fn spec_record_id() -> u32 {
        31
    }

    pub open spec fn spec_init() -> SheetState {
        SheetState {
            owner_index: 0,
            owner_part_id: 0,
            snap_grid_size: 0,
            snap_grid_on: false,
            visible_grid_on: false,
            visible_grid_size: 0,
            custom_x: 0,
            custom_y: 0,
            custom_x_zones: 0,
            custom_y_zones: 0,
            custom_margin_width: 0,
            hot_spot_grid_on: false,
            hot_spot_grid_size: 0,
            system_font: 0,
            border_on: false,
            sheet_number_space_size: 0,
            area_color: Rgb { r: 0, g: 0, b: 0 },
            display_unit: 0,
            use_mbcs: false,
            is_boc: false,
            fonts: Seq::empty(),
            file_version_info: Seq::empty(),
            seen_fvi: false,
        }
    }

    /// Whether the binder recognizes this wire key.
    pub open spec fn spec_known_key(k: Seq<u8>) -> bool {
        ||| k == crate::keys::k_owner_index()
        ||| k == crate::keys::k_owner_part_id()
        ||| k == crate::keys::k_snap_grid_size()
        ||| k == crate::keys::k_snap_grid_on()
        ||| k == crate::keys::k_visible_grid_on()
        ||| k == crate::keys::k_visible_grid_size()
        ||| k == crate::keys::k_custom_x()
        ||| k == crate::keys::k_custom_y()
        ||| k == crate::keys::k_custom_x_zones()
        ||| k == crate::keys::k_custom_y_zones()
        ||| k == crate::keys::k_custom_margin_width()
        ||| k == crate::keys::k_hot_spot_grid_on()
        ||| k == crate::keys::k_hot_spot_grid_size()
        ||| k == crate::keys::k_system_font()
        ||| k == crate::keys::k_border_on()
        ||| k == crate::keys::k_sheet_number_space_size()
        ||| k == crate::keys::k_area_color()
        ||| k == crate::keys::k_display_unit()
        ||| k == crate::keys::k_use_mbcs()
        ||| k == crate::keys::k_is_boc()
        ||| k == crate::keys::k_file_version_info()
        ||| k == utf8_twin(crate::keys::k_file_version_info())
        ||| k == crate::keys::k_font_id_count()
        ||| spec_is_number_pattern(k, spec_font_name_pfx())
        ||| spec_is_number_pattern(k, spec_size_pfx())
    }

    /// How many pairs hold keys the binder does not recognize.
    pub open spec fn spec_unknown(p: SpecPairs) -> int
        decreases p.len(),
    {
        if p.len() == 0 {
            0
        } else {
            Self::spec_unknown(p.drop_last()) + if Self::spec_known_key(p.last().0) {
                0int
            } else {
                1int
            }
        }
    }

    /// Whether a key is one of the plain scalar fields.
    pub open spec fn spec_is_scalar_key(k: Seq<u8>) -> bool {
        ||| k == crate::keys::k_owner_index()
        ||| k == crate::keys::k_owner_part_id()
        ||| k == crate::keys::k_snap_grid_size()
        ||| k == crate::keys::k_snap_grid_on()
        ||| k == crate::keys::k_visible_grid_on()
        ||| k == crate::keys::k_visible_grid_size()
        ||| k == crate::keys::k_custom_x()
        ||| k == crate::keys::k_custom_y()
        ||| k == crate::keys::k_custom_x_zones()
        ||| k == crate::keys::k_custom_y_zones()
        ||| k == crate::keys::k_custom_margin_width()
        ||| k == crate::keys::k_hot_spot_grid_on()
        ||| k == crate::keys::k_hot_spot_grid_size()
        ||| k == crate::keys::k_system_font()
        ||| k == crate::keys::k_border_on()
        ||| k == crate::keys::k_sheet_number_space_size()
        ||| k == crate::keys::k_area_color()
        ||| k == crate::keys::k_display_unit()
        ||| k == crate::keys::k_use_mbcs()
        ||| k == crate::keys::k_is_boc()
    }

    /// Whether a key belongs to the font table: its count key or one of its
    /// item keys.
    pub open spec fn spec_is_font_key(k: Seq<u8>) -> bool {
        ||| k == crate::keys::k_font_id_count()
        ||| spec_is_number_pattern(k, spec_font_name_pfx())
        ||| spec_is_number_pattern(k, spec_size_pfx())
    }

    /// One pair applied to the state.
    pub open spec fn spec_step(st: SheetState, q: (Seq<u8>, Seq<u8>)) -> Option<SheetState> {
        let v = q.1;
        if q.0 == crate::keys::k_owner_index() {
            if ok_u8(v) {
                Some(SheetState { owner_index: uint_val(v) as u8, ..st })
            } else {
                None
            }
        } else if q.0 == crate::keys::k_owner_part_id() {
            if ok_i8(v) {
                Some(SheetState { owner_part_id: int_val(v) as i8, ..st })
            } else {
                None
            }
        } else if q.0 == crate::keys::k_snap_grid_size() {
            if ok_i32(v) {
                Some(SheetState { snap_grid_size: int_val(v) as i32, ..st })
            } else {
                None
            }
        } else if q.0 == crate::keys::k_snap_grid_on() {
            if ok_bool(v) {
                Some(SheetState { snap_grid_on: v == seq![0x54u8], ..st })
            } else {
                None
            }
        } else if q.0 == crate::keys::k_visible_grid_on() {
            if ok_bool(v) {
                Some(SheetState { visible_grid_on: v == seq![0x54u8], ..st })
            } else {
                None
            }
        } else if q.0 == crate::keys::k_visible_grid_size() {
            if ok_i32(v) {
                Some(SheetState { visible_grid_size: int_val(v) as i32, ..st })
            } else {
                None
            }
        } else if q.0 == crate::keys::k_custom_x() {
            if ok_i32(v) {
                Some(SheetState { custom_x: int_val(v) as i32, ..st })
            } else {
                None
            }
        } else if q.0 == crate::keys::k_custom_y() {
            if ok_i32(v) {
                Some(SheetState { custom_y: int_val(v) as i32, ..st })
            } else {
                None
            }
        } else if q.0 == crate::keys::k_custom_x_zones() {
            if ok_u16(v) {
                Some(SheetState { custom_x_zones: uint_val(v) as u16, ..st })
            } else {
                None
            }
        } else if q.0 == crate::keys::k_custom_y_zones() {
            if ok_u16(v) {
                Some(SheetState { custom_y_zones: uint_val(v) as u16, ..st })
            } else {
                None
            }
        } else if q.0 == crate::keys::k_custom_margin_width() {
            if ok_u16(v) {
                Some(SheetState { custom_margin_width: uint_val(v) as u16, ..st })
            } else {
                None
            }
        } else if q.0 == crate::keys::k_hot_spot_grid_on() {
            if ok_bool(v) {
                Some(SheetState { hot_spot_grid_on: v == seq![0x54u8], ..st })
            } else {
                None
            }
        } else if q.0 == crate::keys::k_hot_spot_grid_size() {
            if ok_i32(v) {
                Some(SheetState { hot_spot_grid_size: int_val(v) as i32, ..st })
            } else {
                None
            }
        } else if q.0 == crate::keys::k_system_font() {
            if ok_u16(v) {
                Some(SheetState { system_font: uint_val(v) as u16, ..st })
            } else {
                None
            }
        } else if q.0 == crate::keys::k_border_on() {
            if ok_bool(v) {
                Some(SheetState { border_on: v == seq![0x54u8], ..st })
            } else {
                None
            }
        } else if q.0 == crate::keys::k_sheet_number_space_size() {
            if ok_i32(v) {
                Some(SheetState { sheet_number_space_size: int_val(v) as i32, ..st })
            } else {
                None
            }
        } else if q.0 == crate::keys::k_area_color() {
            if ok_u32(v) {
                Some(SheetState { area_color: Rgb::spec_from_packed(uint_val(v) as u32), ..st })
            } else {
                None
            }
        } else if q.0 == crate::keys::k_display_unit() {
            if ok_u16(v) {
                Some(SheetState { display_unit: uint_val(v) as u16, ..st })
            } else {
                None
            }
        } else if q.0 == crate::keys::k_use_mbcs() {
            if ok_bool(v) {
                Some(SheetState { use_mbcs: v == seq![0x54u8], ..st })
            } else {
                None
            }
        } else if q.0 == crate::keys::k_is_boc() {
            if ok_bool(v) {
                Some(SheetState { is_boc: v == seq![0x54u8], ..st })
            } else {
                None
            }
        } else if q.0 == utf8_twin(crate::keys::k_file_version_info()) {
            if valid_utf8(v) {
                Some(SheetState { file_version_info: decode_utf8(v), seen_fvi: true, ..st })
            } else {
                None
            }
        } else if q.0 == crate::keys::k_file_version_info() {
            if st.seen_fvi {
                Some(st)
            } else if valid_utf8(v) {
                Some(SheetState { file_version_info: decode_utf8(v), ..st })
            } else {
                None
            }
        } else if q.0 == crate::keys::k_font_id_count() {
            if ok_u32(v) {
                Some(SheetState {
                    fonts: Seq::new((uint_val(v) as u32) as nat, |j: int| FontSpec {
                        name: Seq::empty(),
                        size: 0,
                    }),
                    ..st
                })
            } else {
                None
            }
        } else if spec_is_number_pattern(q.0, spec_font_name_pfx()) {
            let d = q.0.skip(8);
            if is_uint_text(d) && uint_val(d) <= usize::MAX && 1 <= uint_val(d) <= st.fonts.len()
                && valid_utf8(v) {
                let j = uint_val(d) - 1;
                Some(SheetState {
                    fonts: st.fonts.update(j, FontSpec {
                        name: decode_utf8(v),
                        size: st.fonts[j].size,
                    }),
                    ..st
                })
            } else {
                None
            }
        } else if spec_is_number_pattern(q.0, spec_size_pfx()) {
            let d = q.0.skip(4);
            if is_uint_text(d) && uint_val(d) <= usize::MAX && 1 <= uint_val(d) <= st.fonts.len()
                && ok_u16(v) {
                let j = uint_val(d) - 1;
                Some(SheetState {
                    fonts: st.fonts.update(j, FontSpec {
                        name: st.fonts[j].name,
                        size: uint_val(v) as u16,
                    }),
                    ..st
                })
            } else {
                None
            }
        } else {
            Some(st)
        }
    }

    /// The state after all pairs, or nothing once one of them fails.
    pub open spec fn spec_fold(p: SpecPairs) -> Option<SheetState>
        decreases p.len(),
    {
        if p.len() == 0 {
            Some(Self::spec_init())
        } else {
            match Self::spec_fold(p.drop_last()) {
                None => None,
                Some(st) => Self::spec_step(st, p.last()),
            }
        }
    }

    /// A failure in a prefix fails the whole list.
    pub proof fn lemma_fold_none(p: SpecPairs, n: int)
        requires
            0 <= n <= p.len(),
            Self::spec_fold(p.take(n)) is None,
        ensures
            Self::spec_fold(p) is None,
        decreases p.len() - n,
    {
        if n < p.len() {
            assert(p.take(n + 1).drop_last() =~= p.take(n));
            Self::lemma_fold_none(p, n + 1);
        } else {
            assert(p.take(n) =~= p);
        }
    }

    /// Whether a decoded record holds the folded state.
    pub open spec fn spec_matches(x: Sheet, p: SpecPairs) -> bool {
        match Self::spec_fold(p) {
            None => false,
            Some(st) => {
                &&& x.owner_index == st.owner_index
        &&& x.owner_part_id == st.owner_part_id
        &&& x.snap_grid_size == st.snap_grid_size
        &&& x.snap_grid_on == st.snap_grid_on
        &&& x.visible_grid_on == st.visible_grid_on
        &&& x.visible_grid_size == st.visible_grid_size
        &&& x.custom_x == st.custom_x
        &&& x.custom_y == st.custom_y
        &&& x.custom_x_zones == st.custom_x_zones
        &&& x.custom_y_zones == st.custom_y_zones
        &&& x.custom_margin_width == st.custom_margin_width
        &&& x.hot_spot_grid_on == st.hot_spot_grid_on
        &&& x.hot_spot_grid_size == st.hot_spot_grid_size
        &&& x.system_font == st.system_font
        &&& x.border_on == st.border_on
        &&& x.sheet_number_space_size == st.sheet_number_space_size
        &&& x.area_color == st.area_color
        &&& x.display_unit == st.display_unit
        &&& x.use_mbcs == st.use_mbcs
        &&& x.is_boc == st.is_boc
                &&& x.file_version_info@ == st.file_version_info
                &&& x.fonts.fonts@.len() == st.fonts.len()
                &&& forall|j: int| 0 <= j < st.fonts.len() ==> {
                    &&& (#[trigger] x.fonts.fonts@[j]).name@ == st.fonts[j].name
                    &&& x.fonts.fonts@[j].size == st.fonts[j].size
                }
            },
        }
    }

    /// Bind one scalar-field pair, or report that the key is no scalar
    /// field.
    #[verifier::rlimit(100)]
    fn bind_scalar(
        x: &mut Sheet,
        key: &[u8],
        val: &[u8],
        Ghost(p): Ghost<SpecPairs>,
        Ghost(i): Ghost<int>,
    ) -> (r: Result<bool, ErrorKind>)
        requires
            0 <= i < p.len(),
            p[i] == (key@, val@),
            Self::spec_fold(p.take(i)) is Some,
            Self::spec_matches(*old(x), p.take(i)),
        ensures
            r is Err ==> Self::spec_fold(p) is None && Self::spec_fold(p.take(i + 1)) is None,
            r is Ok ==> (r->Ok_0 <==> Self::spec_is_scalar_key(p[i].0)),
            r is Ok && r->Ok_0 ==> Self::spec_fold(p.take(i + 1)) is Some
                && Self::spec_matches(*final(x), p.take(i + 1)),
            r is Ok && !r->Ok_0 ==> *final(x) == *old(x),
    {
        proof {
            assert(p.take(i + 1).drop_last() =~= p.take(i));
            assert(p.take(i + 1).last() == p[i]);
        }
        let a_owner_index: [u8; 10] = [0x4fu8, 0x77u8, 0x6eu8, 0x65u8, 0x72u8, 0x49u8, 0x6eu8, 0x64u8, 0x65u8, 0x78u8];
        let a_owner_part_id: [u8; 11] = [0x4fu8, 0x77u8, 0x6eu8, 0x65u8, 0x72u8, 0x50u8, 0x61u8, 0x72u8, 0x74u8, 0x49u8, 0x64u8];
        let a_snap_grid_size: [u8; 12] = [0x53u8, 0x6eu8, 0x61u8, 0x70u8, 0x47u8, 0x72u8, 0x69u8, 0x64u8, 0x53u8, 0x69u8, 0x7au8, 0x65u8];
        let a_snap_grid_on: [u8; 10] = [0x53u8, 0x6eu8, 0x61u8, 0x70u8, 0x47u8, 0x72u8, 0x69u8, 0x64u8, 0x4fu8, 0x6eu8];
        let a_visible_grid_on: [u8; 13] = [0x56u8, 0x69u8, 0x73u8, 0x69u8, 0x62u8, 0x6cu8, 0x65u8, 0x47u8, 0x72u8, 0x69u8, 0x64u8, 0x4fu8, 0x6eu8];
        let a_visible_grid_size: [u8; 15] = [0x56u8, 0x69u8, 0x73u8, 0x69u8, 0x62u8, 0x6cu8, 0x65u8, 0x47u8, 0x72u8, 0x69u8, 0x64u8, 0x53u8, 0x69u8, 0x7au8, 0x65u8];
        let a_custom_x: [u8; 7] = [0x43u8, 0x75u8, 0x73u8, 0x74u8, 0x6fu8, 0x6du8, 0x58u8];
        let a_custom_y: [u8; 7] = [0x43u8, 0x75u8, 0x73u8, 0x74u8, 0x6fu8, 0x6du8, 0x59u8];
        let a_custom_x_zones: [u8; 12] = [0x43u8, 0x75u8, 0x73u8, 0x74u8, 0x6fu8, 0x6du8, 0x58u8, 0x5au8, 0x6fu8, 0x6eu8, 0x65u8, 0x73u8];
        let a_custom_y_zones: [u8; 12] = [0x43u8, 0x75u8, 0x73u8, 0x74u8, 0x6fu8, 0x6du8, 0x59u8, 0x5au8, 0x6fu8, 0x6eu8, 0x65u8, 0x73u8];
        let a_custom_margin_width: [u8; 17] = [0x43u8, 0x75u8, 0x73u8, 0x74u8, 0x6fu8, 0x6du8, 0x4du8, 0x61u8, 0x72u8, 0x67u8, 0x69u8, 0x6eu8, 0x57u8, 0x69u8, 0x64u8, 0x74u8, 0x68u8];
        let a_hot_spot_grid_on: [u8; 13] = [0x48u8, 0x6fu8, 0x74u8, 0x53u8, 0x70u8, 0x6fu8, 0x74u8, 0x47u8, 0x72u8, 0x69u8, 0x64u8, 0x4fu8, 0x6eu8];
        let a_hot_spot_grid_size: [u8; 15] = [0x48u8, 0x6fu8, 0x74u8, 0x53u8, 0x70u8, 0x6fu8, 0x74u8, 0x47u8, 0x72u8, 0x69u8, 0x64u8, 0x53u8, 0x69u8, 0x7au8, 0x65u8];
        let a_system_font: [u8; 10] = [0x53u8, 0x79u8, 0x73u8, 0x74u8, 0x65u8, 0x6du8, 0x46u8, 0x6fu8, 0x6eu8, 0x74u8];
        let a_border_on: [u8; 8] = [0x42u8, 0x6fu8, 0x72u8, 0x64u8, 0x65u8, 0x72u8, 0x4fu8, 0x6eu8];
        let a_sheet_number_space_size: [u8; 20] = [0x53u8, 0x68u8, 0x65u8, 0x65u8, 0x74u8, 0x4eu8, 0x75u8, 0x6du8, 0x62u8, 0x65u8, 0x72u8, 0x53u8, 0x70u8, 0x61u8, 0x63u8, 0x65u8, 0x53u8, 0x69u8, 0x7au8, 0x65u8];
        let a_area_color: [u8; 9] = [0x41u8, 0x72u8, 0x65u8, 0x61u8, 0x43u8, 0x6fu8, 0x6cu8, 0x6fu8, 0x72u8];
        let a_display_unit: [u8; 12] = [0x44u8, 0x69u8, 0x73u8, 0x70u8, 0x6cu8, 0x61u8, 0x79u8, 0x5fu8, 0x55u8, 0x6eu8, 0x69u8, 0x74u8];
        let a_use_mbcs: [u8; 7] = [0x55u8, 0x73u8, 0x65u8, 0x4du8, 0x42u8, 0x43u8, 0x53u8];
        let a_is_boc: [u8; 5] = [0x49u8, 0x73u8, 0x42u8, 0x4fu8, 0x43u8];
        proof {
            assert(a_owner_index@ =~= crate::keys::k_owner_index());
            assert(a_owner_part_id@ =~= crate::keys::k_owner_part_id());
            assert(a_snap_grid_size@ =~= crate::keys::k_snap_grid_size());
            assert(a_snap_grid_on@ =~= crate::keys::k_snap_grid_on());
            assert(a_visible_grid_on@ =~= crate::keys::k_visible_grid_on());
            assert(a_visible_grid_size@ =~= crate::keys::k_visible_grid_size());
            assert(a_custom_x@ =~= crate::keys::k_custom_x());
            assert(a_custom_y@ =~= crate::keys::k_custom_y());
            assert(a_custom_x_zones@ =~= crate::keys::k_custom_x_zones());
            assert(a_custom_y_zones@ =~= crate::keys::k_custom_y_zones());
            assert(a_custom_margin_width@ =~= crate::keys::k_custom_margin_width());
            assert(a_hot_spot_grid_on@ =~= crate::keys::k_hot_spot_grid_on());
            assert(a_hot_spot_grid_size@ =~= crate::keys::k_hot_spot_grid_size());
            assert(a_system_font@ =~= crate::keys::k_system_font());
            assert(a_border_on@ =~= crate::keys::k_border_on());
            assert(a_sheet_number_space_size@ =~= crate::keys::k_sheet_number_space_size());
            assert(a_area_color@ =~= crate::keys::k_area_color());
            assert(a_display_unit@ =~= crate::keys::k_display_unit());
            assert(a_use_mbcs@ =~= crate::keys::k_use_mbcs());
            assert(a_is_boc@ =~= crate::keys::k_is_boc());
            assert(crate::keys::k_owner_index() != crate::keys::k_owner_part_id()) by { assert(crate::keys::k_owner_index().len() != crate::keys::k_owner_part_id().len()); }
            assert(crate::keys::k_owner_index() != crate::keys::k_snap_grid_size()) by { assert(crate::keys::k_owner_index().len() != crate::keys::k_snap_grid_size().len()); }
            assert(crate::keys::k_owner_index() != crate::keys::k_snap_grid_on()) by { assert(crate::keys::k_owner_index()[0] != crate::keys::k_snap_grid_on()[0]); }
            assert(crate::keys::k_owner_index() != crate::keys::k_visible_grid_on()) by { assert(crate::keys::k_owner_index().len() != crate::keys::k_visible_grid_on().len()); }
            assert(crate::keys::k_owner_index() != crate::keys::k_visible_grid_size()) by { assert(crate::keys::k_owner_index().len() != crate::keys::k_visible_grid_size().len()); }
            assert(crate::keys::k_owner_index() != crate::keys::k_custom_x()) by { assert(crate::keys::k_owner_index().len() != crate::keys::k_custom_x().len()); }
            assert(crate::keys::k_owner_index() != crate::keys::k_custom_y()) by { assert(crate::keys::k_owner_index().len() != crate::keys::k_custom_y().len()); }
            assert(crate::keys::k_owner_index() != crate::keys::k_custom_x_zones()) by { assert(crate::keys::k_owner_index().len() != crate::keys::k_custom_x_zones().len()); }
            assert(crate::keys::k_owner_index() != crate::keys::k_custom_y_zones()) by { assert(crate::keys::k_owner_index().len() != crate::keys::k_custom_y_zones().len()); }
            assert(crate::keys::k_owner_index() != crate::keys::k_custom_margin_width()) by { assert(crate::keys::k_owner_index().len() != crate::keys::k_custom_margin_width().len()); }
            assert(crate::keys::k_owner_index() != crate::keys::k_hot_spot_grid_on()) by { assert(crate::keys::k_owner_index().len() != crate::keys::k_hot_spot_grid_on().len()); }
            assert(crate::keys::k_owner_index() != crate::keys::k_hot_spot_grid_size()) by { assert(crate::keys::k_owner_index().len() != crate::keys::k_hot_spot_grid_size().len()); }
            assert(crate::keys::k_owner_index() != crate::keys::k_system_font()) by { assert(crate::keys::k_owner_index()[0] != crate::keys::k_system_font()[0]); }
            assert(crate::keys::k_owner_index() != crate::keys::k_border_on()) by { assert(crate::keys::k_owner_index().len() != crate::keys::k_border_on().len()); }
            assert(crate::keys::k_owner_index() != crate::keys::k_sheet_number_space_size()) by { assert(crate::keys::k_owner_index().len() != crate::keys::k_sheet_number_space_size().len()); }
            assert(crate::keys::k_owner_index() != crate::keys::k_area_color()) by { assert(crate::keys::k_owner_index().len() != crate::keys::k_area_color().len()); }
            assert(crate::keys::k_owner_index() != crate::keys::k_display_unit()) by { assert(crate::keys::k_owner_index().len() != crate::keys::k_display_unit().len()); }
            assert(crate::keys::k_owner_index() != crate::keys::k_use_mbcs()) by { assert(crate::keys::k_owner_index().len() != crate::keys::k_use_mbcs().len()); }
            assert(crate::keys::k_owner_index() != crate::keys::k_is_boc()) by { assert(crate::keys::k_owner_index().len() != crate::keys::k_is_boc().len()); }
            assert(crate::keys::k_owner_part_id() != crate::keys::k_snap_grid_size()) by { assert(crate::keys::k_owner_part_id().len() != crate::keys::k_snap_grid_size().len()); }
            assert(crate::keys::k_owner_part_id() != crate::keys::k_snap_grid_on()) by { assert(crate::keys::k_owner_part_id().len() != crate::keys::k_snap_grid_on().len()); }
            assert(crate::keys::k_owner_part_id() != crate::keys::k_visible_grid_on()) by { assert(crate::keys::k_owner_part_id().len() != crate::keys::k_visible_grid_on().len()); }
            assert(crate::keys::k_owner_part_id() != crate::keys::k_visible_grid_size()) by { assert(crate::keys::k_owner_part_id().len() != crate::keys::k_visible_grid_size().len()); }
            assert(crate::keys::k_owner_part_id() != crate::keys::k_custom_x()) by { assert(crate::keys::k_owner_part_id().len() != crate::keys::k_custom_x().len()); }
            assert(crate::keys::k_owner_part_id() != crate::keys::k_custom_y()) by { assert(crate::keys::k_owner_part_id().len() != crate::keys::k_custom_y().len()); }
            assert(crate::keys::k_owner_part_id() != crate::keys::k_custom_x_zones()) by { assert(crate::keys::k_owner_part_id().len() != crate::keys::k_custom_x_zones().len()); }
            assert(crate::keys::k_owner_part_id() != crate::keys::k_custom_y_zones()) by { assert(crate::keys::k_owner_part_id().len() != crate::keys::k_custom_y_zones().len()); }
            assert(crate::keys::k_owner_part_id() != crate::keys::k_custom_margin_width()) by { assert(crate::keys::k_owner_part_id().len() != crate::keys::k_custom_margin_width().len()); }
            assert(crate::keys::k_owner_part_id() != crate::keys::k_hot_spot_grid_on()) by { assert(crate::keys::k_owner_part_id().len() != crate::keys::k_hot_spot_grid_on().len()); }
            assert(crate::keys::k_owner_part_id() != crate::keys::k_hot_spot_grid_size()) by { assert(crate::keys::k_owner_part_id().len() != crate::keys::k_hot_spot_grid_size().len()); }
            assert(crate::keys::k_owner_part_id() != crate::keys::k_system_font()) by { assert(crate::keys::k_owner_part_id().len() != crate::keys::k_system_font().len()); }
            assert(crate::keys::k_owner_part_id() != crate::keys::k_border_on()) by { assert(crate::keys::k_owner_part_id().len() != crate::keys::k_border_on().len()); }
            assert(crate::keys::k_owner_part_id() != crate::keys::k_sheet_number_space_size()) by { assert(crate::keys::k_owner_part_id().len() != crate::keys::k_sheet_number_space_size().len()); }
            assert(crate::keys::k_owner_part_id() != crate::keys::k_area_color()) by { assert(crate::keys::k_owner_part_id().len() != crate::keys::k_area_color().len()); }
            assert(crate::keys::k_owner_part_id() != crate::keys::k_display_unit()) by { assert(crate::keys::k_owner_part_id().len() != crate::keys::k_display_unit().len()); }
            assert(crate::keys::k_owner_part_id() != crate::keys::k_use_mbcs()) by { assert(crate::keys::k_owner_part_id().len() != crate::keys::k_use_mbcs().len()); }
            assert(crate::keys::k_owner_part_id() != crate::keys::k_is_boc()) by { assert(crate::keys::k_owner_part_id().len() != crate::keys::k_is_boc().len()); }
            assert(crate::keys::k_snap_grid_size() != crate::keys::k_snap_grid_on()) by { assert(crate::keys::k_snap_grid_size().len() != crate::keys::k_snap_grid_on().len()); }
            assert(crate::keys::k_snap_grid_size() != crate::keys::k_visible_grid_on()) by { assert(crate::keys::k_snap_grid_size().len() != crate::keys::k_visible_grid_on().len()); }
            assert(crate::keys::k_snap_grid_size() != crate::keys::k_visible_grid_size()) by { assert(crate::keys::k_snap_grid_size().len() != crate::keys::k_visible_grid_size().len()); }
            assert(crate::keys::k_snap_grid_size() != crate::keys::k_custom_x()) by { assert(crate::keys::k_snap_grid_size().len() != crate::keys::k_custom_x().len()); }
            assert(crate::keys::k_snap_grid_size() != crate::keys::k_custom_y()) by { assert(crate::keys::k_snap_grid_size().len() != crate::keys::k_custom_y().len()); }
            assert(crate::keys::k_snap_grid_size() != crate::keys::k_custom_x_zones()) by { assert(crate::keys::k_snap_grid_size()[0] != crate::keys::k_custom_x_zones()[0]); }
            assert(crate::keys::k_snap_grid_size() != crate::keys::k_custom_y_zones()) by { assert(crate::keys::k_snap_grid_size()[0] != crate::keys::k_custom_y_zones()[0]); }
            assert(crate::keys::k_snap_grid_size() != crate::keys::k_custom_margin_width()) by { assert(crate::keys::k_snap_grid_size().len() != crate::keys::k_custom_margin_width().len()); }
            assert(crate::keys::k_snap_grid_size() != crate::keys::k_hot_spot_grid_on()) by { assert(crate::keys::k_snap_grid_size().len() != crate::keys::k_hot_spot_grid_on().len()); }
            assert(crate::keys::k_snap_grid_size() != crate::keys::k_hot_spot_grid_size()) by { assert(crate::keys::k_snap_grid_size().len() != crate::keys::k_hot_spot_grid_size().len()); }
            assert(crate::keys::k_snap_grid_size() != crate::keys::k_system_font()) by { assert(crate::keys::k_snap_grid_size().len() != crate::keys::k_system_font().len()); }
            assert(crate::keys::k_snap_grid_size() != crate::keys::k_border_on()) by { assert(crate::keys::k_snap_grid_size().len() != crate::keys::k_border_on().len()); }
            assert(crate::keys::k_snap_grid_size() != crate::keys::k_sheet_number_space_size()) by { assert(crate::keys::k_snap_grid_size().len() != crate::keys::k_sheet_number_space_size().len()); }
            assert(crate::keys::k_snap_grid_size() != crate::keys::k_area_color()) by { assert(crate::keys::k_snap_grid_size().len() != crate::keys::k_area_color().len()); }
            assert(crate::keys::k_snap_grid_size() != crate::keys::k_display_unit()) by { assert(crate::keys::k_snap_grid_size()[0] != crate::keys::k_display_unit()[0]); }
            assert(crate::keys::k_snap_grid_size() != crate::keys::k_use_mbcs()) by { assert(crate::keys::k_snap_grid_size().len() != crate::keys::k_use_mbcs().len()); }
            assert(crate::keys::k_snap_grid_size() != crate::keys::k_is_boc()) by { assert(crate::keys::k_snap_grid_size().len() != crate::keys::k_is_boc().len()); }
            assert(crate::keys::k_snap_grid_on() != crate::keys::k_visible_grid_on()) by { assert(crate::keys::k_snap_grid_on().len() != crate::keys::k_visible_grid_on().len()); }
            assert(crate::keys::k_snap_grid_on() != crate::keys::k_visible_grid_size()) by { assert(crate::keys::k_snap_grid_on().len() != crate::keys::k_visible_grid_size().len()); }
            assert(crate::keys::k_snap_grid_on() != crate::keys::k_custom_x()) by { assert(crate::keys::k_snap_grid_on().len() != crate::keys::k_custom_x().len()); }
            assert(crate::keys::k_snap_grid_on() != crate::keys::k_custom_y()) by { assert(crate::keys::k_snap_grid_on().len() != crate::keys::k_custom_y().len()); }
            assert(crate::keys::k_snap_grid_on() != crate::keys::k_custom_x_zones()) by { assert(crate::keys::k_snap_grid_on().len() != crate::keys::k_custom_x_zones().len()); }
            assert(crate::keys::k_snap_grid_on() != crate::keys::k_custom_y_zones()) by { assert(crate::keys::k_snap_grid_on().len() != crate::keys::k_custom_y_zones().len()); }
            assert(crate::keys::k_snap_grid_on() != crate::keys::k_custom_margin_width()) by { assert(crate::keys::k_snap_grid_on().len() != crate::keys::k_custom_margin_width().len()); }
            assert(crate::keys::k_snap_grid_on() != crate::keys::k_hot_spot_grid_on()) by { assert(crate::keys::k_snap_grid_on().len() != crate::keys::k_hot_spot_grid_on().len()); }
            assert(crate::keys::k_snap_grid_on() != crate::keys::k_hot_spot_grid_size()) by { assert(crate::keys::k_snap_grid_on().len() != crate::keys::k_hot_spot_grid_size().len()); }
            assert(crate::keys::k_snap_grid_on() != crate::keys::k_system_font()) by { assert(crate::keys::k_snap_grid_on()[1] != crate::keys::k_system_font()[1]); }
            assert(crate::keys::k_snap_grid_on() != crate::keys::k_border_on()) by { assert(crate::keys::k_snap_grid_on().len() != crate::keys::k_border_on().len()); }
            assert(crate::keys::k_snap_grid_on() != crate::keys::k_sheet_number_space_size()) by { assert(crate::keys::k_snap_grid_on().len() != crate::keys::k_sheet_number_space_size().len()); }
            assert(crate::keys::k_snap_grid_on() != crate::keys::k_area_color()) by { assert(crate::keys::k_snap_grid_on().len() != crate::keys::k_area_color().len()); }
            assert(crate::keys::k_snap_grid_on() != crate::keys::k_display_unit()) by { assert(crate::keys::k_snap_grid_on().len() != crate::keys::k_display_unit().len()); }
            assert(crate::keys::k_snap_grid_on() != crate::keys::k_use_mbcs()) by { assert(crate::keys::k_snap_grid_on().len() != crate::keys::k_use_mbcs().len()); }
            assert(crate::keys::k_snap_grid_on() != crate::keys::k_is_boc()) by { assert(crate::keys::k_snap_grid_on().len() != crate::keys::k_is_boc().len()); }
            assert(crate::keys::k_visible_grid_on() != crate::keys::k_visible_grid_size()) by { assert(crate::keys::k_visible_grid_on().len() != crate::keys::k_visible_grid_size().len()); }
            assert(crate::keys::k_visible_grid_on() != crate::keys::k_custom_x()) by { assert(crate::keys::k_visible_grid_on().len() != crate::keys::k_custom_x().len()); }
            assert(crate::keys::k_visible_grid_on() != crate::keys::k_custom_y()) by { assert(crate::keys::k_visible_grid_on().len() != crate::keys::k_custom_y().len()); }
            assert(crate::keys::k_visible_grid_on() != crate::keys::k_custom_x_zones()) by { assert(crate::keys::k_visible_grid_on().len() != crate::keys::k_custom_x_zones().len()); }
            assert(crate::keys::k_visible_grid_on() != crate::keys::k_custom_y_zones()) by { assert(crate::keys::k_visible_grid_on().len() != crate::keys::k_custom_y_zones().len()); }
            assert(crate::keys::k_visible_grid_on() != crate::keys::k_custom_margin_width()) by { assert(crate::keys::k_visible_grid_on().len() != crate::keys::k_custom_margin_width().len()); }
            assert(crate::keys::k_visible_grid_on() != crate::keys::k_hot_spot_grid_on()) by { assert(crate::keys::k_visible_grid_on()[0] != crate::keys::k_hot_spot_grid_on()[0]); }
            assert(crate::keys::k_visible_grid_on() != crate::keys::k_hot_spot_grid_size()) by { assert(crate::keys::k_visible_grid_on().len() != crate::keys::k_hot_spot_grid_size().len()); }
            assert(crate::keys::k_visible_grid_on() != crate::keys::k_system_font()) by { assert(crate::keys::k_visible_grid_on().len() != crate::keys::k_system_font().len()); }
            assert(crate::keys::k_visible_grid_on() != crate::keys::k_border_on()) by { assert(crate::keys::k_visible_grid_on().len() != crate::keys::k_border_on().len()); }
            assert(crate::keys::k_visible_grid_on() != crate::keys::k_sheet_number_space_size()) by { assert(crate::keys::k_visible_grid_on().len() != crate::keys::k_sheet_number_space_size().len()); }
            assert(crate::keys::k_visible_grid_on() != crate::keys::k_area_color()) by { assert(crate::keys::k_visible_grid_on().len() != crate::keys::k_area_color().len()); }
            assert(crate::keys::k_visible_grid_on() != crate::keys::k_display_unit()) by { assert(crate::keys::k_visible_grid_on().len() != crate::keys::k_display_unit().len()); }
            assert(crate::keys::k_visible_grid_on() != crate::keys::k_use_mbcs()) by { assert(crate::keys::k_visible_grid_on().len() != crate::keys::k_use_mbcs().len()); }
            assert(crate::keys::k_visible_grid_on() != crate::keys::k_is_boc()) by { assert(crate::keys::k_visible_grid_on().len() != crate::keys::k_is_boc().len()); }
            assert(crate::keys::k_visible_grid_size() != crate::keys::k_custom_x()) by { assert(crate::keys::k_visible_grid_size().len() != crate::keys::k_custom_x().len()); }
            assert(crate::keys::k_visible_grid_size() != crate::keys::k_custom_y()) by { assert(crate::keys::k_visible_grid_size().len() != crate::keys::k_custom_y().len()); }
            assert(crate::keys::k_visible_grid_size() != crate::keys::k_custom_x_zones()) by { assert(crate::keys::k_visible_grid_size().len() != crate::keys::k_custom_x_zones().len()); }
            assert(crate::keys::k_visible_grid_size() != crate::keys::k_custom_y_zones()) by { assert(crate::keys::k_visible_grid_size().len() != crate::keys::k_custom_y_zones().len()); }
            assert(crate::keys::k_visible_grid_size() != crate::keys::k_custom_margin_width()) by { assert(crate::keys::k_visible_grid_size().len() != crate::keys::k_custom_margin_width().len()); }
            assert(crate::keys::k_visible_grid_size() != crate::keys::k_hot_spot_grid_on()) by { assert(crate::keys::k_visible_grid_size().len() != crate::keys::k_hot_spot_grid_on().len()); }
            assert(crate::keys::k_visible_grid_size() != crate::keys::k_hot_spot_grid_size()) by { assert(crate::keys::k_visible_grid_size()[0] != crate::keys::k_hot_spot_grid_size()[0]); }
            assert(crate::keys::k_visible_grid_size() != crate::keys::k_system_font()) by { assert(crate::keys::k_visible_grid_size().len() != crate::keys::k_system_font().len()); }
            assert(crate::keys::k_visible_grid_size() != crate::keys::k_border_on()) by { assert(crate::keys::k_visible_grid_size().len() != crate::keys::k_border_on().len()); }
            assert(crate::keys::k_visible_grid_size() != crate::keys::k_sheet_number_space_size()) by { assert(crate::keys::k_visible_grid_size().len() != crate::keys::k_sheet_number_space_size().len()); }
            assert(crate::keys::k_visible_grid_size() != crate::keys::k_area_color()) by { assert(crate::keys::k_visible_grid_size().len() != crate::keys::k_area_color().len()); }
            assert(crate::keys::k_visible_grid_size() != crate::keys::k_display_unit()) by { assert(crate::keys::k_visible_grid_size().len() != crate::keys::k_display_unit().len()); }
            assert(crate::keys::k_visible_grid_size() != crate::keys::k_use_mbcs()) by { assert(crate::keys::k_visible_grid_size().len() != crate::keys::k_use_mbcs().len()); }
            assert(crate::keys::k_visible_grid_size() != crate::keys::k_is_boc()) by { assert(crate::keys::k_visible_grid_size().len() != crate::keys::k_is_boc().len()); }
            assert(crate::keys::k_custom_x() != crate::keys::k_custom_y()) by { assert(crate::keys::k_custom_x()[6] != crate::keys::k_custom_y()[6]); }
            assert(crate::keys::k_custom_x() != crate::keys::k_custom_x_zones()) by { assert(crate::keys::k_custom_x().len() != crate::keys::k_custom_x_zones().len()); }
            assert(crate::keys::k_custom_x() != crate::keys::k_custom_y_zones()) by { assert(crate::keys::k_custom_x().len() != crate::keys::k_custom_y_zones().len()); }
            assert(crate::keys::k_custom_x() != crate::keys::k_custom_margin_width()) by { assert(crate::keys::k_custom_x().len() != crate::keys::k_custom_margin_width().len()); }
            assert(crate::keys::k_custom_x() != crate::keys::k_hot_spot_grid_on()) by { assert(crate::keys::k_custom_x().len() != crate::keys::k_hot_spot_grid_on().len()); }
            assert(crate::keys::k_custom_x() != crate::keys::k_hot_spot_grid_size()) by { assert(crate::keys::k_custom_x().len() != crate::keys::k_hot_spot_grid_size().len()); }
            assert(crate::keys::k_custom_x() != crate::keys::k_system_font()) by { assert(crate::keys::k_custom_x().len() != crate::keys::k_system_font().len()); }
            assert(crate::keys::k_custom_x() != crate::keys::k_border_on()) by { assert(crate::keys::k_custom_x().len() != crate::keys::k_border_on().len()); }
            assert(crate::keys::k_custom_x() != crate::keys::k_sheet_number_space_size()) by { assert(crate::keys::k_custom_x().len() != crate::keys::k_sheet_number_space_size().len()); }
            assert(crate::keys::k_custom_x() != crate::keys::k_area_color()) by { assert(crate::keys::k_custom_x().len() != crate::keys::k_area_color().len()); }
            assert(crate::keys::k_custom_x() != crate::keys::k_display_unit()) by { assert(crate::keys::k_custom_x().len() != crate::keys::k_display_unit().len()); }
            assert(crate::keys::k_custom_x() != crate::keys::k_use_mbcs()) by { assert(crate::keys::k_custom_x()[0] != crate::keys::k_use_mbcs()[0]); }
            assert(crate::keys::k_custom_x() != crate::keys::k_is_boc()) by { assert(crate::keys::k_custom_x().len() != crate::keys::k_is_boc().len()); }
            assert(crate::keys::k_custom_y() != crate::keys::k_custom_x_zones()) by { assert(crate::keys::k_custom_y().len() != crate::keys::k_custom_x_zones().len()); }
            assert(crate::keys::k_custom_y() != crate::keys::k_custom_y_zones()) by { assert(crate::keys::k_custom_y().len() != crate::keys::k_custom_y_zones().len()); }
            assert(crate::keys::k_custom_y() != crate::keys::k_custom_margin_width()) by { assert(crate::keys::k_custom_y().len() != crate::keys::k_custom_margin_width().len()); }
            assert(crate::keys::k_custom_y() != crate::keys::k_hot_spot_grid_on()) by { assert(crate::keys::k_custom_y().len() != crate::keys::k_hot_spot_grid_on().len()); }
            assert(crate::keys::k_custom_y() != crate::keys::k_hot_spot_grid_size()) by { assert(crate::keys::k_custom_y().len() != crate::keys::k_hot_spot_grid_size().len()); }
            assert(crate::keys::k_custom_y() != crate::keys::k_system_font()) by { assert(crate::keys::k_custom_y().len() != crate::keys::k_system_font().len()); }
            assert(crate::keys::k_custom_y() != crate::keys::k_border_on()) by { assert(crate::keys::k_custom_y().len() != crate::keys::k_border_on().len()); }
            assert(crate::keys::k_custom_y() != crate::keys::k_sheet_number_space_size()) by { assert(crate::keys::k_custom_y().len() != crate::keys::k_sheet_number_space_size().len()); }
            assert(crate::keys::k_custom_y() != crate::keys::k_area_color()) by { assert(crate::keys::k_custom_y().len() != crate::keys::k_area_color().len()); }
            assert(crate::keys::k_custom_y() != crate::keys::k_display_unit()) by { assert(crate::keys::k_custom_y().len() != crate::keys::k_display_unit().len()); }
            assert(crate::keys::k_custom_y() != crate::keys::k_use_mbcs()) by { assert(crate::keys::k_custom_y()[0] != crate::keys::k_use_mbcs()[0]); }
            assert(crate::keys::k_custom_y() != crate::keys::k_is_boc()) by { assert(crate::keys::k_custom_y().len() != crate::keys::k_is_boc().len()); }
            assert(crate::keys::k_custom_x_zones() != crate::keys::k_custom_y_zones()) by { assert(crate::keys::k_custom_x_zones()[6] != crate::keys::k_custom_y_zones()[6]); }
            assert(crate::keys::k_custom_x_zones() != crate::keys::k_custom_margin_width()) by { assert(crate::keys::k_custom_x_zones().len() != crate::keys::k_custom_margin_width().len()); }
            assert(crate::keys::k_custom_x_zones() != crate::keys::k_hot_spot_grid_on()) by { assert(crate::keys::k_custom_x_zones().len() != crate::keys::k_hot_spot_grid_on().len()); }
            assert(crate::keys::k_custom_x_zones() != crate::keys::k_hot_spot_grid_size()) by { assert(crate::keys::k_custom_x_zones().len() != crate::keys::k_hot_spot_grid_size().len()); }
            assert(crate::keys::k_custom_x_zones() != crate::keys::k_system_font()) by { assert(crate::keys::k_custom_x_zones().len() != crate::keys::k_system_font().len()); }
            assert(crate::keys::k_custom_x_zones() != crate::keys::k_border_on()) by { assert(crate::keys::k_custom_x_zones().len() != crate::keys::k_border_on().len()); }
            assert(crate::keys::k_custom_x_zones() != crate::keys::k_sheet_number_space_size()) by { assert(crate::keys::k_custom_x_zones().len() != crate::keys::k_sheet_number_space_size().len()); }
            assert(crate::keys::k_custom_x_zones() != crate::keys::k_area_color()) by { assert(crate::keys::k_custom_x_zones().len() != crate::keys::k_area_color().len()); }
            assert(crate::keys::k_custom_x_zones() != crate::keys::k_display_unit()) by { assert(crate::keys::k_custom_x_zones()[0] != crate::keys::k_display_unit()[0]); }
            assert(crate::keys::k_custom_x_zones() != crate::keys::k_use_mbcs()) by { assert(crate::keys::k_custom_x_zones().len() != crate::keys::k_use_mbcs().len()); }
            assert(crate::keys::k_custom_x_zones() != crate::keys::k_is_boc()) by { assert(crate::keys::k_custom_x_zones().len() != crate::keys::k_is_boc().len()); }
            assert(crate::keys::k_custom_y_zones() != crate::keys::k_custom_margin_width()) by { assert(crate::keys::k_custom_y_zones().len() != crate::keys::k_custom_margin_width().len()); }
            assert(crate::keys::k_custom_y_zones() != crate::keys::k_hot_spot_grid_on()) by { assert(crate::keys::k_custom_y_zones().len() != crate::keys::k_hot_spot_grid_on().len()); }
            assert(crate::keys::k_custom_y_zones() != crate::keys::k_hot_spot_grid_size()) by { assert(crate::keys::k_custom_y_zones().len() != crate::keys::k_hot_spot_grid_size().len()); }
            assert(crate::keys::k_custom_y_zones() != crate::keys::k_system_font()) by { assert(crate::keys::k_custom_y_zones().len() != crate::keys::k_system_font().len()); }
            assert(crate::keys::k_custom_y_zones() != crate::keys::k_border_on()) by { assert(crate::keys::k_custom_y_zones().len() != crate::keys::k_border_on().len()); }
            assert(crate::keys::k_custom_y_zones() != crate::keys::k_sheet_number_space_size()) by { assert(crate::keys::k_custom_y_zones().len() != crate::keys::k_sheet_number_space_size().len()); }
            assert(crate::keys::k_custom_y_zones() != crate::keys::k_area_color()) by { assert(crate::keys::k_custom_y_zones().len() != crate::keys::k_area_color().len()); }
            assert(crate::keys::k_custom_y_zones() != crate::keys::k_display_unit()) by { assert(crate::keys::k_custom_y_zones()[0] != crate::keys::k_display_unit()[0]); }
            assert(crate::keys::k_custom_y_zones() != crate::keys::k_use_mbcs()) by { assert(crate::keys::k_custom_y_zones().len() != crate::keys::k_use_mbcs().len()); }
            assert(crate::keys::k_custom_y_zones() != crate::keys::k_is_boc()) by { assert(crate::keys::k_custom_y_zones().len() != crate::keys::k_is_boc().len()); }
            assert(crate::keys::k_custom_margin_width() != crate::keys::k_hot_spot_grid_on()) by { assert(crate::keys::k_custom_margin_width().len() != crate::keys::k_hot_spot_grid_on().len()); }
            assert(crate::keys::k_custom_margin_width() != crate::keys::k_hot_spot_grid_size()) by { assert(crate::keys::k_custom_margin_width().len() != crate::keys::k_hot_spot_grid_size().len()); }
            assert(crate::keys::k_custom_margin_width() != crate::keys::k_system_font()) by { assert(crate::keys::k_custom_margin_width().len() != crate::keys::k_system_font().len()); }
            assert(crate::keys::k_custom_margin_width() != crate::keys::k_border_on()) by { assert(crate::keys::k_custom_margin_width().len() != crate::keys::k_border_on().len()); }
            assert(crate::keys::k_custom_margin_width() != crate::keys::k_sheet_number_space_size()) by { assert(crate::keys::k_custom_margin_width().len() != crate::keys::k_sheet_number_space_size().len()); }
            assert(crate::keys::k_custom_margin_width() != crate::keys::k_area_color()) by { assert(crate::keys::k_custom_margin_width().len() != crate::keys::k_area_color().len()); }
            assert(crate::keys::k_custom_margin_width() != crate::keys::k_display_unit()) by { assert(crate::keys::k_custom_margin_width().len() != crate::keys::k_display_unit().len()); }
            assert(crate::keys::k_custom_margin_width() != crate::keys::k_use_mbcs()) by { assert(crate::keys::k_custom_margin_width().len() != crate::keys::k_use_mbcs().len()); }
            assert(crate::keys::k_custom_margin_width() != crate::keys::k_is_boc()) by { assert(crate::keys::k_custom_margin_width().len() != crate::keys::k_is_boc().len()); }
            assert(crate::keys::k_hot_spot_grid_on() != crate::keys::k_hot_spot_grid_size()) by { assert(crate::keys::k_hot_spot_grid_on().len() != crate::keys::k_hot_spot_grid_size().len()); }
            assert(crate::keys::k_hot_spot_grid_on() != crate::keys::k_system_font()) by { assert(crate::keys::k_hot_spot_grid_on().len() != crate::keys::k_system_font().len()); }
            assert(crate::keys::k_hot_spot_grid_on() != crate::keys::k_border_on()) by { assert(crate::keys::k_hot_spot_grid_on().len() != crate::keys::k_border_on().len()); }
            assert(crate::keys::k_hot_spot_grid_on() != crate::keys::k_sheet_number_space_size()) by { assert(crate::keys::k_hot_spot_grid_on().len() != crate::keys::k_sheet_number_space_size().len()); }
            assert(crate::keys::k_hot_spot_grid_on() != crate::keys::k_area_color()) by { assert(crate::keys::k_hot_spot_grid_on().len() != crate::keys::k_area_color().len()); }
            assert(crate::keys::k_hot_spot_grid_on() != crate::keys::k_display_unit()) by { assert(crate::keys::k_hot_spot_grid_on().len() != crate::keys::k_display_unit().len()); }
            assert(crate::keys::k_hot_spot_grid_on() != crate::keys::k_use_mbcs()) by { assert(crate::keys::k_hot_spot_grid_on().len() != crate::keys::k_use_mbcs().len()); }
            assert(crate::keys::k_hot_spot_grid_on() != crate::keys::k_is_boc()) by { assert(crate::keys::k_hot_spot_grid_on().len() != crate::keys::k_is_boc().len()); }
            assert(crate::keys::k_hot_spot_grid_size() != crate::keys::k_system_font()) by { assert(crate::keys::k_hot_spot_grid_size().len() != crate::keys::k_system_font().len()); }
            assert(crate::keys::k_hot_spot_grid_size() != crate::keys::k_border_on()) by { assert(crate::keys::k_hot_spot_grid_size().len() != crate::keys::k_border_on().len()); }
            assert(crate::keys::k_hot_spot_grid_size() != crate::keys::k_sheet_number_space_size()) by { assert(crate::keys::k_hot_spot_grid_size().len() != crate::keys::k_sheet_number_space_size().len()); }
            assert(crate::keys::k_hot_spot_grid_size() != crate::keys::k_area_color()) by { assert(crate::keys::k_hot_spot_grid_size().len() != crate::keys::k_area_color().len()); }
            assert(crate::keys::k_hot_spot_grid_size() != crate::keys::k_display_unit()) by { assert(crate::keys::k_hot_spot_grid_size().len() != crate::keys::k_display_unit().len()); }
            assert(crate::keys::k_hot_spot_grid_size() != crate::keys::k_use_mbcs()) by { assert(crate::keys::k_hot_spot_grid_size().len() != crate::keys::k_use_mbcs().len()); }
            assert(crate::keys::k_hot_spot_grid_size() != crate::keys::k_is_boc()) by { assert(crate::keys::k_hot_spot_grid_size().len() != crate::keys::k_is_boc().len()); }
            assert(crate::keys::k_system_font() != crate::keys::k_border_on()) by { assert(crate::keys::k_system_font().len() != crate::keys::k_border_on().len()); }
            assert(crate::keys::k_system_font() != crate::keys::k_sheet_number_space_size()) by { assert(crate::keys::k_system_font().len() != crate::keys::k_sheet_number_space_size().len()); }
            assert(crate::keys::k_system_font() != crate::keys::k_area_color()) by { assert(crate::keys::k_system_font().len() != crate::keys::k_area_color().len()); }
            assert(crate::keys::k_system_font() != crate::keys::k_display_unit()) by { assert(crate::keys::k_system_font().len() != crate::keys::k_display_unit().len()); }
            assert(crate::keys::k_system_font() != crate::keys::k_use_mbcs()) by { assert(crate::keys::k_system_font().len() != crate::keys::k_use_mbcs().len()); }
            assert(crate::keys::k_system_font() != crate::keys::k_is_boc()) by { assert(crate::keys::k_system_font().len() != crate::keys::k_is_boc().len()); }
            assert(crate::keys::k_border_on() != crate::keys::k_sheet_number_space_size()) by { assert(crate::keys::k_border_on().len() != crate::keys::k_sheet_number_space_size().len()); }
            assert(crate::keys::k_border_on() != crate::keys::k_area_color()) by { assert(crate::keys::k_border_on().len() != crate::keys::k_area_color().len()); }
            assert(crate::keys::k_border_on() != crate::keys::k_display_unit()) by { assert(crate::keys::k_border_on().len() != crate::keys::k_display_unit().len()); }
            assert(crate::keys::k_border_on() != crate::keys::k_use_mbcs()) by { assert(crate::keys::k_border_on().len() != crate::keys::k_use_mbcs().len()); }
            assert(crate::keys::k_border_on() != crate::keys::k_is_boc()) by { assert(crate::keys::k_border_on().len() != crate::keys::k_is_boc().len()); }
            assert(crate::keys::k_sheet_number_space_size() != crate::keys::k_area_color()) by { assert(crate::keys::k_sheet_number_space_size().len() != crate::keys::k_area_color().len()); }
            assert(crate::keys::k_sheet_number_space_size() != crate::keys::k_display_unit()) by { assert(crate::keys::k_sheet_number_space_size().len() != crate::keys::k_display_unit().len()); }
            assert(crate::keys::k_sheet_number_space_size() != crate::keys::k_use_mbcs()) by { assert(crate::keys::k_sheet_number_space_size().len() != crate::keys::k_use_mbcs().len()); }
            assert(crate::keys::k_sheet_number_space_size() != crate::keys::k_is_boc()) by { assert(crate::keys::k_sheet_number_space_size().len() != crate::keys::k_is_boc().len()); }
            assert(crate::keys::k_area_color() != crate::keys::k_display_unit()) by { assert(crate::keys::k_area_color().len() != crate::keys::k_display_unit().len()); }
            assert(crate::keys::k_area_color() != crate::keys::k_use_mbcs()) by { assert(crate::keys::k_area_color().len() != crate::keys::k_use_mbcs().len()); }
            assert(crate::keys::k_area_color() != crate::keys::k_is_boc()) by { assert(crate::keys::k_area_color().len() != crate::keys::k_is_boc().len()); }
            assert(crate::keys::k_display_unit() != crate::keys::k_use_mbcs()) by { assert(crate::keys::k_display_unit().len() != crate::keys::k_use_mbcs().len()); }
            assert(crate::keys::k_display_unit() != crate::keys::k_is_boc()) by { assert(crate::keys::k_display_unit().len() != crate::keys::k_is_boc().len()); }
            assert(crate::keys::k_use_mbcs() != crate::keys::k_is_boc()) by { assert(crate::keys::k_use_mbcs().len() != crate::keys::k_is_boc().len()); }
        }
        if crate::common::bytes_eq(key, a_owner_index.as_slice()) {
            match crate::parse::parse_u8(val) {
                Ok(v) => { x.owner_index = v; },
                Err(e) => {
                    proof { Sheet::lemma_fold_none(p, i + 1); }
                    return Err(e);
                },
            }
        }
        else if crate::common::bytes_eq(key, a_owner_part_id.as_slice()) {
            match crate::parse::parse_i8(val) {
                Ok(v) => { x.owner_part_id = v; },
                Err(e) => {
                    proof { Sheet::lemma_fold_none(p, i + 1); }
                    return Err(e);
                },
            }
        }
        else if crate::common::bytes_eq(key, a_snap_grid_size.as_slice()) {
            match crate::parse::parse_i32(val) {
                Ok(v) => { x.snap_grid_size = v; },
                Err(e) => {
                    proof { Sheet::lemma_fold_none(p, i + 1); }
                    return Err(e);
                },
            }
        }
        else if crate::common::bytes_eq(key, a_snap_grid_on.as_slice()) {
            match crate::parse::parse_bool(val) {
                Ok(v) => { x.snap_grid_on = v; },
                Err(e) => {
                    proof { Sheet::lemma_fold_none(p, i + 1); }
                    return Err(e);
                },
            }
        }
        else if crate::common::bytes_eq(key, a_visible_grid_on.as_slice()) {
            match crate::parse::parse_bool(val) {
                Ok(v) => { x.visible_grid_on = v; },
                Err(e) => {
                    proof { Sheet::lemma_fold_none(p, i + 1); }
                    return Err(e);
                },
            }
        }
        else if crate::common::bytes_eq(key, a_visible_grid_size.as_slice()) {
            match crate::parse::parse_i32(val) {
                Ok(v) => { x.visible_grid_size = v; },
                Err(e) => {
                    proof { Sheet::lemma_fold_none(p, i + 1); }
                    return Err(e);
                },
            }
        }
        else if crate::common::bytes_eq(key, a_custom_x.as_slice()) {
            match crate::parse::parse_i32(val) {
                Ok(v) => { x.custom_x = v; },
                Err(e) => {
                    proof { Sheet::lemma_fold_none(p, i + 1); }
                    return Err(e);
                },
            }
        }
        else if crate::common::bytes_eq(key, a_custom_y.as_slice()) {
            match crate::parse::parse_i32(val) {
                Ok(v) => { x.custom_y = v; },
                Err(e) => {
                    proof { Sheet::lemma_fold_none(p, i + 1); }
                    return Err(e);
                },
            }
        }
        else if crate::common::bytes_eq(key, a_custom_x_zones.as_slice()) {
            match crate::parse::parse_u16(val) {
                Ok(v) => { x.custom_x_zones = v; },
                Err(e) => {
                    proof { Sheet::lemma_fold_none(p, i + 1); }
                    return Err(e);
                },
            }
        }
        else if crate::common::bytes_eq(key, a_custom_y_zones.as_slice()) {
            match crate::parse::parse_u16(val) {
                Ok(v) => { x.custom_y_zones = v; },
                Err(e) => {
                    proof { Sheet::lemma_fold_none(p, i + 1); }
                    return Err(e);
                },
            }
        }
        else if crate::common::bytes_eq(key, a_custom_margin_width.as_slice()) {
            match crate::parse::parse_u16(val) {
                Ok(v) => { x.custom_margin_width = v; },
                Err(e) => {
                    proof { Sheet::lemma_fold_none(p, i + 1); }
                    return Err(e);
                },
            }
        }
        else if crate::common::bytes_eq(key, a_hot_spot_grid_on.as_slice()) {
            match crate::parse::parse_bool(val) {
                Ok(v) => { x.hot_spot_grid_on = v; },
                Err(e) => {
                    proof { Sheet::lemma_fold_none(p, i + 1); }
                    return Err(e);
                },
            }
        }
        else if crate::common::bytes_eq(key, a_hot_spot_grid_size.as_slice()) {
            match crate::parse::parse_i32(val) {
                Ok(v) => { x.hot_spot_grid_size = v; },
                Err(e) => {
                    proof { Sheet::lemma_fold_none(p, i + 1); }
                    return Err(e);
                },
            }
        }
        else if crate::common::bytes_eq(key, a_system_font.as_slice()) {
            match crate::parse::parse_u16(val) {
                Ok(v) => { x.system_font = v; },
                Err(e) => {
                    proof { Sheet::lemma_fold_none(p, i + 1); }
                    return Err(e);
                },
            }
        }
        else if crate::common::bytes_eq(key, a_border_on.as_slice()) {
            match crate::parse::parse_bool(val) {
                Ok(v) => { x.border_on = v; },
                Err(e) => {
                    proof { Sheet::lemma_fold_none(p, i + 1); }
                    return Err(e);
                },
            }
        }
        else if crate::common::bytes_eq(key, a_sheet_number_space_size.as_slice()) {
            match crate::parse::parse_i32(val) {
                Ok(v) => { x.sheet_number_space_size = v; },
                Err(e) => {
                    proof { Sheet::lemma_fold_none(p, i + 1); }
                    return Err(e);
                },
            }
        }
        else if crate::common::bytes_eq(key, a_area_color.as_slice()) {
            match Rgb::from_utf8(val) {
                Ok(v) => { x.area_color = v; },
                Err(e) => {
                    proof { Sheet::lemma_fold_none(p, i + 1); }
                    return Err(e);
                },
            }
        }
        else if crate::common::bytes_eq(key, a_display_unit.as_slice()) {
            match crate::parse::parse_u16(val) {
                Ok(v) => { x.display_unit = v; },
                Err(e) => {
                    proof { Sheet::lemma_fold_none(p, i + 1); }
                    return Err(e);
                },
            }
        }
        else if crate::common::bytes_eq(key, a_use_mbcs.as_slice()) {
            match crate::parse::parse_bool(val) {
                Ok(v) => { x.use_mbcs = v; },
                Err(e) => {
                    proof { Sheet::lemma_fold_none(p, i + 1); }
                    return Err(e);
                },
            }
        }
        else if crate::common::bytes_eq(key, a_is_boc.as_slice()) {
            match crate::parse::parse_bool(val) {
                Ok(v) => { x.is_boc = v; },
                Err(e) => {
                    proof { Sheet::lemma_fold_none(p, i + 1); }
                    return Err(e);
                },
            }
        }
        else {
            return Ok(false);
        }
        Ok(true)
    }

    /// Bind one font-table pair, or report that the key is none of the
    /// font keys.
    #[verifier::rlimit(100)]
    fn bind_fonts(
        x: &mut Sheet,
        key: &[u8],
        val: &[u8],
        Ghost(p): Ghost<SpecPairs>,
        Ghost(i): Ghost<int>,
    ) -> (r: Result<bool, ErrorKind>)
        requires
            0 <= i < p.len(),
            p[i] == (key@, val@),
            Self::spec_fold(p.take(i)) is Some,
            Self::spec_matches(*old(x), p.take(i)),
            !Self::spec_is_scalar_key(p[i].0),
            p[i].0 != utf8_twin(crate::keys::k_file_version_info()),
            p[i].0 != crate::keys::k_file_version_info(),
        ensures
            r is Err ==> Self::spec_fold(p) is None && Self::spec_fold(p.take(i + 1)) is None,
            r is Ok ==> (r->Ok_0 <==> Self::spec_is_font_key(p[i].0)),
            r is Ok && r->Ok_0 ==> Self::spec_fold(p.take(i + 1)) is Some
                && Self::spec_matches(*final(x), p.take(i + 1))
                && Self::spec_fold(p.take(i + 1))->0.seen_fvi == Self::spec_fold(
                p.take(i),
            )->0.seen_fvi,
            r is Ok && !r->Ok_0 ==> *final(x) == *old(x),
    {
        proof {
            assert(p.take(i + 1).drop_last() =~= p.take(i));
            assert(p.take(i + 1).last() == p[i]);
        }
        let a_font_id_count: [u8; 11] = [0x46u8, 0x6fu8, 0x6eu8, 0x74u8, 0x49u8, 0x64u8, 0x43u8, 0x6fu8, 0x75u8, 0x6eu8, 0x74u8];
        let a_font_name_pfx: [u8; 8] = [0x46u8, 0x6fu8, 0x6eu8, 0x74u8, 0x4eu8, 0x61u8, 0x6du8, 0x65u8];
        let a_size_pfx: [u8; 4] = [0x53u8, 0x69u8, 0x7au8, 0x65u8];
        proof {
            assert(a_font_id_count@ =~= crate::keys::k_font_id_count());
            assert(a_font_name_pfx@ =~= spec_font_name_pfx());
            assert(a_size_pfx@ =~= spec_size_pfx());
        }
        if crate::common::bytes_eq(key, a_font_id_count.as_slice()) {
            match crate::parse::parse_u32(val) {
                Ok(c) => {
                    let mut fresh: Vec<Font> = Vec::new();
                    let mut j: u32 = 0;
                    while j < c
                        invariant
                            0 <= j <= c,
                            fresh@.len() == j,
                            forall|t: int| 0 <= t < j ==> (#[trigger] fresh@[t]).name@
                                == Seq::<char>::empty() && fresh@[t].size == 0,
                        decreases c - j,
                    {
                        fresh.push(Font { name: String::new(), size: 0 });
                        j += 1;
                    }
                    x.fonts = FontCollection { fonts: fresh };
                },
                Err(e) => {
                    proof { Sheet::lemma_fold_none(p, i + 1); }
                    return Err(e);
                },
            }
        } else if crate::common::is_number_pattern(key, a_font_name_pfx.as_slice()) {
            let kl = key.len();
            let digits = &key[8..kl];
            proof {
                assert(digits@ =~= p[i].0.skip(8));
            }
            match crate::parse::parse_usize(digits) {
                Ok(idx) => {
                    if idx >= 1 && idx <= x.fonts.fonts.len() {
                        match crate::common::str_from_utf8(val) {
                            Ok(s) => {
                                let size = x.fonts.fonts[idx - 1].size;
                                x.fonts.fonts.set(idx - 1, Font { name: s, size });
                            },
                            Err(e) => {
                                proof { Sheet::lemma_fold_none(p, i + 1); }
                                return Err(e);
                            },
                        }
                    } else {
                        proof { Sheet::lemma_fold_none(p, i + 1); }
                        return Err(ErrorKind::new_invalid_key(key));
                    }
                },
                Err(e) => {
                    proof { Sheet::lemma_fold_none(p, i + 1); }
                    return Err(e);
                },
            }
        } else if crate::common::is_number_pattern(key, a_size_pfx.as_slice()) {
            let kl = key.len();
            let digits = &key[4..kl];
            proof {
                assert(digits@ =~= p[i].0.skip(4));
            }
            match crate::parse::parse_usize(digits) {
                Ok(idx) => {
                    if idx >= 1 && idx <= x.fonts.fonts.len() {
                        match crate::parse::parse_u16(val) {
                            Ok(v) => {
                                let nm = x.fonts.fonts[idx - 1].name.clone();
                                x.fonts.fonts.set(idx - 1, Font { name: nm, size: v });
                            },
                            Err(e) => {
                                proof { Sheet::lemma_fold_none(p, i + 1); }
                                return Err(e);
                            },
                        }
                    } else {
                        proof { Sheet::lemma_fold_none(p, i + 1); }
                        return Err(ErrorKind::new_invalid_key(key));
                    }
                },
                Err(e) => {
                    proof { Sheet::lemma_fold_none(p, i + 1); }
                    return Err(e);
                },
            }
        } else {
            return Ok(false);
        }
        Ok(true)
    }

    /// Bind one pair into the record under construction.
    #[verifier::rlimit(100)]
    fn bind_pair(
        x: &mut Sheet,
        seen_fvi: &mut bool,
        key: &[u8],
        val: &[u8],
        counter: &mut UnsupportedCounter,
        Ghost(p): Ghost<SpecPairs>,
        Ghost(i): Ghost<int>,
    ) -> (r: Result<(), ErrorKind>)
        requires
            0 <= i < p.len(),
            p[i] == (key@, val@),
            Self::spec_fold(p.take(i)) is Some,
            Self::spec_matches(*old(x), p.take(i)),
            *old(seen_fvi) == Self::spec_fold(p.take(i))->0.seen_fvi,
        ensures
            r is Ok <==> Self::spec_fold(p.take(i + 1)) is Some,
            r is Err ==> Self::spec_fold(p) is None,
            r is Ok ==> Self::spec_matches(*final(x), p.take(i + 1)),
            r is Ok ==> *final(seen_fvi) == Self::spec_fold(p.take(i + 1))->0.seen_fvi,
            Self::spec_known_key(p[i].0) ==> final(counter).count == old(counter).count,
            !Self::spec_known_key(p[i].0) ==> final(counter).count == sat_add(
                old(counter).count,
                1,
            ),
            final(counter).count >= old(counter).count,
    {
        proof {
            assert(p.take(i + 1).drop_last() =~= p.take(i));
            assert(p.take(i + 1).last() == p[i]);
        }
        let handled = match Self::bind_scalar(x, key, val, Ghost(p), Ghost(i)) {
            Ok(h) => h,
            Err(e) => {
                return Err(e);
            },
        };
        if handled {
            return Ok(());
        }
        let a_file_version_info: [u8; 15] = [0x46u8, 0x69u8, 0x6cu8, 0x65u8, 0x56u8, 0x65u8, 0x72u8, 0x73u8, 0x69u8, 0x6fu8, 0x6eu8, 0x49u8, 0x6eu8, 0x66u8, 0x6fu8];
        let a_font_id_count: [u8; 11] = [0x46u8, 0x6fu8, 0x6eu8, 0x74u8, 0x49u8, 0x64u8, 0x43u8, 0x6fu8, 0x75u8, 0x6eu8, 0x74u8];
        let t_file_version_info: [u8; 21] = [0x25u8, 0x55u8, 0x54u8, 0x46u8, 0x38u8, 0x25u8, 0x46u8, 0x69u8, 0x6cu8, 0x65u8, 0x56u8, 0x65u8, 0x72u8, 0x73u8, 0x69u8, 0x6fu8, 0x6eu8, 0x49u8, 0x6eu8, 0x66u8, 0x6fu8];
        let a_font_name_pfx: [u8; 8] = [0x46u8, 0x6fu8, 0x6eu8, 0x74u8, 0x4eu8, 0x61u8, 0x6du8, 0x65u8];
        let a_size_pfx: [u8; 4] = [0x53u8, 0x69u8, 0x7au8, 0x65u8];
        proof {
            assert(a_file_version_info@ =~= crate::keys::k_file_version_info());
            assert(a_font_id_count@ =~= crate::keys::k_font_id_count());
            assert(t_file_version_info@ =~= utf8_twin(crate::keys::k_file_version_info()));
            assert(a_font_name_pfx@ =~= spec_font_name_pfx());
            assert(a_size_pfx@ =~= spec_size_pfx());
            assert(crate::keys::k_file_version_info() != crate::keys::k_font_id_count()) by { assert(crate::keys::k_file_version_info().len() != crate::keys::k_font_id_count().len()); }
            assert(crate::keys::k_file_version_info() != utf8_twin(crate::keys::k_file_version_info())) by { assert(crate::keys::k_file_version_info().len() != utf8_twin(crate::keys::k_file_version_info()).len()); }
            assert(crate::keys::k_font_id_count() != utf8_twin(crate::keys::k_file_version_info())) by { assert(crate::keys::k_font_id_count().len() != utf8_twin(crate::keys::k_file_version_info()).len()); }
        }
        if crate::common::bytes_eq(key, t_file_version_info.as_slice()) {
            match crate::common::str_from_utf8(val) {
                Ok(s) => {
                    x.file_version_info = s;
                    *seen_fvi = true;
                },
                Err(e) => {
                    proof { Sheet::lemma_fold_none(p, i + 1); }
                    return Err(e);
                },
            }
        } else if crate::common::bytes_eq(key, a_file_version_info.as_slice()) {
            if !*seen_fvi {
                match crate::common::str_from_utf8(val) {
                    Ok(s) => { x.file_version_info = s; },
                    Err(e) => {
                        proof { Sheet::lemma_fold_none(p, i + 1); }
                        return Err(e);
                    },
                }
            }
        } else {
            let fhandled = match Self::bind_fonts(x, key, val, Ghost(p), Ghost(i)) {
                Ok(h) => h,
                Err(e) => {
                    return Err(e);
                },
            };
            if !fhandled {
                crate::logging::macro_unsupported_key(counter, "Sheet", key, val);
            }
        }
        Ok(())
    }

    /// Bind the fields of one `Sheet` record from its key-value pairs.
    #[verifier::loop_isolation(false)]
    #[verifier::rlimit(100)]
    pub fn from_record(pairs: &[(Vec<u8>, Vec<u8>)], counter: &mut UnsupportedCounter) -> (r:
        Result<Sheet, ErrorKind>)
        ensures
            r is Ok <==> Self::spec_fold(pairs_view(pairs@)) is Some,
            r is Ok ==> Self::spec_matches(r->Ok_0, pairs_view(pairs@)),
            r is Ok ==> final(counter).count == sat_add(
                old(counter).count,
                Self::spec_unknown(pairs_view(pairs@)),
            ),
            final(counter).count >= old(counter).count,
    {
        let ghost p = pairs_view(pairs@);
        proof {
            crate::common::lemma_pairs_view(pairs@);
            assert(p.take(0) =~= Seq::<(Seq<u8>, Seq<u8>)>::empty());
        }
        let mut x = Sheet {
            owner_index: 0,
            owner_part_id: 0,
            snap_grid_size: 0,
            snap_grid_on: false,
            visible_grid_on: false,
            visible_grid_size: 0,
            custom_x: 0,
            custom_y: 0,
            custom_x_zones: 0,
            custom_y_zones: 0,
            custom_margin_width: 0,
            hot_spot_grid_on: false,
            hot_spot_grid_size: 0,
            system_font: 0,
            border_on: false,
            sheet_number_space_size: 0,
            area_color: Rgb { r: 0, g: 0, b: 0 },
            display_unit: 0,
            use_mbcs: false,
            is_boc: false,
            fonts: FontCollection { fonts: Vec::new() },
            file_version_info: String::new(),
        };
        let mut seen_fvi: bool = false;
        let n = pairs.len();
        let mut i: usize = 0;
        while i < n
            invariant
                0 <= i <= n,
                n == pairs@.len(),
                Self::spec_fold(p.take(i as int)) is Some,
                Self::spec_matches(x, p.take(i as int)),
                seen_fvi == Self::spec_fold(p.take(i as int))->0.seen_fvi,
                counter.count == sat_add(old(counter).count, Self::spec_unknown(p.take(i as int))),
                0 <= Self::spec_unknown(p.take(i as int)) <= i,
            decreases n - i,
        {
            let key: &[u8] = pairs[i].0.as_slice();
            let val: &[u8] = pairs[i].1.as_slice();
            proof {
                assert(p[i as int] == (pairs@[i as int].0@, pairs@[i as int].1@));
                assert(p.take(i as int + 1).drop_last() =~= p.take(i as int));
                assert(p.take(i as int + 1).last() == p[i as int]);
            }
            match Self::bind_pair(&mut x, &mut seen_fvi, key, val, counter, Ghost(p), Ghost(
                i as int,
            )) {
                Ok(u) => { let _ = u; },
                Err(e) => {
                    return Err(e);
                },
            }
            i += 1;
        }
        proof {
            assert(p.take(n as int) =~= p);
        }
        Ok(x)
    }
}

} // verus!
