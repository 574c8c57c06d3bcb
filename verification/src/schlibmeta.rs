//! The schematic library's `FileHeader` stream: library-wide settings,
//! the font table, and the component metadata list.

use vstd::prelude::*;

use crate::binder::{ok_bool, ok_u16, ok_u32, ok_u8, ok_uid};
use crate::common::{
    pairs_view, spec_altium_pairs, split_altium_map, Rgb, UniqueId,
};
use crate::error::{Error, ErrorKind};
use crate::font::{Font, FontCollection};
use crate::params::SheetStyle;
use crate::parse::{is_uint_text, uint_val};
use vstd::utf8::{decode_utf8, valid_utf8};

verus! {

/// Whether a wire value is an ordinal of a sheet style.
pub open spec fn ok_style(v: Seq<u8>) -> bool {
    is_uint_text(v) && uint_val(v) <= 17
}

/// The magic header of a library `FileHeader` stream.
pub open spec fn spec_lib_header() -> Seq<u8> {
    seq![0x48u8, 0x45u8, 0x41u8, 0x44u8, 0x45u8, 0x52u8, 0x3du8, 0x50u8, 0x72u8, 0x6fu8, 0x74u8, 0x65u8, 0x6cu8, 0x20u8, 0x66u8, 0x6fu8, 0x72u8, 0x20u8, 0x57u8, 0x69u8, 0x6eu8, 0x64u8, 0x6fu8, 0x77u8, 0x73u8, 0x20u8, 0x2du8, 0x20u8, 0x53u8, 0x63u8, 0x68u8, 0x65u8, 0x6du8, 0x61u8, 0x74u8, 0x69u8, 0x63u8, 0x20u8, 0x4cu8, 0x69u8, 0x62u8, 0x72u8, 0x61u8, 0x72u8, 0x79u8, 0x20u8, 0x45u8, 0x64u8, 0x69u8, 0x74u8, 0x6fu8, 0x72u8, 0x20u8, 0x42u8, 0x69u8, 0x6eu8, 0x61u8, 0x72u8, 0x79u8, 0x20u8, 0x46u8, 0x69u8, 0x6cu8, 0x65u8, 0x20u8, 0x56u8, 0x65u8, 0x72u8, 0x73u8, 0x69u8, 0x6fu8, 0x6eu8, 0x20u8, 0x35u8, 0x2eu8, 0x30u8]
}

/// The `%UTF8%` key prefix.
pub open spec fn spec_utf8_pfx() -> Seq<u8> {
    seq![0x25u8, 0x55u8, 0x54u8, 0x46u8, 0x38u8, 0x25u8]
}

/// One font of the library's table, as the header leaves it.
pub struct HdrFont {
    pub name: Seq<char>,
    pub size: u16,
}

/// One component's metadata, as the header leaves it.
pub struct HdrComp {
    pub libref: Seq<char>,
    pub sec_key: Seq<char>,
    pub description: Seq<char>,
    pub part_count: u16,
}

/// The header fields as the walk of the pairs leaves them.
pub struct MetaState {
    pub weight: u32,
    pub minor_version: u8,
    pub unique_id: UniqueId,
    pub use_mbcs: bool,
    pub is_boc: bool,
    pub sheet_style: SheetStyle,
    pub border_on: bool,
    pub sheet_number_space_size: u16,
    pub area_color: Rgb,
    pub snap_grid_on: bool,
    pub snap_grid_size: u16,
    pub visible_grid_on: bool,
    pub visible_grid_size: u16,
    pub custom_x: u32,
    pub custom_y: u32,
    pub use_custom_sheet: bool,
    pub reference_zones_on: bool,
    pub display_unit: u16,
    pub fonts: Seq<HdrFont>,
    pub comps: Seq<HdrComp>,
    pub skip: Seq<Seq<u8>>,
}

/// Information available in the header about a single component.
#[derive(Clone, Debug, PartialEq)]
pub struct ComponentMeta {
    /// Name of the component in Altium.
    pub libref: String,
    /// Name of the component's stream in the compound file.
    pub sec_key: String,
    /// Description.
    pub description: String,
    /// Number of subparts within the component.
    pub part_count: u16,
}

impl ComponentMeta {
    /// Library reference of this component.
    pub fn libref(&self) -> (r: &str)
        ensures
            r@ == self.libref@,
    {
        self.libref.as_str()
    }

    /// This component's description.
    pub fn description(&self) -> (r: &str)
        ensures
            r@ == self.description@,
    {
        self.description.as_str()
    }

    /// Number of subparts within a component.
    pub fn part_count(&self) -> (r: u16)
        ensures
            r == self.part_count,
    {
        self.part_count
    }
}

/// Information contained within the library's `FileHeader` stream.
#[derive(Clone, Debug, PartialEq)]
pub struct SchLibMeta {
    pub weight: u32,
    pub minor_version: u8,
    pub unique_id: UniqueId,
    pub use_mbcs: bool,
    pub is_boc: bool,
    pub sheet_style: SheetStyle,
    pub border_on: bool,
    pub sheet_number_space_size: u16,
    pub area_color: Rgb,
    pub snap_grid_on: bool,
    pub snap_grid_size: u16,
    pub visible_grid_on: bool,
    pub visible_grid_size: u16,
    pub custom_x: u32,
    pub custom_y: u32,
    pub use_custom_sheet: bool,
    pub reference_zones_on: bool,
    pub display_unit: u16,
    pub fonts: FontCollection,
    pub components: Vec<ComponentMeta>,
}

impl SchLibMeta {
    pub open spec fn spec_init() -> MetaState {
        MetaState {
            weight: 0,
            minor_version: 0,
            unique_id: UniqueId::Simple([0x30u8, 0x30u8, 0x30u8, 0x30u8, 0x30u8, 0x30u8, 0x30u8, 0x30u8]),
            use_mbcs: false,
            is_boc: false,
            sheet_style: SheetStyle::A4,
            border_on: false,
            sheet_number_space_size: 0,
            area_color: Rgb { r: 0, g: 0, b: 0 },
            snap_grid_on: false,
            snap_grid_size: 0,
            visible_grid_on: false,
            visible_grid_size: 0,
            custom_x: 0,
            custom_y: 0,
            use_custom_sheet: false,
            reference_zones_on: false,
            display_unit: 0,
            fonts: Seq::empty(),
            comps: Seq::empty(),
            skip: Seq::empty(),
        }
    }

    /// One pair applied to the state: a key whose `%UTF8%` twin has been
    /// seen is discarded; a `%UTF8%`-prefixed key is stripped, remembered,
    /// and bound like the raw key.
    pub open spec fn spec_step(st: MetaState, q: (Seq<u8>, Seq<u8>)) -> Option<MetaState> {
        let marked = q.0.len() >= 6 && q.0.take(6) == spec_utf8_pfx();
        let k = if marked {
            q.0.skip(6)
        } else {
            q.0
        };
        if !marked && st.skip.contains(q.0) {
            Some(st)
        } else {
            let st0 = if marked {
                MetaState { skip: st.skip.push(k), ..st }
            } else {
                st
            };
            Self::spec_bind(st0, k, q.1)
        }
    }

    /// Bind one effective key.
    pub open spec fn spec_bind(st: MetaState, k: Seq<u8>, v: Seq<u8>) -> Option<MetaState> {
        if k == seq![0x48u8, 0x45u8, 0x41u8, 0x44u8, 0x45u8, 0x52u8] {
            Some(st)
        } else if k == seq![0x57u8, 0x65u8, 0x69u8, 0x67u8, 0x68u8, 0x74u8] {
            if ok_u32(v) {
                Some(MetaState { weight: uint_val(v) as u32, ..st })
            } else {
                None
            }
        } else if k == seq![0x4du8, 0x69u8, 0x6eu8, 0x6fu8, 0x72u8, 0x56u8, 0x65u8, 0x72u8, 0x73u8, 0x69u8, 0x6fu8, 0x6eu8] {
            if ok_u8(v) {
                Some(MetaState { minor_version: uint_val(v) as u8, ..st })
            } else {
                None
            }
        } else if k == seq![0x55u8, 0x6eu8, 0x69u8, 0x71u8, 0x75u8, 0x65u8, 0x49u8, 0x44u8] {
            if ok_uid(v) {
                Some(MetaState { unique_id: UniqueId::spec_from_utf8(v)->0, ..st })
            } else {
                None
            }
        } else if k == seq![0x55u8, 0x73u8, 0x65u8, 0x4du8, 0x42u8, 0x43u8, 0x53u8] {
            if ok_bool(v) {
                Some(MetaState { use_mbcs: v == seq![0x54u8], ..st })
            } else {
                None
            }
        } else if k == seq![0x49u8, 0x73u8, 0x42u8, 0x4fu8, 0x43u8] {
            if ok_bool(v) {
                Some(MetaState { is_boc: v == seq![0x54u8], ..st })
            } else {
                None
            }
        } else if k == seq![0x53u8, 0x68u8, 0x65u8, 0x65u8, 0x74u8, 0x53u8, 0x74u8, 0x79u8, 0x6cu8, 0x65u8] {
            if ok_style(v) {
                Some(MetaState { sheet_style: SheetStyle::spec_from_ordinal(uint_val(v) as u8)->0, ..st })
            } else {
                None
            }
        } else if k == seq![0x42u8, 0x6fu8, 0x72u8, 0x64u8, 0x65u8, 0x72u8, 0x4fu8, 0x6eu8] {
            if ok_bool(v) {
                Some(MetaState { border_on: v == seq![0x54u8], ..st })
            } else {
                None
            }
        } else if k == seq![0x53u8, 0x68u8, 0x65u8, 0x65u8, 0x74u8, 0x4eu8, 0x75u8, 0x6du8, 0x62u8, 0x65u8, 0x72u8, 0x53u8, 0x70u8, 0x61u8, 0x63u8, 0x65u8, 0x53u8, 0x69u8, 0x7au8, 0x65u8] {
            if ok_u16(v) {
                Some(MetaState { sheet_number_space_size: uint_val(v) as u16, ..st })
            } else {
                None
            }
        } else if k == seq![0x41u8, 0x72u8, 0x65u8, 0x61u8, 0x43u8, 0x6fu8, 0x6cu8, 0x6fu8, 0x72u8] {
            if ok_u32(v) {
                Some(MetaState { area_color: Rgb::spec_from_packed(uint_val(v) as u32), ..st })
            } else {
                None
            }
        } else if k == seq![0x53u8, 0x6eu8, 0x61u8, 0x70u8, 0x47u8, 0x72u8, 0x69u8, 0x64u8, 0x4fu8, 0x6eu8] {
            if ok_bool(v) {
                Some(MetaState { snap_grid_on: v == seq![0x54u8], ..st })
            } else {
                None
            }
        } else if k == seq![0x53u8, 0x6eu8, 0x61u8, 0x70u8, 0x47u8, 0x72u8, 0x69u8, 0x64u8, 0x53u8, 0x69u8, 0x7au8, 0x65u8] {
            if ok_u16(v) {
                Some(MetaState { snap_grid_size: uint_val(v) as u16, ..st })
            } else {
                None
            }
        } else if k == seq![0x56u8, 0x69u8, 0x73u8, 0x69u8, 0x62u8, 0x6cu8, 0x65u8, 0x47u8, 0x72u8, 0x69u8, 0x64u8, 0x4fu8, 0x6eu8] {
            if ok_bool(v) {
                Some(MetaState { visible_grid_on: v == seq![0x54u8], ..st })
            } else {
                None
            }
        } else if k == seq![0x56u8, 0x69u8, 0x73u8, 0x69u8, 0x62u8, 0x6cu8, 0x65u8, 0x47u8, 0x72u8, 0x69u8, 0x64u8, 0x53u8, 0x69u8, 0x7au8, 0x65u8] {
            if ok_u16(v) {
                Some(MetaState { visible_grid_size: uint_val(v) as u16, ..st })
            } else {
                None
            }
        } else if k == seq![0x43u8, 0x75u8, 0x73u8, 0x74u8, 0x6fu8, 0x6du8, 0x58u8] {
            if ok_u32(v) {
                Some(MetaState { custom_x: uint_val(v) as u32, ..st })
            } else {
                None
            }
        } else if k == seq![0x43u8, 0x75u8, 0x73u8, 0x74u8, 0x6fu8, 0x6du8, 0x59u8] {
            if ok_u32(v) {
                Some(MetaState { custom_y: uint_val(v) as u32, ..st })
            } else {
                None
            }
        } else if k == seq![0x55u8, 0x73u8, 0x65u8, 0x43u8, 0x75u8, 0x73u8, 0x74u8, 0x6fu8, 0x6du8, 0x53u8, 0x68u8, 0x65u8, 0x65u8, 0x74u8] {
            if ok_bool(v) {
                Some(MetaState { use_custom_sheet: v == seq![0x54u8], ..st })
            } else {
                None
            }
        } else if k == seq![0x52u8, 0x65u8, 0x66u8, 0x65u8, 0x72u8, 0x65u8, 0x6eu8, 0x63u8, 0x65u8, 0x5au8, 0x6fu8, 0x6eu8, 0x65u8, 0x73u8, 0x4fu8, 0x6eu8] {
            if ok_bool(v) {
                Some(MetaState { reference_zones_on: v == seq![0x54u8], ..st })
            } else {
                None
            }
        } else if k == seq![0x44u8, 0x69u8, 0x73u8, 0x70u8, 0x6cu8, 0x61u8, 0x79u8, 0x5fu8, 0x55u8, 0x6eu8, 0x69u8, 0x74u8] {
            if ok_u16(v) {
                Some(MetaState { display_unit: uint_val(v) as u16, ..st })
            } else {
                None
            }
        } else if k == seq![0x46u8, 0x6fu8, 0x6eu8, 0x74u8, 0x49u8, 0x64u8, 0x43u8, 0x6fu8, 0x75u8, 0x6eu8, 0x74u8] {
            if ok_u32(v) {
                Some(MetaState {
                    fonts: Seq::new((uint_val(v) as u32) as nat, |j: int| HdrFont {
                        name: Seq::empty(),
                        size: 0,
                    }),
                    ..st
                })
            } else {
                None
            }
        } else if k.len() >= 8 && k.take(8) == seq![0x46u8, 0x6fu8, 0x6eu8, 0x74u8, 0x4eu8, 0x61u8, 0x6du8, 0x65u8] {
            let d = k.skip(8);
            if is_uint_text(d) && uint_val(d) <= usize::MAX && 1 <= uint_val(d) <= st.fonts.len()
                && valid_utf8(v) {
                let j = uint_val(d) - 1;
                Some(MetaState {
                    fonts: st.fonts.update(j, HdrFont {
                        name: decode_utf8(v),
                        size: st.fonts[j].size,
                    }),
                    ..st
                })
            } else {
                None
            }
        } else if k.len() >= 4 && k.take(4) == seq![0x53u8, 0x69u8, 0x7au8, 0x65u8] {
            let d = k.skip(4);
            if is_uint_text(d) && uint_val(d) <= usize::MAX && 1 <= uint_val(d) <= st.fonts.len()
                && ok_u16(v) {
                let j = uint_val(d) - 1;
                Some(MetaState {
                    fonts: st.fonts.update(j, HdrFont {
                        name: st.fonts[j].name,
                        size: uint_val(v) as u16,
                    }),
                    ..st
                })
            } else {
                None
            }
        } else if k == seq![0x43u8, 0x6fu8, 0x6du8, 0x70u8, 0x43u8, 0x6fu8, 0x75u8, 0x6eu8, 0x74u8] {
            if ok_u32(v) {
                Some(MetaState {
                    comps: Seq::new((uint_val(v) as u32) as nat, |j: int| HdrComp {
                        libref: Seq::empty(),
                        sec_key: Seq::empty(),
                        description: Seq::empty(),
                        part_count: 0,
                    }),
                    ..st
                })
            } else {
                None
            }
        } else if k.len() >= 6 && k.take(6) == seq![0x4cu8, 0x69u8, 0x62u8, 0x52u8, 0x65u8, 0x66u8] {
            let d = k.skip(6);
            if is_uint_text(d) && uint_val(d) <= usize::MAX && uint_val(d) < st.comps.len()
                && valid_utf8(v) {
                let j = uint_val(d);
                Some(MetaState {
                    comps: st.comps.update(j, HdrComp {
                        libref: decode_utf8(v),
                        sec_key: decode_utf8(v),
                        description: st.comps[j].description,
                        part_count: st.comps[j].part_count,
                    }),
                    ..st
                })
            } else {
                None
            }
        } else if k.len() >= 9 && k.take(9) == seq![0x43u8, 0x6fu8, 0x6du8, 0x70u8, 0x44u8, 0x65u8, 0x73u8, 0x63u8, 0x72u8] {
            let d = k.skip(9);
            if is_uint_text(d) && uint_val(d) <= usize::MAX && uint_val(d) < st.comps.len()
                && valid_utf8(v) {
                let j = uint_val(d);
                Some(MetaState {
                    comps: st.comps.update(j, HdrComp {
                        libref: st.comps[j].libref,
                        sec_key: st.comps[j].sec_key,
                        description: decode_utf8(v),
                        part_count: st.comps[j].part_count,
                    }),
                    ..st
                })
            } else {
                None
            }
        } else if k.len() >= 9 && k.take(9) == seq![0x50u8, 0x61u8, 0x72u8, 0x74u8, 0x43u8, 0x6fu8, 0x75u8, 0x6eu8, 0x74u8] {
            let d = k.skip(9);
            if is_uint_text(d) && uint_val(d) <= usize::MAX && uint_val(d) < st.comps.len()
                && ok_u16(v) {
                let j = uint_val(d);
                Some(MetaState {
                    comps: st.comps.update(j, HdrComp {
                        libref: st.comps[j].libref,
                        sec_key: st.comps[j].sec_key,
                        description: st.comps[j].description,
                        part_count: uint_val(v) as u16,
                    }),
                    ..st
                })
            } else {
                None
            }
        } else {
            Some(st)
        }
    }

    /// The state after all pairs, or nothing once one of them fails.
    pub open spec fn spec_fold(p: Seq<(Seq<u8>, Seq<u8>)>) -> Option<MetaState>
        decreases p.len(),
    {
        if p.len() == 0 {
            Some(Self::spec_init())
        } else {
            match Self::spec_fold(p.drop_last()) {
                None => None,
                Some(st) => Self::spec_step(st, p.last()),
            }
        }
    }

    /// A failure in a prefix fails the whole list.
    pub proof fn lemma_fold_none(p: Seq<(Seq<u8>, Seq<u8>)>, n: int)
        requires
            0 <= n <= p.len(),
            Self::spec_fold(p.take(n)) is None,
        ensures
            Self::spec_fold(p) is None,
        decreases p.len() - n,
    {
        if n < p.len() {
            assert(p.take(n + 1).drop_last() =~= p.take(n));
            Self::lemma_fold_none(p, n + 1);
        } else {
            assert(p.take(n) =~= p);
        }
    }

    /// Whether a decoded header holds the folded state.
    pub open spec fn spec_matches(x: SchLibMeta, st: MetaState) -> bool {
        &&& x.weight == st.weight
        &&& x.minor_version == st.minor_version
        &&& x.unique_id == st.unique_id
        &&& x.use_mbcs == st.use_mbcs
        &&& x.is_boc == st.is_boc
        &&& x.sheet_style == st.sheet_style
        &&& x.border_on == st.border_on
        &&& x.sheet_number_space_size == st.sheet_number_space_size
        &&& x.area_color == st.area_color
        &&& x.snap_grid_on == st.snap_grid_on
        &&& x.snap_grid_size == st.snap_grid_size
        &&& x.visible_grid_on == st.visible_grid_on
        &&& x.visible_grid_size == st.visible_grid_size
        &&& x.custom_x == st.custom_x
        &&& x.custom_y == st.custom_y
        &&& x.use_custom_sheet == st.use_custom_sheet
        &&& x.reference_zones_on == st.reference_zones_on
        &&& x.display_unit == st.display_unit
        &&& x.fonts.fonts@.len() == st.fonts.len()
        &&& forall|j: int| 0 <= j < st.fonts.len() ==> {
            &&& (#[trigger] x.fonts.fonts@[j]).name@ == st.fonts[j].name
            &&& x.fonts.fonts@[j].size == st.fonts[j].size
        }
        &&& x.components@.len() == st.comps.len()
        &&& forall|j: int| 0 <= j < st.comps.len() ==> {
            &&& (#[trigger] x.components@[j]).libref@ == st.comps[j].libref
            &&& x.components@[j].sec_key@ == st.comps[j].sec_key
            &&& x.components@[j].description@ == st.comps[j].description
            &&& x.components@[j].part_count == st.comps[j].part_count
        }
    }

    /// Whether a `FileHeader` stream has its outer shape: a 5-byte prefix
    /// and a trailing NUL.
    pub open spec fn spec_shape_ok(b: Seq<u8>) -> bool {
        b.len() >= 6 && b.last() == 0
    }

    /// Whether the stream's first segment is the library header literal.
    pub open spec fn spec_literal_ok(b: Seq<u8>) -> bool {
        let t = b.subrange(5, b.len() - 1);
        &&& t.len() >= spec_lib_header().len()
        &&& t.take(spec_lib_header().len() as int) == spec_lib_header()
        &&& (t.len() > spec_lib_header().len() ==> t[spec_lib_header().len() as int] == 0x7c)
    }

    /// Whether a `FileHeader` stream is well shaped: a 5-byte prefix, a
    /// trailing NUL, and the library header literal as its first segment.
    pub open spec fn spec_stream_ok(b: Seq<u8>) -> bool {
        Self::spec_shape_ok(b) && Self::spec_literal_ok(b)
    }

    /// Whether the whole stream parses into a header.
    pub open spec fn spec_parse_ok(b: Seq<u8>) -> bool {
        &&& Self::spec_stream_ok(b)
        &&& Self::spec_stream_pairs(b) is Some
        &&& Self::spec_fold(Self::spec_stream_pairs(b)->0) is Some
    }

    /// The pair list of a well-shaped stream.
    pub open spec fn spec_stream_pairs(b: Seq<u8>) -> Option<Seq<(Seq<u8>, Seq<u8>)>> {
        spec_altium_pairs(b.subrange(5, b.len() - 1))
    }

    /// Validate a `FileHeader` stream and extract its information.
    ///
    /// The stream's 5-byte prefix and trailing NUL are stripped; the first
    /// segment must be the library header literal; the remaining pairs are
    /// bound into the header fields, the font table and the component
    /// metadata list.
    #[verifier::loop_isolation(false)]
    #[verifier::rlimit(100)]
    pub fn parse(buf: &[u8]) -> (r: Result<SchLibMeta, Error>)
        ensures
            r is Ok <==> Self::spec_parse_ok(buf@),
            r is Ok ==> Self::spec_matches(
                r->Ok_0,
                Self::spec_fold(Self::spec_stream_pairs(buf@)->0)->0,
            ),
            Self::spec_shape_ok(buf@) && !Self::spec_literal_ok(buf@) ==> r is Err
                && (*r->Err_0.kind) is InvalidHeader && (*r->Err_0.kind)->InvalidHeader_0@
                == crate::outside::lossy_decode(buf@.subrange(5, buf@.len() - 1)),
    {
        let hdr: [u8; 76] = [0x48u8, 0x45u8, 0x41u8, 0x44u8, 0x45u8, 0x52u8, 0x3du8, 0x50u8, 0x72u8, 0x6fu8, 0x74u8, 0x65u8, 0x6cu8, 0x20u8, 0x66u8, 0x6fu8, 0x72u8, 0x20u8, 0x57u8, 0x69u8, 0x6eu8, 0x64u8, 0x6fu8, 0x77u8, 0x73u8, 0x20u8, 0x2du8, 0x20u8, 0x53u8, 0x63u8, 0x68u8, 0x65u8, 0x6du8, 0x61u8, 0x74u8, 0x69u8, 0x63u8, 0x20u8, 0x4cu8, 0x69u8, 0x62u8, 0x72u8, 0x61u8, 0x72u8, 0x79u8, 0x20u8, 0x45u8, 0x64u8, 0x69u8, 0x74u8, 0x6fu8, 0x72u8, 0x20u8, 0x42u8, 0x69u8, 0x6eu8, 0x61u8, 0x72u8, 0x79u8, 0x20u8, 0x46u8, 0x69u8, 0x6cu8, 0x65u8, 0x20u8, 0x56u8, 0x65u8, 0x72u8, 0x73u8, 0x69u8, 0x6fu8, 0x6eu8, 0x20u8, 0x35u8, 0x2eu8, 0x30u8];
        proof {
            assert(hdr@ =~= spec_lib_header());
        }
        if buf.len() < 6 {
            return Err(Error::from_kind(ErrorKind::new_invalid_stream("FileHeader", 0)));
        }
        if buf[buf.len() - 1] != 0 {
            return Err(Error::from_kind(ErrorKind::new_invalid_stream(
                "FileHeader",
                buf.len(),
            )));
        }
        let to_parse = &buf[5..buf.len() - 1];
        assert(to_parse@ =~= buf@.subrange(5, buf@.len() - 1));
        if !crate::common::bytes_starts_with(to_parse, hdr.as_slice()) {
            return Err(Error::from_kind(ErrorKind::new_invalid_header(to_parse, "HEADER")));
        }
        if to_parse.len() > hdr.len() && to_parse[hdr.len()] != 0x7c {
            return Err(Error::from_kind(ErrorKind::new_invalid_header(to_parse, "HEADER")));
        }
        let pairs = match split_altium_map(to_parse) {
            Ok(v) => v,
            Err(e) => {
                return Err(Error::from_kind(e));
            },
        };
        let ghost p = pairs_view(pairs@);
        proof {
            crate::common::lemma_pairs_view(pairs@);
            assert(p.take(0) =~= Seq::<(Seq<u8>, Seq<u8>)>::empty());
        }
        let mut x = SchLibMeta {
            weight: 0,
            minor_version: 0,
            unique_id: UniqueId::Simple([0x30u8, 0x30u8, 0x30u8, 0x30u8, 0x30u8, 0x30u8, 0x30u8, 0x30u8]),
            use_mbcs: false,
            is_boc: false,
            sheet_style: SheetStyle::A4,
            border_on: false,
            sheet_number_space_size: 0,
            area_color: Rgb { r: 0, g: 0, b: 0 },
            snap_grid_on: false,
            snap_grid_size: 0,
            visible_grid_on: false,
            visible_grid_size: 0,
            custom_x: 0,
            custom_y: 0,
            use_custom_sheet: false,
            reference_zones_on: false,
            display_unit: 0,
            fonts: FontCollection { fonts: Vec::new() },
            components: Vec::new(),
        };
        let mut skip_keys: Vec<Vec<u8>> = Vec::new();
        let n = pairs.len();
        let mut i: usize = 0;
        while i < n
            invariant
                0 <= i <= n,
                n == pairs@.len(),
                Self::spec_fold(p.take(i as int)) is Some,
                Self::spec_matches(x, Self::spec_fold(p.take(i as int))->0),
                skip_keys@.len() == Self::spec_fold(p.take(i as int))->0.skip.len(),
                forall|j: int| 0 <= j < skip_keys@.len() ==> (#[trigger] skip_keys@[j])@
                    == Self::spec_fold(p.take(i as int))->0.skip[j],
            decreases n - i,
        {
            let key: &[u8] = pairs[i].0.as_slice();
            let val: &[u8] = pairs[i].1.as_slice();
            proof {
                assert(p[i as int] == (pairs@[i as int].0@, pairs@[i as int].1@));
                assert(p.take(i as int + 1).drop_last() =~= p.take(i as int));
                assert(p.take(i as int + 1).last() == p[i as int]);
            }
            match Self::bind_pair(&mut x, &mut skip_keys, key, val, Ghost(p), Ghost(i as int)) {
                Ok(u) => { let _ = u; },
                Err(e) => {
                    return Err(Error::from_kind(e).context("in the library header"));
                },
            }
            i += 1;
        }
        proof {
            assert(p.take(n as int) =~= p);
        }
        Ok(x)
    }

    /// Bind one pair into the header under construction.
    #[verifier::loop_isolation(false)]
    #[verifier::rlimit(100)]
    fn bind_pair(
        x: &mut SchLibMeta,
        skip_keys: &mut Vec<Vec<u8>>,
        key: &[u8],
        val: &[u8],
        Ghost(p): Ghost<Seq<(Seq<u8>, Seq<u8>)>>,
        Ghost(i): Ghost<int>,
    ) -> (r: Result<(), ErrorKind>)
        requires
            0 <= i < p.len(),
            p[i] == (key@, val@),
            Self::spec_fold(p.take(i)) is Some,
            Self::spec_matches(*old(x), Self::spec_fold(p.take(i))->0),
            old(skip_keys)@.len() == Self::spec_fold(p.take(i))->0.skip.len(),
            forall|j: int| 0 <= j < old(skip_keys)@.len()
                ==> (#[trigger] old(skip_keys)@[j])@ == Self::spec_fold(p.take(i))->0.skip[j],
        ensures
            r is Ok <==> Self::spec_fold(p.take(i + 1)) is Some,
            r is Err ==> Self::spec_fold(p) is None,
            r is Ok ==> Self::spec_matches(*final(x), Self::spec_fold(p.take(i + 1))->0),
            r is Ok ==> final(skip_keys)@.len() == Self::spec_fold(p.take(i + 1))->0.skip.len(),
            r is Ok ==> forall|j: int| 0 <= j < final(skip_keys)@.len()
                ==> (#[trigger] final(skip_keys)@[j])@ == Self::spec_fold(p.take(i + 1))->0.skip[j],
    {
        proof {
            assert(p.take(i + 1).drop_last() =~= p.take(i));
            assert(p.take(i + 1).last() == p[i]);
        }
        let upfx: [u8; 6] = [0x25u8, 0x55u8, 0x54u8, 0x46u8, 0x38u8, 0x25u8];
        proof {
            assert(upfx@ =~= spec_utf8_pfx());
        }
        let marked = crate::common::bytes_starts_with(key, upfx.as_slice());
        let k: &[u8];
        if marked {
            k = &key[6..key.len()];
            assert(k@ =~= p[i].0.skip(6));
            let mut kv: Vec<u8> = crate::common::slice_to_vec_range(key, 6, key.len());
            assert(kv@ =~= k@);
            skip_keys.push(kv);
        } else {
            k = key;
            let mut found = false;
            let mut j: usize = 0;
            while j < skip_keys.len()
                invariant
                    0 <= j <= skip_keys@.len(),
                    found ==> Self::spec_fold(p.take(i))->0.skip.contains(p[i].0),
                    !found ==> forall|t: int| 0 <= t < j ==> (#[trigger] skip_keys@[t])@
                        != p[i].0,
                decreases skip_keys@.len() - j,
            {
                if !found && crate::common::bytes_eq(skip_keys[j].as_slice(), key) {
                    found = true;
                    proof {
                        assert(Self::spec_fold(p.take(i))->0.skip[j as int] == p[i].0);
                    }
                }
                j += 1;
            }
            if found {
                proof {
                    assert(Self::spec_step(Self::spec_fold(p.take(i))->0, p[i])
                        == Some(Self::spec_fold(p.take(i))->0));
                }
                return Ok(());
            }
            proof {
                let st = Self::spec_fold(p.take(i))->0;
                if st.skip.contains(p[i].0) {
                    let w = choose|t: int| 0 <= t < st.skip.len() && st.skip[t] == p[i].0;
                    assert(skip_keys@[w]@ == p[i].0);
                }
            }
        }
        Self::bind_key(x, marked, k, val, Ghost(p), Ghost(i))
    }

    /// Bind one effective key into the header under construction.
    #[verifier::rlimit(100)]
    fn bind_key(
        x: &mut SchLibMeta,
        marked: bool,
        k: &[u8],
        val: &[u8],
        Ghost(p): Ghost<Seq<(Seq<u8>, Seq<u8>)>>,
        Ghost(i): Ghost<int>,
    ) -> (r: Result<(), ErrorKind>)
        requires
            0 <= i < p.len(),
            p[i].1 == val@,
            Self::spec_fold(p.take(i)) is Some,
            Self::spec_matches(*old(x), Self::spec_fold(p.take(i))->0),
            marked == (p[i].0.len() >= 6 && p[i].0.take(6) == spec_utf8_pfx()),
            k@ == if marked {
                p[i].0.skip(6)
            } else {
                p[i].0
            },
            !marked ==> !Self::spec_fold(p.take(i))->0.skip.contains(p[i].0),
        ensures
            r is Ok <==> Self::spec_fold(p.take(i + 1)) is Some,
            r is Err ==> Self::spec_fold(p) is None,
            r is Ok ==> Self::spec_matches(*final(x), Self::spec_fold(p.take(i + 1))->0),
            r is Ok ==> Self::spec_fold(p.take(i + 1))->0.skip == if marked {
                Self::spec_fold(p.take(i))->0.skip.push(p[i].0.skip(6))
            } else {
                Self::spec_fold(p.take(i))->0.skip
            },
    {
        proof {
            assert(p.take(i + 1).drop_last() =~= p.take(i));
            assert(p.take(i + 1).last() == p[i]);
        }
        let handled = match Self::bind_key_scalar(x, k, val, Ghost(p), Ghost(i), Ghost(marked)) {
            Ok(h) => h,
            Err(e) => {
                return Err(e);
            },
        };
        if handled {
            return Ok(());
        }
        let fhandled = match Self::bind_key_fonts(x, k, val, Ghost(p), Ghost(i), Ghost(marked)) {
            Ok(h) => h,
            Err(e) => {
                return Err(e);
            },
        };
        if fhandled {
            return Ok(());
        }
        match Self::bind_key_comps(x, k, val, Ghost(p), Ghost(i), Ghost(marked)) {
            Ok(u) => { let _ = u; },
            Err(e) => {
                return Err(e);
            },
        }
        Ok(())
    }

    /// Whether a key is the header literal key or a plain scalar field.
    pub open spec fn spec_is_scalar_key(k: Seq<u8>) -> bool {
        ||| k == seq![0x48u8, 0x45u8, 0x41u8, 0x44u8, 0x45u8, 0x52u8]
        ||| k == seq![0x57u8, 0x65u8, 0x69u8, 0x67u8, 0x68u8, 0x74u8]
        ||| k == seq![0x4du8, 0x69u8, 0x6eu8, 0x6fu8, 0x72u8, 0x56u8, 0x65u8, 0x72u8, 0x73u8, 0x69u8, 0x6fu8, 0x6eu8]
        ||| k == seq![0x55u8, 0x6eu8, 0x69u8, 0x71u8, 0x75u8, 0x65u8, 0x49u8, 0x44u8]
        ||| k == seq![0x55u8, 0x73u8, 0x65u8, 0x4du8, 0x42u8, 0x43u8, 0x53u8]
        ||| k == seq![0x49u8, 0x73u8, 0x42u8, 0x4fu8, 0x43u8]
        ||| k == seq![0x53u8, 0x68u8, 0x65u8, 0x65u8, 0x74u8, 0x53u8, 0x74u8, 0x79u8, 0x6cu8, 0x65u8]
        ||| k == seq![0x42u8, 0x6fu8, 0x72u8, 0x64u8, 0x65u8, 0x72u8, 0x4fu8, 0x6eu8]
        ||| k == seq![0x53u8, 0x68u8, 0x65u8, 0x65u8, 0x74u8, 0x4eu8, 0x75u8, 0x6du8, 0x62u8, 0x65u8, 0x72u8, 0x53u8, 0x70u8, 0x61u8, 0x63u8, 0x65u8, 0x53u8, 0x69u8, 0x7au8, 0x65u8]
        ||| k == seq![0x41u8, 0x72u8, 0x65u8, 0x61u8, 0x43u8, 0x6fu8, 0x6cu8, 0x6fu8, 0x72u8]
        ||| k == seq![0x53u8, 0x6eu8, 0x61u8, 0x70u8, 0x47u8, 0x72u8, 0x69u8, 0x64u8, 0x4fu8, 0x6eu8]
        ||| k == seq![0x53u8, 0x6eu8, 0x61u8, 0x70u8, 0x47u8, 0x72u8, 0x69u8, 0x64u8, 0x53u8, 0x69u8, 0x7au8, 0x65u8]
        ||| k == seq![0x56u8, 0x69u8, 0x73u8, 0x69u8, 0x62u8, 0x6cu8, 0x65u8, 0x47u8, 0x72u8, 0x69u8, 0x64u8, 0x4fu8, 0x6eu8]
        ||| k == seq![0x56u8, 0x69u8, 0x73u8, 0x69u8, 0x62u8, 0x6cu8, 0x65u8, 0x47u8, 0x72u8, 0x69u8, 0x64u8, 0x53u8, 0x69u8, 0x7au8, 0x65u8]
        ||| k == seq![0x43u8, 0x75u8, 0x73u8, 0x74u8, 0x6fu8, 0x6du8, 0x58u8]
        ||| k == seq![0x43u8, 0x75u8, 0x73u8, 0x74u8, 0x6fu8, 0x6du8, 0x59u8]
        ||| k == seq![0x55u8, 0x73u8, 0x65u8, 0x43u8, 0x75u8, 0x73u8, 0x74u8, 0x6fu8, 0x6du8, 0x53u8, 0x68u8, 0x65u8, 0x65u8, 0x74u8]
        ||| k == seq![0x52u8, 0x65u8, 0x66u8, 0x65u8, 0x72u8, 0x65u8, 0x6eu8, 0x63u8, 0x65u8, 0x5au8, 0x6fu8, 0x6eu8, 0x65u8, 0x73u8, 0x4fu8, 0x6eu8]
        ||| k == seq![0x44u8, 0x69u8, 0x73u8, 0x70u8, 0x6cu8, 0x61u8, 0x79u8, 0x5fu8, 0x55u8, 0x6eu8, 0x69u8, 0x74u8]
    }

    /// Whether a key belongs to the font table.
    pub open spec fn spec_is_font_key(k: Seq<u8>) -> bool {
        ||| k == seq![0x46u8, 0x6fu8, 0x6eu8, 0x74u8, 0x49u8, 0x64u8, 0x43u8, 0x6fu8, 0x75u8, 0x6eu8, 0x74u8]
        ||| k.len() >= 8 && k.take(8) == seq![0x46u8, 0x6fu8, 0x6eu8, 0x74u8, 0x4eu8, 0x61u8, 0x6du8, 0x65u8]
        ||| k.len() >= 4 && k.take(4) == seq![0x53u8, 0x69u8, 0x7au8, 0x65u8]
    }

    /// The state with the skip list as `spec_step` leaves it.
    pub open spec fn spec_post_skip(st: MetaState, q: (Seq<u8>, Seq<u8>)) -> MetaState {
        if q.0.len() >= 6 && q.0.take(6) == spec_utf8_pfx() {
            MetaState { skip: st.skip.push(q.0.skip(6)), ..st }
        } else {
            st
        }
    }

    /// Bind a scalar key, or report that the key is no scalar.
    #[verifier::rlimit(100)]
    fn bind_key_scalar(
        x: &mut SchLibMeta,
        k: &[u8],
        val: &[u8],
        Ghost(p): Ghost<Seq<(Seq<u8>, Seq<u8>)>>,
        Ghost(i): Ghost<int>,
        Ghost(marked): Ghost<bool>,
    ) -> (r: Result<bool, ErrorKind>)
        requires
            0 <= i < p.len(),
            p[i].1 == val@,
            Self::spec_fold(p.take(i)) is Some,
            Self::spec_matches(*old(x), Self::spec_fold(p.take(i))->0),
            marked == (p[i].0.len() >= 6 && p[i].0.take(6) == spec_utf8_pfx()),
            k@ == if marked {
                p[i].0.skip(6)
            } else {
                p[i].0
            },
            !marked ==> !Self::spec_fold(p.take(i))->0.skip.contains(p[i].0),
        ensures
            r is Err ==> Self::spec_fold(p) is None && Self::spec_fold(p.take(i + 1)) is None,
            r is Ok ==> (r->Ok_0 <==> Self::spec_is_scalar_key(k@)),
            r is Ok && r->Ok_0 ==> Self::spec_fold(p.take(i + 1)) is Some
                && Self::spec_matches(*final(x), Self::spec_fold(p.take(i + 1))->0)
                && Self::spec_fold(p.take(i + 1))->0.skip == Self::spec_post_skip(
                Self::spec_fold(p.take(i))->0,
                p[i],
            ).skip,
            r is Ok && !r->Ok_0 ==> *final(x) == *old(x),
    {
        proof {
            assert(p.take(i + 1).drop_last() =~= p.take(i));
            assert(p.take(i + 1).last() == p[i]);
        }
        if crate::common::bytes_eq(k, [0x48u8, 0x45u8, 0x41u8, 0x44u8, 0x45u8, 0x52u8].as_slice()) {
            return Ok(true);
        }
        if crate::common::bytes_eq(k, [0x57u8, 0x65u8, 0x69u8, 0x67u8, 0x68u8, 0x74u8].as_slice()) {
            match crate::parse::parse_u32(val) {
                Ok(pv) => { x.weight = pv; },
                Err(e) => {
                    proof { Self::lemma_fold_none(p, i + 1); }
                    return Err(e);
                },
            }
        }
        else if crate::common::bytes_eq(k, [0x4du8, 0x69u8, 0x6eu8, 0x6fu8, 0x72u8, 0x56u8, 0x65u8, 0x72u8, 0x73u8, 0x69u8, 0x6fu8, 0x6eu8].as_slice()) {
            match crate::parse::parse_u8(val) {
                Ok(pv) => { x.minor_version = pv; },
                Err(e) => {
                    proof { Self::lemma_fold_none(p, i + 1); }
                    return Err(e);
                },
            }
        }
        else if crate::common::bytes_eq(k, [0x55u8, 0x6eu8, 0x69u8, 0x71u8, 0x75u8, 0x65u8, 0x49u8, 0x44u8].as_slice()) {
            match UniqueId::from_utf8(val) {
                Ok(pv) => { x.unique_id = pv; },
                Err(e) => {
                    proof { Self::lemma_fold_none(p, i + 1); }
                    return Err(e);
                },
            }
        }
        else if crate::common::bytes_eq(k, [0x55u8, 0x73u8, 0x65u8, 0x4du8, 0x42u8, 0x43u8, 0x53u8].as_slice()) {
            match crate::parse::parse_bool(val) {
                Ok(pv) => { x.use_mbcs = pv; },
                Err(e) => {
                    proof { Self::lemma_fold_none(p, i + 1); }
                    return Err(e);
                },
            }
        }
        else if crate::common::bytes_eq(k, [0x49u8, 0x73u8, 0x42u8, 0x4fu8, 0x43u8].as_slice()) {
            match crate::parse::parse_bool(val) {
                Ok(pv) => { x.is_boc = pv; },
                Err(e) => {
                    proof { Self::lemma_fold_none(p, i + 1); }
                    return Err(e);
                },
            }
        }
        else if crate::common::bytes_eq(k, [0x53u8, 0x68u8, 0x65u8, 0x65u8, 0x74u8, 0x53u8, 0x74u8, 0x79u8, 0x6cu8, 0x65u8].as_slice()) {
            match SheetStyle::from_utf8(val) {
                Ok(pv) => { x.sheet_style = pv; },
                Err(e) => {
                    proof { Self::lemma_fold_none(p, i + 1); }
                    return Err(e);
                },
            }
        }
        else if crate::common::bytes_eq(k, [0x42u8, 0x6fu8, 0x72u8, 0x64u8, 0x65u8, 0x72u8, 0x4fu8, 0x6eu8].as_slice()) {
            match crate::parse::parse_bool(val) {
                Ok(pv) => { x.border_on = pv; },
                Err(e) => {
                    proof { Self::lemma_fold_none(p, i + 1); }
                    return Err(e);
                },
            }
        }
        else if crate::common::bytes_eq(k, [0x53u8, 0x68u8, 0x65u8, 0x65u8, 0x74u8, 0x4eu8, 0x75u8, 0x6du8, 0x62u8, 0x65u8, 0x72u8, 0x53u8, 0x70u8, 0x61u8, 0x63u8, 0x65u8, 0x53u8, 0x69u8, 0x7au8, 0x65u8].as_slice()) {
            match crate::parse::parse_u16(val) {
                Ok(pv) => { x.sheet_number_space_size = pv; },
                Err(e) => {
                    proof { Self::lemma_fold_none(p, i + 1); }
                    return Err(e);
                },
            }
        }
        else if crate::common::bytes_eq(k, [0x41u8, 0x72u8, 0x65u8, 0x61u8, 0x43u8, 0x6fu8, 0x6cu8, 0x6fu8, 0x72u8].as_slice()) {
            match Rgb::from_utf8(val) {
                Ok(pv) => { x.area_color = pv; },
                Err(e) => {
                    proof { Self::lemma_fold_none(p, i + 1); }
                    return Err(e);
                },
            }
        }
        else if crate::common::bytes_eq(k, [0x53u8, 0x6eu8, 0x61u8, 0x70u8, 0x47u8, 0x72u8, 0x69u8, 0x64u8, 0x4fu8, 0x6eu8].as_slice()) {
            match crate::parse::parse_bool(val) {
                Ok(pv) => { x.snap_grid_on = pv; },
                Err(e) => {
                    proof { Self::lemma_fold_none(p, i + 1); }
                    return Err(e);
                },
            }
        }
        else if crate::common::bytes_eq(k, [0x53u8, 0x6eu8, 0x61u8, 0x70u8, 0x47u8, 0x72u8, 0x69u8, 0x64u8, 0x53u8, 0x69u8, 0x7au8, 0x65u8].as_slice()) {
            match crate::parse::parse_u16(val) {
                Ok(pv) => { x.snap_grid_size = pv; },
                Err(e) => {
                    proof { Self::lemma_fold_none(p, i + 1); }
                    return Err(e);
                },
            }
        }
        else if crate::common::bytes_eq(k, [0x56u8, 0x69u8, 0x73u8, 0x69u8, 0x62u8, 0x6cu8, 0x65u8, 0x47u8, 0x72u8, 0x69u8, 0x64u8, 0x4fu8, 0x6eu8].as_slice()) {
            match crate::parse::parse_bool(val) {
                Ok(pv) => { x.visible_grid_on = pv; },
                Err(e) => {
                    proof { Self::lemma_fold_none(p, i + 1); }
                    return Err(e);
                },
            }
        }
        else if crate::common::bytes_eq(k, [0x56u8, 0x69u8, 0x73u8, 0x69u8, 0x62u8, 0x6cu8, 0x65u8, 0x47u8, 0x72u8, 0x69u8, 0x64u8, 0x53u8, 0x69u8, 0x7au8, 0x65u8].as_slice()) {
            match crate::parse::parse_u16(val) {
                Ok(pv) => { x.visible_grid_size = pv; },
                Err(e) => {
                    proof { Self::lemma_fold_none(p, i + 1); }
                    return Err(e);
                },
            }
        }
        else if crate::common::bytes_eq(k, [0x43u8, 0x75u8, 0x73u8, 0x74u8, 0x6fu8, 0x6du8, 0x58u8].as_slice()) {
            match crate::parse::parse_u32(val) {
                Ok(pv) => { x.custom_x = pv; },
                Err(e) => {
                    proof { Self::lemma_fold_none(p, i + 1); }
                    return Err(e);
                },
            }
        }
        else if crate::common::bytes_eq(k, [0x43u8, 0x75u8, 0x73u8, 0x74u8, 0x6fu8, 0x6du8, 0x59u8].as_slice()) {
            match crate::parse::parse_u32(val) {
                Ok(pv) => { x.custom_y = pv; },
                Err(e) => {
                    proof { Self::lemma_fold_none(p, i + 1); }
                    return Err(e);
                },
            }
        }
        else if crate::common::bytes_eq(k, [0x55u8, 0x73u8, 0x65u8, 0x43u8, 0x75u8, 0x73u8, 0x74u8, 0x6fu8, 0x6du8, 0x53u8, 0x68u8, 0x65u8, 0x65u8, 0x74u8].as_slice()) {
            match crate::parse::parse_bool(val) {
                Ok(pv) => { x.use_custom_sheet = pv; },
                Err(e) => {
                    proof { Self::lemma_fold_none(p, i + 1); }
                    return Err(e);
                },
            }
        }
        else if crate::common::bytes_eq(k, [0x52u8, 0x65u8, 0x66u8, 0x65u8, 0x72u8, 0x65u8, 0x6eu8, 0x63u8, 0x65u8, 0x5au8, 0x6fu8, 0x6eu8, 0x65u8, 0x73u8, 0x4fu8, 0x6eu8].as_slice()) {
            match crate::parse::parse_bool(val) {
                Ok(pv) => { x.reference_zones_on = pv; },
                Err(e) => {
                    proof { Self::lemma_fold_none(p, i + 1); }
                    return Err(e);
                },
            }
        }
        else if crate::common::bytes_eq(k, [0x44u8, 0x69u8, 0x73u8, 0x70u8, 0x6cu8, 0x61u8, 0x79u8, 0x5fu8, 0x55u8, 0x6eu8, 0x69u8, 0x74u8].as_slice()) {
            match crate::parse::parse_u16(val) {
                Ok(pv) => { x.display_unit = pv; },
                Err(e) => {
                    proof { Self::lemma_fold_none(p, i + 1); }
                    return Err(e);
                },
            }
        }
        else {
            return Ok(false);
        }
        Ok(true)
    }

    /// Bind a font-table key, or report that the key is none of them.
    #[verifier::rlimit(100)]
    fn bind_key_fonts(
        x: &mut SchLibMeta,
        k: &[u8],
        val: &[u8],
        Ghost(p): Ghost<Seq<(Seq<u8>, Seq<u8>)>>,
        Ghost(i): Ghost<int>,
        Ghost(marked): Ghost<bool>,
    ) -> (r: Result<bool, ErrorKind>)
        requires
            0 <= i < p.len(),
            p[i].1 == val@,
            Self::spec_fold(p.take(i)) is Some,
            Self::spec_matches(*old(x), Self::spec_fold(p.take(i))->0),
            marked == (p[i].0.len() >= 6 && p[i].0.take(6) == spec_utf8_pfx()),
            k@ == if marked {
                p[i].0.skip(6)
            } else {
                p[i].0
            },
            !marked ==> !Self::spec_fold(p.take(i))->0.skip.contains(p[i].0),
            !Self::spec_is_scalar_key(k@),
        ensures
            r is Err ==> Self::spec_fold(p) is None && Self::spec_fold(p.take(i + 1)) is None,
            r is Ok ==> (r->Ok_0 <==> Self::spec_is_font_key(k@)),
            r is Ok && r->Ok_0 ==> Self::spec_fold(p.take(i + 1)) is Some
                && Self::spec_matches(*final(x), Self::spec_fold(p.take(i + 1))->0)
                && Self::spec_fold(p.take(i + 1))->0.skip == Self::spec_post_skip(
                Self::spec_fold(p.take(i))->0,
                p[i],
            ).skip,
            r is Ok && !r->Ok_0 ==> *final(x) == *old(x),
    {
        proof {
            assert(p.take(i + 1).drop_last() =~= p.take(i));
            assert(p.take(i + 1).last() == p[i]);
        }
        let a_fic: [u8; 11] = [0x46u8, 0x6fu8, 0x6eu8, 0x74u8, 0x49u8, 0x64u8, 0x43u8, 0x6fu8, 0x75u8, 0x6eu8, 0x74u8];
        let a_fn: [u8; 8] = [0x46u8, 0x6fu8, 0x6eu8, 0x74u8, 0x4eu8, 0x61u8, 0x6du8, 0x65u8];
        let a_sz: [u8; 4] = [0x53u8, 0x69u8, 0x7au8, 0x65u8];
        proof {
            assert(a_fic@ =~= seq![0x46u8, 0x6fu8, 0x6eu8, 0x74u8, 0x49u8, 0x64u8, 0x43u8, 0x6fu8, 0x75u8, 0x6eu8, 0x74u8]);
            assert(a_fn@ =~= seq![0x46u8, 0x6fu8, 0x6eu8, 0x74u8, 0x4eu8, 0x61u8, 0x6du8, 0x65u8]);
            assert(a_sz@ =~= seq![0x53u8, 0x69u8, 0x7au8, 0x65u8]);
        }
        if crate::common::bytes_eq(k, a_fic.as_slice()) {
            match crate::parse::parse_u32(val) {
                Ok(c) => {
                    let mut fresh: Vec<Font> = Vec::new();
                    let mut j: u32 = 0;
                    while j < c
                        invariant
                            0 <= j <= c,
                            fresh@.len() == j,
                            forall|t: int| 0 <= t < j ==> (#[trigger] fresh@[t]).name@
                                == Seq::<char>::empty() && fresh@[t].size == 0,
                        decreases c - j,
                    {
                        fresh.push(Font { name: String::new(), size: 0 });
                        j += 1;
                    }
                    x.fonts = FontCollection { fonts: fresh };
                },
                Err(e) => {
                    proof { Self::lemma_fold_none(p, i + 1); }
                    return Err(e);
                },
            }
        } else if crate::common::bytes_starts_with(k, a_fn.as_slice()) {
            let digits = &k[8..k.len()];
            assert(digits@ =~= k@.skip(8));
            match crate::parse::parse_usize(digits) {
                Ok(idx) => {
                    if idx >= 1 && idx <= x.fonts.fonts.len() {
                        match crate::common::str_from_utf8(val) {
                            Ok(s) => {
                                let size = x.fonts.fonts[idx - 1].size;
                                x.fonts.fonts.set(idx - 1, Font { name: s, size });
                            },
                            Err(e) => {
                                proof { Self::lemma_fold_none(p, i + 1); }
                                return Err(e);
                            },
                        }
                    } else {
                        proof { Self::lemma_fold_none(p, i + 1); }
                        return Err(ErrorKind::new_invalid_key(k));
                    }
                },
                Err(e) => {
                    proof { Self::lemma_fold_none(p, i + 1); }
                    return Err(e);
                },
            }
        } else if crate::common::bytes_starts_with(k, a_sz.as_slice()) {
            let digits = &k[4..k.len()];
            assert(digits@ =~= k@.skip(4));
            match crate::parse::parse_usize(digits) {
                Ok(idx) => {
                    if idx >= 1 && idx <= x.fonts.fonts.len() {
                        match crate::parse::parse_u16(val) {
                            Ok(v) => {
                                let nm = x.fonts.fonts[idx - 1].name.clone();
                                x.fonts.fonts.set(idx - 1, Font { name: nm, size: v });
                            },
                            Err(e) => {
                                proof { Self::lemma_fold_none(p, i + 1); }
                                return Err(e);
                            },
                        }
                    } else {
                        proof { Self::lemma_fold_none(p, i + 1); }
                        return Err(ErrorKind::new_invalid_key(k));
                    }
                },
                Err(e) => {
                    proof { Self::lemma_fold_none(p, i + 1); }
                    return Err(e);
                },
            }
        } else {
            return Ok(false);
        }
        Ok(true)
    }

    /// Bind a component-list key; anything still unrecognized is ignored.
    #[verifier::rlimit(100)]
    fn bind_key_comps(
        x: &mut SchLibMeta,
        k: &[u8],
        val: &[u8],
        Ghost(p): Ghost<Seq<(Seq<u8>, Seq<u8>)>>,
        Ghost(i): Ghost<int>,
        Ghost(marked): Ghost<bool>,
    ) -> (r: Result<(), ErrorKind>)
        requires
            0 <= i < p.len(),
            p[i].1 == val@,
            Self::spec_fold(p.take(i)) is Some,
            Self::spec_matches(*old(x), Self::spec_fold(p.take(i))->0),
            marked == (p[i].0.len() >= 6 && p[i].0.take(6) == spec_utf8_pfx()),
            k@ == if marked {
                p[i].0.skip(6)
            } else {
                p[i].0
            },
            !marked ==> !Self::spec_fold(p.take(i))->0.skip.contains(p[i].0),
            !Self::spec_is_scalar_key(k@),
            !Self::spec_is_font_key(k@),
        ensures
            r is Ok <==> Self::spec_fold(p.take(i + 1)) is Some,
            r is Err ==> Self::spec_fold(p) is None,
            r is Ok ==> Self::spec_matches(*final(x), Self::spec_fold(p.take(i + 1))->0),
            r is Ok ==> Self::spec_fold(p.take(i + 1))->0.skip == Self::spec_post_skip(
                Self::spec_fold(p.take(i))->0,
                p[i],
            ).skip,
    {
        proof {
            assert(p.take(i + 1).drop_last() =~= p.take(i));
            assert(p.take(i + 1).last() == p[i]);
        }
        let a_cc: [u8; 9] = [0x43u8, 0x6fu8, 0x6du8, 0x70u8, 0x43u8, 0x6fu8, 0x75u8, 0x6eu8, 0x74u8];
        let a_lr: [u8; 6] = [0x4cu8, 0x69u8, 0x62u8, 0x52u8, 0x65u8, 0x66u8];
        let a_cd: [u8; 9] = [0x43u8, 0x6fu8, 0x6du8, 0x70u8, 0x44u8, 0x65u8, 0x73u8, 0x63u8, 0x72u8];
        let a_pc: [u8; 9] = [0x50u8, 0x61u8, 0x72u8, 0x74u8, 0x43u8, 0x6fu8, 0x75u8, 0x6eu8, 0x74u8];
        proof {
            assert(a_cc@ =~= seq![0x43u8, 0x6fu8, 0x6du8, 0x70u8, 0x43u8, 0x6fu8, 0x75u8, 0x6eu8, 0x74u8]);
            assert(a_lr@ =~= seq![0x4cu8, 0x69u8, 0x62u8, 0x52u8, 0x65u8, 0x66u8]);
            assert(a_cd@ =~= seq![0x43u8, 0x6fu8, 0x6du8, 0x70u8, 0x44u8, 0x65u8, 0x73u8, 0x63u8, 0x72u8]);
            assert(a_pc@ =~= seq![0x50u8, 0x61u8, 0x72u8, 0x74u8, 0x43u8, 0x6fu8, 0x75u8, 0x6eu8, 0x74u8]);
            assert(seq![0x43u8, 0x6fu8, 0x6du8, 0x70u8, 0x43u8, 0x6fu8, 0x75u8, 0x6eu8, 0x74u8][4] != seq![0x43u8, 0x6fu8, 0x6du8, 0x70u8, 0x44u8, 0x65u8, 0x73u8, 0x63u8, 0x72u8][4]);
        }
        if crate::common::bytes_eq(k, a_cc.as_slice()) {
            match crate::parse::parse_u32(val) {
                Ok(c) => {
                    let mut fresh: Vec<ComponentMeta> = Vec::new();
                    let mut j: u32 = 0;
                    while j < c
                        invariant
                            0 <= j <= c,
                            fresh@.len() == j,
                            forall|t: int| 0 <= t < j ==> {
                                &&& (#[trigger] fresh@[t]).libref@ == Seq::<char>::empty()
                                &&& fresh@[t].sec_key@ == Seq::<char>::empty()
                                &&& fresh@[t].description@ == Seq::<char>::empty()
                                &&& fresh@[t].part_count == 0
                            },
                        decreases c - j,
                    {
                        fresh.push(ComponentMeta {
                            libref: String::new(),
                            sec_key: String::new(),
                            description: String::new(),
                            part_count: 0,
                        });
                        j += 1;
                    }
                    x.components = fresh;
                },
                Err(e) => {
                    proof { Self::lemma_fold_none(p, i + 1); }
                    return Err(e);
                },
            }
        } else if crate::common::bytes_starts_with(k, a_lr.as_slice()) {
            let digits = &k[6..k.len()];
            assert(digits@ =~= k@.skip(6));
            match crate::parse::parse_usize(digits) {
                Ok(idx) => {
                    if idx < x.components.len() {
                        match crate::common::str_from_utf8(val) {
                            Ok(s) => {
                                let old_c = &x.components[idx];
                                let description = old_c.description.clone();
                                let part_count = old_c.part_count;
                                let sec = s.clone();
                                x.components.set(idx, ComponentMeta {
                                    libref: s,
                                    sec_key: sec,
                                    description,
                                    part_count,
                                });
                            },
                            Err(e) => {
                                proof { Self::lemma_fold_none(p, i + 1); }
                                return Err(e);
                            },
                        }
                    } else {
                        proof { Self::lemma_fold_none(p, i + 1); }
                        return Err(ErrorKind::new_invalid_key(k));
                    }
                },
                Err(e) => {
                    proof { Self::lemma_fold_none(p, i + 1); }
                    return Err(e);
                },
            }
        } else if crate::common::bytes_starts_with(k, a_cd.as_slice()) {
            let digits = &k[9..k.len()];
            assert(digits@ =~= k@.skip(9));
            match crate::parse::parse_usize(digits) {
                Ok(idx) => {
                    if idx < x.components.len() {
                        match crate::common::str_from_utf8(val) {
                            Ok(s) => {
                                let old_c = &x.components[idx];
                                let libref = old_c.libref.clone();
                                let sec_key = old_c.sec_key.clone();
                                let part_count = old_c.part_count;
                                x.components.set(idx, ComponentMeta {
                                    libref,
                                    sec_key,
                                    description: s,
                                    part_count,
                                });
                            },
                            Err(e) => {
                                proof { Self::lemma_fold_none(p, i + 1); }
                                return Err(e);
                            },
                        }
                    } else {
                        proof { Self::lemma_fold_none(p, i + 1); }
                        return Err(ErrorKind::new_invalid_key(k));
                    }
                },
                Err(e) => {
                    proof { Self::lemma_fold_none(p, i + 1); }
                    return Err(e);
                },
            }
        } else if crate::common::bytes_starts_with(k, a_pc.as_slice()) {
            let digits = &k[9..k.len()];
            assert(digits@ =~= k@.skip(9));
            match crate::parse::parse_usize(digits) {
                Ok(idx) => {
                    if idx < x.components.len() {
                        match crate::parse::parse_u16(val) {
                            Ok(v) => {
                                let old_c = &x.components[idx];
                                let libref = old_c.libref.clone();
                                let sec_key = old_c.sec_key.clone();
                                let description = old_c.description.clone();
                                x.components.set(idx, ComponentMeta {
                                    libref,
                                    sec_key,
                                    description,
                                    part_count: v,
                                });
                            },
                            Err(e) => {
                                proof { Self::lemma_fold_none(p, i + 1); }
                                return Err(e);
                            },
                        }
                    } else {
                        proof { Self::lemma_fold_none(p, i + 1); }
                        return Err(ErrorKind::new_invalid_key(k));
                    }
                },
                Err(e) => {
                    proof { Self::lemma_fold_none(p, i + 1); }
                    return Err(e);
                },
            }
        }
        Ok(())
    }
}

} // verus!
