//! The schematic document: a `FileHeader` stream framing the whole header,
//! then framed records, with the single `Sheet` record lifted out.

use vstd::prelude::*;

use crate::binder::{has_key, kind_field_fails, last_val, uid_field, FieldKind};
use crate::common::{pairs_view, spec_altium_pairs, split_altium_map, UniqueId};
use crate::error::{Error, ErrorKind};
use crate::logging::UnsupportedCounter;
use crate::outside::{cfb_has_stream, cfb_model, cfb_stream_of, cfb_wf, CfbSource};
use crate::parse::{spec_sized_data, spec_sized_ok, spec_sized_rest, BufLenMatch};
use crate::records::{SchRecord, Sheet};
use crate::storage::Storage;

verus! {

/// The magic header value of a document `FileHeader` stream.
pub open spec fn spec_doc_header() -> Seq<u8> {
    seq![0x50u8, 0x72u8, 0x6fu8, 0x74u8, 0x65u8, 0x6cu8, 0x20u8, 0x66u8, 0x6fu8, 0x72u8, 0x20u8,
        0x57u8, 0x69u8, 0x6eu8, 0x64u8, 0x6fu8, 0x77u8, 0x73u8, 0x20u8, 0x2du8, 0x20u8, 0x53u8,
        0x63u8, 0x68u8, 0x65u8, 0x6du8, 0x61u8, 0x74u8, 0x69u8, 0x63u8, 0x20u8, 0x43u8, 0x61u8,
        0x70u8, 0x74u8, 0x75u8, 0x72u8, 0x65u8, 0x20u8, 0x42u8, 0x69u8, 0x6eu8, 0x61u8, 0x72u8,
        0x79u8, 0x20u8, 0x46u8, 0x69u8, 0x6cu8, 0x65u8, 0x20u8, 0x56u8, 0x65u8, 0x72u8, 0x73u8,
        0x69u8, 0x6fu8, 0x6eu8, 0x20u8, 0x35u8, 0x2eu8, 0x30u8]
}

/// The `HEADER` key.
pub open spec fn spec_header_key() -> Seq<u8> {
    seq![0x48u8, 0x45u8, 0x41u8, 0x44u8, 0x45u8, 0x52u8]
}

/// The `UniqueID` key.
pub open spec fn spec_uid_key() -> Seq<u8> {
    seq![0x55u8, 0x6eu8, 0x69u8, 0x71u8, 0x75u8, 0x65u8, 0x49u8, 0x44u8]
}

/// Whether some `HEADER` pair of the document header carries the wrong
/// literal.
pub open spec fn spec_doc_header_mismatch(p: Seq<(Seq<u8>, Seq<u8>)>) -> bool {
    exists|i: int| 0 <= i < p.len() && (#[trigger] p[i]).0 == spec_header_key() && p[i].1
        != spec_doc_header()
}

/// The pairs of a document header frame.
pub open spec fn spec_doc_hdr_pairs(b: Seq<u8>) -> Option<crate::binder::SpecPairs> {
    spec_altium_pairs(spec_sized_data(b, BufLenMatch::U32, true))
}

/// Whether a document `FileHeader` stream's header frame parses: the frame
/// is well sized, its pairs split, every `HEADER` pair carries the document
/// literal, and a unique ID is present and parses.
pub open spec fn spec_doc_hdr_ok(b: Seq<u8>) -> bool {
    &&& spec_sized_ok(b, BufLenMatch::U32, true)
    &&& spec_doc_hdr_pairs(b) matches Some(p) && {
        &&& !spec_doc_header_mismatch(p)
        &&& !kind_field_fails(p, FieldKind::Uid, spec_uid_key())
        &&& has_key(p, spec_uid_key())
    }
}

/// Extract the document header frame: verify the header literal and read
/// the document's unique ID; everything after the frame is the record
/// stream.
#[verifier::loop_isolation(false)]
#[verifier::rlimit(100)]
pub fn parse_header<'a>(buf: &'a [u8]) -> (r: Result<(&'a [u8], UniqueId), Error>)
    ensures
        r is Ok <==> spec_doc_hdr_ok(buf@),
        spec_sized_ok(buf@, BufLenMatch::U32, true) && (spec_doc_hdr_pairs(buf@) matches Some(p)
            && spec_doc_header_mismatch(p) && !kind_field_fails(p, FieldKind::Uid, spec_uid_key()))
            ==> r is Err && (*r->Err_0.kind) is InvalidHeader,
        r is Ok ==> {
            let p = spec_altium_pairs(spec_sized_data(buf@, BufLenMatch::U32, true))->0;
            &&& r->Ok_0.0@ == spec_sized_rest(buf@, BufLenMatch::U32)
            &&& r->Ok_0.1 == uid_field(p, spec_uid_key())
        },
{
    let hk: [u8; 6] = [0x48u8, 0x45u8, 0x41u8, 0x44u8, 0x45u8, 0x52u8];
    let uk: [u8; 8] = [0x55u8, 0x6eu8, 0x69u8, 0x71u8, 0x75u8, 0x65u8, 0x49u8, 0x44u8];
    let hv: [u8; 62] = [0x50u8, 0x72u8, 0x6fu8, 0x74u8, 0x65u8, 0x6cu8, 0x20u8, 0x66u8, 0x6fu8,
        0x72u8, 0x20u8, 0x57u8, 0x69u8, 0x6eu8, 0x64u8, 0x6fu8, 0x77u8, 0x73u8, 0x20u8, 0x2du8,
        0x20u8, 0x53u8, 0x63u8, 0x68u8, 0x65u8, 0x6du8, 0x61u8, 0x74u8, 0x69u8, 0x63u8, 0x20u8,
        0x43u8, 0x61u8, 0x70u8, 0x74u8, 0x75u8, 0x72u8, 0x65u8, 0x20u8, 0x42u8, 0x69u8, 0x6eu8,
        0x61u8, 0x72u8, 0x79u8, 0x20u8, 0x46u8, 0x69u8, 0x6cu8, 0x65u8, 0x20u8, 0x56u8, 0x65u8,
        0x72u8, 0x73u8, 0x69u8, 0x6fu8, 0x6eu8, 0x20u8, 0x35u8, 0x2eu8, 0x30u8];
    proof {
        assert(hk@ =~= spec_header_key());
        assert(uk@ =~= spec_uid_key());
        assert(hv@ =~= spec_doc_header());
        assert(spec_header_key() != spec_uid_key()) by {
            assert(spec_header_key().len() != spec_uid_key().len());
        }
    }
    let (hdr, rest) = match crate::parse::extract_sized_buf(buf, BufLenMatch::U32, true) {
        Ok(v) => v,
        Err(e) => {
            return Err(Error::from_kind(e).context("framing the document header"));
        },
    };
    let pairs = match split_altium_map(hdr) {
        Ok(v) => v,
        Err(e) => {
            return Err(Error::from_kind(e).context("splitting the document header"));
        },
    };
    let ghost p = pairs_view(pairs@);
    proof {
        crate::common::lemma_pairs_view(pairs@);
        assert(p.take(0) =~= Seq::<(Seq<u8>, Seq<u8>)>::empty());
    }
    let mut uid: Option<UniqueId> = None;
    let n = pairs.len();
    let mut i: usize = 0;
    while i < n
        invariant
            0 <= i <= n,
            n == pairs@.len(),
            !spec_doc_header_mismatch(p.take(i as int)),
            !kind_field_fails(p.take(i as int), FieldKind::Uid, spec_uid_key()),
            uid is Some <==> has_key(p.take(i as int), spec_uid_key()),
            uid matches Some(u) ==> u == uid_field(p.take(i as int), spec_uid_key()),
        decreases n - i,
    {
        let key: &[u8] = pairs[i].0.as_slice();
        let val: &[u8] = pairs[i].1.as_slice();
        proof {
            assert(p[i as int] == (pairs@[i as int].0@, pairs@[i as int].1@));
            assert(p.take(i as int + 1).drop_last() =~= p.take(i as int));
            assert(p.take(i as int + 1).last() == p[i as int]);
        }
        if crate::common::bytes_eq(key, hk.as_slice()) {
            if !crate::common::bytes_eq(val, hv.as_slice()) {
                proof {
                    assert(p[i as int].0 == spec_header_key() && p[i as int].1
                        != spec_doc_header());
                }
                return Err(Error::from_kind(ErrorKind::new_invalid_header(
                    val,
                    "Protel for Windows - Schematic Capture Binary File Version 5.0",
                )).context("checking the document header"));
            }
        } else if crate::common::bytes_eq(key, uk.as_slice()) {
            match UniqueId::from_utf8(val) {
                Ok(u) => {
                    uid = Some(u);
                },
                Err(e) => {
                    proof {
                        assert(p[i as int].0 == spec_uid_key());
                        assert(kind_field_fails(p, FieldKind::Uid, spec_uid_key()));
                    }
                    return Err(Error::from_kind(e).context("parsing the document unique ID"));
                },
            }
        }
        i += 1;
    }
    proof {
        assert(p.take(n as int) =~= p);
    }
    match uid {
        Some(u) => Ok((rest, u)),
        None => Err(Error::from_kind(ErrorKind::MissingUniqueId).context(
            "reading the document header",
        )),
    }
}

/// Whether a whole in-memory document opens: the container is well formed,
/// an optional `Storage` stream parses, and the `FileHeader` stream holds a
/// well-formed header frame followed by frames that all decode.
pub open spec fn spec_doc_ok(m: Seq<u8>) -> bool {
    &&& cfb_wf(m)
    &&& (cfb_has_stream(m, "Storage"@) ==> (cfb_stream_of(m, "Storage"@) matches Some(sb)
        && Storage::spec_parse_ok(sb)))
    &&& cfb_stream_of(m, "FileHeader"@) matches Some(hb) && {
        &&& spec_doc_hdr_ok(hb)
        &&& crate::stream::spec_frames_all_ok(
            crate::parse::spec_sized_rest(hb, BufLenMatch::U32),
        )
    }
}

/// Representation of a schematic document.
pub struct SchDoc {
    pub cfile: CfbSource,
    pub sheet: Sheet,
    pub records: Vec<SchRecord>,
    pub unique_id: UniqueId,
    pub storage: Storage,
    pub counter: UnsupportedCounter,
}

impl SchDoc {
    /// Open an in-memory schematic document: parse the optional `Storage`
    /// stream, check the framed header, decode all records and lift the
    /// first `Sheet` out of the list; records after it, the lifted sheet
    /// aside, keep their order.
    pub fn from_buffer(bytes: Vec<u8>) -> (r: Result<SchDoc, Error>)
        ensures
            r is Ok <==> spec_doc_ok(bytes@),
            r is Ok ==> cfb_model(r->Ok_0.cfile) == bytes@,
            r is Ok ==> r->Ok_0.unique_id == uid_field(
                spec_doc_hdr_pairs(cfb_stream_of(bytes@, "FileHeader"@)->0)->0,
                spec_uid_key(),
            ),
            r is Ok && !cfb_has_stream(bytes@, "Storage"@) ==> r->Ok_0.storage.entries@.len()
                == 0,
            r is Ok && cfb_has_stream(bytes@, "Storage"@) ==> Storage::spec_stream_matches(
                r->Ok_0.storage,
                cfb_stream_of(bytes@, "Storage"@)->0,
            ),
    {
        let mut cfile = match CfbSource::open(bytes) {
            Ok(c) => c,
            Err(e) => {
                return Err(Error::from_kind(e).context("opening compound file"));
            },
        };
        let mut counter = UnsupportedCounter::new();
        let storage: Storage;
        if cfile.has_stream("Storage") {
            let sbytes = match cfile.read_stream("Storage") {
                Ok(b) => b,
                Err(e) => {
                    return Err(Error::from_kind(e).context("reading Storage"));
                },
            };
            storage = match Storage::parse(sbytes.as_slice()) {
                Ok(s) => s,
                Err(e) => {
                    return Err(e.context("parsing Storage"));
                },
            };
        } else {
            storage = Storage { entries: Vec::new() };
        }
        let hdr_bytes = match cfile.read_stream("FileHeader") {
            Ok(b) => b,
            Err(e) => {
                return Err(Error::from_kind(e).context("reading FileHeader"));
            },
        };
        let (rest, unique_id) = match parse_header(hdr_bytes.as_slice()) {
            Ok(v) => v,
            Err(e) => {
                return Err(e.context("parsing the document header"));
            },
        };
        let mut records = match crate::stream::parse_all_records(rest, "FileHeader", &mut counter) {
            Ok(v) => v,
            Err(e) => {
                return Err(e.context("decoding document records"));
            },
        };
        let mut sheet = Sheet {
            owner_index: 0,
            owner_part_id: 0,
            snap_grid_size: 0,
            snap_grid_on: false,
            visible_grid_on: false,
            visible_grid_size: 0,
            custom_x: 0,
            custom_y: 0,
            custom_x_zones: 0,
            custom_y_zones: 0,
            custom_margin_width: 0,
            hot_spot_grid_on: false,
            hot_spot_grid_size: 0,
            system_font: 0,
            fonts: crate::font::FontCollection { fonts: Vec::new() },
            border_on: false,
            sheet_number_space_size: 0,
            area_color: crate::common::Rgb { r: 0, g: 0, b: 0 },
            display_unit: 0,
            use_mbcs: false,
            is_boc: false,
            file_version_info: String::new(),
        };
        let mut out: Vec<SchRecord> = Vec::new();
        let mut taken = false;
        let rn = records.len();
        let mut i: usize = 0;
        while i < rn
            invariant
                0 <= i <= rn,
                rn == records@.len(),
            decreases rn - i,
        {
            let rec = records[i].clone();
            let is_sheet = match &rec {
                SchRecord::Sheet(_) => true,
                _ => false,
            };
            if is_sheet && !taken {
                match rec {
                    SchRecord::Sheet(s) => {
                        sheet = s;
                        taken = true;
                    },
                    _ => {},
                }
            } else {
                out.push(rec);
            }
            i += 1;
        }
        Ok(SchDoc { cfile, sheet, records: out, unique_id, storage, counter })
    }

    /// All records of the document, the lifted sheet aside.
    pub fn records(&self) -> (r: &[SchRecord])
        ensures
            r@ == self.records@,
    {
        self.records.as_slice()
    }

    /// The document's sheet record, carrying its font table.
    pub fn sheet(&self) -> (r: &Sheet)
        ensures
            *r == self.sheet,
    {
        &self.sheet
    }

    /// The document's unique ID.
    pub fn unique_id(&self) -> (r: UniqueId)
        ensures
            r == self.unique_id,
    {
        self.unique_id
    }

    /// The blob storage of this document.
    pub fn storage(&self) -> (r: &Storage)
        ensures
            *r == self.storage,
    {
        &self.storage
    }

    /// The blob storage, for lazy inflation.
    pub fn storage_mut(&mut self) -> (r: &mut Storage)
        ensures
            *r == old(self).storage,
            final(self).storage == *final(r),
            final(self).sheet == old(self).sheet,
            final(self).records == old(self).records,
            final(self).counter == old(self).counter,
    {
        &mut self.storage
    }

    /// How many unsupported keys decoding has seen so far.
    pub fn num_unsupported_keys(&self) -> (r: u64)
        ensures
            r == self.counter.count,
    {
        self.counter.count
    }
}

} // verus!
