//! The `Storage` stream: a map from path-like strings to zlib-compressed
//! blobs, inflated lazily and at most once per cell.

use vstd::prelude::*;

use crate::common::{pairs_view, spec_altium_pairs, split_altium_map};
use crate::error::{Error, ErrorKind, TruncBuf};
use crate::outside::{inflate, inflate_of};
use crate::parse::{spec_le4, spec_sized_data, spec_sized_ok, spec_sized_rest, BufLenMatch};
use vstd::utf8::{decode_utf8, valid_utf8};

verus! {

/// One cell's data: still compressed, or inflated once and kept.
#[derive(Clone, Debug, PartialEq)]
pub enum CompressedData {
    Compressed(Vec<u8>),
    Expanded(Vec<u8>),
}

/// The storage map in stream order.
#[derive(Clone, Debug, PartialEq)]
pub struct Storage {
    pub entries: Vec<(String, CompressedData)>,
}

/// The entries of the storage stream tail: each begins with a five-byte
/// marker whose last two bytes are 0x01 0xD0, then a 1-byte-length path and
/// a 4-byte-length compressed blob.
pub open spec fn spec_storage_entries(b: Seq<u8>) -> Option<Seq<(Seq<u8>, Seq<u8>)>>
    decreases b.len(),
{
    if b.len() == 0 {
        Some(Seq::empty())
    } else if b.len() < 5 || b[3] != 0x01 || b[4] != 0xd0 {
        None
    } else {
        let a = b.skip(5);
        if a.len() < 1 {
            None
        } else {
            let pl = a[0] as int;
            if a.len() < 1 + pl {
                None
            } else {
                let path = a.subrange(1, 1 + pl);
                let c = a.skip(1 + pl);
                if !valid_utf8(path) {
                    None
                } else if c.len() < 4 {
                    None
                } else {
                    let dl = spec_le4(c[0], c[1], c[2], c[3]);
                    if c.len() < 4 + dl {
                        None
                    } else {
                        match spec_storage_entries(c.skip(4 + dl)) {
                            None => None,
                            Some(r) => Some(seq![(path, c.subrange(4, 4 + dl))] + r),
                        }
                    }
                }
            }
        }
    }
}

/// The header pairs of a storage stream: its first sized frame, which must
/// open with `HEADER=Icon storage`.
pub open spec fn spec_storage_header_ok(b: Seq<u8>) -> bool {
    &&& spec_sized_ok(b, BufLenMatch::U32, true)
    &&& spec_altium_pairs(spec_sized_data(b, BufLenMatch::U32, true)) matches Some(ps)
        && ps.len() >= 1 && ps[0] == (
        seq![0x48u8, 0x45u8, 0x41u8, 0x44u8, 0x45u8, 0x52u8],
        seq![0x49u8, 0x63u8, 0x6fu8, 0x6eu8, 0x20u8, 0x73u8, 0x74u8, 0x6fu8, 0x72u8, 0x61u8,
            0x67u8, 0x65u8],
    )
}

/// Whether the header announces entries: its second pair is a `Weight`.
pub open spec fn spec_storage_has_weight(b: Seq<u8>) -> bool {
    let ps = spec_altium_pairs(spec_sized_data(b, BufLenMatch::U32, true))->0;
    ps.len() >= 2 && ps[1].0 == seq![0x57u8, 0x65u8, 0x69u8, 0x67u8, 0x68u8, 0x74u8]
}

/// Whether the first failure of the entry walk is a bad five-byte marker
/// (or an entry shorter than the marker).
pub open spec fn spec_entries_marker_fail(b: Seq<u8>) -> bool
    decreases b.len(),
{
    if b.len() == 0 {
        false
    } else if b.len() < 5 || b[3] != 0x01 || b[4] != 0xd0 {
        true
    } else {
        let a = b.skip(5);
        if a.len() < 1 {
            false
        } else {
            let pl = a[0] as int;
            if a.len() < 1 + pl {
                false
            } else {
                let path = a.subrange(1, 1 + pl);
                let c = a.skip(1 + pl);
                if !valid_utf8(path) {
                    false
                } else if c.len() < 4 {
                    false
                } else {
                    let dl = spec_le4(c[0], c[1], c[2], c[3]);
                    if c.len() < 4 + dl {
                        false
                    } else {
                        spec_entries_marker_fail(c.skip(4 + dl))
                    }
                }
            }
        }
    }
}

impl Storage {
    /// An entry list as the parsed stream leaves it.
    pub open spec fn spec_matches(x: Storage, es: Seq<(Seq<u8>, Seq<u8>)>) -> bool {
        &&& x.entries@.len() == es.len()
        &&& forall|j: int| 0 <= j < es.len() ==> {
            &&& (#[trigger] x.entries@[j]).0@ == decode_utf8(es[j].0)
            &&& (x.entries@[j].1 matches CompressedData::Compressed(c) && c@ == es[j].1)
        }
    }

    /// Whether the whole stream parses: the header frame opens with
    /// `HEADER=Icon storage`, and either a `Weight` pair follows and the
    /// tail is a well-formed entry list, or no `Weight` follows and the
    /// tail is empty.
    pub open spec fn spec_parse_ok(b: Seq<u8>) -> bool {
        &&& spec_storage_header_ok(b)
        &&& (if spec_storage_has_weight(b) {
            spec_storage_entries(spec_sized_rest(b, BufLenMatch::U32)) is Some
        } else {
            spec_sized_rest(b, BufLenMatch::U32).len() == 0
        })
    }

    /// Whether a parsed storage holds what the stream announces.
    pub open spec fn spec_stream_matches(x: Storage, b: Seq<u8>) -> bool {
        if spec_storage_has_weight(b) {
            Self::spec_matches(x, spec_storage_entries(spec_sized_rest(b, BufLenMatch::U32))->0)
        } else {
            x.entries@.len() == 0
        }
    }

    /// Parse a `Storage` stream: the sized header frame, then the entries.
    ///
    /// A header without a `Weight` pair is an empty storage, and its stream
    /// tail must be empty too.
    #[verifier::loop_isolation(false)]
    #[verifier::rlimit(100)]
    pub fn parse(buf: &[u8]) -> (r: Result<Storage, Error>)
        ensures
            r is Ok <==> Self::spec_parse_ok(buf@),
            r is Ok ==> Self::spec_stream_matches(r->Ok_0, buf@),
            spec_sized_ok(buf@, BufLenMatch::U32, true) && spec_altium_pairs(
                spec_sized_data(buf@, BufLenMatch::U32, true),
            ) is Some && !spec_storage_header_ok(buf@) ==> r is Err && (*r->Err_0.kind)
                is InvalidHeader,
            spec_storage_header_ok(buf@) && !spec_storage_has_weight(buf@) && spec_sized_rest(
                buf@,
                BufLenMatch::U32,
            ).len() != 0 ==> r is Err && (*r->Err_0.kind) is InvalidStorageData,
            spec_storage_header_ok(buf@) && spec_storage_has_weight(buf@)
                && spec_entries_marker_fail(spec_sized_rest(buf@, BufLenMatch::U32)) ==> r is Err
                && (*r->Err_0.kind) is InvalidStorageData,
    {
        let hk: [u8; 6] = [0x48u8, 0x45u8, 0x41u8, 0x44u8, 0x45u8, 0x52u8];
        let hv: [u8; 12] = [0x49u8, 0x63u8, 0x6fu8, 0x6eu8, 0x20u8, 0x73u8, 0x74u8, 0x6fu8,
            0x72u8, 0x61u8, 0x67u8, 0x65u8];
        let wk: [u8; 6] = [0x57u8, 0x65u8, 0x69u8, 0x67u8, 0x68u8, 0x74u8];
        let (header, rest0) = match crate::parse::extract_sized_buf(buf, BufLenMatch::U32, true) {
            Ok(v) => v,
            Err(e) => {
                return Err(Error::from_kind(e).context("parsing storage"));
            },
        };
        let ps = match split_altium_map(header) {
            Ok(v) => v,
            Err(e) => {
                return Err(Error::from_kind(e).context("parsing storage"));
            },
        };
        proof {
            crate::common::lemma_pairs_view(ps@);
        }
        if ps.len() == 0 || !crate::common::bytes_eq(ps[0].0.as_slice(), hk.as_slice())
            || !crate::common::bytes_eq(ps[0].1.as_slice(), hv.as_slice()) {
            proof {
                if spec_storage_header_ok(buf@) {
                    assert(pairs_view(ps@)[0] == (hk@, hv@));
                }
            }
            return Err(Error::from_kind(ErrorKind::new_invalid_header(header, "Icon storage"))
                .context("parsing storage"));
        }
        proof {
            assert(pairs_view(ps@)[0] == (ps@[0].0@, ps@[0].1@));
            assert(hk@ =~= seq![0x48u8, 0x45u8, 0x41u8, 0x44u8, 0x45u8, 0x52u8]);
            assert(hv@ =~= seq![0x49u8, 0x63u8, 0x6fu8, 0x6eu8, 0x20u8, 0x73u8, 0x74u8, 0x6fu8,
                0x72u8, 0x61u8, 0x67u8, 0x65u8]);
        }
        let has_weight = ps.len() >= 2 && crate::common::bytes_eq(ps[1].0.as_slice(), wk.as_slice());
        proof {
            assert(wk@ =~= seq![0x57u8, 0x65u8, 0x69u8, 0x67u8, 0x68u8, 0x74u8]);
            if ps.len() >= 2 {
                assert(pairs_view(ps@)[1] == (ps@[1].0@, ps@[1].1@));
            }
        }
        if !has_weight {
            if rest0.len() != 0 {
                return Err(Error::from_kind(ErrorKind::InvalidStorageData(TruncBuf::new(rest0)))
                    .context("parsing storage"));
            }
            assert(rest0@ =~= Seq::<u8>::empty());
            return Ok(Storage { entries: Vec::new() });
        }
        let mut entries: Vec<(String, CompressedData)> = Vec::new();
        let mut rest: &[u8] = rest0;
        let ghost mut gdone: Seq<(Seq<u8>, Seq<u8>)> = Seq::empty();
        while rest.len() > 0
            invariant
                spec_storage_entries(rest0@) == (match spec_storage_entries(rest@) {
                    None => None::<Seq<(Seq<u8>, Seq<u8>)>>,
                    Some(t) => Some(gdone + t),
                }),
                spec_entries_marker_fail(rest0@) == spec_entries_marker_fail(rest@),
                entries@.len() == gdone.len(),
                forall|j: int| 0 <= j < gdone.len() ==> {
                    &&& (#[trigger] entries@[j]).0@ == decode_utf8(gdone[j].0)
                    &&& (entries@[j].1 matches CompressedData::Compressed(c) && c@ == gdone[j].1)
                },
            decreases rest@.len(),
        {
            let ghost prev = rest@;
            if rest.len() < 5 || rest[3] != 0x01 || rest[4] != 0xd0 {
                return Err(Error::from_kind(ErrorKind::InvalidStorageData(TruncBuf::new(rest)))
                    .context("parsing storage"));
            }
            let n = rest.len();
            let after = &rest[5..n];
            assert(after@ =~= prev.skip(5));
            let (path_s, r1) = match crate::parse::extract_sized_utf8_buf(
                after,
                BufLenMatch::U8,
                false,
            ) {
                Ok(v) => v,
                Err(e) => {
                    return Err(Error::from_kind(e).context("parsing storage"));
                },
            };
            let (data, r2) = match crate::parse::extract_sized_buf(r1, BufLenMatch::U32, false) {
                Ok(v) => v,
                Err(e) => {
                    return Err(Error::from_kind(e).context("parsing storage"));
                },
            };
            let ghost pl = prev.skip(5)[0] as int;
            let ghost c = prev.skip(5).skip(1 + pl);
            proof {
                assert(prev.skip(5).subrange(1, 1 + pl) =~= spec_sized_data(
                    prev.skip(5),
                    BufLenMatch::U8,
                    false,
                ));
                assert(c =~= spec_sized_rest(prev.skip(5), BufLenMatch::U8));
                assert(c.subrange(4, 4 + spec_le4(c[0], c[1], c[2], c[3])) =~= spec_sized_data(
                    c,
                    BufLenMatch::U32,
                    false,
                ));
            }
            let ghost entry = (prev.skip(5).subrange(1, 1 + pl), c.subrange(
                4,
                4 + spec_le4(c[0], c[1], c[2], c[3]),
            ));
            let data_v = crate::common::slice_to_vec_range(data, 0, data.len());
            assert(data_v@ =~= entry.1);
            entries.push((path_s, CompressedData::Compressed(data_v)));
            let old_rest = rest;
            rest = r2;
            proof {
                assert(rest@ =~= c.skip(4 + spec_le4(c[0], c[1], c[2], c[3])));
                assert(spec_storage_entries(prev) == (match spec_storage_entries(rest@) {
                    None => None::<Seq<(Seq<u8>, Seq<u8>)>>,
                    Some(t) => Some(seq![entry] + t),
                }));
                assert(spec_entries_marker_fail(prev) == spec_entries_marker_fail(rest@));
                let gdone2 = gdone.push(entry);
                if spec_storage_entries(rest@) is Some {
                    assert(gdone + (seq![entry] + spec_storage_entries(rest@)->0) =~= gdone2
                        + spec_storage_entries(rest@)->0);
                }
                gdone = gdone2;
            }
        }
        proof {
            assert(rest@ =~= Seq::<u8>::empty());
            assert(gdone + Seq::<(Seq<u8>, Seq<u8>)>::empty() =~= gdone);
        }
        Ok(Storage { entries })
    }

    /// The first entry with the given path, if any.
    pub open spec fn spec_find(entries: Seq<(String, CompressedData)>, path: Seq<char>) -> Option<
        int,
    >
        decreases entries.len(),
    {
        if entries.len() == 0 {
            None
        } else if entries[0].0@ == path {
            Some(0)
        } else {
            match Self::spec_find(entries.skip(1), path) {
                None => None,
                Some(i) => Some(i + 1),
            }
        }
    }

    /// The paths in this storage, in stream order.
    pub fn keys(&self) -> (r: Vec<String>)
        ensures
            r@.len() == self.entries@.len(),
            forall|j: int| 0 <= j < r@.len() ==> (#[trigger] r@[j])@ == self.entries@[j].0@,
    {
        let mut out: Vec<String> = Vec::new();
        let mut i: usize = 0;
        while i < self.entries.len()
            invariant
                0 <= i <= self.entries@.len(),
                out@.len() == i,
                forall|j: int| 0 <= j < i ==> (#[trigger] out@[j])@ == self.entries@[j].0@,
            decreases self.entries@.len() - i,
        {
            out.push(self.entries[i].0.clone());
            i += 1;
        }
        out
    }

    /// Inflate the cell at the given path, once: an already expanded cell is
    /// left alone, so at most one inflation ever happens per cell.
    ///
    /// Returns whether the path exists; inflation failure is an error and
    /// leaves the cell compressed.
    pub fn expand(&mut self, path: &str) -> (r: Result<bool, Error>)
        ensures
            Self::spec_find(old(self).entries@, path@) is None ==> r == Result::<
                bool,
                Error,
            >::Ok(false) && *final(self) == *old(self),
            Self::spec_find(old(self).entries@, path@) matches Some(j) ==> {
                let cell = old(self).entries@[j].1;
                match cell {
                    CompressedData::Expanded(v) => r == Result::<bool, Error>::Ok(true)
                        && *final(self) == *old(self),
                    CompressedData::Compressed(c) => {
                        if inflate_of(c@) is Some {
                            &&& r == Result::<bool, Error>::Ok(true)
                            &&& final(self).entries@.len() == old(self).entries@.len()
                            &&& final(self).entries@[j].0 == old(self).entries@[j].0
                            &&& final(self).entries@[j].1 matches CompressedData::Expanded(v)
                                && v@ == inflate_of(c@)->0
                            &&& forall|t: int| 0 <= t < old(self).entries@.len() && t != j
                                ==> final(self).entries@[t] == old(self).entries@[t]
                        } else {
                            r is Err && *final(self) == *old(self)
                        }
                    },
                }
            },
    {
        let n = self.entries.len();
        proof {
            if Self::spec_find(self.entries@, path@) is Some {
                lemma_spec_find_hit(self.entries@, path@);
            }
        }
        let mut i: usize = 0;
        while i < n
            invariant
                0 <= i <= n,
                n == self.entries@.len(),
                forall|j: int| 0 <= j < i ==> (#[trigger] self.entries@[j]).0@ != path@,
                Self::spec_find(self.entries@, path@) matches Some(t) ==> i <= t,
                *self == *old(self),
            decreases n - i,
        {
            if crate::common::bytes_eq(
                self.entries[i].0.as_str().as_bytes(),
                path.as_bytes(),
            ) {
                proof {
                    crate::common::lemma_str_bytes_eq(self.entries@[i as int].0@, path@);
                    lemma_spec_find_at(self.entries@, path@, i as int);
                }
                let is_compressed = match &self.entries[i].1 {
                    CompressedData::Compressed(_) => true,
                    CompressedData::Expanded(_) => false,
                };
                if !is_compressed {
                    return Ok(true);
                }
                let inflated = match &self.entries[i].1 {
                    CompressedData::Compressed(c) => {
                        match inflate(c.as_slice()) {
                            Ok(v) => v,
                            Err(e) => {
                                return Err(Error::from_kind(e).context("inflating storage data"));
                            },
                        }
                    },
                    CompressedData::Expanded(_) => {
                        proof {
                            assert(false);
                        }
                        Vec::new()
                    },
                };
                let key = self.entries[i].0.clone();
                self.entries.set(i, (key, CompressedData::Expanded(inflated)));
                return Ok(true);
            } else {
                proof {
                    crate::common::lemma_str_bytes_neq(self.entries@[i as int].0@, path@);
                    if Self::spec_find(self.entries@, path@) matches Some(t) {
                        lemma_spec_find_skip(self.entries@, path@, i as int + 1);
                    }
                }
            }
            i += 1;
        }
        proof {
            if Self::spec_find(self.entries@, path@) is Some {
                lemma_spec_find_hit(self.entries@, path@);
            }
        }
        Ok(false)
    }

    /// The expanded data at the given path: present exactly when the path
    /// exists and its cell has been inflated; every access returns the same
    /// stored bytes.
    pub fn get_data(&self, path: &str) -> (r: Option<&Vec<u8>>)
        ensures
            r is Some <==> (Self::spec_find(self.entries@, path@) matches Some(j)
                && self.entries@[j].1 is Expanded),
            r matches Some(v) ==> Self::spec_find(self.entries@, path@) matches Some(j)
                && v@ == self.entries@[j].1->Expanded_0@,
    {
        let n = self.entries.len();
        proof {
            if Self::spec_find(self.entries@, path@) is Some {
                lemma_spec_find_hit(self.entries@, path@);
            }
        }
        let mut i: usize = 0;
        while i < n
            invariant
                0 <= i <= n,
                n == self.entries@.len(),
                forall|j: int| 0 <= j < i ==> (#[trigger] self.entries@[j]).0@ != path@,
                Self::spec_find(self.entries@, path@) matches Some(t) ==> i <= t,
            decreases n - i,
        {
            if crate::common::bytes_eq(
                self.entries[i].0.as_str().as_bytes(),
                path.as_bytes(),
            ) {
                proof {
                    crate::common::lemma_str_bytes_eq(self.entries@[i as int].0@, path@);
                    lemma_spec_find_at(self.entries@, path@, i as int);
                }
                match &self.entries[i].1 {
                    CompressedData::Expanded(v) => {
                        return Some(v);
                    },
                    CompressedData::Compressed(_) => {
                        return None;
                    },
                }
            } else {
                proof {
                    crate::common::lemma_str_bytes_neq(self.entries@[i as int].0@, path@);
                    if Self::spec_find(self.entries@, path@) matches Some(t) {
                        lemma_spec_find_skip(self.entries@, path@, i as int + 1);
                    }
                }
            }
            i += 1;
        }
        proof {
            if Self::spec_find(self.entries@, path@) is Some {
                lemma_spec_find_hit(self.entries@, path@);
            }
        }
        None
    }

    /// How many blobs the storage holds.
    pub fn len(&self) -> (r: usize)
        ensures
            r == self.entries@.len(),
    {
        self.entries.len()
    }
}

impl Default for Storage {
    fn default() -> (r: Self)
        ensures
            r.entries@.len() == 0,
    {
        Storage { entries: Vec::new() }
    }
}

/// The first match is where the scan stops.
proof fn lemma_spec_find_at(entries: Seq<(String, CompressedData)>, path: Seq<char>, i: int)
    requires
        0 <= i < entries.len(),
        entries[i].0@ == path,
        forall|j: int| 0 <= j < i ==> (#[trigger] entries[j]).0@ != path,
    ensures
        Storage::spec_find(entries, path) == Some(i),
    decreases i,
{
    if i == 0 {
    } else {
        assert(entries[0].0@ != path);
        lemma_spec_find_at(entries.skip(1), path, i - 1);
        assert(forall|j: int| 0 <= j < i - 1 ==> entries.skip(1)[j] == entries[j + 1]);
        assert(entries.skip(1)[i - 1] == entries[i]);
    }
}

/// A found index lies past any separator-free prefix.
proof fn lemma_spec_find_skip(entries: Seq<(String, CompressedData)>, path: Seq<char>, i: int)
    requires
        0 <= i <= entries.len(),
        forall|j: int| 0 <= j < i ==> (#[trigger] entries[j]).0@ != path,
        Storage::spec_find(entries, path) is Some,
    ensures
        Storage::spec_find(entries, path)->0 >= i,
    decreases i,
{
    lemma_spec_find_hit(entries, path);
    if i > 0 {
        assert(entries[0].0@ != path);
        assert(forall|j: int| 0 <= j < i - 1 ==> entries.skip(1)[j] == entries[j + 1]);
        lemma_spec_find_skip(entries.skip(1), path, i - 1);
    }
}

/// A found index names a matching entry.
proof fn lemma_spec_find_hit(entries: Seq<(String, CompressedData)>, path: Seq<char>)
    requires
        Storage::spec_find(entries, path) is Some,
    ensures
        0 <= Storage::spec_find(entries, path)->0 < entries.len(),
        entries[Storage::spec_find(entries, path)->0].0@ == path,
    decreases entries.len(),
{
    if entries.len() > 0 && entries[0].0@ != path {
        lemma_spec_find_hit(entries.skip(1), path);
        let w = Storage::spec_find(entries.skip(1), path)->0;
        assert(entries.skip(1)[w] == entries[w + 1]);
    }
}

/// The index just past the last `/` or `\\` separator of `b`, or 0 when
/// there is none.
pub open spec fn spec_after_last_sep(b: Seq<u8>) -> int
    decreases b.len(),
{
    if b.len() == 0 {
        0
    } else if b.last() == 0x2f || b.last() == 0x5c {
        b.len() as int
    } else {
        spec_after_last_sep(b.drop_last())
    }
}

/// The file-name bytes of a path: everything after its last separator, with
/// any further leading separators stripped; a path without a separator
/// yields nothing, as the reference behavior has it.
pub open spec fn spec_file_name_bytes(b: Seq<u8>) -> Seq<u8> {
    if spec_after_last_sep(b) == 0 {
        Seq::empty()
    } else {
        b.skip(spec_after_last_sep(b))
    }
}

/// Windows paths are stored by Altium; this gets the file name of either
/// kind of path: everything after the last separator.
#[verifier::loop_isolation(false)]
pub fn file_name(path: &str) -> (r: String)
    ensures
        ({
            let sfx = spec_file_name_bytes(vstd::utf8::encode_utf8(path@));
            if vstd::utf8::valid_utf8(sfx) {
                r@ == vstd::utf8::decode_utf8(sfx)
            } else {
                r@ == Seq::<char>::empty()
            }
        }),
{
    let b = path.as_bytes();
    let ghost bs = vstd::utf8::encode_utf8(path@);
    let mut start: usize = 0;
    let mut i: usize = 0;
    while i < b.len()
        invariant
            0 <= i <= b@.len(),
            start <= i,
            start == spec_after_last_sep(b@.take(i as int)),
        decreases b@.len() - i,
    {
        proof {
            assert(b@.take(i as int + 1).drop_last() =~= b@.take(i as int));
            assert(b@.take(i as int + 1).last() == b@[i as int]);
        }
        if b[i] == 0x2f || b[i] == 0x5c {
            start = i + 1;
        }
        i += 1;
    }
    proof {
        assert(b@.take(b@.len() as int) =~= b@);
    }
    if start == 0 {
        proof {
            assert(spec_file_name_bytes(bs) =~= Seq::<u8>::empty());
            assert(vstd::utf8::valid_utf8(Seq::<u8>::empty()));
            assert(vstd::utf8::decode_utf8(Seq::<u8>::empty()) =~= Seq::<char>::empty());
        }
        return String::new();
    }
    let tail = crate::common::slice_to_vec_range(b, start, b.len());
    proof {
        assert(tail@ =~= spec_file_name_bytes(bs));
    }
    match crate::outside::string_from_utf8(tail.as_slice()) {
        Some(s) => s,
        None => String::new(),
    }
}

} // verus!
