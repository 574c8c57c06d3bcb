//! The schematic library: the `FileHeader` metadata, the optional
//! `SectionKeys` indirection, the `Storage` stream, and per-component
//! `Data` streams of framed records.

use vstd::prelude::*;

use crate::common::{pairs_view, split_altium_map};
use crate::error::{Error, ErrorKind};
use crate::font::FontCollection;
use crate::logging::UnsupportedCounter;
use crate::outside::{cfb_has_stream, cfb_model, cfb_stream_of, cfb_wf, CfbSource};
use crate::records::SchRecord;
use crate::schlibmeta::{ComponentMeta, SchLibMeta};
use crate::storage::Storage;
use vstd::utf8::{decode_utf8, valid_utf8};

verus! {

/// One libref-to-section-key mapping of the `SectionKeys` stream.
pub struct KeyMapState {
    pub librefs: Seq<Seq<char>>,
    pub keys: Seq<Seq<char>>,
}

/// The accumulated `SectionKeys` map: `KeyCount` sizes it, `LibRef<i>` and
/// `SectionKey<i>` fill it, 0-based.
pub open spec fn spec_keymap_step(st: KeyMapState, q: (Seq<u8>, Seq<u8>)) -> Option<KeyMapState> {
    let k = q.0;
    let v = q.1;
    if k == seq![0x4bu8, 0x65u8, 0x79u8, 0x43u8, 0x6fu8, 0x75u8, 0x6eu8, 0x74u8] {
        if crate::binder::ok_u32(v) {
            Some(KeyMapState {
                librefs: Seq::new((crate::parse::uint_val(v) as u32) as nat, |j: int| Seq::empty()),
                keys: Seq::new((crate::parse::uint_val(v) as u32) as nat, |j: int| Seq::empty()),
            })
        } else {
            None
        }
    } else if k.len() >= 6 && k.take(6) == seq![0x4cu8, 0x69u8, 0x62u8, 0x52u8, 0x65u8, 0x66u8] {
        let d = k.skip(6);
        if crate::parse::is_uint_text(d) && crate::parse::uint_val(d) <= usize::MAX
            && crate::parse::uint_val(d) < st.librefs.len() && valid_utf8(v) {
            Some(KeyMapState {
                librefs: st.librefs.update(crate::parse::uint_val(d), decode_utf8(v)),
                keys: st.keys,
            })
        } else {
            None
        }
    } else if k.len() >= 10 && k.take(10) == seq![0x53u8, 0x65u8, 0x63u8, 0x74u8, 0x69u8, 0x6fu8,
        0x6eu8, 0x4bu8, 0x65u8, 0x79u8] {
        let d = k.skip(10);
        if crate::parse::is_uint_text(d) && crate::parse::uint_val(d) <= usize::MAX
            && crate::parse::uint_val(d) < st.keys.len() && valid_utf8(v) {
            Some(KeyMapState {
                librefs: st.librefs,
                keys: st.keys.update(crate::parse::uint_val(d), decode_utf8(v)),
            })
        } else {
            None
        }
    } else {
        Some(st)
    }
}

pub open spec fn spec_keymap_fold(p: Seq<(Seq<u8>, Seq<u8>)>) -> Option<KeyMapState>
    decreases p.len(),
{
    if p.len() == 0 {
        Some(KeyMapState { librefs: Seq::empty(), keys: Seq::empty() })
    } else {
        match spec_keymap_fold(p.drop_last()) {
            None => None,
            Some(st) => spec_keymap_step(st, p.last()),
        }
    }
}

/// A failure in a prefix fails the whole list.
proof fn lemma_keymap_fold_none(p: Seq<(Seq<u8>, Seq<u8>)>, n: int)
    requires
        0 <= n <= p.len(),
        spec_keymap_fold(p.take(n)) is None,
    ensures
        spec_keymap_fold(p) is None,
    decreases p.len() - n,
{
    if n < p.len() {
        assert(p.take(n + 1).drop_last() =~= p.take(n));
        lemma_keymap_fold_none(p, n + 1);
    } else {
        assert(p.take(n) =~= p);
    }
}

/// Altium replaces `/` with `_` in its stream paths.
pub open spec fn spec_fixup(s: Seq<char>) -> Seq<char> {
    s.map(|i: int, c: char| if c == '/' {
        '_'
    } else {
        c
    })
}

/// Replacing each `/` byte with `_`.
pub open spec fn spec_swap_slash(b: Seq<u8>) -> Seq<u8> {
    b.map(|i: int, x: u8| if x == 0x2f {
        0x5fu8
    } else {
        x
    })
}

/// Swapping the slash byte in one character's encoding encodes the
/// fixed-up character: `/` is the single byte 0x2f, and no other
/// character's encoding holds a 0x2f byte, since every byte of a multi-byte
/// encoding has its top bit set.
proof fn lemma_swap_scalar(c: char)
    ensures
        spec_swap_slash(vstd::utf8::encode_scalar(c as u32)) == vstd::utf8::encode_scalar(
            (if c == '/' {
                '_'
            } else {
                c
            }) as u32,
        ),
{
    vstd::utf8::char_is_scalar(c);
    let v = c as u32;
    if c == '/' {
        assert(v == 0x2f);
        assert(('_' as u32) == 0x5f);
        assert((0x2fu32 & 0x7f) as u8 == 0x2fu8) by (bit_vector);
        assert((0x5fu32 & 0x7f) as u8 == 0x5fu8) by (bit_vector);
        assert(spec_swap_slash(seq![0x2fu8]) =~= seq![0x5fu8]);
    } else {
        if vstd::utf8::has_width_1_encoding(v) {
            if v == 0x2f {
                vstd::utf8::char_u32_cast(c, v);
                vstd::utf8::char_u32_cast('/', 0x2f);
                assert(false);
            }
            assert((v & 0x7f) as u8 != 0x2fu8) by (bit_vector)
                requires v < 0x80, v != 0x2f;
            assert(spec_swap_slash(seq![vstd::utf8::leading_byte_width_1(v)]) =~= seq![
                vstd::utf8::leading_byte_width_1(v),
            ]);
        } else {
            assert(0xC0u8 | ((v >> 6) & 0x1F) as u8 != 0x2fu8) by (bit_vector);
            assert(0xE0u8 | ((v >> 12) & 0x0F) as u8 != 0x2fu8) by (bit_vector);
            assert(0xF0u8 | ((v >> 18) & 0x7) as u8 != 0x2fu8) by (bit_vector);
            assert(0x80u8 | (v & 0x3F) as u8 != 0x2fu8) by (bit_vector);
            assert(0x80u8 | ((v >> 6) & 0x3F) as u8 != 0x2fu8) by (bit_vector);
            assert(0x80u8 | ((v >> 12) & 0x3F) as u8 != 0x2fu8) by (bit_vector);
            assert(spec_swap_slash(vstd::utf8::encode_scalar(v)) =~= vstd::utf8::encode_scalar(
                v,
            ));
        }
    }
}

/// Swapping slash bytes in an encoded text encodes the fixed-up text.
proof fn lemma_fixup_encoding(s: Seq<char>)
    ensures
        vstd::utf8::encode_utf8(spec_fixup(s)) == spec_swap_slash(vstd::utf8::encode_utf8(s)),
    decreases s.len(),
{
    if s.len() == 0 {
        assert(spec_fixup(s) =~= Seq::<char>::empty());
        assert(spec_swap_slash(Seq::<u8>::empty()) =~= Seq::<u8>::empty());
    } else {
        let c = s[0];
        let f = spec_fixup(s);
        lemma_swap_scalar(c);
        lemma_fixup_encoding(s.drop_first());
        assert(f.len() == s.len());
        assert(f[0] == (if c == '/' {
            '_'
        } else {
            c
        }));
        assert(f.drop_first() =~= spec_fixup(s.drop_first()));
        assert(spec_swap_slash(
            vstd::utf8::encode_scalar(c as u32) + vstd::utf8::encode_utf8(s.drop_first()),
        ) =~= spec_swap_slash(vstd::utf8::encode_scalar(c as u32)) + spec_swap_slash(
            vstd::utf8::encode_utf8(s.drop_first()),
        ));
        assert(vstd::utf8::encode_utf8(f) == vstd::utf8::encode_scalar(f[0] as u32)
            + vstd::utf8::encode_utf8(f.drop_first()));
    }
}

/// Fix up a section key for compound-file path safety: `/` becomes `_`.
#[verifier::loop_isolation(false)]
pub fn fixup_sec_key(path: &str) -> (r: String)
    ensures
        r@ == spec_fixup(path@),
{
    let b = path.as_bytes();
    let mut out: Vec<u8> = Vec::new();
    let mut i: usize = 0;
    while i < b.len()
        invariant
            0 <= i <= b@.len(),
            out@.len() == i,
            forall|j: int| 0 <= j < i ==> out@[j] == (if b@[j] == 0x2f {
                0x5fu8
            } else {
                b@[j]
            }),
        decreases b@.len() - i,
    {
        if b[i] == 0x2f {
            out.push(0x5f);
        } else {
            out.push(b[i]);
        }
        i += 1;
    }
    proof {
        let t = spec_fixup(path@);
        lemma_fixup_encoding(path@);
        assert(out@ =~= spec_swap_slash(vstd::utf8::encode_utf8(path@)));
        vstd::utf8::encode_utf8_valid_utf8(t);
        vstd::utf8::encode_utf8_decode_utf8(t);
    }
    match crate::outside::string_from_utf8(out.as_slice()) {
        Some(s) => s,
        None => {
            proof {
                assert(false);
            }
            String::new()
        },
    }
}

/// Whether a `SectionKeys` stream parses: a 5-byte prefix, a trailing NUL,
/// splittable pairs, and a key map the pairs build without error.
pub open spec fn spec_section_keys_ok(b: Seq<u8>) -> bool {
    &&& b.len() >= 6
    &&& b.last() == 0
    &&& crate::common::spec_altium_pairs(b.subrange(5, b.len() - 1)) is Some
    &&& spec_keymap_fold(crate::common::spec_altium_pairs(b.subrange(5, b.len() - 1))->0) is Some
}

/// The key map a `SectionKeys` stream yields.
pub open spec fn spec_section_keys_map(b: Seq<u8>) -> KeyMapState {
    spec_keymap_fold(crate::common::spec_altium_pairs(b.subrange(5, b.len() - 1))->0)->0
}

/// Parse a `SectionKeys` stream into its libref-to-key map.
#[verifier::loop_isolation(false)]
#[verifier::rlimit(100)]
pub fn parse_section_keys(buf: &[u8], counter: &mut UnsupportedCounter) -> (r: Result<
    Vec<(String, String)>,
    Error,
>)
    ensures
        final(counter).count >= old(counter).count,
        r is Ok <==> spec_section_keys_ok(buf@),
        r is Ok ==> ({
            let st = spec_section_keys_map(buf@);
            &&& r->Ok_0@.len() == st.librefs.len()
            &&& st.librefs.len() == st.keys.len()
            &&& forall|j: int| 0 <= j < st.librefs.len() ==> {
                &&& (#[trigger] r->Ok_0@[j]).0@ == st.librefs[j]
                &&& r->Ok_0@[j].1@ == st.keys[j]
            }
        }),
{
    if buf.len() < 6 {
        return Err(Error::from_kind(ErrorKind::new_invalid_stream("SectionKeys", 0)));
    }
    if buf[buf.len() - 1] != 0 {
        return Err(Error::from_kind(ErrorKind::new_invalid_stream("SectionKeys", buf.len())));
    }
    let to_parse = &buf[5..buf.len() - 1];
    assert(to_parse@ =~= buf@.subrange(5, buf@.len() - 1));
    let pairs = match split_altium_map(to_parse) {
        Ok(v) => v,
        Err(e) => {
            return Err(Error::from_kind(e));
        },
    };
    let ghost p = pairs_view(pairs@);
    proof {
        crate::common::lemma_pairs_view(pairs@);
        assert(p.take(0) =~= Seq::<(Seq<u8>, Seq<u8>)>::empty());
    }
    let a_kc: [u8; 8] = [0x4bu8, 0x65u8, 0x79u8, 0x43u8, 0x6fu8, 0x75u8, 0x6eu8, 0x74u8];
    let a_lr: [u8; 6] = [0x4cu8, 0x69u8, 0x62u8, 0x52u8, 0x65u8, 0x66u8];
    let a_sk: [u8; 10] = [0x53u8, 0x65u8, 0x63u8, 0x74u8, 0x69u8, 0x6fu8, 0x6eu8, 0x4bu8, 0x65u8,
        0x79u8];
    let mut map: Vec<(String, String)> = Vec::new();
    let n = pairs.len();
    let mut i: usize = 0;
    while i < n
        invariant
            0 <= i <= n,
            n == pairs@.len(),
            spec_keymap_fold(p.take(i as int)) matches Some(st) && {
                &&& map@.len() == st.librefs.len()
                &&& st.librefs.len() == st.keys.len()
                &&& forall|j: int| 0 <= j < st.librefs.len() ==> {
                    &&& (#[trigger] map@[j]).0@ == st.librefs[j]
                    &&& map@[j].1@ == st.keys[j]
                }
            },
            counter.count >= old(counter).count,
        decreases n - i,
    {
        let key: &[u8] = pairs[i].0.as_slice();
        let val: &[u8] = pairs[i].1.as_slice();
        proof {
            assert(p[i as int] == (pairs@[i as int].0@, pairs@[i as int].1@));
            assert(p.take(i as int + 1).drop_last() =~= p.take(i as int));
            assert(p.take(i as int + 1).last() == p[i as int]);
            assert(a_kc@ =~= seq![0x4bu8, 0x65u8, 0x79u8, 0x43u8, 0x6fu8, 0x75u8, 0x6eu8, 0x74u8]);
            assert(a_lr@ =~= seq![0x4cu8, 0x69u8, 0x62u8, 0x52u8, 0x65u8, 0x66u8]);
            assert(a_sk@ =~= seq![0x53u8, 0x65u8, 0x63u8, 0x74u8, 0x69u8, 0x6fu8, 0x6eu8, 0x4bu8,
                0x65u8, 0x79u8]);
        }
        if crate::common::bytes_eq(key, a_kc.as_slice()) {
            match crate::parse::parse_u32(val) {
                Ok(c) => {
                    let mut fresh: Vec<(String, String)> = Vec::new();
                    let mut j: u32 = 0;
                    while j < c
                        invariant
                            0 <= j <= c,
                            fresh@.len() == j,
                            forall|t: int| 0 <= t < j ==> (#[trigger] fresh@[t]).0@
                                == Seq::<char>::empty() && fresh@[t].1@ == Seq::<char>::empty(),
                        decreases c - j,
                    {
                        fresh.push((String::new(), String::new()));
                        j += 1;
                    }
                    map = fresh;
                },
                Err(e) => {
                    proof {
                        lemma_keymap_fold_none(p, i as int + 1);
                    }
                    return Err(Error::from_kind(e));
                },
            }
        } else if crate::common::bytes_starts_with(key, a_lr.as_slice()) {
            let digits = &key[6..key.len()];
            assert(digits@ =~= p[i as int].0.skip(6));
            match crate::parse::parse_usize(digits) {
                Ok(idx) => {
                    if idx < map.len() {
                        match crate::common::str_from_utf8(val) {
                            Ok(s) => {
                                let old_e = &map[idx];
                                let sec = old_e.1.clone();
                                map.set(idx, (s, sec));
                            },
                            Err(e) => {
                                proof {
                                    lemma_keymap_fold_none(p, i as int + 1);
                                }
                                return Err(Error::from_kind(e));
                            },
                        }
                    } else {
                        proof {
                            lemma_keymap_fold_none(p, i as int + 1);
                        }
                        return Err(Error::from_kind(ErrorKind::new_invalid_key(key)));
                    }
                },
                Err(e) => {
                    proof {
                        lemma_keymap_fold_none(p, i as int + 1);
                    }
                    return Err(Error::from_kind(e));
                },
            }
        } else if crate::common::bytes_starts_with(key, a_sk.as_slice()) {
            let digits = &key[10..key.len()];
            assert(digits@ =~= p[i as int].0.skip(10));
            match crate::parse::parse_usize(digits) {
                Ok(idx) => {
                    if idx < map.len() {
                        match crate::common::str_from_utf8(val) {
                            Ok(s) => {
                                let old_e = &map[idx];
                                let lr = old_e.0.clone();
                                map.set(idx, (lr, s));
                            },
                            Err(e) => {
                                proof {
                                    lemma_keymap_fold_none(p, i as int + 1);
                                }
                                return Err(Error::from_kind(e));
                            },
                        }
                    } else {
                        proof {
                            lemma_keymap_fold_none(p, i as int + 1);
                        }
                        return Err(Error::from_kind(ErrorKind::new_invalid_key(key)));
                    }
                },
                Err(e) => {
                    proof {
                        lemma_keymap_fold_none(p, i as int + 1);
                    }
                    return Err(Error::from_kind(e));
                },
            }
        } else {
            crate::logging::log_unsupported_key(counter, key, val);
        }
        i += 1;
    }
    proof {
        assert(p.take(n as int) =~= p);
    }
    Ok(map)
}

/// The mapped section key for a libref, if the map has one: the first
/// matching entry.
pub open spec fn spec_map_lookup(m: Seq<(String, String)>, libref: Seq<char>) -> Option<Seq<char>>
    decreases m.len(),
{
    if m.len() == 0 {
        None
    } else if m[0].0@ == libref {
        Some(m[0].1@)
    } else {
        spec_map_lookup(m.skip(1), libref)
    }
}

/// The mapped section key for a libref in a key-map state: the first
/// matching entry.
pub open spec fn spec_keymap_lookup(
    librefs: Seq<Seq<char>>,
    keys: Seq<Seq<char>>,
    libref: Seq<char>,
) -> Option<Seq<char>>
    decreases librefs.len(),
{
    if librefs.len() == 0 || keys.len() == 0 {
        None
    } else if librefs[0] == libref {
        Some(keys[0])
    } else {
        spec_keymap_lookup(librefs.skip(1), keys.skip(1), libref)
    }
}

/// A map that mirrors a key-map state entry by entry looks keys up the
/// same way.
proof fn lemma_lookup_corresponds(
    m: Seq<(String, String)>,
    librefs: Seq<Seq<char>>,
    keys: Seq<Seq<char>>,
    libref: Seq<char>,
)
    requires
        m.len() == librefs.len(),
        librefs.len() == keys.len(),
        forall|j: int| 0 <= j < m.len() ==> (#[trigger] m[j]).0@ == librefs[j] && m[j].1@
            == keys[j],
    ensures
        spec_map_lookup(m, libref) == spec_keymap_lookup(librefs, keys, libref),
    decreases m.len(),
{
    if m.len() > 0 {
        assert(m[0].0@ == librefs[0] && m[0].1@ == keys[0]);
        assert(forall|j: int| 0 <= j < m.len() - 1 ==> #[trigger] m.skip(1)[j] == m[j + 1]);
        assert(forall|j: int| 0 <= j < librefs.len() - 1 ==> #[trigger] librefs.skip(1)[j]
            == librefs[j + 1]);
        assert(forall|j: int| 0 <= j < keys.len() - 1 ==> #[trigger] keys.skip(1)[j] == keys[j
            + 1]);
        lemma_lookup_corresponds(m.skip(1), librefs.skip(1), keys.skip(1), libref);
    }
}

/// Update a header with section keys: each component whose libref the map
/// names takes the mapped key, fixed up; the rest keep their own key, fixed
/// up.
#[verifier::loop_isolation(false)]
#[verifier::rlimit(100)]
pub fn update_section_keys(map: &Vec<(String, String)>, header: &mut SchLibMeta)
    ensures
        final(header).components@.len() == old(header).components@.len(),
        forall|j: int| 0 <= j < old(header).components@.len() ==> {
            let oldc = old(header).components@[j];
            let newc = #[trigger] final(header).components@[j];
            &&& newc.libref@ == oldc.libref@
            &&& newc.description@ == oldc.description@
            &&& newc.part_count == oldc.part_count
            &&& newc.sec_key@ == (match spec_map_lookup(map@, oldc.libref@) {
                Some(k) => spec_fixup(k),
                None => spec_fixup(oldc.sec_key@),
            })
        },
        final(header).fonts == old(header).fonts,
{
    let n = header.components.len();
    let mut i: usize = 0;
    while i < n
        invariant
            0 <= i <= n,
            n == header.components@.len(),
            header.components@.len() == old(header).components@.len(),
            header.fonts == old(header).fonts,
            forall|j: int| i <= j < n ==> #[trigger] header.components@[j] == old(
                header,
            ).components@[j],
            forall|j: int| 0 <= j < i ==> {
                let oldc = old(header).components@[j];
                let newc = #[trigger] header.components@[j];
                &&& newc.libref@ == oldc.libref@
                &&& newc.description@ == oldc.description@
                &&& newc.part_count == oldc.part_count
                &&& newc.sec_key@ == (match spec_map_lookup(map@, oldc.libref@) {
                    Some(k) => spec_fixup(k),
                    None => spec_fixup(oldc.sec_key@),
                })
            },
        decreases n - i,
    {
        let mut mapped: Option<String> = None;
        let m = map.len();
        let mut t: usize = 0;
        while t < m
            invariant
                0 <= t <= m,
                m == map@.len(),
                i < n == header.components@.len(),
                header.components@[i as int] == old(header).components@[i as int],
                mapped is None ==> forall|u: int| 0 <= u < t ==> (#[trigger] map@[u]).0@
                    != header.components@[i as int].libref@,
                mapped matches Some(s) ==> spec_map_lookup(
                    map@,
                    header.components@[i as int].libref@,
                ) == Some(s@),
            decreases m - t,
        {
            if mapped.is_none() && crate::common::bytes_eq(
                map[t].0.as_str().as_bytes(),
                header.components[i].libref.as_str().as_bytes(),
            ) {
                proof {
                    crate::common::lemma_str_bytes_eq(
                        map@[t as int].0@,
                        header.components@[i as int].libref@,
                    );
                    lemma_map_lookup_at(map@, header.components@[i as int].libref@, t as int);
                }
                mapped = Some(map[t].1.clone());
            } else {
                proof {
                    if map@[t as int].0@ != header.components@[i as int].libref@ {
                    } else {
                        if mapped is None {
                            crate::common::lemma_str_bytes_eq(
                                map@[t as int].0@,
                                header.components@[i as int].libref@,
                            );
                        }
                    }
                    if mapped is None {
                        crate::common::lemma_str_bytes_neq(
                            map@[t as int].0@,
                            header.components@[i as int].libref@,
                        );
                    }
                }
            }
            t += 1;
        }
        let new_key: String;
        match &mapped {
            Some(s) => {
                new_key = fixup_sec_key(s.as_str());
            },
            None => {
                proof {
                    lemma_map_lookup_none(map@, header.components@[i as int].libref@);
                }
                new_key = fixup_sec_key(header.components[i].sec_key.as_str());
            },
        }
        let old_c = &header.components[i];
        let libref = old_c.libref.clone();
        let description = old_c.description.clone();
        let part_count = old_c.part_count;
        header.components.set(i, ComponentMeta { libref, sec_key: new_key, description,
            part_count });
        i += 1;
    }
}

/// The first matching map entry is the lookup result.
proof fn lemma_map_lookup_at(m: Seq<(String, String)>, libref: Seq<char>, t: int)
    requires
        0 <= t < m.len(),
        m[t].0@ == libref,
        forall|u: int| 0 <= u < t ==> (#[trigger] m[u]).0@ != libref,
    ensures
        spec_map_lookup(m, libref) == Some(m[t].1@),
    decreases t,
{
    if t > 0 {
        assert(m[0].0@ != libref);
        assert(forall|u: int| 0 <= u < t - 1 ==> m.skip(1)[u] == m[u + 1]);
        lemma_map_lookup_at(m.skip(1), libref, t - 1);
    }
}

/// No matching entry means no lookup result.
proof fn lemma_map_lookup_none(m: Seq<(String, String)>, libref: Seq<char>)
    requires
        forall|u: int| 0 <= u < m.len() ==> (#[trigger] m[u]).0@ != libref,
    ensures
        spec_map_lookup(m, libref) is None,
    decreases m.len(),
{
    if m.len() > 0 {
        assert(forall|u: int| 0 <= u < m.len() - 1 ==> m.skip(1)[u] == m[u + 1]);
        lemma_map_lookup_none(m.skip(1), libref);
    }
}

/// Representation of one component: its name and decoded records, with the
/// library's font table.
#[derive(Clone, Debug, PartialEq)]
pub struct Component {
    pub name: String,
    pub records: Vec<SchRecord>,
    pub fonts: FontCollection,
}

impl Component {
    /// The name of this part.
    pub fn name(&self) -> (r: &str)
        ensures
            r@ == self.name@,
    {
        self.name.as_str()
    }

    /// Iterate over all records in this component.
    pub fn records(&self) -> (r: &[SchRecord])
        ensures
            r@ == self.records@,
    {
        self.records.as_slice()
    }
}

/// Whether a whole in-memory library opens: the container is well formed,
/// the `FileHeader` stream parses, an optional `Storage` stream parses, and
/// an optional `SectionKeys` stream parses.
pub open spec fn spec_lib_ok(m: Seq<u8>) -> bool {
    &&& cfb_wf(m)
    &&& cfb_stream_of(m, "FileHeader"@) matches Some(hb) && SchLibMeta::spec_parse_ok(hb)
    &&& (cfb_has_stream(m, "Storage"@) ==> (cfb_stream_of(m, "Storage"@) matches Some(sb)
        && Storage::spec_parse_ok(sb)))
    &&& (cfb_has_stream(m, "SectionKeys"@) ==> (cfb_stream_of(m, "SectionKeys"@) matches Some(
        kb,
    ) && spec_section_keys_ok(kb)))
}

/// The header fields a library's `FileHeader` stream folds to.
pub open spec fn spec_lib_meta(m: Seq<u8>) -> crate::schlibmeta::MetaState {
    SchLibMeta::spec_fold(
        SchLibMeta::spec_stream_pairs(cfb_stream_of(m, "FileHeader"@)->0)->0,
    )->0
}

/// The section-key map an in-memory library carries: empty when the
/// `SectionKeys` stream is absent.
pub open spec fn spec_lib_keymap(m: Seq<u8>) -> KeyMapState {
    if cfb_has_stream(m, "SectionKeys"@) {
        spec_section_keys_map(cfb_stream_of(m, "SectionKeys"@)->0)
    } else {
        KeyMapState { librefs: Seq::empty(), keys: Seq::empty() }
    }
}

/// The first component whose libref is the given one, if any.
pub open spec fn spec_find_comp(cs: Seq<ComponentMeta>, libref: Seq<char>) -> Option<int>
    decreases cs.len(),
{
    if cs.len() == 0 {
        None
    } else if cs[0].libref@ == libref {
        Some(0)
    } else {
        match spec_find_comp(cs.skip(1), libref) {
            None => None,
            Some(i) => Some(i + 1),
        }
    }
}

/// The first match is where the scan stops.
proof fn lemma_find_comp_at(cs: Seq<ComponentMeta>, libref: Seq<char>, t: int)
    requires
        0 <= t < cs.len(),
        cs[t].libref@ == libref,
        forall|u: int| 0 <= u < t ==> (#[trigger] cs[u]).libref@ != libref,
    ensures
        spec_find_comp(cs, libref) == Some(t),
    decreases t,
{
    if t > 0 {
        assert(cs[0].libref@ != libref);
        assert(forall|u: int| 0 <= u < cs.len() - 1 ==> #[trigger] cs.skip(1)[u] == cs[u + 1]);
        lemma_find_comp_at(cs.skip(1), libref, t - 1);
    }
}

/// A found component index is in bounds and names a match.
proof fn lemma_spec_find_comp_bounds(cs: Seq<ComponentMeta>, libref: Seq<char>)
    requires
        spec_find_comp(cs, libref) is Some,
    ensures
        0 <= spec_find_comp(cs, libref)->0 < cs.len(),
        cs[spec_find_comp(cs, libref)->0].libref@ == libref,
    decreases cs.len(),
{
    if cs.len() > 0 && cs[0].libref@ != libref {
        lemma_spec_find_comp_bounds(cs.skip(1), libref);
        let w = spec_find_comp(cs.skip(1), libref)->0;
        assert(cs.skip(1)[w] == cs[w + 1]);
    }
}

/// No matching component means no found index.
proof fn lemma_find_comp_none(cs: Seq<ComponentMeta>, libref: Seq<char>)
    requires
        forall|u: int| 0 <= u < cs.len() ==> (#[trigger] cs[u]).libref@ != libref,
    ensures
        spec_find_comp(cs, libref) is None,
    decreases cs.len(),
{
    if cs.len() > 0 {
        assert(forall|u: int| 0 <= u < cs.len() - 1 ==> #[trigger] cs.skip(1)[u] == cs[u + 1]);
        lemma_find_comp_none(cs.skip(1), libref);
    }
}

/// This is the top-level representation of a schematic library.
pub struct SchLib {
    pub cfile: CfbSource,
    pub header: SchLibMeta,
    pub storage: Storage,
    pub counter: UnsupportedCounter,
}

impl SchLib {
    /// Open an in-memory schematic library.
    ///
    /// Reads `FileHeader`, the optional `Storage` stream (missing means
    /// empty), and the optional `SectionKeys` stream (missing means each
    /// component's key is its fixed-up libref).
    #[verifier::rlimit(100)]
    pub fn from_buffer(bytes: Vec<u8>) -> (r: Result<SchLib, Error>)
        ensures
            r is Ok <==> spec_lib_ok(bytes@),
            r is Ok ==> cfb_model(r->Ok_0.cfile) == bytes@,
            r is Ok ==> ({
                let st = spec_lib_meta(bytes@);
                let km = spec_lib_keymap(bytes@);
                let x = r->Ok_0;
                &&& x.header.components@.len() == st.comps.len()
                &&& forall|j: int| 0 <= j < st.comps.len() ==> {
                    let c = #[trigger] x.header.components@[j];
                    &&& c.libref@ == st.comps[j].libref
                    &&& c.description@ == st.comps[j].description
                    &&& c.part_count == st.comps[j].part_count
                    &&& c.sec_key@ == (match spec_keymap_lookup(
                        km.librefs,
                        km.keys,
                        st.comps[j].libref,
                    ) {
                        Some(k) => spec_fixup(k),
                        None => spec_fixup(st.comps[j].sec_key),
                    })
                }
                &&& x.header.fonts.fonts@.len() == st.fonts.len()
                &&& forall|j: int| 0 <= j < st.fonts.len() ==> {
                    &&& (#[trigger] x.header.fonts.fonts@[j]).name@ == st.fonts[j].name
                    &&& x.header.fonts.fonts@[j].size == st.fonts[j].size
                }
            }),
            r is Ok && !cfb_has_stream(bytes@, "Storage"@) ==> r->Ok_0.storage.entries@.len()
                == 0,
            r is Ok && cfb_has_stream(bytes@, "Storage"@) ==> Storage::spec_stream_matches(
                r->Ok_0.storage,
                cfb_stream_of(bytes@, "Storage"@)->0,
            ),
    {
        let mut cfile = match CfbSource::open(bytes) {
            Ok(c) => c,
            Err(e) => {
                return Err(Error::from_kind(e).context("opening compound file"));
            },
        };
        let mut counter = UnsupportedCounter::new();
        let hdr_bytes = match cfile.read_stream("FileHeader") {
            Ok(b) => b,
            Err(e) => {
                return Err(Error::from_kind(e).context("reading FileHeader"));
            },
        };
        let mut header = match SchLibMeta::parse(hdr_bytes.as_slice()) {
            Ok(h) => h,
            Err(e) => {
                return Err(e.context("parsing FileHeader"));
            },
        };
        let storage: Storage;
        if cfile.has_stream("Storage") {
            let sbytes = match cfile.read_stream("Storage") {
                Ok(b) => b,
                Err(e) => {
                    return Err(Error::from_kind(e).context("reading Storage"));
                },
            };
            storage = match Storage::parse(sbytes.as_slice()) {
                Ok(s) => s,
                Err(e) => {
                    return Err(e.context("parsing Storage"));
                },
            };
        } else {
            storage = Storage { entries: Vec::new() };
        }
        let map: Vec<(String, String)>;
        let ghost km = spec_lib_keymap(cfb_model(cfile));
        if cfile.has_stream("SectionKeys") {
            let kbytes = match cfile.read_stream("SectionKeys") {
                Ok(b) => b,
                Err(e) => {
                    return Err(Error::from_kind(e).context("reading SectionKeys"));
                },
            };
            map = match parse_section_keys(kbytes.as_slice(), &mut counter) {
                Ok(m) => m,
                Err(e) => {
                    return Err(e.context("parsing SectionKeys"));
                },
            };
        } else {
            map = Vec::new();
        }
        let ghost header0 = header;
        update_section_keys(&map, &mut header);
        proof {
            let st = spec_lib_meta(cfb_model(cfile));
            assert forall|j: int| 0 <= j < st.comps.len() implies spec_map_lookup(
                map@,
                st.comps[j].libref,
            ) == spec_keymap_lookup(km.librefs, km.keys, st.comps[j].libref) by {
                lemma_lookup_corresponds(map@, km.librefs, km.keys, st.comps[j].libref);
            }
        }
        Ok(SchLib { cfile, header, storage, counter })
    }

    /// Get information about this file in general: the libref, description
    /// and part count of every component.
    pub fn component_meta(&self) -> (r: &[ComponentMeta])
        ensures
            r@ == self.header.components@,
    {
        self.header.components.as_slice()
    }

    /// The path of a component's `Data` stream: `<section key>/Data`.
    pub fn data_stream_path(sec_key: &str) -> (r: String)
        ensures
            r@ == sec_key@ + "/Data"@,
    {
        let mut p = String::new();
        p.append(sec_key);
        p.append("/Data");
        proof {
            assert(Seq::<char>::empty() + sec_key@ =~= sec_key@);
        }
        p
    }

    /// Look a single component up by its libref: the first metadata entry
    /// with that libref names the `Data` stream, at `<section key>/Data`,
    /// whose frames become the component's records.  A libref no entry
    /// carries is `None`.
    #[verifier::loop_isolation(false)]
    #[verifier::rlimit(100)]
    pub fn try_get_component(&mut self, libref: &str) -> (r: Result<Option<Component>, Error>)
        ensures
            final(self).header == old(self).header,
            final(self).storage == old(self).storage,
            cfb_model(final(self).cfile) == cfb_model(old(self).cfile),
            final(self).counter.count >= old(self).counter.count,
            spec_find_comp(old(self).header.components@, libref@) is None <==> (r matches Ok(c)
                && c is None),
            r matches Ok(c) ==> c matches Some(comp) ==> ({
                let j = spec_find_comp(old(self).header.components@, libref@)->0;
                let path = old(self).header.components@[j].sec_key@ + "/Data"@;
                &&& comp.name@ == libref@
                &&& comp.fonts.fonts@.len() == old(self).header.fonts.fonts@.len()
                &&& forall|t: int| 0 <= t < comp.fonts.fonts@.len() ==> {
                    &&& (#[trigger] comp.fonts.fonts@[t]).name@ == old(
                        self,
                    ).header.fonts.fonts@[t].name@
                    &&& comp.fonts.fonts@[t].size == old(self).header.fonts.fonts@[t].size
                }
                &&& cfb_stream_of(cfb_model(old(self).cfile), path) matches Some(db) && {
                    &&& crate::stream::spec_frames_all_ok(db)
                    &&& comp.records@.len() == crate::stream::spec_frames(db)->0.len()
                    &&& forall|t: int|
                        0 <= t < comp.records@.len() ==> crate::stream::spec_frame_matches(
                            #[trigger] crate::stream::spec_frames(db)->0[t],
                            comp.records@[t],
                        )
                }
            }),
    {
        let n = self.header.components.len();
        proof {
            if spec_find_comp(self.header.components@, libref@) is Some {
                lemma_spec_find_comp_bounds(self.header.components@, libref@);
            }
        }
        let mut found: Option<usize> = None;
        let mut i: usize = 0;
        while i < n
            invariant
                0 <= i <= n,
                n == self.header.components@.len(),
                *self == *old(self),
                found is None ==> forall|u: int| 0 <= u < i ==> (#[trigger] self
                    .header.components@[u]).libref@ != libref@,
                found matches Some(t) ==> 0 <= t < n && spec_find_comp(
                    self.header.components@,
                    libref@,
                ) == Some(t as int),
            decreases n - i,
        {
            if found.is_none() && crate::common::bytes_eq(
                self.header.components[i].libref.as_str().as_bytes(),
                libref.as_bytes(),
            ) {
                proof {
                    crate::common::lemma_str_bytes_eq(
                        self.header.components@[i as int].libref@,
                        libref@,
                    );
                    lemma_find_comp_at(self.header.components@, libref@, i as int);
                }
                found = Some(i);
            } else {
                proof {
                    if found is None {
                        crate::common::lemma_str_bytes_neq(
                            self.header.components@[i as int].libref@,
                            libref@,
                        );
                    }
                }
            }
            i += 1;
        }
        let idx = match found {
            Some(t) => t,
            None => {
                proof {
                    lemma_find_comp_none(self.header.components@, libref@);
                }
                return Ok(None);
            },
        };
        let path = Self::data_stream_path(self.header.components[idx].sec_key.as_str());
        let data = match self.cfile.read_stream(path.as_str()) {
            Ok(b) => b,
            Err(e) => {
                return Err(Error::from_kind(e).context("reading component data"));
            },
        };
        let records = match crate::stream::parse_all_records(
            data.as_slice(),
            libref,
            &mut self.counter,
        ) {
            Ok(v) => v,
            Err(e) => {
                return Err(e.context("decoding component records"));
            },
        };
        let name = String::from_str(libref);
        let fonts = self.header.fonts.duplicate();
        Ok(Some(Component { name, records, fonts }))
    }

    /// Look a single component up by its libref; a missing component is
    /// `None`.
    pub fn get_component(&mut self, libref: &str) -> (r: Result<Option<Component>, Error>)
        ensures
            final(self).header == old(self).header,
            final(self).storage == old(self).storage,
            cfb_model(final(self).cfile) == cfb_model(old(self).cfile),
            spec_find_comp(old(self).header.components@, libref@) is None <==> (r matches Ok(c)
                && c is None),
    {
        self.try_get_component(libref)
    }


    /// The fonts stored in this library.
    pub fn fonts(&self) -> (r: &FontCollection)
        ensures
            *r == self.header.fonts,
    {
        &self.header.fonts
    }

    /// The blob storage of this library.
    pub fn storage(&self) -> (r: &Storage)
        ensures
            *r == self.storage,
    {
        &self.storage
    }

    /// The blob storage, for lazy inflation.
    pub fn storage_mut(&mut self) -> (r: &mut Storage)
        ensures
            *r == old(self).storage,
            final(self).storage == *final(r),
            final(self).header == old(self).header,
            final(self).counter == old(self).counter,
    {
        &mut self.storage
    }

    /// How many unsupported keys decoding has seen so far.
    pub fn num_unsupported_keys(&self) -> (r: u64)
        ensures
            r == self.counter.count,
    {
        self.counter.count
    }
}

} // verus!
