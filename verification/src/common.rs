//! Shared scalar types and byte-level helpers used across the decoders.

use vstd::prelude::*;

use crate::error::ErrorKind;
use crate::outside::{string_from_utf8, string_from_utf8_lossy};

verus! {

/// Separator between key-value pairs in textlike streams.
pub open spec fn spec_sep() -> u8 {
    0x7c
}

/// Separator between a key and its value.
pub open spec fn spec_kv_sep() -> u8 {
    0x3d
}

/// Common coordinate type with x and y positions in nanometers.
#[derive(Clone, Copy, Debug, PartialEq, Eq, Structural)]
pub struct Location {
    pub x: i32,
    pub y: i32,
}

impl Location {
    pub fn x(self) -> (r: i32)
        ensures
            r == self.x,
    {
        self.x
    }

    pub fn y(self) -> (r: i32)
        ensures
            r == self.y,
    {
        self.y
    }

    pub fn new(x: i32, y: i32) -> (r: Self)
        ensures
            r == (Location { x, y }),
    {
        Location { x, y }
    }

    pub fn add_x(self, x: i32) -> (r: Self)
        requires
            i32::MIN <= self.x + x <= i32::MAX,
        ensures
            r.x == self.x + x,
            r.y == self.y,
    {
        Location { x: self.x + x, y: self.y }
    }

    pub fn add_y(self, y: i32) -> (r: Self)
        requires
            i32::MIN <= self.y + y <= i32::MAX,
        ensures
            r.x == self.x,
            r.y == self.y + y,
    {
        Location { x: self.x, y: self.y + y }
    }
}

impl Default for Location {
    fn default() -> (r: Self)
        ensures
            r.x == 0 && r.y == 0,
    {
        Location { x: 0, y: 0 }
    }
}

/// A location that additionally carries fractional (nanofraction) parts.
#[derive(Clone, Copy, Debug, PartialEq, Eq, Structural)]
pub struct LocationFract {
    pub x: i32,
    pub x_fract: i32,
    pub y: i32,
    pub y_fract: i32,
}

impl LocationFract {
    /// Sometimes the fractions do not matter.
    pub fn as_location(self) -> (r: Location)
        ensures
            r.x == self.x,
            r.y == self.y,
    {
        Location { x: self.x, y: self.y }
    }
}

impl Default for LocationFract {
    fn default() -> (r: Self)
        ensures
            r.x == 0 && r.y == 0 && r.x_fract == 0 && r.y_fract == 0,
    {
        LocationFract { x: 0, x_fract: 0, y: 0, y_fract: 0 }
    }
}

/// Whether an element is drawn.
#[derive(Clone, Copy, Debug, PartialEq, Eq, Structural)]
pub enum Visibility {
    Hidden,
    Visible,
}

impl Default for Visibility {
    fn default() -> (r: Self)
        ensures
            r == Visibility::Visible,
    {
        Visibility::Visible
    }
}

/// Rotation when only four values are allowed.
#[derive(Clone, Copy, Debug, PartialEq, Eq, Structural)]
pub enum Rotation90 {
    R0,
    R90,
    R180,
    R270,
}

impl Rotation90 {
    /// The wire ordinal of this rotation.
    pub open spec fn spec_ordinal(self) -> u8 {
        match self {
            Rotation90::R0 => 0,
            Rotation90::R90 => 1,
            Rotation90::R180 => 2,
            Rotation90::R270 => 3,
        }
    }

    pub fn as_int(self) -> (r: i16)
        ensures
            r == 90 * self.spec_ordinal(),
    {
        match self {
            Rotation90::R0 => 0,
            Rotation90::R90 => 90,
            Rotation90::R180 => 180,
            Rotation90::R270 => 270,
        }
    }
}

impl Default for Rotation90 {
    fn default() -> (r: Self)
        ensures
            r == Rotation90::R0,
    {
        Rotation90::R0
    }
}

/// Read-only state of a designator record.
#[derive(Clone, Copy, Debug, PartialEq, Eq, Structural)]
pub enum ReadOnlyState {
    ReadWrite,
    ReadOnly,
}

impl ReadOnlyState {
    /// The decoded state for a wire ordinal, if the ordinal is known.
    pub open spec fn spec_from_ordinal(value: u8) -> Option<ReadOnlyState> {
        if value == 0 {
            Some(ReadOnlyState::ReadWrite)
        } else if value == 1 {
            Some(ReadOnlyState::ReadOnly)
        } else {
            None
        }
    }

    pub fn try_from(value: u8) -> (r: Result<Self, ErrorKind>)
        ensures
            r is Ok <==> Self::spec_from_ordinal(value) is Some,
            r is Ok ==> r->Ok_0 == Self::spec_from_ordinal(value)->0,
            r is Err ==> r->Err_0 == ErrorKind::ReadOnlyState(value),
    {
        if value == 0 {
            Ok(ReadOnlyState::ReadWrite)
        } else if value == 1 {
            Ok(ReadOnlyState::ReadOnly)
        } else {
            Err(ErrorKind::ReadOnlyState(value))
        }
    }
}

impl Default for ReadOnlyState {
    fn default() -> (r: Self)
        ensures
            r == ReadOnlyState::ReadWrite,
    {
        ReadOnlyState::ReadWrite
    }
}

/// Horizontal alignment.
#[derive(Clone, Copy, Debug, PartialEq, Eq, Structural)]
pub enum PosHoriz {
    Left,
    Center,
    Right,
}

impl Default for PosHoriz {
    fn default() -> (r: Self)
        ensures
            r == PosHoriz::Left,
    {
        PosHoriz::Left
    }
}

/// Vertical alignment.
#[derive(Clone, Copy, Debug, PartialEq, Eq, Structural)]
pub enum PosVert {
    Top,
    Middle,
    Bottom,
}

impl Default for PosVert {
    fn default() -> (r: Self)
        ensures
            r == PosVert::Top,
    {
        PosVert::Top
    }
}

/// RGB color, stored on the wire as a packed little-endian 24-bit integer.
#[derive(Clone, Copy, Debug, PartialEq, Eq, Structural)]
pub struct Rgb {
    pub r: u8,
    pub g: u8,
    pub b: u8,
}

impl Rgb {
    pub fn from_hex(r: u8, g: u8, b: u8) -> (c: Self)
        ensures
            c == (Rgb { r, g, b }),
    {
        Rgb { r, g, b }
    }

    pub fn black() -> (c: Self)
        ensures
            c == (Rgb { r: 0x00, g: 0x00, b: 0x00 }),
    {
        Rgb { r: 0x00, g: 0x00, b: 0x00 }
    }

    pub fn white() -> (c: Self)
        ensures
            c == (Rgb { r: 0xff, g: 0xff, b: 0xff }),
    {
        Rgb { r: 0xff, g: 0xff, b: 0xff }
    }

    pub fn red() -> (c: Self)
        ensures
            c == (Rgb { r: 0xff, g: 0x00, b: 0x00 }),
    {
        Rgb { r: 0xff, g: 0x00, b: 0x00 }
    }

    pub fn green() -> (c: Self)
        ensures
            c == (Rgb { r: 0x00, g: 0xff, b: 0x00 }),
    {
        Rgb { r: 0x00, g: 0xff, b: 0x00 }
    }

    pub fn blue() -> (c: Self)
        ensures
            c == (Rgb { r: 0x00, g: 0x00, b: 0xff }),
    {
        Rgb { r: 0x00, g: 0x00, b: 0xff }
    }
}

impl Default for Rgb {
    fn default() -> (r: Self)
        ensures
            r == (Rgb { r: 0x00, g: 0x00, b: 0x00 }),
    {
        Rgb { r: 0x00, g: 0x00, b: 0x00 }
    }
}

/// A unique ID assigned by Altium to each element in a design: either an
/// 8-byte ASCII token, or the 128 bits of a UUID.
#[derive(Clone, Copy, Debug, PartialEq, Eq)]
pub enum UniqueId {
    /// Altium's old style string unique ID.
    Simple([u8; 8]),
    /// UUID style, used by some newer files; the UUID's 128-bit value.
    Uuid(u128),
}

impl Default for UniqueId {
    fn default() -> (r: Self)
        ensures
            r == UniqueId::Simple([0x30u8, 0x30u8, 0x30u8, 0x30u8, 0x30u8, 0x30u8, 0x30u8, 0x30u8]),
    {
        UniqueId::Simple([0x30u8, 0x30u8, 0x30u8, 0x30u8, 0x30u8, 0x30u8, 0x30u8, 0x30u8])
    }
}

/// Whether two byte slices hold the same bytes.
pub fn bytes_eq(a: &[u8], b: &[u8]) -> (r: bool)
    ensures
        r == (a@ == b@),
{
    if a.len() != b.len() {
        assert(a@ != b@);
        return false;
    }
    let mut i: usize = 0;
    while i < a.len()
        invariant
            0 <= i <= a.len(),
            a@.len() == b@.len(),
            forall|j: int| 0 <= j < i ==> a@[j] == b@[j],
        decreases a.len() - i,
    {
        if a[i] != b[i] {
            return false;
        }
        i += 1;
    }
    assert(a@ =~= b@);
    true
}

/// Whether `s` starts with `prefix`.
pub fn bytes_starts_with(s: &[u8], prefix: &[u8]) -> (r: bool)
    ensures
        r == (s@.len() >= prefix@.len() && s@.take(prefix@.len() as int) == prefix@),
{
    if s.len() < prefix.len() {
        return false;
    }
    let mut i: usize = 0;
    while i < prefix.len()
        invariant
            0 <= i <= prefix.len() <= s.len(),
            forall|j: int| 0 <= j < i ==> s@[j] == prefix@[j],
        decreases prefix.len() - i,
    {
        if s[i] != prefix[i] {
            assert(s@.take(prefix@.len() as int)[i as int] != prefix@[i as int]);
            return false;
        }
        i += 1;
    }
    assert(s@.take(prefix@.len() as int) =~= prefix@);
    true
}

/// The position of the first occurrence of `sep` in `buf`, if any.
pub open spec fn spec_find(buf: Seq<u8>, sep: u8) -> Option<int>
    decreases buf.len(),
{
    if buf.len() == 0 {
        None
    } else if buf[0] == sep {
        Some(0)
    } else {
        match spec_find(buf.skip(1), sep) {
            None => None,
            Some(i) => Some(i + 1),
        }
    }
}

/// What the first occurrence is: in bounds, the separator, and nothing like
/// it before.
pub proof fn lemma_find_bounds(buf: Seq<u8>, sep: u8)
    ensures
        match spec_find(buf, sep) {
            Some(i) => 0 <= i < buf.len() && buf[i] == sep && (forall|j: int|
                0 <= j < i ==> buf[j] != sep),
            None => forall|j: int| 0 <= j < buf.len() ==> buf[j] != sep,
        },
    decreases buf.len(),
{
    if buf.len() > 0 && buf[0] != sep {
        lemma_find_bounds(buf.skip(1), sep);
        assert forall|j: int| 1 <= j < buf.len() implies buf[j] == buf.skip(1)[j - 1] by {}
    }
}

/// Dropping a separator-free prefix shifts the first occurrence.
proof fn lemma_find_skip(buf: Seq<u8>, sep: u8, i: int)
    requires
        0 <= i <= buf.len(),
        forall|j: int| 0 <= j < i ==> buf[j] != sep,
    ensures
        spec_find(buf, sep) == match spec_find(buf.skip(i), sep) {
            None => None::<int>,
            Some(k) => Some(k + i),
        },
    decreases i,
{
    if i == 0 {
        assert(buf.skip(0) =~= buf);
    } else {
        assert(buf.len() > 0 && buf[0] != sep);
        lemma_find_skip(buf.skip(1), sep, i - 1);
        assert(buf.skip(1).skip(i - 1) =~= buf.skip(i));
    }
}

/// Find the first occurrence of `sep` in `buf`.
pub fn find_byte(buf: &[u8], sep: u8) -> (r: Option<usize>)
    ensures
        match r {
            Some(i) => spec_find(buf@, sep) == Some(i as int) && 0 <= i < buf@.len()
                && buf@[i as int] == sep,
            None => spec_find(buf@, sep) is None,
        },
{
    let mut i: usize = 0;
    while i < buf.len()
        invariant
            0 <= i <= buf.len(),
            forall|j: int| 0 <= j < i ==> buf@[j] != sep,
        decreases buf.len() - i,
    {
        if buf[i] == sep {
            proof {
                lemma_find_skip(buf@, sep, i as int);
                assert(buf@.skip(i as int)[0] == sep);
            }
            return Some(i);
        }
        i += 1;
    }
    proof {
        lemma_find_skip(buf@, sep, buf@.len() as int);
        assert(buf@.skip(buf@.len() as int) =~= Seq::<u8>::empty());
    }
    None
}

/// Split at the first instance of a value.  The separator itself is dropped.
pub fn split_once(buf: &[u8], split: u8) -> (r: Option<(Vec<u8>, Vec<u8>)>)
    ensures
        match r {
            Some(pair) => {
                &&& spec_find(buf@, split) is Some
                &&& pair.0@ == buf@.take(spec_find(buf@, split)->0)
                &&& pair.1@ == buf@.skip(spec_find(buf@, split)->0 + 1)
            },
            None => spec_find(buf@, split) is None,
        },
{
    match find_byte(buf, split) {
        None => None,
        Some(pos) => {
            let n = buf.len();
            assert(pos < n);
            let head = slice_to_vec_range(buf, 0, pos);
            let tail = slice_to_vec_range(buf, pos + 1, n);
            assert(head@ =~= buf@.take(pos as int));
            assert(tail@ =~= buf@.skip(pos as int + 1));
            Some((head, tail))
        },
    }
}

/// Copy `buf[lo..hi]` into a fresh vector.
pub fn slice_to_vec_range(buf: &[u8], lo: usize, hi: usize) -> (r: Vec<u8>)
    requires
        lo <= hi <= buf@.len(),
    ensures
        r@ == buf@.subrange(lo as int, hi as int),
{
    let mut out: Vec<u8> = Vec::new();
    let mut i: usize = lo;
    while i < hi
        invariant
            lo <= i <= hi <= buf@.len(),
            out@ =~= buf@.subrange(lo as int, i as int),
        decreases hi - i,
    {
        out.push(buf[i]);
        assert(out@ =~= buf@.subrange(lo as int, i as int + 1));
        i += 1;
    }
    out
}

/// The raw segments of `b` split on `|`, empties included.
pub open spec fn spec_split_raw(b: Seq<u8>) -> Seq<Seq<u8>>
    decreases b.len(),
{
    match spec_find(b, spec_sep()) {
        None => seq![b],
        Some(i) => if 0 <= i < b.len() {
            seq![b.take(i)] + spec_split_raw(b.skip(i + 1))
        } else {
            seq![b]
        },
    }
}

/// A segment as a key-value pair: split at the first `=`, if there is one.
pub open spec fn spec_seg_pair(seg: Seq<u8>) -> Option<(Seq<u8>, Seq<u8>)> {
    match spec_find(seg, spec_kv_sep()) {
        None => None,
        Some(i) => Some((seg.take(i), seg.skip(i + 1))),
    }
}

/// The key-value pairs of a segment list: empty segments are skipped, and a
/// nonempty segment without `=` is a format error.
pub open spec fn spec_pairs_of_segments(segs: Seq<Seq<u8>>) -> Option<Seq<(Seq<u8>, Seq<u8>)>>
    decreases segs.len(),
{
    if segs.len() == 0 {
        Some(seq![])
    } else {
        let rest = spec_pairs_of_segments(segs.skip(1));
        if segs[0].len() == 0 {
            rest
        } else {
            match spec_seg_pair(segs[0]) {
                None => None,
                Some(p) => match rest {
                    None => None,
                    Some(r) => Some(seq![p] + r),
                },
            }
        }
    }
}

/// The key-value pairs of a `|Key=Value|...` blob, or nothing when some
/// nonempty segment lacks a `=`.
pub open spec fn spec_altium_pairs(b: Seq<u8>) -> Option<Seq<(Seq<u8>, Seq<u8>)>> {
    spec_pairs_of_segments(spec_split_raw(b))
}

/// The views of a decoded pair list.
pub open spec fn pairs_view(v: Seq<(Vec<u8>, Vec<u8>)>) -> Seq<(Seq<u8>, Seq<u8>)>
    decreases v.len(),
{
    if v.len() == 0 {
        Seq::empty()
    } else {
        pairs_view(v.drop_last()).push((v.last().0@, v.last().1@))
    }
}

/// Unfolding the segment-pair fold over a cons of segment lists.
proof fn lemma_pairs_cons(a: Seq<u8>, ss: Seq<Seq<u8>>)
    ensures
        spec_pairs_of_segments(seq![a] + ss) == (if a.len() == 0 {
            spec_pairs_of_segments(ss)
        } else {
            match spec_seg_pair(a) {
                None => None,
                Some(p) => match spec_pairs_of_segments(ss) {
                    None => None,
                    Some(r) => Some(seq![p] + r),
                },
            }
        }),
{
    let segs = seq![a] + ss;
    assert(segs[0] == a);
    assert(segs.skip(1) =~= ss);
}

/// An empty blob holds no pairs.
proof fn lemma_pairs_empty()
    ensures
        spec_altium_pairs(Seq::<u8>::empty()) == Some(Seq::<(Seq<u8>, Seq<u8>)>::empty()),
{
    let e = Seq::<u8>::empty();
    assert(spec_find(e, spec_sep()) is None);
    assert(spec_split_raw(e) == seq![e]);
    assert(seq![e] =~= seq![e] + Seq::<Seq<u8>>::empty());
    lemma_pairs_cons(e, Seq::<Seq<u8>>::empty());
}

/// Altium uses the format `Key1=Val1|Key2=Val2|...`; this handles that.
///
/// Yields the `(key, value)` pairs of the blob; empty segments are skipped,
/// and a nonempty segment without `=` is a format error.
#[verifier::rlimit(100)]
pub fn split_altium_map(buf: &[u8]) -> (r: Result<Vec<(Vec<u8>, Vec<u8>)>, ErrorKind>)
    ensures
        r is Ok <==> spec_altium_pairs(buf@) is Some,
        r is Ok ==> pairs_view(r->Ok_0@) == spec_altium_pairs(buf@)->0,
        r is Err ==> r->Err_0 is RequiredSplit,
{
    let mut acc: Vec<(Vec<u8>, Vec<u8>)> = Vec::new();
    let mut rest: &[u8] = buf;
    let mut done = false;
    while !done
        invariant
            done ==> spec_altium_pairs(rest@) == Some(Seq::<(Seq<u8>, Seq<u8>)>::empty()),
            spec_altium_pairs(buf@) == match spec_altium_pairs(rest@) {
                None => None::<Seq<(Seq<u8>, Seq<u8>)>>,
                Some(tail) => Some(pairs_view(acc@) + tail),
            },
        decreases rest@.len() + if done { 0int } else { 1int },
    {
        let ghost prev = rest@;
        let seg: &[u8];
        match find_byte(rest, 0x7c) {
            Some(i) => {
                let n = rest.len();
                seg = &rest[0..i];
                rest = &rest[i + 1..n];
                proof {
                    assert(seg@ =~= prev.take(i as int));
                    assert(rest@ =~= prev.skip(i as int + 1));
                    assert(spec_split_raw(prev) == seq![seg@] + spec_split_raw(rest@));
                    lemma_pairs_cons(seg@, spec_split_raw(rest@));
                }
            },
            None => {
                seg = rest;
                rest = &[];
                done = true;
                proof {
                    assert(spec_split_raw(prev) == seq![seg@]);
                    assert(seq![seg@] =~= seq![seg@] + Seq::<Seq<u8>>::empty());
                    lemma_pairs_cons(seg@, Seq::<Seq<u8>>::empty());
                    assert(rest@ =~= Seq::<u8>::empty());
                    lemma_pairs_empty();
                }
            },
        }
        if seg.len() > 0 {
            match find_byte(seg, 0x3d) {
                Some(j) => {
                    let key = slice_to_vec_range(seg, 0, j);
                    let value = slice_to_vec_range(seg, j + 1, seg.len());
                    proof {
                        assert(key@ =~= seg@.take(j as int));
                        assert(value@ =~= seg@.skip(j as int + 1));
                        assert(spec_seg_pair(seg@) == Some((key@, value@)));
                    }
                    let ghost old_acc = acc@;
                    acc.push((key, value));
                    proof {
                        assert(acc@.drop_last() =~= old_acc);
                        assert(pairs_view(acc@) == pairs_view(old_acc).push((key@, value@)));
                        if spec_altium_pairs(rest@) is Some {
                            assert(pairs_view(old_acc) + (seq![(key@, value@)]
                                + spec_altium_pairs(rest@)->0) =~= pairs_view(acc@)
                                + spec_altium_pairs(rest@)->0);
                        }
                    }
                },
                None => {
                    assert(spec_altium_pairs(buf@) is None);
                    return Err(ErrorKind::RequiredSplit(
                        crate::outside::string_from_utf8_lossy(buf),
                    ));
                },
            }
        }
    }
    proof {
        assert(pairs_view(acc@) + Seq::<(Seq<u8>, Seq<u8>)>::empty() =~= pairs_view(acc@));
    }
    Ok(acc)
}

/// Whether `s` contains no occurrence of byte `b`.
pub open spec fn spec_free_of(s: Seq<u8>, b: u8) -> bool {
    forall|i: int| 0 <= i < s.len() ==> s[i] != b
}

/// One pair as wire text: key, `=`, value.
pub open spec fn spec_join_pair(p: (Seq<u8>, Seq<u8>)) -> Seq<u8> {
    p.0 + seq![spec_kv_sep()] + p.1
}

/// Pairs joined with `=` within a pair and `|` between pairs.
pub open spec fn spec_join_pairs(pairs: Seq<(Seq<u8>, Seq<u8>)>) -> Seq<u8>
    decreases pairs.len(),
{
    if pairs.len() == 0 {
        Seq::empty()
    } else if pairs.len() == 1 {
        spec_join_pair(pairs[0])
    } else {
        spec_join_pair(pairs[0]) + seq![spec_sep()] + spec_join_pairs(pairs.skip(1))
    }
}

/// Pairs that join cleanly: no piece is empty, keys hold neither separator,
/// and values hold no pair separator.
pub open spec fn spec_clean_pairs(pairs: Seq<(Seq<u8>, Seq<u8>)>) -> bool {
    forall|i: int| 0 <= i < pairs.len() ==> {
        &&& (#[trigger] pairs[i]).0.len() > 0
        &&& pairs[i].1.len() > 0
        &&& spec_free_of(pairs[i].0, spec_sep())
        &&& spec_free_of(pairs[i].0, spec_kv_sep())
        &&& spec_free_of(pairs[i].1, spec_sep())
    }
}

/// A clean segment splits back into its key and value.
proof fn lemma_seg_roundtrip(k: Seq<u8>, v: Seq<u8>)
    requires
        spec_free_of(k, spec_kv_sep()),
    ensures
        spec_seg_pair(k + seq![spec_kv_sep()] + v) == Some((k, v)),
{
    let j = k + seq![spec_kv_sep()] + v;
    assert forall|t: int| 0 <= t < k.len() implies j[t] != spec_kv_sep() by {
        assert(j[t] == k[t]);
    }
    lemma_find_skip(j, spec_kv_sep(), k.len() as int);
    assert(j.skip(k.len() as int)[0] == spec_kv_sep());
    assert(spec_find(j, spec_kv_sep()) == Some(k.len() as int));
    assert(j.take(k.len() as int) =~= k);
    assert(j.skip(k.len() as int + 1) =~= v);
}

/// A clean segment holds no pair separator.
proof fn lemma_seg_sep_free(k: Seq<u8>, v: Seq<u8>)
    requires
        spec_free_of(k, spec_sep()),
        spec_free_of(v, spec_sep()),
    ensures
        spec_free_of(k + seq![spec_kv_sep()] + v, spec_sep()),
{
    let j = k + seq![spec_kv_sep()] + v;
    assert forall|t: int| 0 <= t < j.len() implies j[t] != spec_sep() by {
        if t < k.len() {
            assert(j[t] == k[t]);
        } else if t == k.len() {
            assert(j[t] == spec_kv_sep());
        } else {
            assert(j[t] == v[t - k.len() - 1]);
        }
    }
}

/// Round trip of the map splitter: joining `(key, value)` pairs with `=` and
/// `|`, with no empty or missing pieces, then splitting yields the original
/// sequence of pairs.
pub proof fn lemma_split_of_join(pairs: Seq<(Seq<u8>, Seq<u8>)>)
    requires
        spec_clean_pairs(pairs),
    ensures
        spec_altium_pairs(spec_join_pairs(pairs)) == Some(pairs),
    decreases pairs.len(),
{
    if pairs.len() == 0 {
        lemma_pairs_empty();
        assert(spec_join_pairs(pairs) =~= Seq::<u8>::empty());
        assert(pairs =~= Seq::<(Seq<u8>, Seq<u8>)>::empty());
    } else if pairs.len() == 1 {
        let k = pairs[0].0;
        let v = pairs[0].1;
        let j = spec_join_pairs(pairs);
        assert(j == k + seq![spec_kv_sep()] + v);
        lemma_seg_sep_free(k, v);
        lemma_find_bounds(j, spec_sep());
        assert(spec_find(j, spec_sep()) is None);
        assert(spec_split_raw(j) == seq![j]);
        assert(seq![j] =~= seq![j] + Seq::<Seq<u8>>::empty());
        lemma_pairs_cons(j, Seq::<Seq<u8>>::empty());
        lemma_seg_roundtrip(k, v);
        assert(j.len() > 0);
        assert(seq![(k, v)] + Seq::<(Seq<u8>, Seq<u8>)>::empty() =~= pairs);
    } else {
        let k = pairs[0].0;
        let v = pairs[0].1;
        let seg = k + seq![spec_kv_sep()] + v;
        let tail = spec_join_pairs(pairs.skip(1));
        let j = spec_join_pairs(pairs);
        assert(j == seg + seq![spec_sep()] + tail);
        lemma_seg_sep_free(k, v);
        assert forall|t: int| 0 <= t < seg.len() implies j[t] != spec_sep() by {
            assert(j[t] == seg[t]);
        }
        lemma_find_skip(j, spec_sep(), seg.len() as int);
        assert(j.skip(seg.len() as int)[0] == spec_sep());
        assert(spec_find(j, spec_sep()) == Some(seg.len() as int));
        assert(j.take(seg.len() as int) =~= seg);
        assert(j.skip(seg.len() as int + 1) =~= tail);
        assert(spec_split_raw(j) == seq![seg] + spec_split_raw(tail));
        lemma_pairs_cons(seg, spec_split_raw(tail));
        lemma_seg_roundtrip(k, v);
        assert(spec_clean_pairs(pairs.skip(1))) by {
            assert(forall|i: int| 0 <= i < pairs.skip(1).len()
                ==> #[trigger] pairs.skip(1)[i] == pairs[i + 1]);
        }
        lemma_split_of_join(pairs.skip(1));
        assert(seg.len() > 0);
        assert(seq![(k, v)] + pairs.skip(1) =~= pairs);
    }
}

/// The views of the pairs, index by index.
pub proof fn lemma_pairs_view(v: Seq<(Vec<u8>, Vec<u8>)>)
    ensures
        pairs_view(v).len() == v.len(),
        forall|i: int| 0 <= i < v.len() ==> #[trigger] pairs_view(v)[i] == (v[i].0@, v[i].1@),
    decreases v.len(),
{
    if v.len() > 0 {
        lemma_pairs_view(v.drop_last());
        assert(forall|i: int| 0 <= i < v.len() - 1 ==> v.drop_last()[i] == v[i]);
    }
}

/// Texts with the same UTF-8 encoding are the same text.
pub proof fn lemma_str_bytes_eq(a: Seq<char>, b: Seq<char>)
    requires
        vstd::utf8::encode_utf8(a) == vstd::utf8::encode_utf8(b),
    ensures
        a == b,
{
    vstd::utf8::encode_utf8_decode_utf8(a);
    vstd::utf8::encode_utf8_decode_utf8(b);
}

/// Texts with different UTF-8 encodings differ.
pub proof fn lemma_str_bytes_neq(a: Seq<char>, b: Seq<char>)
    requires
        vstd::utf8::encode_utf8(a) != vstd::utf8::encode_utf8(b),
    ensures
        a != b,
{
}

/// A quick lossy string for diagnostics: the exact text on valid UTF-8.
pub fn buf2lstr(buf: &[u8]) -> (r: String)
    ensures
        r@ == crate::outside::lossy_decode(buf@),
        vstd::utf8::valid_utf8(buf@) ==> r@ == vstd::utf8::decode_utf8(buf@),
{
    string_from_utf8_lossy(buf)
}

/// Decode a byte run as UTF-8, reporting a preview of the bytes on failure.
pub fn str_from_utf8(buf: &[u8]) -> (r: Result<String, ErrorKind>)
    ensures
        r is Ok <==> vstd::utf8::valid_utf8(buf@),
        r is Ok ==> r->Ok_0@ == vstd::utf8::decode_utf8(buf@),
        r is Err ==> r->Err_0 is Utf8,
{
    match string_from_utf8(buf) {
        Some(s) => Ok(s),
        None => Err(ErrorKind::Utf8(string_from_utf8_lossy(buf))),
    }
}

/// The part of `s` after `prefix` and an optional `-`.
pub open spec fn spec_number_digits(s: Seq<u8>, prefix: Seq<u8>) -> Seq<u8> {
    let stripped = s.skip(prefix.len() as int);
    if stripped.len() > 0 && stripped[0] == 0x2d {
        stripped.skip(1)
    } else {
        stripped
    }
}

/// Whether `s` is `prefix`, an optional `-`, and then only ASCII digits
/// (possibly none), e.g. `X100`.
pub open spec fn spec_is_number_pattern(s: Seq<u8>, prefix: Seq<u8>) -> bool {
    &&& s.len() >= prefix.len()
    &&& s.take(prefix.len() as int) == prefix
    &&& crate::parse::all_digits(spec_number_digits(s, prefix))
}

/// Verify a number pattern matches, e.g. `X100`.
#[verifier::loop_isolation(false)]
pub fn is_number_pattern(s: &[u8], prefix: &[u8]) -> (r: bool)
    ensures
        r == spec_is_number_pattern(s@, prefix@),
{
    if !bytes_starts_with(s, prefix) {
        return false;
    }
    let ghost stripped = s@.skip(prefix@.len() as int);
    let ghost digits = spec_number_digits(s@, prefix@);
    let mut i: usize = prefix.len();
    if i < s.len() && s[i] == 0x2d {
        proof {
            assert(stripped.len() > 0 && stripped[0] == 0x2d);
            assert(stripped.skip(1) =~= s@.skip(prefix@.len() as int + 1));
        }
        i += 1;
        assert(digits =~= s@.skip(i as int));
    } else {
        proof {
            if stripped.len() > 0 {
                assert(stripped[0] == s@[prefix@.len() as int]);
            }
        }
        assert(digits =~= s@.skip(i as int));
    }
    let mut j: usize = i;
    while j < s.len()
        invariant
            i <= j <= s@.len(),
            i <= s@.len(),
            digits =~= s@.skip(i as int),
            forall|k: int| 0 <= k < j - i ==> crate::parse::is_ascii_digit(#[trigger] digits[k]),
        decreases s.len() - j,
    {
        let b = s[j];
        if !(b >= 0x30 && b <= 0x39) {
            proof {
                assert(0 <= j - i < digits.len());
                assert(digits[j - i] == s@[j as int]);
                assert(b == s@[j as int]);
                assert(b < 0x30 || b > 0x39);
                assert(!crate::parse::is_ascii_digit(b));
                assert(!crate::parse::is_ascii_digit(digits[j - i]));
                assert(!crate::parse::all_digits(digits));
            }
            return false;
        }
        assert(digits[j - i] == s@[j as int]);
        assert(crate::parse::is_ascii_digit(digits[j - i]));
        j += 1;
    }
    assert forall|k: int| 0 <= k < digits.len() implies crate::parse::is_ascii_digit(
        #[trigger] digits[k],
    ) by {
        assert(digits[k] == s@[i + k]);
    }
    assert(crate::parse::all_digits(digits));
    true
}

/// Convert mils to nanometers: `nm = mils * 25400`, checked.
pub fn mils_to_nm(mils: i64) -> (r: Result<i64, ErrorKind>)
    ensures
        r is Ok <==> i64::MIN <= mils * 25400 <= i64::MAX,
        r is Ok ==> r->Ok_0 == mils * 25400,
        r is Err ==> r->Err_0 == ErrorKind::Overflow(mils, 25400i64, '*'),
{
    if mils >= -363124883340739i64 && mils <= 363124883340739i64 {
        proof {
            assert(mils * 25400 <= 363124883340739i64 * 25400) by (nonlinear_arith)
                requires mils <= 363124883340739i64;
            assert(mils * 25400 >= (-363124883340739i64) * 25400) by (nonlinear_arith)
                requires mils >= -363124883340739i64;
        }
        Ok(mils * 25400)
    } else {
        proof {
            if mils > 363124883340739i64 {
                assert(mils * 25400 > 363124883340739i64 * 25400) by (nonlinear_arith)
                    requires mils > 363124883340739i64;
            } else {
                assert(mils * 25400 < (-363124883340739i64) * 25400) by (nonlinear_arith)
                    requires mils < -363124883340739i64;
            }
        }
        Err(ErrorKind::Overflow(mils, 25400i64, '*'))
    }
}

/// Convert mils to nanometers within `i32`, as locations are stored.
pub fn mils_to_nm_i32(mils: i32) -> (r: Result<i32, ErrorKind>)
    ensures
        r is Ok <==> i32::MIN <= mils * 25400 <= i32::MAX,
        r is Ok ==> r->Ok_0 == mils * 25400,
        r is Err ==> r->Err_0 == ErrorKind::Overflow(mils as i64, 25400i64, '*'),
{
    if mils >= -84546i32 && mils <= 84546i32 {
        proof {
            assert(mils * 25400 <= 84546i32 * 25400) by (nonlinear_arith)
                requires mils <= 84546i32;
            assert(mils * 25400 >= (-84546i32) * 25400) by (nonlinear_arith)
                requires mils >= -84546i32;
        }
        Ok(mils * 25400)
    } else {
        proof {
            if mils > 84546i32 {
                assert(mils * 25400 > 84546i32 * 25400) by (nonlinear_arith)
                    requires mils > 84546i32;
            } else {
                assert(mils * 25400 < (-84546i32) * 25400) by (nonlinear_arith)
                    requires mils < -84546i32;
            }
        }
        Err(ErrorKind::Overflow(mils as i64, 25400i64, '*'))
    }
}

/// Convert mils to nanometers within `u32`, as lengths are stored.
pub fn mils_to_nm_u32(mils: u32) -> (r: Result<u32, ErrorKind>)
    ensures
        r is Ok <==> mils * 25400 <= u32::MAX,
        r is Ok ==> r->Ok_0 == mils * 25400,
        r is Err ==> r->Err_0 == ErrorKind::Overflow(mils as i64, 25400i64, '*'),
{
    if mils <= 169093u32 {
        proof {
            assert(mils * 25400 <= 169093u32 * 25400) by (nonlinear_arith)
                requires mils <= 169093u32;
        }
        Ok(mils * 25400)
    } else {
        proof {
            assert(mils * 25400 > 169093u32 * 25400) by (nonlinear_arith)
                requires mils > 169093u32;
        }
        Err(ErrorKind::Overflow(mils as i64, 25400i64, '*'))
    }
}

} // verus!
