//! Decoders for ASCII-encoded scalars and for length-prefixed binary buffers.

use vstd::prelude::*;

use crate::common::{bytes_eq, Rgb, UniqueId};
use crate::error::{ErrorKind, TruncBuf};
use crate::outside::{string_from_utf8_lossy, uuid_from_ascii, uuid_of};

verus! {

pub open spec fn is_ascii_digit(b: u8) -> bool {
    0x30 <= b <= 0x39
}

pub open spec fn all_digits(s: Seq<u8>) -> bool {
    forall|i: int| 0 <= i < s.len() ==> is_ascii_digit(#[trigger] s[i])
}

/// The value of a run of ASCII digits.
pub open spec fn dec_val(s: Seq<u8>) -> int
    decreases s.len(),
{
    if s.len() == 0 {
        0
    } else {
        dec_val(s.drop_last()) * 10 + (s.last() - 0x30)
    }
}

/// The digit run of an unsigned numeral: everything after an optional `+`.
pub open spec fn uint_digits(s: Seq<u8>) -> Seq<u8> {
    if s.len() > 0 && s[0] == 0x2b {
        s.skip(1)
    } else {
        s
    }
}

/// Whether `s` is a numeral that the unsigned decimal parsers accept:
/// an optional `+`, then one or more digits.
pub open spec fn is_uint_text(s: Seq<u8>) -> bool {
    uint_digits(s).len() > 0 && all_digits(uint_digits(s))
}

pub open spec fn uint_val(s: Seq<u8>) -> int {
    dec_val(uint_digits(s))
}

/// The digit run of a signed numeral: everything after an optional sign.
pub open spec fn int_digits(s: Seq<u8>) -> Seq<u8> {
    if s.len() > 0 && (s[0] == 0x2b || s[0] == 0x2d) {
        s.skip(1)
    } else {
        s
    }
}

/// Whether `s` is a numeral that the signed decimal parsers accept:
/// an optional `+` or `-`, then one or more digits.
pub open spec fn is_int_text(s: Seq<u8>) -> bool {
    int_digits(s).len() > 0 && all_digits(int_digits(s))
}

pub open spec fn int_val(s: Seq<u8>) -> int {
    if s.len() > 0 && s[0] == 0x2d {
        -dec_val(int_digits(s))
    } else {
        dec_val(int_digits(s))
    }
}

proof fn lemma_dec_val_nonneg(s: Seq<u8>)
    requires
        all_digits(s),
    ensures
        dec_val(s) >= 0,
    decreases s.len(),
{
    if s.len() > 0 {
        assert(all_digits(s.drop_last()));
        lemma_dec_val_nonneg(s.drop_last());
    }
}

proof fn lemma_dec_val_step(s: Seq<u8>, i: int)
    requires
        0 <= i < s.len(),
    ensures
        dec_val(s.take(i + 1)) == dec_val(s.take(i)) * 10 + (s[i] - 0x30),
{
    assert(s.take(i + 1).drop_last() =~= s.take(i));
    assert(s.take(i + 1).last() == s[i]);
}

/// Extending a digit run can only grow its value.
proof fn lemma_dec_val_grows(s: Seq<u8>, i: int)
    requires
        all_digits(s),
        0 <= i <= s.len(),
    ensures
        dec_val(s) >= dec_val(s.take(i)),
    decreases s.len() - i,
{
    lemma_dec_val_nonneg(s.take(i));
    if i == s.len() {
        assert(s.take(i) =~= s);
    } else {
        lemma_dec_val_step(s, i);
        assert(dec_val(s.take(i)) * 10 >= dec_val(s.take(i))) by (nonlinear_arith)
            requires dec_val(s.take(i)) >= 0;
        lemma_dec_val_grows(s, i + 1);
    }
}

/// The value of the digit run `s[from..]`, capped at `max`.
///
/// Returns the value exactly when the run is nonempty, all digits, and its
/// value is at most `max`.
fn parse_digits_max(s: &[u8], from: usize, max: u64) -> (r: Option<u64>)
    requires
        from <= s@.len(),
    ensures
        r is Some <==> {
            &&& s@.skip(from as int).len() > 0
            &&& all_digits(s@.skip(from as int))
            &&& dec_val(s@.skip(from as int)) <= max
        },
        r is Some ==> r->0 == dec_val(s@.skip(from as int)),
{
    let ghost d = s@.skip(from as int);
    if from == s.len() {
        return None;
    }
    let mut value: u64 = 0;
    let mut i: usize = from;
    while i < s.len()
        invariant
            from <= i <= s@.len(),
            d == s@.skip(from as int),
            all_digits(d.take(i - from)),
            value == dec_val(d.take(i - from)),
            value <= max,
        decreases s@.len() - i,
    {
        let b = s[i];
        assert(d[i - from] == b);
        if !(b >= 0x30 && b <= 0x39) {
            return None;
        }
        let digit: u64 = (b - 0x30) as u64;
        proof {
            lemma_dec_val_step(d, i - from);
            assert(all_digits(d.take(i - from + 1)));
        }
        if value > max / 10 || (value == max / 10 && digit > max % 10) {
            proof {
                assert(value * 10 + digit > max) by (nonlinear_arith)
                    requires
                        value > max / 10 || (value == max / 10 && digit > max % 10),
                        max / 10 == ((max as int) - (max as int) % 10) / 10,
                        0 <= max % 10 < 10,
                        max == (max / 10) * 10 + max % 10,
                        digit < 10,
                        value >= 0;
                assert(dec_val(d.take(i - from + 1)) > max);
                if all_digits(d) {
                    lemma_dec_val_grows(d, i - from + 1);
                }
            }
            return None;
        }
        proof {
            assert(value * 10 + digit <= max) by (nonlinear_arith)
                requires
                    value <= max / 10,
                    !(value == max / 10 && digit > max % 10),
                    max == (max / 10) * 10 + max % 10,
                    0 <= max % 10 < 10,
                    digit < 10,
                    value >= 0;
        }
        value = value * 10 + digit;
        i += 1;
    }
    assert(d.take(i - from) =~= d);
    Some(value)
}

/// Parse an unsigned decimal numeral, as the natural number parsers do:
/// an optional `+`, then digits, with `max` the type's largest value.
fn parse_uint_max(buf: &[u8], max: u64) -> (r: Option<u64>)
    ensures
        r is Some <==> is_uint_text(buf@) && uint_val(buf@) <= max,
        r is Some ==> r->0 == uint_val(buf@),
{
    let from: usize = if buf.len() > 0 && buf[0] == 0x2b {
        1
    } else {
        0
    };
    assert(buf@.skip(from as int) == uint_digits(buf@));
    parse_digits_max(buf, from, max)
}

/// Parse a signed decimal numeral: an optional sign, then digits, with the
/// inclusive bounds of the target type.
fn parse_int_range(buf: &[u8], min_neg_mag: u64, max: u64) -> (r: Option<i64>)
    requires
        min_neg_mag <= i64::MAX as u64 + 1,
        max <= i64::MAX as u64,
    ensures
        r is Some <==> is_int_text(buf@) && -(min_neg_mag as int) <= int_val(buf@) <= max,
        r is Some ==> r->0 == int_val(buf@),
{
    if buf.len() > 0 && buf[0] == 0x2d {
        assert(buf@.skip(1) == int_digits(buf@));
        match parse_digits_max(buf, 1, min_neg_mag) {
            Some(v) => {
                proof {
                    lemma_dec_val_nonneg(int_digits(buf@));
                }
                if v == 0 {
                    Some(0)
                } else {
                    Some(-((v - 1) as i64) - 1)
                }
            },
            None => None,
        }
    } else {
        let from: usize = if buf.len() > 0 && buf[0] == 0x2b {
            1
        } else {
            0
        };
        assert(buf@.skip(from as int) == int_digits(buf@));
        match parse_digits_max(buf, from, max) {
            Some(v) => Some(v as i64),
            None => None,
        }
    }
}

/// The error the integer parsers report: the text kept lossily.
fn expected_int(buf: &[u8]) -> (r: ErrorKind)
    ensures
        r is ExpectedInt,
{
    ErrorKind::ExpectedInt(string_from_utf8_lossy(buf))
}

pub fn parse_u8(buf: &[u8]) -> (r: Result<u8, ErrorKind>)
    ensures
        r is Ok <==> is_uint_text(buf@) && uint_val(buf@) <= u8::MAX,
        r is Ok ==> r->Ok_0 == uint_val(buf@),
        r is Err ==> r->Err_0 is ExpectedInt,
{
    match parse_uint_max(buf, 255) {
        Some(v) => Ok(v as u8),
        None => Err(expected_int(buf)),
    }
}

pub fn parse_u16(buf: &[u8]) -> (r: Result<u16, ErrorKind>)
    ensures
        r is Ok <==> is_uint_text(buf@) && uint_val(buf@) <= u16::MAX,
        r is Ok ==> r->Ok_0 == uint_val(buf@),
        r is Err ==> r->Err_0 is ExpectedInt,
{
    match parse_uint_max(buf, 65535) {
        Some(v) => Ok(v as u16),
        None => Err(expected_int(buf)),
    }
}

pub fn parse_u32(buf: &[u8]) -> (r: Result<u32, ErrorKind>)
    ensures
        r is Ok <==> is_uint_text(buf@) && uint_val(buf@) <= u32::MAX,
        r is Ok ==> r->Ok_0 == uint_val(buf@),
        r is Err ==> r->Err_0 is ExpectedInt,
{
    match parse_uint_max(buf, 4294967295) {
        Some(v) => Ok(v as u32),
        None => Err(expected_int(buf)),
    }
}

pub fn parse_usize(buf: &[u8]) -> (r: Result<usize, ErrorKind>)
    ensures
        r is Ok <==> is_uint_text(buf@) && uint_val(buf@) <= usize::MAX,
        r is Ok ==> r->Ok_0 == uint_val(buf@),
        r is Err ==> r->Err_0 is ExpectedInt,
{
    match parse_uint_max(buf, usize::MAX as u64) {
        Some(v) => Ok(v as usize),
        None => Err(expected_int(buf)),
    }
}

pub fn parse_i8(buf: &[u8]) -> (r: Result<i8, ErrorKind>)
    ensures
        r is Ok <==> is_int_text(buf@) && i8::MIN <= int_val(buf@) <= i8::MAX,
        r is Ok ==> r->Ok_0 == int_val(buf@),
        r is Err ==> r->Err_0 is ExpectedInt,
{
    match parse_int_range(buf, 128, 127) {
        Some(v) => Ok(v as i8),
        None => Err(expected_int(buf)),
    }
}

pub fn parse_i16(buf: &[u8]) -> (r: Result<i16, ErrorKind>)
    ensures
        r is Ok <==> is_int_text(buf@) && i16::MIN <= int_val(buf@) <= i16::MAX,
        r is Ok ==> r->Ok_0 == int_val(buf@),
        r is Err ==> r->Err_0 is ExpectedInt,
{
    match parse_int_range(buf, 32768, 32767) {
        Some(v) => Ok(v as i16),
        None => Err(expected_int(buf)),
    }
}

pub fn parse_i32(buf: &[u8]) -> (r: Result<i32, ErrorKind>)
    ensures
        r is Ok <==> is_int_text(buf@) && i32::MIN <= int_val(buf@) <= i32::MAX,
        r is Ok ==> r->Ok_0 == int_val(buf@),
        r is Err ==> r->Err_0 is ExpectedInt,
{
    match parse_int_range(buf, 2147483648, 2147483647) {
        Some(v) => Ok(v as i32),
        None => Err(expected_int(buf)),
    }
}

/// Whether `s` is the single byte `T` (true) or `F` (false).
pub open spec fn bool_of_text(s: Seq<u8>) -> Option<bool> {
    if s =~= seq![0x54u8] {
        Some(true)
    } else if s =~= seq![0x46u8] {
        Some(false)
    } else {
        None
    }
}

/// `bool` accepts only `T` or `F`.
pub fn parse_bool(buf: &[u8]) -> (r: Result<bool, ErrorKind>)
    ensures
        r is Ok <==> bool_of_text(buf@) is Some,
        r is Ok ==> r->Ok_0 == bool_of_text(buf@)->0,
        r is Err ==> r->Err_0 is ExpectedBool,
{
    if buf.len() == 1 && buf[0] == 0x54 {
        assert(buf@ =~= seq![0x54u8]);
        Ok(true)
    } else if buf.len() == 1 && buf[0] == 0x46 {
        assert(buf@ =~= seq![0x46u8]);
        Ok(false)
    } else {
        proof {
            if buf@ =~= seq![0x54u8] {
                assert(buf@.len() == 1 && buf@[0] == 0x54);
            }
            if buf@ =~= seq![0x46u8] {
                assert(buf@.len() == 1 && buf@[0] == 0x46);
            }
        }
        Err(ErrorKind::ExpectedBool(string_from_utf8_lossy(buf)))
    }
}

impl Rgb {
    /// The color packed into a 24-bit little-endian integer: the low byte is
    /// red, the next green, the next blue.
    pub open spec fn spec_from_packed(num: u32) -> Rgb {
        Rgb {
            r: (num & 0xff) as u8,
            g: ((num >> 8) & 0xff) as u8,
            b: ((num >> 16) & 0xff) as u8,
        }
    }

    /// Parse a color from its decimal packed form.
    pub fn from_utf8(buf: &[u8]) -> (r: Result<Self, ErrorKind>)
        ensures
            r is Ok <==> is_uint_text(buf@) && uint_val(buf@) <= u32::MAX,
            r is Ok ==> r->Ok_0 == Rgb::spec_from_packed(uint_val(buf@) as u32),
            r is Err ==> r->Err_0 is ExpectedInt,
    {
        let num: u32 = parse_u32(buf)?;
        let r8: u8 = #[verifier::truncate] ((num & 0xff) as u8);
        let g8: u8 = #[verifier::truncate] (((num >> 8) & 0xff) as u8);
        let b8: u8 = #[verifier::truncate] (((num >> 16) & 0xff) as u8);
        Ok(Rgb { r: r8, g: g8, b: b8 })
    }
}

impl UniqueId {
    /// What the unique-ID parser yields: any 8 bytes verbatim, else a UUID.
    pub open spec fn spec_from_utf8(s: Seq<u8>) -> Option<UniqueId> {
        if s.len() == 8 {
            Some(UniqueId::Simple([s[0], s[1], s[2], s[3], s[4], s[5], s[6], s[7]]))
        } else if uuid_of(s) is Some {
            Some(UniqueId::Uuid(uuid_of(s)->0))
        } else {
            None
        }
    }

    /// Parse a unique ID: an 8-byte token, or a UUID in ASCII.
    pub fn from_utf8(buf: &[u8]) -> (r: Result<Self, ErrorKind>)
        ensures
            r is Ok <==> UniqueId::spec_from_utf8(buf@) is Some,
            r is Ok ==> r->Ok_0 == UniqueId::spec_from_utf8(buf@)->0,
            r is Err ==> r->Err_0 is InvalidUniqueId,
    {
        if buf.len() == 8 {
            let arr: [u8; 8] = [buf[0], buf[1], buf[2], buf[3], buf[4], buf[5], buf[6], buf[7]];
            Ok(UniqueId::Simple(arr))
        } else {
            match uuid_from_ascii(buf) {
                Some(v) => Ok(UniqueId::Uuid(v)),
                None => Err(ErrorKind::InvalidUniqueId(TruncBuf::new(buf))),
            }
        }
    }
}

/// How the leading bytes of a sized buffer give its length.
#[derive(Clone, Copy, Debug, PartialEq, Eq, Structural)]
pub enum BufLenMatch {
    /// 3-byte length in a 4-byte integer whose upper byte must be 0x01,
    /// used to mark binary data.
    U24UpperOne,
    /// 3-byte length in a 4-byte integer whose upper byte must be 0x00.
    U24UpperZero,
    /// 4-byte little-endian length.
    U32,
    /// Single byte length.
    U8,
}

/// A little-endian 32-bit value from four bytes.
pub open spec fn spec_le4(b0: u8, b1: u8, b2: u8, b3: u8) -> int {
    b0 + 0x100 * b1 + 0x10000 * b2 + 0x1000000 * b3
}

/// The number of header bytes each length mode consumes.
pub open spec fn spec_hdr_len(m: BufLenMatch) -> int {
    match m {
        BufLenMatch::U8 => 1,
        _ => 4,
    }
}

/// Whether the header tag byte is what the mode requires.
pub open spec fn spec_tag_ok(b: Seq<u8>, m: BufLenMatch) -> bool {
    match m {
        BufLenMatch::U24UpperOne => b[3] == 0x01,
        BufLenMatch::U24UpperZero => b[3] == 0x00,
        _ => true,
    }
}

/// The payload length the header announces.
pub open spec fn spec_frame_len(b: Seq<u8>, m: BufLenMatch) -> int {
    match m {
        BufLenMatch::U8 => b[0] as int,
        BufLenMatch::U32 => spec_le4(b[0], b[1], b[2], b[3]),
        _ => spec_le4(b[0], b[1], b[2], 0),
    }
}

/// Whether a buffer carries a complete sized payload in the given mode:
/// enough header bytes, the right tag, the announced number of payload
/// bytes, and, when required, a trailing NUL closing the payload.
pub open spec fn spec_sized_ok(b: Seq<u8>, m: BufLenMatch, expect_nul: bool) -> bool {
    &&& b.len() >= spec_hdr_len(m)
    &&& spec_tag_ok(b, m)
    &&& b.len() >= spec_hdr_len(m) + spec_frame_len(b, m)
    &&& (expect_nul ==> spec_frame_len(b, m) > 0 && b[spec_hdr_len(m) + spec_frame_len(b, m)
        - 1] == 0)
}

/// The payload of a complete sized buffer, without the trailing NUL when one
/// is required.
pub open spec fn spec_sized_data(b: Seq<u8>, m: BufLenMatch, expect_nul: bool) -> Seq<u8> {
    let h = spec_hdr_len(m);
    let l = spec_frame_len(b, m);
    if expect_nul {
        b.subrange(h, h + l - 1)
    } else {
        b.subrange(h, h + l)
    }
}

/// What follows the payload of a complete sized buffer.
pub open spec fn spec_sized_rest(b: Seq<u8>, m: BufLenMatch) -> Seq<u8> {
    b.skip(spec_hdr_len(m) + spec_frame_len(b, m))
}

/// Helper for splitting a fixed-size chunk off the front of a buffer.
pub fn split_chunk<'a>(buf: &'a [u8], n: usize) -> (r: Result<(&'a [u8], &'a [u8]), ErrorKind>)
    ensures
        r is Ok <==> buf@.len() >= n,
        r is Ok ==> r->Ok_0.0@ == buf@.take(n as int) && r->Ok_0.1@ == buf@.skip(n as int),
        r is Err ==> (r->Err_0 matches ErrorKind::BufferTooShort(need, _) && need == n),
{
    if buf.len() < n {
        return Err(ErrorKind::BufferTooShort(n, TruncBuf::new(buf)));
    }
    let head = &buf[0..n];
    let tail = &buf[n..buf.len()];
    assert(head@ =~= buf@.take(n as int));
    assert(tail@ =~= buf@.skip(n as int));
    Ok((head, tail))
}

/// Extract a buffer that starts with a 1-, 3-, or 4-byte length header.
///
/// - `len_match` configures how the leading bytes give the length;
/// - `expect_nul` demands a NUL terminator, which is stripped from the data.
///
/// On success the payload and the remainder of the buffer are returned.
pub fn extract_sized_buf<'a>(buf: &'a [u8], len_match: BufLenMatch, expect_nul: bool) -> (r:
    Result<(&'a [u8], &'a [u8]), ErrorKind>)
    ensures
        r is Ok <==> spec_sized_ok(buf@, len_match, expect_nul),
        r is Ok ==> r->Ok_0.0@ == spec_sized_data(buf@, len_match, expect_nul),
        r is Ok ==> r->Ok_0.1@ == spec_sized_rest(buf@, len_match),
        buf@.len() < spec_hdr_len(len_match) ==> (r->Err_0 matches ErrorKind::BufferTooShort(
            n,
            t,
        ) && n == spec_hdr_len(len_match) && t.orig_len == buf@.len()),
        buf@.len() >= spec_hdr_len(len_match) && !spec_tag_ok(buf@, len_match) ==> r->Err_0
            is InvalidStream,
        buf@.len() >= spec_hdr_len(len_match) && spec_tag_ok(buf@, len_match) && buf@.len()
            < spec_hdr_len(len_match) + spec_frame_len(buf@, len_match) ==> (
        r->Err_0 matches ErrorKind::BufferTooShort(n, t) && n == spec_frame_len(buf@, len_match)
            && t.orig_len == buf@.len() - spec_hdr_len(len_match)),
        r is Err && buf@.len() >= spec_hdr_len(len_match) && spec_tag_ok(buf@, len_match)
            && buf@.len() >= spec_hdr_len(len_match) + spec_frame_len(buf@, len_match)
            ==> r->Err_0 is ExpectedNul,
{
    let hdr: usize = match len_match {
        BufLenMatch::U8 => 1,
        _ => 4,
    };
    if buf.len() < hdr {
        return Err(ErrorKind::BufferTooShort(hdr, TruncBuf::new(buf)));
    }
    let data_len: usize = match len_match {
        BufLenMatch::U8 => buf[0] as usize,
        BufLenMatch::U32 => {
            (buf[0] as usize) + 0x100 * (buf[1] as usize) + 0x10000 * (buf[2] as usize) + 0x1000000
                * (buf[3] as usize)
        },
        BufLenMatch::U24UpperOne => {
            if buf[3] != 0x01 {
                return Err(ErrorKind::new_invalid_stream("sized buffer header", 3));
            }
            (buf[0] as usize) + 0x100 * (buf[1] as usize) + 0x10000 * (buf[2] as usize)
        },
        BufLenMatch::U24UpperZero => {
            if buf[3] != 0x00 {
                return Err(ErrorKind::new_invalid_stream("sized buffer header", 3));
            }
            (buf[0] as usize) + 0x100 * (buf[1] as usize) + 0x10000 * (buf[2] as usize)
        },
    };
    assert(data_len == spec_frame_len(buf@, len_match));
    if buf.len() - hdr < data_len {
        let avail = &buf[hdr..buf.len()];
        return Err(ErrorKind::BufferTooShort(data_len, TruncBuf::new(avail)));
    }
    let data = &buf[hdr..hdr + data_len];
    let rest = &buf[hdr + data_len..buf.len()];
    assert(data@ =~= buf@.subrange(hdr as int, hdr as int + data_len as int));
    assert(rest@ =~= buf@.skip(hdr as int + data_len as int));
    if expect_nul {
        if data_len == 0 || data[data_len - 1] != 0 {
            return Err(ErrorKind::ExpectedNul(TruncBuf::new_end(data)));
        }
        let trimmed = &data[0..data_len - 1];
        assert(trimmed@ =~= buf@.subrange(
            hdr as int,
            hdr as int + spec_frame_len(buf@, len_match) - 1,
        ));
        Ok((trimmed, rest))
    } else {
        Ok((data, rest))
    }
}

/// Extract a sized buffer as UTF-8 text.
pub fn extract_sized_utf8_buf<'a>(buf: &'a [u8], len_match: BufLenMatch, expect_nul: bool) -> (r:
    Result<(String, &'a [u8]), ErrorKind>)
    ensures
        r is Ok <==> spec_sized_ok(buf@, len_match, expect_nul) && vstd::utf8::valid_utf8(
            spec_sized_data(buf@, len_match, expect_nul),
        ),
        r is Ok ==> r->Ok_0.0@ == vstd::utf8::decode_utf8(
            spec_sized_data(buf@, len_match, expect_nul),
        ),
        r is Ok ==> r->Ok_0.1@ == spec_sized_rest(buf@, len_match),
        r is Err ==> (r->Err_0 is BufferTooShort || r->Err_0 is InvalidStream || r->Err_0
            is ExpectedNul || r->Err_0 is Utf8),
        spec_sized_ok(buf@, len_match, expect_nul) && !vstd::utf8::valid_utf8(
            spec_sized_data(buf@, len_match, expect_nul),
        ) ==> r->Err_0 is Utf8,
{
    let (data, rest) = extract_sized_buf(buf, len_match, expect_nul)?;
    let text = crate::common::str_from_utf8(data)?;
    Ok((text, rest))
}

} // verus!
