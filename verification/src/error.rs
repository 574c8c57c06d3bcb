//! Error types used throughout this crate.

use vstd::prelude::*;

verus! {

/// A subslice of a buffer kept for diagnostics: at most 16 elements from the
/// start or the end of the original buffer, plus the original length.
#[derive(Clone, Debug, PartialEq, Eq)]
pub struct TruncBuf {
    pub buf: Vec<u8>,
    pub orig_len: usize,
    pub at_end: bool,
}

impl TruncBuf {
    /// Truncate a buffer to its first 16 elements.
    pub fn truncate(buf: &[u8]) -> (r: Vec<u8>)
        ensures
            r@ == buf@.take(if buf@.len() < 16 { buf@.len() as int } else { 16 }),
    {
        let n: usize = if buf.len() < 16 {
            buf.len()
        } else {
            16
        };
        crate::common::slice_to_vec_range(buf, 0, n)
    }

    /// Truncate a buffer to its last 16 elements.
    pub fn truncate_end(buf: &[u8]) -> (r: Vec<u8>)
        ensures
            r@ == buf@.skip(if buf@.len() < 16 { 0 } else { buf@.len() - 16 }),
    {
        let lo: usize = if buf.len() < 16 {
            0
        } else {
            buf.len() - 16
        };
        crate::common::slice_to_vec_range(buf, lo, buf.len())
    }

    /// Keep the leftmost elements.
    pub fn new(buf: &[u8]) -> (r: Self)
        ensures
            r.buf@ == buf@.take(if buf@.len() < 16 { buf@.len() as int } else { 16 }),
            r.orig_len == buf@.len(),
            r.at_end == false,
    {
        TruncBuf { buf: Self::truncate(buf), orig_len: buf.len(), at_end: false }
    }

    /// Keep the rightmost elements.
    pub fn new_end(buf: &[u8]) -> (r: Self)
        ensures
            r.buf@ == buf@.skip(if buf@.len() < 16 { 0 } else { buf@.len() - 16 }),
            r.orig_len == buf@.len(),
            r.at_end == true,
    {
        TruncBuf { buf: Self::truncate_end(buf), orig_len: buf.len(), at_end: true }
    }

    /// Length of the original buffer.
    pub fn len(&self) -> (r: usize)
        ensures
            r == self.orig_len,
    {
        self.orig_len
    }

    /// A lossy text rendering of the kept bytes.
    pub fn as_str(&self) -> (r: String) {
        crate::outside::string_from_utf8_lossy(self.buf.as_slice())
    }
}

/// A raw decoding error without context. See [`Error`].
#[derive(Clone, Debug, PartialEq, Eq)]
pub enum ErrorKind {
    /// Needed so many elements, but the buffer near the kept preview ran out.
    BufferTooShort(usize, TruncBuf),
    ElectricalType(u8),
    ExpectedBool(String),
    ExpectedColor(TruncBuf),
    ExpectedFloat(String),
    ExpectedInt(String),
    ExpectedNul(TruncBuf),
    FileType(String, String),
    Image(String),
    IniFormat(String),
    InvalidHeader(String, String),
    InvalidKey(String),
    InvalidStorageData(TruncBuf),
    InvalidStream(String, usize),
    InvalidUniqueId(TruncBuf),
    Io(String),
    Justification(u8),
    MissingSection(String),
    MissingUniqueId,
    Overflow(i64, i64, char),
    Pin(PinError),
    ReadOnlyState(u8),
    RequiredSplit(String),
    SheetStyle(u8),
    Utf8(String),
}

/// Errors raised by the binary pin decoder.
#[derive(Clone, Debug, PartialEq, Eq)]
pub enum PinError {
    /// `(length, description of the position)`
    TooShort(usize, String),
    DescrTooShort(u8, usize),
    NonUtf8Designator(String),
    /// The one-byte formal type was not the required value 1.
    FormalType(u8),
}

impl ErrorKind {
    pub fn new_invalid_stream(name: &str, pos: usize) -> (r: Self)
        ensures
            r is InvalidStream,
            r->InvalidStream_0@ == name@,
            r->InvalidStream_1 == pos,
    {
        ErrorKind::InvalidStream(String::from_str(name), pos)
    }

    pub fn new_invalid_key(key: &[u8]) -> (r: Self)
        ensures
            r is InvalidKey,
    {
        ErrorKind::InvalidKey(crate::outside::string_from_utf8_lossy(key))
    }

    pub fn new_invalid_header(header: &[u8], expected: &str) -> (r: Self)
        ensures
            r is InvalidHeader,
            r->InvalidHeader_0@ == crate::outside::lossy_decode(header@),
            r->InvalidHeader_1@ == expected@,
    {
        ErrorKind::InvalidHeader(
            crate::outside::string_from_utf8_lossy(header),
            String::from_str(expected),
        )
    }

    /// Wrap this kind in an [`Error`] carrying one context frame.
    pub fn context(self, ctx: &str) -> (r: Error)
        ensures
            *r.kind == self,
            r.trace@.len() == 1,
            r.trace@[0].inner@ == ctx@,
    {
        Error { kind: Box::new(self), trace: vec![Frame::new(ctx)] }
    }
}

/// A single step of context: a free-form description of what the decoder was
/// doing when the error below it arose.
#[derive(Clone, Debug, PartialEq, Eq)]
pub struct Frame {
    pub inner: String,
}

impl Frame {
    /// This step's description.
    pub fn description(&self) -> (r: &str)
        ensures
            r@ == self.inner@,
    {
        self.inner.as_str()
    }

    pub fn new(s: &str) -> (r: Self)
        ensures
            r.inner@ == s@,
    {
        Frame { inner: String::from_str(s) }
    }
}

/// The main error type: an [`ErrorKind`] plus a quasi-backtrace of context
/// frames pushed as the decode unwinds.
#[derive(Clone, Debug, PartialEq, Eq)]
pub struct Error {
    pub kind: Box<ErrorKind>,
    pub trace: Vec<Frame>,
}

impl Error {
    /// The original error that caused this problem.
    pub fn kind(&self) -> (r: &ErrorKind)
        ensures
            *r == *self.kind,
    {
        &self.kind
    }

    /// The context trace, innermost frame first.
    pub fn trace(&self) -> (r: &[Frame])
        ensures
            r@ == self.trace@,
    {
        self.trace.as_slice()
    }

    /// Create an error from a kind, with no context yet.
    pub fn from_kind(kind: ErrorKind) -> (r: Self)
        ensures
            *r.kind == kind,
            r.trace@.len() == 0,
    {
        Error { kind: Box::new(kind), trace: Vec::new() }
    }

    /// Push one more frame of context.
    pub fn context(self, ctx: &str) -> (r: Self)
        ensures
            r.kind == self.kind,
            r.trace@.len() == self.trace@.len() + 1,
            r.trace@.take(self.trace@.len() as int) == self.trace@,
            r.trace@.last().inner@ == ctx@,
    {
        let mut e = self;
        e.trace.push(Frame::new(ctx));
        assert(e.trace@.take(e.trace@.len() - 1) =~= self.trace@);
        e
    }
}

} // verus!
