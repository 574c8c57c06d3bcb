//! Declarations and wrappers for the outside crates and the few std calls
//! that the verifier has no specification for.  Every contract here is
//! checked against the called crate's source, not proved.

use vstd::prelude::*;

use crate::error::ErrorKind;
use std::io::Read;

verus! {

/// Relies on `str::from_utf8`: `Ok` exactly on valid UTF-8, and the returned
/// string decodes those bytes.
#[verifier::external_body]
pub fn string_from_utf8(b: &[u8]) -> (r: Option<String>)
    ensures
        r is Some <==> vstd::utf8::valid_utf8(b@),
        r is Some ==> r->0@ == vstd::utf8::decode_utf8(b@),
{
    core::str::from_utf8(b).ok().map(|s| s.to_owned())
}

/// What `String::from_utf8_lossy` returns: the decoded text, with each
/// invalid sequence replaced by U+FFFD.
pub uninterp spec fn lossy_decode(b: Seq<u8>) -> Seq<char>;

/// Relies on `String::from_utf8_lossy`: a function of the bytes alone, and
/// the identity decoding on valid UTF-8.
#[verifier::external_body]
pub fn string_from_utf8_lossy(b: &[u8]) -> (r: String)
    ensures
        r@ == lossy_decode(b@),
        vstd::utf8::valid_utf8(b@) ==> r@ == vstd::utf8::decode_utf8(b@),
{
    String::from_utf8_lossy(b).into_owned()
}

/// What `uuid::Uuid::try_parse_ascii` accepts: the 128-bit value of the UUID
/// written in `b` in any of the crate's accepted ASCII forms, if any.
pub uninterp spec fn uuid_of(b: Seq<u8>) -> Option<u128>;

/// Relies on `uuid::Uuid::try_parse_ascii` (with `Uuid::as_u128`): parsing is
/// a function of the bytes alone.
#[verifier::external_body]
pub fn uuid_from_ascii(b: &[u8]) -> (r: Option<u128>)
    ensures
        r == uuid_of(b@),
{
    uuid::Uuid::try_parse_ascii(b).ok().map(|u| u.as_u128())
}

/// What zlib inflation yields for a byte run: the decompressed bytes, or
/// nothing when the run is not a well-formed zlib stream.
pub uninterp spec fn inflate_of(b: Seq<u8>) -> Option<Seq<u8>>;

/// Relies on `flate2::read::ZlibDecoder` (driven by `std::io::Read::read_to_end`):
/// decompression is a function of the compressed bytes alone.
#[verifier::external_body]
pub fn inflate(b: &[u8]) -> (r: Result<Vec<u8>, ErrorKind>)
    ensures
        r is Ok <==> inflate_of(b@) is Some,
        r is Ok ==> r->Ok_0@ == inflate_of(b@)->0,
        r is Err ==> r->Err_0 is Io,
{
    let mut out = Vec::new();
    match flate2::read::ZlibDecoder::new(b).read_to_end(&mut out) {
        Ok(_) => Ok(out),
        Err(e) => Err(ErrorKind::Io(e.to_string())),
    }
}

/// A compound-file source over an in-memory buffer.
///
/// The container is held behind this struct so that its contents can be
/// named: parsing an in-memory compound file is a function of the buffer
/// alone, so the contracts below speak of [`cfb_model`], the bytes the
/// source was opened over.
#[verifier::external_body]
pub struct CfbSource {
    inner: cfb::CompoundFile<std::io::Cursor<Vec<u8>>>,
}

/// The bytes a [`CfbSource`] was opened over.
pub uninterp spec fn cfb_model(f: CfbSource) -> Seq<u8>;

/// What `cfb::CompoundFile::open` accepts: whether the bytes are a
/// well-formed compound file.
pub uninterp spec fn cfb_wf(b: Seq<u8>) -> bool;

/// What `cfb::CompoundFile::exists` returns: whether a stream or storage
/// lies at the given path of the container the bytes hold.
pub uninterp spec fn cfb_has_stream(b: Seq<u8>, path: Seq<char>) -> bool;

/// What reading the stream at a path of the container yields: its full
/// contents, or nothing when no stream lies there.
pub uninterp spec fn cfb_stream_of(b: Seq<u8>, path: Seq<char>) -> Option<Seq<u8>>;

impl CfbSource {
    /// Relies on `cfb::CompoundFile::open` over an in-memory cursor: it
    /// reads the container structure, a function of the buffer alone, and
    /// reports malformed buffers as errors.
    #[verifier::external_body]
    pub fn open(bytes: Vec<u8>) -> (r: Result<CfbSource, ErrorKind>)
        ensures
            r is Ok <==> cfb_wf(bytes@),
            r is Ok ==> cfb_model(r->Ok_0) == bytes@,
            r is Err ==> r->Err_0 is Io,
    {
        match cfb::CompoundFile::open(std::io::Cursor::new(bytes)) {
            Ok(inner) => Ok(CfbSource { inner }),
            Err(e) => Err(ErrorKind::Io(e.to_string())),
        }
    }

    /// Relies on `cfb::CompoundFile::exists`: whether a stream or storage
    /// lies at the given path, a function of the container bytes alone.
    #[verifier::external_body]
    pub fn has_stream(&self, path: &str) -> (r: bool)
        ensures
            r == cfb_has_stream(cfb_model(*self), path@),
    {
        self.inner.exists(path)
    }

    /// Relies on `cfb::CompoundFile::open_stream` (with
    /// `std::io::Read::read_to_end`): the full contents of the stream at the
    /// given path, a function of the container bytes alone; reading writes
    /// nothing, so the model is unchanged.
    #[verifier::external_body]
    pub fn read_stream(&mut self, path: &str) -> (r: Result<Vec<u8>, ErrorKind>)
        ensures
            cfb_model(*final(self)) == cfb_model(*old(self)),
            r is Ok <==> cfb_stream_of(cfb_model(*old(self)), path@) is Some,
            r is Ok ==> r->Ok_0@ == cfb_stream_of(cfb_model(*old(self)), path@)->0,
            r is Err ==> r->Err_0 is Io,
    {
        let mut buf = Vec::new();
        match self.inner.open_stream(path).and_then(|mut s| s.read_to_end(&mut buf)) {
            Ok(_) => Ok(buf),
            Err(e) => Err(ErrorKind::Io(e.to_string())),
        }
    }
}

} // verus!
