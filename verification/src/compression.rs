//! Pluggable compression for channel payloads.
//!
//! The zlib codec calls through `flate2` behind trusted wrappers; the no-op
//! codec is verified outright.

use vstd::prelude::*;
use std::io::Write;
use crate::error::{FenrisError, FenrisResult};

verus! {

/// What deflating a byte string at a given level returns.
pub uninterp spec fn zlib_deflate_of(data: Seq<u8>, level: u32) -> Seq<u8>;

/// What inflating a byte string returns: the original bytes for a valid
/// zlib stream, nothing for a corrupt one.
pub uninterp spec fn zlib_inflate_of(data: Seq<u8>) -> Option<Seq<u8>>;

/// Relies on `flate2::write::ZlibEncoder` (`write_all`, `finish`) over an
/// in-memory buffer.  flate2 accepts levels 0 through 9 (its backend
/// asserts the bound), so higher levels are kept out; with a `Vec` sink
/// neither writing nor finishing can fail, the output depends on the input
/// bytes and level alone, and inflating it yields the input back.
#[verifier::external_body]
fn zlib_compress_raw(data: &[u8], level: u32) -> (r: Vec<u8>)
    requires
        level <= 9,
    ensures
        r@ == zlib_deflate_of(data@, level) && zlib_inflate_of(r@) == Some(data@),
{
    let mut encoder = flate2::write::ZlibEncoder::new(Vec::new(), flate2::Compression::new(level));
    encoder.write_all(data).unwrap();
    encoder.finish().unwrap()
}

/// Relies on `flate2::write::ZlibDecoder` (`write_all`, `finish`) over an
/// in-memory buffer: the outcome depends on the input bytes alone, and a
/// stream that is not valid zlib data fails.
#[verifier::external_body]
fn zlib_decompress_raw(data: &[u8]) -> (r: Option<Vec<u8>>)
    ensures
        match r {
            Some(p) => zlib_inflate_of(data@) == Some(p@),
            None => zlib_inflate_of(data@) is None,
        },
{
    let mut decoder = flate2::write::ZlibDecoder::new(Vec::new());
    decoder.write_all(data).ok()?;
    decoder.finish().ok()
}

/// Symmetric compress/decompress with a human-readable name.
pub trait Compressor: Sized {
    /// The compressed form of a byte string.  The defaults describe no
    /// implementation; a verified one overrides them.
    open spec fn compress_spec(&self, data: Seq<u8>) -> Seq<u8> {
        Seq::empty()
    }

    /// The inputs on which compression is owed to succeed.  The default
    /// claims nothing; a verified one overrides it.
    open spec fn compress_ok(&self, data: Seq<u8>) -> bool {
        false
    }

    /// The decompressed form of a byte string, or nothing for corrupt input.
    open spec fn decompress_spec(&self, data: Seq<u8>) -> Option<Seq<u8>> {
        None
    }

    /// The codec's name.
    open spec fn name_spec(&self) -> Seq<char> {
        Seq::empty()
    }

    fn compress(&self, data: &[u8]) -> (r: FenrisResult<Vec<u8>>)
        ensures
            r matches Ok(c) ==> c@ == self.compress_spec(data@) && self.decompress_spec(c@)
                == Some(data@),
            self.compress_ok(data@) ==> r matches Ok(_),
    ;

    fn decompress(&self, data: &[u8]) -> (r: FenrisResult<Vec<u8>>)
        ensures
            r matches Ok(p) ==> self.decompress_spec(data@) == Some(p@),
            r matches Err(_) ==> self.decompress_spec(data@) is None,
    ;

    fn name(&self) -> (r: &'static str)
        ensures
            r@ == self.name_spec(),
    ;
}

/// Deflate at a configurable level, through `flate2`.
#[derive(Clone, Copy, Debug)]
pub struct ZlibCompressor {
    level: u32,
}

impl ZlibCompressor {
    /// Levels flate2 accepts; its backend rejects anything higher.
    #[verifier::type_invariant]
    spec fn level_in_range(self) -> bool {
        self.level <= 9
    }

    /// The configured compression level.
    pub closed spec fn level_spec(&self) -> u32 {
        self.level
    }

    /// The default compression level.
    pub fn new() -> (r: ZlibCompressor)
        ensures
            r.level_spec() == 6u32,
    {
        ZlibCompressor { level: 6 }
    }

    /// An explicit compression level; flate2 defines 0 through 9.
    pub fn with_level(level: u32) -> (r: ZlibCompressor)
        requires
            level <= 9,
        ensures
            r.level_spec() == level,
    {
        ZlibCompressor { level }
    }
}

impl Default for ZlibCompressor {
    /// The default compression level.
    fn default() -> (r: ZlibCompressor)
        ensures
            r.level_spec() == 6u32,
    {
        ZlibCompressor::new()
    }
}

impl Compressor for ZlibCompressor {
    open spec fn compress_spec(&self, data: Seq<u8>) -> Seq<u8> {
        zlib_deflate_of(data, self.level_spec())
    }

    open spec fn compress_ok(&self, data: Seq<u8>) -> bool {
        true
    }

    open spec fn decompress_spec(&self, data: Seq<u8>) -> Option<Seq<u8>> {
        zlib_inflate_of(data)
    }

    open spec fn name_spec(&self) -> Seq<char> {
        "zlib"@
    }

    fn compress(&self, data: &[u8]) -> (r: FenrisResult<Vec<u8>>) {
        proof {
            use_type_invariant(&*self);
        }
        Ok(zlib_compress_raw(data, self.level))
    }

    fn decompress(&self, data: &[u8]) -> (r: FenrisResult<Vec<u8>>) {
        match zlib_decompress_raw(data) {
            Some(p) => Ok(p),
            None => Err(
                FenrisError::CompressionError(String::from_str("not a valid zlib stream")),
            ),
        }
    }

    fn name(&self) -> (r: &'static str) {
        "zlib"
    }
}

/// The identity codec: compression and decompression both copy the bytes.
#[derive(Clone, Copy, Debug, Default)]
pub struct NullCompressor;

impl Compressor for NullCompressor {
    open spec fn compress_spec(&self, data: Seq<u8>) -> Seq<u8> {
        data
    }

    open spec fn compress_ok(&self, data: Seq<u8>) -> bool {
        true
    }

    open spec fn decompress_spec(&self, data: Seq<u8>) -> Option<Seq<u8>> {
        Some(data)
    }

    open spec fn name_spec(&self) -> Seq<char> {
        "none"@
    }

    fn compress(&self, data: &[u8]) -> (r: FenrisResult<Vec<u8>>) {
        Ok(vstd::slice::slice_to_vec(data))
    }

    fn decompress(&self, data: &[u8]) -> (r: FenrisResult<Vec<u8>>) {
        Ok(vstd::slice::slice_to_vec(data))
    }

    fn name(&self) -> (r: &'static str) {
        "none"
    }
}

/// One configured codec.
pub struct CompressionManager<C: Compressor> {
    pub compressor: C,
}

impl<C: Compressor> CompressionManager<C> {
    pub fn new(compressor: C) -> (r: CompressionManager<C>)
        ensures
            r.compressor == compressor,
    {
        CompressionManager { compressor }
    }

    pub fn compress(&self, data: &[u8]) -> (r: FenrisResult<Vec<u8>>)
        ensures
            r matches Ok(c) ==> c@ == self.compressor.compress_spec(data@)
                && self.compressor.decompress_spec(c@) == Some(data@),
            self.compressor.compress_ok(data@) ==> r matches Ok(_),
    {
        self.compressor.compress(data)
    }

    pub fn decompress(&self, data: &[u8]) -> (r: FenrisResult<Vec<u8>>)
        ensures
            r matches Ok(p) ==> self.compressor.decompress_spec(data@) == Some(p@),
            r matches Err(_) ==> self.compressor.decompress_spec(data@) is None,
    {
        self.compressor.decompress(data)
    }

    pub fn compressor_name(&self) -> (r: &'static str)
        ensures
            r@ == self.compressor.name_spec(),
    {
        self.compressor.name()
    }
}

impl Default for CompressionManager<NullCompressor> {
    /// The default codec: no compression.
    fn default() -> (r: CompressionManager<NullCompressor>)
        ensures
            r.compressor == NullCompressor,
    {
        CompressionManager::new(NullCompressor)
    }
}

} // verus!
