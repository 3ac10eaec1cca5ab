//! The body compression negotiated at startup, and the trusted bridges to
//! the two compression crates.
//!
//! A connection fixes one algorithm for its whole life when it sends
//! STARTUP.  Outgoing frames are written uncompressed; an incoming frame
//! whose header carries the compression flag has its body put through the
//! negotiated algorithm before anyone reads it.

use vstd::prelude::*;

verus! {

/// The compression algorithm of a connection.
#[derive(Clone, Copy, Debug, PartialEq, Eq, Structural)]
pub enum Compression {
    Lz4,
    Snappy,
    Plain,
}

impl Compression {
    /// The algorithm name sent in the STARTUP option map, if any.
    pub open spec fn spec_name(self) -> Option<Seq<char>> {
        match self {
            Compression::Lz4 => Some("lz4"@),
            Compression::Snappy => Some("snappy"@),
            Compression::Plain => None,
        }
    }

    pub fn as_str(&self) -> (r: Option<&'static str>)
        ensures
            r is Some <==> self.spec_name() is Some,
            r matches Some(s) ==> Some(s@) == self.spec_name(),
    {
        match self {
            Compression::Lz4 => Some("lz4"),
            Compression::Snappy => Some("snappy"),
            Compression::Plain => None,
        }
    }
}

/// What lz4 decompression makes of a byte string: `None` where the bytes
/// are not valid lz4 data, otherwise the decompressed bytes.  The result
/// depends on the input alone.
pub uninterp spec fn spec_lz4_decompressed(b: Seq<u8>) -> Option<Seq<u8>>;

/// What snappy decompression makes of a byte string, on the same terms.
pub uninterp spec fn spec_snappy_decompressed(b: Seq<u8>) -> Option<Seq<u8>>;

/// Relies on `lz4_compress::decompress`: it turns lz4-compressed bytes back
/// into the original bytes, failing on input that is not lz4 data.
#[verifier::external_body]
fn lz4_decompress(b: &[u8]) -> (r: Option<Vec<u8>>)
    ensures
        r is Some <==> spec_lz4_decompressed(b@) is Some,
        r matches Some(v) ==> Some(v@) == spec_lz4_decompressed(b@),
{
    lz4_compress::decompress(b).ok()
}

/// Relies on `snap::raw::Decoder::decompress_vec`: it turns raw
/// snappy-compressed bytes back into the original bytes, failing on input
/// that is not snappy data.
#[verifier::external_body]
fn snappy_decompress(b: &[u8]) -> (r: Option<Vec<u8>>)
    ensures
        r is Some <==> spec_snappy_decompressed(b@) is Some,
        r matches Some(v) ==> Some(v@) == spec_snappy_decompressed(b@),
{
    snap::raw::Decoder::new().decompress_vec(b).ok()
}

/// A compressed body put through an algorithm: the identity for
/// `Compression::Plain`, else the algorithm's inverse where it succeeds.
pub open spec fn spec_decompressed(c: Compression, body: Seq<u8>) -> Option<Seq<u8>> {
    match c {
        Compression::Plain => Some(body),
        Compression::Lz4 => spec_lz4_decompressed(body),
        Compression::Snappy => spec_snappy_decompressed(body),
    }
}

/// Decompresses a frame body with the negotiated algorithm.
pub fn decompress_body(c: Compression, body: &Vec<u8>) -> (r: Option<Vec<u8>>)
    ensures
        r is Some <==> spec_decompressed(c, body@) is Some,
        r matches Some(v) ==> Some(v@) == spec_decompressed(c, body@),
{
    match c {
        Compression::Plain => {
            let copied = vstd::slice::slice_to_vec(body.as_slice());
            Some(copied)
        },
        Compression::Lz4 => lz4_decompress(body.as_slice()),
        Compression::Snappy => snappy_decompress(body.as_slice()),
    }
}

} // verus!
