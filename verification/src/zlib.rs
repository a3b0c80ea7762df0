//! The zlib encoding of inventory bodies, done by the `flate2` crate.

use vstd::prelude::*;

verus! {

/// What zlib-decoding `data` gives: the bytes decoded before the stream ended or
/// failed, and whether it ended without failing.
pub uninterp spec fn zlib_inflate(data: Seq<u8>) -> (Seq<u8>, bool);

/// The zlib stream that `flate2` makes in memory of `data` at its fast compression
/// level, or `None` when the encoder reports an error.
pub uninterp spec fn zlib_deflate(data: Seq<u8>) -> Option<Seq<u8>>;

/// Reads `data` to its end through `flate2::read::ZlibDecoder` (with
/// `std::io::Read::read_to_end`). Returns what was decoded, and the error that
/// stopped the decoding if there was one; both are fixed by `data`. What the
/// decoded bytes are is left to the name [`zlib_inflate`].
#[verifier::external_body]
pub(crate) fn inflate(data: &[u8]) -> (r: (Vec<u8>, Option<std::io::Error>))
    ensures
        r.0@ == zlib_inflate(data@).0,
        r.1 is None <==> zlib_inflate(data@).1,
{
    let mut out = Vec::new();
    let failure = std::io::Read::read_to_end(&mut flate2::read::ZlibDecoder::new(data), &mut out)
        .err();
    (out, failure)
}

/// Compresses `data` with `flate2::write::ZlibEncoder` at `Compression::fast()` into
/// memory and finishes the stream. Working in memory, the outcome is fixed by `data`:
/// it succeeds exactly when [`zlib_deflate`] names a stream, and then returns that
/// stream, which, zlib being lossless, decodes to `data`. Which inputs, if any, make
/// the encoder fail is left to the name.
#[verifier::external_body]
pub(crate) fn deflate(data: &[u8]) -> (r: Result<Vec<u8>, std::io::Error>)
    ensures
        r is Ok <==> zlib_deflate(data@) is Some,
        r matches Ok(v) ==> zlib_deflate(data@) == Some(v@) && zlib_inflate(v@) == (data@, true),
{
    let mut encoder = flate2::write::ZlibEncoder::new(Vec::new(), flate2::Compression::fast());
    std::io::Write::write_all(&mut encoder, data)?;
    encoder.finish()
}

} // verus!
