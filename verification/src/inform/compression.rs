//! The two ways in which a payload is compressed: zlib and framed Snappy.

use std::io::{Read, Write};
use vstd::prelude::*;

verus! {

/// Errors of the byte streams that the compressors read and write.
#[verifier::external_type_specification]
#[verifier::external_body]
pub struct ExIoError(std::io::Error);

/// The zlib stream that `flate2` makes of `data` at its best compression
/// level; `None` where it reports an error.
pub uninterp spec fn zlib_encoded(data: Seq<u8>) -> Option<Seq<u8>>;

/// What `flate2` inflates the zlib stream `data` to; `None` where it reports an error.
pub uninterp spec fn zlib_decoded(data: Seq<u8>) -> Option<Seq<u8>>;

/// The framed Snappy stream that `snap` makes of `data`; `None` where it
/// reports an error.
pub uninterp spec fn snappy_encoded(data: Seq<u8>) -> Option<Seq<u8>>;

/// What `snap` reads out of the framed Snappy stream `data`; `None` where it reports an error.
pub uninterp spec fn snappy_decoded(data: Seq<u8>) -> Option<Seq<u8>>;

/// The length that the header of a chunk of a framed Snappy stream gives for
/// the chunk's body: the three bytes after the chunk's type, lowest first.
pub open spec fn chunk_len(data: Seq<u8>) -> int {
    data[1] + data[2] * 0x100 + data[3] * 0x1_0000
}

/// Whether every chunk of the framed Snappy stream `data` that holds data,
/// compressed (type 0) or not (type 1), has room for the checksum of four
/// bytes that such a chunk starts with. The chunks are taken one after the
/// other, each as long as its header says, up to the first that `data` ends
/// before.
pub open spec fn snappy_chunks_fit(data: Seq<u8>) -> bool
    decreases data.len(),
{
    if data.len() < 4 {
        true
    } else if (data[0] == 0 || data[0] == 1) && chunk_len(data) < 4 {
        false
    } else if data.len() - 4 < chunk_len(data) {
        true
    } else {
        snappy_chunks_fit(data.skip(4 + chunk_len(data)))
    }
}

/// Says whether every data chunk of a framed Snappy stream has room for its
/// checksum, see `snappy_chunks_fit`.
pub fn check_snappy_chunks(data: &[u8]) -> (r: bool)
    ensures
        r == snappy_chunks_fit(data@),
{
    let total: usize = data.len();
    let mut at: usize = 0;
    proof {
        assert(data@.skip(0) =~= data@);
    }
    while total - at >= 4
        invariant
            at <= total,
            total == data@.len(),
            snappy_chunks_fit(data@) == snappy_chunks_fit(data@.skip(at as int)),
        decreases total - at,
    {
        let ghost rest = data@.skip(at as int);
        let len: usize = data[at + 1] as usize + data[at + 2] as usize * 0x100 + data[at + 3] as usize
            * 0x1_0000;
        proof {
            assert(rest[0] == data@[at as int]);
            assert(rest[1] == data@[at + 1]);
            assert(rest[2] == data@[at + 2]);
            assert(rest[3] == data@[at + 3]);
            assert(len == chunk_len(rest));
        }
        if (data[at] == 0 || data[at] == 1) && len < 4 {
            return false;
        }
        if total - at - 4 < len {
            return true;
        }
        proof {
            assert(rest.skip(4 + len) =~= data@.skip(at + 4 + len));
        }
        at = at + 4 + len;
    }
    true
}

/// `flate2::read::ZlibDecoder`, read to its end: gives what the stream inflates
/// to, and an error where the decoder reports one. Nothing is claimed here of
/// how this relates to the encoder.
#[verifier::external_body]
pub(crate) fn decode_zlib(data: &[u8]) -> (r: Result<Vec<u8>, std::io::Error>)
    ensures
        r is Ok <==> zlib_decoded(data@) is Some,
        r matches Ok(v) ==> zlib_decoded(data@) == Some(v@),
{
    let mut rdr = flate2::read::ZlibDecoder::new(data);
    let mut out = Vec::new();
    rdr.read_to_end(&mut out)?;
    Ok(out)
}

/// `flate2::read::ZlibEncoder` at `Compression::best()`, read to its end: gives
/// the zlib stream of `data`, and an error where the encoder reports one.
#[verifier::external_body]
pub(crate) fn encode_zlib(data: &[u8]) -> (r: Result<Vec<u8>, std::io::Error>)
    ensures
        r is Ok <==> zlib_encoded(data@) is Some,
        r matches Ok(v) ==> zlib_encoded(data@) == Some(v@),
{
    let mut rdr = flate2::read::ZlibEncoder::new(data, flate2::Compression::best());
    let mut out = Vec::new();
    rdr.read_to_end(&mut out)?;
    Ok(out)
}

/// `snap::Reader`, read to its end: gives what the framed stream holds, and an
/// error where the reader reports one. The reader takes four bytes off the
/// length of every data chunk it comes to, so every such chunk has to have
/// room for them. Nothing is claimed here of how this relates to the writer.
#[verifier::external_body]
pub(crate) fn decode_snappy(data: &[u8]) -> (r: Result<Vec<u8>, std::io::Error>)
    requires
        snappy_chunks_fit(data@),
    ensures
        r is Ok <==> snappy_decoded(data@) is Some,
        r matches Ok(v) ==> snappy_decoded(data@) == Some(v@),
{
    let mut rdr = snap::Reader::new(data);
    let mut out = Vec::new();
    rdr.read_to_end(&mut out)?;
    Ok(out)
}

/// `snap::Writer` over a vector, written to and taken back: gives the framed
/// Snappy stream of `data`, and an error where the writer reports one.
#[verifier::external_body]
pub(crate) fn encode_snappy(data: &[u8]) -> (r: Result<Vec<u8>, std::io::Error>)
    ensures
        r is Ok <==> snappy_encoded(data@) is Some,
        r matches Ok(v) ==> snappy_encoded(data@) == Some(v@),
{
    let mut wtr = snap::Writer::new(Vec::new());
    wtr.write_all(data)?;
    wtr.into_inner().map_err(|e| std::io::Error::new(std::io::ErrorKind::Other, e))
}

/// What the framed Snappy stream `data` holds; `None` where a data chunk has
/// no room for its checksum or `snap` reports an error.
pub open spec fn snappy_unframed(data: Seq<u8>) -> Option<Seq<u8>> {
    if snappy_chunks_fit(data) {
        snappy_decoded(data)
    } else {
        None
    }
}

} // verus!
