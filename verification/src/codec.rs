//! The external streaming codec at its interface boundary: compressing
//! bytes into a framed stream and decoding such a stream back, with the
//! codec's verdict on malformed input surfaced as an error of this crate.

use vstd::prelude::*;
use std::io::{Read, Write};

verus! {

/// The framed stream the codec produces, with its default settings, for the
/// given payload bytes.
pub uninterp spec fn compressed_of(s: Seq<u8>) -> Seq<u8>;

/// What decoding the given bytes yields: the payload, or `None` where the
/// codec rejects the stream as malformed or incomplete.
pub uninterp spec fn decoded_of(s: Seq<u8>) -> Option<Seq<u8>>;

/// The codec reported a malformed or truncated stream, or failed to
/// finalize one.
#[derive(Clone, Copy, Debug, PartialEq, Eq, Structural)]
pub struct CodecError;

/// Relies on lz4::EncoderBuilder::build, the encoder's Write::write_all and
/// lz4::Encoder::finish: with default settings, writing into an in-memory
/// buffer, they report no error (their only sink is the buffer, so short of
/// allocation failure nothing can go wrong) and produce for given payload
/// bytes one fixed framed stream, whose decoding yields the payload again.
#[verifier::external_body]
fn lz4_compress(data: &Vec<u8>) -> (r: Option<Vec<u8>>)
    ensures
        r is Some,
        r matches Some(v) ==> v@ == compressed_of(data@) && decoded_of(v@) == Some(data@),
{
    let mut enc = match lz4::EncoderBuilder::new().build(Vec::new()) {
        Ok(e) => e,
        Err(_) => return None,
    };
    if enc.write_all(data.as_slice()).is_err() {
        return None;
    }
    let (out, res) = enc.finish();
    match res {
        Ok(()) => Some(out),
        Err(_) => None,
    }
}

/// Relies on lz4::Decoder::new, Read::read_to_end on the decoder, and
/// lz4::Decoder::finish, all over an in-memory buffer: what they yield,
/// payload or an error, is fixed by the input bytes alone. The `finish`
/// verdict rejects a stream that ends before its frame is complete.
#[verifier::external_body]
fn lz4_decompress(data: &Vec<u8>) -> (r: Option<Vec<u8>>)
    ensures
        match r {
            Some(v) => decoded_of(data@) == Some(v@),
            None => decoded_of(data@) is None,
        },
{
    let mut dec = match lz4::Decoder::new(data.as_slice()) {
        Ok(d) => d,
        Err(_) => return None,
    };
    let mut out: Vec<u8> = Vec::new();
    if dec.read_to_end(&mut out).is_err() {
        return None;
    }
    match dec.finish().1 {
        Ok(()) => Some(out),
        Err(_) => None,
    }
}

/// Compresses the payload into a framed stream. It always succeeds, and the
/// result is the codec's stream for these bytes, whose decoding restores the
/// payload byte for byte.
pub fn compress_bytes(data: &Vec<u8>) -> (r: Result<Vec<u8>, CodecError>)
    ensures
        r is Ok,
        r matches Ok(v) ==> v@ == compressed_of(data@) && decoded_of(v@) == Some(data@),
{
    match lz4_compress(data) {
        Some(v) => Ok(v),
        None => Err(CodecError),
    }
}

/// Decodes a framed stream back into its payload. It succeeds exactly on
/// the complete streams the codec accepts, and then returns their decoded
/// payload; a malformed or truncated stream is an error.
pub fn decompress_bytes(data: &Vec<u8>) -> (r: Result<Vec<u8>, CodecError>)
    ensures
        match r {
            Ok(v) => decoded_of(data@) == Some(v@),
            Err(_) => decoded_of(data@) is None,
        },
{
    match lz4_decompress(data) {
        Some(v) => Ok(v),
        None => Err(CodecError),
    }
}

} // verus!
