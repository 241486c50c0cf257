//! The boundary to `flate2`: a zlib encoder that is fed in pieces, and the
//! decoder that reads a whole stream back.
//!
//! The encoder is opaque to the verifier. What it holds is named by
//! `encoder_level`, the level it was made with, and `encoder_pieces`, the
//! pieces that have been written to it so far. Compression is a function of
//! these: `piece_accepted` names whether a write succeeds, `finished_stream`
//! names what finishing gives, and `zlib_inflated` names what the decoder
//! yields from a stream. The one fact that links the two directions, that a
//! finished stream inflates to what was written, is stated on `finish`.
//! Nothing in this file is proved.

use vstd::prelude::*;

verus! {

/// A `flate2::write::ZlibEncoder` that writes into a `Vec<u8>`. The encoder
/// is bounded by `std::io::Write`, which the verifier does not know, so it
/// is held here and never looked into.
#[verifier::external_body]
pub struct Deflater {
    inner: flate2::write::ZlibEncoder<Vec<u8>>,
}

/// The pieces written to an encoder since it was made, in order, each as
/// it was handed to one call of `write_all`.
pub uninterp spec fn encoder_pieces(encoder: Deflater) -> Seq<Seq<u8>>;

/// The compression level that an encoder was made with.
pub uninterp spec fn encoder_level(encoder: Deflater) -> u32;

/// Whether `std::io::Write::write_all` of `piece` succeeds on an encoder
/// that was made at `level` and has taken `pieces` so far.
pub uninterp spec fn piece_accepted(level: u32, pieces: Seq<Seq<u8>>, piece: Seq<u8>) -> bool;

/// The stream that `flate2::write::ZlibEncoder::finish` gives for an
/// encoder that was made at `level` and has taken `pieces`, or `None` where
/// it reports an error.
pub uninterp spec fn finished_stream(level: u32, pieces: Seq<Seq<u8>>) -> Option<Seq<u8>>;

/// The bytes that `flate2::read::ZlibDecoder` yields when a stream is read
/// to its end, or `None` where the read fails.
pub uninterp spec fn zlib_inflated(stream: Seq<u8>) -> Option<Seq<u8>>;

/// Calls `flate2::write::ZlibEncoder::new` on an empty `Vec` with
/// `flate2::Compression::new(level)`. The level is kept within the scale of
/// 0 to 9 that `flate2` documents, since its default backend asserts in
/// debug builds that the level is no more than 10. Nothing has been written
/// to the new encoder.
#[verifier::external_body]
pub(crate) fn new_encoder(level: u32) -> (encoder: Deflater)
    requires
        level <= 9,
    ensures
        encoder_level(encoder) == level,
        encoder_pieces(encoder) == Seq::<Seq<u8>>::empty(),
{
    Deflater { inner: flate2::write::ZlibEncoder::new(Vec::new(), flate2::Compression::new(level)) }
}

/// Calls `std::io::Write::write_all` on the encoder, and hands the encoder
/// back where the call succeeds: the whole piece has then been written
/// after the earlier ones. An encoder whose write failed is given up. The
/// contract names the outcome: the encoder works on nothing but its level
/// and what was written to it.
#[verifier::external_body]
pub(crate) fn write_chunk(encoder: Deflater, chunk: &[u8]) -> (r: Option<Deflater>)
    ensures
        r is Some <==> piece_accepted(encoder_level(encoder), encoder_pieces(encoder), chunk@),
        r matches Some(after) ==> encoder_level(after) == encoder_level(encoder)
            && encoder_pieces(after) == encoder_pieces(encoder).push(chunk@),
{
    let mut encoder = encoder;
    match std::io::Write::write_all(&mut encoder.inner, chunk) {
        Ok(_) => Some(encoder),
        Err(_) => None,
    }
}

/// Calls `flate2::write::ZlibEncoder::finish`. The contract names the
/// outcome and claims one thing of it: where finishing succeeds, the stream
/// is one that a zlib decoder inflates to exactly the bytes that were
/// written, piece after piece.
#[verifier::external_body]
pub(crate) fn finish(encoder: Deflater) -> (r: Option<Vec<u8>>)
    ensures
        match r {
            Some(stream) => finished_stream(encoder_level(encoder), encoder_pieces(encoder))
                == Some(stream@) && zlib_inflated(stream@) == Some(
                encoder_pieces(encoder).flatten(),
            ),
            None => finished_stream(encoder_level(encoder), encoder_pieces(encoder)) is None,
        },
{
    encoder.inner.finish().ok()
}

/// Reads a `flate2::read::ZlibDecoder` over `stream` to its end with
/// `std::io::Read::read_to_string`, which succeeds only where the stream
/// inflates and the inflated bytes are UTF-8.
#[verifier::external_body]
pub(crate) fn inflate_to_string(stream: &[u8]) -> (r: Option<String>)
    ensures
        match r {
            Some(text) => zlib_inflated(stream@) == Some(vstd::utf8::encode_utf8(text@)),
            None => zlib_inflated(stream@) matches Some(bytes) ==> !vstd::utf8::valid_utf8(
                bytes,
            ),
        },
{
    let mut text = String::new();
    match std::io::Read::read_to_string(&mut flate2::read::ZlibDecoder::new(stream), &mut text) {
        Ok(_) => Some(text),
        Err(_) => None,
    }
}

} // verus!
