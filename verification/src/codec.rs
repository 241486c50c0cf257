//! The codec: a value becomes its JSON text, the text becomes a payload of
//! bytes, and the payload is framed behind one marker byte that says whether
//! it was compressed. Decoding reads the marker and undoes each step.
//!
//! A frame describes itself: nothing outside its bytes is needed to decode it.

use vstd::prelude::*;
use vstd::slice::*;
use vstd::string::*;
use vstd::utf8::*;
use crate::error::Error;
use crate::json::{json_parse, json_text, parse_text, to_text};
use crate::models::CompressionConfig;
use crate::zlib::{encoder_level, encoder_pieces, finish, finished_stream, inflate_to_string, new_encoder, piece_accepted, write_chunk, zlib_inflated};

verus! {

/// The marker of a frame whose payload follows as it is.
pub const MARKER_RAW: u8 = 0;

/// The marker of a frame whose payload follows as a zlib stream.
pub const MARKER_COMPRESSED: u8 = 1;

/// The largest piece that is handed to the compressor at once.
pub const CHUNK_SIZE: usize = 65536;

/// Whether `frame` is a frame of `payload` under `config`: raw, the marker 0
/// and the payload itself; compressed, the marker 1 and the stream that
/// compressing the payload at the level gives, which inflates to the payload.
pub open spec fn is_frame_of(frame: Seq<u8>, payload: Seq<u8>, config: CompressionConfig) -> bool {
    if config.compresses(payload.len()) {
        &&& frame.len() >= 1 && frame[0] == MARKER_COMPRESSED
        &&& deflated(payload, config.level) == Some(frame.skip(1))
        &&& zlib_inflated(frame.skip(1)) == Some(payload)
    } else {
        frame == seq![MARKER_RAW] + payload
    }
}

/// Whether `frame` is an encoding of `value` under `config`: a frame of the
/// UTF-8 bytes of the value's JSON text.
pub open spec fn is_encoding_of(
    frame: Seq<u8>,
    value: serde_json::Value,
    config: CompressionConfig,
) -> bool {
    json_text(value) matches Some(text) && is_frame_of(frame, encode_utf8(text), config)
}

/// The payload that a frame carries. An empty frame has none; the marker 1
/// asks for the rest to be inflated; any other marker leaves the rest as it is.
pub open spec fn frame_payload(frame: Seq<u8>) -> Result<Seq<u8>, Error> {
    if frame.len() == 0 {
        Err(Error::EmptyPayload)
    } else if frame[0] == MARKER_COMPRESSED {
        match zlib_inflated(frame.skip(1)) {
            Some(payload) => Ok(payload),
            None => Err(Error::CorruptPayload),
        }
    } else {
        Ok(frame.skip(1))
    }
}

/// The text that a frame carries: its payload, read as UTF-8.
pub open spec fn frame_text(frame: Seq<u8>) -> Result<Seq<char>, Error> {
    match frame_payload(frame) {
        Ok(payload) => if valid_utf8(payload) {
            Ok(decode_utf8(payload))
        } else {
            Err(Error::CorruptPayload)
        },
        Err(e) => Err(e),
    }
}

/// The value that a JSON text stands for, or the payload error where the
/// text is not JSON.
pub open spec fn parsed(text: Seq<char>) -> Result<serde_json::Value, Error> {
    match json_parse(text) {
        Some(value) => Ok(value),
        None => Err(Error::CorruptPayload),
    }
}

/// What decoding a frame gives: the value parsed from the frame's text.
pub open spec fn decode_spec(frame: Seq<u8>) -> Result<serde_json::Value, Error> {
    match frame_text(frame) {
        Ok(text) => parsed(text),
        Err(e) => Err(e),
    }
}

/// Calls `std::str::from_utf8`, which accepts exactly the byte strings that
/// are UTF-8 and hands the same bytes back as a string slice. Not proved.
#[verifier::external_body]
fn utf8_text(bytes: &[u8]) -> (r: Option<&str>)
    ensures
        match r {
            Some(text) => encode_utf8(text@) == bytes@,
            None => !valid_utf8(bytes@),
        },
{
    std::str::from_utf8(bytes).ok()
}

/// Puts a marker byte in front of a payload.
pub fn with_marker(marker: u8, payload: Vec<u8>) -> (frame: Vec<u8>)
    ensures
        frame@ == seq![marker] + payload@,
{
    let mut payload = payload;
    let mut frame: Vec<u8> = Vec::new();
    frame.push(marker);
    frame.append(&mut payload);
    frame
}

/// Compresses `bytes` into one zlib stream at the given level. The
/// compressor is handed the input in pieces of at most `CHUNK_SIZE` bytes.
///
/// The result is what the compressor gives for these pieces at this level.
/// Where it gives a stream, the stream inflates to `bytes`.
pub fn deflate(bytes: &[u8], level: u32) -> (r: Option<Vec<u8>>)
    requires
        level <= crate::models::MAX_COMPRESSION_LEVEL,
    ensures
        match r {
            Some(stream) => deflated(bytes@, level) == Some(stream@) && zlib_inflated(stream@)
                == Some(bytes@),
            None => deflated(bytes@, level) is None,
        },
{
    let ghost pieces = pieces_of(bytes@);
    let mut encoder = new_encoder(level);
    if bytes.len() > CHUNK_SIZE {
        let mut start: usize = 0;
        let ghost mut done: int = 0;
        while start < bytes.len()
            invariant
                bytes@.len() > CHUNK_SIZE,
                pieces == pieces_of(bytes@),
                0 <= done <= pieces.len(),
                start == if done * CHUNK_SIZE <= bytes@.len() {
                    done * CHUNK_SIZE
                } else {
                    bytes@.len() as int
                },
                encoder_level(encoder) == level,
                encoder_pieces(encoder) == pieces.take(done),
                pieces.take(done).flatten() == bytes@.subrange(0, start as int),
                forall|i: int|
                    0 <= i < done ==> #[trigger] piece_accepted(level, pieces.take(i), pieces[i]),
            decreases bytes.len() - start,
        {
            let end: usize = if bytes.len() - start > CHUNK_SIZE {
                start + CHUNK_SIZE
            } else {
                bytes.len()
            };
            let chunk = slice_subrange(bytes, start, end);
            assert(0 < chunk@.len() <= CHUNK_SIZE);
            assert(done < pieces.len() && chunk@ == pieces[done]);
            match write_chunk(encoder, chunk) {
                Some(after) => {
                    encoder = after;
                },
                None => {
                    return None;
                },
            }
            proof {
                pieces.take(done).lemma_flatten_push(chunk@);
                assert(pieces.take(done).push(chunk@) =~= pieces.take(done + 1));
                done = done + 1;
            }
            start = end;
        }
        assert(pieces.take(done) =~= pieces);
    } else {
        assert(bytes@.len() <= CHUNK_SIZE);
        assert(encoder_pieces(encoder) =~= pieces.take(0) && bytes@ == pieces[0]);
        match write_chunk(encoder, bytes) {
            Some(after) => {
                encoder = after;
            },
            None => {
                return None;
            },
        }
        proof {
            Seq::<Seq<u8>>::empty().lemma_flatten_push(bytes@);
        }
    }
    finish(encoder)
}

/// The pieces in which a payload is handed to the compressor. A payload of
/// at most `CHUNK_SIZE` bytes is one piece. A larger one is cut into pieces
/// of `CHUNK_SIZE` bytes, the last of which may be shorter.
pub open spec fn pieces_of(bytes: Seq<u8>) -> Seq<Seq<u8>> {
    if bytes.len() <= CHUNK_SIZE {
        seq![bytes]
    } else {
        Seq::new(
            ((bytes.len() + CHUNK_SIZE - 1) / (CHUNK_SIZE as int)) as nat,
            |i: int|
                bytes.subrange(
                    i * CHUNK_SIZE,
                    if (i + 1) * CHUNK_SIZE <= bytes.len() {
                        (i + 1) * CHUNK_SIZE
                    } else {
                        bytes.len() as int
                    },
                ),
        )
    }
}

/// The zlib stream that compressing a payload at a level gives: what the
/// compressor returns when it is made at that level, takes the pieces of
/// the payload one after another and is finished; nothing where it refuses
/// a piece or fails to finish.
pub open spec fn deflated(bytes: Seq<u8>, level: u32) -> Option<Seq<u8>> {
    let pieces = pieces_of(bytes);
    if forall|i: int|
        0 <= i < pieces.len() ==> #[trigger] piece_accepted(level, pieces.take(i), pieces[i]) {
        finished_stream(level, pieces)
    } else {
        None
    }
}

/// Whether framing a payload under a policy fails: the payload is to be
/// compressed, and compressing it at the level of the policy gives nothing.
pub open spec fn compression_fails(payload: Seq<u8>, config: CompressionConfig) -> bool {
    config.compresses(payload.len()) && deflated(payload, config.level) is None
}

/// Frames a JSON text under a compression policy.
///
/// A text below the threshold, or any text while compression is off, is
/// always framed, raw. Otherwise the result is the compressed frame, or
/// the serialization error exactly where the compressor gives no stream.
pub fn encode_text(text: &str, config: &CompressionConfig) -> (r: Result<Vec<u8>, Error>)
    requires
        config.well_formed(),
    ensures
        match r {
            Ok(frame) => is_frame_of(frame@, encode_utf8(text@), *config) && frame_text(frame@)
                == Ok::<Seq<char>, Error>(text@),
            Err(e) => e == Error::Serialization && compression_fails(encode_utf8(text@), *config),
        },
{
    let bytes = text.as_bytes();
    if !config.enabled || bytes.len() < config.threshold {
        let frame = with_marker(MARKER_RAW, slice_to_vec(bytes));
        proof {
            lemma_frame_text(frame@, text@, *config);
        }
        Ok(frame)
    } else {
        match deflate(bytes, config.level) {
            Some(stream) => {
                let frame = with_marker(MARKER_COMPRESSED, stream);
                proof {
                    assert(frame@.skip(1) == stream@);
                    lemma_frame_text(frame@, text@, *config);
                }
                Ok(frame)
            },
            None => Err(Error::Serialization),
        }
    }
}

/// Encodes a value under a compression policy: its JSON text, framed.
///
/// Fails with the serialization error where the value has no JSON text, or
/// where the payload is to be compressed and the compressor fails.
pub fn encode(value: &serde_json::Value, config: &CompressionConfig) -> (r: Result<Vec<u8>, Error>)
    requires
        config.well_formed(),
    ensures
        match r {
            Ok(frame) => is_encoding_of(frame@, *value, *config) && decode_spec(frame@) == parsed(
                json_text(*value)->0,
            ),
            Err(e) => e == Error::Serialization && (json_text(*value) matches Some(text)
                ==> compression_fails(encode_utf8(text), *config)),
        },
{
    match to_text(value) {
        Some(text) => {
            let r = encode_text(text.as_str(), config);
            proof {
                if r is Ok {
                    lemma_decode_encode(r->Ok_0@, *value, *config);
                }
            }
            r
        },
        None => Err(Error::Serialization),
    }
}

/// Reads a JSON text as a value.
pub fn parse(text: &str) -> (r: Result<serde_json::Value, Error>)
    ensures
        r == parsed(text@),
{
    match parse_text(text) {
        Some(value) => Ok(value),
        None => Err(Error::CorruptPayload),
    }
}

/// Decodes a frame. Fails with `EmptyPayload` on no bytes at all, and with
/// `CorruptPayload` where the payload does not inflate, is not UTF-8, or is
/// not JSON.
pub fn decode(frame: &[u8]) -> (r: Result<serde_json::Value, Error>)
    ensures
        r == decode_spec(frame@),
{
    if frame.len() == 0 {
        return Err(Error::EmptyPayload);
    }
    let marker = frame[0];
    let body = slice_subrange(frame, 1, frame.len());
    if marker == MARKER_COMPRESSED {
        match inflate_to_string(body) {
            Some(text) => {
                proof {
                    encode_utf8_valid_utf8(text@);
                    encode_utf8_decode_utf8(text@);
                }
                parse(text.as_str())
            },
            None => Err(Error::CorruptPayload),
        }
    } else {
        match utf8_text(body) {
            Some(text) => {
                proof {
                    encode_utf8_valid_utf8(text@);
                    encode_utf8_decode_utf8(text@);
                }
                parse(text)
            },
            None => Err(Error::CorruptPayload),
        }
    }
}

/// A frame of a text's UTF-8 bytes carries that text, whatever the policy it
/// was framed under.
pub proof fn lemma_frame_text(frame: Seq<u8>, text: Seq<char>, config: CompressionConfig)
    requires
        is_frame_of(frame, encode_utf8(text), config),
    ensures
        frame_text(frame) == Ok::<Seq<char>, Error>(text),
{
    let payload = encode_utf8(text);
    encode_utf8_valid_utf8(text);
    encode_utf8_decode_utf8(text);
    if !config.compresses(payload.len()) {
        assert(frame.skip(1) == payload);
    }
}

/// Round trip: decoding an encoding of a value gives what `serde_json`
/// reads from the text that it printed for the value. Wherever `serde_json`
/// reads its own text back as the same value, decoding gives the value back.
pub proof fn lemma_decode_encode(frame: Seq<u8>, value: serde_json::Value, config: CompressionConfig)
    requires
        is_encoding_of(frame, value, config),
    ensures
        json_text(value) is Some,
        decode_spec(frame) == parsed(json_text(value)->0),
        json_parse(json_text(value)->0) == Some(value) ==> decode_spec(frame) == Ok::<
            serde_json::Value,
            Error,
        >(value),
{
    lemma_frame_text(frame, json_text(value)->0, config);
}

/// Threshold boundary: with compression on, a payload one byte short of the
/// threshold is framed raw and a payload of exactly the threshold is framed
/// compressed; with compression off every payload is framed raw. The marker
/// of a frame says which.
pub proof fn lemma_threshold_boundary(frame: Seq<u8>, payload: Seq<u8>, config: CompressionConfig)
    requires
        is_frame_of(frame, payload, config),
    ensures
        frame.len() >= 1,
        frame[0] == MARKER_COMPRESSED <==> config.enabled && payload.len() >= config.threshold,
        frame[0] == MARKER_RAW <==> !config.enabled || payload.len() < config.threshold,
        payload.len() == config.threshold - 1 ==> frame == seq![MARKER_RAW] + payload,
        config.enabled && payload.len() == config.threshold ==> frame[0] == MARKER_COMPRESSED,
        !config.enabled ==> frame == seq![MARKER_RAW] + payload,
{
}

} // verus!
