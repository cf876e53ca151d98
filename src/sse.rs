//! Rewriting of one Server-Sent-Events frame (`data: <json>\n\n`): the JSON
//! payload gets its usage details completed, and every frame that is not such
//! a payload, or needs no change, passes through byte for byte.
use vstd::prelude::*;
use vstd::slice::slice_to_vec;
use vstd::string::StringSliceAdditionalSpecFns;
use vstd::utf8::{decode_utf8, encode_utf8, valid_utf8};

use crate::json::{decode_value, encode_value, json_bytes, parse_json, Tree};
use crate::patch::{event_needs_fix, patch_event, patch_event_tree, FixError};
use crate::text::{after_prefix, append_bytes, same_bytes, text_of, trim, trimmed};

verus! {

broadcast use vstd::utf8::group_utf8_lib;

/// The field name that starts a data line.
pub open spec fn data_field() -> Seq<char> {
    "data: "@
}

/// The payload that ends a stream.
pub open spec fn done_marker() -> Seq<char> {
    "[DONE]"@
}

/// The trimmed payload of a data frame, unless the text is no data frame or
/// carries the end-of-stream marker.
pub open spec fn frame_payload(s: Seq<char>) -> Option<Seq<char>> {
    if data_field().is_prefix_of(s) {
        let p = trim(s.skip(data_field().len() as int));
        if p == done_marker() {
            None
        } else {
            Some(p)
        }
    } else {
        None
    }
}

/// The rewritten document of a frame, when its payload is JSON that lacks
/// usage details.
pub open spec fn frame_rewrite(c: Seq<u8>) -> Option<Tree> {
    match frame_payload(decode_utf8(c)) {
        Some(p) => match parse_json(encode_utf8(p)) {
            Some(t) => if event_needs_fix(t) {
                Some(patch_event_tree(t))
            } else {
                None
            },
            None => None,
        },
        None => None,
    }
}

/// A data frame carrying the given payload bytes.
pub open spec fn data_frame(payload: Seq<u8>) -> Seq<u8> {
    encode_utf8(data_field()) + payload + encode_utf8("\n\n"@)
}

/// What `fix_streaming_chunk` makes of a chunk.
pub open spec fn chunk_rewrite(c: Seq<u8>) -> Result<Seq<u8>, FixError> {
    if !valid_utf8(c) {
        Err(FixError::Decode)
    } else {
        match frame_rewrite(c) {
            None => Ok(c),
            Some(t) => Ok(data_frame(json_bytes(t))),
        }
    }
}

/// What `filter_chunk` sends on for a chunk: the rewritten frame, or the
/// chunk itself wherever the rewrite does not apply or fails.
pub open spec fn filtered_chunk(c: Seq<u8>) -> Seq<u8> {
    match chunk_rewrite(c) {
        Ok(out) => out,
        Err(_) => c,
    }
}

/// Rewrites one SSE frame whose JSON payload lacks `response.usage` details;
/// every other frame comes back unchanged. It fails only on a chunk that is
/// not UTF-8.
pub fn fix_streaming_chunk(chunk: &[u8]) -> (r: Result<Vec<u8>, FixError>)
    ensures
        r is Ok <==> valid_utf8(chunk@),
        match r {
            Ok(out) => chunk_rewrite(chunk@) == Ok::<Seq<u8>, FixError>(out@),
            Err(e) => chunk_rewrite(chunk@) == Err::<Seq<u8>, FixError>(e),
        },
{
    let text = match text_of(chunk) {
        Some(t) => t,
        None => return Err(FixError::Decode),
    };
    proof {
        reveal_strlit("data: ");
        reveal_strlit("[DONE]");
        reveal_strlit("\n\n");
    }
    let ghost s = decode_utf8(chunk@);
    let rest = match after_prefix(text, "data: ") {
        Some(rest) => rest,
        None => return Ok(slice_to_vec(chunk)),
    };
    let payload = trimmed(rest);
    if same_bytes(payload.as_bytes(), "[DONE]".as_bytes()) {
        assert(decode_utf8(encode_utf8(payload@)) == decode_utf8(encode_utf8("[DONE]"@)));
        return Ok(slice_to_vec(chunk));
    }
    assert(payload@ != done_marker());
    let doc = match decode_value(payload.as_bytes()) {
        Ok(doc) => doc,
        Err(_) => return Ok(slice_to_vec(chunk)),
    };
    let (doc, fixed) = patch_event(doc);
    if !fixed {
        return Ok(slice_to_vec(chunk));
    }
    let json = encode_value(&doc).unwrap();
    let mut out: Vec<u8> = Vec::new();
    append_bytes(&mut out, "data: ".as_bytes());
    append_bytes(&mut out, json.as_slice());
    append_bytes(&mut out, "\n\n".as_bytes());
    assert(out@ =~= data_frame(json@));
    Ok(out)
}

/// Rewrites one SSE frame as `fix_streaming_chunk` does, and passes the chunk
/// through unchanged where that fails.
pub fn filter_chunk(chunk: &[u8]) -> (r: Vec<u8>)
    ensures
        r@ == filtered_chunk(chunk@),
{
    match fix_streaming_chunk(chunk) {
        Ok(out) => out,
        Err(_) => slice_to_vec(chunk),
    }
}


/// A chunk that is not UTF-8, not a data frame, the end-of-stream marker, or
/// a data frame whose payload is not JSON passes through `filter_chunk`
/// unchanged.
pub proof fn lemma_filter_passes_through(c: Seq<u8>)
    requires
        !valid_utf8(c) || frame_payload(decode_utf8(c)) is None || parse_json(
            encode_utf8(frame_payload(decode_utf8(c))->0),
        ) is None,
    ensures
        filtered_chunk(c) == c,
{
}

} // verus!
