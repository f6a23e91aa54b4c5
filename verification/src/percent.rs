//! Percent-decoding of a path segment.
//!
//! The decoding itself is the router crate's, and reading bytes as text is the
//! standard library's. This module names what they return, states the cases
//! that their documentation settles, and puts the two together.

use vstd::prelude::*;
use vstd::utf8::{decode_utf8, encode_scalar, encode_utf8, valid_utf8};

verus! {

/// The byte of the character `%`, which starts an escape sequence.
pub const PERCENT: u8 = 0x25;

/// The result of `actix_router::Quoter::requote` on `bytes`, for a quoter that
/// protects no byte: `None` where nothing had to be decoded, else the bytes
/// with every well-formed `%XY` replaced by the byte it stands for.
pub uninterp spec fn requoted(bytes: Seq<u8>) -> Option<Seq<u8>>;

/// The text that `String::from_utf8_lossy` makes of `bytes`: what they encode,
/// with U+FFFD in place of each part that is not UTF-8.
pub uninterp spec fn utf8_lossy(bytes: Seq<u8>) -> Seq<char>;

/// The bytes that a segment's escapes decode to, or `None` where the segment
/// stands as it is. A segment without `%` has no escape.
pub open spec fn unescaped(segment: Seq<char>) -> Option<Seq<u8>> {
    if segment.contains('%') {
        requoted(encode_utf8(segment))
    } else {
        None
    }
}

/// The text that `bytes` are read as: what they encode where they are UTF-8.
pub open spec fn lossy_text(bytes: Seq<u8>) -> Seq<char> {
    if valid_utf8(bytes) {
        decode_utf8(bytes)
    } else {
        utf8_lossy(bytes)
    }
}

/// The text of a segment, given the bytes that its escapes decoded to.
pub open spec fn text_of(segment: Seq<char>, decoded: Option<Seq<u8>>) -> Seq<char> {
    match decoded {
        None => segment,
        Some(bytes) => lossy_text(bytes),
    }
}

/// The text that a path segment stands for once its escapes are decoded.
///
/// A segment without `%` stands for itself. Any other is decoded once, as bytes,
/// and the bytes are read as UTF-8.
pub open spec fn percent_decoded(segment: Seq<char>) -> Seq<char> {
    text_of(segment, unescaped(segment))
}

/// What an optional byte vector holds, as a sequence.
pub open spec fn bytes_of(v: Option<Vec<u8>>) -> Option<Seq<u8>> {
    match v {
        None => None,
        Some(bytes) => Some(bytes@),
    }
}

/// Calls `actix_router::Quoter::requote` on a quoter built with an empty
/// protected set, so that every escape is decoded.
///
/// Trusted: the result is the one named [`requoted`], and it is `None` when
/// `bytes` holds no `%`, since there is then no escape to decode.
#[verifier::external_body]
fn requote(bytes: &[u8]) -> (r: Option<Vec<u8>>)
    ensures
        bytes_of(r) == requoted(bytes@),
        !bytes@.contains(PERCENT) ==> r is None,
{
    actix_router::Quoter::new(b"", b"").requote(bytes)
}

/// Calls `String::from_utf8_lossy` and takes the text as an owned `String`.
///
/// Trusted: the result is the one named [`utf8_lossy`], and bytes that are
/// UTF-8 come back as the text they encode.
#[verifier::external_body]
fn from_utf8_lossy(bytes: &[u8]) -> (r: String)
    ensures
        r@ == utf8_lossy(bytes@),
        valid_utf8(bytes@) ==> r@ == decode_utf8(bytes@),
{
    String::from_utf8_lossy(bytes).into_owned()
}

/// The encoding of a character other than `%` holds no byte `%`.
proof fn lemma_scalar_has_no_percent(c: char)
    requires
        c != '%',
    ensures
        !encode_scalar(c as u32).contains(PERCENT),
{
    let s = c as u32;
    let bytes = encode_scalar(s);
    assert(s <= 0x7F ==> (s & 0x7F) as u8 != 0x25) by (bit_vector)
        requires
            s != 0x25,
    ;
    assert((0xC0 | ((s >> 6) & 0x1F) as u8) != 0x25) by (bit_vector);
    assert((0xE0 | ((s >> 12) & 0x0F) as u8) != 0x25) by (bit_vector);
    assert((0xF0 | ((s >> 18) & 0x7) as u8) != 0x25) by (bit_vector);
    assert((0x80 | (s & 0x3F) as u8) != 0x25) by (bit_vector);
    assert((0x80 | ((s >> 6) & 0x3F) as u8) != 0x25) by (bit_vector);
    assert((0x80 | ((s >> 12) & 0x3F) as u8) != 0x25) by (bit_vector);
    assert forall|i: int| 0 <= i < bytes.len() implies bytes[i] != PERCENT by {}
}

/// The UTF-8 encoding of text without `%` holds no byte `%`.
pub proof fn lemma_encoding_has_no_percent(chars: Seq<char>)
    requires
        !chars.contains('%'),
    ensures
        !encode_utf8(chars).contains(PERCENT),
    decreases chars.len(),
{
    if chars.len() > 0 {
        let head = encode_scalar(chars[0] as u32);
        let rest = chars.drop_first();
        assert(chars[0] != '%');
        assert forall|i: int| 0 <= i < rest.len() implies rest[i] != '%' by {
            assert(rest[i] == chars[i + 1]);
        }
        lemma_scalar_has_no_percent(chars[0]);
        lemma_encoding_has_no_percent(rest);
        let tail = encode_utf8(rest);
        assert forall|i: int| 0 <= i < (head + tail).len() implies (head + tail)[i] != PERCENT by {
            if i < head.len() {
                assert(head.contains(head[i]));
            } else {
                assert(tail.contains(tail[i - head.len()]));
            }
        }
    }
}

/// Gives the text of a segment from the bytes that its escapes decoded to:
/// the segment itself where there was nothing to decode.
pub fn segment_text(segment: &str, decoded: Option<Vec<u8>>) -> (r: String)
    ensures
        r@ == text_of(segment@, bytes_of(decoded)),
{
    match decoded {
        None => segment.to_owned(),
        Some(bytes) => from_utf8_lossy(bytes.as_slice()),
    }
}

/// Decodes the escapes of a path segment, once.
pub fn percent_decode(segment: &str) -> (r: String)
    ensures
        r@ == percent_decoded(segment@),
{
    proof {
        if !segment@.contains('%') {
            lemma_encoding_has_no_percent(segment@);
        }
    }
    segment_text(segment, requote(segment.as_bytes()))
}

} // verus!
