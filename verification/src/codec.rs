//! Classification of raw file bytes into UTF-8 (with or without a leading
//! byte-order mark) or Shift_JIS, the decode into text plus metadata, and
//! the re-encode of text into bytes for a save.

use vstd::prelude::*;
use vstd::slice::slice_subrange;
use vstd::string::StrSliceExecFns;
use vstd::utf8::*;

use crate::sjis::{
    shift_jis_bytes, shift_jis_chars, shift_jis_exact, shift_jis_from_str, shift_jis_lossless,
    shift_jis_ok, shift_jis_to_string,
};
use crate::text::{
    detect_line_ending, line_ending_of, DecodeError, DecodedDocument, LineEnding, TextEncoding,
};

verus! {

/// The three-byte UTF-8 byte-order mark.
pub open spec fn bom_prefix() -> Seq<u8> {
    seq![0xefu8, 0xbbu8, 0xbfu8]
}

/// True when the bytes begin with the UTF-8 byte-order mark.
pub open spec fn has_bom(b: Seq<u8>) -> bool {
    b.len() >= 3 && b[0] == 0xef && b[1] == 0xbb && b[2] == 0xbf
}

/// The bytes with the leading byte-order mark removed.
pub open spec fn strip_bom(b: Seq<u8>) -> Seq<u8>
    recommends
        has_bom(b),
{
    b.subrange(3, b.len() as int)
}

/// Whether the decoder accepts the bytes: behind a byte-order mark only
/// strict UTF-8 is admitted, otherwise strict UTF-8 first and strict
/// Shift_JIS as the fallback.
pub open spec fn decode_ok(b: Seq<u8>) -> bool {
    if has_bom(b) {
        valid_utf8(strip_bom(b))
    } else {
        valid_utf8(b) || shift_jis_ok(b)
    }
}

/// The text an accepted byte sequence decodes to.
pub open spec fn decoded_text(b: Seq<u8>) -> Seq<char>
    recommends
        decode_ok(b),
{
    if has_bom(b) {
        decode_utf8(strip_bom(b))
    } else if valid_utf8(b) {
        decode_utf8(b)
    } else {
        shift_jis_chars(b)
    }
}

/// The encoding an accepted byte sequence is classified as.
pub open spec fn decoded_encoding(b: Seq<u8>) -> TextEncoding {
    if has_bom(b) || valid_utf8(b) {
        TextEncoding::Utf8
    } else {
        TextEncoding::ShiftJis
    }
}

/// The bytes a text is re-encoded to under the chosen encoding. The UTF-8
/// choice is lossless; the Shift_JIS choice replaces unmappable characters.
pub open spec fn encoded_bytes(t: Seq<char>, e: TextEncoding) -> Seq<u8> {
    match e {
        TextEncoding::Utf8 => encode_utf8(t),
        TextEncoding::ShiftJis => shift_jis_bytes(t),
    }
}

/// True when the text does not begin with U+FEFF, the character whose UTF-8
/// encoding is the byte-order mark; a re-encoded text that begins with it
/// would be read back as a byte-order-marked file.
pub open spec fn leading_bom_free(t: Seq<char>) -> bool {
    t.len() > 0 ==> t[0] != '\u{feff}'
}

/// Relies on `core::str::from_utf8`: it returns `Ok` exactly when the bytes
/// are valid UTF-8, and then the returned string is the text those bytes
/// encode.
#[verifier::external_body]
fn utf8_to_string(b: &[u8]) -> (r: Option<String>)
    ensures
        r is Some <==> valid_utf8(b@),
        r matches Some(s) ==> s@ == decode_utf8(b@),
{
    match core::str::from_utf8(b) {
        Ok(s) => Some(s.to_string()),
        Err(_) => None,
    }
}

/// Classifies raw file bytes as UTF-8 with a byte-order mark, UTF-8 without
/// one, or Shift_JIS — in that order, each by a strict decode — and returns
/// the decoded text together with the detected encoding and line-ending
/// convention. Bytes that no strict decoder accepts are rejected rather
/// than force-decoded; behind a byte-order mark nothing but UTF-8 is tried.
/// The length bound is a machine limit of the Shift_JIS decoder, not a rule
/// of the format.
pub fn decode(bytes: &[u8]) -> (r: Result<DecodedDocument, DecodeError>)
    requires
        bytes@.len() * 8 <= usize::MAX,
    ensures
        r is Ok <==> decode_ok(bytes@),
        r matches Ok(d) ==> ({
            &&& d.content@ == decoded_text(bytes@)
            &&& d.encoding == decoded_encoding(bytes@)
            &&& d.line_ending == line_ending_of(decoded_text(bytes@))
        }),
        r matches Err(e) ==> e == DecodeError::UnsupportedEncoding,
{
    if bytes.len() >= 3 && bytes[0] == 0xef && bytes[1] == 0xbb && bytes[2] == 0xbf {
        let rest = slice_subrange(bytes, 3, bytes.len());
        match utf8_to_string(rest) {
            Some(content) => {
                let line_ending = detect_line_ending(content.as_str());
                Ok(DecodedDocument { content, encoding: TextEncoding::Utf8, line_ending })
            },
            None => Err(DecodeError::UnsupportedEncoding),
        }
    } else {
        match utf8_to_string(bytes) {
            Some(content) => {
                let line_ending = detect_line_ending(content.as_str());
                Ok(DecodedDocument { content, encoding: TextEncoding::Utf8, line_ending })
            },
            None => match shift_jis_to_string(bytes) {
                Some(content) => {
                    let line_ending = detect_line_ending(content.as_str());
                    Ok(DecodedDocument { content, encoding: TextEncoding::ShiftJis, line_ending })
                },
                None => Err(DecodeError::UnsupportedEncoding),
            },
        }
    }
}

/// Re-encodes text into bytes under the chosen encoding: UTF-8 is a direct
/// lossless transcription; Shift_JIS is best-effort, with unmappable
/// characters silently replaced. The conditional clauses state the
/// round-trip law: a re-encoded text decodes back to itself, under the
/// encoding it was written with, whenever the text is faithfully
/// representable in that encoding (and, for Shift_JIS, the bytes do not
/// happen to read as UTF-8, in which case the decoder classifies them so).
pub fn encode_text(content: &str, encoding: TextEncoding) -> (r: Vec<u8>)
    requires
        encoding == TextEncoding::ShiftJis ==> content@.len() * 16 <= usize::MAX,
    ensures
        r@ == encoded_bytes(content@, encoding),
        encoding == TextEncoding::Utf8 && leading_bom_free(content@) ==> ({
            &&& decode_ok(r@)
            &&& decoded_text(r@) == content@
            &&& decoded_encoding(r@) == TextEncoding::Utf8
        }),
        encoding == TextEncoding::ShiftJis && shift_jis_lossless(content@) && shift_jis_exact(
            content@,
        ) && !has_bom(r@) && !valid_utf8(r@) ==> ({
            &&& decode_ok(r@)
            &&& decoded_text(r@) == content@
            &&& decoded_encoding(r@) == TextEncoding::ShiftJis
        }),
{
    match encoding {
        TextEncoding::Utf8 => {
            let r = content.as_bytes_vec();
            proof {
                if leading_bom_free(content@) {
                    lemma_utf8_round_trip(content@);
                }
            }
            r
        },
        TextEncoding::ShiftJis => {
            let (r, _had_unmappable) = shift_jis_from_str(content);
            r
        },
    }
}

/// The three bytes of the byte-order mark are the width-3 UTF-8 encoding of
/// the codepoint U+FEFF.
proof fn lemma_bom_codepoint()
    ensures
        codepoint_width_3(0xef, 0xbb, 0xbf) == 0xfeff,
{
    assert(((0xefu8 & 0x0f) as u32) == 0x0fu32) by (bit_vector);
    assert(((0xbbu8 & 0x3f) as u32) == 0x3bu32) by (bit_vector);
    assert(((0xbfu8 & 0x3f) as u32) == 0x3fu32) by (bit_vector);
    assert((0x0fu32 << 12) | (0x3bu32 << 6) | 0x3fu32 == 0xfeffu32) by (bit_vector);
}

/// Bytes that begin with the byte-order mark and continue with valid UTF-8
/// are valid UTF-8 as a whole.
proof fn lemma_bom_prefixed_valid(b: Seq<u8>)
    requires
        has_bom(b),
        valid_utf8(strip_bom(b)),
    ensures
        valid_utf8(b),
{
    let bom = bom_prefix();
    lemma_bom_codepoint();
    assert(is_leading_byte_width_3(bom[0]));
    assert(is_continuation_byte(bom[1]) && is_continuation_byte(bom[2]));
    assert(decode_first_codepoint(bom) == codepoint_width_3(0xef, 0xbb, 0xbf));
    assert(valid_first_scalar(bom));
    assert(valid_utf8(Seq::<u8>::empty()));
    assert(pop_first_scalar(bom) =~= Seq::<u8>::empty());
    assert(valid_utf8(pop_first_scalar(bom)));
    assert(valid_utf8(bom));
    valid_utf8_concat(bom, strip_bom(b));
    assert(b =~= bom + strip_bom(b));
}

/// The byte-order mark is transparent to UTF-8 validity: bytes that carry
/// it are valid exactly when the remainder is, and they decode to U+FEFF
/// followed by the remainder's text.
pub proof fn lemma_bom_transparent(b: Seq<u8>)
    requires
        has_bom(b),
    ensures
        valid_utf8(b) <==> valid_utf8(strip_bom(b)),
        valid_utf8(b) ==> decode_utf8(b) == seq!['\u{feff}'] + decode_utf8(strip_bom(b)),
{
    if valid_utf8(strip_bom(b)) {
        lemma_bom_prefixed_valid(b);
    }
    if valid_utf8(b) {
        lemma_bom_codepoint();
        assert(is_leading_byte_width_3(b[0]));
        assert(decode_first_codepoint(b) == codepoint_width_3(0xef, 0xbb, 0xbf));
        assert(length_of_first_scalar(b) == 3);
        assert(pop_first_scalar(b) =~= strip_bom(b));
        char_u32_cast('\u{feff}', 0xfeff);
        assert(decode_utf8(b) =~= seq!['\u{feff}'] + decode_utf8(strip_bom(b)));
    }
}

/// Law: a byte sequence that is valid UTF-8 and carries a leading byte-order
/// mark decodes as UTF-8, and its text is the input's text with the mark
/// stripped.
pub proof fn lemma_decode_bom_utf8(b: Seq<u8>)
    requires
        has_bom(b),
        valid_utf8(b),
    ensures
        decode_ok(b),
        decoded_encoding(b) == TextEncoding::Utf8,
        decoded_text(b) == decode_utf8(strip_bom(b)),
        decode_utf8(b) == seq!['\u{feff}'] + decoded_text(b),
{
    lemma_bom_transparent(b);
}

/// Law: a byte sequence without a byte-order mark that is valid UTF-8
/// decodes as UTF-8, whatever Shift_JIS would have made of it.
pub proof fn lemma_decode_plain_utf8(b: Seq<u8>)
    requires
        !has_bom(b),
        valid_utf8(b),
    ensures
        decode_ok(b),
        decoded_encoding(b) == TextEncoding::Utf8,
        decoded_text(b) == decode_utf8(b),
{
}

/// Law: a byte sequence without a byte-order mark that is not valid UTF-8
/// but that the strict Shift_JIS decoder accepts decodes as Shift_JIS.
pub proof fn lemma_decode_shift_jis(b: Seq<u8>)
    requires
        !has_bom(b),
        !valid_utf8(b),
        shift_jis_ok(b),
    ensures
        decode_ok(b),
        decoded_encoding(b) == TextEncoding::ShiftJis,
        decoded_text(b) == shift_jis_chars(b),
{
}

/// Law: a byte sequence that neither strict decoder accepts is rejected.
pub proof fn lemma_decode_rejects(b: Seq<u8>)
    requires
        !valid_utf8(b),
        !shift_jis_ok(b),
    ensures
        !decode_ok(b),
{
    if has_bom(b) && valid_utf8(strip_bom(b)) {
        lemma_bom_prefixed_valid(b);
    }
}

/// Law: a decoded document is a faithful transcription of its file. For a
/// file decoded as UTF-8, re-encoding the text under UTF-8 reproduces the
/// original bytes exactly — after the stripped byte-order mark where the
/// file had one.
pub proof fn lemma_reencode_faithful(b: Seq<u8>)
    requires
        decode_ok(b),
        decoded_encoding(b) == TextEncoding::Utf8,
    ensures
        !has_bom(b) ==> encoded_bytes(decoded_text(b), TextEncoding::Utf8) == b,
        has_bom(b) ==> encoded_bytes(decoded_text(b), TextEncoding::Utf8) == strip_bom(b),
{
    if has_bom(b) {
        decode_utf8_encode_utf8(strip_bom(b));
    } else {
        decode_utf8_encode_utf8(b);
    }
}

/// Law: the round trip through UTF-8. Any text that does not begin with
/// U+FEFF, once encoded as UTF-8, decodes back to the very same text and is
/// classified as UTF-8. (A text beginning with U+FEFF encodes to bytes that
/// carry a byte-order mark, which the decoder strips.)
pub proof fn lemma_utf8_round_trip(t: Seq<char>)
    requires
        leading_bom_free(t),
    ensures
        ({
            let b = encoded_bytes(t, TextEncoding::Utf8);
            &&& decode_ok(b)
            &&& decoded_text(b) == t
            &&& decoded_encoding(b) == TextEncoding::Utf8
        }),
{
    let b = encode_utf8(t);
    encode_utf8_valid_utf8(t);
    encode_utf8_decode_utf8(t);
    if has_bom(b) {
        assert(t.len() > 0);
        encode_utf8_first_scalar(t);
        assert(is_leading_byte_width_3(b[0]));
        assert(decode_first_codepoint(b) == codepoint_width_3(0xef, 0xbb, 0xbf));
        lemma_bom_codepoint();
        assert(t[0] as u32 == 0xfeff);
        char_u32_cast(t[0], 0xfeff);
        assert(t[0] == '\u{feff}');
        assert(false);
    }
}

} // verus!
