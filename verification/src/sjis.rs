//! The Shift_JIS side of the codec, relied on from the `encoding_rs` crate.
//!
//! What the strict Shift_JIS decoder accepts, and which bytes or characters
//! it maps to which, is given by large mapping tables; those results are
//! therefore given names here rather than written out, and the trusted
//! wrappers state how the names relate to each other.

use vstd::prelude::*;

verus! {

/// Whether the strict Shift_JIS decoder accepts the bytes without any
/// malformed sequence.
pub uninterp spec fn shift_jis_ok(b: Seq<u8>) -> bool;

/// The text the strict Shift_JIS decoder produces from the bytes.
pub uninterp spec fn shift_jis_chars(b: Seq<u8>) -> Seq<char>;

/// The bytes the Shift_JIS encoder produces from the text, with unmappable
/// characters replaced by numeric character references.
pub uninterp spec fn shift_jis_bytes(t: Seq<char>) -> Seq<u8>;

/// Whether every character of the text is mappable to Shift_JIS, so that the
/// encoder performs no replacement.
pub uninterp spec fn shift_jis_lossless(t: Seq<char>) -> bool;

/// True when the text avoids the three characters that the Shift_JIS
/// encoder silently rewrites without raising its replacement flag: the yen
/// sign U+00A5 becomes 0x5C, the overline U+203E becomes 0x7E, and the
/// minus sign U+2212 becomes 0x81 0x7C — the bytes of the fullwidth
/// hyphen-minus U+FF0D. Only then does a clean encode decode back to the
/// very same characters.
pub open spec fn shift_jis_exact(t: Seq<char>) -> bool {
    forall|i: int|
        0 <= i < t.len() ==> (#[trigger] t[i]) != '\u{a5}' && t[i] != '\u{203e}' && t[i]
            != '\u{2212}'
}

/// Relies on `encoding_rs::SHIFT_JIS`'s `decode_without_bom_handling`: a
/// whole-buffer decode whose flag reports whether any malformed sequence had
/// to be replaced; the text is returned only when nothing was replaced, so
/// that acceptance means a strict decode. The result depends on the bytes
/// alone. The length bound keeps the library away from the documented panic
/// on output-buffer size overflow.
#[verifier::external_body]
pub(crate) fn shift_jis_to_string(b: &[u8]) -> (r: Option<String>)
    requires
        b@.len() * 8 <= usize::MAX,
    ensures
        r is Some <==> shift_jis_ok(b@),
        r matches Some(s) ==> s@ == shift_jis_chars(b@),
{
    let (cow, had_errors) = encoding_rs::SHIFT_JIS.decode_without_bom_handling(b);
    if had_errors {
        None
    } else {
        Some(cow.into_owned())
    }
}

/// Relies on `encoding_rs::SHIFT_JIS`'s `encode`: a whole-buffer encode that
/// replaces unmappable characters with numeric character references and
/// reports in its flag whether any such replacement happened. The result
/// depends on the text alone. Per the WHATWG Shift_JIS coder pair that
/// `encoding_rs` implements, an encode that replaced nothing and rewrote
/// nothing (see [`shift_jis_exact`]) produces bytes that the strict decoder
/// maps back to the original text. The length bound keeps the library away
/// from the documented panic on output-buffer size overflow.
#[verifier::external_body]
pub(crate) fn shift_jis_from_str(s: &str) -> (r: (Vec<u8>, bool))
    requires
        s@.len() * 16 <= usize::MAX,
    ensures
        r.0@ == shift_jis_bytes(s@),
        r.1 == !shift_jis_lossless(s@),
        !r.1 && shift_jis_exact(s@) ==> shift_jis_ok(r.0@) && shift_jis_chars(r.0@) == s@,
{
    let (cow, _encoding_used, had_errors) = encoding_rs::SHIFT_JIS.encode(s);
    (cow.into_owned(), had_errors)
}

} // verus!
