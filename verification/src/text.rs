//! The vocabulary of the persistence core: which encodings a file may have,
//! which line-ending conventions are recognized, and the record a successful
//! decode produces.

use vstd::prelude::*;
use vstd::string::StrSliceExecFns;

verus! {

/// The two byte encodings the editor supports. A caller attaches one of
/// these to a write request; the decoder reports which one a file had.
#[derive(Clone, Copy, PartialEq, Eq, Structural, Debug)]
pub enum TextEncoding {
    Utf8,
    ShiftJis,
}

/// Dominant line-ending convention of a decoded document. Classification is
/// a presence test: one `\r\n` anywhere makes the whole document `Crlf`.
#[derive(Clone, Copy, PartialEq, Eq, Structural, Debug)]
pub enum LineEnding {
    Lf,
    Crlf,
}

/// Why a decode was rejected. The decoder never guesses: bytes that neither
/// strict decoder accepts are refused rather than force-decoded with
/// replacement characters.
#[derive(Clone, Copy, PartialEq, Eq, Structural, Debug)]
pub enum DecodeError {
    UnsupportedEncoding,
}

/// A successfully decoded file: its text, the encoding the bytes were found
/// to be in, and the line-ending convention detected in the text.
#[derive(Debug)]
pub struct DecodedDocument {
    pub content: String,
    pub encoding: TextEncoding,
    pub line_ending: LineEnding,
}

/// True when the text contains a carriage-return/line-feed pair somewhere.
pub open spec fn has_crlf(t: Seq<char>) -> bool {
    exists|i: int| 0 <= i && i + 1 < t.len() && (#[trigger] t[i]) == '\r' && t[i + 1] == '\n'
}

/// The line-ending classification of a text: `Crlf` if any `\r\n` pair is
/// present, else `Lf`. A presence test, not a majority vote.
pub open spec fn line_ending_of(t: Seq<char>) -> LineEnding {
    if has_crlf(t) {
        LineEnding::Crlf
    } else {
        LineEnding::Lf
    }
}

/// Scans the text for a `\r\n` pair and classifies its line-ending
/// convention accordingly.
pub fn detect_line_ending(s: &str) -> (r: LineEnding)
    ensures
        r == line_ending_of(s@),
{
    let n = s.unicode_len();
    let mut i: usize = 0;
    while n - i > 1
        invariant
            n == s@.len(),
            i <= n,
            forall|j: int| 0 <= j < i ==> !((#[trigger] s@[j]) == '\r' && j + 1 < n && s@[j + 1]
                == '\n'),
        decreases n - i,
    {
        if s.get_char(i) == '\r' && s.get_char(i + 1) == '\n' {
            assert(has_crlf(s@));
            return LineEnding::Crlf;
        }
        i += 1;
    }
    assert(!has_crlf(s@));
    LineEnding::Lf
}

} // verus!
