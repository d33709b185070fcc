//! The syntax of a date: four digits, a dash, two digits, a dash, two digits.
//!
//! Only the shape is checked. Month 13 and day 40 pass: whether the day
//! exists in any calendar is not this module's question.

use vstd::prelude::*;
use vstd::utf8::{
    decode_utf8, encode_utf8, encode_utf8_decode_utf8, encode_utf8_valid_utf8, is_ascii_chars,
    is_ascii_chars_encode_utf8, valid_utf8,
};

verus! {

/// Whether `text` has the shape `YYYY-MM-DD`.
pub open spec fn date_syntax(text: Seq<char>) -> bool {
    &&& text.len() == 10
    &&& text[4] == '-'
    &&& text[7] == '-'
    &&& forall|i: int| 0 <= i < 10 && i != 4 && i != 7 ==> '0' <= #[trigger] text[i] <= '9'
}

/// Whether `bytes` are the ASCII codes of a text of the shape `YYYY-MM-DD`.
pub open spec fn date_syntax_bytes(bytes: Seq<u8>) -> bool {
    &&& bytes.len() == 10
    &&& bytes[4] == 0x2d
    &&& bytes[7] == 0x2d
    &&& forall|i: int| 0 <= i < 10 && i != 4 && i != 7 ==> 0x30 <= #[trigger] bytes[i] <= 0x39
}

/// The text whose characters are the given ASCII codes.
pub open spec fn ascii_text(bytes: Seq<u8>) -> Seq<char> {
    Seq::new(bytes.len(), |i: int| bytes[i] as char)
}

/// Bytes of the shape of a date are well-formed UTF-8, and the text they
/// encode has the shape of a date.
pub proof fn lemma_date_bytes_decode(bytes: Seq<u8>)
    requires
        date_syntax_bytes(bytes),
    ensures
        valid_utf8(bytes),
        decode_utf8(bytes) == ascii_text(bytes),
        date_syntax(decode_utf8(bytes)),
{
    let text = ascii_text(bytes);
    assert(is_ascii_chars(text)) by {
        assert forall|i: int| 0 <= i < text.len() implies '\0' <= #[trigger] text[i] <= '\u{7f}' by {
            assert(bytes[i] <= 0x39);
        }
    }
    is_ascii_chars_encode_utf8(text);
    assert(encode_utf8(text) =~= bytes);
    encode_utf8_valid_utf8(text);
    encode_utf8_decode_utf8(text);
    assert(date_syntax(text));
}

/// A text has the shape of a date exactly when its UTF-8 bytes do.
pub proof fn lemma_date_syntax_by_bytes(text: Seq<char>)
    ensures
        date_syntax(text) <==> date_syntax_bytes(encode_utf8(text)),
{
    let bytes = encode_utf8(text);
    if date_syntax(text) {
        assert(is_ascii_chars(text));
        is_ascii_chars_encode_utf8(text);
        assert(date_syntax_bytes(bytes));
    }
    if date_syntax_bytes(bytes) {
        lemma_date_bytes_decode(bytes);
        encode_utf8_decode_utf8(text);
    }
}

/// Checks bytes for the shape of a date.
pub fn is_valid_date_bytes(bytes: &[u8]) -> (ok: bool)
    ensures
        ok == date_syntax_bytes(bytes@),
{
    if bytes.len() != 10 {
        return false;
    }
    let mut i: usize = 0;
    while i < 10
        invariant
            i <= 10,
            bytes@.len() == 10,
            i > 4 ==> bytes@[4] == 0x2d,
            i > 7 ==> bytes@[7] == 0x2d,
            forall|j: int| 0 <= j < i && j != 4 && j != 7 ==> 0x30 <= #[trigger] bytes@[j] <= 0x39,
        decreases 10 - i,
    {
        let byte = bytes[i];
        if i == 4 || i == 7 {
            if byte != 0x2d {
                return false;
            }
        } else if byte < 0x30 || byte > 0x39 {
            return false;
        }
        i += 1;
    }
    true
}

/// Checks a text for the shape of a date.
pub fn is_valid_date(date: &str) -> (ok: bool)
    ensures
        ok == date_syntax(date@),
{
    proof {
        lemma_date_syntax_by_bytes(date@);
    }
    is_valid_date_bytes(date.as_bytes())
}

} // verus!
