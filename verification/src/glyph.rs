//! Which glyphs a dump is asked for.

use vstd::prelude::*;
use vstd::utf8::{is_ascii_chars, is_ascii_chars_encode_utf8};
use crate::error::DumpError;

verus! {

/// The glyphs to dump: the one with a given id, or all of them.
#[derive(Clone, Copy, Debug, PartialEq, Eq, Structural)]
pub enum GlyphToDump {
    /// The glyph with this id.
    Id(u16),
    /// Every glyph that has a document.
    All,
}

/// Whether `c` is one of the digits `0` to `9`.
pub open spec fn is_decimal_digit(c: char) -> bool {
    '0' <= c <= '9'
}

/// The number that the decimal digits `digits` write.
pub open spec fn digits_value(digits: Seq<char>) -> nat
    decreases digits.len(),
{
    if digits.len() == 0 {
        0
    } else {
        (digits_value(digits.drop_last()) * 10 + (digits.last() as nat - '0' as nat)) as nat
    }
}

/// `text` without the one `+` that may stand before the digits.
pub open spec fn unsigned_part(text: Seq<char>) -> Seq<char> {
    if text.len() > 0 && text[0] == '+' {
        text.drop_first()
    } else {
        text
    }
}

/// The glyph id that `text` writes: an optional `+`, then one or more
/// decimal digits, which write a number of at most 65535. Leading zeros are
/// accepted; spaces, a `-` and an empty text are not.
pub open spec fn glyph_id_value(text: Seq<char>) -> Option<u16> {
    let digits = unsigned_part(text);
    if digits.len() > 0 && (forall|i: int|
        0 <= i < digits.len() ==> is_decimal_digit(#[trigger] digits[i])) && digits_value(digits)
        <= 65535 {
        Some(digits_value(digits) as u16)
    } else {
        None
    }
}

/// What the glyph id argument `text` asks for: the word `all` asks for every
/// glyph, a glyph id for that glyph, and anything else is a failure.
pub open spec fn glyph_selection(text: Seq<char>) -> Result<GlyphToDump, DumpError> {
    if text == seq!['a', 'l', 'l'] {
        Ok(GlyphToDump::All)
    } else {
        match glyph_id_value(text) {
            Some(id) => Ok(GlyphToDump::Id(id)),
            None => Err(DumpError::Input),
        }
    }
}

impl GlyphToDump {
    /// Reads the glyph id argument of a dump.
    pub fn parse(text: &str) -> (selection: Result<GlyphToDump, DumpError>)
        ensures
            selection == glyph_selection(text@),
    {
        if !text.is_ascii() {
            proof {
                // A character outside ASCII is neither a sign nor a digit, so it
                // stands among the digits and is none.
                let at = choose|i: int|
                    0 <= i < text@.len() && !('\0' <= #[trigger] text@[i] <= '\u{7f}');
                let digits = unsigned_part(text@);
                let among = if digits.len() == text@.len() {
                    at
                } else {
                    at - 1
                };
                assert(!is_decimal_digit(digits[among]));
            }
            return Err(DumpError::Input);
        }
        let bytes = text.as_bytes();
        let len = bytes.len();
        proof {
            is_ascii_chars_encode_utf8(text@);
        }
        if len == 3 && bytes[0] == 'a' as u8 && bytes[1] == 'l' as u8 && bytes[2] == 'l' as u8 {
            assert(text@ =~= seq!['a', 'l', 'l']);
            return Ok(GlyphToDump::All);
        }
        let first: usize = if len > 0 && bytes[0] == '+' as u8 {
            1
        } else {
            0
        };
        let ghost digits = unsigned_part(text@);
        if first == len {
            return Err(DumpError::Input);
        }
        let mut value: u32 = 0;
        let mut i: usize = first;
        while i < len
            invariant
                first <= i <= len,
                len == bytes@.len(),
                len == text@.len(),
                is_ascii_chars(text@),
                forall|k: int| 0 <= k < len ==> text@[k] as u8 == #[trigger] bytes@[k],
                text@ != seq!['a', 'l', 'l'],
                digits == unsigned_part(text@),
                digits.len() == len - first,
                forall|k: int| 0 <= k < digits.len() ==> digits[k] == text@[k + first],
                forall|k: int| 0 <= k < i - first ==> is_decimal_digit(#[trigger] digits[k]),
                value <= 655359,
                value <= 65535 ==> value == digits_value(digits.take(i - first)),
                value > 65535 ==> digits_value(digits.take(i - first)) > 65535,
            decreases len - i,
        {
            let byte: u8 = bytes[i];
            if byte < '0' as u8 || byte > '9' as u8 {
                assert(!is_decimal_digit(digits[i - first]));
                return Err(DumpError::Input);
            }
            assert(is_decimal_digit(digits[i - first]));
            assert(digits.take(i - first + 1).drop_last() =~= digits.take(i - first));
            if value <= 65535 {
                value = value * 10 + (byte - '0' as u8) as u32;
            }
            i += 1;
        }
        assert(digits.take(len - first) =~= digits);
        if value > 65535 {
            return Err(DumpError::Input);
        }
        Ok(GlyphToDump::Id(value as u16))
    }
}

} // verus!
