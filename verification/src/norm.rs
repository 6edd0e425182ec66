//! The punctuation symbols that pass through phoneme conversion unchanged.

use vstd::prelude::*;
use vstd::string::*;

verus! {

/// Whether the character is one of the seven punctuation symbols.
pub open spec fn is_punctuation_char(c: char) -> bool {
    c == '!' || c == '?' || c == '\u{2026}' || c == ',' || c == '.' || c == '\'' || c == '-'
}

/// Whether the text is one punctuation symbol.
pub open spec fn is_punctuation(text: Seq<char>) -> bool {
    text.len() == 1 && is_punctuation_char(text[0])
}

/// Whether the mora is a punctuation symbol.
pub fn is_punctuation_mark(mora: &str) -> (found: bool)
    ensures
        found == is_punctuation(mora@),
{
    if mora.unicode_len() != 1 {
        return false;
    }
    let c: char = mora.get_char(0);
    c == '!' || c == '?' || c == '\u{2026}' || c == ',' || c == '.' || c == '\'' || c == '-'
}

} // verus!
