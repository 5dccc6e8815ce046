//! Questions about text: is it blank, does it start with a prefix, what is its
//! lower-case form.

use vstd::prelude::*;
use vstd::utf8::is_ascii_chars;

verus! {

/// The characters with the Unicode property `White_Space`.
pub open spec fn white_space(c: char) -> bool {
    let code = c as u32;
    ||| 0x9 <= code <= 0xd
    ||| code == 0x20
    ||| code == 0x85
    ||| code == 0xa0
    ||| code == 0x1680
    ||| 0x2000 <= code <= 0x200a
    ||| code == 0x2028
    ||| code == 0x2029
    ||| code == 0x202f
    ||| code == 0x205f
    ||| code == 0x3000
}

/// A text of which nothing is left when the white space around it is taken off.
pub open spec fn blank(text: Seq<char>) -> bool {
    forall|i: int| 0 <= i < text.len() ==> white_space(#[trigger] text[i])
}

/// Does the character have the Unicode property `White_Space`?
pub fn is_white_space(c: char) -> (yes: bool)
    ensures
        yes == white_space(c),
{
    let code: u32 = c as u32;
    (0x9 <= code && code <= 0xd) || code == 0x20 || code == 0x85 || code == 0xa0 || code == 0x1680
        || (0x2000 <= code && code <= 0x200a) || code == 0x2028 || code == 0x2029 || code == 0x202f
        || code == 0x205f || code == 0x3000
}

/// Is the text empty once the white space around it is taken off?
pub fn is_blank(text: &str) -> (yes: bool)
    ensures
        yes == blank(text@),
{
    for c in characters: text.chars()
        invariant
            characters.seq() == text@,
            forall|i: int| 0 <= i < characters.index() ==> white_space(#[trigger] text@[i]),
    {
        if !is_white_space(c) {
            return false;
        }
    }
    true
}

/// What follows the prefix, where the text starts with it.
pub open spec fn without_prefix(text: Seq<char>, prefix: Seq<char>) -> Option<Seq<char>> {
    if prefix.is_prefix_of(text) {
        Some(text.skip(prefix.len() as int))
    } else {
        None
    }
}

/// Takes the prefix off the text.
pub fn strip_prefix<'a>(text: &'a str, prefix: &str) -> (rest: Option<&'a str>)
    ensures
        match rest {
            Some(tail) => without_prefix(text@, prefix@) == Some(tail@),
            None => without_prefix(text@, prefix@) is None,
        },
{
    let length: usize = text.unicode_len();
    let width: usize = prefix.unicode_len();
    if length < width {
        return None;
    }
    let mut i: usize = 0;
    while i < width
        invariant
            length == text@.len(),
            width == prefix@.len(),
            i <= width <= length,
            forall|j: int| 0 <= j < i ==> text@[j] == prefix@[j],
        decreases width - i,
    {
        if text.get_char(i) != prefix.get_char(i) {
            return None;
        }
        i = i + 1;
    }
    assert(text@.subrange(0, width as int) =~= prefix@);
    assert(text@.subrange(width as int, length as int) =~= text@.skip(width as int));
    Some(text.substring_char(width, length))
}

/// An optional text by its view.
pub open spec fn text_view(text: Option<String>) -> Option<Seq<char>> {
    match text {
        Some(t) => Some(t@),
        None => None,
    }
}

/// What `str::to_lowercase` gives of a text that is not all ASCII: its
/// characters mapped to lower case as the Unicode tables of the standard
/// library say.
pub uninterp spec fn unicode_lowercase(text: Seq<char>) -> Seq<char>;

/// An ASCII character in lower case: the letters from `A` to `Z` become those
/// from `a` to `z`, the others stay as they are.
pub open spec fn ascii_lowered(c: char) -> char {
    if 'A' <= c <= 'Z' {
        (c as u32 + 32) as char
    } else {
        c
    }
}

/// The lower-case form of a text: character by character where it is all
/// ASCII, by the Unicode tables where it is not.
pub open spec fn lowercase(text: Seq<char>) -> Seq<char> {
    if is_ascii_chars(text) {
        text.map_values(|c: char| ascii_lowered(c))
    } else {
        unicode_lowercase(text)
    }
}

/// Calls `str::to_lowercase`. Of an ASCII text it changes the letters from `A`
/// to `Z` and nothing else. Of any other text its result depends on the text
/// alone and is named by `unicode_lowercase`.
#[verifier::external_body]
pub(crate) fn to_lowercase(text: &str) -> (lowered: String)
    ensures
        is_ascii_chars(text@) ==> lowered@ == text@.map_values(|c: char| ascii_lowered(c)),
        !is_ascii_chars(text@) ==> lowered@ == unicode_lowercase(text@),
{
    text.to_lowercase()
}

} // verus!
