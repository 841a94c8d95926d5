//! Text: lowercasing and searching.

use vstd::prelude::*;
use vstd::utf8::is_ascii_chars;

verus! {

/// Whether `part` stands in `text` from position `at` on.
pub open spec fn occurs_at(text: Seq<char>, part: Seq<char>, at: int) -> bool {
    &&& 0 <= at
    &&& at + part.len() <= text.len()
    &&& text.subrange(at, at + part.len()) == part
}

/// Whether `part` stands somewhere in `text`, in one piece.
pub open spec fn has_part(text: Seq<char>, part: Seq<char>) -> bool {
    exists|at: int| occurs_at(text, part, at)
}

/// The lowercase form of one ASCII character.
pub open spec fn ascii_lower(c: char) -> char {
    if 'A' <= c <= 'Z' {
        ((c as u32) + 32) as char
    } else {
        c
    }
}

/// Whether a character is ASCII.
pub open spec fn is_ascii_char(c: char) -> bool {
    c <= '\u{7f}'
}

/// What `str::to_lowercase` puts in place of the character at a position of a
/// text.
pub uninterp spec fn unicode_lowercase_at(text: Seq<char>, at: int) -> Seq<char>;

/// What stands in place of the character at a position once a text is in
/// lowercase. An ASCII character has its own lowercase form. A capital sigma
/// becomes a small one, of the form that stands at the end of a word or of the
/// other, as the text around it has it. Any other character becomes what it
/// becomes alone.
pub open spec fn lowercase_at(text: Seq<char>, at: int) -> Seq<char> {
    let c = text[at];
    if is_ascii_char(c) {
        seq![ascii_lower(c)]
    } else if c == '\u{3a3}' {
        if unicode_lowercase_at(text, at) == seq!['\u{3c2}'] {
            seq!['\u{3c2}']
        } else {
            seq!['\u{3c3}']
        }
    } else {
        unicode_lowercase_at(seq![c], 0)
    }
}

/// What stands in place of the first `n` characters once a text is in lowercase.
pub open spec fn lowercase_before(text: Seq<char>, n: int) -> Seq<char>
    decreases n,
{
    if n <= 0 {
        Seq::empty()
    } else {
        lowercase_before(text, n - 1) + lowercase_at(text, n - 1)
    }
}

/// The lowercase form of a text, character by character; a text that is all ASCII
/// keeps its length.
pub open spec fn lowercase(text: Seq<char>) -> Seq<char> {
    if is_ascii_chars(text) {
        text.map_values(|c: char| ascii_lower(c))
    } else {
        lowercase_before(text, text.len() as int)
    }
}

/// Calls `str::to_lowercase`.
///
/// Claimed: the result is put together from what each character becomes. `A` to
/// `Z` become `a` to `z` and other ASCII characters stay. A capital sigma becomes
/// a small sigma, with the form for the end of a word there, which the text
/// decides. What any other character becomes is a function of that character
/// alone: it is what the text of that one character becomes.
#[verifier::external_body]
pub(crate) fn to_lowercase(text: &str) -> (lowered: String)
    ensures
        lowered@ == lowercase(text@),
        text@.len() == 1 && !is_ascii_char(text@[0]) ==> lowered@ == unicode_lowercase_at(text@, 0),
{
    text.to_lowercase()
}

/// The characters of a text, in order.
fn chars_of(text: &str) -> (chars: Vec<char>)
    ensures
        chars@ == text@,
{
    let mut chars: Vec<char> = Vec::new();
    for c in it: text.chars()
        invariant
            it.seq() == text@,
            chars@ == text@.take(it.index() as int),
    {
        chars.push(c);
    }
    chars
}

/// Whether `part` stands in `text` from position `at` on.
fn matches_at(text: &Vec<char>, part: &Vec<char>, at: usize) -> (found: bool)
    requires
        at + part.len() <= text.len(),
    ensures
        found == occurs_at(text@, part@, at as int),
{
    let mut k: usize = 0;
    while k < part.len()
        invariant
            at + part.len() <= text.len(),
            k <= part@.len(),
            forall|j: int| 0 <= j < k ==> text@[at + j] == part@[j],
        decreases part@.len() - k,
    {
        if text[at + k] != part[k] {
            assert(text@.subrange(at as int, at + part@.len())[k as int] != part@[k as int]);
            return false;
        }
        k = k + 1;
    }
    assert(text@.subrange(at as int, at + part@.len()) =~= part@);
    true
}

/// Whether `part` stands somewhere in `text`.
pub fn contains(text: &str, part: &str) -> (found: bool)
    ensures
        found == has_part(text@, part@),
{
    let text_chars = chars_of(text);
    let part_chars = chars_of(part);
    let mut at: usize = 0;
    while at <= text_chars.len() && part_chars.len() <= text_chars.len() - at
        invariant
            text_chars@ == text@,
            part_chars@ == part@,
            at <= text@.len() + 1,
            forall|i: int| 0 <= i < at ==> !occurs_at(text@, part@, i),
        decreases text@.len() + 1 - at,
    {
        if matches_at(&text_chars, &part_chars, at) {
            return true;
        }
        if at == text_chars.len() {
            return false;
        }
        at = at + 1;
    }
    false
}

} // verus!
