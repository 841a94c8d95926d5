//! Laws of searching and lowercasing.

use crate::text::{ascii_lower, has_part, lowercase, occurs_at};
use vstd::prelude::*;
use vstd::utf8::is_ascii_chars;

verus! {

/// A part of a text is what stands between some beginning and some end of it, and
/// nothing else is a part.
pub proof fn law_part_stands_between(text: Seq<char>, part: Seq<char>)
    ensures
        has_part(text, part) <==> exists|before: Seq<char>, after: Seq<char>|
            text == #[trigger] (before + part + after),
{
    if has_part(text, part) {
        let at = choose|at: int| occurs_at(text, part, at);
        let before = text.take(at);
        let after = text.skip(at + part.len());
        assert forall|k: int| 0 <= k < text.len() implies text[k] == (before + part
            + after)[k] by {
            if at <= k < at + part.len() {
                assert(text.subrange(at, at + part.len())[k - at] == part[k - at]);
            }
        }
        assert(text =~= before + part + after);
    }
    if exists|before: Seq<char>, after: Seq<char>| text == #[trigger] (before + part + after) {
        let (before, after) = choose|before: Seq<char>, after: Seq<char>|
            text == #[trigger] (before + part + after);
        let at = before.len() as int;
        assert(text.subrange(at, at + part.len()) =~= part);
        assert(occurs_at(text, part, at));
    }
}

/// In lowercase, a text that is all ASCII keeps its length; each letter from `A`
/// to `Z` is 32 further on and every other character stays.
pub proof fn law_lowercase_of_ascii(text: Seq<char>)
    requires
        is_ascii_chars(text),
    ensures
        lowercase(text).len() == text.len(),
        forall|i: int|
            0 <= i < text.len() ==> (#[trigger] lowercase(text)[i]) as int == if 65
                <= text[i] as int <= 90 {
                text[i] as int + 32
            } else {
                text[i] as int
            },
{
    assert forall|i: int| 0 <= i < text.len() implies (#[trigger] lowercase(text)[i]) as int
        == if 65 <= text[i] as int <= 90 {
        text[i] as int + 32
    } else {
        text[i] as int
    } by {
        assert(lowercase(text)[i] == ascii_lower(text[i]));
    }
}

} // verus!
