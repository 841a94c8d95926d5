//! Laws of plain JSON text.

use crate::json::{depth, is_plain, place};
use vstd::prelude::*;

verus! {

/// No more arrays and objects are open at a position than stand before it.
proof fn lemma_depth_is_bounded(text: Seq<char>, n: int)
    requires
        0 <= n,
    ensures
        depth(text, n) <= n,
    decreases n,
{
    if n > 0 {
        lemma_depth_is_bounded(text, n - 1);
    }
}

/// A text is plain that has neither a point nor an `e` behind a digit and is too short
/// to be nested in more than 127 levels.
pub proof fn law_short_text_is_plain(text: Seq<char>)
    requires
        text.len() <= 127,
        forall|i: int| 0 <= i < text.len() ==> #[trigger] text[i] != '.',
        forall|i: int|
            0 < i < text.len() && #[trigger] text[i] == 'e' ==> !('0' <= text[i - 1] <= '9'),
    ensures
        is_plain(text),
{
    assert forall|n: int| 0 <= n < text.len() && #[trigger] place(text, n) is Outside implies depth(
        text,
        n + 1,
    ) <= 127 by {
        lemma_depth_is_bounded(text, n + 1);
    }
}

} // verus!
