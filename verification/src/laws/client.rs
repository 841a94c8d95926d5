//! Laws of the client's choices.

use crate::client::{chosen_key, default_max_tokens_view, family_of_lowercase, ModelFamily};
use crate::laws::{law_ascii_part_is_lowered, same_but_for_case};
use crate::text::{ascii_lower, has_part, lowercase};
use vstd::prelude::*;
use vstd::utf8::is_ascii_chars;

verus! {

/// The key is the one for oMLX where there is one, else the one for any LLM where
/// there is one, else empty.
pub proof fn law_chosen_key(omlx_key: Option<Seq<char>>, llm_key: Option<Seq<char>>)
    ensures
        omlx_key matches Some(key) ==> chosen_key(omlx_key, llm_key) == key,
        omlx_key is None ==> (llm_key matches Some(key) ==> chosen_key(omlx_key, llm_key) == key),
        omlx_key is None && llm_key is None ==> chosen_key(omlx_key, llm_key).len() == 0,
{
}

/// A model is of a family if and only if the family's word stands in its name and no
/// word of a family before it does.
pub proof fn law_family_is_known_by_its_word(name: Seq<char>)
    ensures
        family_of_lowercase(name) == ModelFamily::Qwen <==> has_part(name, "qwen"@),
        family_of_lowercase(name) == ModelFamily::Gemma <==> has_part(name, "gemma"@) && !has_part(
            name,
            "qwen"@,
        ),
        family_of_lowercase(name) == ModelFamily::Llama <==> has_part(name, "llama"@) && !has_part(
            name,
            "qwen"@,
        ) && !has_part(name, "gemma"@),
        family_of_lowercase(name) == ModelFamily::Mistral <==> has_part(name, "mistral"@)
            && !has_part(name, "qwen"@) && !has_part(name, "gemma"@) && !has_part(name, "llama"@),
        family_of_lowercase(name) == ModelFamily::Other <==> !has_part(name, "qwen"@) && !has_part(
            name,
            "gemma"@,
        ) && !has_part(name, "llama"@) && !has_part(name, "mistral"@),
{
}

/// The default maximum of output tokens is 16384 for a model whose name holds the
/// word "qwen" in lowercase, and 8192 for every other.
pub proof fn law_default_max_tokens(model: Seq<char>)
    ensures
        has_part(lowercase(model), "qwen"@) ==> default_max_tokens_view(model) == 16_384,
        !has_part(lowercase(model), "qwen"@) ==> default_max_tokens_view(model) == 8192,
        default_max_tokens_view(model) == 16_384 <==> family_of_lowercase(lowercase(model))
            == ModelFamily::Qwen,
{
}

/// A model with the word "qwen" anywhere in its name, in upper or lower case, is of
/// that family and may give 16384 tokens, whatever stands around the word.
pub proof fn law_qwen_in_any_case(before: Seq<char>, word: Seq<char>, after: Seq<char>)
    requires
        same_but_for_case(word, "qwen"@),
    ensures
        family_of_lowercase(lowercase(before + word + after)) == ModelFamily::Qwen,
        default_max_tokens_view(before + word + after) == 16_384,
{
    reveal_strlit("qwen");
    crate::laws::text::law_part_stands_between(before + word + after, word);
    assert forall|i: int| 0 <= i < word.len() implies '\0' <= #[trigger] word[i] <= '\u{7f}' by {
        assert(ascii_lower(word[i]) == ascii_lower("qwen"@[i]));
        assert(ascii_lower("qwen"@[i]) == "qwen"@[i]);
    }
    assert(is_ascii_chars(word));
    law_ascii_part_is_lowered(before + word + after, word);
    assert(word.map_values(|c: char| ascii_lower(c)) =~= "qwen"@);
}

} // verus!
