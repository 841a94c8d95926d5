//! JSON values of `serde_json`. The library hands them on unread: what it needs
//! of a value is its text, and what it needs of a text is its value.
//!
//! Writing a value takes stack for each level of its nesting. Nothing here speaks
//! of a value that is nested more deeply than the stack allows.

use serde_json::Value;
use vstd::prelude::*;

verus! {

/// `serde_json::Value`, a JSON value.
#[verifier::external_type_specification]
#[verifier::external_body]
pub struct ExValue(serde_json::Value);

/// `serde_json::Error`, what reading or writing JSON text may fail with.
#[verifier::external_type_specification]
#[verifier::external_body]
pub struct ExError(serde_json::Error);

/// What `serde_json::to_string` gives of a value: its compact text.
pub uninterp spec fn json_text(value: Value) -> Seq<char>;

/// What `serde_json::to_string_pretty` gives of a value: its indented text.
pub uninterp spec fn json_pretty(value: Value) -> Seq<char>;

/// What `serde_json::from_str` makes of a text: the value that it stands for, or
/// nothing where it is refused, as a text is that is not JSON or is nested too
/// deeply.
pub uninterp spec fn json_value(text: Seq<char>) -> Option<Value>;

/// The JSON value null: the one that the text `null` stands for.
pub open spec fn json_null() -> Value {
    json_value("null"@)->0
}

/// Where a position in a JSON text is: outside the strings, in one, or in one
/// right behind a backslash that escapes.
pub enum Place {
    Outside,
    InString,
    Escaped,
}

/// Where position `n` of a JSON text is.
pub open spec fn place(text: Seq<char>, n: int) -> Place
    decreases n,
{
    if n <= 0 {
        Place::Outside
    } else {
        let c = text[n - 1];
        match place(text, n - 1) {
            Place::Outside => if c == '"' {
                Place::InString
            } else {
                Place::Outside
            },
            Place::InString => if c == '"' {
                Place::Outside
            } else if c == '\\' {
                Place::Escaped
            } else {
                Place::InString
            },
            Place::Escaped => Place::InString,
        }
    }
}

/// How many arrays and objects are open at position `n` of a JSON text.
pub open spec fn depth(text: Seq<char>, n: int) -> int
    decreases n,
{
    if n <= 0 {
        0
    } else if !(place(text, n - 1) is Outside) {
        depth(text, n - 1)
    } else if text[n - 1] == '[' || text[n - 1] == '{' {
        depth(text, n - 1) + 1
    } else if text[n - 1] == ']' || text[n - 1] == '}' {
        depth(text, n - 1) - 1
    } else {
        depth(text, n - 1)
    }
}

/// Whether a JSON text holds no number with a point or an exponent, and at most
/// 127 arrays and objects in one another.
pub open spec fn is_plain(text: Seq<char>) -> bool {
    forall|n: int|
        0 <= n < text.len() && #[trigger] place(text, n) is Outside ==> {
            &&& text[n] != '.'
            &&& text[n] == 'e' && n > 0 ==> !('0' <= text[n - 1] <= '9')
            &&& depth(text, n + 1) <= 127
        }
}

/// Whether a value is what its own text stands for.
pub open spec fn reads_back(value: Value) -> bool {
    json_value(json_text(value)) == Some(value)
}

/// Calls `serde_json::to_string` on a value.
///
/// Claimed: it succeeds, with a text that is a function of the value alone; and
/// where that text is plain, `serde_json::from_str` reads the same value from it.
/// Of a text that is not plain this is not claimed: reading may round a number
/// with a point or an exponent, and it refuses 128 levels of nesting.
#[verifier::external_body]
pub(crate) fn to_text(value: &Value) -> (text: Result<String, serde_json::Error>)
    ensures
        text is Ok,
        text->Ok_0@ == json_text(*value),
        is_plain(text->Ok_0@) ==> json_value(text->Ok_0@) == Some(*value),
{
    serde_json::to_string(value)
}

/// Calls `serde_json::to_string_pretty` on a value.
///
/// Claimed: it succeeds, with a text that is a function of the value alone.
#[verifier::external_body]
pub(crate) fn to_pretty_text(value: &Value) -> (text: Result<String, serde_json::Error>)
    ensures
        text is Ok,
        text->Ok_0@ == json_pretty(*value),
{
    serde_json::to_string_pretty(value)
}

/// Calls `to_string` of a value's `Display`.
///
/// Claimed: the text is the one that `serde_json::to_string` gives.
#[verifier::external_body]
pub(crate) fn to_display_text(value: &Value) -> (text: String)
    ensures
        text@ == json_text(*value),
{
    value.to_string()
}

/// Calls `serde_json::from_str` for a value.
///
/// Claimed: whether the text is taken, and which value it stands for, is a
/// function of the text alone.
#[verifier::external_body]
pub(crate) fn from_text(text: &str) -> (value: Result<Value, serde_json::Error>)
    ensures
        match value {
            Ok(v) => json_value(text@) == Some(v),
            Err(_) => json_value(text@) is None,
        },
{
    serde_json::from_str(text)
}

/// Makes `serde_json::Value::Null`.
///
/// Claimed: it is what `serde_json::from_str` reads from the text `null`.
#[verifier::external_body]
pub(crate) fn null() -> (value: Value)
    ensures
        json_value("null"@) == Some(value),
{
    Value::Null
}

} // verus!
