//! What holds of the library as a whole.

pub mod client;
pub mod exchange;
pub mod json;
pub mod request;
pub mod response;
pub mod text;
pub mod tokens;
pub mod views;

use crate::ai::{
    AiMessageView, AiRequestView, AiResponse, AiResponseFormat, AiRole, ToolCallView,
};
use crate::client::{chosen_key, default_max_tokens_view, family_of_lowercase};
use crate::error::OmlxError;
use crate::exchange::{ExchangeEvent, ExchangeState, ExchangeStep};
use crate::json::{is_plain, json_null, json_pretty, json_text, json_value, reads_back};
use crate::request::{
    conversation_view, first_system_at, mentions_json, plain_arguments_read_back,
    plain_calls_read_back, schema_hint_of, schema_hint_view, sent_messages, some_mentions_json,
    wire_message_view, wire_request_view, wire_tool_call_view, wire_tool_view, with_instruction,
};
use crate::response::{comes_to, read_response_view, read_tool_call_view};
use crate::text::{
    ascii_lower, has_part, is_ascii_char, lowercase, lowercase_at, lowercase_before, occurs_at,
};
use crate::tokens::{
    counts_as, counts_of, message_texts, optional_text, request_texts, sum, texts_of,
};
use crate::wire::{OmlxMessageView, OmlxResponseView, OmlxToolCallView};
use serde_json::Value;
use vstd::prelude::*;
use vstd::utf8::is_ascii_chars;

verus! {

/// A part of a part is a part.
proof fn lemma_part_of_part(text: Seq<char>, part: Seq<char>, smaller: Seq<char>)
    requires
        has_part(text, part),
        has_part(part, smaller),
    ensures
        has_part(text, smaller),
{
    let at = choose|at: int| occurs_at(text, part, at);
    let inner = choose|inner: int| occurs_at(part, smaller, inner);
    assert(text.subrange(at + inner, at + inner + smaller.len()) =~= smaller) by {
        assert forall|k: int| 0 <= k < smaller.len() implies text[at + inner + k] == smaller[k] by {
            assert(part.subrange(inner, inner + smaller.len())[k] == smaller[k]);
            assert(text.subrange(at, at + part.len())[inner + k] == part[inner + k]);
        }
    }
    assert(occurs_at(text, smaller, at + inner));
}

/// What stands between two texts is a part of the whole.
proof fn lemma_middle_is_part(before: Seq<char>, part: Seq<char>, after: Seq<char>)
    ensures
        has_part(before + part + after, part),
{
    let whole = before + part + after;
    assert(whole.subrange(before.len() as int, (before.len() + part.len()) as int) =~= part);
    assert(occurs_at(whole, part, before.len() as int));
}

/// The instruction holds the word "JSON", without a schema and with one; with one,
/// it holds the schema's text too.
proof fn lemma_instructions_say_json(schema_text: Seq<char>)
    ensures
        has_part("Respond in JSON format."@, "JSON"@),
        has_part(schema_hint_of(schema_text), "JSON"@),
        has_part(schema_hint_of(schema_text), "You MUST respond with valid JSON"@),
        has_part(schema_hint_of(schema_text), schema_text),
{
    reveal_strlit("JSON");
    reveal_strlit("Respond in JSON format.");
    reveal_strlit("You MUST respond with valid JSON");
    reveal_strlit("\nYou MUST respond with valid JSON matching this schema:\n```json\n");
    let opening = "\nYou MUST respond with valid JSON matching this schema:\n```json\n"@;
    assert("Respond in JSON format."@.subrange(11, 15) =~= "JSON"@);
    assert(occurs_at("Respond in JSON format."@, "JSON"@, 11));
    assert(opening.subrange(1, 33) =~= "You MUST respond with valid JSON"@);
    assert(occurs_at(opening, "You MUST respond with valid JSON"@, 1));
    assert("You MUST respond with valid JSON"@.subrange(28, 32) =~= "JSON"@);
    assert(occurs_at("You MUST respond with valid JSON"@, "JSON"@, 28));
    lemma_middle_is_part(Seq::empty(), opening, schema_text + "\n```"@);
    assert(Seq::<char>::empty() + opening + (schema_text + "\n```"@) =~= schema_hint_of(
        schema_text,
    ));
    lemma_part_of_part(
        schema_hint_of(schema_text),
        opening,
        "You MUST respond with valid JSON"@,
    );
    lemma_part_of_part(
        schema_hint_of(schema_text),
        "You MUST respond with valid JSON"@,
        "JSON"@,
    );
    lemma_middle_is_part(opening, schema_text, "\n```"@);
}

/// A text that is all ASCII has the same lowercase form by either of the two ways
/// in which it is defined.
proof fn lemma_lowercase_of_ascii(text: Seq<char>, n: int)
    requires
        is_ascii_chars(text),
        0 <= n <= text.len(),
    ensures
        lowercase_before(text, n) == text.take(n).map_values(|c: char| ascii_lower(c)),
    decreases n,
{
    if n > 0 {
        lemma_lowercase_of_ascii(text, n - 1);
        assert(is_ascii_char(text[n - 1]));
    }
    assert(lowercase_before(text, n) =~= text.take(n).map_values(|c: char| ascii_lower(c)));
}

/// The lowercase form of a text is put together from what each character becomes.
proof fn lemma_lowercase_is_by_character(text: Seq<char>)
    ensures
        lowercase(text) == lowercase_before(text, text.len() as int),
{
    if is_ascii_chars(text) {
        lemma_lowercase_of_ascii(text, text.len() as int);
        assert(text.take(text.len() as int) =~= text);
    }
}

/// What the first characters become begins what more of them become.
proof fn lemma_lowercase_grows(text: Seq<char>, m: int, n: int)
    requires
        0 <= m <= n,
    ensures
        lowercase_before(text, m).is_prefix_of(lowercase_before(text, n)),
    decreases n,
{
    if m < n {
        lemma_lowercase_grows(text, m, n - 1);
        let shorter = lowercase_before(text, m);
        let longer = lowercase_before(text, n);
        assert(longer.subrange(0, shorter.len() as int) =~= lowercase_before(
            text,
            n - 1,
        ).subrange(0, shorter.len() as int));
    }
}

/// A run of ASCII characters becomes the run of their lowercase forms.
proof fn lemma_lowercase_of_run(text: Seq<char>, at: int, n: int)
    requires
        0 <= at,
        0 <= n,
        at + n <= text.len(),
        forall|k: int| at <= k < at + n ==> is_ascii_char(#[trigger] text[k]),
    ensures
        lowercase_before(text, at + n) == lowercase_before(text, at) + text.subrange(
            at,
            at + n,
        ).map_values(|c: char| ascii_lower(c)),
    decreases n,
{
    if n > 0 {
        lemma_lowercase_of_run(text, at, n - 1);
        assert(is_ascii_char(text[at + n - 1]));
    }
    assert(lowercase_before(text, at + n) =~= lowercase_before(text, at) + text.subrange(
        at,
        at + n,
    ).map_values(|c: char| ascii_lower(c)));
}

/// An ASCII part of a text is there in lowercase once the text is, whatever else
/// the text holds.
pub proof fn law_ascii_part_is_lowered(text: Seq<char>, part: Seq<char>)
    requires
        has_part(text, part),
        is_ascii_chars(part),
    ensures
        has_part(lowercase(text), part.map_values(|c: char| ascii_lower(c))),
{
    let at = choose|at: int| occurs_at(text, part, at);
    let n = part.len() as int;
    assert forall|k: int| at <= k < at + n implies is_ascii_char(#[trigger] text[k]) by {
        assert(text.subrange(at, at + n)[k - at] == part[k - at]);
    }
    lemma_lowercase_of_run(text, at, n);
    lemma_lowercase_grows(text, at + n, text.len() as int);
    lemma_lowercase_is_by_character(text);
    let lowered = part.map_values(|c: char| ascii_lower(c));
    let start = lowercase_before(text, at).len() as int;
    let whole = lowercase(text);
    let head = lowercase_before(text, at + n);
    assert(whole.subrange(start, start + n) =~= lowered) by {
        assert forall|k: int| 0 <= k < n implies whole[start + k] == lowered[k] by {
            assert(whole.subrange(0, head.len() as int)[start + k] == head[start + k]);
        }
    }
    assert(occurs_at(whole, lowered, start));
}

/// The word "JSON" becomes the word "json" in lowercase.
proof fn lemma_json_in_lowercase(text: Seq<char>)
    requires
        has_part(text, "JSON"@),
    ensures
        has_part(lowercase(text), "json"@),
{
    reveal_strlit("JSON");
    reveal_strlit("json");
    law_ascii_part_is_lowered(text, "JSON"@);
    assert("JSON"@ =~= seq!['J', 'S', 'O', 'N']);
    assert(ascii_lower('J') == 'j' && ascii_lower('S') == 's' && ascii_lower('O') == 'o'
        && ascii_lower('N') == 'n');
    assert("JSON"@.map_values(|c: char| ascii_lower(c)) =~= "json"@);
}

/// The instruction on a line of its own holds the plain instruction.
proof fn lemma_plain_instruction()
    ensures
        has_part("\nRespond in JSON format."@, "Respond in JSON format."@),
{
    reveal_strlit("Respond in JSON format.");
    reveal_strlit("\nRespond in JSON format.");
    assert("\nRespond in JSON format."@.subrange(1, 24) =~= "Respond in JSON format."@);
    assert(occurs_at("\nRespond in JSON format."@, "Respond in JSON format."@, 1));
}

/// With an instruction, there is a system message that holds it as its own
/// content or at the end of it.
proof fn lemma_instruction_is_there(
    messages: Seq<OmlxMessageView>,
    hint: Option<Seq<char>>,
) -> (at: int)
    ensures
        0 <= at < with_instruction(messages, hint).len(),
        with_instruction(messages, hint)[at].role == "system"@,
        with_instruction(messages, hint)[at].content matches Some(content) && match hint {
            Some(text) => has_part(content, text),
            None => has_part(content, "Respond in JSON format."@),
        },
{
    let sent = with_instruction(messages, hint);
    let added = match hint {
        Some(text) => text,
        None => "\nRespond in JSON format."@,
    };
    let wanted = match hint {
        Some(text) => text,
        None => "Respond in JSON format."@,
    };
    assert(has_part(wanted, wanted)) by {
        lemma_middle_is_part(Seq::empty(), wanted, Seq::empty());
        assert(Seq::<char>::empty() + wanted + Seq::<char>::empty() =~= wanted);
    }
    lemma_plain_instruction();
    if exists|at: int| first_system_at(messages, at) {
        let at = choose|at: int| first_system_at(messages, at);
        let before = match messages[at].content {
            Some(content) => content,
            None => Seq::empty(),
        };
        lemma_middle_is_part(before, added, Seq::empty());
        assert(before + added + Seq::<char>::empty() =~= sent[at].content->0);
        lemma_part_of_part(sent[at].content->0, added, wanted);
        at
    } else {
        0
    }
}

/// Where a JSON answer is asked for, some message that is sent has the word "json"
/// in it, whatever the request says.
pub proof fn law_json_is_said<T>(request: AiRequestView<T>)
    requires
        request.response_format matches Some(AiResponseFormat::Json { .. }),
    ensures
        some_mentions_json(sent_messages(request)),
{
    let messages = conversation_view(request.system, request.messages);
    let sent = sent_messages(request);
    let schema = request.response_format->0->schema;
    let hint = match schema {
        Some(value) => Some(schema_hint_view(value)),
        None => None,
    };
    if !some_mentions_json(messages) || hint is Some {
        let at = lemma_instruction_is_there(messages, hint);
        let content = sent[at].content->0;
        let schema_text = match schema {
            Some(value) => json_pretty(value),
            None => Seq::empty(),
        };
        lemma_instructions_say_json(schema_text);
        let instruction = match hint {
            Some(text) => text,
            None => "Respond in JSON format."@,
        };
        lemma_part_of_part(content, instruction, "JSON"@);
        lemma_json_in_lowercase(content);
        assert(mentions_json(sent[at]));
    }
}

/// Where a JSON answer is asked for with a schema, a system message that is sent
/// holds the instruction and the schema's text.
pub proof fn law_schema_is_in_the_prompt<T>(request: AiRequestView<T>, schema: Value)
    requires
        request.response_format == Some(AiResponseFormat::Json { schema: Some(schema) }),
    ensures
        exists|i: int|
            {
                &&& 0 <= i < sent_messages(request).len()
                &&& (#[trigger] sent_messages(request)[i]).role == "system"@
                &&& sent_messages(request)[i].content matches Some(content) && {
                    &&& has_part(content, "You MUST respond with valid JSON"@)
                    &&& has_part(content, json_pretty(schema))
                }
            },
{
    let messages = conversation_view(request.system, request.messages);
    let sent = sent_messages(request);
    let schema_text = json_pretty(schema);
    let hint = schema_hint_view(schema);
    let at = lemma_instruction_is_there(messages, Some(hint));
    lemma_instructions_say_json(schema_text);
    lemma_part_of_part(sent[at].content->0, hint, "You MUST respond with valid JSON"@);
    lemma_part_of_part(sent[at].content->0, hint, schema_text);
    assert(sent[at].role == "system"@);
}

/// Whether `sent` is `message`, or a system message that says more than `message`
/// does and begins as it does.
pub open spec fn keeps(message: OmlxMessageView, sent: OmlxMessageView) -> bool {
    ||| sent == message
    ||| {
        &&& message.role == "system"@
        &&& sent.role == message.role
        &&& sent.tool_calls == message.tool_calls
        &&& sent.tool_call_id == message.tool_call_id
        &&& sent.content is Some
        &&& message.content matches Some(content) ==> content.is_prefix_of(sent.content->0)
    }
}

/// Every message of a request is sent, in its place: what is asked for the answer
/// at most adds one system message before all others or some text to the end of
/// one system message, and does neither where no JSON answer is asked for.
pub proof fn law_conversation_is_kept<T>(request: AiRequestView<T>)
    ensures
        ({
            let messages = conversation_view(request.system, request.messages);
            let sent = sent_messages(request);
            let added = sent.len() - messages.len();
            &&& added == 0 || added == 1
            &&& forall|i: int|
                0 <= i < messages.len() ==> keeps(#[trigger] messages[i], sent[i + added])
            &&& forall|i: int, j: int|
                0 <= i < messages.len() && 0 <= j < messages.len() && i != j ==> {
                    ||| sent[i + added] == #[trigger] messages[i]
                    ||| sent[j + added] == #[trigger] messages[j]
                }
            &&& added == 1 ==> {
                &&& sent[0].role == "system"@
                &&& forall|i: int|
                    0 <= i < messages.len() ==> {
                        &&& (#[trigger] messages[i]).role != "system"@
                        &&& sent[i + 1] == messages[i]
                    }
            }
            &&& !(request.response_format matches Some(AiResponseFormat::Json { .. })) ==> sent
                == messages
        }),
{
    let messages = conversation_view(request.system, request.messages);
    let sent = sent_messages(request);
    if let Some(AiResponseFormat::Json { schema }) = request.response_format {
        let hint = match schema {
            Some(value) => Some(schema_hint_view(value)),
            None => None,
        };
        if !some_mentions_json(messages) || hint is Some {
            if exists|at: int| first_system_at(messages, at) {
                let at = choose|at: int| first_system_at(messages, at);
                assert(keeps(messages[at], sent[at]));
            } else {
                assert forall|i: int| 0 <= i < messages.len() implies (
                #[trigger] messages[i]).role != "system"@ by {
                    lemma_no_system(messages, i);
                }
            }
        }
    }
}

/// Where no message is the first system message, none is a system message.
proof fn lemma_no_system(messages: Seq<OmlxMessageView>, i: int)
    requires
        forall|at: int| !first_system_at(messages, at),
        0 <= i < messages.len(),
    ensures
        messages[i].role != "system"@,
    decreases i,
{
    assert forall|j: int| 0 <= j < i implies (#[trigger] messages[j]).role != "system"@ by {
        lemma_no_system(messages, j);
    }
    assert(!first_system_at(messages, i));
}

/// Where the word "json" is there already and no schema is given, nothing is added.
pub proof fn law_nothing_is_added_without_need<T>(request: AiRequestView<T>)
    requires
        request.response_format == Some(AiResponseFormat::Json { schema: None }),
        some_mentions_json(conversation_view(request.system, request.messages)),
    ensures
        sent_messages(request) == conversation_view(request.system, request.messages),
{
}

/// Of the messages that are sent, only those of an assistant hold tool calls, and
/// only those of a tool hold the id of a call.
pub proof fn law_only_assistants_call_and_only_tools_answer<T>(request: AiRequestView<T>, i: int)
    requires
        0 <= i < sent_messages(request).len(),
    ensures
        sent_messages(request)[i].tool_calls is Some ==> sent_messages(request)[i].role
            == "assistant"@,
        sent_messages(request)[i].tool_call_id is Some ==> sent_messages(request)[i].role
            == "tool"@,
{
    let messages = conversation_view(request.system, request.messages);
    assert forall|j: int| 0 <= j < messages.len() implies {
        &&& (#[trigger] messages[j]).tool_calls is Some ==> messages[j].role == "assistant"@
        &&& messages[j].tool_call_id is Some ==> messages[j].role == "tool"@
    } by {
        if request.system is Some && j > 0 {
            assert(messages[j] == wire_message_view(request.messages[j - 1]));
        } else if request.system is None {
            assert(messages[j] == wire_message_view(request.messages[j]));
        }
    }
    law_conversation_is_kept(request);
    let added = sent_messages(request).len() - messages.len();
    if i >= added {
        assert(keeps(messages[i - added], sent_messages(request)[i]));
    }
}

/// A request never holds an empty list of tools, and it holds every tool that is
/// offered, in order.
pub proof fn law_no_empty_tools<T>(request: AiRequestView<T>, model: Seq<char>, max_tokens: u32)
    ensures
        match wire_request_view(request, model, max_tokens).tools {
            Some(tools) => {
                &&& tools.len() > 0
                &&& request.tools matches Some(offered) && {
                    &&& tools.len() == offered.len()
                    &&& forall|i: int|
                        0 <= i < offered.len() ==> #[trigger] tools[i] == wire_tool_view(offered[i])
                }
            },
            None => request.tools matches Some(offered) ==> offered.len() == 0,
        },
{
}

/// A tool call without the thought signature, which the protocol has no place for.
pub open spec fn without_signature(call: ToolCallView) -> ToolCallView {
    ToolCallView { thought_signature: None, ..call }
}

/// A tool call that is sent and comes back is the same tool call but for the
/// thought signature, where its arguments are what their own text stands for.
pub proof fn law_tool_call_round_trip(call: ToolCallView)
    requires
        reads_back(call.arguments),
    ensures
        read_tool_call_view(wire_tool_call_view(call)) == without_signature(call),
{
}

/// Tool calls without their thought signatures.
pub open spec fn without_signatures(calls: Option<Seq<ToolCallView>>) -> Option<
    Seq<ToolCallView>,
> {
    match calls {
        Some(calls) => Some(calls.map_values(|c: ToolCallView| without_signature(c))),
        None => None,
    }
}

/// What an assistant said, sent and answered again by a server, is what it said:
/// the same content and the same tool calls but for the thought signatures, where
/// the arguments are what their own texts stand for.
pub proof fn law_assistant_message_round_trip(message: AiMessageView, response: OmlxResponseView)
    requires
        message.role == AiRole::Assistant,
        message.tool_calls matches Some(calls) ==> forall|i: int|
            0 <= i < calls.len() ==> reads_back((#[trigger] calls[i]).arguments),
        response.messages.len() > 0,
        response.messages[0] == wire_message_view(message),
    ensures
        read_response_view(response).content == message.content,
        read_response_view(response).tool_calls == without_signatures(message.tool_calls),
{
    if let Some(calls) = message.tool_calls {
        let sent = calls.map_values(|c: ToolCallView| wire_tool_call_view(c));
        let read = sent.map_values(|c: OmlxToolCallView| read_tool_call_view(c));
        assert forall|i: int| 0 <= i < calls.len() implies read[i] == without_signature(
            calls[i],
        ) by {
            law_tool_call_round_trip(calls[i]);
        }
        assert(read =~= calls.map_values(|c: ToolCallView| without_signature(c)));
    }
}

/// A message of an assistant comes through the whole trip: where a server answers
/// with it as it was sent for some request, the answer has its content and its
/// tool calls, but for the thought signatures.
///
/// The arguments of the calls are to be plain, that is, without numbers that have
/// a point or an exponent and nested in no more than 127 levels. That plain
/// arguments are read back is what `translate_request` promises of a request.
pub proof fn law_assistant_message_comes_back<T>(
    request: AiRequestView<T>,
    i: int,
    response: OmlxResponseView,
    outcome: Result<AiResponse, OmlxError>,
)
    requires
        0 <= i < request.messages.len(),
        request.messages[i].role == AiRole::Assistant,
        plain_calls_read_back(request.messages[i]),
        request.messages[i].tool_calls matches Some(calls) ==> forall|j: int|
            0 <= j < calls.len() ==> is_plain(json_text((#[trigger] calls[j]).arguments)),
        response.messages.len() > 0,
        response.messages[0] == sent_messages(request)[sent_messages(request).len()
            - request.messages.len() + i],
        comes_to(response, outcome),
    ensures
        outcome matches Ok(answer) && {
            &&& answer@.content == request.messages[i].content
            &&& answer@.tool_calls == without_signatures(request.messages[i].tool_calls)
        },
{
    let message = request.messages[i];
    let messages = conversation_view(request.system, request.messages);
    let sent = sent_messages(request);
    let k = messages.len() - request.messages.len() + i;
    assert(messages[k] == wire_message_view(message));
    law_conversation_is_kept(request);
    assert(keeps(messages[k], sent[k + (sent.len() - messages.len())]));
    reveal_strlit("assistant");
    reveal_strlit("system");
    assert("assistant"@ != "system"@) by {
        assert("assistant"@.len() != "system"@.len());
    }
    if let Some(calls) = message.tool_calls {
        assert forall|j: int| 0 <= j < calls.len() implies reads_back(
            (#[trigger] calls[j]).arguments,
        ) by {
            assert(plain_arguments_read_back(calls[j]));
        }
    }
    law_assistant_message_round_trip(message, response);
}

/// Arguments that are not JSON come back as null, and the call is kept.
pub proof fn law_unreadable_arguments_are_null(call: OmlxToolCallView)
    requires
        json_value(call.function.arguments) is None,
    ensures
        read_tool_call_view(call).arguments == json_null(),
        read_tool_call_view(call).id == call.id,
        read_tool_call_view(call).function_name == call.function.name,
{
}

/// The sum of two lists of counts, one after the other, is the sum of their sums.
pub proof fn law_sum_of_both(first: Seq<usize>, second: Seq<usize>)
    ensures
        sum(first + second) == sum(first) + sum(second),
    decreases second.len(),
{
    if second.len() == 0 {
        assert(first + second =~= first);
    } else {
        law_sum_of_both(first, second.drop_last());
        assert((first + second).drop_last() =~= first + second.drop_last());
    }
}

/// Counts of two lists of texts, one after the other, are counts of both together.
proof fn lemma_counts_of_both<F: Fn(&str) -> usize>(
    counter: F,
    texts: Seq<Seq<char>>,
    more_texts: Seq<Seq<char>>,
    counts: Seq<usize>,
    more_counts: Seq<usize>,
)
    requires
        counts_of(counter, texts, counts),
        counts_of(counter, more_texts, more_counts),
    ensures
        counts_of(counter, texts + more_texts, counts + more_counts),
{
    assert forall|i: int| 0 <= i < (texts + more_texts).len() implies counts_as(
        counter,
        #[trigger] (texts + more_texts)[i],
        #[trigger] (counts + more_counts)[i],
    ) by {
        if i < texts.len() {
            assert(counts_as(counter, texts[i], counts[i]));
        } else {
            let j = i - texts.len();
            assert(counts_as(counter, more_texts[j], more_counts[j]));
        }
    }
}

/// A request with one more message at its end.
pub open spec fn with_message<T>(
    request: AiRequestView<T>,
    message: AiMessageView,
) -> AiRequestView<T> {
    AiRequestView { messages: request.messages.push(message), ..request }
}

/// One more message makes the estimate larger by what the texts of the message
/// count, and by nothing else.
pub proof fn law_message_adds_its_own_count<T, F: Fn(&str) -> usize>(
    counter: F,
    request: AiRequestView<T>,
    message: AiMessageView,
    counts: Seq<usize>,
    more: Seq<usize>,
)
    requires
        counts_of(counter, request_texts(request), counts),
        counts_of(counter, message_texts(message), more),
    ensures
        exists|all: Seq<usize>| #[trigger]
            counts_of(counter, request_texts(with_message(request, message)), all) && sum(all)
                == sum(counts) + sum(more),
{
    let of = |m: AiMessageView| message_texts(m);
    let before = optional_text(request.system) + texts_of(request.messages, of);
    let texts = request_texts(request);
    let after = texts.skip(before.len() as int);
    assert(texts =~= before + after);
    let counts_before = counts.take(before.len() as int);
    let counts_after = counts.skip(before.len() as int);
    assert forall|i: int| 0 <= i < before.len() implies counts_as(
        counter,
        #[trigger] before[i],
        #[trigger] counts_before[i],
    ) by {
        assert(counts_as(counter, texts[i], counts[i]));
    }
    assert forall|i: int| 0 <= i < after.len() implies counts_as(
        counter,
        #[trigger] after[i],
        #[trigger] counts_after[i],
    ) by {
        assert(counts_as(counter, texts[before.len() + i], counts[before.len() + i]));
    }
    lemma_counts_of_both(counter, before, message_texts(message), counts_before, more);
    lemma_counts_of_both(
        counter,
        before + message_texts(message),
        after,
        counts_before + more,
        counts_after,
    );
    let all = counts_before + more + counts_after;
    assert(request.messages.push(message).drop_last() =~= request.messages);
    assert(request_texts(with_message(request, message)) =~= before + message_texts(message)
        + after);
    law_sum_of_both(counts_before + more, counts_after);
    law_sum_of_both(counts_before, more);
    law_sum_of_both(counts_before, counts_after);
    assert(counts =~= counts_before + counts_after);
}

/// An exchange ends: each step that is not the last leaves fewer events to wait
/// for.
pub proof fn law_exchange_ends(state: ExchangeState, event: ExchangeEvent, step: ExchangeStep)
    requires
        state.leads_to(event, step),
    ensures
        match step {
            ExchangeStep::ReadBody { state: next } => next.remaining() < state.remaining(),
            ExchangeStep::ParseBody { body: _, state: next } => next.remaining()
                < state.remaining(),
            ExchangeStep::Finished { .. } => true,
        },
        state.remaining() == 1 ==> step is Finished,
{
}

/// An exchange ends with an answer only where a response of the protocol was
/// parsed and holds a choice, and the answer is what its first choice says.
pub proof fn law_answer_comes_from_a_choice(
    state: ExchangeState,
    event: ExchangeEvent,
    step: ExchangeStep,
)
    requires
        state.leads_to(event, step),
        step matches ExchangeStep::Finished { outcome: Ok(_) },
    ensures
        state is Parsing,
        event matches ExchangeEvent::Parsed { response } && {
            &&& response@.messages.len() > 0
            &&& step matches ExchangeStep::Finished { outcome: Ok(answer) } && answer@
                == read_response_view(response@)
        },
{
}

/// An answer whose status is no success ends the exchange with an error that
/// holds the status, and the body where it could be read.
pub proof fn law_refusal_is_reported(
    url: String,
    status: String,
    first: ExchangeStep,
    event: ExchangeEvent,
    last: ExchangeStep,
)
    requires
        (ExchangeState::Sending { url }).leads_to(
            (ExchangeEvent::Answered { success: false, status }),
            first,
        ),
        first matches ExchangeStep::ReadBody { state } && state.leads_to(event, last),
    ensures
        last matches ExchangeStep::Finished {
            outcome: Err(OmlxError::Status { status: said, body }),
        } && said == status && (event matches ExchangeEvent::BodyRead { body: read } ==> body
            == read),
{
}

/// Whether two texts are the same but for the case of ASCII letters.
pub open spec fn same_but_for_case(a: Seq<char>, b: Seq<char>) -> bool {
    &&& a.len() == b.len()
    &&& forall|i: int| 0 <= i < a.len() ==> ascii_lower(#[trigger] a[i]) == ascii_lower(b[i])
}

/// Whether two texts have the same ASCII characters at the same positions.
spec fn same_ascii(a: Seq<char>, b: Seq<char>) -> bool {
    &&& a.len() == b.len()
    &&& forall|i: int|
        0 <= i < a.len() ==> #[trigger] a[i] == b[i] || (!is_ascii_char(a[i]) && !is_ascii_char(
            b[i],
        ))
}

/// What two characters that are the same but for their case become has the same
/// ASCII characters.
proof fn lemma_same_ascii_at(a: Seq<char>, b: Seq<char>, at: int)
    requires
        same_but_for_case(a, b),
        0 <= at < a.len(),
    ensures
        same_ascii(lowercase_at(a, at), lowercase_at(b, at)),
{
    assert(ascii_lower(a[at]) == ascii_lower(b[at]));
}

/// What the first characters of two texts become has the same ASCII characters,
/// where the texts are the same but for the case of ASCII letters.
proof fn lemma_same_ascii_before(a: Seq<char>, b: Seq<char>, n: int)
    requires
        same_but_for_case(a, b),
        0 <= n <= a.len(),
    ensures
        same_ascii(lowercase_before(a, n), lowercase_before(b, n)),
    decreases n,
{
    if n > 0 {
        lemma_same_ascii_before(a, b, n - 1);
        lemma_same_ascii_at(a, b, n - 1);
        let (x, y) = (lowercase_before(a, n - 1), lowercase_before(b, n - 1));
        let (p, q) = (lowercase_at(a, n - 1), lowercase_at(b, n - 1));
        assert forall|i: int| 0 <= i < (x + p).len() implies #[trigger] (x + p)[i] == (y + q)[i]
            || (!is_ascii_char((x + p)[i]) && !is_ascii_char((y + q)[i])) by {
            if i < x.len() {
                assert(x[i] == y[i] || !is_ascii_char(x[i]));
            } else {
                assert(p[i - x.len()] == q[i - x.len()] || !is_ascii_char(p[i - x.len()]));
            }
        }
    }
}

/// An ASCII part of one of two texts with the same ASCII characters is a part of
/// the other.
proof fn lemma_part_of_both(a: Seq<char>, b: Seq<char>, part: Seq<char>)
    requires
        same_ascii(a, b),
        is_ascii_chars(part),
        has_part(a, part),
    ensures
        has_part(b, part),
{
    let at = choose|at: int| occurs_at(a, part, at);
    assert(b.subrange(at, at + part.len()) =~= part) by {
        assert forall|k: int| 0 <= k < part.len() implies b[at + k] == part[k] by {
            assert(a.subrange(at, at + part.len())[k] == part[k]);
            assert(is_ascii_char(part[k]));
            assert(a[at + k] == b[at + k] || !is_ascii_char(a[at + k]));
        }
    }
    assert(occurs_at(b, part, at));
}

/// The case of ASCII letters in a text does not matter to which ASCII parts its
/// lowercase form has.
pub proof fn law_case_does_not_matter(a: Seq<char>, b: Seq<char>, part: Seq<char>)
    requires
        same_but_for_case(a, b),
        is_ascii_chars(part),
    ensures
        has_part(lowercase(a), part) == has_part(lowercase(b), part),
{
    lemma_lowercase_is_by_character(a);
    lemma_lowercase_is_by_character(b);
    lemma_same_ascii_before(a, b, a.len() as int);
    lemma_same_ascii_before(b, a, a.len() as int);
    if has_part(lowercase(a), part) {
        lemma_part_of_both(lowercase(a), lowercase(b), part);
    }
    if has_part(lowercase(b), part) {
        lemma_part_of_both(lowercase(b), lowercase(a), part);
    }
}

/// Models whose names differ in the case of ASCII letters alone are of the same
/// family and have the same default maximum of output tokens.
pub proof fn law_case_of_a_name_does_not_matter(a: Seq<char>, b: Seq<char>)
    requires
        same_but_for_case(a, b),
    ensures
        family_of_lowercase(lowercase(a)) == family_of_lowercase(lowercase(b)),
        default_max_tokens_view(a) == default_max_tokens_view(b),
{
    reveal_strlit("qwen");
    reveal_strlit("gemma");
    reveal_strlit("llama");
    reveal_strlit("mistral");
    law_case_does_not_matter(a, b, "qwen"@);
    law_case_does_not_matter(a, b, "gemma"@);
    law_case_does_not_matter(a, b, "llama"@);
    law_case_does_not_matter(a, b, "mistral"@);
}

/// The key for oMLX goes before the key for any LLM, and it does so even where it
/// is empty.
pub proof fn law_key_order(omlx_key: Seq<char>, llm_key: Option<Seq<char>>)
    ensures
        chosen_key(Some(omlx_key), llm_key) == omlx_key,
        llm_key matches Some(key) ==> chosen_key(None, llm_key) == key,
{
}

} // verus!
