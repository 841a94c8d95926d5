//! Laws of the estimate of tokens.

use crate::ai::{AiMessageView, AiRequestView, AiToolView, ToolCallView};
use crate::json::json_text;
use crate::tokens::{
    call_texts, counts_as, counts_of, fitting, message_texts, request_texts, sum,
    takes_every_text, texts_of, tool_texts, totals,
};
use vstd::prelude::*;

verus! {

/// The texts of tool calls are two for each call, in order.
proof fn lemma_texts_of_calls(calls: Seq<ToolCallView>, i: int)
    requires
        0 <= i < calls.len(),
    ensures
        texts_of(calls, |c: ToolCallView| call_texts(c)).len() == 2 * calls.len(),
        texts_of(calls, |c: ToolCallView| call_texts(c))[2 * i] == calls[i].function_name,
        texts_of(calls, |c: ToolCallView| call_texts(c))[2 * i + 1] == json_text(
            calls[i].arguments,
        ),
    decreases calls.len(),
{
    let of = |c: ToolCallView| call_texts(c);
    let shorter = calls.drop_last();
    assert(texts_of(calls, of) == texts_of(shorter, of) + call_texts(calls.last()));
    if shorter.len() == 0 {
        assert(texts_of(shorter, of).len() == 0);
    } else if i < shorter.len() {
        lemma_texts_of_calls(shorter, i);
    } else {
        lemma_texts_of_calls(shorter, 0);
    }
}

/// The content of a message counts first, whoever the message is from. Behind it,
/// each tool call counts with its name and then with the text of its arguments, in
/// order. Nothing else of a message counts.
pub proof fn law_message_counts_content_and_calls(message: AiMessageView, i: int)
    ensures
        ({
            let texts = message_texts(message);
            let contents: int = if message.content is Some {
                1
            } else {
                0
            };
            let calls: int = if message.tool_calls is Some {
                message.tool_calls->0.len() as int
            } else {
                0
            };
            &&& texts.len() == contents + 2 * calls
            &&& message.content matches Some(text) ==> texts[0] == text
            &&& 0 <= i < calls ==> {
                &&& texts[contents + 2 * i] == message.tool_calls->0[i].function_name
                &&& texts[contents + 2 * i + 1] == json_text(message.tool_calls->0[i].arguments)
            }
        }),
{
    if let Some(calls) = message.tool_calls {
        let of = |c: ToolCallView| call_texts(c);
        if calls.len() == 0 {
            assert(texts_of(calls, of).len() == 0);
        } else if 0 <= i < calls.len() {
            lemma_texts_of_calls(calls, i);
        } else {
            lemma_texts_of_calls(calls, 0);
        }
    }
}

/// A tool counts with its name, its description and the text of its parameters.
pub proof fn law_tool_counts_three_texts(tool: AiToolView)
    ensures
        tool_texts(tool).len() == 3,
        tool_texts(tool)[0] == tool.name,
        tool_texts(tool)[1] == tool.description,
        tool_texts(tool)[2] == json_text(tool.parameters),
{
}

/// A request without messages and tools counts its system text and nothing else.
pub proof fn law_system_text_counts<T>(request: AiRequestView<T>)
    requires
        request.messages.len() == 0,
        request.tools matches Some(tools) ==> tools.len() == 0,
    ensures
        request.system matches Some(text) ==> request_texts(request) == seq![text],
        request.system is None ==> request_texts(request).len() == 0,
{
    let of = |m: AiMessageView| message_texts(m);
    assert(texts_of(request.messages, of) =~= Seq::empty());
}

/// One more message at the end of a request without tools counts behind all else,
/// with its own texts and nothing else.
pub proof fn law_message_counts_behind_the_others<T>(
    request: AiRequestView<T>,
    message: AiMessageView,
)
    requires
        request.tools is None,
    ensures
        request_texts(
            (AiRequestView { messages: request.messages.push(message), ..request }),
        ) == request_texts(request) + message_texts(message),
{
    let of = |m: AiMessageView| message_texts(m);
    let longer = request.messages.push(message);
    assert(longer.drop_last() =~= request.messages);
    assert(texts_of(longer, of) == texts_of(request.messages, of) + message_texts(message));
}

/// One more tool at the end of the list counts behind all else, with its name, its
/// description and the text of its parameters. A list that is empty counts as one
/// that is missing.
pub proof fn law_tool_counts_behind_the_others<T>(
    request: AiRequestView<T>,
    tools: Seq<AiToolView>,
    tool: AiToolView,
)
    ensures
        request_texts((AiRequestView { tools: Some(tools.push(tool)), ..request }))
            == request_texts((AiRequestView { tools: Some(tools), ..request })) + seq![
            tool.name,
            tool.description,
            json_text(tool.parameters),
        ],
        tools.len() == 0 ==> request_texts((AiRequestView { tools: Some(tools), ..request }))
            == request_texts((AiRequestView { tools: None, ..request })),
{
    let of = |t: AiToolView| tool_texts(t);
    assert(tools.push(tool).drop_last() =~= tools);
    assert(texts_of(tools.push(tool), of) == texts_of(tools, of) + tool_texts(tool));
    assert(tool_texts(tool) =~= seq![tool.name, tool.description, json_text(tool.parameters)]);
    if tools.len() == 0 {
        assert(texts_of(tools, of) =~= Seq::empty());
    }
}

/// Whether two messages have the same content and call the same functions with the
/// same arguments.
pub open spec fn count_alike(a: AiMessageView, b: AiMessageView) -> bool {
    &&& a.content == b.content
    &&& a.tool_calls is Some == b.tool_calls is Some
    &&& a.tool_calls is Some ==> {
        &&& a.tool_calls->0.len() == b.tool_calls->0.len()
        &&& forall|i: int|
            0 <= i < a.tool_calls->0.len() ==> {
                &&& (#[trigger] a.tool_calls->0[i]).function_name
                    == b.tool_calls->0[i].function_name
                &&& a.tool_calls->0[i].arguments == b.tool_calls->0[i].arguments
            }
    }
}

/// Who a message is from, what was thought, which call it answers and the ids of its
/// calls do not matter to which of its texts count.
pub proof fn law_role_of_a_message_does_not_count(a: AiMessageView, b: AiMessageView)
    requires
        count_alike(a, b),
    ensures
        message_texts(a) == message_texts(b),
{
    law_message_counts_content_and_calls(a, 0);
    law_message_counts_content_and_calls(b, 0);
    let contents: int = if a.content is Some {
        1
    } else {
        0
    };
    assert forall|k: int| 0 <= k < message_texts(a).len() implies message_texts(a)[k]
        == message_texts(b)[k] by {
        if k >= contents {
            let i = (k - contents) / 2;
            law_message_counts_content_and_calls(a, i);
            law_message_counts_content_and_calls(b, i);
            assert(a.tool_calls->0[i].function_name == b.tool_calls->0[i].function_name);
            assert(k == contents + 2 * i || k == contents + 2 * i + 1);
        }
    }
    assert(message_texts(a) =~= message_texts(b));
}

/// The texts of two lists of messages are the same where the messages count alike.
proof fn lemma_messages_count_alike(a: Seq<AiMessageView>, b: Seq<AiMessageView>)
    requires
        a.len() == b.len(),
        forall|i: int| 0 <= i < a.len() ==> count_alike(#[trigger] a[i], b[i]),
    ensures
        texts_of(a, |m: AiMessageView| message_texts(m)) == texts_of(
            b,
            |m: AiMessageView| message_texts(m),
        ),
    decreases a.len(),
{
    if a.len() > 0 {
        assert forall|i: int| 0 <= i < a.drop_last().len() implies count_alike(
            #[trigger] a.drop_last()[i],
            b.drop_last()[i],
        ) by {
            assert(count_alike(a[i], b[i]));
        }
        lemma_messages_count_alike(a.drop_last(), b.drop_last());
        assert(count_alike(a[a.len() - 1], b[b.len() - 1]));
        law_role_of_a_message_does_not_count(a.last(), b.last());
    }
}

/// Two requests with the same system text and tools, whose messages have the same
/// contents and the same calls, count alike, whoever the messages are from and
/// whatever is asked for the answer.
pub proof fn law_roles_do_not_count<T>(a: AiRequestView<T>, b: AiRequestView<T>)
    requires
        a.system == b.system,
        a.tools == b.tools,
        a.messages.len() == b.messages.len(),
        forall|i: int|
            0 <= i < a.messages.len() ==> count_alike(#[trigger] a.messages[i], b.messages[i]),
    ensures
        request_texts(a) == request_texts(b),
{
    lemma_messages_count_alike(a.messages, b.messages);
}

/// Two requests that differ in the roles of their messages alone have the same texts
/// that count.
pub proof fn law_roles_alone_do_not_count<T>(a: AiRequestView<T>, b: AiRequestView<T>)
    requires
        b == (AiRequestView { messages: b.messages, ..a }),
        a.messages.len() == b.messages.len(),
        forall|i: int|
            0 <= i < a.messages.len() ==> b.messages[i] == (AiMessageView {
                role: b.messages[i].role,
                ..#[trigger] a.messages[i]
            }),
    ensures
        request_texts(a) == request_texts(b),
{
    law_roles_do_not_count(a, b);
}

/// Every text of every message is one of the texts of the request that count.
pub proof fn law_every_message_counts<T>(request: AiRequestView<T>, i: int, k: int)
    requires
        0 <= i < request.messages.len(),
        0 <= k < message_texts(request.messages[i]).len(),
    ensures
        request_texts(request).contains(message_texts(request.messages[i])[k]),
{
    let of = |m: AiMessageView| message_texts(m);
    let text = message_texts(request.messages[i])[k];
    let at = lemma_text_is_there(request.messages, i, k);
    let before: int = if request.system is Some {
        1
    } else {
        0
    };
    assert(request_texts(request)[before + at] == text);
}

/// Where a text of a message is among the texts of a list of messages.
proof fn lemma_text_is_there(messages: Seq<AiMessageView>, i: int, k: int) -> (at: int)
    requires
        0 <= i < messages.len(),
        0 <= k < message_texts(messages[i]).len(),
    ensures
        0 <= at < texts_of(messages, |m: AiMessageView| message_texts(m)).len(),
        texts_of(messages, |m: AiMessageView| message_texts(m))[at] == message_texts(
            messages[i],
        )[k],
    decreases messages.len(),
{
    let of = |m: AiMessageView| message_texts(m);
    let shorter = messages.drop_last();
    assert(texts_of(messages, of) == texts_of(shorter, of) + message_texts(messages.last()));
    if i < shorter.len() {
        lemma_text_is_there(shorter, i, k)
    } else {
        texts_of(shorter, of).len() + k
    }
}

/// No counts sum to nothing, one count to itself.
pub proof fn law_sum_of_one(count: usize)
    ensures
        sum(Seq::<usize>::empty()) == 0,
        sum(seq![count]) == count,
{
    reveal_with_fuel(sum, 2);
    let one = seq![count];
    assert(one.drop_last().len() == 0);
    assert(one.last() == count);
    assert(sum(one) == sum(one.drop_last()) + one.last() as nat);
}

/// Each count of a list of texts is one that the counter may give of its own text,
/// and there is one for each text.
pub proof fn law_each_text_has_its_count<F: Fn(&str) -> usize>(
    counter: F,
    texts: Seq<Seq<char>>,
    counts: Seq<usize>,
    i: int,
)
    requires
        counts_of(counter, texts, counts),
    ensures
        counts.len() == texts.len(),
        0 <= i < texts.len() ==> exists|s: &str|
            s@ == texts[i] && #[trigger] call_ensures(counter, (s,), counts[i]),
{
    if 0 <= i < texts.len() {
        assert(counts_as(counter, texts[i], counts[i]));
    }
}

/// An estimate is the sum of counts of the texts, one for each, where a `usize` can
/// hold the sum, and missing where it cannot.
pub proof fn law_total_is_the_sum<F: Fn(&str) -> usize>(
    counter: F,
    texts: Seq<Seq<char>>,
    total: Option<usize>,
)
    requires
        totals(counter, texts, total),
    ensures
        exists|counts: Seq<usize>| #[trigger]
            counts_of(counter, texts, counts) && match total {
                Some(n) => n as nat == sum(counts),
                None => sum(counts) > usize::MAX,
            },
{
    let counts = choose|counts: Seq<usize>| #[trigger]
        counts_of(counter, texts, counts) && total == fitting(sum(counts));
    assert(counts_of(counter, texts, counts));
}

/// A number that a `usize` can hold fits as itself, and no other fits.
pub proof fn law_fitting_number(n: nat)
    ensures
        n <= usize::MAX ==> (fitting(n) matches Some(m) && m as nat == n),
        n > usize::MAX ==> fitting(n) is None,
{
}

/// A counter that can be called with every text takes every text.
pub proof fn law_counter_of_every_text<F: Fn(&str) -> usize>(counter: F)
    requires
        forall|s: &str| #[trigger] call_requires(counter, (s,)),
    ensures
        takes_every_text(counter),
{
}

} // verus!
