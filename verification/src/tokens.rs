//! An estimate of the tokens that a request takes. How many tokens one text takes
//! is asked of a counter that the caller brings.

use crate::ai::{
    AiMessage, AiMessageView, AiRequest, AiRequestView, AiTool, AiToolView, ToolCall, ToolCallView,
};
use crate::json::{json_text, to_display_text};
use vstd::prelude::*;

verus! {

/// The texts of a list of things, one after the other.
pub open spec fn texts_of<A>(
    items: Seq<A>,
    texts: spec_fn(A) -> Seq<Seq<char>>,
) -> Seq<Seq<char>>
    decreases items.len(),
{
    if items.len() == 0 {
        Seq::empty()
    } else {
        texts_of(items.drop_last(), texts) + texts(items.last())
    }
}

/// The text in an optional text.
pub open spec fn optional_text(text: Option<Seq<char>>) -> Seq<Seq<char>> {
    match text {
        Some(text) => seq![text],
        None => Seq::empty(),
    }
}

/// The texts of a tool call that count: the function's name and the arguments.
pub open spec fn call_texts(call: ToolCallView) -> Seq<Seq<char>> {
    seq![call.function_name, json_text(call.arguments)]
}

/// The texts of a message that count: the content and those of the tool calls.
pub open spec fn message_texts(message: AiMessageView) -> Seq<Seq<char>> {
    optional_text(message.content) + match message.tool_calls {
        Some(calls) => texts_of(calls, |c: ToolCallView| call_texts(c)),
        None => Seq::empty(),
    }
}

/// The texts of a tool that count: the name, the description and the parameters.
pub open spec fn tool_texts(tool: AiToolView) -> Seq<Seq<char>> {
    seq![tool.name, tool.description, json_text(tool.parameters)]
}

/// The texts of a request that count: the system text, those of the messages and
/// those of the tools.
pub open spec fn request_texts<T>(request: AiRequestView<T>) -> Seq<Seq<char>> {
    optional_text(request.system) + texts_of(
        request.messages,
        |m: AiMessageView| message_texts(m),
    ) + match request.tools {
        Some(tools) => texts_of(tools, |t: AiToolView| tool_texts(t)),
        None => Seq::empty(),
    }
}

/// The sum of some counts.
pub open spec fn sum(counts: Seq<usize>) -> nat
    decreases counts.len(),
{
    if counts.len() == 0 {
        0
    } else {
        sum(counts.drop_last()) + counts.last() as nat
    }
}

/// Whether `n` is a number that the counter may give of a text.
pub open spec fn counts_as<F: Fn(&str) -> usize>(counter: F, text: Seq<char>, n: usize) -> bool {
    exists|s: &str| s@ == text && #[trigger] call_ensures(counter, (s,), n)
}

/// Whether `counts` are numbers that the counter may give of `texts`, one each.
pub open spec fn counts_of<F: Fn(&str) -> usize>(
    counter: F,
    texts: Seq<Seq<char>>,
    counts: Seq<usize>,
) -> bool {
    &&& counts.len() == texts.len()
    &&& forall|i: int|
        0 <= i < texts.len() ==> counts_as(counter, #[trigger] texts[i], #[trigger] counts[i])
}

/// Whether the counter takes every text.
pub open spec fn takes_every_text<F: Fn(&str) -> usize>(counter: F) -> bool {
    forall|s: &str| #[trigger] call_requires(counter, (s,))
}

/// A number where it is one that a `usize` can hold.
pub open spec fn fitting(n: nat) -> Option<usize> {
    if n <= usize::MAX {
        Some(n as usize)
    } else {
        None
    }
}

/// Whether `total` is the sum of numbers that the counter may give of `texts`,
/// one each; it is `None` where the sum is too large.
pub open spec fn totals<F: Fn(&str) -> usize>(
    counter: F,
    texts: Seq<Seq<char>>,
    total: Option<usize>,
) -> bool {
    exists|counts: Seq<usize>|
        #[trigger] counts_of(counter, texts, counts) && total == fitting(sum(counts))
}

/// Adds what the counter gives of one more text.
fn add_text<F: Fn(&str) -> usize>(
    counter: &F,
    Ghost(texts): Ghost<Seq<Seq<char>>>,
    total: Option<usize>,
    text: &str,
) -> (new_total: Option<usize>)
    requires
        takes_every_text(*counter),
        totals(*counter, texts, total),
    ensures
        totals(*counter, texts.push(text@), new_total),
{
    let n: usize = counter(text);
    proof {
        let counts = choose|counts: Seq<usize>|
            #[trigger] counts_of(*counter, texts, counts) && total == fitting(sum(counts));
        let more = counts.push(n);
        assert(more.drop_last() =~= counts);
        assert(counts_as(*counter, text@, n));
        assert(counts_of(*counter, texts.push(text@), more));
    }
    match total {
        Some(t) => t.checked_add(n),
        None => None,
    }
}

/// Adds what the counter gives of the texts of a tool call.
fn add_call<F: Fn(&str) -> usize>(
    counter: &F,
    Ghost(texts): Ghost<Seq<Seq<char>>>,
    total: Option<usize>,
    call: &ToolCall,
) -> (new_total: Option<usize>)
    requires
        takes_every_text(*counter),
        totals(*counter, texts, total),
    ensures
        totals(*counter, texts + call_texts(call@), new_total),
{
    let total = add_text(counter, Ghost(texts), total, call.function_name.as_str());
    let arguments = to_display_text(&call.arguments);
    let total = add_text(
        counter,
        Ghost(texts.push(call.function_name@)),
        total,
        arguments.as_str(),
    );
    assert(texts + call_texts(call@) =~= texts.push(call.function_name@).push(arguments@));
    total
}

/// Adds what the counter gives of the texts of a message.
fn add_message<F: Fn(&str) -> usize>(
    counter: &F,
    Ghost(texts): Ghost<Seq<Seq<char>>>,
    total: Option<usize>,
    message: &AiMessage,
) -> (new_total: Option<usize>)
    requires
        takes_every_text(*counter),
        totals(*counter, texts, total),
    ensures
        totals(*counter, texts + message_texts(message@), new_total),
{
    let mut total = total;
    let ghost with_content = texts + optional_text(message@.content);
    if let Some(content) = &message.content {
        total = add_text(counter, Ghost(texts), total, content.as_str());
        assert(with_content =~= texts.push(content@));
    } else {
        assert(with_content =~= texts);
    }
    if let Some(calls) = &message.tool_calls {
        let ghost said = calls@.map_values(|c: ToolCall| c@);
        let ghost of = |c: ToolCallView| call_texts(c);
        let mut i: usize = 0;
        assert(with_content + texts_of(said.take(0), of) =~= with_content);
        while i < calls.len()
            invariant
                takes_every_text(*counter),
                said == calls@.map_values(|c: ToolCall| c@),
                of == (|c: ToolCallView| call_texts(c)),
                i <= calls@.len(),
                totals(*counter, with_content + texts_of(said.take(i as int), of), total),
            decreases calls@.len() - i,
        {
            let ghost before = with_content + texts_of(said.take(i as int), of);
            total = add_call(counter, Ghost(before), total, &calls[i]);
            assert(said.take(i + 1).drop_last() =~= said.take(i as int));
            assert(with_content + texts_of(said.take(i + 1), of) =~= before + call_texts(
                calls@[i as int]@,
            ));
            i = i + 1;
        }
        assert(said.take(said.len() as int) =~= said);
        assert(texts + message_texts(message@) =~= with_content + texts_of(said, of));
    } else {
        assert(texts + message_texts(message@) =~= with_content);
    }
    total
}

/// Adds what the counter gives of the texts of a tool.
fn add_tool<F: Fn(&str) -> usize>(
    counter: &F,
    Ghost(texts): Ghost<Seq<Seq<char>>>,
    total: Option<usize>,
    tool: &AiTool,
) -> (new_total: Option<usize>)
    requires
        takes_every_text(*counter),
        totals(*counter, texts, total),
    ensures
        totals(*counter, texts + tool_texts(tool@), new_total),
{
    let total = add_text(counter, Ghost(texts), total, tool.name.as_str());
    let ghost texts_1 = texts.push(tool.name@);
    let total = add_text(counter, Ghost(texts_1), total, tool.description.as_str());
    let ghost texts_2 = texts_1.push(tool.description@);
    let parameters = to_display_text(&tool.parameters);
    let total = add_text(counter, Ghost(texts_2), total, parameters.as_str());
    assert(texts + tool_texts(tool@) =~= texts_2.push(parameters@));
    total
}

/// Estimates the tokens of a request, whatever the counter gives: the sum of what
/// it gives of each text that counts, or `None` where a `usize` cannot hold it.
pub fn checked_estimate_tokens<T, F: Fn(&str) -> usize>(
    request: &AiRequest<T>,
    counter: &F,
) -> (total: Option<usize>)
    requires
        takes_every_text(*counter),
    ensures
        totals(*counter, request_texts(request@), total),
{
    let mut total: Option<usize> = Some(0);
    let ghost no_texts = Seq::<Seq<char>>::empty();
    assert(counts_of(*counter, no_texts, Seq::<usize>::empty()));
    assert(totals(*counter, no_texts, total));
    let ghost with_system = optional_text(request@.system);
    if let Some(system) = &request.system {
        total = add_text(counter, Ghost(no_texts), total, system.as_str());
        assert(with_system =~= no_texts.push(system@));
    }
    let ghost said = request@.messages;
    let ghost of = |m: AiMessageView| message_texts(m);
    let mut i: usize = 0;
    assert(with_system + texts_of(said.take(0), of) =~= with_system);
    while i < request.messages.len()
        invariant
            takes_every_text(*counter),
            said == request.messages@.map_values(|m: AiMessage| m@),
            of == (|m: AiMessageView| message_texts(m)),
            i <= request.messages@.len(),
            totals(*counter, with_system + texts_of(said.take(i as int), of), total),
        decreases request.messages@.len() - i,
    {
        let ghost before = with_system + texts_of(said.take(i as int), of);
        total = add_message(counter, Ghost(before), total, &request.messages[i]);
        assert(said.take(i + 1).drop_last() =~= said.take(i as int));
        assert(with_system + texts_of(said.take(i + 1), of) =~= before + message_texts(
            request.messages@[i as int]@,
        ));
        i = i + 1;
    }
    assert(said.take(said.len() as int) =~= said);
    let ghost with_messages = with_system + texts_of(said, of);
    if let Some(tools) = &request.tools {
        let ghost offered = tools@.map_values(|t: AiTool| t@);
        let ghost of = |t: AiToolView| tool_texts(t);
        let mut j: usize = 0;
        assert(with_messages + texts_of(offered.take(0), of) =~= with_messages);
        while j < tools.len()
            invariant
                takes_every_text(*counter),
                offered == tools@.map_values(|t: AiTool| t@),
                of == (|t: AiToolView| tool_texts(t)),
                j <= tools@.len(),
                totals(*counter, with_messages + texts_of(offered.take(j as int), of), total),
            decreases tools@.len() - j,
        {
            let ghost before = with_messages + texts_of(offered.take(j as int), of);
            total = add_tool(counter, Ghost(before), total, &tools[j]);
            assert(offered.take(j + 1).drop_last() =~= offered.take(j as int));
            assert(with_messages + texts_of(offered.take(j + 1), of) =~= before + tool_texts(
                tools@[j as int]@,
            ));
            j = j + 1;
        }
        assert(offered.take(offered.len() as int) =~= offered);
    } else {
        assert(request_texts(request@) =~= with_messages);
    }
    total
}

/// Estimates the tokens of a request: the sum of what the counter gives of each
/// text that counts.
pub fn estimate_tokens<T, F: Fn(&str) -> usize>(request: &AiRequest<T>, counter: &F) -> (total:
    usize)
    requires
        takes_every_text(*counter),
        forall|counts: Seq<usize>| #[trigger]
            counts_of(*counter, request_texts(request@), counts) ==> sum(counts) <= usize::MAX,
    ensures
        exists|counts: Seq<usize>| #[trigger]
            counts_of(*counter, request_texts(request@), counts) && total == sum(counts),
{
    checked_estimate_tokens(request, counter).unwrap()
}

} // verus!
