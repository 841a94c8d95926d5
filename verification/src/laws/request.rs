//! Laws of what is sent for a request.

use crate::ai::{AiMessageView, AiRequestView, AiResponseFormat, AiRole, AiToolView};
use crate::json::{json_pretty, json_text};
use crate::request::{
    conversation_view, first_system_at, json_ready, mentions_json, role_text, schema_hint_of,
    sent_messages, some_mentions_json, wire_message_view, wire_request_view, wire_tool_call_of,
    wire_tools_view, with_instruction,
};
use crate::text::{has_part, lowercase};
use crate::wire::OmlxMessageView;
use vstd::prelude::*;

verus! {

/// The names of the roles are told apart.
proof fn lemma_role_texts()
    ensures
        "user"@ != "system"@,
        "assistant"@ != "system"@,
        "tool"@ != "system"@,
        "assistant"@ != "user"@,
        "assistant"@ != "tool"@,
        "user"@ != "tool"@,
{
    reveal_strlit("system");
    reveal_strlit("user");
    reveal_strlit("assistant");
    reveal_strlit("tool");
    assert("user"@.len() == 4 && "tool"@.len() == 4);
    assert("system"@.len() == 6 && "assistant"@.len() == 9);
    assert("user"@[0] == 'u' && "tool"@[0] == 't');
}

/// No two roles have the same name.
pub proof fn law_roles_are_told_apart(a: AiRole, b: AiRole)
    ensures
        role_text(a) == role_text(b) <==> a == b,
{
    lemma_role_texts();
}

/// A tool call holds what it is made of: a call without arguments has the empty
/// text for them.
pub proof fn law_tool_call_holds_its_parts(id: Seq<char>, name: Seq<char>, text: Seq<char>)
    ensures
        wire_tool_call_of(id, name, Some(text)).id == id,
        wire_tool_call_of(id, name, Some(text)).tool_type == "function"@,
        wire_tool_call_of(id, name, Some(text)).function.name == name,
        wire_tool_call_of(id, name, Some(text)).function.arguments == text,
        wire_tool_call_of(id, name, None).id == id,
        wire_tool_call_of(id, name, None).tool_type == "function"@,
        wire_tool_call_of(id, name, None).function.name == name,
        wire_tool_call_of(id, name, None).function.arguments.len() == 0,
{
}

/// Whether `sent` says who `message` is from and which calls it makes or answers:
/// an assistant's calls are sent one by one, in order, with their own id, name and
/// arguments, a tool's message has the id that it has, and no other message has
/// calls or an id.
pub open spec fn same_but_for_content(message: AiMessageView, sent: OmlxMessageView) -> bool {
    &&& message.role == AiRole::System ==> sent.role == "system"@
    &&& message.role == AiRole::User ==> sent.role == "user"@
    &&& message.role == AiRole::Assistant ==> sent.role == "assistant"@
    &&& message.role == AiRole::Tool ==> sent.role == "tool"@
    &&& message.role == AiRole::Tool ==> sent.tool_call_id == message.tool_call_id
    &&& message.role != AiRole::Tool ==> sent.tool_call_id is None
    &&& message.role != AiRole::Assistant ==> sent.tool_calls is None
    &&& message.role == AiRole::Assistant ==> match message.tool_calls {
        Some(calls) => sent.tool_calls matches Some(sent_calls) && {
            &&& sent_calls.len() == calls.len()
            &&& forall|j: int|
                0 <= j < calls.len() ==> {
                    &&& (#[trigger] sent_calls[j]).id == calls[j].id
                    &&& sent_calls[j].tool_type == "function"@
                    &&& sent_calls[j].function.name == calls[j].function_name
                    &&& sent_calls[j].function.arguments == json_text(calls[j].arguments)
                }
        },
        None => sent.tool_calls is None,
    }
}

/// A message is translated with its role, its content, and the calls that it makes
/// or answers.
pub proof fn law_message_is_translated(message: AiMessageView)
    ensures
        same_but_for_content(message, wire_message_view(message)),
        wire_message_view(message).role == match message.role {
            AiRole::System => "system"@,
            AiRole::User => "user"@,
            AiRole::Assistant => "assistant"@,
            AiRole::Tool => "tool"@,
        },
        wire_message_view(message).content == message.content,
        message.role == AiRole::Tool ==> wire_message_view(message).tool_call_id
            == message.tool_call_id,
        message.role != AiRole::Tool ==> wire_message_view(message).tool_call_id is None,
        wire_message_view(message).tool_calls is Some <==> message.role == AiRole::Assistant
            && message.tool_calls is Some,
        wire_message_view(message).tool_calls matches Some(sent) ==> {
            &&& sent.len() == message.tool_calls->0.len()
            &&& forall|j: int|
                0 <= j < sent.len() ==> {
                    let call = message.tool_calls->0[j];
                    &&& (#[trigger] sent[j]).id == call.id
                    &&& sent[j].tool_type == "function"@
                    &&& sent[j].function.name == call.function_name
                    &&& sent[j].function.arguments == json_text(call.arguments)
                }
        },
{
}

/// Whether `sent` is the system text, where there is one, and then every message,
/// each with its own content and in its own place, and nothing else.
pub open spec fn just_said(
    system: Option<Seq<char>>,
    messages: Seq<AiMessageView>,
    sent: Seq<OmlxMessageView>,
) -> bool {
    let before: int = if system is Some {
        1
    } else {
        0
    };
    &&& sent.len() == before + messages.len()
    &&& system matches Some(text) ==> {
        &&& sent[0].role == "system"@
        &&& sent[0].content == Some(text)
        &&& sent[0].tool_calls is None
        &&& sent[0].tool_call_id is None
    }
    &&& forall|i: int|
        0 <= i < messages.len() ==> {
            &&& same_but_for_content(#[trigger] messages[i], sent[before + i])
            &&& sent[before + i].content == messages[i].content
        }
}

/// A conversation is translated whole and in order, whatever its length: the
/// system text first, then each message.
pub proof fn law_conversation_is_translated(
    system: Option<Seq<char>>,
    messages: Seq<AiMessageView>,
)
    ensures
        just_said(system, messages, conversation_view(system, messages)),
{
    let sent = conversation_view(system, messages);
    let before: int = if system is Some {
        1
    } else {
        0
    };
    assert forall|i: int| 0 <= i < messages.len() implies {
        &&& same_but_for_content(#[trigger] messages[i], sent[before + i])
        &&& sent[before + i].content == messages[i].content
    } by {
        assert(sent[before + i] == wire_message_view(messages[i]));
        law_message_is_translated(messages[i]);
    }
}

/// Some message is said to mention JSON if and only if the lowercase form of some
/// content holds the word.
pub proof fn law_mention_is_in_some_content(messages: Seq<OmlxMessageView>)
    ensures
        some_mentions_json(messages) <==> exists|i: int|
            0 <= i < messages.len() && ((#[trigger] messages[i]).content matches Some(content)
                && has_part(lowercase(content), "json"@)),
{
    if exists|i: int|
        0 <= i < messages.len() && ((#[trigger] messages[i]).content matches Some(content)
            && has_part(lowercase(content), "json"@)) {
        let i = choose|i: int|
            0 <= i < messages.len() && ((#[trigger] messages[i]).content matches Some(content)
                && has_part(lowercase(content), "json"@));
        assert(mentions_json(messages[i]));
    }
}

/// Where the first system message stands is known by its role alone, and there is
/// such a place if and only if some message is a system message.
pub proof fn law_first_system_message(messages: Seq<OmlxMessageView>, at: int)
    ensures
        first_system_at(messages, at) <==> {
            &&& 0 <= at < messages.len()
            &&& messages[at].role == "system"@
            &&& forall|j: int| 0 <= j < at ==> (#[trigger] messages[j]).role != "system"@
        },
        0 <= at < messages.len() && messages[at].role == "system"@ ==> exists|first: int|
            first <= at && #[trigger] first_system_at(messages, first),
    decreases at,
{
    if 0 <= at < messages.len() && messages[at].role == "system"@ {
        if exists|j: int| 0 <= j < at && (#[trigger] messages[j]).role == "system"@ {
            let j = choose|j: int| 0 <= j < at && (#[trigger] messages[j]).role == "system"@;
            law_first_system_message(messages, j);
        } else {
            assert(first_system_at(messages, at));
        }
    }
}

/// The instruction that a schema makes is the schema's text between two lines that
/// mark it as JSON.
pub proof fn law_schema_stands_in_its_hint(schema_text: Seq<char>)
    ensures
        schema_hint_of(schema_text)
            == "\nYou MUST respond with valid JSON matching this schema:\n```json\n"@ + schema_text
            + "\n```"@,
{
}

/// Where there is a system message, the instruction goes to the end of the first
/// one, and nothing else changes.
pub proof fn law_instruction_ends_the_first_system_message(
    messages: Seq<OmlxMessageView>,
    hint: Option<Seq<char>>,
    at: int,
)
    requires
        0 <= at < messages.len(),
        messages[at].role == "system"@,
        forall|j: int| 0 <= j < at ==> (#[trigger] messages[j]).role != "system"@,
    ensures
        ({
            let sent = with_instruction(messages, hint);
            let added = match hint {
                Some(text) => text,
                None => "\nRespond in JSON format."@,
            };
            &&& sent.len() == messages.len()
            &&& sent[at].role == messages[at].role
            &&& sent[at].tool_calls == messages[at].tool_calls
            &&& sent[at].tool_call_id == messages[at].tool_call_id
            &&& messages[at].content matches Some(content) ==> sent[at].content == Some(
                content + added,
            )
            &&& messages[at].content is None ==> sent[at].content == Some(added)
            &&& forall|j: int|
                0 <= j < messages.len() && j != at ==> #[trigger] sent[j] == messages[j]
        }),
{
    assert(first_system_at(messages, at));
    let chosen = choose|at: int| first_system_at(messages, at);
    assert(chosen == at) by {
        if chosen < at {
            assert(messages[chosen].role != "system"@);
        }
        if at < chosen {
            assert(messages[at].role != "system"@);
        }
    }
}

/// Where there is no system message, the instruction is one, before all others,
/// and nothing else changes.
pub proof fn law_instruction_makes_a_system_message(
    messages: Seq<OmlxMessageView>,
    hint: Option<Seq<char>>,
)
    requires
        forall|j: int| 0 <= j < messages.len() ==> (#[trigger] messages[j]).role != "system"@,
    ensures
        ({
            let sent = with_instruction(messages, hint);
            &&& sent.len() == messages.len() + 1
            &&& sent[0].role == "system"@
            &&& sent[0].tool_calls is None
            &&& sent[0].tool_call_id is None
            &&& hint matches Some(text) ==> sent[0].content == Some(text)
            &&& hint is None ==> sent[0].content == Some("Respond in JSON format."@)
            &&& forall|j: int|
                0 <= j < messages.len() ==> sent[j + 1] == #[trigger] messages[j]
        }),
{
    assert forall|at: int| !first_system_at(messages, at) by {
        if first_system_at(messages, at) {
            assert(messages[at].role != "system"@);
        }
    }
}

/// The instruction is added if there is a hint or no content holds the word "json",
/// and only then.
pub proof fn law_instruction_is_added_where_needed(
    messages: Seq<OmlxMessageView>,
    hint: Option<Seq<char>>,
)
    ensures
        hint is Some ==> json_ready(messages, hint) == with_instruction(messages, hint),
        (forall|i: int|
            0 <= i < messages.len() ==> ((#[trigger] messages[i]).content matches Some(content)
                ==> !has_part(lowercase(content), "json"@))) ==> json_ready(messages, hint)
            == with_instruction(messages, hint),
        forall|i: int|
            hint is None && 0 <= i < messages.len() && (
            (#[trigger] messages[i]).content matches Some(content) && has_part(
                lowercase(content),
                "json"@,
            )) ==> json_ready(messages, hint) == messages,
{
    law_mention_is_in_some_content(messages);
    assert forall|i: int|
        hint is None && 0 <= i < messages.len() && ((#[trigger] messages[i]).content matches Some(
            content,
        ) && has_part(lowercase(content), "json"@)) implies json_ready(messages, hint)
        == messages by {
        assert(mentions_json(messages[i]));
    }
}

/// Whether the system text or the content of some message holds the word "json", in
/// upper or lower case.
pub open spec fn speaks_of_json<T>(request: AiRequestView<T>) -> bool {
    ||| request.system matches Some(text) && has_part(lowercase(text), "json"@)
    ||| exists|i: int|
        0 <= i < request.messages.len() && ((#[trigger] request.messages[i]).content matches Some(
            content,
        ) && has_part(lowercase(content), "json"@))
}

/// The conversation mentions JSON if and only if the request does.
proof fn lemma_conversation_speaks<T>(request: AiRequestView<T>)
    ensures
        some_mentions_json(conversation_view(request.system, request.messages))
            == speaks_of_json(request),
{
    let messages = conversation_view(request.system, request.messages);
    law_conversation_is_translated(request.system, request.messages);
    let before: int = if request.system is Some {
        1
    } else {
        0
    };
    if some_mentions_json(messages) {
        let k = choose|k: int| 0 <= k < messages.len() && mentions_json(#[trigger] messages[k]);
        if k >= before {
            assert(request.messages[k - before].content == messages[before + (k - before)].content);
        }
    }
    if speaks_of_json(request) {
        if request.system is Some && has_part(lowercase(request.system->0), "json"@) {
            assert(mentions_json(messages[0]));
        } else {
            let i = choose|i: int|
                0 <= i < request.messages.len() && ((
                #[trigger] request.messages[i]).content matches Some(content) && has_part(
                    lowercase(content),
                    "json"@,
                ));
            assert(mentions_json(messages[before + i]));
        }
    }
}

/// Where no JSON answer is asked for, what is sent is what the request says.
pub proof fn law_nothing_is_added_without_json<T>(request: AiRequestView<T>)
    requires
        request.response_format is None || request.response_format == Some(AiResponseFormat::Text),
    ensures
        just_said(request.system, request.messages, sent_messages(request)),
{
    law_conversation_is_translated(request.system, request.messages);
}

/// Where a JSON answer without a schema is asked for and the request holds the word
/// already, what is sent is what the request says.
pub proof fn law_nothing_is_added_to_a_mention<T>(request: AiRequestView<T>)
    requires
        request.response_format == Some(AiResponseFormat::Json { schema: None }),
        speaks_of_json(request),
    ensures
        just_said(request.system, request.messages, sent_messages(request)),
{
    law_conversation_is_translated(request.system, request.messages);
    lemma_conversation_speaks(request);
}

/// Whether a request needs an instruction to answer in JSON: it asks for a JSON
/// answer, and it gives a schema or does not hold the word.
pub open spec fn needs_instruction<T>(request: AiRequestView<T>) -> bool {
    request.response_format matches Some(AiResponseFormat::Json { schema }) && (schema is Some
        || !speaks_of_json(request))
}

/// Where an instruction is needed and there is a system text, the instruction ends
/// the system text, and every message is sent as it is.
pub proof fn law_instruction_ends_the_system_text<T>(request: AiRequestView<T>, text: Seq<char>)
    requires
        needs_instruction(request),
        request.system == Some(text),
    ensures
        ({
            let sent = sent_messages(request);
            &&& sent.len() == request.messages.len() + 1
            &&& sent[0].role == "system"@
            &&& sent[0].tool_calls is None
            &&& sent[0].tool_call_id is None
            &&& request.response_format->0->schema is None ==> sent[0].content == Some(
                text + "\nRespond in JSON format."@,
            )
            &&& request.response_format->0->schema matches Some(schema) ==> sent[0].content == Some(
                text + ("\nYou MUST respond with valid JSON matching this schema:\n```json\n"@
                    + json_pretty(schema) + "\n```"@),
            )
            &&& forall|i: int|
                0 <= i < request.messages.len() ==> {
                    &&& same_but_for_content(#[trigger] request.messages[i], sent[i + 1])
                    &&& sent[i + 1].content == request.messages[i].content
                }
        }),
{
    let messages = conversation_view(request.system, request.messages);
    let sent = sent_messages(request);
    law_conversation_is_translated(request.system, request.messages);
    lemma_conversation_speaks(request);
    let hint = match request.response_format->0->schema {
        Some(schema) => Some(schema_hint_of(json_pretty(schema))),
        None => None,
    };
    assert(sent == with_instruction(messages, hint));
    law_instruction_ends_the_first_system_message(messages, hint, 0);
    assert forall|i: int| 0 <= i < request.messages.len() implies {
        &&& same_but_for_content(#[trigger] request.messages[i], sent[i + 1])
        &&& sent[i + 1].content == request.messages[i].content
    } by {
        assert(sent[i + 1] == messages[1 + i]);
    }
}

/// Where an instruction is needed, there is no system text and some message is a
/// system message, the instruction ends the first such message, and every other
/// message is sent as it is.
#[verifier::spinoff_prover]
#[verifier::rlimit(40)]
pub proof fn law_instruction_ends_a_system_message<T>(request: AiRequestView<T>, at: int)
    requires
        needs_instruction(request),
        request.system is None,
        0 <= at < request.messages.len(),
        request.messages[at].role == AiRole::System,
        forall|j: int| 0 <= j < at ==> (#[trigger] request.messages[j]).role != AiRole::System,
    ensures
        ({
            let sent = sent_messages(request);
            let said = match request.messages[at].content {
                Some(content) => content,
                None => Seq::empty(),
            };
            &&& sent.len() == request.messages.len()
            &&& request.response_format->0->schema is None ==> sent[at].content == Some(
                said + "\nRespond in JSON format."@,
            )
            &&& request.response_format->0->schema matches Some(schema) ==> sent[at].content
                == Some(
                said + ("\nYou MUST respond with valid JSON matching this schema:\n```json\n"@
                    + json_pretty(schema) + "\n```"@),
            )
            &&& forall|i: int|
                0 <= i < request.messages.len() ==> same_but_for_content(
                    #[trigger] request.messages[i],
                    sent[i],
                )
            &&& forall|i: int|
                0 <= i < request.messages.len() && i != at ==> sent[i].content == (
                #[trigger] request.messages[i]).content
        }),
{
    let messages = conversation_view(request.system, request.messages);
    let sent = sent_messages(request);
    law_conversation_is_translated(request.system, request.messages);
    lemma_conversation_speaks(request);
    lemma_role_texts();
    let hint = match request.response_format->0->schema {
        Some(schema) => Some(schema_hint_of(json_pretty(schema))),
        None => None,
    };
    assert(sent == with_instruction(messages, hint));
    assert(same_but_for_content(request.messages[at], messages[0 + at]));
    assert forall|j: int| 0 <= j < at implies (#[trigger] messages[j]).role != "system"@ by {
        assert(same_but_for_content(request.messages[j], messages[0 + j]));
    }
    law_instruction_ends_the_first_system_message(messages, hint, at);
    let added = match hint {
        Some(text) => text,
        None => "\nRespond in JSON format."@,
    };
    assert(Seq::<char>::empty() + added =~= added);
    assert forall|i: int| 0 <= i < request.messages.len() implies {
        &&& same_but_for_content(#[trigger] request.messages[i], sent[i])
        &&& i != at ==> sent[i].content == request.messages[i].content
    } by {
        assert(same_but_for_content(request.messages[i], messages[0 + i]));
        if i != at {
            assert(sent[i] == messages[i]);
        }
    }
}

/// Where an instruction is needed and nothing is said by a system, the instruction
/// is a system message of its own, before all others, and every message is sent as
/// it is.
pub proof fn law_instruction_stands_alone<T>(request: AiRequestView<T>)
    requires
        needs_instruction(request),
        request.system is None,
        forall|j: int|
            0 <= j < request.messages.len() ==> (#[trigger] request.messages[j]).role
                != AiRole::System,
    ensures
        ({
            let sent = sent_messages(request);
            &&& sent.len() == request.messages.len() + 1
            &&& sent[0].role == "system"@
            &&& sent[0].tool_calls is None
            &&& sent[0].tool_call_id is None
            &&& request.response_format->0->schema is None ==> sent[0].content == Some(
                "Respond in JSON format."@,
            )
            &&& request.response_format->0->schema matches Some(schema) ==> sent[0].content == Some(
                "\nYou MUST respond with valid JSON matching this schema:\n```json\n"@
                    + json_pretty(schema) + "\n```"@,
            )
            &&& forall|i: int|
                0 <= i < request.messages.len() ==> {
                    &&& same_but_for_content(#[trigger] request.messages[i], sent[i + 1])
                    &&& sent[i + 1].content == request.messages[i].content
                }
        }),
{
    let messages = conversation_view(request.system, request.messages);
    let sent = sent_messages(request);
    law_conversation_is_translated(request.system, request.messages);
    lemma_conversation_speaks(request);
    lemma_role_texts();
    let hint = match request.response_format->0->schema {
        Some(schema) => Some(schema_hint_of(json_pretty(schema))),
        None => None,
    };
    assert(sent == with_instruction(messages, hint));
    assert forall|j: int| 0 <= j < messages.len() implies (#[trigger] messages[j]).role
        != "system"@ by {
        assert(same_but_for_content(request.messages[j], messages[0 + j]));
    }
    law_instruction_makes_a_system_message(messages, hint);
    assert forall|i: int| 0 <= i < request.messages.len() implies {
        &&& same_but_for_content(#[trigger] request.messages[i], sent[i + 1])
        &&& sent[i + 1].content == request.messages[i].content
    } by {
        assert(sent[i + 1] == messages[i]);
        assert(same_but_for_content(request.messages[i], messages[0 + i]));
    }
}

/// A system text is sent as the first message, whatever is asked for the answer and
/// however long the conversation: the message begins with the text, and is the text
/// where no JSON answer is asked for. All messages follow it.
pub proof fn law_system_text_is_sent_first<T>(request: AiRequestView<T>, text: Seq<char>)
    requires
        request.system == Some(text),
    ensures
        sent_messages(request).len() == request.messages.len() + 1,
        sent_messages(request)[0].role == "system"@,
        sent_messages(request)[0].content matches Some(content) && text.is_prefix_of(content),
        !(request.response_format matches Some(AiResponseFormat::Json { .. }))
            ==> sent_messages(request)[0].content == Some(text),
{
    if needs_instruction(request) {
        law_instruction_ends_the_system_text(request, text);
        let content = sent_messages(request)[0].content->0;
        assert(content.subrange(0, text.len() as int) =~= text);
    } else if request.response_format is None || request.response_format == Some(
        AiResponseFormat::Text,
    ) {
        law_nothing_is_added_without_json(request);
    } else {
        law_nothing_is_added_to_a_mention(request);
    }
}

/// Every message is sent, in its place behind at most one other, with its role and
/// the calls that it makes or answers. Its content is sent as it is; only to that of
/// a system message may something be added, at its end.
pub proof fn law_every_message_is_sent<T>(request: AiRequestView<T>, i: int)
    requires
        0 <= i < request.messages.len(),
    ensures
        ({
            let sent = sent_messages(request);
            let before = sent.len() - request.messages.len();
            let message = request.messages[i];
            &&& before == 0 || before == 1
            &&& request.system is Some ==> before == 1
            &&& same_but_for_content(message, sent[before + i])
            &&& message.role != AiRole::System ==> sent[before + i].content == message.content
            &&& message.content matches Some(content) ==> (
            sent[before + i].content matches Some(sent_content) && content.is_prefix_of(
                sent_content,
            ))
        }),
{
    let sent = sent_messages(request);
    let message = request.messages[i];
    if let Some(content) = message.content {
        assert(content.subrange(0, content.len() as int) =~= content);
    }
    if !needs_instruction(request) {
        if request.response_format is None || request.response_format == Some(
            AiResponseFormat::Text,
        ) {
            law_nothing_is_added_without_json(request);
        } else {
            law_nothing_is_added_to_a_mention(request);
        }
        assert(same_but_for_content(message, sent[sent.len() - request.messages.len() + i]));
    } else if let Some(text) = request.system {
        law_instruction_ends_the_system_text(request, text);
        assert(same_but_for_content(message, sent[i + 1]));
    } else if exists|j: int|
        0 <= j < request.messages.len() && (#[trigger] request.messages[j]).role
            == AiRole::System {
        let j = choose|j: int|
            0 <= j < request.messages.len() && (#[trigger] request.messages[j]).role
                == AiRole::System;
        let at = lemma_first_system(request.messages, j);
        law_instruction_ends_a_system_message(request, at);
        assert(same_but_for_content(message, sent[i]));
        if i == at && message.content is Some {
            let content = message.content->0;
            assert(sent[i].content->0.subrange(0, content.len() as int) =~= content);
        }
    } else {
        law_instruction_stands_alone(request);
        assert(same_but_for_content(message, sent[i + 1]));
    }
}

/// Where there is a message of a system, there is a first one.
proof fn lemma_first_system(messages: Seq<AiMessageView>, j: int) -> (at: int)
    requires
        0 <= j < messages.len(),
        messages[j].role == AiRole::System,
    ensures
        0 <= at < messages.len(),
        messages[at].role == AiRole::System,
        forall|k: int| 0 <= k < at ==> (#[trigger] messages[k]).role != AiRole::System,
    decreases j,
{
    if exists|k: int| 0 <= k < j && (#[trigger] messages[k]).role == AiRole::System {
        let k = choose|k: int| 0 <= k < j && (#[trigger] messages[k]).role == AiRole::System;
        lemma_first_system(messages, k)
    } else {
        j
    }
}

/// The response format is `json_object` for every request of a JSON answer, with a
/// schema or without one, `text` for every request of a text and for no other, and
/// missing where the request gives none and only there.
pub proof fn law_response_format<T>(request: AiRequestView<T>, model: Seq<char>, max_tokens: u32)
    ensures
        ({
            let format = wire_request_view(request, model, max_tokens).response_format;
            &&& format == Some("json_object"@) <==> (request.response_format matches Some(
                AiResponseFormat::Json { .. },
            ))
            &&& format == Some("text"@) <==> request.response_format == Some(AiResponseFormat::Text)
            &&& format is None <==> request.response_format is None
        }),
{
    reveal_strlit("json_object");
    reveal_strlit("text");
    assert("json_object"@.len() != "text"@.len());
}

/// The model, the maximum of output tokens and the temperature are sent as they are
/// given, with the messages.
pub proof fn law_request_is_kept<T>(request: AiRequestView<T>, model: Seq<char>, max_tokens: u32)
    ensures
        wire_request_view(request, model, max_tokens).model == model,
        wire_request_view(request, model, max_tokens).max_tokens == Some(max_tokens),
        wire_request_view(request, model, max_tokens).temperature == request.temperature,
        wire_request_view(request, model, max_tokens).messages == sent_messages(request),
{
}

/// Every tool is translated as a function with its own name, description and
/// parameters, in its place, and no tools are no list.
pub proof fn law_tools_are_translated(tools: Seq<AiToolView>)
    ensures
        wire_tools_view(None) is None,
        tools.len() == 0 ==> wire_tools_view(Some(tools)) is None,
        tools.len() > 0 ==> (wire_tools_view(Some(tools)) matches Some(translated) && {
            &&& translated.len() == tools.len()
            &&& forall|i: int|
                0 <= i < tools.len() ==> {
                    &&& (#[trigger] translated[i]).tool_type == "function"@
                    &&& translated[i].function.name == tools[i].name
                    &&& translated[i].function.description == tools[i].description
                    &&& translated[i].function.parameters == tools[i].parameters
                }
        }),
{
}

/// Every tool of a request is offered, as a function with its own name, description
/// and parameters, in its place; a request without tools offers none.
pub proof fn law_every_tool_is_offered<T>(
    request: AiRequestView<T>,
    model: Seq<char>,
    max_tokens: u32,
)
    ensures
        ({
            let offered = wire_request_view(request, model, max_tokens).tools;
            &&& request.tools is None ==> offered is None
            &&& request.tools matches Some(tools) ==> {
                &&& tools.len() == 0 <==> offered is None
                &&& tools.len() > 0 ==> offered->0.len() == tools.len()
                &&& forall|i: int|
                    0 <= i < tools.len() ==> {
                        &&& (#[trigger] offered->0[i]).tool_type == "function"@
                        &&& offered->0[i].function.name == tools[i].name
                        &&& offered->0[i].function.description == tools[i].description
                        &&& offered->0[i].function.parameters == tools[i].parameters
                    }
            }
        }),
{
}

} // verus!
