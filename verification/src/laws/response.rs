//! Laws of what is read from a response.

use crate::ai::{AiResponse, AiUsage};
use crate::error::OmlxError;
use crate::json::{json_null, json_value};
use crate::response::{
    comes_to, read_response_view, read_tool_call_view, tool_call_of, usage_of,
};
use crate::wire::{OmlxMessage, OmlxResponse, OmlxToolCallView, OmlxUsage};
use serde_json::Value;
use vstd::prelude::*;

verus! {

/// The null that stands for arguments without a value is what the text `null`
/// stands for.
pub proof fn law_null_is_read_from_its_text(value: Value)
    requires
        json_value("null"@) == Some(value),
    ensures
        json_null() == value,
{
}

/// A tool call holds what it is made of; null stands for missing arguments.
pub proof fn law_read_call_holds_its_parts(id: Seq<char>, name: Seq<char>, value: Value)
    ensures
        tool_call_of(id, name, Some(value)).id == id,
        tool_call_of(id, name, Some(value)).function_name == name,
        tool_call_of(id, name, Some(value)).arguments == value,
        tool_call_of(id, name, Some(value)).thought_signature is None,
        tool_call_of(id, name, None).id == id,
        tool_call_of(id, name, None).function_name == name,
        tool_call_of(id, name, None).arguments == json_null(),
        tool_call_of(id, name, None).thought_signature is None,
{
}

/// Of every text that stands for a value, a tool call has that value as its
/// arguments, however the text is written; only of a text that stands for none it
/// has null. The id and the name are kept.
pub proof fn law_arguments_are_what_their_text_stands_for(call: OmlxToolCallView)
    ensures
        read_tool_call_view(call).id == call.id,
        read_tool_call_view(call).function_name == call.function.name,
        json_value(call.function.arguments) matches Some(value) ==> read_tool_call_view(
            call,
        ).arguments == value,
        json_value(call.function.arguments) is None ==> read_tool_call_view(call).arguments
            == json_null(),
        read_tool_call_view(call).thought_signature is None,
{
}

/// The usage has the numbers of the protocol, whatever they are, and says nothing of
/// cached tokens.
pub proof fn law_usage_keeps_its_numbers(usage: OmlxUsage)
    ensures
        usage_of(usage).prompt_tokens as int == usage.prompt_tokens as int,
        usage_of(usage).completion_tokens as int == usage.completion_tokens as int,
        usage_of(usage).total_tokens as int == usage.total_tokens as int,
        usage_of(usage).cached_tokens is None,
{
}

/// Whether the usage for the caller has the numbers of the protocol.
pub open spec fn same_usage(usage: Option<OmlxUsage>, read: Option<AiUsage>) -> bool {
    &&& usage is None ==> read is None
    &&& usage matches Some(given) ==> (read matches Some(taken) && {
        &&& taken.prompt_tokens as int == given.prompt_tokens as int
        &&& taken.completion_tokens as int == given.completion_tokens as int
        &&& taken.total_tokens as int == given.total_tokens as int
        &&& taken.cached_tokens is None
    })
}

/// Whether `answer` says what `message` says: the same content, and the same tool
/// calls, each with its own id and name and with the value that the text of its
/// arguments stands for, or null where it stands for none.
pub open spec fn answers_with(message: OmlxMessage, answer: AiResponse) -> bool {
    &&& message.content is None ==> answer.content is None
    &&& message.content matches Some(text) ==> (answer.content matches Some(said) && said@ == text@)
    &&& answer.thought is None
    &&& message.tool_calls is None ==> answer.tool_calls is None
    &&& message.tool_calls matches Some(calls) ==> (answer.tool_calls matches Some(read) && {
        &&& read@.len() == calls@.len()
        &&& forall|i: int|
            0 <= i < calls@.len() ==> {
                &&& (#[trigger] read@[i]).id@ == calls@[i].id@
                &&& read@[i].function_name@ == calls@[i].function.name@
                &&& json_value(calls@[i].function.arguments@) matches Some(value)
                    ==> read@[i].arguments == value
                &&& json_value(calls@[i].function.arguments@) is None ==> read@[i].arguments
                    == json_null()
                &&& read@[i].thought_signature is None
            }
    })
}

/// A response with a choice comes to an answer that says what the first choice says
/// and has the usage of the response, whatever else the response holds. One without
/// a choice, and only one without, comes to the error that says so.
pub proof fn law_first_choice_is_the_answer(
    response: OmlxResponse,
    outcome: Result<AiResponse, OmlxError>,
)
    requires
        comes_to(response@, outcome),
    ensures
        response.choices@.len() == 0 <==> outcome is Err,
        response.choices@.len() == 0 ==> outcome == Err::<AiResponse, _>(OmlxError::NoChoices),
        response.choices@.len() > 0 ==> (outcome matches Ok(answer) && {
            &&& answers_with(response.choices@[0].message, answer)
            &&& same_usage(response.usage, answer.usage)
        }),
{
    if response.choices@.len() > 0 {
        let message = response.choices@[0].message;
        let answer = outcome->Ok_0;
        assert(response@.messages[0] == message@);
        assert(answer@ == read_response_view(response@));
        assert(answer.content is Some == answer@.content is Some);
        assert(answer.tool_calls is Some == answer@.tool_calls is Some);
        if let Some(calls) = message.tool_calls {
            let read = answer.tool_calls->0;
            let said = message@.tool_calls->0;
            assert(answer@.tool_calls->0.len() == read@.len());
            assert forall|i: int| 0 <= i < calls@.len() implies (#[trigger] read@[i])@
                == read_tool_call_view(calls@[i]@) by {
                assert(answer@.tool_calls->0[i] == read@[i]@);
                assert(said[i] == calls@[i]@);
            }
            assert forall|i: int| 0 <= i < calls@.len() implies (
            #[trigger] read@[i]).thought_signature is None by {
                assert(read@[i]@.thought_signature is None);
            }
        }
    }
}

} // verus!
