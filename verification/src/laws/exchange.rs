//! Laws of an exchange and of what it can fail with.

use crate::error::OmlxError;
use crate::exchange::{ExchangeEvent, ExchangeState, ExchangeStep};
use crate::json::{json_null, json_value};
use crate::laws::response::{answers_with, law_first_choice_is_the_answer, same_usage};
use crate::wire::OmlxResponse;
use vstd::prelude::*;

verus! {

/// Each state takes every event of the two kinds that can come of what it waits for,
/// whatever the events hold, and no others.
pub proof fn law_awaited_events(state: ExchangeState, event: ExchangeEvent)
    ensures
        state is Sending ==> (state.awaits(event) <==> event is SendFailed || event is Answered),
        state is ReadingRefusal ==> (state.awaits(event) <==> event is BodyRead
            || event is BodyFailed),
        state is ReadingAnswer ==> (state.awaits(event) <==> event is BodyRead
            || event is BodyFailed),
        state is Parsing ==> (state.awaits(event) <==> event is Parsed || event is ParseFailed),
{
}

/// A request that could not be sent ends the exchange with an error: of a missing
/// connection, whatever else is said; else of the time; else of the reason.
pub proof fn law_failed_sending_is_reported(
    url: String,
    connect: bool,
    timeout: bool,
    reason: String,
    step: ExchangeStep,
)
    requires
        (ExchangeState::Sending { url }).leads_to(
            (ExchangeEvent::SendFailed { connect, timeout, reason }),
            step,
        ),
    ensures
        connect ==> step == (ExchangeStep::Finished { outcome: Err(OmlxError::Connect { url }) }),
        !connect && timeout ==> step == (ExchangeStep::Finished {
            outcome: Err(OmlxError::TimedOut { url }),
        }),
        !connect && !timeout ==> step == (ExchangeStep::Finished {
            outcome: Err(OmlxError::Request { reason }),
        }),
{
}

/// The body of every answer is read, as an answer if the status is a success and as
/// a refusal with the status if it is none.
pub proof fn law_status_decides(url: String, success: bool, status: String, step: ExchangeStep)
    requires
        (ExchangeState::Sending { url }).leads_to(
            (ExchangeEvent::Answered { success, status }),
            step,
        ),
    ensures
        success ==> step == (ExchangeStep::ReadBody { state: ExchangeState::ReadingAnswer }),
        !success ==> step == (ExchangeStep::ReadBody {
            state: ExchangeState::ReadingRefusal { status },
        }),
{
}

/// A refusal ends the exchange with an error that holds the status and the body, or
/// the empty text for a body that could not be read.
pub proof fn law_refusal_holds_status_and_body(
    status: String,
    body: String,
    reason: String,
    read: ExchangeStep,
    failed: ExchangeStep,
)
    requires
        (ExchangeState::ReadingRefusal { status }).leads_to(
            (ExchangeEvent::BodyRead { body }),
            read,
        ),
        (ExchangeState::ReadingRefusal { status }).leads_to(
            (ExchangeEvent::BodyFailed { reason }),
            failed,
        ),
    ensures
        read == (ExchangeStep::Finished { outcome: Err(OmlxError::Status { status, body }) }),
        failed matches ExchangeStep::Finished {
            outcome: Err(OmlxError::Status { status: said, body: empty }),
        } && said == status && empty@.len() == 0,
{
}

/// The body of an answer is parsed as it was read; one that could not be read ends
/// the exchange with an error that holds the reason.
pub proof fn law_answer_is_parsed(
    body: String,
    reason: String,
    read: ExchangeStep,
    failed: ExchangeStep,
)
    requires
        ExchangeState::ReadingAnswer.leads_to((ExchangeEvent::BodyRead { body }), read),
        ExchangeState::ReadingAnswer.leads_to((ExchangeEvent::BodyFailed { reason }), failed),
    ensures
        read == (ExchangeStep::ParseBody { body, state: ExchangeState::Parsing { body } }),
        failed == (ExchangeStep::Finished { outcome: Err(OmlxError::Body { reason }) }),
{
}

/// A body that is not a response of the protocol ends the exchange with an error
/// that holds the reason and the body.
pub proof fn law_failed_parsing_is_reported(body: String, reason: String, step: ExchangeStep)
    requires
        (ExchangeState::Parsing { body }).leads_to((ExchangeEvent::ParseFailed { reason }), step),
    ensures
        step == (ExchangeStep::Finished { outcome: Err(OmlxError::Parse { reason, body }) }),
{
}

/// A response that was parsed ends the exchange. Where it holds a choice, the outcome
/// is an answer that says what the first choice says, for whatever reason that choice
/// was finished, and has the usage of the response. Where it holds none, and only
/// there, the outcome is the error that says so.
pub proof fn law_choice_is_an_answer(body: String, response: OmlxResponse, step: ExchangeStep)
    requires
        (ExchangeState::Parsing { body }).leads_to((ExchangeEvent::Parsed { response }), step),
    ensures
        response.choices@.len() > 0 ==> (step matches ExchangeStep::Finished {
            outcome: Ok(answer),
        } && {
            let message = response.choices@[0].message;
            &&& answers_with(message, answer)
            &&& same_usage(response.usage, answer.usage)
            &&& message.content is Some == answer.content is Some
            &&& message.content matches Some(text) ==> answer.content->0@ == text@
            &&& message.tool_calls is Some == answer.tool_calls is Some
            &&& message.tool_calls matches Some(calls) ==> {
                &&& answer.tool_calls->0@.len() == calls@.len()
                &&& forall|i: int|
                    0 <= i < calls@.len() ==> {
                        let call = answer.tool_calls->0@[i];
                        let value = json_value((#[trigger] calls@[i]).function.arguments@);
                        &&& call.id@ == calls@[i].id@
                        &&& call.function_name@ == calls@[i].function.name@
                        &&& value matches Some(arguments) ==> call.arguments == arguments
                        &&& value is None ==> call.arguments == json_null()
                    }
            }
            &&& response.usage is Some == answer.usage is Some
            &&& response.usage matches Some(usage) ==> {
                &&& answer.usage->0.prompt_tokens as int == usage.prompt_tokens as int
                &&& answer.usage->0.completion_tokens as int == usage.completion_tokens as int
                &&& answer.usage->0.total_tokens as int == usage.total_tokens as int
            }
        }),
        response.choices@.len() == 0 <==> step == (ExchangeStep::Finished {
            outcome: Err(OmlxError::NoChoices),
        }),
{
    law_first_choice_is_the_answer(response, step->outcome);
    if response.choices@.len() > 0 && response.choices@[0].message.tool_calls is Some {
        let calls = response.choices@[0].message.tool_calls->0;
        let read = step->outcome->Ok_0.tool_calls->0;
        assert forall|i: int| 0 <= i < calls@.len() implies (#[trigger] calls@[i]).id@
            == read@[i].id@ by {
            assert(read@[i].thought_signature is None);
        }
    }
}

/// Each error in words holds all that it is known by, in these words.
pub proof fn law_error_in_words(url: String, status: String, reason: String, body: String)
    ensures
        (OmlxError::Connect { url }).text() == "Could not connect to oMLX at "@ + url@
            + ". Is the server running?"@,
        (OmlxError::TimedOut { url }).text() == "oMLX request timed out ("@ + url@
            + "). The model may need more time — consider increasing api_timeout_secs."@,
        (OmlxError::Request { reason }).text() == "oMLX request failed: "@ + reason@,
        (OmlxError::Status { status, body }).text() == "oMLX returned HTTP "@ + status@ + ": "@
            + body@,
        (OmlxError::Body { reason }).text() == "Failed to read oMLX response body: "@ + reason@,
        (OmlxError::Parse { reason, body }).text() == "Failed to parse oMLX response: "@ + reason@
            + "\nBody: "@ + body@,
        OmlxError::NoChoices.text() == "oMLX returned no choices"@,
{
}

} // verus!
