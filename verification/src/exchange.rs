//! One exchange with a server, as a state machine: the caller does the sending,
//! reading and parsing, and this module says what comes next.

use crate::ai::AiResponse;
use crate::error::OmlxError;
use crate::response::{comes_to, translate_response};
use crate::wire::OmlxResponse;
use vstd::pervasive::unreached;
use vstd::prelude::*;

verus! {

/// What an exchange waits for.
#[derive(Debug)]
pub enum ExchangeState {
    /// That the request to `url` is sent and its status is known.
    Sending { url: String },
    /// The body of an answer whose status is no success.
    ReadingRefusal { status: String },
    /// The body of an answer whose status is a success.
    ReadingAnswer,
    /// That the body is parsed.
    Parsing { body: String },
}

/// What has happened.
#[derive(Debug)]
pub enum ExchangeEvent {
    /// The request could not be sent or was not answered: because no connection
    /// could be made, because time ran out, or as `reason` says.
    SendFailed { connect: bool, timeout: bool, reason: String },
    /// The server answered with a status.
    Answered { success: bool, status: String },
    /// The body was read.
    BodyRead { body: String },
    /// The body could not be read.
    BodyFailed { reason: String },
    /// The body is a response of the protocol.
    Parsed { response: OmlxResponse },
    /// The body is not a response of the protocol.
    ParseFailed { reason: String },
}

/// What is to be done next.
#[derive(Debug)]
pub enum ExchangeStep {
    /// Read the body of the answer as text.
    ReadBody { state: ExchangeState },
    /// Parse the body as a response of the protocol.
    ParseBody { body: String, state: ExchangeState },
    /// Nothing: the exchange is over.
    Finished { outcome: Result<AiResponse, OmlxError> },
}

impl ExchangeState {
    /// Whether an event is one that the state waits for.
    pub open spec fn awaits(self, event: ExchangeEvent) -> bool {
        match self {
            ExchangeState::Sending { .. } => event is SendFailed || event is Answered,
            ExchangeState::ReadingRefusal { .. } => event is BodyRead || event is BodyFailed,
            ExchangeState::ReadingAnswer => event is BodyRead || event is BodyFailed,
            ExchangeState::Parsing { .. } => event is Parsed || event is ParseFailed,
        }
    }

    /// How many events an exchange can still wait for, this one among them.
    pub open spec fn remaining(self) -> nat {
        match self {
            ExchangeState::Sending { .. } => 3,
            ExchangeState::ReadingRefusal { .. } => 1,
            ExchangeState::ReadingAnswer => 2,
            ExchangeState::Parsing { .. } => 1,
        }
    }

    /// Whether `step` is what an event leads to.
    pub open spec fn leads_to(self, event: ExchangeEvent, step: ExchangeStep) -> bool {
        match (self, event) {
            (
                ExchangeState::Sending { url },
                ExchangeEvent::SendFailed { connect, timeout, reason },
            ) => step == (ExchangeStep::Finished {
                outcome: Err(
                    if connect {
                        OmlxError::Connect { url }
                    } else if timeout {
                        OmlxError::TimedOut { url }
                    } else {
                        OmlxError::Request { reason }
                    },
                ),
            }),
            (
                ExchangeState::Sending { .. },
                ExchangeEvent::Answered { success, status },
            ) => step == (ExchangeStep::ReadBody {
                state: if success {
                    ExchangeState::ReadingAnswer
                } else {
                    ExchangeState::ReadingRefusal { status }
                },
            }),
            (
                ExchangeState::ReadingRefusal { status },
                ExchangeEvent::BodyRead { body },
            ) => step == (ExchangeStep::Finished {
                outcome: Err(OmlxError::Status { status, body }),
            }),
            (
                ExchangeState::ReadingRefusal { status },
                ExchangeEvent::BodyFailed { .. },
            ) => step matches ExchangeStep::Finished {
                outcome: Err(OmlxError::Status { status: said, body }),
            } && said == status && body@ == Seq::<char>::empty(),
            (
                ExchangeState::ReadingAnswer,
                ExchangeEvent::BodyRead { body },
            ) => step == (ExchangeStep::ParseBody { body, state: ExchangeState::Parsing { body } }),
            (
                ExchangeState::ReadingAnswer,
                ExchangeEvent::BodyFailed { reason },
            ) => step == (ExchangeStep::Finished { outcome: Err(OmlxError::Body { reason }) }),
            (
                ExchangeState::Parsing { .. },
                ExchangeEvent::Parsed { response },
            ) => step matches ExchangeStep::Finished { outcome } && comes_to(response@, outcome),
            (
                ExchangeState::Parsing { body },
                ExchangeEvent::ParseFailed { reason },
            ) => step == (ExchangeStep::Finished {
                outcome: Err(OmlxError::Parse { reason, body }),
            }),
            _ => false,
        }
    }

    /// Takes an event and says what is to be done next.
    pub fn step(self, event: ExchangeEvent) -> (step: ExchangeStep)
        requires
            self.awaits(event),
        ensures
            self.leads_to(event, step),
    {
        match (self, event) {
            (
                ExchangeState::Sending { url },
                ExchangeEvent::SendFailed { connect, timeout, reason },
            ) => {
                let error = if connect {
                    OmlxError::Connect { url }
                } else if timeout {
                    OmlxError::TimedOut { url }
                } else {
                    OmlxError::Request { reason }
                };
                ExchangeStep::Finished { outcome: Err(error) }
            },
            (ExchangeState::Sending { .. }, ExchangeEvent::Answered { success, status }) => {
                let state = if success {
                    ExchangeState::ReadingAnswer
                } else {
                    ExchangeState::ReadingRefusal { status }
                };
                ExchangeStep::ReadBody { state }
            },
            (
                ExchangeState::ReadingRefusal { status },
                ExchangeEvent::BodyRead { body },
            ) => ExchangeStep::Finished { outcome: Err(OmlxError::Status { status, body }) },
            (
                ExchangeState::ReadingRefusal { status },
                ExchangeEvent::BodyFailed { .. },
            ) => ExchangeStep::Finished {
                outcome: Err(OmlxError::Status { status, body: String::new() }),
            },
            (
                ExchangeState::ReadingAnswer,
                ExchangeEvent::BodyRead { body },
            ) => ExchangeStep::ParseBody {
                body: body.clone(),
                state: ExchangeState::Parsing { body },
            },
            (
                ExchangeState::ReadingAnswer,
                ExchangeEvent::BodyFailed { reason },
            ) => ExchangeStep::Finished { outcome: Err(OmlxError::Body { reason }) },
            (
                ExchangeState::Parsing { .. },
                ExchangeEvent::Parsed { response },
            ) => ExchangeStep::Finished { outcome: translate_response(response) },
            (
                ExchangeState::Parsing { body },
                ExchangeEvent::ParseFailed { reason },
            ) => ExchangeStep::Finished { outcome: Err(OmlxError::Parse { reason, body }) },
            _ => unreached(),
        }
    }
}

} // verus!
