//! What an exchange with a server can fail with.

use vstd::prelude::*;

verus! {

/// What an exchange with a server failed with.
#[derive(Debug)]
pub enum OmlxError {
    /// No connection to the server at `url` could be made.
    Connect { url: String },
    /// The server at `url` did not answer in time.
    TimedOut { url: String },
    /// The request failed in another way.
    Request { reason: String },
    /// The server answered with a status that is no success.
    Status { status: String, body: String },
    /// The body of the answer could not be read.
    Body { reason: String },
    /// The body of the answer is not a response of the protocol.
    Parse { reason: String, body: String },
    /// The response holds no choice.
    NoChoices,
}

impl OmlxError {
    /// The error in words.
    pub open spec fn text(self) -> Seq<char> {
        match self {
            OmlxError::Connect { url } => "Could not connect to oMLX at "@ + url@
                + ". Is the server running?"@,
            OmlxError::TimedOut { url } => "oMLX request timed out ("@ + url@
                + "). The model may need more time — consider increasing api_timeout_secs."@,
            OmlxError::Request { reason } => "oMLX request failed: "@ + reason@,
            OmlxError::Status { status, body } => "oMLX returned HTTP "@ + status@ + ": "@ + body@,
            OmlxError::Body { reason } => "Failed to read oMLX response body: "@ + reason@,
            OmlxError::Parse { reason, body } => "Failed to parse oMLX response: "@ + reason@
                + "\nBody: "@ + body@,
            OmlxError::NoChoices => "oMLX returned no choices"@,
        }
    }

    /// Says the error in words.
    pub fn message(&self) -> (message: String)
        ensures
            message@ == self.text(),
    {
        match self {
            OmlxError::Connect { url } => {
                let mut message = "Could not connect to oMLX at ".to_string();
                message.append(url.as_str());
                message.append(". Is the server running?");
                message
            },
            OmlxError::TimedOut { url } => {
                let mut message = "oMLX request timed out (".to_string();
                message.append(url.as_str());
                message.append(
                    "). The model may need more time — consider increasing api_timeout_secs.",
                );
                message
            },
            OmlxError::Request { reason } => {
                let mut message = "oMLX request failed: ".to_string();
                message.append(reason.as_str());
                message
            },
            OmlxError::Status { status, body } => {
                let mut message = "oMLX returned HTTP ".to_string();
                message.append(status.as_str());
                message.append(": ");
                message.append(body.as_str());
                message
            },
            OmlxError::Body { reason } => {
                let mut message = "Failed to read oMLX response body: ".to_string();
                message.append(reason.as_str());
                message
            },
            OmlxError::Parse { reason, body } => {
                let mut message = "Failed to parse oMLX response: ".to_string();
                message.append(reason.as_str());
                message.append("\nBody: ");
                message.append(body.as_str());
                message
            },
            OmlxError::NoChoices => "oMLX returned no choices".to_string(),
        }
    }
}

} // verus!
