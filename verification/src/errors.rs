//! What can go wrong when talking to the service.

use crate::text::join;
use vstd::prelude::*;

verus! {

/// The errors of the client. Failures of the transport and of the codecs
/// are carried as their text.
#[derive(Debug, Clone, PartialEq, Eq)]
pub enum PragmaError {
    /// The service answered 401.
    Unauthorized(String),
    /// The HTTP request failed.
    HttpError(String),
    /// A WebSocket operation failed.
    WebSocketError(String),
    /// The HTTP client could not be built.
    BuildingClient,
    /// JSON could not be parsed.
    JsonError(String),
    /// The service answered with an error status.
    ApiError(String),
    /// The API key cannot be sent as a header.
    InvalidHeader(String),
    /// A value could not be serialized.
    SerializationError(String),
    /// A channel failed.
    ChannelError(String),
}

impl PragmaError {
    /// The error in words.
    pub open spec fn text(self) -> Seq<char> {
        match self {
            PragmaError::Unauthorized(detail) => "Unauthorized: "@ + detail@,
            PragmaError::HttpError(detail) => "HTTP request failed: "@ + detail@,
            PragmaError::WebSocketError(detail) => "WebSocket error: "@ + detail@,
            PragmaError::BuildingClient => "Could not build Pragma client"@,
            PragmaError::JsonError(detail) => "JSON parsing failed: "@ + detail@,
            PragmaError::ApiError(detail) => "API error: "@ + detail@,
            PragmaError::InvalidHeader(detail) => "Invalid header: "@ + detail@,
            PragmaError::SerializationError(detail) => "Could not serialize: "@ + detail@,
            PragmaError::ChannelError(detail) => "Channel error: "@ + detail@,
        }
    }

    /// Returns the error in words.
    pub fn message(&self) -> (s: String)
        ensures
            s@ == self.text(),
    {
        match self {
            PragmaError::Unauthorized(detail) => join("Unauthorized: ", detail.as_str()),
            PragmaError::HttpError(detail) => join("HTTP request failed: ", detail.as_str()),
            PragmaError::WebSocketError(detail) => join("WebSocket error: ", detail.as_str()),
            PragmaError::BuildingClient => "Could not build Pragma client".to_owned(),
            PragmaError::JsonError(detail) => join("JSON parsing failed: ", detail.as_str()),
            PragmaError::ApiError(detail) => join("API error: ", detail.as_str()),
            PragmaError::InvalidHeader(detail) => join("Invalid header: ", detail.as_str()),
            PragmaError::SerializationError(detail) => join(
                "Could not serialize: ",
                detail.as_str(),
            ),
            PragmaError::ChannelError(detail) => join("Channel error: ", detail.as_str()),
        }
    }
}

/// Whether `code` is a status of success: 200 to 299.
pub open spec fn is_success(code: u16) -> bool {
    200 <= code <= 299
}

/// Says whether `code` is a status of success.
pub fn status_is_success(code: u16) -> (b: bool)
    ensures
        b == is_success(code),
{
    200 <= code && code <= 299
}

/// The body of a response, or `fallback` where the body could not be read.
pub open spec fn body_or(body: Option<String>, fallback: Seq<char>) -> Seq<char> {
    match body {
        Some(text) => text@,
        None => fallback,
    }
}

/// The detail of the error that stands for a status other than success
/// and other than 401.
pub open spec fn api_error_detail(status: Seq<char>, body: Option<String>) -> Seq<char> {
    "API returned status "@ + status + ": "@ + body_or(body, "Unknown error"@)
}

/// Decides what the status of a response means. `code` is the numeric
/// status, `status` the status as the transport prints it, and `body` the
/// body of the response where it could be read. A status of 401 is
/// `Unauthorized`, any other status outside 200 to 299 is `ApiError`, and
/// a status of success is no error.
pub fn check_status(code: u16, status: &str, body: Option<String>) -> (r: Result<
    (),
    PragmaError,
>)
    ensures
        match r {
            Ok(_) => is_success(code),
            Err(PragmaError::Unauthorized(detail)) => code == 401 && detail@ == body_or(
                body,
                "No additional details"@,
            ),
            Err(PragmaError::ApiError(detail)) => code != 401 && !is_success(code) && detail@
                == api_error_detail(status@, body),
            Err(_) => false,
        },
{
    if code == 401 {
        let detail = match body {
            Some(text) => text,
            None => "No additional details".to_owned(),
        };
        Err(PragmaError::Unauthorized(detail))
    } else if code < 200 || code > 299 {
        let mut detail = join("API returned status ", status);
        detail.append(": ");
        match body {
            Some(text) => detail.append(text.as_str()),
            None => detail.append("Unknown error"),
        }
        Err(PragmaError::ApiError(detail))
    } else {
        Ok(())
    }
}

} // verus!
