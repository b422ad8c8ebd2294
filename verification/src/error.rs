//! Why a payload could not be turned into a request.

use vstd::prelude::*;

verus! {

/// The payload matched none of the events.
#[derive(Debug, Clone, Copy, PartialEq, Eq)]
pub enum DecodeError {
    /// The payload is no JSON text.
    MalformedJson,
    /// The payload is JSON, and no event has its shape.
    NoMatchingSchema,
}

/// The event could not be made into a request.
#[derive(Debug, Clone, Copy, PartialEq, Eq)]
pub enum NormalizeError {
    /// The body is marked as base64 and is none.
    InvalidBase64Body,
    /// The parts of the event make no request: its address is no URI, or
    /// its headers do not fit into one header map.
    UnbuildableRequest,
}

/// Either of the two, for the functions that decode and normalise in one go.
#[derive(Debug, Clone, Copy, PartialEq, Eq)]
pub enum Error {
    /// The payload is no event.
    Decode(DecodeError),
    /// The event makes no request.
    Normalize(NormalizeError),
}

impl Error {
    /// A sentence for logs.
    pub fn message(&self) -> (text: &'static str)
        ensures
            text@ == match *self {
                Error::Decode(DecodeError::MalformedJson) => "payload is not valid JSON"@,
                Error::Decode(DecodeError::NoMatchingSchema) => "payload matches no known event"@,
                Error::Normalize(NormalizeError::InvalidBase64Body) => "body is not valid base64"@,
                Error::Normalize(NormalizeError::UnbuildableRequest) => "event makes no request"@,
            },
    {
        match self {
            Error::Decode(DecodeError::MalformedJson) => "payload is not valid JSON",
            Error::Decode(DecodeError::NoMatchingSchema) => "payload matches no known event",
            Error::Normalize(NormalizeError::InvalidBase64Body) => "body is not valid base64",
            Error::Normalize(NormalizeError::UnbuildableRequest) => "event makes no request",
        }
    }
}

} // verus!
