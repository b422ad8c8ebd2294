//! The record that carries the origin of a request from the moment the
//! payload is decoded to the moment the handler's result is encoded.

use vstd::prelude::*;
use crate::request::{LambdaRequest, RequestOrigin};
use crate::response::{is_payload, IntoResponse, LambdaResponse, Response};

verus! {

/// The origin of the request that a handler is working on. It is made when
/// the payload is decoded, kept while the handler runs, and used up when
/// the handler's result is made into a payload.
#[derive(Debug, Clone, Copy)]
pub struct TransformResponse {
    /// Where the request came from.
    pub request_origin: RequestOrigin,
}

/// The outcome of an invocation whose handler has finished with `result`:
/// the payload, in the shape of `origin`, of the response that the returned
/// value stands for, or the handler's own error.
pub open spec fn is_outcome<R: IntoResponse, E>(
    origin: RequestOrigin,
    result: Result<R, E>,
    outcome: Result<LambdaResponse, E>,
) -> bool {
    match result {
        Ok(value) => outcome matches Ok(payload) && exists|r: Response|
            value.stands_for(r) && #[trigger] is_payload(origin, r, payload),
        Err(e) => outcome matches Err(same) && same == e,
    }
}

impl TransformResponse {
    /// The record for a request of the given origin.
    pub fn new(request_origin: RequestOrigin) -> (record: TransformResponse)
        ensures
            record.request_origin == request_origin,
    {
        TransformResponse { request_origin }
    }

    /// The record for a decoded event.
    pub fn of(event: &LambdaRequest) -> (record: TransformResponse)
        ensures
            record.request_origin == event.origin(),
    {
        TransformResponse { request_origin: event.request_origin() }
    }

    /// Shapes a response for the origin on record.
    pub fn encode(self, value: Response) -> (payload: LambdaResponse)
        ensures
            is_payload(self.request_origin, value, payload),
    {
        LambdaResponse::from_response(&self.request_origin, value)
    }

    /// Finishes an invocation with the handler's result. What the handler
    /// returned is made into a response and shaped for the origin on
    /// record; an error of the handler is handed on as it is, and nothing
    /// is encoded.
    pub fn ready<R: IntoResponse, E>(self, result: Result<R, E>) -> (outcome: Result<
        LambdaResponse,
        E,
    >)
        ensures
            is_outcome(self.request_origin, result, outcome),
    {
        match result {
            Ok(value) => Ok(self.encode(value.into_response())),
            Err(e) => Err(e),
        }
    }

    /// One step of waiting for the handler: nothing while its result is
    /// pending, and the finished invocation once the result is there.
    pub fn poll<R: IntoResponse, E>(self, state: Option<Result<R, E>>) -> (outcome: Option<
        Result<LambdaResponse, E>,
    >)
        ensures
            match state {
                None => outcome is None,
                Some(result) => outcome matches Some(done) && is_outcome(
                    self.request_origin,
                    result,
                    done,
                ),
            },
    {
        match state {
            Some(result) => Some(self.ready(result)),
            None => None,
        }
    }
}

/// A payload has the shape of the origin that its request was decoded as,
/// whatever the response holds: the origin is handed from the decoder to
/// the encoder and never read off the response.
pub proof fn lemma_origin_round_trip(event: LambdaRequest, value: Response, payload: LambdaResponse)
    requires
        is_payload(event.origin(), value, payload),
    ensures
        payload.origin() == event.origin(),
{
}

/// The same of a finished invocation: where the handler succeeded, the
/// outcome is a payload in the shape of the origin on record; where it
/// failed, the outcome is its error.
pub proof fn lemma_outcome_keeps_origin<R: IntoResponse, E>(
    origin: RequestOrigin,
    result: Result<R, E>,
    outcome: Result<LambdaResponse, E>,
)
    requires
        is_outcome(origin, result, outcome),
    ensures
        result is Ok ==> (outcome matches Ok(payload) && payload.origin() == origin),
        result is Err ==> outcome is Err,
{
}

} // verus!
