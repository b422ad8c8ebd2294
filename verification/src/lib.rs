//! Adapts the three HTTP trigger events of AWS Lambda (API Gateway REST,
//! API Gateway HTTP and ALB target groups) to one request and response model.
//!
//! A payload is decoded into a [`LambdaRequest`], which remembers where it
//! came from, and normalised into a [`Request`]. What the handler returns is
//! made into a [`Response`] and shaped for that origin by
//! [`LambdaResponse::from_response`]. A [`TransformResponse`] carries the
//! origin from the one to the other.

pub mod body;
pub mod error;
pub mod headers;
pub mod request;
pub mod response;
pub mod strmap;
pub mod text;
pub mod transform;

pub use crate::body::Body;
pub use crate::error::{DecodeError, Error, NormalizeError};
pub use crate::request::{LambdaRequest, Request, RequestContext, RequestOrigin};
pub use crate::response::{IntoResponse, LambdaResponse, Response};
pub use crate::strmap::StrMap;
pub use crate::transform::TransformResponse;
