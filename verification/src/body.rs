//! The body of a request or a response, and its base64 form.

use vstd::prelude::*;
use vstd::string::StringExecFns;
use crate::error::NormalizeError;

verus! {

/// A body: nothing, text, or bytes.
#[derive(Debug, Clone, PartialEq, Eq)]
pub enum Body {
    /// No body.
    Empty,
    /// A body of text.
    Text(String),
    /// A body of bytes; on the wire it travels as base64.
    Binary(Vec<u8>),
}

/// What a body holds.
pub enum BodyView {
    /// Nothing
    Empty,
    /// The characters of a text
    Text(Seq<char>),
    /// Bytes
    Binary(Seq<u8>),
}

impl View for Body {
    type V = BodyView;

    open spec fn view(&self) -> BodyView {
        match *self {
            Body::Empty => BodyView::Empty,
            Body::Text(text) => BodyView::Text(text@),
            Body::Binary(bytes) => BodyView::Binary(bytes@),
        }
    }
}

/// The bytes that standard base64 text stands for; `None` where the text is
/// no base64.
pub uninterp spec fn base64_decoding(text: Seq<char>) -> Option<Seq<u8>>;

/// The standard base64 text of some bytes.
pub uninterp spec fn base64_encoding(bytes: Seq<u8>) -> Seq<char>;

/// What optional bytes hold.
pub open spec fn bytes_view(bytes: Option<Vec<u8>>) -> Option<Seq<u8>> {
    match bytes {
        Some(b) => Some(b@),
        None => None,
    }
}

/// The body that a payload's text stands for: its bytes where the text is
/// marked as base64, the text itself where it is not. `None` where the text
/// is marked as base64 and is none.
pub open spec fn decoded_body(is_base64_encoded: bool, text: Seq<char>) -> Option<BodyView> {
    if is_base64_encoded {
        match base64_decoding(text) {
            Some(bytes) => Some(BodyView::Binary(bytes)),
            None => None,
        }
    } else {
        Some(BodyView::Text(text))
    }
}

/// The body of a payload whose body field may be absent.
pub open spec fn payload_body(is_base64_encoded: bool, text: Option<String>) -> Option<BodyView> {
    match text {
        Some(t) => decoded_body(is_base64_encoded, t@),
        None => Some(BodyView::Empty),
    }
}

/// `base64::decode`: the bytes of standard base64 text, or nothing where
/// the text is not base64.
#[verifier::external_body]
fn decode_base64(text: &str) -> (bytes: Option<Vec<u8>>)
    ensures
        bytes_view(bytes) == base64_decoding(text@),
{
    base64::decode(text).ok()
}

/// `base64::encode`: the standard base64 text of the bytes.
#[verifier::external_body]
fn encode_base64(bytes: &[u8]) -> (text: String)
    ensures
        text@ == base64_encoding(bytes@),
{
    base64::encode(bytes)
}

impl Body {
    /// Reads the body text of a payload: as base64 where the payload says
    /// so, as plain text where it does not.
    pub fn from_maybe_encoded(is_base64_encoded: bool, body: &str) -> (r: Result<Body, NormalizeError>)
        ensures
            match r {
                Ok(b) => decoded_body(is_base64_encoded, body@) == Some(b@),
                Err(e) => e == NormalizeError::InvalidBase64Body && decoded_body(
                    is_base64_encoded,
                    body@,
                ) is None,
            },
    {
        if is_base64_encoded {
            match decode_base64(body) {
                Some(bytes) => Ok(Body::Binary(bytes)),
                None => Err(NormalizeError::InvalidBase64Body),
            }
        } else {
            Ok(Body::Text(String::from_str(body)))
        }
    }

    /// Reads the body field of a payload, which may be absent.
    pub fn from_payload(is_base64_encoded: bool, body: &Option<String>) -> (r: Result<
        Body,
        NormalizeError,
    >)
        ensures
            match r {
                Ok(b) => payload_body(is_base64_encoded, *body) == Some(b@),
                Err(e) => e == NormalizeError::InvalidBase64Body && payload_body(
                    is_base64_encoded,
                    *body,
                ) is None,
            },
    {
        match body {
            Some(text) => Body::from_maybe_encoded(is_base64_encoded, text.as_str()),
            None => Ok(Body::Empty),
        }
    }

    /// The body field and the base64 mark of a response payload: no field
    /// for an empty body, the text for a text body, and the base64 text
    /// with the mark set for a binary body.
    pub fn into_payload(self) -> (r: (Option<String>, bool))
        ensures
            r.1 == (self@ is Binary),
            crate::headers::text_view(r.0) == wire_text(self@),
    {
        match self {
            Body::Empty => (None, false),
            Body::Text(text) => (Some(text), false),
            Body::Binary(bytes) => (Some(encode_base64(bytes.as_slice())), true),
        }
    }
}

/// The text of a body on the wire.
pub open spec fn wire_text(body: BodyView) -> Option<Seq<char>> {
    match body {
        BodyView::Empty => None,
        BodyView::Text(text) => Some(text),
        BodyView::Binary(bytes) => Some(base64_encoding(bytes)),
    }
}

} // verus!
