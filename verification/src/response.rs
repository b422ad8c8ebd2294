//! The response of a handler, and the payload that each origin expects.

use vstd::prelude::*;
use vstd::string::{StringExecFns, StringSliceAdditionalSpecFns};
use http::header::{HeaderMap, HeaderValue};
use serde_json::Value;
use crate::body::{wire_text, Body, BodyView};
use crate::headers::{
    append_value, clone_headers, empty_headers, header_entries, headers_without, is_header_value,
    is_removal, last_value_headers, lemma_known_names, lemma_removal_leaves_none, lookup_texts,
    single_valued, text_view, values_of, visible_text,
};
use crate::request::RequestOrigin;
use crate::strmap::slice_view;
use crate::text::{decimal, decimal_text, texts};

verus! {

/// A tree of JSON values, as `serde_json` holds it.
#[verifier::external_type_specification]
#[verifier::external_body]
pub struct ExValue(Value);

/// The response that a handler gives: a status code, headers and a body.
pub struct Response {
    /// The status code.
    pub status: u16,
    /// The headers, in the order in which they are to be sent.
    pub headers: HeaderMap<HeaderValue>,
    /// The body.
    pub body: Body,
}

/// The payload that the HTTP API of API Gateway expects.
pub struct GatewayV2Response {
    /// The status code.
    pub status_code: i64,
    /// The headers, to be written with one value for each name.
    pub headers: HeaderMap<HeaderValue>,
    /// The headers, to be written with all the values of each name.
    pub multi_value_headers: HeaderMap<HeaderValue>,
    /// The body as it goes on the wire: base64 where the mark is set.
    pub body: Option<String>,
    /// Whether the body is base64.
    pub is_base64_encoded: Option<bool>,
    /// The cookies to set, one for each `set-cookie` header of the response.
    pub cookies: Vec<String>,
}

/// The payload that the REST API of API Gateway expects.
pub struct GatewayV1Response {
    /// The status code.
    pub status_code: i64,
    /// The headers, to be written with one value for each name.
    pub headers: HeaderMap<HeaderValue>,
    /// The headers, to be written with all the values of each name.
    pub multi_value_headers: HeaderMap<HeaderValue>,
    /// The body as it goes on the wire: base64 where the mark is set.
    pub body: Option<String>,
    /// Whether the body is base64.
    pub is_base64_encoded: Option<bool>,
}

/// The payload that an application load balancer expects.
pub struct AlbResponse {
    /// The status code.
    pub status_code: i64,
    /// The status line: the code and its reason phrase.
    pub status_description: Option<String>,
    /// The headers, to be written with one value for each name.
    pub headers: HeaderMap<HeaderValue>,
    /// The headers, to be written with all the values of each name.
    pub multi_value_headers: HeaderMap<HeaderValue>,
    /// The body as it goes on the wire: base64 where the mark is set.
    pub body: Option<String>,
    /// Whether the body is base64.
    pub is_base64_encoded: bool,
}

/// A response in the shape of one of the three origins.
pub enum LambdaResponse {
    /// For the HTTP API of API Gateway
    ApiGatewayV2(GatewayV2Response),
    /// For the REST API of API Gateway
    ApiGatewayV1(GatewayV1Response),
    /// For an application load balancer
    Alb(AlbResponse),
}

/// The reason phrase that HTTP gives a status code, where it has one.
pub uninterp spec fn canonical_reason(code: u16) -> Option<Seq<char>>;

/// `StatusCode::canonical_reason` of the status code made by
/// `StatusCode::from_u16`: the standard reason phrase of the code. There is
/// none for a number that is no status code, nor for a code without a
/// registered phrase.
#[verifier::external_body]
fn reason_phrase(code: u16) -> (reason: Option<&'static str>)
    ensures
        slice_view(reason) == canonical_reason(code),
{
    http::StatusCode::from_u16(code).ok().and_then(|status| status.canonical_reason())
}

/// The compact JSON text of a value.
pub uninterp spec fn json_text_of(value: Value) -> Seq<char>;

/// `serde_json::to_string` of a JSON value: its compact text. The call
/// cannot fail on a value, whose keys are strings and which is written to
/// memory.
#[verifier::external_body]
fn json_text(value: &Value) -> (text: String)
    ensures
        text@ == json_text_of(*value),
{
    serde_json::to_string(value).unwrap_or_default()
}

/// The name under which a response carries its cookies.
pub open spec fn set_cookie() -> Seq<char> {
    "set-cookie"@
}

/// The name of the header that tells the kind of the body.
pub open spec fn content_type() -> Seq<char> {
    "content-type"@
}

/// The bytes of the content type of JSON.
pub open spec fn json_content_type() -> Seq<u8> {
    Seq::new("application/json"@.len(), |i: int| "application/json"@[i] as u8)
}

/// The status line of a load balancer response: the code in decimal, a
/// space, and the reason phrase where there is one.
pub open spec fn status_line(code: u16, reason: Option<Seq<char>>) -> Seq<char> {
    decimal(code as nat).push(' ') + match reason {
        Some(phrase) => phrase,
        None => Seq::empty(),
    }
}

/// The cookies that header values stand for: the text of each, and the
/// empty text for a value that is no visible ASCII.
pub open spec fn cookie_texts(values: Seq<Seq<u8>>) -> Seq<Seq<char>> {
    Seq::new(
        values.len(),
        |i: int|
            match visible_text(values[i]) {
                Some(text) => text,
                None => Seq::empty(),
            },
    )
}

/// The payload `r` is the response `value` in the shape that `origin`
/// expects.
pub open spec fn is_payload(origin: RequestOrigin, value: Response, r: LambdaResponse) -> bool {
    &&& r.origin() == origin
    &&& match r {
        LambdaResponse::ApiGatewayV2(out) => {
            &&& out.status_code == value.status
            &&& text_view(out.body) == wire_text(value.body@)
            &&& out.is_base64_encoded == Some(value.body@ is Binary)
            &&& texts(out.cookies@) == cookie_texts(
                values_of(header_entries(value.headers), set_cookie()),
            )
            &&& is_removal(
                header_entries(out.headers),
                header_entries(value.headers),
                set_cookie(),
            )
            &&& header_entries(out.multi_value_headers) == header_entries(out.headers)
        },
        LambdaResponse::ApiGatewayV1(out) => {
            &&& out.status_code == value.status
            &&& text_view(out.body) == wire_text(value.body@)
            &&& out.is_base64_encoded == Some(value.body@ is Binary)
            &&& header_entries(out.headers) == single_valued(header_entries(value.headers))
            &&& header_entries(out.multi_value_headers) == header_entries(value.headers)
        },
        LambdaResponse::Alb(out) => {
            &&& out.status_code == value.status
            &&& text_view(out.body) == wire_text(value.body@)
            &&& out.is_base64_encoded == (value.body@ is Binary)
            &&& header_entries(out.headers) == single_valued(header_entries(value.headers))
            &&& header_entries(out.multi_value_headers) == header_entries(value.headers)
            &&& text_view(out.status_description) == Some(
                status_line(value.status, canonical_reason(value.status)),
            )
        },
    }
}

impl LambdaResponse {
    /// The origin whose shape the response has.
    pub open spec fn origin(self) -> RequestOrigin {
        match self {
            LambdaResponse::ApiGatewayV2(_) => RequestOrigin::ApiGatewayV2,
            LambdaResponse::ApiGatewayV1(_) => RequestOrigin::ApiGatewayV1,
            LambdaResponse::Alb(_) => RequestOrigin::Alb,
        }
    }

    /// The origin whose shape the response has.
    pub fn request_origin(&self) -> (origin: RequestOrigin)
        ensures
            origin == self.origin(),
    {
        match self {
            LambdaResponse::ApiGatewayV2(_) => RequestOrigin::ApiGatewayV2,
            LambdaResponse::ApiGatewayV1(_) => RequestOrigin::ApiGatewayV1,
            LambdaResponse::Alb(_) => RequestOrigin::Alb,
        }
    }

    /// Shapes a response for the origin of its request.
    ///
    /// The body field is absent for an empty body, the text for a text
    /// body, and base64 with the mark set for a binary body. For the HTTP
    /// API the `set-cookie` headers become the list of cookies and leave
    /// the headers, and both header fields hold what remains. For the other
    /// two the multi-valued field holds the headers as they are, and the
    /// single-valued field the last value of each name. A load balancer
    /// also gets a status line.
    pub fn from_response(request_origin: &RequestOrigin, value: Response) -> (r: LambdaResponse)
        ensures
            is_payload(*request_origin, value, r),
    {
        let Response { status, headers, body } = value;
        let (body, is_base64_encoded) = body.into_payload();
        let status_code = status as i64;
        match request_origin {
            RequestOrigin::ApiGatewayV2 => {
                proof {
                    lemma_known_names();
                }
                let found = lookup_texts(&headers, "set-cookie");
                let cookies = texts_or_empty(&found);
                let headers = headers_without(headers, "set-cookie");
                proof {
                    assert(texts(cookies@) =~= cookie_texts(
                        values_of(header_entries(value.headers), set_cookie()),
                    ));
                }
                let copy = clone_headers(&headers);
                LambdaResponse::ApiGatewayV2(
                    GatewayV2Response {
                        status_code,
                        headers: copy,
                        multi_value_headers: headers,
                        body,
                        is_base64_encoded: Some(is_base64_encoded),
                        cookies,
                    },
                )
            },
            RequestOrigin::ApiGatewayV1 => {
                let single = last_value_headers(&headers);
                LambdaResponse::ApiGatewayV1(
                    GatewayV1Response {
                        status_code,
                        headers: single,
                        multi_value_headers: headers,
                        body,
                        is_base64_encoded: Some(is_base64_encoded),
                    },
                )
            },
            RequestOrigin::Alb => {
                let single = last_value_headers(&headers);
                let line = status_text(status);
                LambdaResponse::Alb(
                    AlbResponse {
                        status_code,
                        status_description: Some(line),
                        headers: single,
                        multi_value_headers: headers,
                        body,
                        is_base64_encoded,
                    },
                )
            },
        }
    }
}

/// A payload for the HTTP API carries its cookies in the list of cookies
/// alone: neither of its header fields holds a `set-cookie` header.
pub proof fn lemma_cookies_leave_headers(value: Response, payload: LambdaResponse)
    requires
        is_payload(RequestOrigin::ApiGatewayV2, value, payload),
    ensures
        payload matches LambdaResponse::ApiGatewayV2(out) && values_of(
            header_entries(out.headers),
            set_cookie(),
        ).len() == 0 && values_of(header_entries(out.multi_value_headers), set_cookie()).len() == 0
            && out.cookies@.len() == values_of(header_entries(value.headers), set_cookie()).len(),
{
    let out = payload->ApiGatewayV2_0;
    assert(texts(out.cookies@).len() == out.cookies@.len());
    lemma_removal_leaves_none(
        header_entries(out.headers),
        header_entries(value.headers),
        set_cookie(),
    );
}

/// A payload marks its body as base64 exactly where the body of the
/// response is binary, whatever the origin.
pub proof fn lemma_binary_is_marked(origin: RequestOrigin, value: Response, payload: LambdaResponse)
    requires
        is_payload(origin, value, payload),
    ensures
        (value.body@ is Binary) == match payload {
            LambdaResponse::ApiGatewayV2(out) => out.is_base64_encoded == Some(true),
            LambdaResponse::ApiGatewayV1(out) => out.is_base64_encoded == Some(true),
            LambdaResponse::Alb(out) => out.is_base64_encoded,
        },
        (value.body@ is Empty) == match payload {
            LambdaResponse::ApiGatewayV2(out) => out.body is None,
            LambdaResponse::ApiGatewayV1(out) => out.body is None,
            LambdaResponse::Alb(out) => out.body is None,
        },
{
}

/// Each text of the list, and the empty text where there is none.
fn texts_or_empty(found: &Vec<Option<String>>) -> (list: Vec<String>)
    ensures
        list@.len() == found@.len(),
        forall|i: int|
            0 <= i < list@.len() ==> (#[trigger] list@[i])@ == match text_view(found@[i]) {
                Some(text) => text,
                None => Seq::<char>::empty(),
            },
{
    let mut list: Vec<String> = Vec::new();
    let mut i: usize = 0;
    while i < found.len()
        invariant
            i <= found.len(),
            list@.len() == i,
            forall|j: int|
                0 <= j < i ==> (#[trigger] list@[j])@ == match text_view(found@[j]) {
                    Some(text) => text,
                    None => Seq::<char>::empty(),
                },
        decreases found.len() - i,
    {
        let text = match &found[i] {
            Some(t) => t.clone(),
            None => String::new(),
        };
        list.push(text);
        i = i + 1;
    }
    list
}

/// Writes the status line of a load balancer response: the code and the
/// reason phrase that HTTP gives it.
pub fn status_text(code: u16) -> (line: String)
    ensures
        line@ == status_line(code, canonical_reason(code)),
{
    status_line_text(code, reason_phrase(code))
}

/// Writes a status line: the code in decimal, a space, and the reason
/// phrase where there is one.
pub fn status_line_text(code: u16, reason: Option<&str>) -> (line: String)
    ensures
        line@ == status_line(code, slice_view(reason)),
{
    let mut line = decimal_text(code);
    proof {
        reveal_strlit(" ");
    }
    line.append(" ");
    assert(line@ =~= decimal(code as nat).push(' '));
    match reason {
        Some(phrase) => {
            line.append(phrase);
        },
        None => {
            assert(line@ + Seq::<char>::empty() =~= line@);
        },
    }
    line
}

/// What can be made into a response. A handler may return any such value,
/// and a type of its own becomes one by implementing this trait.
pub trait IntoResponse: Sized {
    /// Whether `r` is the response that the value stands for. A type that
    /// says nothing here may stand for any response.
    open spec fn stands_for(self, r: Response) -> bool {
        true
    }

    /// The response that the value stands for.
    fn into_response(self) -> (r: Response)
        ensures
            self.stands_for(r),
    ;
}

impl IntoResponse for Response {
    /// A response stands for itself.
    open spec fn stands_for(self, r: Response) -> bool {
        r == self
    }

    fn into_response(self) -> (r: Response) {
        self
    }
}

impl IntoResponse for String {
    /// Text is a response with status 200, no headers and the text as body.
    open spec fn stands_for(self, r: Response) -> bool {
        &&& r.status == 200
        &&& header_entries(r.headers).len() == 0
        &&& r.body@ == BodyView::Text(self@)
    }

    fn into_response(self) -> (r: Response) {
        Response { status: 200, headers: empty_headers(), body: Body::Text(self) }
    }
}

impl<'a> IntoResponse for &'a str {
    /// Text is a response with status 200, no headers and the text as body.
    open spec fn stands_for(self, r: Response) -> bool {
        &&& r.status == 200
        &&& header_entries(r.headers).len() == 0
        &&& r.body@ == BodyView::Text(self@)
    }

    fn into_response(self) -> (r: Response) {
        Response { status: 200, headers: empty_headers(), body: Body::Text(String::from_str(self)) }
    }
}

impl IntoResponse for Value {
    /// A JSON value is a response with status 200, the content type of JSON
    /// as its one header, and the compact text of the value as body.
    open spec fn stands_for(self, r: Response) -> bool {
        &&& r.status == 200
        &&& header_entries(r.headers) == seq![(content_type(), json_content_type())]
        &&& r.body@ == BodyView::Text(json_text_of(self))
    }

    fn into_response(self) -> (r: Response) {
        json_response(json_text(&self))
    }
}

/// The response that carries JSON text: status 200, the content type of
/// JSON as its one header, and the text as body.
pub fn json_response(text: String) -> (r: Response)
    ensures
        r.status == 200,
        header_entries(r.headers) == seq![(content_type(), json_content_type())],
        r.body@ == BodyView::Text(text@),
{
    let mut headers = empty_headers();
    let kind = "application/json";
    proof {
        lemma_known_names();
        reveal_strlit("application/json");
        assert(kind.is_ascii());
        vstd::string::is_ascii_spec_bytes(kind);
        assert(kind.spec_bytes() =~= json_content_type());
        assert(is_header_value(json_content_type()));
    }
    let added = append_value(&mut headers, "content-type", kind.as_bytes());
    assert(added);
    assert(header_entries(headers) =~= seq![(content_type(), json_content_type())]);
    Response { status: 200, headers, body: Body::Text(text) }
}

} // verus!
