//! The three events, where each came from, and the request made of them.
//!
//! A payload is tried against the events in a fixed order: the REST API of
//! API Gateway, then its HTTP API, then the load balancer. The first event
//! that the payload fits decides the origin of the request.

use vstd::prelude::*;
use vstd::string::{StringExecFns, StringSliceAdditionalSpecFns};
use vstd::multiset::Multiset;
use vstd::utf8::encode_utf8;
use aws_lambda_events::event::alb::{AlbTargetGroupRequest, AlbTargetGroupRequestContext};
use aws_lambda_events::event::apigw::{
    ApiGatewayProxyRequest, ApiGatewayProxyRequestContext, ApiGatewayV2httpRequest,
    ApiGatewayV2httpRequestContext,
};
use http::header::{HeaderMap, HeaderValue};
use http::Method;
use serde_json::Value;
use crate::body::{payload_body, Body};
use crate::error::{DecodeError, Error, NormalizeError};
use crate::headers::{
    append_value, entry_list, first_text, header_count, header_entries, is_header_name,
    is_header_value, lemma_known_names, lemma_with_value_len, lookup_text, pairs_view, text_view,
    with_value, with_values, HeaderSeq, MAX_HEADERS,
};
use crate::strmap::{keys_distinct, multi_view, query_text, single_view, StrMap, StrMapView};
use crate::text::{join, joined, texts};

verus! {

/// Where a request came from. It is set when the payload is decoded and
/// decides the shape of the response.
#[derive(Debug, Clone, Copy, PartialEq, Eq, Structural)]
pub enum RequestOrigin {
    /// API Gateway, REST API (proxy integration)
    ApiGatewayV1,
    /// API Gateway, HTTP API
    ApiGatewayV2,
    /// Application load balancer
    Alb,
}

/// The request method type of the `http` crate, carried through unread.
#[verifier::external_type_specification]
#[verifier::external_body]
pub struct ExMethod(Method);

/// The request context of the HTTP API, carried through unread.
#[verifier::external_type_specification]
#[verifier::external_body]
pub struct ExGatewayV2Context(ApiGatewayV2httpRequestContext);

/// The request context of a load balancer, carried through unread.
#[verifier::external_type_specification]
#[verifier::external_body]
pub struct ExAlbContext(AlbTargetGroupRequestContext);

/// The request context of the REST API, carried through unread. It is
/// wrapped because the type of the authorizer's claims is a parameter of
/// the context.
#[verifier::external_body]
#[derive(Debug)]
pub struct GatewayV1Context(pub ApiGatewayProxyRequestContext);

/// The request context of an event, as its origin sent it.
#[derive(Debug)]
pub enum RequestContext {
    /// API Gateway, REST API
    ApiGatewayV1(GatewayV1Context),
    /// API Gateway, HTTP API
    ApiGatewayV2(ApiGatewayV2httpRequestContext),
    /// Application load balancer
    Alb(AlbTargetGroupRequestContext),
}

/// An event of the REST API of API Gateway.
#[derive(Debug)]
pub struct GatewayV1Event {
    pub http_method: Method,
    pub path: Option<String>,
    pub headers: HeaderMap<HeaderValue>,
    pub multi_value_headers: HeaderMap<HeaderValue>,
    pub query_string_parameters: Vec<(String, String)>,
    pub multi_value_query_string_parameters: Vec<(String, Vec<String>)>,
    pub path_parameters: Vec<(String, String)>,
    pub stage_variables: Vec<(String, String)>,
    pub request_context: GatewayV1Context,
    pub body: Option<String>,
    pub is_base64_encoded: Option<bool>,
}

/// An event of the HTTP API of API Gateway. The method and the domain name
/// are those of its request context.
#[derive(Debug)]
pub struct GatewayV2Event {
    pub http_method: Method,
    pub domain_name: Option<String>,
    pub raw_path: Option<String>,
    pub raw_query_string: Option<String>,
    pub cookies: Option<Vec<String>>,
    pub headers: HeaderMap<HeaderValue>,
    pub query_string_parameters: Vec<(String, String)>,
    pub path_parameters: Vec<(String, String)>,
    pub stage_variables: Vec<(String, String)>,
    pub request_context: ApiGatewayV2httpRequestContext,
    pub body: Option<String>,
    pub is_base64_encoded: bool,
}

/// An event of an application load balancer.
#[derive(Debug)]
pub struct AlbEvent {
    pub http_method: Method,
    pub path: Option<String>,
    pub headers: HeaderMap<HeaderValue>,
    pub multi_value_headers: HeaderMap<HeaderValue>,
    pub query_string_parameters: Vec<(String, String)>,
    pub multi_value_query_string_parameters: Vec<(String, Vec<String>)>,
    pub request_context: AlbTargetGroupRequestContext,
    pub body: Option<String>,
    pub is_base64_encoded: bool,
}

/// A decoded event. The order of the variants is the order in which a
/// payload is tried against them.
#[derive(Debug)]
pub enum LambdaRequest {
    /// From the REST API of API Gateway
    ApiGatewayV1(GatewayV1Event),
    /// From the HTTP API of API Gateway
    ApiGatewayV2(GatewayV2Event),
    /// From an application load balancer
    Alb(AlbEvent),
}

/// The request that a handler gets, whatever its origin.
#[derive(Debug)]
pub struct Request {
    /// The method.
    pub method: Method,
    /// The address, as `scheme://host/path?query`.
    pub uri: String,
    /// The headers.
    pub headers: HeaderMap<HeaderValue>,
    /// The body.
    pub body: Body,
    /// The parameters of the query string.
    pub query_string_parameters: StrMap,
    /// The parameters of the path; a load balancer sends none.
    pub path_parameters: Option<StrMap>,
    /// The stage variables; a load balancer sends none.
    pub stage_variables: Option<StrMap>,
    /// The request context of the event.
    pub request_context: RequestContext,
}

/// What the parse of an event of the REST API holds. The lists of pairs of
/// an event come out of hash maps, so only what they hold is named, not
/// their order.
pub struct GatewayV1Fields {
    pub http_method: Method,
    pub path: Option<Seq<char>>,
    pub headers: HeaderSeq,
    pub multi_value_headers: HeaderSeq,
    pub query_string_parameters: Multiset<(Seq<char>, Seq<Seq<char>>)>,
    pub multi_value_query_string_parameters: Multiset<(Seq<char>, Seq<Seq<char>>)>,
    pub path_parameters: Multiset<(Seq<char>, Seq<Seq<char>>)>,
    pub stage_variables: Multiset<(Seq<char>, Seq<Seq<char>>)>,
    pub request_context: GatewayV1Context,
    pub body: Option<Seq<char>>,
    pub is_base64_encoded: Option<bool>,
}

/// What the parse of an event of the HTTP API holds.
pub struct GatewayV2Fields {
    pub http_method: Method,
    pub domain_name: Option<Seq<char>>,
    pub raw_path: Option<Seq<char>>,
    pub raw_query_string: Option<Seq<char>>,
    pub cookies: Option<Seq<Seq<char>>>,
    pub headers: HeaderSeq,
    pub query_string_parameters: Multiset<(Seq<char>, Seq<Seq<char>>)>,
    pub path_parameters: Multiset<(Seq<char>, Seq<Seq<char>>)>,
    pub stage_variables: Multiset<(Seq<char>, Seq<Seq<char>>)>,
    pub request_context: ApiGatewayV2httpRequestContext,
    pub body: Option<Seq<char>>,
    pub is_base64_encoded: bool,
}

/// What the parse of an event of a load balancer holds.
pub struct AlbFields {
    pub http_method: Method,
    pub path: Option<Seq<char>>,
    pub headers: HeaderSeq,
    pub multi_value_headers: HeaderSeq,
    pub query_string_parameters: Multiset<(Seq<char>, Seq<Seq<char>>)>,
    pub multi_value_query_string_parameters: Multiset<(Seq<char>, Seq<Seq<char>>)>,
    pub request_context: AlbTargetGroupRequestContext,
    pub body: Option<Seq<char>>,
    pub is_base64_encoded: bool,
}

/// What an optional list of strings holds.
pub open spec fn texts_view(list: Option<Vec<String>>) -> Option<Seq<Seq<char>>> {
    match list {
        Some(l) => Some(texts(l@)),
        None => None,
    }
}

impl GatewayV1Event {
    /// What the event holds.
    pub open spec fn fields(self) -> GatewayV1Fields {
        GatewayV1Fields {
            http_method: self.http_method,
            path: text_view(self.path),
            headers: header_entries(self.headers),
            multi_value_headers: header_entries(self.multi_value_headers),
            query_string_parameters: single_view(self.query_string_parameters@).to_multiset(),
            multi_value_query_string_parameters: multi_view(
                self.multi_value_query_string_parameters@,
            ).to_multiset(),
            path_parameters: single_view(self.path_parameters@).to_multiset(),
            stage_variables: single_view(self.stage_variables@).to_multiset(),
            request_context: self.request_context,
            body: text_view(self.body),
            is_base64_encoded: self.is_base64_encoded,
        }
    }

    /// None of the event's lists of pairs holds a key twice.
    pub open spec fn keys_distinct(self) -> bool {
        &&& keys_distinct(single_view(self.query_string_parameters@))
        &&& keys_distinct(multi_view(self.multi_value_query_string_parameters@))
        &&& keys_distinct(single_view(self.path_parameters@))
        &&& keys_distinct(single_view(self.stage_variables@))
    }
}

impl GatewayV2Event {
    /// What the event holds.
    pub open spec fn fields(self) -> GatewayV2Fields {
        GatewayV2Fields {
            http_method: self.http_method,
            domain_name: text_view(self.domain_name),
            raw_path: text_view(self.raw_path),
            raw_query_string: text_view(self.raw_query_string),
            cookies: texts_view(self.cookies),
            headers: header_entries(self.headers),
            query_string_parameters: single_view(self.query_string_parameters@).to_multiset(),
            path_parameters: single_view(self.path_parameters@).to_multiset(),
            stage_variables: single_view(self.stage_variables@).to_multiset(),
            request_context: self.request_context,
            body: text_view(self.body),
            is_base64_encoded: self.is_base64_encoded,
        }
    }

    /// None of the event's lists of pairs holds a key twice.
    pub open spec fn keys_distinct(self) -> bool {
        &&& keys_distinct(single_view(self.query_string_parameters@))
        &&& keys_distinct(single_view(self.path_parameters@))
        &&& keys_distinct(single_view(self.stage_variables@))
    }
}

impl AlbEvent {
    /// What the event holds.
    pub open spec fn fields(self) -> AlbFields {
        AlbFields {
            http_method: self.http_method,
            path: text_view(self.path),
            headers: header_entries(self.headers),
            multi_value_headers: header_entries(self.multi_value_headers),
            query_string_parameters: single_view(self.query_string_parameters@).to_multiset(),
            multi_value_query_string_parameters: multi_view(
                self.multi_value_query_string_parameters@,
            ).to_multiset(),
            request_context: self.request_context,
            body: text_view(self.body),
            is_base64_encoded: self.is_base64_encoded,
        }
    }

    /// None of the event's lists of pairs holds a key twice.
    pub open spec fn keys_distinct(self) -> bool {
        &&& keys_distinct(single_view(self.query_string_parameters@))
        &&& keys_distinct(multi_view(self.multi_value_query_string_parameters@))
    }
}

/// The JSON value that `serde_json` reads the bytes as; none where the
/// bytes are no JSON.
pub uninterp spec fn json_value(bytes: Seq<u8>) -> Option<Value>;

/// Whether a JSON value is an object.
pub uninterp spec fn is_object(value: Value) -> bool;

/// The number of members of the object that a JSON value holds under
/// `field`; 0 where it holds no object there.
pub uninterp spec fn member_count(value: Value, field: Seq<char>) -> nat;

/// What a JSON value holds as an event of the REST API; none where it has
/// not the shape of one.
pub uninterp spec fn gateway_v1_fields(value: Value) -> Option<GatewayV1Fields>;

/// What a JSON value holds as an event of the HTTP API; none where it has
/// not the shape of one.
pub uninterp spec fn gateway_v2_fields(value: Value) -> Option<GatewayV2Fields>;

/// What a JSON value holds as an event of a load balancer; none where it
/// has not the shape of one.
pub uninterp spec fn alb_fields(value: Value) -> Option<AlbFields>;

/// Whether the `http` crate reads the text as a URI.
pub uninterp spec fn is_uri(text: Seq<char>) -> bool;

/// The header fields of a payload are small enough for a header map.
pub open spec fn headers_fit(value: Value) -> bool {
    &&& member_count(value, "headers"@) < MAX_HEADERS
    &&& member_count(value, "multiValueHeaders"@) < MAX_HEADERS
}

/// `serde_json::from_slice` to a `Value`: the JSON value of the bytes.
#[verifier::external_body]
fn parse_json(bytes: &[u8]) -> (value: Option<Value>)
    ensures
        value == json_value(bytes@),
{
    serde_json::from_slice(bytes).ok()
}

/// `Value::is_object`: whether the value is an object.
#[verifier::external_body]
fn holds_object(value: &Value) -> (yes: bool)
    ensures
        yes == is_object(*value),
{
    value.is_object()
}

/// `Value::get`, `Value::as_object` and `Map::len`: how many members the
/// object under `field` has.
#[verifier::external_body]
fn count_members(value: &Value, field: &str) -> (n: usize)
    ensures
        n == member_count(*value, field@),
{
    value.get(field).and_then(|v| v.as_object()).map_or(0, |o| o.len())
}

/// `serde_json::from_value` to an `ApiGatewayProxyRequest`, whose fields
/// are moved into the event. An object is read field by field, and its
/// header maps are filled name by name, which a map of fewer than
/// `MAX_HEADERS` names always takes. The lists of pairs come out of hash
/// maps: no key occurs twice in one.
#[verifier::external_body]
fn read_gateway_v1(value: &Value) -> (event: Option<GatewayV1Event>)
    requires
        is_object(*value),
        headers_fit(*value),
    ensures
        match event {
            Some(e) => gateway_v1_fields(*value) == Some(e.fields()) && e.keys_distinct(),
            None => gateway_v1_fields(*value) is None,
        },
{
    let e: ApiGatewayProxyRequest = serde_json::from_value(value.clone()).ok()?;
    Some(GatewayV1Event {
        http_method: e.http_method,
        path: e.path,
        headers: e.headers,
        multi_value_headers: e.multi_value_headers,
        query_string_parameters: e.query_string_parameters.into_iter().collect(),
        multi_value_query_string_parameters: e.multi_value_query_string_parameters.into_iter().collect(),
        path_parameters: e.path_parameters.into_iter().collect(),
        stage_variables: e.stage_variables.into_iter().collect(),
        request_context: GatewayV1Context(e.request_context),
        body: e.body,
        is_base64_encoded: e.is_base64_encoded,
    })
}

/// `serde_json::from_value` to an `ApiGatewayV2httpRequest`, whose fields
/// are moved into the event.
#[verifier::external_body]
fn read_gateway_v2(value: &Value) -> (event: Option<GatewayV2Event>)
    requires
        is_object(*value),
        headers_fit(*value),
    ensures
        match event {
            Some(e) => gateway_v2_fields(*value) == Some(e.fields()) && e.keys_distinct(),
            None => gateway_v2_fields(*value) is None,
        },
{
    let e: ApiGatewayV2httpRequest = serde_json::from_value(value.clone()).ok()?;
    Some(GatewayV2Event {
        http_method: e.request_context.http.method.clone(),
        domain_name: e.request_context.domain_name.clone(),
        raw_path: e.raw_path,
        raw_query_string: e.raw_query_string,
        cookies: e.cookies,
        headers: e.headers,
        query_string_parameters: e.query_string_parameters.into_iter().collect(),
        path_parameters: e.path_parameters.into_iter().collect(),
        stage_variables: e.stage_variables.into_iter().collect(),
        request_context: e.request_context,
        body: e.body,
        is_base64_encoded: e.is_base64_encoded,
    })
}

/// `serde_json::from_value` to an `AlbTargetGroupRequest`, whose fields are
/// moved into the event.
#[verifier::external_body]
fn read_alb(value: &Value) -> (event: Option<AlbEvent>)
    requires
        is_object(*value),
        headers_fit(*value),
    ensures
        match event {
            Some(e) => alb_fields(*value) == Some(e.fields()) && e.keys_distinct(),
            None => alb_fields(*value) is None,
        },
{
    let e: AlbTargetGroupRequest = serde_json::from_value(value.clone()).ok()?;
    Some(AlbEvent {
        http_method: e.http_method,
        path: e.path,
        headers: e.headers,
        multi_value_headers: e.multi_value_headers,
        query_string_parameters: e.query_string_parameters.into_iter().collect(),
        multi_value_query_string_parameters: e.multi_value_query_string_parameters.into_iter().collect(),
        request_context: e.request_context,
        body: e.body,
        is_base64_encoded: e.is_base64_encoded,
    })
}

/// `str::parse` to an `http::Uri`: whether the text is a URI.
#[verifier::external_body]
fn parses_as_uri(text: &str) -> (ok: bool)
    ensures
        ok == is_uri(text@),
{
    text.parse::<http::Uri>().is_ok()
}

/// The text of an optional field, empty where the field is absent.
pub open spec fn text_or_empty(text: Option<String>) -> Seq<char> {
    match text {
        Some(t) => t@,
        None => Seq::empty(),
    }
}

/// The scheme of a request: what `x-forwarded-proto` says, else `https`.
pub open spec fn scheme_of(headers: HeaderSeq) -> Seq<char> {
    match first_text(headers, "x-forwarded-proto"@) {
        Some(scheme) => scheme,
        None => "https"@,
    }
}

/// The host of a request: what `host` says, else the domain name of the
/// event where it has one, else `localhost`.
pub open spec fn host_of(headers: HeaderSeq, domain_name: Option<String>) -> Seq<char> {
    match first_text(headers, "host"@) {
        Some(host) => host,
        None => match domain_name {
            Some(name) => name@,
            None => "localhost"@,
        },
    }
}

/// The address of a request: `scheme://host`, the path, and the query
/// behind a question mark where there is one.
pub open spec fn uri_text(
    headers: HeaderSeq,
    domain_name: Option<String>,
    path: Option<String>,
    query: Option<Seq<char>>,
) -> Seq<char> {
    scheme_of(headers) + "://"@ + host_of(headers, domain_name) + text_or_empty(path) + match query {
        Some(q) => seq!['?'] + q,
        None => Seq::empty(),
    }
}

/// The address of a request of the REST API or of a load balancer: its
/// query is made of the query string parameters of the request.
pub open spec fn mapped_uri(
    headers: HeaderSeq,
    path: Option<String>,
    single: Seq<(String, String)>,
    multi: Seq<(String, Vec<String>)>,
) -> Seq<char> {
    uri_text(headers, None, path, query_text(query_view(single, multi)))
}

/// The query string parameters of an event that has them in two forms: the
/// multi-valued ones where there are any, else the single-valued ones.
pub open spec fn query_view(
    single: Seq<(String, String)>,
    multi: Seq<(String, Vec<String>)>,
) -> StrMapView {
    if multi.len() == 0 {
        single_view(single)
    } else {
        multi_view(multi)
    }
}

/// The headers of a request of the HTTP API: those of the event, and the
/// cookies of the event joined by `;` as one more `cookie` header where
/// they make a header value.
pub open spec fn cookie_headers(headers: HeaderSeq, cookies: Option<Vec<String>>) -> HeaderSeq {
    match cookies {
        Some(list) => {
            let value = encode_utf8(joined(texts(list@), ";"@));
            if is_header_value(value) {
                with_value(headers, "cookie"@, value)
            } else {
                headers
            }
        },
        None => headers,
    }
}

/// What a list of strings holds, where there is one.
pub open spec fn strmap_view(map: Option<StrMap>) -> Option<StrMapView> {
    match map {
        Some(m) => Some(m@),
        None => None,
    }
}

/// Why an event of the REST API makes no request, if it makes none.
pub open spec fn gateway_v1_error(ag: GatewayV1Event) -> Option<NormalizeError> {
    let base64 = ag.is_base64_encoded == Some(true);
    if payload_body(base64, ag.body) is None {
        Some(NormalizeError::InvalidBase64Body)
    } else if !is_uri(
        mapped_uri(
            header_entries(ag.headers),
            ag.path,
            ag.query_string_parameters@,
            ag.multi_value_query_string_parameters@,
        ),
    ) {
        Some(NormalizeError::UnbuildableRequest)
    } else if header_entries(ag.multi_value_headers).len() + header_entries(ag.headers).len()
        > MAX_HEADERS {
        Some(NormalizeError::UnbuildableRequest)
    } else {
        None
    }
}

/// The request of an event of the REST API.
pub open spec fn is_gateway_v1_request(ag: GatewayV1Event, req: Request) -> bool {
    &&& req.method == ag.http_method
    &&& req.uri@ == mapped_uri(
        header_entries(ag.headers),
        ag.path,
        ag.query_string_parameters@,
        ag.multi_value_query_string_parameters@,
    )
    &&& header_entries(req.headers) == with_values(
        header_entries(ag.multi_value_headers),
        header_entries(ag.headers),
    )
    &&& Some(req.body@) == payload_body(ag.is_base64_encoded == Some(true), ag.body)
    &&& req.query_string_parameters@ == query_view(
        ag.query_string_parameters@,
        ag.multi_value_query_string_parameters@,
    )
    &&& strmap_view(req.path_parameters) == Some(single_view(ag.path_parameters@))
    &&& strmap_view(req.stage_variables) == Some(single_view(ag.stage_variables@))
    &&& req.request_context == RequestContext::ApiGatewayV1(ag.request_context)
}

/// Why an event of the HTTP API makes no request, if it makes none.
pub open spec fn gateway_v2_error(ag: GatewayV2Event) -> Option<NormalizeError> {
    if payload_body(ag.is_base64_encoded, ag.body) is None {
        Some(NormalizeError::InvalidBase64Body)
    } else if !is_uri(
        uri_text(
            header_entries(ag.headers),
            ag.domain_name,
            ag.raw_path,
            text_view(ag.raw_query_string),
        ),
    ) {
        Some(NormalizeError::UnbuildableRequest)
    } else if ag.cookies is Some && header_entries(ag.headers).len() >= MAX_HEADERS {
        Some(NormalizeError::UnbuildableRequest)
    } else {
        None
    }
}

/// The request of an event of the HTTP API.
pub open spec fn is_gateway_v2_request(ag: GatewayV2Event, req: Request) -> bool {
    &&& req.method == ag.http_method
    &&& req.uri@ == uri_text(
        header_entries(ag.headers),
        ag.domain_name,
        ag.raw_path,
        text_view(ag.raw_query_string),
    )
    &&& header_entries(req.headers) == cookie_headers(header_entries(ag.headers), ag.cookies)
    &&& Some(req.body@) == payload_body(ag.is_base64_encoded, ag.body)
    &&& req.query_string_parameters@ == single_view(ag.query_string_parameters@)
    &&& strmap_view(req.path_parameters) == Some(single_view(ag.path_parameters@))
    &&& strmap_view(req.stage_variables) == Some(single_view(ag.stage_variables@))
    &&& req.request_context == RequestContext::ApiGatewayV2(ag.request_context)
}

/// Why an event of a load balancer makes no request, if it makes none.
pub open spec fn alb_error(alb: AlbEvent) -> Option<NormalizeError> {
    if payload_body(alb.is_base64_encoded, alb.body) is None {
        Some(NormalizeError::InvalidBase64Body)
    } else if !is_uri(
        mapped_uri(
            header_entries(alb.headers),
            alb.path,
            alb.query_string_parameters@,
            alb.multi_value_query_string_parameters@,
        ),
    ) {
        Some(NormalizeError::UnbuildableRequest)
    } else if header_entries(alb.multi_value_headers).len() + header_entries(alb.headers).len()
        > MAX_HEADERS {
        Some(NormalizeError::UnbuildableRequest)
    } else {
        None
    }
}

/// The request of an event of a load balancer.
pub open spec fn is_alb_request(alb: AlbEvent, req: Request) -> bool {
    &&& req.method == alb.http_method
    &&& req.uri@ == mapped_uri(
        header_entries(alb.headers),
        alb.path,
        alb.query_string_parameters@,
        alb.multi_value_query_string_parameters@,
    )
    &&& header_entries(req.headers) == with_values(
        header_entries(alb.multi_value_headers),
        header_entries(alb.headers),
    )
    &&& Some(req.body@) == payload_body(alb.is_base64_encoded, alb.body)
    &&& req.query_string_parameters@ == query_view(
        alb.query_string_parameters@,
        alb.multi_value_query_string_parameters@,
    )
    &&& req.path_parameters is None
    &&& req.stage_variables is None
    &&& req.request_context == RequestContext::Alb(alb.request_context)
}

/// Writes the address of a request.
fn build_uri(
    headers: &HeaderMap<HeaderValue>,
    domain_name: &Option<String>,
    path: &Option<String>,
    query: &Option<String>,
) -> (uri: String)
    ensures
        uri@ == uri_text(header_entries(*headers), *domain_name, *path, text_view(*query)),
{
    proof {
        lemma_known_names();
    }
    let mut uri = match lookup_text(headers, "x-forwarded-proto") {
        Some(scheme) => scheme,
        None => String::from_str("https"),
    };
    uri.append("://");
    match lookup_text(headers, "host") {
        Some(host) => {
            uri.append(host.as_str());
        },
        None => match domain_name {
            Some(name) => {
                uri.append(name.as_str());
            },
            None => {
                uri.append("localhost");
            },
        },
    }
    match path {
        Some(p) => {
            uri.append(p.as_str());
        },
        None => {},
    }
    let ghost front = uri@;
    assert(front =~= scheme_of(header_entries(*headers)) + "://"@ + host_of(
        header_entries(*headers),
        *domain_name,
    ) + text_or_empty(*path));
    match query {
        Some(q) => {
            proof {
                reveal_strlit("?");
            }
            uri.append("?");
            uri.append(q.as_str());
            assert(uri@ =~= front + (seq!['?'] + q@));
        },
        None => {
            assert(uri@ =~= front + Seq::<char>::empty());
        },
    }
    uri
}

/// Adds the headers of `single` to `multi`, each behind the values that its
/// name already has there. Two maps that together hold more than
/// `MAX_HEADERS` values are not merged.
fn merge_headers(multi: HeaderMap<HeaderValue>, single: &HeaderMap<HeaderValue>) -> (merged: Option<
    HeaderMap<HeaderValue>,
>)
    ensures
        merged is Some <==> header_entries(multi).len() + header_entries(*single).len()
            <= MAX_HEADERS,
        merged matches Some(m) ==> header_entries(m) == with_values(
            header_entries(multi),
            header_entries(*single),
        ),
{
    let have = header_count(&multi);
    let more = header_count(single);
    if have > MAX_HEADERS || more > MAX_HEADERS - have {
        return None;
    }
    let pairs = entry_list(single);
    let mut merged = multi;
    let ghost extra = header_entries(*single);
    let mut i: usize = 0;
    assert(extra.take(0) =~= Seq::<(Seq<char>, Seq<u8>)>::empty());
    while i < pairs.len()
        invariant
            i <= pairs.len(),
            pairs_view(pairs@) == extra,
            forall|j: int|
                0 <= j < pairs@.len() ==> is_header_name((#[trigger] pairs@[j]).0@)
                    && is_header_value(pairs@[j].1@),
            header_entries(multi).len() + extra.len() <= MAX_HEADERS,
            header_entries(merged) == with_values(header_entries(multi), extra.take(i as int)),
            header_entries(merged).len() == header_entries(multi).len() + i,
        decreases pairs.len() - i,
    {
        let ghost before = header_entries(merged);
        let ghost name = pairs@[i as int].0@;
        let ghost value = pairs@[i as int].1@;
        proof {
            assert(extra[i as int] == (name, value));
            assert(extra.take(i + 1).drop_last() =~= extra.take(i as int));
            assert(extra.take(i + 1).last() == (name, value));
            lemma_with_value_len(before, name, value);
        }
        let added = append_value(&mut merged, pairs[i].0.as_str(), pairs[i].1.as_slice());
        assert(added);
        i = i + 1;
    }
    assert(extra.take(pairs.len() as int) =~= extra);
    Some(merged)
}

/// Makes the request of an event of the HTTP API.
///
/// The address is put together from the headers, the domain name, the raw
/// path and the raw query string. The cookies are joined by `;` into one
/// `cookie` header. The body is read as base64 where the event says so.
pub fn into_api_gateway_v2_request(ag: GatewayV2Event) -> (r: Result<Request, NormalizeError>)
    ensures
        match r {
            Ok(req) => gateway_v2_error(ag) is None && is_gateway_v2_request(ag, req),
            Err(e) => gateway_v2_error(ag) == Some(e),
        },
{
    let GatewayV2Event {
        http_method,
        domain_name,
        raw_path,
        raw_query_string,
        cookies,
        headers,
        query_string_parameters,
        path_parameters,
        stage_variables,
        request_context,
        body,
        is_base64_encoded,
    } = ag;
    let body = match Body::from_payload(is_base64_encoded, &body) {
        Ok(b) => b,
        Err(e) => {
            return Err(e);
        },
    };
    let uri = build_uri(&headers, &domain_name, &raw_path, &raw_query_string);
    if !parses_as_uri(uri.as_str()) {
        return Err(NormalizeError::UnbuildableRequest);
    }
    let mut headers = headers;
    match &cookies {
        Some(list) => {
            if header_count(&headers) >= MAX_HEADERS {
                return Err(NormalizeError::UnbuildableRequest);
            }
            let cookie = join(list, ";");
            proof {
                lemma_known_names();
            }
            let _ = append_value(&mut headers, "cookie", cookie.as_str().as_bytes());
        },
        None => {},
    }
    Ok(
        Request {
            method: http_method,
            uri,
            headers,
            body,
            query_string_parameters: StrMap::from_single(query_string_parameters),
            path_parameters: Some(StrMap::from_single(path_parameters)),
            stage_variables: Some(StrMap::from_single(stage_variables)),
            request_context: RequestContext::ApiGatewayV2(request_context),
        },
    )
}

/// Makes the request of an event of the REST API.
///
/// The address is put together from the headers and the path. The headers
/// are the multi-valued ones with the single-valued ones added. The query
/// string parameters are the multi-valued ones where there are any. The
/// body is read as base64 where the event says so.
pub fn into_proxy_request(ag: GatewayV1Event) -> (r: Result<Request, NormalizeError>)
    ensures
        match r {
            Ok(req) => gateway_v1_error(ag) is None && is_gateway_v1_request(ag, req),
            Err(e) => gateway_v1_error(ag) == Some(e),
        },
{
    let GatewayV1Event {
        http_method,
        path,
        headers,
        multi_value_headers,
        query_string_parameters,
        multi_value_query_string_parameters,
        path_parameters,
        stage_variables,
        request_context,
        body,
        is_base64_encoded,
    } = ag;
    let base64 = match is_base64_encoded {
        Some(flag) => flag,
        None => false,
    };
    let body = match Body::from_payload(base64, &body) {
        Ok(b) => b,
        Err(e) => {
            return Err(e);
        },
    };
    let query = if multi_value_query_string_parameters.len() == 0 {
        StrMap::from_single(query_string_parameters)
    } else {
        StrMap::from_multi(multi_value_query_string_parameters)
    };
    let uri = build_uri(&headers, &None, &path, &query.to_query());
    if !parses_as_uri(uri.as_str()) {
        return Err(NormalizeError::UnbuildableRequest);
    }
    let headers = match merge_headers(multi_value_headers, &headers) {
        Some(merged) => merged,
        None => {
            return Err(NormalizeError::UnbuildableRequest);
        },
    };
    Ok(
        Request {
            method: http_method,
            uri,
            headers,
            body,
            query_string_parameters: query,
            path_parameters: Some(StrMap::from_single(path_parameters)),
            stage_variables: Some(StrMap::from_single(stage_variables)),
            request_context: RequestContext::ApiGatewayV1(request_context),
        },
    )
}

/// Makes the request of an event of a load balancer.
///
/// The address, the headers, the query string parameters and the body are
/// made as for the REST API. There are no path parameters and no stage
/// variables.
pub fn into_alb_request(alb: AlbEvent) -> (r: Result<Request, NormalizeError>)
    ensures
        match r {
            Ok(req) => alb_error(alb) is None && is_alb_request(alb, req),
            Err(e) => alb_error(alb) == Some(e),
        },
{
    let AlbEvent {
        http_method,
        path,
        headers,
        multi_value_headers,
        query_string_parameters,
        multi_value_query_string_parameters,
        request_context,
        body,
        is_base64_encoded,
    } = alb;
    let body = match Body::from_payload(is_base64_encoded, &body) {
        Ok(b) => b,
        Err(e) => {
            return Err(e);
        },
    };
    let query = if multi_value_query_string_parameters.len() == 0 {
        StrMap::from_single(query_string_parameters)
    } else {
        StrMap::from_multi(multi_value_query_string_parameters)
    };
    let uri = build_uri(&headers, &None, &path, &query.to_query());
    if !parses_as_uri(uri.as_str()) {
        return Err(NormalizeError::UnbuildableRequest);
    }
    let headers = match merge_headers(multi_value_headers, &headers) {
        Some(merged) => merged,
        None => {
            return Err(NormalizeError::UnbuildableRequest);
        },
    };
    Ok(
        Request {
            method: http_method,
            uri,
            headers,
            body,
            query_string_parameters: query,
            path_parameters: None,
            stage_variables: None,
            request_context: RequestContext::Alb(request_context),
        },
    )
}

/// The outcome of making the request of an event.
pub open spec fn is_request_of(event: LambdaRequest, r: Result<Request, NormalizeError>) -> bool {
    match event {
        LambdaRequest::ApiGatewayV1(ag) => match r {
            Ok(req) => gateway_v1_error(ag) is None && is_gateway_v1_request(ag, req),
            Err(e) => gateway_v1_error(ag) == Some(e),
        },
        LambdaRequest::ApiGatewayV2(ag) => match r {
            Ok(req) => gateway_v2_error(ag) is None && is_gateway_v2_request(ag, req),
            Err(e) => gateway_v2_error(ag) == Some(e),
        },
        LambdaRequest::Alb(alb) => match r {
            Ok(req) => alb_error(alb) is None && is_alb_request(alb, req),
            Err(e) => alb_error(alb) == Some(e),
        },
    }
}

/// The outcome of decoding a payload and making its request, where the
/// payload was decoded as `event`.
pub open spec fn is_outcome_of(event: LambdaRequest, r: Result<Request, Error>) -> bool {
    match r {
        Ok(req) => is_request_of(event, Ok(req)),
        Err(Error::Normalize(e)) => is_request_of(event, Err(e)),
        Err(Error::Decode(_)) => false,
    }
}

/// The event is what the payload holds: the parse of the JSON value of the
/// bytes as an event of that origin gives the fields of the event.
pub open spec fn is_event_of(bytes: Seq<u8>, event: LambdaRequest) -> bool {
    json_value(bytes) matches Some(value) && match event {
        LambdaRequest::ApiGatewayV1(e) => gateway_v1_fields(value) == Some(e.fields())
            && e.keys_distinct(),
        LambdaRequest::ApiGatewayV2(e) => gateway_v2_fields(value) == Some(e.fields())
            && e.keys_distinct(),
        LambdaRequest::Alb(e) => alb_fields(value) == Some(e.fields()) && e.keys_distinct(),
    }
}

/// The outcome of decoding the bytes of a payload and making its request:
/// the error of the decoder where the payload is no event, else the outcome
/// for the event that the payload holds.
pub open spec fn is_decoded_request(bytes: Seq<u8>, r: Result<Request, Error>) -> bool {
    match decoded_as(bytes) {
        Err(e) => r matches Err(Error::Decode(d)) && d == e,
        Ok(origin) => exists|event: LambdaRequest|
            event.origin() == origin && is_event_of(bytes, event) && #[trigger] is_outcome_of(
                event,
                r,
            ),
    }
}

/// The outcome of the trials of a JSON value: the first event that it
/// fits, in the order REST API, HTTP API, load balancer. A value that is no
/// object, or whose header fields have `MAX_HEADERS` names or more, is
/// tried against none.
pub open spec fn trial(object: bool, small: bool, v1: bool, v2: bool, alb: bool) -> Result<
    RequestOrigin,
    DecodeError,
> {
    if !object || !small {
        Err(DecodeError::NoMatchingSchema)
    } else if v1 {
        Ok(RequestOrigin::ApiGatewayV1)
    } else if v2 {
        Ok(RequestOrigin::ApiGatewayV2)
    } else if alb {
        Ok(RequestOrigin::Alb)
    } else {
        Err(DecodeError::NoMatchingSchema)
    }
}

/// The outcome of decoding a payload: which event it is, or why it is none.
pub open spec fn decoded_as(bytes: Seq<u8>) -> Result<RequestOrigin, DecodeError> {
    match json_value(bytes) {
        None => Err(DecodeError::MalformedJson),
        Some(value) => trial(
            is_object(value),
            headers_fit(value),
            gateway_v1_fields(value) is Some,
            gateway_v2_fields(value) is Some,
            alb_fields(value) is Some,
        ),
    }
}

/// The first of the three parses that gave an event, in the order of the
/// trials.
pub open spec fn first_event(
    v1: Option<GatewayV1Event>,
    v2: Option<GatewayV2Event>,
    alb: Option<AlbEvent>,
) -> Result<LambdaRequest, DecodeError> {
    match v1 {
        Some(e) => Ok(LambdaRequest::ApiGatewayV1(e)),
        None => match v2 {
            Some(e) => Ok(LambdaRequest::ApiGatewayV2(e)),
            None => match alb {
                Some(e) => Ok(LambdaRequest::Alb(e)),
                None => Err(DecodeError::NoMatchingSchema),
            },
        },
    }
}

/// Where an event has multi-valued query string parameters, they are the
/// query string parameters of its request, whatever the single-valued ones
/// hold.
pub proof fn lemma_query_prefers_multi(
    single: Seq<(String, String)>,
    multi: Seq<(String, Vec<String>)>,
)
    requires
        multi.len() > 0,
    ensures
        query_view(single, multi) == multi_view(multi),
{
}

/// A payload that fits the event of the REST API is decoded as one, also
/// where it fits the event of a load balancer or of the HTTP API as well:
/// the order of the trials decides.
pub proof fn lemma_trial_order(bytes: Seq<u8>)
    requires
        json_value(bytes) matches Some(value) && is_object(value) && headers_fit(value)
            && gateway_v1_fields(value) is Some,
    ensures
        decoded_as(bytes) == Ok::<RequestOrigin, DecodeError>(RequestOrigin::ApiGatewayV1),
{
}

/// A request carries the context of the origin of its event.
pub proof fn lemma_request_keeps_origin(event: LambdaRequest, req: Request)
    requires
        is_request_of(event, Ok(req)),
    ensures
        req.request_context.origin() == event.origin(),
{
}

/// The request made of a payload carries the context of the origin that
/// the payload was decoded as, and the maps of a request made of an event
/// hold each key once.
pub proof fn lemma_decoded_request_origin(bytes: Seq<u8>, r: Result<Request, Error>)
    requires
        is_decoded_request(bytes, r),
    ensures
        r matches Ok(req) ==> decoded_as(bytes) == Ok::<RequestOrigin, DecodeError>(
            req.request_context.origin(),
        ) && req.query_string_parameters.wf() && (req.path_parameters matches Some(map)
            ==> map.wf()) && (req.stage_variables matches Some(map) ==> map.wf()),
{
    if let Ok(req) = r {
        let event = choose|event: LambdaRequest|
            event.origin() == decoded_as(bytes)->Ok_0 && is_event_of(bytes, event)
                && #[trigger] is_outcome_of(event, r);
        lemma_request_keeps_origin(event, req);
    }
}

/// What two decodings of one payload agree in: whether and why the payload
/// is no event, whether its body is no base64, and, where both make a
/// request, its method, headers, body and request context, and its address
/// where the event is one of the HTTP API. The pairs of the query string
/// parameters, path parameters and stage variables come out of hash maps
/// in an order of their own, and so may the query of the other addresses.
pub open spec fn agree(r1: Result<Request, Error>, r2: Result<Request, Error>) -> bool {
    match (r1, r2) {
        (Ok(a), Ok(b)) => {
            &&& a.method == b.method
            &&& header_entries(a.headers) == header_entries(b.headers)
            &&& a.body@ == b.body@
            &&& a.request_context == b.request_context
            &&& a.request_context is ApiGatewayV2 ==> a.uri@ == b.uri@
            &&& a.query_string_parameters@.to_multiset() == b.query_string_parameters@.to_multiset()
        },
        (Err(Error::Decode(d1)), Err(Error::Decode(d2))) => d1 == d2,
        (Err(Error::Decode(_)), _) => false,
        (_, Err(Error::Decode(_))) => false,
        (Err(Error::Normalize(n1)), _) => (n1 == NormalizeError::InvalidBase64Body) == (r2
            == Err::<Request, Error>(Error::Normalize(NormalizeError::InvalidBase64Body))),
        (_, Err(Error::Normalize(n2))) => n2 != NormalizeError::InvalidBase64Body,
    }
}

/// The outcome of decoding a payload and making its request is determined
/// by the bytes of the payload, as far as `agree` says.
pub proof fn lemma_decoding_is_determined(
    bytes: Seq<u8>,
    r1: Result<Request, Error>,
    r2: Result<Request, Error>,
)
    requires
        is_decoded_request(bytes, r1),
        is_decoded_request(bytes, r2),
    ensures
        agree(r1, r2),
{
    if let Ok(origin) = decoded_as(bytes) {
        let e1 = choose|event: LambdaRequest|
            event.origin() == origin && is_event_of(bytes, event) && #[trigger] is_outcome_of(
                event,
                r1,
            );
        let e2 = choose|event: LambdaRequest|
            event.origin() == origin && is_event_of(bytes, event) && #[trigger] is_outcome_of(
                event,
                r2,
            );
        match (e1, e2) {
            (LambdaRequest::ApiGatewayV1(a), LambdaRequest::ApiGatewayV1(b)) => {
                assert(a.fields() == b.fields());
                vstd::seq_lib::to_multiset_len(multi_view(a.multi_value_query_string_parameters@));
                vstd::seq_lib::to_multiset_len(multi_view(b.multi_value_query_string_parameters@));
                assert(header_entries(a.headers) == header_entries(b.headers));
                assert(a.body is Some ==> a.body->Some_0@ == b.body->Some_0@);
            },
            (LambdaRequest::ApiGatewayV2(a), LambdaRequest::ApiGatewayV2(b)) => {
                assert(a.fields() == b.fields());
                assert(header_entries(a.headers) == header_entries(b.headers));
                assert(a.body is Some ==> a.body->Some_0@ == b.body->Some_0@);
                assert(a.cookies is Some ==> texts(a.cookies->Some_0@) == texts(b.cookies->Some_0@));
            },
            (LambdaRequest::Alb(a), LambdaRequest::Alb(b)) => {
                assert(a.fields() == b.fields());
                vstd::seq_lib::to_multiset_len(multi_view(a.multi_value_query_string_parameters@));
                vstd::seq_lib::to_multiset_len(multi_view(b.multi_value_query_string_parameters@));
                assert(header_entries(a.headers) == header_entries(b.headers));
                assert(a.body is Some ==> a.body->Some_0@ == b.body->Some_0@);
            },
            _ => {},
        }
    }
}

impl RequestContext {
    /// The origin that sent the context.
    pub open spec fn origin(self) -> RequestOrigin {
        match self {
            RequestContext::ApiGatewayV1(_) => RequestOrigin::ApiGatewayV1,
            RequestContext::ApiGatewayV2(_) => RequestOrigin::ApiGatewayV2,
            RequestContext::Alb(_) => RequestOrigin::Alb,
        }
    }
}

impl LambdaRequest {
    /// Where the event came from.
    pub open spec fn origin(self) -> RequestOrigin {
        match self {
            LambdaRequest::ApiGatewayV1(_) => RequestOrigin::ApiGatewayV1,
            LambdaRequest::ApiGatewayV2(_) => RequestOrigin::ApiGatewayV2,
            LambdaRequest::Alb(_) => RequestOrigin::Alb,
        }
    }

    /// Where the event came from, so that the response can be given the
    /// shape that this origin expects.
    pub fn request_origin(&self) -> (origin: RequestOrigin)
        ensures
            origin == self.origin(),
    {
        match self {
            LambdaRequest::ApiGatewayV1(_) => RequestOrigin::ApiGatewayV1,
            LambdaRequest::ApiGatewayV2(_) => RequestOrigin::ApiGatewayV2,
            LambdaRequest::Alb(_) => RequestOrigin::Alb,
        }
    }

    /// Picks the event among the outcomes of the three parses: the first
    /// that there is, in the order of the trials.
    pub fn first_of(
        v1: Option<GatewayV1Event>,
        v2: Option<GatewayV2Event>,
        alb: Option<AlbEvent>,
    ) -> (r: Result<LambdaRequest, DecodeError>)
        ensures
            r == first_event(v1, v2, alb),
    {
        match v1 {
            Some(e) => Ok(LambdaRequest::ApiGatewayV1(e)),
            None => match v2 {
                Some(e) => Ok(LambdaRequest::ApiGatewayV2(e)),
                None => match alb {
                    Some(e) => Ok(LambdaRequest::Alb(e)),
                    None => Err(DecodeError::NoMatchingSchema),
                },
            },
        }
    }

    /// Decodes a payload. The payload is tried as an event of the REST API,
    /// then of the HTTP API, then of a load balancer, and is the first of
    /// them that it fits. A payload that is no JSON object, or whose header
    /// fields have `MAX_HEADERS` names or more, fits none.
    pub fn decode(bytes: &[u8]) -> (r: Result<LambdaRequest, DecodeError>)
        ensures
            match r {
                Ok(event) => decoded_as(bytes@) == Ok::<RequestOrigin, DecodeError>(event.origin())
                    && is_event_of(bytes@, event),
                Err(e) => decoded_as(bytes@) == Err::<RequestOrigin, DecodeError>(e),
            },
    {
        let value = match parse_json(bytes) {
            Some(value) => value,
            None => {
                return Err(DecodeError::MalformedJson);
            },
        };
        if !holds_object(&value) || count_members(&value, "headers") >= MAX_HEADERS
            || count_members(&value, "multiValueHeaders") >= MAX_HEADERS {
            return Err(DecodeError::NoMatchingSchema);
        }
        let v1 = read_gateway_v1(&value);
        let v2 = if v1.is_none() {
            read_gateway_v2(&value)
        } else {
            None
        };
        let alb = if v1.is_none() && v2.is_none() {
            read_alb(&value)
        } else {
            None
        };
        LambdaRequest::first_of(v1, v2, alb)
    }

    /// Makes the request of the event, by the rules of its origin.
    pub fn into_request(self) -> (r: Result<Request, NormalizeError>)
        ensures
            is_request_of(self, r),
    {
        match self {
            LambdaRequest::ApiGatewayV2(ag) => into_api_gateway_v2_request(ag),
            LambdaRequest::ApiGatewayV1(ag) => into_proxy_request(ag),
            LambdaRequest::Alb(alb) => into_alb_request(alb),
        }
    }
}

/// Decodes a payload and makes its request.
pub fn from_slice(bytes: &[u8]) -> (r: Result<Request, Error>)
    ensures
        is_decoded_request(bytes@, r),
{
    match LambdaRequest::decode(bytes) {
        Ok(event) => {
            let ghost decoded = event;
            let r = match event.into_request() {
                Ok(req) => Ok(req),
                Err(e) => Err(Error::Normalize(e)),
            };
            assert(is_outcome_of(decoded, r));
            r
        },
        Err(e) => Err(Error::Decode(e)),
    }
}

/// Decodes a payload given as text and makes its request.
pub fn from_str(s: &str) -> (r: Result<Request, Error>)
    ensures
        is_decoded_request(s.spec_bytes(), r),
{
    from_slice(s.as_bytes())
}

} // verus!
