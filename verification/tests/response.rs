use aws_lambda_events::encodings::Body as WireBody;
use aws_lambda_events::event::alb::AlbTargetGroupResponse;
use aws_lambda_events::event::apigw::{ApiGatewayProxyResponse, ApiGatewayV2httpResponse};
use http::header::{HeaderMap, HeaderValue, CONTENT_TYPE};
use lambda_http::body::Body;
use lambda_http::request::RequestOrigin;
use lambda_http::headers::{headers_without, last_value_headers, MAX_HEADERS};
use lambda_http::response::{
    json_response, status_line_text, status_text, AlbResponse, GatewayV1Response,
    GatewayV2Response, IntoResponse, LambdaResponse, Response,
};
use lambda_http::text::{decimal_text, join};
use lambda_http::transform::TransformResponse;

fn to_json(res: LambdaResponse) -> String {
    match res {
        LambdaResponse::ApiGatewayV1(r) => serde_json::to_string(&ApiGatewayProxyResponse {
            status_code: r.status_code,
            headers: r.headers,
            multi_value_headers: r.multi_value_headers,
            body: r.body.map(WireBody::Text),
            is_base64_encoded: r.is_base64_encoded,
        }),
        LambdaResponse::ApiGatewayV2(r) => serde_json::to_string(&ApiGatewayV2httpResponse {
            status_code: r.status_code,
            headers: r.headers,
            multi_value_headers: r.multi_value_headers,
            body: r.body.map(WireBody::Text),
            is_base64_encoded: r.is_base64_encoded,
            cookies: r.cookies,
        }),
        LambdaResponse::Alb(r) => serde_json::to_string(&AlbTargetGroupResponse {
            status_code: r.status_code,
            status_description: r.status_description,
            headers: r.headers,
            multi_value_headers: r.multi_value_headers,
            body: r.body.map(WireBody::Text),
            is_base64_encoded: r.is_base64_encoded,
        }),
    }
    .expect("failed to serialize response")
}

fn api_gateway_response() -> GatewayV1Response {
    GatewayV1Response {
        status_code: 200,
        headers: Default::default(),
        multi_value_headers: Default::default(),
        body: Default::default(),
        is_base64_encoded: Default::default(),
    }
}

fn alb_response() -> AlbResponse {
    AlbResponse {
        status_code: 200,
        status_description: Some("200 OK".to_string()),
        headers: Default::default(),
        multi_value_headers: Default::default(),
        body: Default::default(),
        is_base64_encoded: Default::default(),
    }
}

fn api_gateway_v2_response() -> GatewayV2Response {
    GatewayV2Response {
        status_code: 200,
        headers: Default::default(),
        multi_value_headers: Default::default(),
        body: Default::default(),
        cookies: Default::default(),
        is_base64_encoded: Default::default(),
    }
}

fn response(status: u16, headers: &[(&'static str, &'static str)], body: Body) -> Response {
    let mut map = HeaderMap::new();
    for (name, value) in headers {
        map.append(*name, HeaderValue::from_static(value));
    }
    Response { status, headers: map, body }
}

fn pairs(headers: &HeaderMap) -> Vec<(String, String)> {
    headers
        .iter()
        .map(|(n, v)| (n.as_str().to_string(), v.to_str().expect("invalid header").to_string()))
        .collect()
}

#[test]
fn json_into_response() {
    let mut object = serde_json::Map::new();
    object.insert("hello".to_string(), serde_json::Value::String("lambda".to_string()));
    let response = serde_json::Value::Object(object).into_response();
    match &response.body {
        Body::Text(json) => assert_eq!(json, r#"{"hello":"lambda"}"#),
        _ => panic!("invalid body"),
    }
    assert_eq!(
        response.headers.get(CONTENT_TYPE).map(|h| h.to_str().expect("invalid header")),
        Some("application/json")
    )
}

#[test]
fn text_into_response() {
    let response = "text".into_response();
    match &response.body {
        Body::Text(text) => assert_eq!(text, "text"),
        _ => panic!("invalid body"),
    }
}

#[test]
fn serialize_body_for_api_gateway() {
    let mut resp = api_gateway_response();
    resp.body = Some("foo".into());
    assert_eq!(
        to_json(LambdaResponse::ApiGatewayV1(resp)),
        r#"{"statusCode":200,"headers":{},"multiValueHeaders":{},"body":"foo"}"#
    );
}

#[test]
fn serialize_body_for_alb() {
    let mut resp = alb_response();
    resp.body = Some("foo".into());
    assert_eq!(
        to_json(LambdaResponse::Alb(resp)),
        r#"{"statusCode":200,"statusDescription":"200 OK","headers":{},"multiValueHeaders":{},"body":"foo","isBase64Encoded":false}"#
    );
}

#[test]
fn serialize_body_for_api_gateway_v2() {
    let mut resp = api_gateway_v2_response();
    resp.body = Some("foo".into());
    assert_eq!(
        to_json(LambdaResponse::ApiGatewayV2(resp)),
        r#"{"statusCode":200,"headers":{},"multiValueHeaders":{},"body":"foo","cookies":[]}"#
    );
}

#[test]
fn serialize_multi_value_headers() {
    let res = LambdaResponse::from_response(
        &RequestOrigin::ApiGatewayV1,
        response(200, &[("multi", "a"), ("multi", "b")], Body::Empty),
    );
    let json = to_json(res);
    assert_eq!(
        json,
        r#"{"statusCode":200,"headers":{"multi":"b"},"multiValueHeaders":{"multi":["a","b"]},"isBase64Encoded":false}"#
    )
}

#[test]
fn serialize_cookies() {
    let res = LambdaResponse::from_response(
        &RequestOrigin::ApiGatewayV2,
        response(200, &[("set-cookie", "cookie1=a"), ("set-cookie", "cookie2=b")], Body::Empty),
    );
    let json = to_json(res);
    assert_eq!(
        json,
        r#"{"statusCode":200,"headers":{},"multiValueHeaders":{},"isBase64Encoded":false,"cookies":["cookie1=a","cookie2=b"]}"#
    )
}

#[test]
fn string_into_response_has_no_headers() {
    let response = String::from("hello").into_response();
    assert_eq!(response.status, 200);
    assert!(response.headers.is_empty());
    assert_eq!(response.body, Body::Text("hello".to_string()));
}

#[test]
fn response_into_response_is_unchanged() {
    let given = response(418, &[("x-a", "1")], Body::Binary(vec![1, 2, 3]));
    let got = given.into_response();
    assert_eq!(got.status, 418);
    assert_eq!(pairs(&got.headers), vec![("x-a".to_string(), "1".to_string())]);
    assert_eq!(got.body, Body::Binary(vec![1, 2, 3]));
}

#[test]
fn json_response_carries_text_and_content_type() {
    let got = json_response("[1,2]".to_string());
    assert_eq!(got.status, 200);
    assert_eq!(
        pairs(&got.headers),
        vec![("content-type".to_string(), "application/json".to_string())]
    );
    assert_eq!(got.body, Body::Text("[1,2]".to_string()));
}

#[test]
fn json_text_is_compact_and_nested() {
    let mut inner = serde_json::Map::new();
    inner.insert("n".to_string(), serde_json::Value::from(1));
    let list = serde_json::Value::Array(vec![
        serde_json::Value::Null,
        serde_json::Value::Bool(true),
        serde_json::Value::Object(inner),
    ]);
    let got = list.into_response();
    assert_eq!(got.body, Body::Text(r#"[null,true,{"n":1}]"#.to_string()));
}

#[test]
fn binary_body_is_base64_for_api_gateway() {
    let res = LambdaResponse::from_response(
        &RequestOrigin::ApiGatewayV1,
        response(200, &[], Body::Binary(b"foo".to_vec())),
    );
    match &res {
        LambdaResponse::ApiGatewayV1(out) => {
            assert_eq!(out.body.as_deref(), Some("Zm9v"));
            assert_eq!(out.is_base64_encoded, Some(true));
        }
        _ => panic!("wrong shape"),
    }
    assert_eq!(
        to_json(res),
        r#"{"statusCode":200,"headers":{},"multiValueHeaders":{},"body":"Zm9v","isBase64Encoded":true}"#
    );
}

#[test]
fn binary_body_is_base64_with_padding() {
    let res = LambdaResponse::from_response(
        &RequestOrigin::Alb,
        response(200, &[], Body::Binary(vec![0xff, 0x00])),
    );
    match res {
        LambdaResponse::Alb(out) => {
            assert_eq!(out.body.as_deref(), Some("/wA="));
            assert!(out.is_base64_encoded);
        }
        _ => panic!("wrong shape"),
    }
}

#[test]
fn text_body_is_sent_as_it_is() {
    let res = LambdaResponse::from_response(
        &RequestOrigin::ApiGatewayV2,
        response(201, &[], Body::Text("Zm9v".to_string())),
    );
    match res {
        LambdaResponse::ApiGatewayV2(out) => {
            assert_eq!(out.status_code, 201);
            assert_eq!(out.body.as_deref(), Some("Zm9v"));
            assert_eq!(out.is_base64_encoded, Some(false));
        }
        _ => panic!("wrong shape"),
    }
}

#[test]
fn empty_body_has_no_body_field() {
    for origin in [RequestOrigin::ApiGatewayV1, RequestOrigin::ApiGatewayV2, RequestOrigin::Alb] {
        let res = LambdaResponse::from_response(&origin, response(204, &[], Body::Empty));
        let (body, flag) = match res {
            LambdaResponse::ApiGatewayV1(out) => (out.body, out.is_base64_encoded),
            LambdaResponse::ApiGatewayV2(out) => (out.body, out.is_base64_encoded),
            LambdaResponse::Alb(out) => (out.body, Some(out.is_base64_encoded)),
        };
        assert_eq!(body, None);
        assert_eq!(flag, Some(false));
    }
}

#[test]
fn alb_status_description_names_the_reason() {
    let res = LambdaResponse::from_response(&RequestOrigin::Alb, response(404, &[], Body::Empty));
    match &res {
        LambdaResponse::Alb(out) => {
            assert_eq!(out.status_code, 404);
            assert_eq!(out.status_description.as_deref(), Some("404 Not Found"));
        }
        _ => panic!("wrong shape"),
    }
    assert_eq!(
        to_json(res),
        r#"{"statusCode":404,"statusDescription":"404 Not Found","headers":{},"multiValueHeaders":{},"isBase64Encoded":false}"#
    );
}

#[test]
fn status_text_without_a_reason_ends_in_a_space() {
    assert_eq!(status_text(200), "200 OK");
    assert_eq!(status_text(799), "799 ");
    assert_eq!(status_text(99), "99 ");
    assert_eq!(status_text(0), "0 ");
    assert_eq!(status_text(65535), "65535 ");
}

#[test]
fn cookies_leave_both_header_fields() {
    let res = LambdaResponse::from_response(
        &RequestOrigin::ApiGatewayV2,
        response(
            200,
            &[("x-first", "1"), ("set-cookie", "a=1"), ("x-last", "2"), ("set-cookie", "b=2")],
            Body::Empty,
        ),
    );
    match res {
        LambdaResponse::ApiGatewayV2(out) => {
            assert_eq!(out.cookies, vec!["a=1".to_string(), "b=2".to_string()]);
            assert!(out.headers.get("set-cookie").is_none());
            assert!(out.multi_value_headers.get("set-cookie").is_none());
            assert_eq!(out.headers.get("x-first").map(|v| v.as_bytes()), Some(&b"1"[..]));
            assert_eq!(out.headers.get("x-last").map(|v| v.as_bytes()), Some(&b"2"[..]));
            assert_eq!(out.headers, out.multi_value_headers);
            assert_eq!(out.headers.len(), 2);
            let want =
                vec![("x-first".to_string(), "1".to_string()), ("x-last".to_string(), "2".to_string())];
            assert_eq!(pairs(&out.headers), want);
            assert_eq!(pairs(&out.multi_value_headers), want);
        }
        _ => panic!("wrong shape"),
    }
}

#[test]
fn headers_behind_the_cookies_keep_their_order() {
    let res = LambdaResponse::from_response(
        &RequestOrigin::ApiGatewayV2,
        response(
            200,
            &[("set-cookie", "a=1"), ("x-a", "1"), ("x-b", "2"), ("x-a", "3"), ("x-c", "4")],
            Body::Empty,
        ),
    );
    match res {
        LambdaResponse::ApiGatewayV2(out) => {
            assert_eq!(
                pairs(&out.headers),
                vec![
                    ("x-a".to_string(), "1".to_string()),
                    ("x-a".to_string(), "3".to_string()),
                    ("x-b".to_string(), "2".to_string()),
                    ("x-c".to_string(), "4".to_string()),
                ]
            );
            assert_eq!(out.cookies, vec!["a=1".to_string()]);
        }
        _ => panic!("wrong shape"),
    }
}

#[test]
fn single_valued_headers_show_the_last_value() {
    for origin in [RequestOrigin::ApiGatewayV1, RequestOrigin::Alb] {
        let res = LambdaResponse::from_response(
            &origin,
            response(
                200,
                &[("x-a", "1"), ("x-b", "2"), ("x-a", "3"), ("x-a", "4"), ("x-c", "5")],
                Body::Empty,
            ),
        );
        let (headers, multi) = match res {
            LambdaResponse::ApiGatewayV1(out) => (out.headers, out.multi_value_headers),
            LambdaResponse::Alb(out) => (out.headers, out.multi_value_headers),
            _ => panic!("wrong shape"),
        };
        assert_eq!(
            pairs(&headers),
            vec![
                ("x-a".to_string(), "4".to_string()),
                ("x-b".to_string(), "2".to_string()),
                ("x-c".to_string(), "5".to_string()),
            ]
        );
        assert_eq!(multi.len(), 5);
        assert_eq!(multi.get_all("x-a").iter().count(), 3);
    }
}

#[test]
fn headers_of_too_many_values_are_left_as_they_are() {
    let mut many = HeaderMap::new();
    for i in 0..=MAX_HEADERS {
        many.append("x-many", HeaderValue::from(i));
    }
    many.append("set-cookie", HeaderValue::from_static("a=1"));
    assert_eq!(last_value_headers(&many).len(), MAX_HEADERS + 2);
    let left = headers_without(many, "set-cookie");
    assert_eq!(left.len(), MAX_HEADERS + 1);
    assert!(left.get("set-cookie").is_none());

    let mut few = HeaderMap::new();
    for i in 0..MAX_HEADERS {
        few.append("x-many", HeaderValue::from(i));
    }
    let single = last_value_headers(&few);
    assert_eq!(single.len(), 1);
    assert_eq!(single.get("x-many"), Some(&HeaderValue::from(MAX_HEADERS - 1)));
}

#[test]
fn status_line_is_made_of_the_code_and_the_given_reason() {
    assert_eq!(status_line_text(404, Some("Not Found")), "404 Not Found");
    assert_eq!(status_line_text(404, None), "404 ");
    assert_eq!(status_line_text(7, Some("")), "7 ");
    assert_eq!(status_line_text(200, Some("Fine By Me")), "200 Fine By Me");
}

#[test]
fn cookie_that_is_no_text_becomes_empty() {
    let mut headers = HeaderMap::new();
    headers.append("set-cookie", HeaderValue::from_bytes(b"a=\xff").expect("valid value"));
    headers.append("set-cookie", HeaderValue::from_static("b=2"));
    let res = LambdaResponse::from_response(
        &RequestOrigin::ApiGatewayV2,
        Response { status: 200, headers, body: Body::Empty },
    );
    match res {
        LambdaResponse::ApiGatewayV2(out) => {
            assert_eq!(out.cookies, vec!["".to_string(), "b=2".to_string()]);
        }
        _ => panic!("wrong shape"),
    }
}

#[test]
fn cookies_stay_in_the_headers_of_the_other_origins() {
    for origin in [RequestOrigin::ApiGatewayV1, RequestOrigin::Alb] {
        let res = LambdaResponse::from_response(
            &origin,
            response(200, &[("set-cookie", "a=1"), ("x-b", "2")], Body::Empty),
        );
        let (headers, multi) = match res {
            LambdaResponse::ApiGatewayV1(out) => (out.headers, out.multi_value_headers),
            LambdaResponse::Alb(out) => (out.headers, out.multi_value_headers),
            _ => panic!("wrong shape"),
        };
        let want =
            vec![("set-cookie".to_string(), "a=1".to_string()), ("x-b".to_string(), "2".to_string())];
        assert_eq!(pairs(&headers), want);
        assert_eq!(pairs(&multi), want);
    }
}

#[test]
fn payload_has_the_shape_of_its_origin() {
    for origin in [RequestOrigin::ApiGatewayV1, RequestOrigin::ApiGatewayV2, RequestOrigin::Alb] {
        let res = LambdaResponse::from_response(&origin, "ok".into_response());
        assert_eq!(res.request_origin(), origin);
    }
}

#[test]
fn ready_encodes_what_the_handler_returned() {
    let record = TransformResponse::new(RequestOrigin::Alb);
    let outcome = record.ready::<&str, String>(Ok("hi"));
    match outcome {
        Ok(LambdaResponse::Alb(out)) => {
            assert_eq!(out.body.as_deref(), Some("hi"));
            assert_eq!(out.status_description.as_deref(), Some("200 OK"));
        }
        _ => panic!("wrong outcome"),
    }
}

#[test]
fn ready_hands_the_error_on() {
    let record = TransformResponse::new(RequestOrigin::ApiGatewayV2);
    let outcome = record.ready::<String, String>(Err("boom".to_string()));
    match outcome {
        Err(e) => assert_eq!(e, "boom"),
        Ok(_) => panic!("an error was encoded"),
    }
}

#[test]
fn poll_waits_while_the_result_is_pending() {
    let record = TransformResponse::new(RequestOrigin::ApiGatewayV1);
    assert!(record.poll::<String, String>(None).is_none());
    match record.poll::<String, String>(Some(Ok("x".to_string()))) {
        Some(Ok(payload)) => assert_eq!(payload.request_origin(), RequestOrigin::ApiGatewayV1),
        _ => panic!("wrong outcome"),
    }
    match record.poll::<String, u8>(Some(Err(7))) {
        Some(Err(code)) => assert_eq!(code, 7),
        _ => panic!("wrong outcome"),
    }
}

#[test]
fn decimal_text_writes_every_digit() {
    assert_eq!(decimal_text(0), "0");
    assert_eq!(decimal_text(7), "7");
    assert_eq!(decimal_text(10), "10");
    assert_eq!(decimal_text(404), "404");
    assert_eq!(decimal_text(12345), "12345");
    assert_eq!(decimal_text(60789), "60789");
    assert_eq!(decimal_text(u16::MAX), "65535");
}

#[test]
fn join_puts_the_separator_between_parts() {
    assert_eq!(join(&vec![], ";"), "");
    assert_eq!(join(&vec!["a".to_string()], ";"), "a");
    assert_eq!(join(&vec!["a".to_string(), "b".to_string(), "".to_string()], ", "), "a, b, ");
}

struct Teapot;

impl IntoResponse for Teapot {
    fn into_response(self) -> Response {
        Response { status: 418, headers: HeaderMap::new(), body: Body::Empty }
    }
}

#[test]
fn a_type_of_the_handler_can_become_a_response() {
    let record = TransformResponse::new(RequestOrigin::Alb);
    match record.ready::<Teapot, ()>(Ok(Teapot)) {
        Ok(LambdaResponse::Alb(out)) => {
            assert_eq!(out.status_code, 418);
            assert_eq!(out.status_description.as_deref(), Some("418 I'm a teapot"));
            assert_eq!(out.body, None);
        }
        _ => panic!("wrong outcome"),
    }
}
