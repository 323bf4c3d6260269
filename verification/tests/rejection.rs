// The warp side's own rejection handling must reach the host unchanged, and
// a translation fault must surface as the synthetic 500.
use std::collections::HashMap;

use tower::Service;
use warp::Filter;

use warpdrive::model::{AxumRequest, AxumResponse, HeaderField, HttpVersion, TranslationError, WarpResponse};
use warpdrive::warp_service::{begin_call, create_conversion_error_response, finish_call, CallStep};

fn req(
    method: &str,
    uri: &str,
    headers: &[(&str, &str)],
    body: axum::body::Body,
) -> AxumRequest {
    AxumRequest {
        method: method.to_string(),
        uri: uri.to_string(),
        version: HttpVersion::H11,
        headers: headers
            .iter()
            .map(|(n, v)| HeaderField {
                name: n.to_string(),
                value: v.as_bytes().to_vec(),
            })
            .collect(),
        body,
    }
}

fn to_warp_version(v: HttpVersion) -> warp::http::Version {
    match v {
        HttpVersion::H09 => warp::http::Version::HTTP_09,
        HttpVersion::H10 => warp::http::Version::HTTP_10,
        HttpVersion::H11 => warp::http::Version::HTTP_11,
        HttpVersion::H2 => warp::http::Version::HTTP_2,
        HttpVersion::H3 => warp::http::Version::HTTP_3,
        HttpVersion::Other => warp::http::Version::HTTP_11,
    }
}

fn from_warp_version(v: warp::http::Version) -> HttpVersion {
    match v {
        warp::http::Version::HTTP_09 => HttpVersion::H09,
        warp::http::Version::HTTP_10 => HttpVersion::H10,
        warp::http::Version::HTTP_11 => HttpVersion::H11,
        warp::http::Version::HTTP_2 => HttpVersion::H2,
        warp::http::Version::HTTP_3 => HttpVersion::H3,
        _ => HttpVersion::Other,
    }
}

fn run_warp<T>(filter: warp::filters::BoxedFilter<(T,)>, request: AxumRequest) -> AxumResponse
where
    T: warp::Reply + Send + Sync + 'static,
{
    match begin_call(request) {
        CallStep::Respond(response) => response,
        CallStep::Invoke(w) => {
            let mut builder = warp::http::Request::builder()
                .method(w.method.as_str())
                .uri(w.uri.as_str())
                .version(to_warp_version(w.version));
            for h in &w.headers {
                builder = builder.header(h.name.as_str(), h.value.as_slice());
            }
            let warp_request = builder.body(w.body).unwrap();

            let mut service = warp::service(filter);
            let warp_response =
                futures::executor::block_on(service.call(warp_request)).unwrap();

            let (parts, body) = warp_response.into_parts();
            finish_call(WarpResponse {
                status: parts.status.as_u16(),
                version: from_warp_version(parts.version),
                headers: parts
                    .headers
                    .iter()
                    .map(|(n, v)| HeaderField {
                        name: n.as_str().to_string(),
                        value: v.as_bytes().to_vec(),
                    })
                    .collect(),
                body,
            })
        }
    }
}

fn body_bytes(body: axum::body::Body) -> Vec<u8> {
    futures::executor::block_on(axum::body::to_bytes(body, usize::MAX))
        .unwrap()
        .to_vec()
}

fn header<'a>(headers: &'a [HeaderField], name: &str) -> Option<&'a [u8]> {
    headers
        .iter()
        .find(|h| h.name.eq_ignore_ascii_case(name))
        .map(|h| h.value.as_slice())
}

#[test]
fn test_404_not_found() {
    let warp_filter = warp::path("exists")
        .and(warp::get())
        .map(|| "This route exists");

    let response = run_warp(
        warp_filter.boxed(),
        req("GET", "/does-not-exist", &[], axum::body::Body::empty()),
    );

    assert_eq!(response.status, 404);
}

#[test]
fn test_405_method_not_allowed() {
    let warp_filter = warp::path("only-post")
        .and(warp::post())
        .map(|| "POST only");

    let response = run_warp(
        warp_filter.boxed(),
        req("GET", "/only-post", &[], axum::body::Body::empty()),
    );

    assert_eq!(response.status, 405);
}

#[test]
fn test_400_invalid_json() {
    let warp_filter = warp::path("json")
        .and(warp::post())
        .and(warp::body::json::<HashMap<String, String>>())
        .map(|data: HashMap<String, String>| {
            format!("Got: {}", data.get("message").cloned().unwrap_or_default())
        });

    let response = run_warp(
        warp_filter.boxed(),
        req(
            "POST",
            "/json",
            &[("content-type", "application/json")],
            axum::body::Body::from("invalid json content"),
        ),
    );

    assert_eq!(response.status, 400);
}

#[test]
fn test_400_missing_required_header() {
    let warp_filter = warp::path("auth")
        .and(warp::get())
        .and(warp::header::<String>("authorization"))
        .map(|_auth: String| "Authenticated");

    let response = run_warp(
        warp_filter.boxed(),
        req("GET", "/auth", &[], axum::body::Body::empty()),
    );

    assert_eq!(response.status, 400);
}

#[test]
fn test_400_invalid_query_parameter() {
    let warp_filter = warp::path("search")
        .and(warp::get())
        .and(warp::query::<HashMap<String, u32>>())
        .map(|_params: HashMap<String, u32>| "Search results");

    let response = run_warp(
        warp_filter.boxed(),
        req(
            "GET",
            "/search?limit=not-a-number",
            &[],
            axum::body::Body::empty(),
        ),
    );

    assert_eq!(response.status, 400);
}

#[test]
fn test_400_invalid_path_parameter() {
    let warp_filter = warp::path("users")
        .and(warp::path::param::<u32>())
        .and(warp::get())
        .map(|user_id: u32| format!("User: {}", user_id));

    let response = run_warp(
        warp_filter.boxed(),
        req("GET", "/users/not-a-number", &[], axum::body::Body::empty()),
    );

    assert_eq!(response.status, 404);
}

#[test]
fn test_411_length_required() {
    let warp_filter = warp::path("upload")
        .and(warp::post())
        .and(warp::body::content_length_limit(10))
        .and(warp::body::json::<HashMap<String, String>>())
        .map(|data: HashMap<String, String>| {
            format!("Uploaded: {}", data.get("message").cloned().unwrap_or_default())
        });

    let large_json =
        r#"{"message": "This is a very long message that exceeds the content length limit"}"#;

    let response = run_warp(
        warp_filter.boxed(),
        req(
            "POST",
            "/upload",
            &[("content-type", "application/json")],
            axum::body::Body::from(large_json),
        ),
    );

    assert_eq!(response.status, 411);
}

#[test]
fn test_415_unsupported_media_type() {
    let warp_filter = warp::path("json-only")
        .and(warp::post())
        .and(warp::body::json::<HashMap<String, String>>())
        .map(|data: HashMap<String, String>| {
            format!("Got JSON: {}", data.get("message").cloned().unwrap_or_default())
        });

    let response = run_warp(
        warp_filter.boxed(),
        req(
            "POST",
            "/json-only",
            &[("content-type", "text/plain")],
            axum::body::Body::from(r#"{"message": "test"}"#),
        ),
    );

    assert_eq!(response.status, 415);
}

#[test]
fn test_multiple_possible_rejections() {
    let warp_filter = warp::path("strict")
        .and(warp::post())
        .and(warp::header::<String>("authorization"))
        .and(warp::body::json::<HashMap<String, bool>>())
        .map(|_auth: String, _json: HashMap<String, bool>| "Success");

    let response = run_warp(
        warp_filter.clone().boxed(),
        req(
            "GET",
            "/strict",
            &[
                ("authorization", "Bearer token"),
                ("content-type", "application/json"),
            ],
            axum::body::Body::from(r#"{"test": true}"#),
        ),
    );
    assert_eq!(response.status, 405);

    let response = run_warp(
        warp_filter.boxed(),
        req(
            "POST",
            "/strict",
            &[("content-type", "application/json")],
            axum::body::Body::from(r#"{"test": true}"#),
        ),
    );
    assert_eq!(response.status, 400);
}

#[test]
fn test_rejection_preserves_warp_response_format() {
    let warp_filter = warp::path("test").and(warp::post()).map(|| "success");

    let response = run_warp(
        warp_filter.boxed(),
        req("GET", "/test", &[], axum::body::Body::empty()),
    );

    assert_eq!(response.status, 405);

    let body = body_bytes(response.body);
    assert!(!body.is_empty());
}

#[test]
fn test_invalid_method_yields_500() {
    let warp_filter = warp::path("hello").and(warp::get()).map(|| "Hello!");

    let response = run_warp(
        warp_filter.boxed(),
        req("BAD METHOD", "/hello", &[], axum::body::Body::empty()),
    );

    assert_eq!(response.status, 500);
    assert_eq!(
        header(&response.headers, "content-type").unwrap(),
        b"text/plain"
    );
    assert_eq!(
        body_bytes(response.body),
        b"Conversion error: invalid method token"
    );
}

#[test]
fn test_invalid_uri_yields_500() {
    let warp_filter = warp::path("hello").and(warp::get()).map(|| "Hello!");

    let response = run_warp(
        warp_filter.boxed(),
        req("GET", "http://exa mple.com/", &[], axum::body::Body::empty()),
    );

    assert_eq!(response.status, 500);
    assert_eq!(
        body_bytes(response.body),
        b"Conversion error: invalid URI"
    );
}

#[test]
fn test_fallback_response_for_each_fault() {
    let cases: Vec<(TranslationError, &[u8])> = vec![
        (
            TranslationError::InvalidMethod,
            b"Conversion error: invalid method token",
        ),
        (TranslationError::InvalidUri, b"Conversion error: invalid URI"),
        (
            TranslationError::InvalidStatus,
            b"Conversion error: invalid status code",
        ),
        (
            TranslationError::BodyReadError,
            b"Conversion error: body could not be read",
        ),
        (
            TranslationError::ResponseBuildError,
            b"Conversion error: response could not be built",
        ),
    ];

    for (fault, expected) in cases {
        let response = create_conversion_error_response(fault);
        assert_eq!(response.status, 500);
        assert_eq!(
            header(&response.headers, "content-type").unwrap(),
            b"text/plain"
        );
        assert_eq!(body_bytes(response.body), expected);
    }
}

#[test]
fn test_invalid_status_yields_500() {
    let response = finish_call(WarpResponse {
        status: 700,
        version: HttpVersion::H11,
        headers: vec![],
        body: warp::hyper::body::Body::empty(),
    });

    assert_eq!(response.status, 500);
    assert_eq!(
        header(&response.headers, "content-type").unwrap(),
        b"text/plain"
    );
    assert_eq!(
        body_bytes(response.body),
        b"Conversion error: invalid status code"
    );
}
