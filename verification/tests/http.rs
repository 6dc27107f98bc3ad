use bytes::Bytes;
use openworkers_core::{
    HttpMethod, HttpRequest, HttpResponse, RequestBody, ResponseBody, TerminationReason,
};

#[test]
fn method_parses_every_verb_in_any_case() {
    assert_eq!(HttpMethod::from_str("GET"), Ok(HttpMethod::Get));
    assert_eq!(HttpMethod::from_str("get"), Ok(HttpMethod::Get));
    assert_eq!(HttpMethod::from_str("Post"), Ok(HttpMethod::Post));
    assert_eq!(HttpMethod::from_str("pUt"), Ok(HttpMethod::Put));
    assert_eq!(HttpMethod::from_str("delete"), Ok(HttpMethod::Delete));
    assert_eq!(HttpMethod::from_str("PATCH"), Ok(HttpMethod::Patch));
    assert_eq!(HttpMethod::from_str("head"), Ok(HttpMethod::Head));
    assert_eq!(HttpMethod::from_str("oPtIoNs"), Ok(HttpMethod::Options));
}

#[test]
fn method_parse_knows_no_case_but_that_of_ascii_letters() {
    // U+017F, the long s, and U+0131, the dotless i, are no letters of a verb,
    // though their Unicode uppercase forms are S and I.
    assert_eq!(HttpMethod::from_str("po\u{17f}t"), Err(()));
    assert_eq!(HttpMethod::from_str("opt\u{131}ons"), Err(()));
    assert_eq!("opt\u{131}ons".parse::<HttpMethod>(), Err(()));
    assert_eq!(HttpMethod::from_str("d\u{e9}lete"), Err(()));
    assert_eq!(HttpMethod::from_str("GE\u{54}"), Ok(HttpMethod::Get));
    assert_eq!(HttpMethod::from_str_or_default("opt\u{131}ons"), HttpMethod::Get);
}

#[test]
fn method_parse_rejects_everything_else() {
    assert_eq!(HttpMethod::from_str(""), Err(()));
    assert_eq!(HttpMethod::from_str("GETS"), Err(()));
    assert_eq!(HttpMethod::from_str(" GET"), Err(()));
    assert_eq!(HttpMethod::from_str("TRACE"), Err(()));
    assert_eq!(HttpMethod::from_str("CONNECT"), Err(()));
    assert_eq!(HttpMethod::from_str("G E T"), Err(()));
}

#[test]
fn method_parse_through_the_standard_trait() {
    assert_eq!("options".parse::<HttpMethod>(), Ok(HttpMethod::Options));
    assert_eq!("nothing".parse::<HttpMethod>(), Err(()));
}

#[test]
fn method_fallback_is_explicit() {
    assert_eq!(HttpMethod::from_str_or_default("bogus"), HttpMethod::Get);
    assert_eq!(HttpMethod::from_str_or_default("put"), HttpMethod::Put);
    assert_eq!(HttpMethod::default(), HttpMethod::Get);
}

#[test]
fn method_prints_its_verb() {
    let all = [
        (HttpMethod::Get, "GET"),
        (HttpMethod::Post, "POST"),
        (HttpMethod::Put, "PUT"),
        (HttpMethod::Delete, "DELETE"),
        (HttpMethod::Patch, "PATCH"),
        (HttpMethod::Head, "HEAD"),
        (HttpMethod::Options, "OPTIONS"),
    ];
    for (method, verb) in all {
        assert_eq!(method.as_str(), verb);
        assert_eq!(method.to_string(), verb);
        assert_eq!(HttpMethod::from_str(verb), Ok(method));
    }
}

#[test]
fn request_body_accessors() {
    let none = RequestBody::Empty;
    assert!(none.is_none());
    assert!(!none.is_bytes());
    assert!(none.as_bytes().is_none());
    assert!(none.into_bytes().is_none());

    let some = RequestBody::Bytes(Bytes::from_static(b"abc"));
    assert!(!some.is_none());
    assert!(some.is_bytes());
    assert_eq!(some.as_bytes(), Some(&Bytes::from_static(b"abc")));
    let copy = some.clone();
    assert_eq!(copy.into_bytes(), Some(Bytes::from_static(b"abc")));
    assert_eq!(some.into_bytes(), Some(Bytes::from_static(b"abc")));
}

#[test]
fn request_body_from_buffer_drops_an_empty_payload() {
    assert!(RequestBody::from_buffer(Bytes::new()).is_none());
    let body = RequestBody::from_buffer(Bytes::from_static(b"x"));
    assert_eq!(body.into_bytes(), Some(Bytes::from_static(b"x")));
}

#[test]
fn absolute_url_joins_its_parts() {
    assert_eq!(
        HttpRequest::absolute_url("https", "example.com:8443", "/a/b?c=d"),
        "https://example.com:8443/a/b?c=d"
    );
    assert_eq!(HttpRequest::absolute_url("http", "x", "/"), "http://x/");
}

#[test]
fn request_from_parts() {
    let lines = vec![
        ("Content-Type".to_string(), Some("text/plain".to_string())),
        ("X-Binary".to_string(), None),
        ("X-Twice".to_string(), Some("first".to_string())),
        ("X-Twice".to_string(), Some("second".to_string())),
    ];
    let request = HttpRequest::from_parts(
        "post",
        "http",
        "localhost",
        "/submit?x=1",
        lines,
        Bytes::from_static(b"payload"),
    );
    assert_eq!(request.method, HttpMethod::Post);
    assert_eq!(request.url, "http://localhost/submit?x=1");
    assert_eq!(request.headers.len(), 2);
    assert_eq!(request.headers.get("Content-Type").map(|v| v.as_str()), Some("text/plain"));
    assert_eq!(request.headers.get("X-Twice").map(|v| v.as_str()), Some("second"));
    assert!(request.headers.get("X-Binary").is_none());
    assert!(request.headers.get("content-type").is_none());
    assert_eq!(request.body.into_bytes(), Some(Bytes::from_static(b"payload")));
}

#[test]
fn request_from_parts_falls_back_to_get_and_no_body() {
    let request = HttpRequest::from_parts("BREW", "http", "h", "/", Vec::new(), Bytes::new());
    assert_eq!(request.method, HttpMethod::Get);
    assert!(request.headers.is_empty());
    assert!(request.body.is_none());
}

#[test]
fn response_body_kinds() {
    assert!(ResponseBody::Empty.is_none());
    assert!(!ResponseBody::Empty.is_stream());
    let buffered = ResponseBody::Bytes(Bytes::from_static(b"abc"));
    assert!(!buffered.is_none());
    assert!(!buffered.is_stream());
    let (_tx, rx) = tokio::sync::mpsc::channel(1);
    let streamed = ResponseBody::Stream(rx);
    assert!(streamed.is_stream());
    assert!(!streamed.is_none());
}

#[test]
fn response_body_describes_itself_without_its_contents() {
    assert_eq!(ResponseBody::Empty.describe(), "None");
    assert_eq!(ResponseBody::Bytes(Bytes::new()).describe(), "Bytes(0 bytes)");
    assert_eq!(ResponseBody::Bytes(Bytes::from_static(b"abc")).describe(), "Bytes(3 bytes)");
    assert_eq!(ResponseBody::Bytes(Bytes::from(vec![7u8; 1234])).describe(), "Bytes(1234 bytes)");
    let (_tx, rx) = tokio::sync::mpsc::channel(1);
    assert_eq!(ResponseBody::Stream(rx).describe(), "Stream(...)");
}

#[test]
fn response_for_transport_keeps_a_valid_status_and_the_header_order() {
    let response = HttpResponse {
        status: 404,
        headers: vec![
            ("b".to_string(), "2".to_string()),
            ("a".to_string(), "1".to_string()),
            ("b".to_string(), "3".to_string()),
        ],
        body: ResponseBody::Bytes(Bytes::from_static(b"missing")),
    };
    let out = response.for_transport();
    assert_eq!(out.status, 404);
    assert_eq!(
        out.headers,
        vec![
            ("b".to_string(), "2".to_string()),
            ("a".to_string(), "1".to_string()),
            ("b".to_string(), "3".to_string()),
        ]
    );
    assert_eq!(out.body.collect().finish(), Some(Bytes::from_static(b"missing")));
}

#[test]
fn response_for_transport_replaces_an_impossible_status() {
    for status in [0u16, 42, 99, 1000, 65535] {
        let out = HttpResponse { status, headers: Vec::new(), body: ResponseBody::Empty }
            .for_transport();
        assert_eq!(out.status, 500);
    }
    for status in [100u16, 200, 599, 999] {
        let out = HttpResponse { status, headers: Vec::new(), body: ResponseBody::Empty }
            .for_transport();
        assert_eq!(out.status, status);
    }
}

#[test]
fn response_for_transport_drops_an_empty_buffer() {
    let out = HttpResponse { status: 204, headers: Vec::new(), body: ResponseBody::Bytes(Bytes::new()) }
        .for_transport();
    assert!(out.body.is_none());
    let (_tx, rx) = tokio::sync::mpsc::channel(1);
    let out = HttpResponse { status: 200, headers: Vec::new(), body: ResponseBody::Stream(rx) }
        .for_transport();
    assert!(out.body.is_stream());
}

#[test]
fn response_from_termination() {
    let response = HttpResponse::from_termination(&TerminationReason::WallClockTimeout);
    assert_eq!(response.status, 504);
    assert!(response.headers.is_empty());
    assert_eq!(
        response.body.collect().finish(),
        Some(Bytes::from_static(b"Worker exceeded wall-clock time limit"))
    );
    let response =
        HttpResponse::from_termination(&TerminationReason::InitializationError("no entry".to_string()));
    assert_eq!(response.status, 500);
    assert_eq!(
        response.body.collect().finish(),
        Some(Bytes::from_static(b"Worker failed to initialize"))
    );
    let response =
        HttpResponse::from_termination(&TerminationReason::Exception("TypeError: \u{e9}".to_string()));
    assert_eq!(response.status, 500);
    assert_eq!(
        response.body.collect().finish(),
        Some(Bytes::from("TypeError: \u{e9}".as_bytes().to_vec()))
    );
}
