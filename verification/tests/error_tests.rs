use charlotte::error::{HttpError, RequestContextError, ResponseContextError, ServerError};
use charlotte::headers::{Header, HttpHeaders};
use charlotte::message::{Body, Method};

fn headers() -> HttpHeaders {
    HttpHeaders::new(vec![Header::new("Host".to_string(), "a".to_string())])
}

#[test]
fn server_error_texts() {
    let e = ServerError::BindAddress { addr: "x:1".to_string(), source: "busy".to_string() };
    assert_eq!(e.to_text(), "Failed to listen on address: x:1, error: busy");
    let e = ServerError::TargetConnection { message: "m".to_string(), source: "s".to_string() };
    assert_eq!(e.to_text(), "Failed to establish connection to target server: m, error: s");
    let e = ServerError::Fetch { message: "m".to_string(), source: "s".to_string() };
    assert_eq!(e.to_text(), "Failed to fetch from target server: m, error: s");
    let e = ServerError::Channel { message: "m".to_string(), source: "s".to_string() };
    assert_eq!(e.to_text(), "Failed to send message: m, error: s");
}

#[test]
fn request_context_is_written_as_debug_writes_it() {
    let context = RequestContextError {
        method: Method::Post,
        uri: "/a\"b".to_string(),
        version: "HTTP/1.1".to_string(),
        headers: headers(),
        extensions: "Extensions".to_string(),
        message: "bad".to_string(),
    };
    let expected = "RequestContextError { method: Post, uri: \"/a\\\"b\", version: \"HTTP/1.1\", headers: HeaderMap({\"host\": \"a\"}), extensions: \"Extensions\", message: \"bad\" }";
    assert_eq!(context.debug_text(), expected);
    let e = ServerError::FixRelativeUri(Box::new(context));
    assert_eq!(e.to_text(), format!("Failed to fix relative URI: {}", expected));
}

#[test]
fn body_read_errors() {
    let context = ResponseContextError {
        status: 502,
        version: "HTTP/1.1".to_string(),
        headers: HttpHeaders::new(vec![]),
        extensions: "Extensions".to_string(),
        message: "cut".to_string(),
    };
    let e = ServerError::Http(HttpError::ResponseBodyRead(Box::new(context)));
    assert_eq!(
        e.to_text(),
        "Failed to read or process HTTP message: Failed to read response body: ResponseContextError { status: 502, version: \"HTTP/1.1\", headers: HeaderMap({}), extensions: \"Extensions\", message: \"cut\" }"
    );
}

#[test]
fn body_text_replaces_invalid_utf8() {
    assert_eq!(Body::new(b"a\xffb".to_vec()).text(), "a\u{FFFD}b");
    assert_eq!(Body::new("h\u{e9}".as_bytes().to_vec()).text(), "h\u{e9}");
}

#[test]
fn header_map_debug_text_escapes_values() {
    let h = HttpHeaders::new(vec![
        Header::new("X-A".to_string(), "a\"\u{e9}\tb".to_string()),
        Header::new("x-b".to_string(), "".to_string()),
    ]);
    let expected = "HeaderMap({\"x-a\": \"a\\\"\\xc3\\xa9\tb\", \"x-b\": \"\"})";
    assert_eq!(h.debug_text(), expected);
    assert_eq!(h.debug_text(), format!("HeaderMap({:?})", h.duplicate().into_hyper()));
}
