use charlotte::error::ServerError;
use charlotte::headers::{Header, HttpHeaders};
use charlotte::message::{Body, Method, Request, RequestEntry, RequestId, Response, Url};
use charlotte::navigation::{Action, ActionOutcome, NavigationPolicy, Navigator, ScreenId};
use charlotte::server::{forward_target, tunnel_domain, RequestIdCounter};
use charlotte::store::RequestStore;
use charlotte::target::{clean_request_headers, clean_response_headers, get_target_addr, replace_host_header};
use charlotte::text::{decimal_string, parse_u16};
use charlotte::uri::UriParts;

fn entry(id: usize, path: &str) -> RequestEntry {
    RequestEntry {
        request_id: RequestId::new(id),
        request: Request {
            method: Method::Get,
            url: Url::from_text(&format!("http://example.com{}", path)),
            headers: HttpHeaders::new(vec![]),
            body: Body::new(vec![]),
        },
        response: None,
    }
}

#[test]
fn store_keeps_identifier_order_and_reads_back_writes() {
    let mut store = RequestStore::new();
    store.insert(entry(3, "/c"));
    store.insert(entry(1, "/a"));
    store.insert(entry(2, "/b"));
    store.insert(entry(1, "/again"));
    assert_eq!(store.len(), 3);
    let ids: Vec<usize> = store.entries().iter().map(|e| e.request_id.0).collect();
    assert_eq!(ids, vec![1, 2, 3]);
    assert_eq!(store.nth(0).unwrap().request.url.path, "/again");
    assert_eq!(store.nth(2).unwrap().request.url.path, "/c");
    assert!(store.nth(3).is_none());
}

#[test]
fn store_records_responses() {
    let mut store = RequestStore::new();
    store.insert(entry(5, "/x"));
    let response = Response {
        status: 204,
        headers: HttpHeaders::new(vec![]),
        body: Body::new(vec![]),
    };
    let updated = store.set_response(RequestId::new(5), response).unwrap();
    assert_eq!(updated.response.unwrap().status, 204);
    assert_eq!(store.nth(0).unwrap().response.unwrap().status, 204);
    let missing = Response {
        status: 500,
        headers: HttpHeaders::new(vec![]),
        body: Body::new(vec![]),
    };
    assert!(store.set_response(RequestId::new(6), missing).is_none());
}

#[test]
fn navigator_pop_to_and_push_pop() {
    let mut nav = Navigator::new();
    assert_eq!(nav.current(), None);
    nav.push(ScreenId::Waiting);
    nav.push(ScreenId::Requests);
    nav.pop();
    assert_eq!(nav.current(), Some(ScreenId::Waiting));
    nav.push(ScreenId::Requests);
    nav.pop_to(ScreenId::Waiting);
    assert_eq!(nav.current(), Some(ScreenId::Waiting));
    nav.pop_to(ScreenId::Waiting);
    assert_eq!(nav.current(), Some(ScreenId::Waiting));
    nav.show_screen(ScreenId::Requests);
    assert_eq!(nav.current(), Some(ScreenId::Requests));
    nav.change_screen(ScreenId::Waiting, NavigationPolicy::Clear);
    assert_eq!(nav.current(), Some(ScreenId::Waiting));
    nav.change_screen(ScreenId::Waiting, NavigationPolicy::Pop);
    assert!(!nav.has_screen());
    nav.pop();
    assert!(!nav.has_screen());
}

#[test]
fn port_text_round_trip() {
    for n in [0u16, 7, 80, 443, 8080, 65535] {
        assert_eq!(parse_u16(&decimal_string(n as u64)), Some(n));
    }
    assert_eq!(parse_u16("+80"), Some(80));
    assert_eq!(parse_u16("65536"), None);
    assert_eq!(parse_u16(""), None);
    assert_eq!(parse_u16("8a"), None);
}

#[test]
fn insert_then_get() {
    let mut headers = HttpHeaders::new(vec![Header::new("Host".to_string(), "a".to_string())]);
    assert!(headers.insert("host", "b"));
    assert_eq!(headers.get("HOST"), Some("b".to_string()));
    assert_eq!(headers.get_all("host"), vec!["b".to_string()]);
    assert!(headers.append("x-a", "1"));
    assert!(headers.append("x-a", "2"));
    assert_eq!(headers.get_all("x-a"), vec!["1".to_string(), "2".to_string()]);
    assert!(!headers.insert("bad name", "1"));
}

#[test]
fn cleaned_headers_keep_no_hop_by_hop_header() {
    let hop = vec![
        Header::new("Connection".to_string(), "close".to_string()),
        Header::new("Proxy-Connection".to_string(), "keep-alive".to_string()),
        Header::new("Keep-Alive".to_string(), "5".to_string()),
        Header::new("Transfer-Encoding".to_string(), "chunked".to_string()),
        Header::new("Accept".to_string(), "*/*".to_string()),
    ];
    let mut request = HttpHeaders::new(hop.clone());
    clean_request_headers(&mut request);
    assert!(!request.contains("connection"));
    assert!(!request.contains("proxy-connection"));
    assert!(!request.contains("keep-alive"));
    assert!(!request.contains("transfer-encoding"));
    assert!(request.contains("accept"));

    let mut response = HttpHeaders::new(hop);
    clean_response_headers(&mut response);
    assert!(!response.contains("connection"));
    assert!(!response.contains("transfer-encoding"));
    assert!(response.contains("keep-alive"));
}

#[test]
fn replaced_host_header_names_the_target() {
    let uri = UriParts::parse("/index.html").unwrap();
    let mut headers = HttpHeaders::new(vec![Header::new("Host".to_string(), "old:1".to_string())]);
    replace_host_header(&mut headers, "example.com:8443").unwrap();
    assert_eq!(get_target_addr(&uri, &headers).unwrap(), "example.com:8443");
}

#[test]
fn invalid_host_value_is_refused() {
    let mut headers = HttpHeaders::new(vec![]);
    match replace_host_header(&mut headers, "bad\nhost") {
        Err(ServerError::Fetch { message, source }) => {
            assert_eq!(message, "Could not parse the host header");
            assert_eq!(source, "failed to parse header value");
        }
        other => panic!("unexpected {:?}", other),
    }
}

#[test]
fn target_address_from_uri_or_host_header() {
    let uri = UriParts::parse("https://example.com/x").unwrap();
    let headers = HttpHeaders::new(vec![]);
    assert_eq!(get_target_addr(&uri, &headers).unwrap(), "example.com:443");
    let target = forward_target(&uri, &headers).unwrap();
    assert!(target.use_tls);
    assert_eq!(target.host, "example.com");
    assert_eq!(target.addr, "example.com:443");

    let relative = UriParts::parse("/x").unwrap();
    let with_host = HttpHeaders::new(vec![Header::new("Host".to_string(), "h:81".to_string())]);
    assert_eq!(get_target_addr(&relative, &with_host).unwrap(), "h:81");
    let bad_port = HttpHeaders::new(vec![Header::new("Host".to_string(), "h:xx".to_string())]);
    assert_eq!(get_target_addr(&relative, &bad_port).unwrap(), "h:80");
}

#[test]
fn missing_target_is_an_error() {
    let relative = UriParts::parse("/x").unwrap();
    let headers = HttpHeaders::new(vec![]);
    match get_target_addr(&relative, &headers) {
        Err(e) => assert_eq!(
            e.to_text(),
            "Missing host information in URI or Host header (uri: /x, headers: HeaderMap({}))"
        ),
        Ok(a) => panic!("unexpected {}", a),
    }
}

#[test]
fn tunnel_domain_is_the_host() {
    assert_eq!(tunnel_domain("example.com:443"), "example.com");
    assert_eq!(tunnel_domain("example.com"), "example.com");
}

#[test]
fn request_ids_count_from_one() {
    let mut counter = RequestIdCounter::new();
    assert_eq!(counter.peek(), RequestId::new(1));
    assert_eq!(counter.next_id(), RequestId::new(1));
    assert_eq!(counter.next_id(), RequestId::new(2));
    assert_eq!(counter.peek(), RequestId::new(3));
}

#[test]
fn store_order_is_an_invariant() {
    let mut store = RequestStore::new();
    store.insert(entry(9, "/z"));
    store.insert(entry(4, "/y"));
    store.check_ordered();
    assert_eq!(store.nth(0).unwrap().request_id, RequestId::new(4));
}

#[test]
fn headers_as_text_pairs() {
    let headers = HttpHeaders::new(vec![
        Header::new("Accept".to_string(), "*/*".to_string()),
        Header::new("X-Bin".to_string(), "caf\u{e9}".to_string()),
    ]);
    assert_eq!(
        charlotte::headers::headers_to_vec(&headers),
        vec![
            ("accept".to_string(), "*/*".to_string()),
            ("x-bin".to_string(), "<invalid UTF-8 in header value>".to_string()),
        ]
    );
}

#[test]
fn unknown_methods_read_as_get() {
    assert_eq!(Method::default_method(), Method::Get);
    assert_eq!(Method::from_name("PATCH"), Method::Patch);
    assert_eq!(Method::from_name("BREW"), Method::Get);
    assert_eq!(Method::Options.name(), "OPTIONS");
}

#[test]
fn navigator_handles_actions() {
    let mut nav = Navigator::new();
    let r = nav.handle_action(Action::<u8>::ShowScreen(ScreenId::Waiting, NavigationPolicy::Push));
    assert_eq!(r, ActionOutcome::Continue);
    let r = nav.handle_action(Action::ForwardToScreen(ScreenId::Requests, 7u8, NavigationPolicy::PopTo));
    assert_eq!(r, ActionOutcome::Forward(7));
    assert_eq!(nav.current(), Some(ScreenId::Requests));
    assert_eq!(nav.handle_action(Action::<u8>::GoBack), ActionOutcome::Continue);
    assert_eq!(nav.current(), Some(ScreenId::Waiting));
    assert_eq!(nav.handle_action(Action::<u8>::Exit), ActionOutcome::Exit);
    assert_eq!(nav.current(), Some(ScreenId::Waiting));
    assert_eq!(
        nav.handle_action(Action::<u8>::ExitWithError("boom".to_string())),
        ActionOutcome::ExitWithError("boom".to_string())
    );
    nav.handle_action(Action::<u8>::ShowScreen(ScreenId::Requests, NavigationPolicy::Clear));
    assert_eq!(nav.current(), Some(ScreenId::Requests));
    assert!(nav.has_screen());
}

#[test]
fn only_the_newest_log_files_stay() {
    let times = vec![Some(5), None, Some(3), Some(5), Some(9)];
    assert_eq!(
        charlotte::logs::files_to_remove(&times, 2),
        vec![true, true, true, false, false]
    );
    assert_eq!(charlotte::logs::files_to_remove(&times, 7), vec![false; 5]);
    assert_eq!(charlotte::logs::files_to_remove(&times, 0), vec![true; 5]);
}

#[test]
fn many_values_under_one_name_make_one_group() {
    let headers: Vec<Header> = (0..7000)
        .map(|i| Header::new("X-Many".to_string(), i.to_string()))
        .collect();
    let h = HttpHeaders::new(headers);
    assert_eq!(h.group_count(), 1);
    assert_eq!(h.get_all("x-many").len(), 7000);
}

#[test]
fn request_ids_compare_and_read_as_their_numbers() {
    assert_eq!(RequestId::new(7), RequestId::new(7));
    assert_ne!(RequestId::new(7), RequestId::new(8));
    assert!(RequestId::new(2) < RequestId::new(10));
    assert!(RequestId::new(10) > RequestId::new(9));
    assert_eq!(RequestId::new(42).to_text(), 42.to_string());
}
