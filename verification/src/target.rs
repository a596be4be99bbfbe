//! Where the proxy sends a request: the host and port of its target, the
//! rewriting of relative request targets, and the headers it drops or
//! replaces on the way.
use vstd::prelude::*;
use crate::error::{RequestContextError, ServerError};
use crate::message::{method_of_name, Method};
use crate::headers::{
    ascii_chars, ascii_string, groups_insert, groups_remove, is_visible_ascii, lookup, normalize_name,
    str_bytes, unique_names, valid_header_value, values_of, visible_ascii, HeaderGroup, HttpHeaders,
    MAX_HEADER_GROUPS,
};
use crate::text::{find_first, find_last, first_index_of, last_index_of, lemma_first_index_of, lemma_last_index_of, chars_of, decimal, is_digit, lemma_decimal_digits, lemma_parse_decimal, decimal_string, parse_u16, parse_u16_spec, push_str, string_of_chars};
use crate::uri::{opt_view, parsed_uri, uri_text, UriParts, UriView};

verus! {

/// The text of `s` before its last `:`, or all of it.
pub open spec fn before_last_colon(s: Seq<char>) -> Seq<char> {
    let i = last_index_of(s, ':');
    if i < 0 {
        s
    } else {
        s.subrange(0, i)
    }
}

/// The text of `s` after its last `:`, if it has one.
pub open spec fn after_last_colon(s: Seq<char>) -> Option<Seq<char>> {
    let i = last_index_of(s, ':');
    if i < 0 {
        None
    } else {
        Some(s.subrange(i + 1, s.len() as int))
    }
}

/// The text of `s` before its first `:`, or all of it.
pub open spec fn before_first_colon(s: Seq<char>) -> Seq<char> {
    let i = first_index_of(s, ':');
    if i < 0 {
        s
    } else {
        s.subrange(0, i)
    }
}

/// `host`
pub open spec fn host_name() -> Seq<u8> {
    seq![104u8, 111, 115, 116]
}

/// `connection`
pub open spec fn connection_name() -> Seq<u8> {
    seq![99u8, 111, 110, 110, 101, 99, 116, 105, 111, 110]
}

/// `proxy-connection`
pub open spec fn proxy_connection_name() -> Seq<u8> {
    seq![112u8, 114, 111, 120, 121, 45, 99, 111, 110, 110, 101, 99, 116, 105, 111, 110]
}

/// `keep-alive`
pub open spec fn keep_alive_name() -> Seq<u8> {
    seq![107u8, 101, 101, 112, 45, 97, 108, 105, 118, 101]
}

/// `transfer-encoding`
pub open spec fn transfer_encoding_name() -> Seq<u8> {
    seq![116u8, 114, 97, 110, 115, 102, 101, 114, 45, 101, 110, 99, 111, 100, 105, 110, 103]
}

fn host_key() -> (r: Vec<u8>)
    ensures
        r@ == host_name(),
{
    vec![104u8, 111, 115, 116]
}

/// The first `Host` value, whatever its bytes.
pub open spec fn host_value(g: Seq<HeaderGroup>) -> Option<Seq<u8>> {
    let v = values_of(g, host_name());
    if v.len() > 0 {
        Some(v[0])
    } else {
        None
    }
}

/// The first `Host` value as text, when it is visible ASCII.
pub open spec fn host_text(g: Seq<HeaderGroup>) -> Option<Seq<char>> {
    match host_value(g) {
        Some(v) => if visible_ascii(v) {
            Some(ascii_chars(v))
        } else {
            None
        },
        None => None,
    }
}

pub open spec fn https_scheme() -> Seq<char> {
    seq!['h', 't', 't', 'p', 's']
}

pub open spec fn http_scheme() -> Seq<char> {
    seq!['h', 't', 't', 'p']
}

/// 443 for an `https` URI, 80 otherwise.
pub open spec fn default_port(u: UriView) -> u16 {
    if u.0 == Some(https_scheme()) {
        443
    } else {
        80
    }
}

/// The host a request goes to: the URI's host, else the `Host` header
/// without its port.
pub open spec fn target_host(u: UriView, g: Seq<HeaderGroup>) -> Option<Seq<char>> {
    match u.2 {
        Some(h) => Some(h),
        None => match host_text(g) {
            Some(t) => Some(before_last_colon(t)),
            None => None,
        },
    }
}

/// The port a request goes to: the URI's port when the URI names a host,
/// else the port of the `Host` header; the scheme's default port when none
/// is given or the given one is not a number.
pub open spec fn target_port(u: UriView, g: Seq<HeaderGroup>) -> Option<u16> {
    match u.2 {
        Some(_) => Some(
            match u.3 {
                Some(p) => p,
                None => default_port(u),
            },
        ),
        None => match host_text(g) {
            Some(t) => Some(
                match after_last_colon(t) {
                    Some(p) => match parse_u16_spec(p) {
                        Some(n) => n,
                        None => default_port(u),
                    },
                    None => default_port(u),
                },
            ),
            None => None,
        },
    }
}

/// `host:port`.
pub open spec fn addr_text(host: Seq<char>, port: u16) -> Seq<char> {
    host + seq![':'] + decimal(port as nat)
}

/// The address a request goes to, `host:port`.
pub open spec fn target_addr(u: UriView, g: Seq<HeaderGroup>) -> Option<Seq<char>> {
    match (target_host(u, g), target_port(u, g)) {
        (Some(h), Some(p)) => Some(addr_text(h, p)),
        _ => None,
    }
}

/// The error a request without any host information gets.
pub open spec fn is_missing_target(
    e: ServerError,
    what: Seq<char>,
    uri: UriView,
    g: Seq<HeaderGroup>,
) -> bool {
    e matches ServerError::TargetAddress { message, uri: u, headers: h } && message@ == what
        && u@ == uri_text(uri) && h.groups() == g
}

/// The first `Host` value as text, when it is visible ASCII.
pub fn host_header_text(headers: &HttpHeaders) -> (r: Option<String>)
    ensures
        opt_view(r) == host_text(headers.groups()),
{
    let key = host_key();
    let vals = headers.values(key.as_slice());
    if vals.len() == 0 {
        return None;
    }
    assert(vals@.map_values(|v: Vec<u8>| v@)[0] == vals@[0]@);
    if is_visible_ascii(vals[0].as_slice()) {
        Some(ascii_string(vals[0].as_slice()))
    } else {
        None
    }
}

/// Splits `s` at its last `:`.
pub fn split_last_colon(s: &str) -> (r: (String, Option<String>))
    ensures
        r.0@ == before_last_colon(s@),
        opt_view(r.1) == after_last_colon(s@),
{
    let v = chars_of(s);
    proof {
        lemma_last_index_of(v@, ':');
    }
    match find_last(&v, ':') {
        Some(i) => (string_of_chars(&v, 0, i), Some(string_of_chars(&v, i + 1, v.len()))),
        None => {
            assert(v@.subrange(0, v@.len() as int) == v@);
            (string_of_chars(&v, 0, v.len()), None)
        },
    }
}

/// The text of `s` before its first `:` (the domain of a `host:port`
/// address).
pub fn before_first_colon_text(s: &str) -> (r: String)
    ensures
        r@ == before_first_colon(s@),
{
    let v = chars_of(s);
    proof {
        lemma_first_index_of(v@, ':');
    }
    match find_first(&v, ':') {
        Some(i) => string_of_chars(&v, 0, i),
        None => {
            assert(v@.subrange(0, v@.len() as int) == v@);
            string_of_chars(&v, 0, v.len())
        },
    }
}

fn is_https(uri: &UriParts) -> (r: bool)
    ensures
        r == (uri@.0 == Some(https_scheme())),
{
    match &uri.scheme {
        Some(s) => {
            let v = chars_of(s.as_str());
            let r = v.len() == 5 && v[0] == 'h' && v[1] == 't' && v[2] == 't' && v[3] == 'p'
                && v[4] == 's';
            assert(r ==> v@ =~= https_scheme());
            r
        },
        None => false,
    }
}

fn default_port_of(uri: &UriParts) -> (r: u16)
    ensures
        r == default_port(uri@),
{
    if is_https(uri) {
        443
    } else {
        80
    }
}

/// The host a request goes to.
pub fn get_host(uri: &UriParts, headers: &HttpHeaders) -> (r: Result<String, ServerError>)
    ensures
        match r {
            Ok(h) => target_host(uri@, headers.groups()) == Some(h@),
            Err(e) => target_host(uri@, headers.groups()) is None && is_missing_target(
                e,
                "Missing host information in URI or Host header"@,
                uri@,
                headers.groups(),
            ),
        },
{
    if let Some(h) = &uri.host {
        return Ok(h.clone());
    }
    match host_header_text(headers) {
        Some(t) => {
            let (host, _) = split_last_colon(t.as_str());
            Ok(host)
        },
        None => Err(
            ServerError::TargetAddress {
                message: "Missing host information in URI or Host header".to_owned(),
                uri: uri.to_text(),
                headers: headers.duplicate(),
            },
        ),
    }
}

/// The port a request goes to, in decimal.
pub fn get_port(uri: &UriParts, headers: &HttpHeaders) -> (r: Result<String, ServerError>)
    ensures
        match r {
            Ok(p) => target_port(uri@, headers.groups()) matches Some(n) && p@ == decimal(
                n as nat,
            ),
            Err(e) => target_port(uri@, headers.groups()) is None && is_missing_target(
                e,
                "Missing port information in URI or Host header"@,
                uri@,
                headers.groups(),
            ),
        },
{
    let default_port = default_port_of(uri);
    if uri.host.is_some() {
        let port = match uri.port {
            Some(p) => p,
            None => default_port,
        };
        return Ok(decimal_string(port as u64));
    }
    match host_header_text(headers) {
        Some(t) => {
            let (_, port_text) = split_last_colon(t.as_str());
            let port = match port_text {
                Some(p) => match parse_u16(p.as_str()) {
                    Some(n) => n,
                    None => default_port,
                },
                None => default_port,
            };
            Ok(decimal_string(port as u64))
        },
        None => Err(
            ServerError::TargetAddress {
                message: "Missing port information in URI or Host header".to_owned(),
                uri: uri.to_text(),
                headers: headers.duplicate(),
            },
        ),
    }
}

/// The address a request goes to, `host:port`.
pub fn get_target_addr(uri: &UriParts, headers: &HttpHeaders) -> (r: Result<String, ServerError>)
    ensures
        match r {
            Ok(a) => target_addr(uri@, headers.groups()) == Some(a@),
            Err(e) => target_addr(uri@, headers.groups()) is None && is_missing_target(
                e,
                "Missing host information in URI or Host header"@,
                uri@,
                headers.groups(),
            ),
        },
{
    let host = match get_host(uri, headers) {
        Ok(h) => h,
        Err(e) => return Err(e),
    };
    let port = match get_port(uri, headers) {
        Ok(p) => p,
        Err(e) => return Err(e),
    };
    let mut addr = host;
    addr.push(':');
    push_str(&mut addr, port.as_str());
    Ok(addr)
}


/// The head of a request the proxy handles: its method token, target, the
/// protocol version and extensions as `Debug` writes them, and its headers.
pub struct RequestHead {
    pub method: String,
    pub uri: UriParts,
    pub version: String,
    pub headers: HttpHeaders,
    pub extensions: String,
}

/// `scheme://host` followed by a relative target.
pub open spec fn absolute_target(is_tls: bool, host: Seq<char>, u: UriView) -> Seq<char> {
    (if is_tls {
        https_scheme()
    } else {
        http_scheme()
    }) + seq![':', '/', '/'] + host + uri_text(u)
}

/// The context recorded when rewriting the target of `head` fails.
pub open spec fn is_context_of(ctx: RequestContextError, head: &RequestHead, message: Seq<char>) -> bool {
    &&& ctx.method == method_of_name(head.method@)
    &&& ctx.uri@ == uri_text(head.uri@)
    &&& ctx.version@ == head.version@
    &&& ctx.headers.groups() == head.headers.groups()
    &&& ctx.extensions@ == head.extensions@
    &&& ctx.message@ == message
}

impl RequestHead {
    fn context(&self, message: String) -> (r: RequestContextError)
        ensures
            is_context_of(r, self, message@),
    {
        RequestContextError {
            method: Method::from_name(self.method.as_str()),
            uri: self.uri.to_text(),
            version: self.version.clone(),
            headers: self.headers.duplicate(),
            extensions: self.extensions.clone(),
            message,
        }
    }
}

/// Makes a relative request target absolute: a target without a scheme,
/// sent with a `Host` header, becomes `http://host/...` (`https` inside a
/// TLS tunnel). A `Host` value that is not visible ASCII, or a rewritten
/// target that does not parse, is an error and leaves the target as it was.
pub fn fix_relative_uri(head: &mut RequestHead, is_tls: bool) -> (r: Result<(), ServerError>)
    ensures
        final(head).method == old(head).method,
        final(head).version == old(head).version,
        final(head).extensions == old(head).extensions,
        final(head).headers.groups() == old(head).headers.groups(),
        ({
            let u = old(head).uri@;
            match (u.0, host_value(old(head).headers.groups())) {
                (None, Some(v)) => if !visible_ascii(v) {
                    &&& final(head).uri@ == u
                    &&& r matches Err(ServerError::FixRelativeUri(ctx)) && is_context_of(
                        *ctx,
                        old(head),
                        "Invalid HOST header format (not UTF-8)"@,
                    )
                } else {
                    match parsed_uri(absolute_target(is_tls, ascii_chars(v), u)) {
                        Ok(p) => r is Ok && final(head).uri@ == p,
                        Err(e) => {
                            &&& final(head).uri@ == u
                            &&& r matches Err(ServerError::FixRelativeUri(ctx)) && is_context_of(
                                *ctx,
                                old(head),
                                "Failed to parse fixed URI: "@ + e,
                            )
                        },
                    }
                },
                _ => r is Ok && final(head).uri@ == u,
            }
        }),
{
    if head.uri.scheme.is_some() {
        return Ok(());
    }
    let key = host_key();
    let vals = head.headers.values(key.as_slice());
    if vals.len() == 0 {
        return Ok(());
    }
    assert(vals@.map_values(|v: Vec<u8>| v@)[0] == vals@[0]@);
    if !is_visible_ascii(vals[0].as_slice()) {
        let ctx = head.context("Invalid HOST header format (not UTF-8)".to_owned());
        return Err(ServerError::FixRelativeUri(Box::new(ctx)));
    }
    let host = ascii_string(vals[0].as_slice());
    let mut text = if is_tls {
        "https".to_owned()
    } else {
        "http".to_owned()
    };
    proof {
        reveal_strlit("https");
        reveal_strlit("http");
        assert("https"@ =~= https_scheme());
        assert("http"@ =~= http_scheme());
    }
    text.push(':');
    text.push('/');
    text.push('/');
    push_str(&mut text, host.as_str());
    let rest = head.uri.to_text();
    push_str(&mut text, rest.as_str());
    assert(text@ =~= absolute_target(is_tls, ascii_chars(vals@[0]@), head.uri@));
    match UriParts::parse(text.as_str()) {
        Ok(p) => {
            head.uri = p;
            Ok(())
        },
        Err(e) => {
            let mut message = "Failed to parse fixed URI: ".to_owned();
            push_str(&mut message, e.as_str());
            let ctx = head.context(message);
            Err(ServerError::FixRelativeUri(Box::new(ctx)))
        },
    }
}

/// The `Host` value the proxy sends: every `Host` value removed, then `addr`
/// inserted.
pub open spec fn host_replaced(g: Seq<HeaderGroup>, addr: Seq<u8>) -> Seq<HeaderGroup> {
    groups_insert(groups_remove(g, host_name()), host_name(), addr)
}

/// Replaces the `Host` header by the target address. An address that is not
/// a valid header value leaves no `Host` header and is an error.
pub fn replace_host_header(headers: &mut HttpHeaders, addr: &str) -> (r: Result<(), ServerError>)
    requires
        old(headers).groups().len() < MAX_HEADER_GROUPS,
    ensures
        valid_header_value(str_bytes(addr@)) ==> r is Ok && final(headers).groups() == host_replaced(
            old(headers).groups(),
            str_bytes(addr@),
        ),
        !valid_header_value(str_bytes(addr@)) ==> {
            &&& final(headers).groups() == groups_remove(old(headers).groups(), host_name())
            &&& r matches Err(ServerError::Fetch { message, source }) && message@
                == "Could not parse the host header"@ && source@ == "failed to parse header value"@
        },
{
    headers.check_names_unique();
    let key = host_key();
    headers.remove_name(key.as_slice());
    proof {
        crate::headers::lemma_unique_preserved(old(headers).groups(), Seq::empty(), Seq::empty(), host_name());
        crate::headers::lemma_find_group(old(headers).groups(), normalize_name(host_name()));
        assert(groups_remove(old(headers).groups(), host_name()).len() <= old(headers).groups().len());
    }
    if !headers.insert_bytes(key.as_slice(), addr.as_bytes()) {
        return Err(
            ServerError::Fetch {
                message: "Could not parse the host header".to_owned(),
                source: "failed to parse header value".to_owned(),
            },
        );
    }
    proof {
        assert(normalize_name(host_name()) =~= host_name());
    }
    Ok(())
}

/// The headers a request keeps: `connection`, `proxy-connection`,
/// `keep-alive` and `transfer-encoding` removed, in that order.
pub open spec fn request_headers_cleaned(g: Seq<HeaderGroup>) -> Seq<HeaderGroup> {
    groups_remove(
        groups_remove(
            groups_remove(groups_remove(g, connection_name()), proxy_connection_name()),
            keep_alive_name(),
        ),
        transfer_encoding_name(),
    )
}

/// The headers a response keeps: `connection` and `transfer-encoding`
/// removed, in that order.
pub open spec fn response_headers_cleaned(g: Seq<HeaderGroup>) -> Seq<HeaderGroup> {
    groups_remove(groups_remove(g, connection_name()), transfer_encoding_name())
}

/// Drops the hop-by-hop headers of a request.
pub fn clean_request_headers(headers: &mut HttpHeaders)
    ensures
        final(headers).groups() == request_headers_cleaned(old(headers).groups()),
{
    let connection: Vec<u8> = vec![99u8, 111, 110, 110, 101, 99, 116, 105, 111, 110];
    let proxy_connection: Vec<u8> = vec![
        112u8, 114, 111, 120, 121, 45, 99, 111, 110, 110, 101, 99, 116, 105, 111, 110,
    ];
    let keep_alive: Vec<u8> = vec![107u8, 101, 101, 112, 45, 97, 108, 105, 118, 101];
    let transfer_encoding: Vec<u8> = vec![
        116u8, 114, 97, 110, 115, 102, 101, 114, 45, 101, 110, 99, 111, 100, 105, 110, 103,
    ];
    headers.remove_name(connection.as_slice());
    headers.remove_name(proxy_connection.as_slice());
    headers.remove_name(keep_alive.as_slice());
    headers.remove_name(transfer_encoding.as_slice());
}

/// Drops the hop-by-hop headers of a response.
pub fn clean_response_headers(headers: &mut HttpHeaders)
    ensures
        final(headers).groups() == response_headers_cleaned(old(headers).groups()),
{
    let connection: Vec<u8> = vec![99u8, 111, 110, 110, 101, 99, 116, 105, 111, 110];
    let transfer_encoding: Vec<u8> = vec![
        116u8, 114, 97, 110, 115, 102, 101, 114, 45, 101, 110, 99, 111, 100, 105, 110, 103,
    ];
    headers.remove_name(connection.as_slice());
    headers.remove_name(transfer_encoding.as_slice());
}

/// Whether requests to `uri` go over TLS.
pub fn uses_tls(uri: &UriParts) -> (r: bool)
    ensures
        r == (uri@.0 == Some(https_scheme())),
{
    is_https(uri)
}


/// Text made of visible ASCII characters (space to `~`).
pub open spec fn visible_text(s: Seq<char>) -> bool {
    forall|i: int| 0 <= i < s.len() ==> ' ' <= #[trigger] s[i] && s[i] <= '~'
}

proof fn lemma_visible_text_bytes(a: Seq<char>)
    requires
        visible_text(a),
    ensures
        visible_ascii(str_bytes(a)),
        ascii_chars(str_bytes(a)) == a,
{
    assert(vstd::utf8::is_ascii_chars(a));
    vstd::utf8::is_ascii_chars_encode_utf8(a);
    let b = str_bytes(a);
    assert forall|i: int| 0 <= i < b.len() implies crate::headers::visible_byte(#[trigger] b[i]) by {
        assert(a[i] as u8 == b[i]);
    }
    assert forall|i: int| 0 <= i < a.len() implies #[trigger] ascii_chars(b)[i] == a[i] by {
        assert(a[i] as u8 == b[i]);
        vstd::utf8::char_u32_cast(a[i], a[i] as u32);
    }
    assert(ascii_chars(b) =~= a);
}

/// Lookups by a key that finds nothing still find nothing after a removal.
pub proof fn lemma_remove_keeps_absent(g: Seq<HeaderGroup>, k: Seq<u8>, k2: Seq<u8>)
    requires
        lookup(g, k) == -1,
    ensures
        lookup(groups_remove(g, k2), k) == -1,
{
    if crate::headers::valid_header_name(k) {
        let n = normalize_name(k);
        crate::headers::lemma_find_group(g, n);
        let r = groups_remove(g, k2);
        crate::headers::lemma_find_group(r, n);
        if crate::headers::valid_header_name(k2) {
            crate::headers::lemma_find_group(g, normalize_name(k2));
        }
        if crate::headers::find_group(r, n) >= 0 {
            let t = crate::headers::find_group(r, n);
            let i = lookup(g, k2);
            if i >= 0 && t == i {
                assert(r[t] == g[g.len() - 1]);
            } else {
                assert(r[t] == g[t]);
            }
        }
    }
}

/// After a request's hop-by-hop headers are dropped, none of
/// `connection`, `proxy-connection`, `keep-alive` and `transfer-encoding`
/// is left.
pub proof fn law_cleaned_request_keeps_no_hop_header(g: Seq<HeaderGroup>)
    requires
        unique_names(g),
    ensures
        lookup(request_headers_cleaned(g), connection_name()) == -1,
        lookup(request_headers_cleaned(g), proxy_connection_name()) == -1,
        lookup(request_headers_cleaned(g), keep_alive_name()) == -1,
        lookup(request_headers_cleaned(g), transfer_encoding_name()) == -1,
{
    let e = Seq::<u8>::empty();
    let g1 = groups_remove(g, connection_name());
    let g2 = groups_remove(g1, proxy_connection_name());
    let g3 = groups_remove(g2, keep_alive_name());
    let g4 = groups_remove(g3, transfer_encoding_name());
    crate::headers::lemma_unique_preserved(g, e, e, connection_name());
    crate::headers::lemma_unique_preserved(g1, e, e, proxy_connection_name());
    crate::headers::lemma_unique_preserved(g2, e, e, keep_alive_name());
    crate::headers::lemma_unique_preserved(g3, e, e, transfer_encoding_name());
    lemma_remove_keeps_absent(g1, connection_name(), proxy_connection_name());
    lemma_remove_keeps_absent(g2, connection_name(), keep_alive_name());
    lemma_remove_keeps_absent(g3, connection_name(), transfer_encoding_name());
    lemma_remove_keeps_absent(g2, proxy_connection_name(), keep_alive_name());
    lemma_remove_keeps_absent(g3, proxy_connection_name(), transfer_encoding_name());
    lemma_remove_keeps_absent(g3, keep_alive_name(), transfer_encoding_name());
}

/// After a response's hop-by-hop headers are dropped, neither `connection`
/// nor `transfer-encoding` is left.
pub proof fn law_cleaned_response_keeps_no_hop_header(g: Seq<HeaderGroup>)
    requires
        unique_names(g),
    ensures
        lookup(response_headers_cleaned(g), connection_name()) == -1,
        lookup(response_headers_cleaned(g), transfer_encoding_name()) == -1,
{
    let e = Seq::<u8>::empty();
    let g1 = groups_remove(g, connection_name());
    crate::headers::lemma_unique_preserved(g, e, e, connection_name());
    crate::headers::lemma_unique_preserved(g1, e, e, transfer_encoding_name());
    lemma_remove_keeps_absent(g1, connection_name(), transfer_encoding_name());
}

/// The proxy writes the target address into the `Host` header; a request
/// whose target names no host and that carries that header resolves to the
/// same address.
pub proof fn law_host_header_round_trip(
    u: UriView,
    g: Seq<HeaderGroup>,
    host: Seq<char>,
    port: u16,
)
    requires
        u.2 is None,
        visible_text(host),
    ensures
        target_addr(u, host_replaced(g, str_bytes(addr_text(host, port)))) == Some(
            addr_text(host, port),
        ),
{
    let d = decimal(port as nat);
    let a = addr_text(host, port);
    lemma_decimal_digits(port as nat);
    lemma_parse_decimal(port);
    assert forall|i: int| 0 <= i < a.len() implies ' ' <= #[trigger] a[i] && a[i] <= '~' by {
        if i < host.len() {
            assert(a[i] == host[i]);
        } else if i > host.len() {
            assert(a[i] == d[i - host.len() - 1]);
            assert(is_digit(d[i - host.len() - 1]));
        }
    }
    lemma_visible_text_bytes(a);
    let removed = groups_remove(g, host_name());
    assert(normalize_name(host_name()) =~= host_name());
    crate::headers::lemma_insert_then_lookup(removed, host_name(), str_bytes(a));
    assert(host_text(host_replaced(g, str_bytes(a))) == Some(a));
    lemma_last_index_of(a, ':');
    let l = last_index_of(a, ':');
    assert(a[host.len() as int] == ':');
    if l > host.len() {
        assert(a[l] == d[l - host.len() - 1]);
        assert(is_digit(d[l - host.len() - 1]));
    }
    assert(l == host.len());
    assert(a.subrange(0, l) =~= host);
    assert(a.subrange(l + 1, a.len() as int) =~= d);
}

/// A relative target is made absolute under `https://` inside a TLS
/// tunnel and under `http://` outside one, with the host and the target
/// that follow the same either way.
pub proof fn law_fixed_target_scheme_follows_tunnel(host: Seq<char>, u: UriView)
    ensures
        absolute_target(true, host, u).take(8) == seq!['h', 't', 't', 'p', 's', ':', '/', '/'],
        absolute_target(false, host, u).take(7) == seq!['h', 't', 't', 'p', ':', '/', '/'],
        absolute_target(true, host, u).skip(8) == absolute_target(false, host, u).skip(7),
        absolute_target(false, host, u).skip(7) == host + uri_text(u),
{
    let t = absolute_target(true, host, u);
    let f = absolute_target(false, host, u);
    assert(t.take(8) =~= seq!['h', 't', 't', 'p', 's', ':', '/', '/']);
    assert(f.take(7) =~= seq!['h', 't', 't', 'p', ':', '/', '/']);
    assert(t.skip(8) =~= host + uri_text(u));
    assert(f.skip(7) =~= host + uri_text(u));
}

/// A URI that names a host goes to its own port, or, when it gives none,
/// to 443 for `https` and to 80 for `http`, for any other scheme and for
/// none.
pub proof fn law_default_ports(u: UriView, g: Seq<HeaderGroup>)
    requires
        u.2 is Some,
    ensures
        u.3 matches Some(p) ==> target_port(u, g) == Some(p),
        u.3 is None && u.0 == Some(seq!['h', 't', 't', 'p', 's']) ==> target_port(u, g) == Some(
            443u16,
        ),
        u.3 is None && u.0 == Some(seq!['h', 't', 't', 'p']) ==> target_port(u, g) == Some(80u16),
        u.3 is None && u.0 is None ==> target_port(u, g) == Some(80u16),
        u.3 is None && u.0 != Some(seq!['h', 't', 't', 'p', 's']) ==> target_port(u, g) == Some(
            80u16,
        ),
{
    assert(https_scheme() =~= seq!['h', 't', 't', 'p', 's']);
    if u.0 == Some(seq!['h', 't', 't', 'p']) {
        assert(seq!['h', 't', 't', 'p'].len() != seq!['h', 't', 't', 'p', 's'].len());
    }
}

/// A `Host` header without a port sends the request to 443 for an `https`
/// URI and to 80 otherwise.
pub proof fn law_host_header_default_ports(u: UriView, g: Seq<HeaderGroup>)
    requires
        u.2 is None,
        host_text(g) matches Some(t) && after_last_colon(t) is None,
    ensures
        u.0 == Some(seq!['h', 't', 't', 'p', 's']) ==> target_port(u, g) == Some(443u16),
        u.0 != Some(seq!['h', 't', 't', 'p', 's']) ==> target_port(u, g) == Some(80u16),
{
    assert(https_scheme() =~= seq!['h', 't', 't', 'p', 's']);
}

/// Removing the group found by `key` leaves what every other name finds.
pub proof fn lemma_remove_keeps_other(g: Seq<HeaderGroup>, key: Seq<u8>, k: Seq<u8>)
    requires
        unique_names(g),
        crate::headers::valid_header_name(k) && crate::headers::valid_header_name(key)
            ==> normalize_name(k) != normalize_name(key),
    ensures
        values_of(groups_remove(g, key), k) == values_of(g, k),
{
    let r = groups_remove(g, key);
    let e = Seq::<u8>::empty();
    crate::headers::lemma_unique_preserved(g, e, e, key);
    if crate::headers::valid_header_name(k) {
        let n = normalize_name(k);
        let i = lookup(g, key);
        if i >= 0 {
            let m = normalize_name(key);
            crate::headers::lemma_find_group(g, m);
            crate::headers::lemma_find_group(g, n);
            crate::headers::lemma_find_group(r, n);
            let j = crate::headers::find_group(g, n);
            let t = crate::headers::find_group(r, n);
            assert(g[i].0 == m);
            if j < 0 {
                if t >= 0 {
                    if t == i {
                        assert(r[t] == g[g.len() - 1]);
                    } else {
                        assert(r[t] == g[t]);
                    }
                }
            } else {
                assert(j != i);
                let p = if j == g.len() - 1 {
                    i
                } else {
                    j
                };
                assert(r[p] == g[j]);
                assert(r[p].0 == n);
                if t != p {
                    assert(r[t].0 == n);
                    assert(false);
                }
            }
        }
    }
}

/// A name that is none of the four hop-by-hop names.
pub open spec fn not_hop_by_hop_request(k: Seq<u8>) -> bool {
    crate::headers::valid_header_name(k) ==> {
        &&& normalize_name(k) != connection_name()
        &&& normalize_name(k) != proxy_connection_name()
        &&& normalize_name(k) != keep_alive_name()
        &&& normalize_name(k) != transfer_encoding_name()
    }
}

proof fn lemma_hop_names_normal()
    ensures
        crate::headers::valid_header_name(connection_name()),
        crate::headers::valid_header_name(proxy_connection_name()),
        crate::headers::valid_header_name(keep_alive_name()),
        crate::headers::valid_header_name(transfer_encoding_name()),
        normalize_name(connection_name()) == connection_name(),
        normalize_name(proxy_connection_name()) == proxy_connection_name(),
        normalize_name(keep_alive_name()) == keep_alive_name(),
        normalize_name(transfer_encoding_name()) == transfer_encoding_name(),
{
    assert(normalize_name(connection_name()) =~= connection_name());
    assert(normalize_name(proxy_connection_name()) =~= proxy_connection_name());
    assert(normalize_name(keep_alive_name()) =~= keep_alive_name());
    assert(normalize_name(transfer_encoding_name()) =~= transfer_encoding_name());
}

/// Cleaning a request's headers keeps every other header: a name other
/// than `connection`, `proxy-connection`, `keep-alive` and
/// `transfer-encoding` finds the same values before and after.
pub proof fn law_cleaned_request_keeps_other_headers(g: Seq<HeaderGroup>, k: Seq<u8>)
    requires
        unique_names(g),
        not_hop_by_hop_request(k),
    ensures
        values_of(request_headers_cleaned(g), k) == values_of(g, k),
{
    lemma_hop_names_normal();
    let e = Seq::<u8>::empty();
    let g1 = groups_remove(g, connection_name());
    let g2 = groups_remove(g1, proxy_connection_name());
    let g3 = groups_remove(g2, keep_alive_name());
    crate::headers::lemma_unique_preserved(g, e, e, connection_name());
    crate::headers::lemma_unique_preserved(g1, e, e, proxy_connection_name());
    crate::headers::lemma_unique_preserved(g2, e, e, keep_alive_name());
    lemma_remove_keeps_other(g, connection_name(), k);
    lemma_remove_keeps_other(g1, proxy_connection_name(), k);
    lemma_remove_keeps_other(g2, keep_alive_name(), k);
    lemma_remove_keeps_other(g3, transfer_encoding_name(), k);
}

/// Cleaning a response's headers keeps every header but `connection` and
/// `transfer-encoding`.
pub proof fn law_cleaned_response_keeps_other_headers(g: Seq<HeaderGroup>, k: Seq<u8>)
    requires
        unique_names(g),
        crate::headers::valid_header_name(k) ==> normalize_name(k) != connection_name()
            && normalize_name(k) != transfer_encoding_name(),
    ensures
        values_of(response_headers_cleaned(g), k) == values_of(g, k),
{
    lemma_hop_names_normal();
    let e = Seq::<u8>::empty();
    let g1 = groups_remove(g, connection_name());
    crate::headers::lemma_unique_preserved(g, e, e, connection_name());
    lemma_remove_keeps_other(g, connection_name(), k);
    lemma_remove_keeps_other(g1, transfer_encoding_name(), k);
}

} // verus!
