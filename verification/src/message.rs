//! The requests and responses the proxy records.
use vstd::prelude::*;
use crate::headers::{HeaderGroup, HttpHeaders};
use crate::text::{find_first_from, first_index_of, split_by, chars_of, decimal, lossy_text, push_decimal, push_str, string_of_chars, utf8_lossy};
use crate::uri::{opt_view, UriParts, UriView};

verus! {

/// An HTTP method. Methods other than the nine standard ones are recorded as
/// `Get`.
#[derive(Debug, Clone, Copy, PartialEq, Eq, Structural, Hash)]
pub enum Method {
    Get,
    Post,
    Put,
    Patch,
    Delete,
    Head,
    Options,
    Connect,
    Trace,
}

/// The name of a method as it appears in a request line.
pub open spec fn method_name(m: Method) -> Seq<char> {
    match m {
        Method::Get => seq!['G', 'E', 'T'],
        Method::Post => seq!['P', 'O', 'S', 'T'],
        Method::Put => seq!['P', 'U', 'T'],
        Method::Patch => seq!['P', 'A', 'T', 'C', 'H'],
        Method::Delete => seq!['D', 'E', 'L', 'E', 'T', 'E'],
        Method::Head => seq!['H', 'E', 'A', 'D'],
        Method::Options => seq!['O', 'P', 'T', 'I', 'O', 'N', 'S'],
        Method::Connect => seq!['C', 'O', 'N', 'N', 'E', 'C', 'T'],
        Method::Trace => seq!['T', 'R', 'A', 'C', 'E'],
    }
}

/// The method a request-line token names; any other token gives `Get`.
pub open spec fn method_of_name(s: Seq<char>) -> Method {
    if s == method_name(Method::Post) {
        Method::Post
    } else if s == method_name(Method::Put) {
        Method::Put
    } else if s == method_name(Method::Patch) {
        Method::Patch
    } else if s == method_name(Method::Delete) {
        Method::Delete
    } else if s == method_name(Method::Head) {
        Method::Head
    } else if s == method_name(Method::Options) {
        Method::Options
    } else if s == method_name(Method::Connect) {
        Method::Connect
    } else if s == method_name(Method::Trace) {
        Method::Trace
    } else {
        Method::Get
    }
}

fn chars_equal(a: &Vec<char>, b: &Vec<char>) -> (r: bool)
    ensures
        r == (a@ == b@),
{
    if a.len() != b.len() {
        return false;
    }
    let mut i: usize = 0;
    while i < a.len()
        invariant
            i <= a.len() == b.len(),
            forall|j: int| 0 <= j < i ==> a@[j] == b@[j],
        decreases a.len() - i,
    {
        if a[i] != b[i] {
            return false;
        }
        i += 1;
    }
    assert(a@ =~= b@);
    true
}

impl Method {
    pub fn default_method() -> (r: Method)
        ensures
            r == Method::Get,
    {
        Method::Get
    }

    /// The method's name, as written in a request line.
    pub fn name(&self) -> (r: String)
        ensures
            r@ == method_name(*self),
    {
        let mut r = String::new();
        let s = match self {
            Method::Get => "GET",
            Method::Post => "POST",
            Method::Put => "PUT",
            Method::Patch => "PATCH",
            Method::Delete => "DELETE",
            Method::Head => "HEAD",
            Method::Options => "OPTIONS",
            Method::Connect => "CONNECT",
            Method::Trace => "TRACE",
        };
        proof {
            reveal_strlit("GET");
            reveal_strlit("POST");
            reveal_strlit("PUT");
            reveal_strlit("PATCH");
            reveal_strlit("DELETE");
            reveal_strlit("HEAD");
            reveal_strlit("OPTIONS");
            reveal_strlit("CONNECT");
            reveal_strlit("TRACE");
        }
        push_str(&mut r, s);
        r
    }

    /// The method a request-line token names.
    pub fn from_name(s: &str) -> (r: Method)
        ensures
            r == method_of_name(s@),
    {
        let v = crate::text::chars_of(s);
        let all = [
            Method::Post,
            Method::Put,
            Method::Patch,
            Method::Delete,
            Method::Head,
            Method::Options,
            Method::Connect,
            Method::Trace,
        ];
        let mut i: usize = 0;
        while i < 8
            invariant
                i <= 8,
                v@ == s@,
                all@ == seq![
                    Method::Post,
                    Method::Put,
                    Method::Patch,
                    Method::Delete,
                    Method::Head,
                    Method::Options,
                    Method::Connect,
                    Method::Trace,
                ],
                forall|j: int| 0 <= j < i ==> s@ != method_name(#[trigger] all@[j]),
            decreases 8 - i,
        {
            let m = all[i];
            let name = crate::text::chars_of(m.name().as_str());
            if chars_equal(&v, &name) {
                return m;
            }
            i += 1;
        }
        Method::Get
    }
}

/// What the proxy shows of a request URL.
#[derive(Debug, PartialEq)]
pub struct Url {
    pub scheme: String,
    pub host: String,
    pub port: Option<u16>,
    pub path: String,
    pub query: Option<String>,
}

pub struct UrlView {
    pub scheme: Seq<char>,
    pub host: Seq<char>,
    pub port: Option<u16>,
    pub path: Seq<char>,
    pub query: Option<Seq<char>>,
}

impl View for Url {
    type V = UrlView;

    open spec fn view(&self) -> UrlView {
        UrlView {
            scheme: self.scheme@,
            host: self.host@,
            port: self.port,
            path: self.path@,
            query: opt_view(self.query),
        }
    }
}

/// The URL recorded for a URI: a missing scheme is taken as `http` and a
/// missing host as `127.0.0.1`.
pub open spec fn url_of_uri(u: UriView) -> UrlView {
    UrlView {
        scheme: match u.0 {
            Some(s) => s,
            None => seq!['h', 't', 't', 'p'],
        },
        host: match u.2 {
            Some(h) => h,
            None => seq!['1', '2', '7', '.', '0', '.', '0', '.', '1'],
        },
        port: u.3,
        path: u.4,
        query: u.5,
    }
}

/// `scheme://host[:port]path[?query]`.
pub open spec fn url_text(u: UrlView) -> Seq<char> {
    let port = match u.port {
        Some(p) => seq![':'] + decimal(p as nat),
        None => Seq::empty(),
    };
    let query = match u.query {
        Some(q) => seq!['?'] + q,
        None => Seq::empty(),
    };
    u.scheme + seq![':', '/', '/'] + u.host + port + u.path + query
}

/// The port is part of a URL's text: two URLs that differ only in their
/// port, one of them perhaps without any, read differently; and a port is
/// written as `:` and its decimal right after the host.
pub proof fn law_url_text_keeps_port(u: UrlView, p: Option<u16>)
    requires
        u.port != p,
    ensures
        url_text(u) != url_text(UrlView { port: p, ..u }),
        u.port matches Some(n) ==> url_text(u).subrange(
            (u.scheme.len() + 3 + u.host.len()) as int,
            (u.scheme.len() + 4 + u.host.len() + decimal(n as nat).len()) as int,
        ) == seq![':'] + decimal(n as nat),
{
    let v = UrlView { port: p, ..u };
    let a = u.scheme + seq![':', '/', '/'] + u.host;
    let tail = u.path + match u.query {
        Some(q) => seq!['?'] + q,
        None => Seq::<char>::empty(),
    };
    let pu = match u.port {
        Some(n) => seq![':'] + decimal(n as nat),
        None => Seq::<char>::empty(),
    };
    let pv = match p {
        Some(n) => seq![':'] + decimal(n as nat),
        None => Seq::<char>::empty(),
    };
    assert(url_text(u) =~= a + pu + tail);
    assert(url_text(v) =~= a + pv + tail);
    if let Some(n) = u.port {
        assert(url_text(u).subrange(a.len() as int, (a.len() + pu.len()) as int) =~= pu);
    }
    if url_text(u) == url_text(v) {
        assert(pu.len() == pv.len());
        assert(pu =~= url_text(u).subrange(a.len() as int, (a.len() + pu.len()) as int));
        assert(pv =~= url_text(v).subrange(a.len() as int, (a.len() + pv.len()) as int));
        match (u.port, p) {
            (Some(x), Some(y)) => {
                crate::text::lemma_decimal_digits(x as nat);
                crate::text::lemma_decimal_digits(y as nat);
                assert(decimal(x as nat) =~= pu.drop_first());
                assert(decimal(y as nat) =~= pv.drop_first());
            },
            (Some(x), None) => {
                crate::text::lemma_decimal_digits(x as nat);
            },
            (None, Some(y)) => {
                crate::text::lemma_decimal_digits(y as nat);
            },
            (None, None) => {},
        }
    }
}

/// A query parameter split at its first `=`; without one, the value is
/// empty.
pub open spec fn query_pair(p: Seq<char>) -> (Seq<char>, Seq<char>) {
    let i = first_index_of(p, '=');
    if 0 <= i < p.len() {
        (p.subrange(0, i), p.subrange(i + 1, p.len() as int))
    } else {
        (p, Seq::empty())
    }
}

/// The parameters of a URL's query, split at each `&` (a URL without a
/// query reads as an empty one).
pub open spec fn query_params(u: UrlView) -> Seq<(Seq<char>, Seq<char>)> {
    let q = match u.query {
        Some(q) => q,
        None => Seq::empty(),
    };
    pairs_of(split_by(q, '&'))
}

/// Each piece split at its first `=`.
pub open spec fn pairs_of(pieces: Seq<Seq<char>>) -> Seq<(Seq<char>, Seq<char>)> {
    pieces.map_values(|p: Seq<char>| query_pair(p))
}

/// The strings of `v` are the pairs `p`.
pub open spec fn shows_pairs(v: Seq<(String, String)>, p: Seq<(Seq<char>, Seq<char>)>) -> bool {
    &&& v.len() == p.len()
    &&& forall|i: int| #![trigger v[i]] 0 <= i < v.len() ==> v[i].0@ == p[i].0 && v[i].1@ == p[i].1
}

/// The parameter written in `v` between `from` and `to`.
fn pair_between(v: &Vec<char>, from: usize, to: usize) -> (r: (String, String))
    requires
        from <= to <= v.len(),
    ensures
        r.0@ == query_pair(v@.subrange(from as int, to as int)).0,
        r.1@ == query_pair(v@.subrange(from as int, to as int)).1,
{
    let piece = vstd::slice::slice_to_vec(vstd::slice::slice_subrange(v.as_slice(), from, to));
    assert(piece@ == v@.subrange(from as int, to as int));
    let eq = find_first_from(&piece, '=', 0);
    assert(piece@.subrange(0, piece@.len() as int) == piece@);
    if eq < piece.len() {
        (string_of_chars(&piece, 0, eq), string_of_chars(&piece, eq + 1, piece.len()))
    } else {
        (string_of_chars(&piece, 0, piece.len()), String::new())
    }
}

/// The parameters of `v` from `from` on.
fn pairs_from(v: &Vec<char>, from: usize) -> (r: Vec<(String, String)>)
    requires
        from <= v.len(),
    ensures
        shows_pairs(r@, pairs_of(split_by(v@.subrange(from as int, v@.len() as int), '&'))),
    decreases v.len() - from,
{
    let ghost s = v@.subrange(from as int, v@.len() as int);
    let end = find_first_from(v, '&', from);
    let pair = pair_between(v, from, end);
    assert(s.subrange(0, end - from) == v@.subrange(from as int, end as int));
    if end == v.len() {
        assert(s == v@.subrange(from as int, end as int));
        let mut r = Vec::new();
        r.push(pair);
        assert(split_by(s, '&') == seq![s]);
        assert(pairs_of(seq![s])[0] == query_pair(s));
        r
    } else {
        let mut rest = pairs_from(v, end + 1);
        assert(s.subrange(end - from + 1, s.len() as int) == v@.subrange(end + 1, v@.len() as int));
        let ghost tail = rest@;
        rest.insert(0, pair);
        let ghost later = split_by(v@.subrange(end + 1, v@.len() as int), '&');
        assert(split_by(s, '&') == seq![s.subrange(0, end - from)] + later);
        let ghost all = pairs_of(split_by(s, '&'));
        assert(all.len() == rest@.len());
        assert forall|i: int| #![trigger rest@[i]] 0 <= i < rest@.len() implies rest@[i].0@
            == all[i].0 && rest@[i].1@ == all[i].1 by {
            if i > 0 {
                assert(rest@[i] == tail[i - 1]);
                assert(all[i] == pairs_of(later)[i - 1]);
            } else {
                assert(rest@[0] == pair);
                assert(all[0] == query_pair(split_by(s, '&')[0]));
            }
        }
        rest
    }
}

/// The URI `/`.
pub open spec fn root_uri() -> UriView {
    (None, None, None, None, seq!['/'], None)
}

impl Url {
    /// The URL of a parsed URI.
    pub fn from_uri(u: &UriParts) -> (r: Url)
        ensures
            r@ == url_of_uri(u@),
    {
        let scheme = match &u.scheme {
            Some(s) => s.clone(),
            None => "http".to_owned(),
        };
        let host = match &u.host {
            Some(h) => h.clone(),
            None => "127.0.0.1".to_owned(),
        };
        let query = match &u.query {
            Some(q) => Some(q.clone()),
            None => None,
        };
        proof {
            reveal_strlit("http");
            reveal_strlit("127.0.0.1");
            assert("http"@ =~= seq!['h', 't', 't', 'p']);
            assert("127.0.0.1"@ =~= seq!['1', '2', '7', '.', '0', '.', '0', '.', '1']);
        }
        Url { scheme, host, port: u.port, path: u.path.clone(), query }
    }

    /// The URL of a string: its URI when it parses, else the URI `/`.
    pub fn from_text(s: &str) -> (r: Url)
        ensures
            r@ == url_of_uri(
                match crate::uri::parsed_uri(s@) {
                    Ok(u) => u,
                    Err(_) => root_uri(),
                },
            ),
    {
        let u = match UriParts::parse(s) {
            Ok(u) => u,
            Err(_) => UriParts::root(),
        };
        Url::from_uri(&u)
    }

    /// The URL written out.
    pub fn to_text(&self) -> (r: String)
        ensures
            r@ == url_text(self@),
    {
        let mut r = String::new();
        push_str(&mut r, self.scheme.as_str());
        r.push(':');
        r.push('/');
        r.push('/');
        push_str(&mut r, self.host.as_str());
        if let Some(p) = self.port {
            r.push(':');
            push_decimal(&mut r, p as u64);
        }
        push_str(&mut r, self.path.as_str());
        if let Some(q) = &self.query {
            r.push('?');
            push_str(&mut r, q.as_str());
        }
        r
    }

    /// The parameters of the URL's query, in order.
    pub fn query_pairs(&self) -> (r: Vec<(String, String)>)
        ensures
            shows_pairs(r@, query_params(self@)),
    {
        let q = match &self.query {
            Some(q) => chars_of(q.as_str()),
            None => Vec::new(),
        };
        let r = pairs_from(&q, 0);
        assert(q@.subrange(0, q@.len() as int) == q@);
        r
    }

    pub fn duplicate(&self) -> (r: Url)
        ensures
            r@ == self@,
    {
        Url {
            scheme: self.scheme.clone(),
            host: self.host.clone(),
            port: self.port,
            path: self.path.clone(),
            query: match &self.query {
                Some(q) => Some(q.clone()),
                None => None,
            },
        }
    }
}

/// A message body.
#[derive(Debug, PartialEq)]
pub struct Body(pub Vec<u8>);

impl Body {
    pub fn new(bytes: Vec<u8>) -> (r: Body)
        ensures
            r.0@ == bytes@,
    {
        Body(bytes)
    }

    pub fn as_bytes(&self) -> (r: &[u8])
        ensures
            r@ == self.0@,
    {
        self.0.as_slice()
    }

    pub fn duplicate(&self) -> (r: Body)
        ensures
            r.0@ == self.0@,
    {
        Body(self.0.clone())
    }

    /// The body as text, as it is shown: invalid UTF-8 replaced.
    pub fn text(&self) -> (r: String)
        ensures
            r@ == lossy_text(self.0@),
    {
        utf8_lossy(self.0.as_slice())
    }
}

/// The identifier the proxy gives an intercepted request.
#[derive(Debug, Clone, Copy, PartialEq, Eq, Structural, Hash, PartialOrd, Ord)]
pub struct RequestId(pub usize);

impl RequestId {
    pub fn new(id: usize) -> (r: RequestId)
        ensures
            r.0 == id,
    {
        RequestId(id)
    }

    /// The identifier in decimal.
    pub fn to_text(&self) -> (r: String)
        ensures
            r@ == decimal(self.0 as nat),
    {
        crate::text::decimal_string(self.0 as u64)
    }
}

/// Two identifiers are the same exactly when their numbers are, and the
/// text of an identifier is its number in decimal, so distinct identifiers
/// read differently.
pub proof fn law_request_id_is_its_number(a: usize, b: usize)
    ensures
        (RequestId(a) == RequestId(b)) == (a == b),
        decimal(a as nat) == decimal(b as nat) ==> a == b,
{
    crate::text::lemma_decimal_digits(a as nat);
    crate::text::lemma_decimal_digits(b as nat);
}

/// A recorded request.
#[derive(Debug, PartialEq)]
pub struct Request {
    pub method: Method,
    pub url: Url,
    pub headers: HttpHeaders,
    pub body: Body,
}

pub struct RequestView {
    pub method: Method,
    pub url: UrlView,
    pub headers: Seq<HeaderGroup>,
    pub body: Seq<u8>,
}

impl View for Request {
    type V = RequestView;

    open spec fn view(&self) -> RequestView {
        RequestView {
            method: self.method,
            url: self.url@,
            headers: self.headers.groups(),
            body: self.body.0@,
        }
    }
}

impl Request {
    /// The request recorded for a request head and its body: the method
    /// named by the request line, the URL of the target, the headers and the
    /// body bytes.
    pub fn from_parts(method: &str, uri: &UriParts, headers: &HttpHeaders, body: &[u8]) -> (r:
        Request)
        ensures
            r@.method == method_of_name(method@),
            r@.url == url_of_uri(uri@),
            r@.headers == headers.groups(),
            r@.body == body@,
    {
        Request {
            method: Method::from_name(method),
            url: Url::from_uri(uri),
            headers: headers.duplicate(),
            body: Body(vstd::slice::slice_to_vec(body)),
        }
    }

    pub fn duplicate(&self) -> (r: Request)
        ensures
            r@ == self@,
    {
        Request {
            method: self.method,
            url: self.url.duplicate(),
            headers: self.headers.duplicate(),
            body: self.body.duplicate(),
        }
    }
}

/// A recorded response.
#[derive(Debug, PartialEq)]
pub struct Response {
    pub status: u16,
    pub headers: HttpHeaders,
    pub body: Body,
}

pub struct ResponseView {
    pub status: u16,
    pub headers: Seq<HeaderGroup>,
    pub body: Seq<u8>,
}

impl View for Response {
    type V = ResponseView;

    open spec fn view(&self) -> ResponseView {
        ResponseView { status: self.status, headers: self.headers.groups(), body: self.body.0@ }
    }
}

impl Response {
    pub fn from_parts(status: u16, headers: &HttpHeaders, body: &[u8]) -> (r: Response)
        ensures
            r@.status == status,
            r@.headers == headers.groups(),
            r@.body == body@,
    {
        Response { status, headers: headers.duplicate(), body: Body(vstd::slice::slice_to_vec(body)) }
    }

    pub fn duplicate(&self) -> (r: Response)
        ensures
            r@ == self@,
    {
        Response { status: self.status, headers: self.headers.duplicate(), body: self.body.duplicate() }
    }
}

/// A request the proxy saw, and its response once it came.
#[derive(Debug, PartialEq)]
pub struct RequestEntry {
    pub request_id: RequestId,
    pub request: Request,
    pub response: Option<Response>,
}

pub struct RequestEntryView {
    pub request_id: usize,
    pub request: RequestView,
    pub response: Option<ResponseView>,
}

impl View for RequestEntry {
    type V = RequestEntryView;

    open spec fn view(&self) -> RequestEntryView {
        RequestEntryView {
            request_id: self.request_id.0,
            request: self.request@,
            response: match self.response {
                Some(r) => Some(r@),
                None => None,
            },
        }
    }
}

impl RequestEntry {
    pub fn duplicate(&self) -> (r: RequestEntry)
        ensures
            r@ == self@,
    {
        RequestEntry {
            request_id: self.request_id,
            request: self.request.duplicate(),
            response: match &self.response {
                Some(r) => Some(r.duplicate()),
                None => None,
            },
        }
    }
}

} // verus!
