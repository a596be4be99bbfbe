//! Request targets.
//!
//! A URI is held as the parts the proxy reads from it; parsing a string into
//! those parts is left to the `http` crate.
use vstd::prelude::*;
use crate::text::push_str;

verus! {

/// The parts of a URI, as the `http` crate's accessors give them.
#[derive(Debug)]
pub struct UriParts {
    pub scheme: Option<String>,
    pub authority: Option<String>,
    pub host: Option<String>,
    pub port: Option<u16>,
    /// The path; `/` when the URI has a path-and-query part with an empty
    /// path, empty when it has no path at all.
    pub path: String,
    pub query: Option<String>,
}

/// The parts of a URI as plain values: scheme, authority, host, port, path
/// and query.
pub type UriView = (
    Option<Seq<char>>,
    Option<Seq<char>>,
    Option<Seq<char>>,
    Option<u16>,
    Seq<char>,
    Option<Seq<char>>,
);

pub open spec fn opt_view(o: Option<String>) -> Option<Seq<char>> {
    match o {
        Some(s) => Some(s@),
        None => None,
    }
}

impl View for UriParts {
    type V = UriView;

    open spec fn view(&self) -> UriView {
        (
            opt_view(self.scheme),
            opt_view(self.authority),
            opt_view(self.host),
            self.port,
            self.path@,
            opt_view(self.query),
        )
    }
}

/// What `Uri::from_str` gives for a string: the parts of the URI, or the
/// text of the parse error.
pub uninterp spec fn parsed_uri(s: Seq<char>) -> Result<UriView, Seq<char>>;

/// `Uri::from_str`, with the parts of the parsed URI read through its
/// accessors (`scheme_str`, `authority`, `host`, `port_u16`, `path`, `query`)
/// and a parse error given as its `Display` text.
#[verifier::external_body]
fn parse_uri(s: &str) -> (r: Result<UriParts, String>)
    ensures
        match r {
            Ok(p) => parsed_uri(s@) == Ok::<UriView, Seq<char>>(p@),
            Err(e) => parsed_uri(s@) == Err::<UriView, Seq<char>>(e@),
        },
{
    let u = match s.parse::<hyper::Uri>() {
        Ok(u) => u,
        Err(e) => return Err(e.to_string()),
    };
    Ok(UriParts {
        scheme: u.scheme_str().map(|x| x.to_string()),
        authority: u.authority().map(|a| a.as_str().to_string()),
        host: u.host().map(|x| x.to_string()),
        port: u.port_u16(),
        path: u.path().to_string(),
        query: u.query().map(|x| x.to_string()),
    })
}

/// How a URI is written out: `scheme://` when there is a scheme, the
/// authority, the path, then `?query` when there is a query.
pub open spec fn uri_text(u: UriView) -> Seq<char> {
    let scheme = match u.0 {
        Some(s) => s + seq![':', '/', '/'],
        None => Seq::empty(),
    };
    let authority = match u.1 {
        Some(a) => a,
        None => Seq::empty(),
    };
    let query = match u.5 {
        Some(q) => seq!['?'] + q,
        None => Seq::empty(),
    };
    scheme + authority + u.4 + query
}

fn clone_opt(o: &Option<String>) -> (r: Option<String>)
    ensures
        opt_view(r) == opt_view(*o),
{
    match o {
        Some(s) => Some(s.clone()),
        None => None,
    }
}

impl UriParts {
    /// Parses `s` as a URI.
    pub fn parse(s: &str) -> (r: Result<UriParts, String>)
        ensures
            match r {
                Ok(p) => parsed_uri(s@) == Ok::<UriView, Seq<char>>(p@),
                Err(e) => parsed_uri(s@) == Err::<UriView, Seq<char>>(e@),
            },
    {
        parse_uri(s)
    }

    /// The URI `/`, which `Uri::from_static("/")` gives: a path and nothing
    /// else.
    pub fn root() -> (r: UriParts)
        ensures
            r@ == (
                None::<Seq<char>>,
                None::<Seq<char>>,
                None::<Seq<char>>,
                None::<u16>,
                seq!['/'],
                None::<Seq<char>>,
            ),
    {
        let mut path = String::new();
        path.push('/');
        UriParts { scheme: None, authority: None, host: None, port: None, path, query: None }
    }

    pub fn duplicate(&self) -> (r: UriParts)
        ensures
            r@ == self@,
    {
        UriParts {
            scheme: clone_opt(&self.scheme),
            authority: clone_opt(&self.authority),
            host: clone_opt(&self.host),
            port: self.port,
            path: self.path.clone(),
            query: clone_opt(&self.query),
        }
    }

    /// The URI written out, as `Uri`'s `Display` writes it.
    pub fn to_text(&self) -> (r: String)
        ensures
            r@ == uri_text(self@),
    {
        let mut r = String::new();
        if let Some(s) = &self.scheme {
            push_str(&mut r, s.as_str());
            r.push(':');
            r.push('/');
            r.push('/');
        }
        if let Some(a) = &self.authority {
            push_str(&mut r, a.as_str());
        }
        push_str(&mut r, self.path.as_str());
        if let Some(q) = &self.query {
            r.push('?');
            push_str(&mut r, q.as_str());
        }
        r
    }
}

} // verus!
