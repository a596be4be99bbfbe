//! The decisions of the proxy server: numbering requests, the messages it
//! reports, and where a request is forwarded.
use vstd::prelude::*;
use crate::error::ServerError;
use crate::headers::HttpHeaders;
use crate::message::{Request, RequestId, Response};
use crate::target::{get_host, get_target_addr, target_addr, target_host, uses_tls, https_scheme};
use crate::uri::UriParts;

verus! {

/// The proxy.
#[derive(Debug, Clone, Copy, PartialEq, Eq, Structural)]
pub struct Proxy;

impl Proxy {
    pub fn new() -> (r: Proxy)
        ensures
            r == Proxy,
    {
        Proxy
    }
}

/// Hands out request identifiers: 1, 2, 3, ... (wrapping around after
/// `usize::MAX`, as an atomic counter does).
pub struct RequestIdCounter {
    next: usize,
}

impl RequestIdCounter {
    /// The identifier the next request gets.
    pub closed spec fn next_value(&self) -> usize {
        self.next
    }

    pub fn new() -> (r: RequestIdCounter)
        ensures
            r.next_value() == 1,
    {
        RequestIdCounter { next: 1 }
    }

    /// Takes the next identifier.
    pub fn next_id(&mut self) -> (r: RequestId)
        ensures
            r.0 == old(self).next_value(),
            final(self).next_value() == (if old(self).next_value() == usize::MAX {
                0
            } else {
                old(self).next_value() + 1
            }),
    {
        let id = self.next;
        self.next = self.next.wrapping_add(1);
        RequestId(id)
    }

    /// The identifier the next request gets, without taking it.
    pub fn peek(&self) -> (r: RequestId)
        ensures
            r.0 == self.next_value(),
    {
        RequestId(self.next)
    }
}

/// What the proxy server reports while it runs.
#[derive(Debug)]
pub enum Message {
    ServerStarted,
    ServerStopped,
    /// A client connected, from the given address.
    ClientConnected(String),
    ClientDisconnected(String),
    RequestSent(RequestId, Request),
    ResponseReceived(RequestId, Response),
    ErrorOccurred(Option<RequestId>, ServerError),
}

/// Where a request is sent: over TLS or not, to which host and address.
#[derive(Debug)]
pub struct ForwardTarget {
    pub use_tls: bool,
    pub host: String,
    pub addr: String,
}

/// The target a request is forwarded to: TLS when its URI is `https`, the
/// host and the `host:port` address it names.
pub fn forward_target(uri: &UriParts, headers: &HttpHeaders) -> (r: Result<ForwardTarget, ServerError>)
    ensures
        match r {
            Ok(t) => {
                &&& t.use_tls == (uri@.0 == Some(https_scheme()))
                &&& target_host(uri@, headers.groups()) == Some(t.host@)
                &&& target_addr(uri@, headers.groups()) == Some(t.addr@)
            },
            Err(e) => target_addr(uri@, headers.groups()) is None && crate::target::is_missing_target(
                e,
                "Missing host information in URI or Host header"@,
                uri@,
                headers.groups(),
            ),
        },
{
    let use_tls = uses_tls(uri);
    let host = match get_host(uri, headers) {
        Ok(h) => h,
        Err(e) => return Err(e),
    };
    let addr = match get_target_addr(uri, headers) {
        Ok(a) => a,
        Err(e) => return Err(e),
    };
    Ok(ForwardTarget { use_tls, host, addr })
}

/// The domain a tunnel's certificate is made for: the address up to its
/// first `:`.
pub fn tunnel_domain(addr: &str) -> (r: String)
    ensures
        r@ == crate::target::before_first_colon(addr@),
{
    crate::target::before_first_colon_text(addr)
}

} // verus!
