//! Errors the proxy reports, and the text it shows for them.
use vstd::prelude::*;
use crate::headers::{headers_debug_text, HttpHeaders};
use crate::message::Method;
use crate::text::{decimal, push_decimal, push_str};

verus! {

/// What the proxy knew of a request when handling it failed.
#[derive(Debug, PartialEq)]
pub struct RequestContextError {
    pub method: Method,
    pub uri: String,
    /// The protocol version, as `Debug` writes it (`HTTP/1.1`).
    pub version: String,
    pub headers: HttpHeaders,
    /// The request extensions, as `Debug` writes them.
    pub extensions: String,
    pub message: String,
}

/// What the proxy knew of a response when handling it failed.
#[derive(Debug, PartialEq)]
pub struct ResponseContextError {
    pub status: u16,
    pub version: String,
    pub headers: HttpHeaders,
    pub extensions: String,
    pub message: String,
}

/// Failures while reading a message body.
#[derive(Debug, PartialEq)]
pub enum HttpError {
    RequestBodyRead(Box<RequestContextError>),
    ResponseBodyRead(Box<ResponseContextError>),
}

/// Errors of the proxy server. Causes raised by the network and TLS layers
/// are kept as their text.
#[derive(Debug, PartialEq)]
pub enum ServerError {
    BindAddress { addr: String, source: String },
    AcceptConnection(String),
    TargetAddress { message: String, uri: String, headers: HttpHeaders },
    FixRelativeUri(Box<RequestContextError>),
    TargetConnection { message: String, source: String },
    Fetch { message: String, source: String },
    Http(HttpError),
    Channel { message: String, source: String },
}

/// How `Debug` writes a string: quoted, with escapes.
pub uninterp spec fn str_debug(s: Seq<char>) -> Seq<char>;

/// `<str as Debug>::fmt`.
#[verifier::external_body]
fn debug_str(s: &str) -> (r: String)
    ensures
        r@ == str_debug(s@),
{
    format!("{:?}", s)
}

/// The name `Debug` gives a method: its variant name.
pub open spec fn method_debug(m: Method) -> Seq<char> {
    match m {
        Method::Get => "Get"@,
        Method::Post => "Post"@,
        Method::Put => "Put"@,
        Method::Patch => "Patch"@,
        Method::Delete => "Delete"@,
        Method::Head => "Head"@,
        Method::Options => "Options"@,
        Method::Connect => "Connect"@,
        Method::Trace => "Trace"@,
    }
}

fn method_debug_text(m: Method) -> (r: &'static str)
    ensures
        r@ == method_debug(m),
{
    match m {
        Method::Get => "Get",
        Method::Post => "Post",
        Method::Put => "Put",
        Method::Patch => "Patch",
        Method::Delete => "Delete",
        Method::Head => "Head",
        Method::Options => "Options",
        Method::Connect => "Connect",
        Method::Trace => "Trace",
    }
}

/// How `Debug` writes a request context.
pub open spec fn request_context_debug(c: RequestContextError) -> Seq<char> {
    "RequestContextError { method: "@ + method_debug(c.method) + ", uri: "@ + str_debug(c.uri@)
        + ", version: "@ + str_debug(c.version@) + ", headers: "@ + headers_debug_text(
        c.headers.groups(),
    ) + ", extensions: "@ + str_debug(c.extensions@) + ", message: "@ + str_debug(c.message@)
        + " }"@
}

/// How `Debug` writes a response context.
pub open spec fn response_context_debug(c: ResponseContextError) -> Seq<char> {
    "ResponseContextError { status: "@ + decimal(c.status as nat) + ", version: "@ + str_debug(
        c.version@,
    ) + ", headers: "@ + headers_debug_text(c.headers.groups()) + ", extensions: "@ + str_debug(
        c.extensions@,
    ) + ", message: "@ + str_debug(c.message@) + " }"@
}

/// The text of a body-read failure.
pub open spec fn http_error_text(e: HttpError) -> Seq<char> {
    match e {
        HttpError::RequestBodyRead(c) => "Failed to read request body: "@ + request_context_debug(
            *c,
        ),
        HttpError::ResponseBodyRead(c) => "Failed to read response body: "@
            + response_context_debug(*c),
    }
}

/// The text of a server error.
pub open spec fn server_error_text(e: ServerError) -> Seq<char> {
    match e {
        ServerError::BindAddress { addr, source } => "Failed to listen on address: "@ + addr@
            + ", error: "@ + source@,
        ServerError::AcceptConnection(source) => "Failed to accept connection: "@ + source@,
        ServerError::TargetAddress { message, uri, headers } => message@ + " (uri: "@ + uri@
            + ", headers: "@ + headers_debug_text(headers.groups()) + ")"@,
        ServerError::FixRelativeUri(c) => "Failed to fix relative URI: "@ + request_context_debug(
            *c,
        ),
        ServerError::TargetConnection { message, source } =>
            "Failed to establish connection to target server: "@ + message@ + ", error: "@
            + source@,
        ServerError::Fetch { message, source } => "Failed to fetch from target server: "@
            + message@ + ", error: "@ + source@,
        ServerError::Http(e) => "Failed to read or process HTTP message: "@ + http_error_text(e),
        ServerError::Channel { message, source } => "Failed to send message: "@ + message@
            + ", error: "@ + source@,
    }
}

fn push_debug(r: &mut String, s: &str)
    ensures
        final(r)@ == old(r)@ + str_debug(s@),
{
    let d = debug_str(s);
    push_str(r, d.as_str());
}

impl RequestContextError {
    pub fn debug_text(&self) -> (r: String)
        ensures
            r@ == request_context_debug(*self),
    {
        let mut r = String::new();
        push_str(&mut r, "RequestContextError { method: ");
        push_str(&mut r, method_debug_text(self.method));
        push_str(&mut r, ", uri: ");
        push_debug(&mut r, self.uri.as_str());
        push_str(&mut r, ", version: ");
        push_debug(&mut r, self.version.as_str());
        push_str(&mut r, ", headers: ");
        let h = self.headers.debug_text();
        push_str(&mut r, h.as_str());
        push_str(&mut r, ", extensions: ");
        push_debug(&mut r, self.extensions.as_str());
        push_str(&mut r, ", message: ");
        push_debug(&mut r, self.message.as_str());
        push_str(&mut r, " }");
        r
    }
}

impl ResponseContextError {
    pub fn debug_text(&self) -> (r: String)
        ensures
            r@ == response_context_debug(*self),
    {
        let mut r = String::new();
        push_str(&mut r, "ResponseContextError { status: ");
        push_decimal(&mut r, self.status as u64);
        push_str(&mut r, ", version: ");
        push_debug(&mut r, self.version.as_str());
        push_str(&mut r, ", headers: ");
        let h = self.headers.debug_text();
        push_str(&mut r, h.as_str());
        push_str(&mut r, ", extensions: ");
        push_debug(&mut r, self.extensions.as_str());
        push_str(&mut r, ", message: ");
        push_debug(&mut r, self.message.as_str());
        push_str(&mut r, " }");
        r
    }
}

impl HttpError {
    pub fn to_text(&self) -> (r: String)
        ensures
            r@ == http_error_text(*self),
    {
        let mut r = String::new();
        match self {
            HttpError::RequestBodyRead(c) => {
                push_str(&mut r, "Failed to read request body: ");
                let d = c.debug_text();
                push_str(&mut r, d.as_str());
            },
            HttpError::ResponseBodyRead(c) => {
                push_str(&mut r, "Failed to read response body: ");
                let d = c.debug_text();
                push_str(&mut r, d.as_str());
            },
        }
        r
    }
}

impl ServerError {
    /// The error's text, as its `Display` writes it.
    pub fn to_text(&self) -> (r: String)
        ensures
            r@ == server_error_text(*self),
    {
        let mut r = String::new();
        match self {
            ServerError::BindAddress { addr, source } => {
                push_str(&mut r, "Failed to listen on address: ");
                push_str(&mut r, addr.as_str());
                push_str(&mut r, ", error: ");
                push_str(&mut r, source.as_str());
            },
            ServerError::AcceptConnection(source) => {
                push_str(&mut r, "Failed to accept connection: ");
                push_str(&mut r, source.as_str());
            },
            ServerError::TargetAddress { message, uri, headers } => {
                push_str(&mut r, message.as_str());
                push_str(&mut r, " (uri: ");
                push_str(&mut r, uri.as_str());
                push_str(&mut r, ", headers: ");
                let h = headers.debug_text();
                push_str(&mut r, h.as_str());
                push_str(&mut r, ")");
            },
            ServerError::FixRelativeUri(c) => {
                push_str(&mut r, "Failed to fix relative URI: ");
                let d = c.debug_text();
                push_str(&mut r, d.as_str());
            },
            ServerError::TargetConnection { message, source } => {
                push_str(&mut r, "Failed to establish connection to target server: ");
                push_str(&mut r, message.as_str());
                push_str(&mut r, ", error: ");
                push_str(&mut r, source.as_str());
            },
            ServerError::Fetch { message, source } => {
                push_str(&mut r, "Failed to fetch from target server: ");
                push_str(&mut r, message.as_str());
                push_str(&mut r, ", error: ");
                push_str(&mut r, source.as_str());
            },
            ServerError::Http(e) => {
                push_str(&mut r, "Failed to read or process HTTP message: ");
                let t = e.to_text();
                push_str(&mut r, t.as_str());
            },
            ServerError::Channel { message, source } => {
                push_str(&mut r, "Failed to send message: ");
                push_str(&mut r, message.as_str());
                push_str(&mut r, ", error: ");
                push_str(&mut r, source.as_str());
            },
        }
        r
    }
}

} // verus!
