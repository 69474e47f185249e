//! Methods and responses, as plain values.

use vstd::prelude::*;

verus! {

/// An HTTP request method.
#[derive(Clone, Copy, Debug, PartialEq, Eq, Structural)]
pub enum Method {
    Head,
    Get,
    Post,
    Put,
    Patch,
    Delete,
    Options,
    Connect,
    Trace,
    Report,
}

impl Method {
    /// The method's name as it stands in a request line.
    pub open spec fn name(self) -> Seq<char> {
        match self {
            Method::Head => "HEAD"@,
            Method::Get => "GET"@,
            Method::Post => "POST"@,
            Method::Put => "PUT"@,
            Method::Patch => "PATCH"@,
            Method::Delete => "DELETE"@,
            Method::Options => "OPTIONS"@,
            Method::Connect => "CONNECT"@,
            Method::Trace => "TRACE"@,
            Method::Report => "REPORT"@,
        }
    }

    /// The method's name as it stands in a request line.
    pub fn as_str(self) -> (name: &'static str)
        ensures
            name@ == self.name(),
    {
        match self {
            Method::Head => "HEAD",
            Method::Get => "GET",
            Method::Post => "POST",
            Method::Put => "PUT",
            Method::Patch => "PATCH",
            Method::Delete => "DELETE",
            Method::Options => "OPTIONS",
            Method::Connect => "CONNECT",
            Method::Trace => "TRACE",
            Method::Report => "REPORT",
        }
    }
}

/// The `Content-Type` that a response carries, if any.
#[derive(Clone, Copy, Debug, PartialEq, Eq, Structural)]
pub enum Content {
    /// No `Content-Type` header.
    Unset,
    /// `text/plain; charset=utf-8`
    Text,
    /// `application/json`
    Json,
}

/// What the handler answers to an inbound request.
#[derive(Clone, Debug, PartialEq, Eq)]
pub struct Response {
    pub status: u16,
    pub content: Content,
    pub body: String,
}

/// The mathematical value of a [`Response`].
pub struct ResponseView {
    pub status: u16,
    pub content: Content,
    pub body: Seq<char>,
}

impl View for Response {
    type V = ResponseView;

    open spec fn view(&self) -> ResponseView {
        ResponseView { status: self.status, content: self.content, body: self.body@ }
    }
}

/// A success that carries `body` as plain text.
pub open spec fn text_response(body: Seq<char>) -> ResponseView {
    ResponseView { status: 200, content: Content::Text, body }
}

/// A success that carries `body`, a JSON text.
pub open spec fn json_response(body: Seq<char>) -> ResponseView {
    ResponseView { status: 200, content: Content::Json, body }
}

/// A failure with the given status and message, without a content type.
pub open spec fn error_response(status: u16, message: Seq<char>) -> ResponseView {
    ResponseView { status, content: Content::Unset, body: message }
}

impl Response {
    /// A `200` answer with a plain-text body.
    pub fn ok(body: String) -> (r: Response)
        ensures
            r@ == text_response(body@),
    {
        Response { status: 200, content: Content::Text, body }
    }

    /// A `200` answer whose body is the JSON text `body`.
    pub fn json(body: String) -> (r: Response)
        ensures
            r@ == json_response(body@),
    {
        Response { status: 200, content: Content::Json, body }
    }

    /// An error answer: `message` as the body, no content type.
    pub fn error(message: &str, status: u16) -> (r: Response)
        ensures
            r@ == error_response(status, message@),
    {
        Response { status, content: Content::Unset, body: message.to_owned() }
    }
}

} // verus!
