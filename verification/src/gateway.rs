//! The client side of the document-database gateway.
//!
//! The library builds the outbound request and judges what came back. The
//! host looks up the secret, transmits the request and reports the outcome.

use crate::http::Method;
use crate::json::{compact, parsed_json};
use crate::text::text_of;
use vstd::prelude::*;
use vstd::string::StringExecFns;

verus! {

/// The stage at which a call to the gateway failed.
#[derive(Clone, Copy, Debug, PartialEq, Eq, Structural)]
pub enum GatewayError {
    /// The API key could not be had from secret storage, or is empty.
    Secret,
    /// The host refused a header.
    Headers,
    /// The request was not transmitted, or no response came back.
    Transport,
    /// The response has no text body.
    ResponseText,
    /// The response body is no JSON.
    ResponseMalformed,
}

/// A request to the gateway, ready to be transmitted.
#[derive(Clone, Debug, PartialEq, Eq)]
pub struct GatewayRequest {
    url: String,
    method: Method,
    headers: Vec<(String, String)>,
    body: String,
}

/// The mathematical value of a [`GatewayRequest`].
pub struct GatewayRequestView {
    pub url: Seq<char>,
    pub method: Method,
    pub headers: Seq<(Seq<char>, Seq<char>)>,
    pub body: Seq<char>,
}

impl View for GatewayRequest {
    type V = GatewayRequestView;

    closed spec fn view(&self) -> GatewayRequestView {
        GatewayRequestView {
            url: self.url@,
            method: self.method,
            headers: Seq::new(
                self.headers@.len(),
                |i: int| (self.headers@[i].0@, self.headers@[i].1@),
            ),
            body: self.body@,
        }
    }
}

/// The name under which secret storage holds the API key.
pub open spec fn api_key_secret() -> Seq<char> {
    "mongo_data_api_key"@
}

/// The address of the action `query` of kind `query_type`.
pub open spec fn gateway_url(query_type: Seq<char>, query: Seq<char>) -> Seq<char> {
    "https://data.mongodb-api.com/app/data-bkmnk/endpoint/data/beta/"@ + query_type + "/"@ + query
}

/// The headers of every request: any request header is asked for, the body
/// is JSON, and the API key is `key`.
pub open spec fn gateway_headers(key: Seq<char>) -> Seq<(Seq<char>, Seq<char>)> {
    seq![
        ("Access-Control-Request-Headers"@, "*"@),
        ("Content-Type"@, "application/json"@),
        ("api-key"@, key),
    ]
}

/// The request that carries `body` to the action `query` of kind
/// `query_type`, authorised by `key`.
pub open spec fn gateway_request(
    method: Method,
    key: Seq<char>,
    body: Seq<char>,
    query_type: Seq<char>,
    query: Seq<char>,
) -> GatewayRequestView {
    GatewayRequestView {
        url: gateway_url(query_type, query),
        method,
        headers: gateway_headers(key),
        body,
    }
}

/// Whether the request carries an `api-key` header that is not empty.
pub open spec fn carries_key(request: GatewayRequestView) -> bool {
    exists|i: int|
        0 <= i < request.headers.len() && (#[trigger] request.headers[i]).0 == "api-key"@
            && request.headers[i].1.len() > 0
}

/// What a call to the gateway is to do: the request where the secret lookup
/// gave a key that is not empty, the failure at the secret stage otherwise.
pub open spec fn outbound(
    method: Method,
    secret: Option<Seq<char>>,
    body: Seq<char>,
    query_type: Seq<char>,
    query: Seq<char>,
) -> Result<GatewayRequestView, GatewayError> {
    match secret {
        Some(key) => if key.len() > 0 {
            Ok(gateway_request(method, key, body, query_type, query))
        } else {
            Err(GatewayError::Secret)
        },
        None => Err(GatewayError::Secret),
    }
}

/// No request without a key: where `outbound` gives a request, the secret
/// lookup gave a key that is not empty, and the request carries it in its
/// `api-key` header; in every other case `outbound` fails at the secret stage.
pub proof fn lemma_outbound_needs_key(
    method: Method,
    secret: Option<Seq<char>>,
    body: Seq<char>,
    query_type: Seq<char>,
    query: Seq<char>,
)
    ensures
        match outbound(method, secret, body, query_type, query) {
            Ok(request) => secret matches Some(key) && key.len() > 0 && request.headers[2] == (
                "api-key"@,
                key,
            ) && carries_key(request) && request.body == body,
            Err(e) => e == GatewayError::Secret && (secret matches Some(key) ==> key.len() == 0),
        },
{
    if let Ok(request) = outbound(method, secret, body, query_type, query) {
        assert(request.headers[2].0 == "api-key"@);
    }
}

impl GatewayRequest {
    /// The address to send to.
    pub fn url(&self) -> (url: &String)
        ensures
            url@ == self@.url,
    {
        &self.url
    }

    /// The method to send with.
    pub fn method(&self) -> (method: Method)
        ensures
            method == self@.method,
    {
        self.method
    }

    /// The number of headers.
    pub fn header_count(&self) -> (n: usize)
        ensures
            n == self@.headers.len(),
    {
        self.headers.len()
    }

    /// The name and the value of the header at `index`.
    pub fn header(&self, index: usize) -> (header: (&String, &String))
        requires
            index < self@.headers.len(),
        ensures
            (header.0@, header.1@) == self@.headers[index as int],
    {
        (&self.headers[index].0, &self.headers[index].1)
    }

    /// The body to send.
    pub fn body(&self) -> (body: &String)
        ensures
            body@ == self@.body,
    {
        &self.body
    }
}

/// Builds the request for one call to the gateway: `body` goes with `method`
/// to the action `query` of kind `query_type`. `secret` is what the lookup
/// of the API key gave. Without a key that is not empty there is no request.
pub fn mongo_request(
    method: Method,
    secret: Option<String>,
    body: &str,
    query_type: &str,
    query: &str,
) -> (built: Result<GatewayRequest, GatewayError>)
    ensures
        match built {
            Ok(request) => outbound(method, text_of(secret), body@, query_type@, query@) == Ok::<
                GatewayRequestView,
                GatewayError,
            >(request@),
            Err(e) => outbound(method, text_of(secret), body@, query_type@, query@) == Err::<
                GatewayRequestView,
                GatewayError,
            >(e),
        },
        built matches Ok(request) ==> carries_key(request@),
{
    let key = match secret {
        Some(key) => key,
        None => { return Err(GatewayError::Secret); },
    };
    if key.as_str().is_empty() {
        return Err(GatewayError::Secret);
    }
    let url = String::from_str("https://data.mongodb-api.com/app/data-bkmnk/endpoint/data/beta/")
        .concat(query_type).concat("/").concat(query);
    let mut headers: Vec<(String, String)> = Vec::new();
    headers.push((String::from_str("Access-Control-Request-Headers"), String::from_str("*")));
    headers.push((String::from_str("Content-Type"), String::from_str("application/json")));
    headers.push((String::from_str("api-key"), key));
    let request = GatewayRequest { url, method, headers, body: String::from_str(body) };
    proof {
        assert(request@.headers =~= gateway_headers(key@));
        assert(request@.headers[2].0 == "api-key"@);
    }
    Ok(request)
}

/// What the host reports of a transmission.
#[derive(Clone, Debug, PartialEq, Eq)]
pub enum Transmission {
    /// The host refused a header, and nothing was sent.
    HeadersRefused,
    /// The request could not be sent, or no response came back.
    Failed,
    /// A response came back, but its body is no text.
    Unreadable,
    /// A response came back with this text as its body.
    Delivered(String),
}

/// The mathematical value of a [`Transmission`].
pub enum TransmissionView {
    HeadersRefused,
    Failed,
    Unreadable,
    Delivered(Seq<char>),
}

impl View for Transmission {
    type V = TransmissionView;

    open spec fn view(&self) -> TransmissionView {
        match self {
            Transmission::HeadersRefused => TransmissionView::HeadersRefused,
            Transmission::Failed => TransmissionView::Failed,
            Transmission::Unreadable => TransmissionView::Unreadable,
            Transmission::Delivered(text) => TransmissionView::Delivered(text@),
        }
    }
}

/// The raw text that a transmission brought, or the stage at which it
/// failed.
pub open spec fn reply_text(sent: TransmissionView) -> Result<Seq<char>, GatewayError> {
    match sent {
        TransmissionView::HeadersRefused => Err(GatewayError::Headers),
        TransmissionView::Failed => Err(GatewayError::Transport),
        TransmissionView::Unreadable => Err(GatewayError::ResponseText),
        TransmissionView::Delivered(text) => Ok(text),
    }
}

/// The document that a transmission brought, as compact JSON text: the
/// response text where it is JSON; the failure otherwise, at the stage of
/// the transmission or, for a text that is no JSON, as malformed.
pub open spec fn reply_document(sent: TransmissionView) -> Result<Seq<char>, GatewayError> {
    match reply_text(sent) {
        Ok(text) => match parsed_json(text) {
            Some(document) => Ok(document),
            None => Err(GatewayError::ResponseMalformed),
        },
        Err(e) => Err(e),
    }
}

/// Judges a transmission: the raw text of the response, untouched, or the
/// stage at which the call failed.
pub fn gateway_reply(sent: Transmission) -> (reply: Result<String, GatewayError>)
    ensures
        match reply {
            Ok(text) => reply_text(sent@) == Ok::<Seq<char>, GatewayError>(text@),
            Err(e) => reply_text(sent@) == Err::<Seq<char>, GatewayError>(e),
        },
{
    match sent {
        Transmission::HeadersRefused => Err(GatewayError::Headers),
        Transmission::Failed => Err(GatewayError::Transport),
        Transmission::Unreadable => Err(GatewayError::ResponseText),
        Transmission::Delivered(text) => Ok(text),
    }
}

/// Reads the response of a transmission as JSON, to be relayed. A response
/// that is no JSON is a failure of its own kind, not a crash.
pub fn gateway_document(sent: Transmission) -> (document: Result<String, GatewayError>)
    ensures
        match document {
            Ok(text) => reply_document(sent@) == Ok::<Seq<char>, GatewayError>(text@),
            Err(e) => reply_document(sent@) == Err::<Seq<char>, GatewayError>(e),
        },
{
    match gateway_reply(sent) {
        Ok(text) => match compact(text.as_str()) {
            Ok(document) => Ok(document),
            Err(_) => Err(GatewayError::ResponseMalformed),
        },
        Err(e) => Err(e),
    }
}

} // verus!
