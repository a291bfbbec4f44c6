//! The requests to the MCP endpoint: a POST for each message, and a GET for the
//! subscription.
use http::header::InvalidHeaderValue;
use http::uri::InvalidUri;
use http::{HeaderValue, Uri};
use vstd::prelude::*;
use vstd::utf8::*;

use crate::http_types::{header_bytes, header_value, is_sendable, parse_uri, parsed_uri};

verus! {

/// The methods that requests have.
#[derive(Clone, Copy, Debug, PartialEq, Eq, Structural)]
pub enum Method {
    /// Of a subscription.
    Get,
    /// Of a message.
    Post,
}

impl Method {
    /// The name of the method.
    pub open spec fn name(self) -> Seq<char> {
        match self {
            Method::Get => "GET"@,
            Method::Post => "POST"@,
        }
    }

    /// The name of the method.
    pub fn as_str(self) -> (name: &'static str)
        ensures
            name@ == self.name(),
    {
        match self {
            Method::Get => "GET",
            Method::Post => "POST",
        }
    }
}

/// The headers that a request can have.
#[derive(Clone, Copy, Debug, PartialEq, Eq, Structural)]
pub enum Field {
    ContentType,
    Accept,
    SessionId,
    Authorization,
}

impl Field {
    /// The name of the header.
    pub open spec fn name(self) -> Seq<char> {
        match self {
            Field::ContentType => "Content-Type"@,
            Field::Accept => "Accept"@,
            Field::SessionId => "Mcp-Session-Id"@,
            Field::Authorization => "Authorization"@,
        }
    }

    /// The name of the header.
    pub fn as_str(self) -> (name: &'static str)
        ensures
            name@ == self.name(),
    {
        match self {
            Field::ContentType => "Content-Type",
            Field::Accept => "Accept",
            Field::SessionId => "Mcp-Session-Id",
            Field::Authorization => "Authorization",
        }
    }
}

/// A header as text.
pub struct Header {
    pub field: Field,
    pub value: String,
}

impl View for Header {
    type V = (Seq<char>, Seq<char>);

    open spec fn view(&self) -> (Seq<char>, Seq<char>) {
        (self.field.name(), self.value@)
    }
}

/// A header whose value has been taken by the `http` crate.
pub struct WireHeader {
    pub field: Field,
    pub value: HeaderValue,
}

impl View for WireHeader {
    type V = (Seq<char>, Seq<u8>);

    open spec fn view(&self) -> (Seq<char>, Seq<u8>) {
        (self.field.name(), header_bytes(self.value))
    }
}

/// A request ready to be sent.
pub struct HttpRequest {
    pub method: Method,
    pub uri: Uri,
    pub headers: Vec<WireHeader>,
    pub body: String,
}

/// What an [`HttpRequest`] holds: its headers as pairs of name and bytes, in the
/// order in which they are sent.
pub struct RequestView {
    pub method: Method,
    pub uri: Uri,
    pub headers: Seq<(Seq<char>, Seq<u8>)>,
    pub body: Seq<char>,
}

impl View for HttpRequest {
    type V = RequestView;

    open spec fn view(&self) -> RequestView {
        RequestView {
            method: self.method,
            uri: self.uri,
            headers: self.headers@.map_values(|header: WireHeader| header@),
            body: self.body@,
        }
    }
}

/// Why a request could not be made.
pub enum RequestError {
    /// The endpoint is not a URI.
    Uri(InvalidUri),
    /// The value of a header holds a control character.
    HeaderValue(InvalidHeaderValue),
}

/// A [`RequestError`] without the reason that the `http` crate gives for a
/// header value.
pub enum RequestErrorView {
    Uri(InvalidUri),
    HeaderValue,
}

impl View for RequestError {
    type V = RequestErrorView;

    open spec fn view(&self) -> RequestErrorView {
        match self {
            RequestError::Uri(reason) => RequestErrorView::Uri(*reason),
            RequestError::HeaderValue(_) => RequestErrorView::HeaderValue,
        }
    }
}

/// The outcome of making a request, by its view.
pub open spec fn outcome_view(outcome: Result<HttpRequest, RequestError>) -> Result<
    RequestView,
    RequestErrorView,
> {
    match outcome {
        Ok(request) => Ok(request@),
        Err(error) => Err(error@),
    }
}

/// The value of the `Authorization` header for a token.
pub open spec fn bearer(token: Seq<char>) -> Seq<char> {
    "Bearer "@ + token
}

/// The headers that tell the server who asks: the session if there is one, and
/// the token if there is one.
pub open spec fn identity_headers(
    session_id: Option<Seq<char>>,
    auth_token: Option<Seq<char>>,
) -> Seq<(Seq<char>, Seq<char>)> {
    (match session_id {
        Some(id) => seq![("Mcp-Session-Id"@, id)],
        None => seq![],
    }) + (match auth_token {
        Some(token) => seq![("Authorization"@, bearer(token))],
        None => seq![],
    })
}

/// The headers of a message, in order: its content type, what is accepted in
/// answer, and who asks.
pub open spec fn message_headers(
    session_id: Option<Seq<char>>,
    auth_token: Option<Seq<char>>,
) -> Seq<(Seq<char>, Seq<char>)> {
    seq![
        ("Content-Type"@, "application/json"@),
        ("Accept"@, "application/json, text/event-stream"@),
    ] + identity_headers(session_id, auth_token)
}

/// The headers of a subscription, in order: that an event stream is accepted, and
/// who asks.
pub open spec fn subscription_headers(
    session_id: Option<Seq<char>>,
    auth_token: Option<Seq<char>>,
) -> Seq<(Seq<char>, Seq<char>)> {
    seq![("Accept"@, "text/event-stream"@)] + identity_headers(session_id, auth_token)
}

/// Headers with their values as UTF-8 bytes.
pub open spec fn encoded(headers: Seq<(Seq<char>, Seq<char>)>) -> Seq<(Seq<char>, Seq<u8>)> {
    headers.map_values(|header: (Seq<char>, Seq<char>)| (header.0, encode_utf8(header.1)))
}

/// Whether every header has a value that can be sent.
pub open spec fn all_sendable(headers: Seq<(Seq<char>, Seq<char>)>) -> bool {
    forall|i: int| 0 <= i < headers.len() ==> is_sendable(#[trigger] headers[i].1)
}

/// The request of a method, an endpoint, headers and a body, or the reason why there is
/// none: a bad endpoint is reported before a bad header value.
pub open spec fn made_request(
    method: Method,
    endpoint: Seq<char>,
    headers: Seq<(Seq<char>, Seq<char>)>,
    body: Seq<char>,
) -> Result<RequestView, RequestErrorView> {
    match parsed_uri(endpoint) {
        Err(reason) => Err(RequestErrorView::Uri(reason)),
        Ok(uri) => if all_sendable(headers) {
            Ok(RequestView { method, uri, headers: encoded(headers), body })
        } else {
            Err(RequestErrorView::HeaderValue)
        },
    }
}

/// The views of a list of headers.
pub open spec fn header_views(headers: Seq<Header>) -> Seq<(Seq<char>, Seq<char>)> {
    headers.map_values(|header: Header| header@)
}

/// An optional text by its view.
pub open spec fn text_view(text: Option<String>) -> Option<Seq<char>> {
    match text {
        Some(text) => Some(text@),
        None => None,
    }
}

/// Adds the headers that tell the server who asks.
fn add_identity(
    headers: &mut Vec<Header>,
    session_id: &Option<String>,
    auth_token: &Option<String>,
)
    ensures
        header_views(final(headers)@) == header_views(old(headers)@) + identity_headers(
            text_view(*session_id),
            text_view(*auth_token),
        ),
{
    if let Some(id) = session_id {
        headers.push(Header { field: Field::SessionId, value: id.clone() });
    }
    if let Some(token) = auth_token {
        let mut value = "Bearer ".to_owned();
        value.append(token.as_str());
        headers.push(Header { field: Field::Authorization, value });
    }
}

/// The headers of a message in a session, under a token.
pub fn build_headers(session_id: &Option<String>, auth_token: &Option<String>) -> (headers: Vec<
    Header,
>)
    ensures
        header_views(headers@) == message_headers(text_view(*session_id), text_view(*auth_token)),
{
    let mut headers: Vec<Header> = Vec::new();
    headers.push(Header { field: Field::ContentType, value: "application/json".to_owned() });
    headers.push(
        Header { field: Field::Accept, value: "application/json, text/event-stream".to_owned() },
    );
    add_identity(&mut headers, session_id, auth_token);
    headers
}

/// The headers of a subscription in a session, under a token.
pub fn build_subscription_headers(
    session_id: &Option<String>,
    auth_token: &Option<String>,
) -> (headers: Vec<Header>)
    ensures
        header_views(headers@) == subscription_headers(
            text_view(*session_id),
            text_view(*auth_token),
        ),
{
    let mut headers: Vec<Header> = Vec::new();
    headers.push(Header { field: Field::Accept, value: "text/event-stream".to_owned() });
    add_identity(&mut headers, session_id, auth_token);
    headers
}

/// Makes a request of a method, an endpoint, headers and a body.
pub fn make_request(
    method: Method,
    endpoint: &str,
    headers: Vec<Header>,
    body: String,
) -> (outcome: Result<HttpRequest, RequestError>)
    ensures
        outcome_view(outcome) == made_request(method, endpoint@, header_views(headers@), body@),
{
    let uri = match parse_uri(endpoint) {
        Ok(uri) => uri,
        Err(reason) => {
            return Err(RequestError::Uri(reason));
        },
    };
    let ghost texts = header_views(headers@);
    let mut wire: Vec<WireHeader> = Vec::new();
    let mut next: usize = 0;
    while next < headers.len()
        invariant
            next <= headers.len(),
            texts == header_views(headers@),
            parsed_uri(endpoint@) == Ok::<Uri, InvalidUri>(uri),
            all_sendable(texts.take(next as int)),
            wire@.map_values(|header: WireHeader| header@) == encoded(texts.take(next as int)),
        decreases headers.len() - next,
    {
        proof {
            assert(texts[next as int] == headers[next as int]@);
            assert(texts.take(next + 1) == texts.take(next as int).push(texts[next as int]));
        }
        let value = match header_value(headers[next].value.as_str()) {
            Ok(value) => value,
            Err(reason) => {
                assert(!is_sendable(texts[next as int].1));
                return Err(RequestError::HeaderValue(reason));
            },
        };
        let ghost sent = wire@;
        wire.push(WireHeader { field: headers[next].field, value });
        proof {
            assert(wire@.map_values(|header: WireHeader| header@) == sent.map_values(
                |header: WireHeader| header@,
            ).push(wire@.last()@));
            assert(encoded(texts.take(next + 1)) == encoded(texts.take(next as int)).push(
                (texts[next as int].0, encode_utf8(texts[next as int].1)),
            ));
        }
        next = next + 1;
    }
    proof {
        assert(texts.take(headers.len() as int) == texts);
    }
    Ok(HttpRequest { method, uri, headers: wire, body })
}

} // verus!
