//! What the gateway reads in the head of a response: the session and the kind of
//! answer.
use http::{HeaderMap, HeaderValue};
use vstd::prelude::*;

use crate::http_types::{
    all_visible, ascii_text, first_value, header_entries, is_header_name, lowercase, visible_text,
};
use crate::request::text_view;
use crate::text::{contains, is_part_of};

verus! {

/// The status of a response to a notification or to an answer: no content
/// follows.
pub const ACCEPTED: u16 = 202;

/// The status and the headers of a response.
pub struct ResponseHead {
    pub status: u16,
    pub headers: HeaderMap<HeaderValue>,
}

/// What a [`ResponseHead`] holds.
pub struct ResponseView {
    pub status: u16,
    pub headers: Map<Seq<char>, Seq<Seq<u8>>>,
}

impl View for ResponseHead {
    type V = ResponseView;

    open spec fn view(&self) -> ResponseView {
        ResponseView { status: self.status, headers: header_entries(self.headers) }
    }
}

/// What follows the head of a response.
#[derive(Clone, Copy, Debug, PartialEq, Eq, Structural)]
pub enum Route {
    /// Nothing to be read.
    Nothing,
    /// One JSON message.
    Json,
    /// A stream of events.
    Stream,
}

/// Whether a text is made of visible ASCII characters, spaces and tabs.
pub open spec fn is_readable(text: Seq<char>) -> bool {
    forall|i: int|
        0 <= i < text.len() ==> 32 <= #[trigger] text[i] as u32 <= 126 || text[i] as u32 == 9
}

/// The first value of a header as text, when it is there and readable.
pub open spec fn header_text(headers: Map<Seq<char>, Seq<Seq<u8>>>, name: Seq<char>) -> Option<
    Seq<char>,
> {
    if headers.contains_key(name) && all_visible(headers[name][0]) {
        Some(ascii_text(headers[name][0]))
    } else {
        None
    }
}

/// The session that a response offers.
pub open spec fn offered_session(response: ResponseView) -> Option<Seq<char>> {
    header_text(response.headers, "mcp-session-id"@)
}

/// The session after a response: one that is known stays, and one that is
/// offered is taken otherwise.
pub open spec fn session_after(session_id: Option<Seq<char>>, response: ResponseView) -> Option<
    Seq<char>,
> {
    match session_id {
        Some(id) => Some(id),
        None => offered_session(response),
    }
}

/// The kind of answer that a content type announces. One that names both kinds
/// announces JSON.
pub open spec fn announced(content_type: Option<Seq<char>>) -> Route {
    match content_type {
        Some(text) => if is_part_of("application/json"@, text) {
            Route::Json
        } else if is_part_of("text/event-stream"@, text) {
            Route::Stream
        } else {
            Route::Nothing
        },
        None => Route::Nothing,
    }
}

/// What follows the head of a response: nothing when the status is 202, and what
/// the content type announces otherwise.
pub open spec fn route_of(response: ResponseView) -> Route {
    if response.status == ACCEPTED {
        Route::Nothing
    } else {
        announced(header_text(response.headers, "content-type"@))
    }
}

/// The first value of a header as text, when it is there and readable.
fn read_header(headers: &HeaderMap<HeaderValue>, name: &str) -> (text: Option<String>)
    requires
        is_header_name(name@),
    ensures
        text_view(text) == header_text(header_entries(*headers), lowercase(name@)),
{
    match first_value(headers, name) {
        Some(value) => match visible_text(value) {
            Some(shown) => Some(shown.to_owned()),
            None => None,
        },
        None => None,
    }
}

impl ResponseHead {
    /// The session that the response offers, if it does.
    pub fn session_id(&self) -> (id: Option<String>)
        ensures
            text_view(id) == offered_session(self@),
    {
        proof {
            reveal_strlit("Mcp-Session-Id");
            reveal_strlit("mcp-session-id");
            assert(lowercase("Mcp-Session-Id"@) =~= "mcp-session-id"@);
        }
        read_header(&self.headers, "Mcp-Session-Id")
    }

    /// What is to be read after the head.
    pub fn route(&self) -> (route: Route)
        ensures
            route == route_of(self@),
    {
        if self.status == ACCEPTED {
            return Route::Nothing;
        }
        proof {
            reveal_strlit("Content-Type");
            reveal_strlit("content-type");
            assert(lowercase("Content-Type"@) =~= "content-type"@);
        }
        match read_header(&self.headers, "Content-Type") {
            Some(content_type) => if contains(content_type.as_str(), "application/json") {
                Route::Json
            } else if contains(content_type.as_str(), "text/event-stream") {
                Route::Stream
            } else {
                Route::Nothing
            },
            None => Route::Nothing,
        }
    }
}

} // verus!
