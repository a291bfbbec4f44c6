use http::{HeaderMap, HeaderValue};
use mcp_gateway::response::{ResponseHead, Route, ACCEPTED};

fn head(status: u16, headers: &[(&'static str, &[u8])]) -> ResponseHead {
    let mut map = HeaderMap::new();
    for (name, value) in headers {
        map.append(*name, HeaderValue::from_bytes(value).unwrap());
    }
    ResponseHead { status, headers: map }
}

#[test]
fn content_type_decides_the_route() {
    let json = head(200, &[("content-type", b"application/json; charset=utf-8")]);
    assert_eq!(json.route(), Route::Json);
    let stream = head(200, &[("content-type", b"text/event-stream")]);
    assert_eq!(stream.route(), Route::Stream);
    let html = head(200, &[("content-type", b"text/html")]);
    assert_eq!(html.route(), Route::Nothing);
    let none = head(200, &[]);
    assert_eq!(none.route(), Route::Nothing);
}

#[test]
fn content_type_is_searched_as_it_is_written() {
    let upper = head(200, &[("content-type", b"Application/JSON")]);
    assert_eq!(upper.route(), Route::Nothing);
    let cut = head(200, &[("content-type", b"application/jso")]);
    assert_eq!(cut.route(), Route::Nothing);
    let inside = head(200, &[("content-type", b"x-application/json-y")]);
    assert_eq!(inside.route(), Route::Json);
}

#[test]
fn json_goes_before_event_stream() {
    let both = head(200, &[("content-type", b"text/event-stream, application/json")]);
    assert_eq!(both.route(), Route::Json);
}

#[test]
fn accepted_has_nothing_to_read() {
    let accepted = head(ACCEPTED, &[("content-type", b"application/json")]);
    assert_eq!(ACCEPTED, 202);
    assert_eq!(accepted.route(), Route::Nothing);
}

#[test]
fn other_statuses_are_read() {
    let error = head(500, &[("content-type", b"application/json")]);
    assert_eq!(error.route(), Route::Json);
}

#[test]
fn unreadable_content_type_is_passed_over() {
    let opaque = head(200, &[("content-type", b"application/json\xfa")]);
    assert_eq!(opaque.route(), Route::Nothing);
}

#[test]
fn session_is_read_from_its_header() {
    let offered = head(200, &[("mcp-session-id", b"abc 123")]);
    assert_eq!(offered.session_id(), Some("abc 123".to_string()));
    let empty = head(200, &[("mcp-session-id", b"")]);
    assert_eq!(empty.session_id(), Some("".to_string()));
    let none = head(200, &[("content-type", b"abc")]);
    assert_eq!(none.session_id(), None);
}

#[test]
fn first_of_several_sessions_counts() {
    let two = head(200, &[("mcp-session-id", b"first"), ("mcp-session-id", b"second")]);
    assert_eq!(two.session_id(), Some("first".to_string()));
    let unreadable = head(200, &[("mcp-session-id", b"\xff"), ("mcp-session-id", b"second")]);
    assert_eq!(unreadable.session_id(), None);
}

#[test]
fn tab_is_readable() {
    let tab = head(200, &[("mcp-session-id", b"a\tb")]);
    assert_eq!(tab.session_id(), Some("a\tb".to_string()));
}
