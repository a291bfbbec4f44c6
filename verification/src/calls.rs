//! What the calls of the library come to, told by the values that go in and the
//! values that come out.
//!
//! In each statement `call_ensures(f, arguments, result)` says that a call of `f` on
//! the arguments gave the result, and `call_requires(f, arguments)` that the call may
//! be made.
use std::string::FromUtf8Error;
use vstd::prelude::*;
use vstd::utf8::*;

use crate::http_types::{
    all_visible, ascii_text, header_bytes, header_entries, is_sendable, parsed_uri,
};
use crate::request::{
    build_headers, build_subscription_headers, header_views, make_request, Field, Header,
    HttpRequest, Method, RequestError, WireHeader,
};
use crate::response::{route_of, ResponseHead, Route};
use crate::stream::{on_stream_event, Fragment, StreamEvent, StreamStep};
use crate::text::{decode_body, join_chunks, utf8_refusal};

verus! {

/// Data of any length is printed, character for character.
pub proof fn data_is_printed_as_it_came(data: String, step: StreamStep)
    requires
        call_ensures(on_stream_event, (StreamEvent::Fragment(Fragment::Data(data)),), step),
    ensures
        step matches StreamStep::Print(line) && line@ == data@,
{
}

/// Fragments that are not data are passed over, whatever they say.
pub proof fn other_fragments_are_passed_over(fragment: Fragment, step: StreamStep)
    requires
        call_ensures(on_stream_event, (StreamEvent::Fragment(fragment),), step),
        !(fragment is Data),
    ensures
        step is Continue,
{
}

/// A stream is left exactly when something other than a fragment comes of it: it
/// broke, ended or fell silent.
pub proof fn stream_is_left_without_a_fragment(event: StreamEvent, step: StreamStep)
    requires
        call_ensures(on_stream_event, (event,), step),
    ensures
        call_requires(on_stream_event, (event,)),
        step is Stop <==> !(event is Fragment),
{
}

/// No chunks make an empty body.
pub proof fn no_chunks_make_an_empty_body(chunks: Vec<Vec<u8>>, body: Vec<u8>)
    requires
        call_ensures(join_chunks, (chunks,), body),
        chunks@.len() == 0,
    ensures
        body@.len() == 0,
{
}

/// A chunk more adds its bytes at the end of the body, and changes nothing before
/// them.
pub proof fn chunk_is_added_at_the_end(
    chunks: Vec<Vec<u8>>,
    chunk: Vec<u8>,
    more: Vec<Vec<u8>>,
    body: Vec<u8>,
    longer: Vec<u8>,
)
    requires
        more@ == chunks@.push(chunk),
        call_ensures(join_chunks, (chunks,), body),
        call_ensures(join_chunks, (more,), longer),
    ensures
        call_requires(join_chunks, (more,)),
        longer@ == body@ + chunk@,
{
    let few = chunks@.map_values(|chunk: Vec<u8>| chunk@);
    let all = more@.map_values(|chunk: Vec<u8>| chunk@);
    assert(all == few.push(chunk@));
    assert(all.drop_last() == few);
    assert(all.last() == chunk@);
    few.lemma_flatten_and_flatten_alt_are_equivalent();
    all.lemma_flatten_and_flatten_alt_are_equivalent();
}

/// A body that came in one piece is that piece.
pub proof fn single_chunk_is_the_body(chunks: Vec<Vec<u8>>, body: Vec<u8>)
    requires
        call_ensures(join_chunks, (chunks,), body),
        chunks@.len() == 1,
    ensures
        body@ == chunks@[0]@,
{
    let all = chunks@.map_values(|chunk: Vec<u8>| chunk@);
    let none = all.drop_last();
    assert(none == Seq::<Seq<u8>>::empty());
    all.lemma_flatten_and_flatten_alt_are_equivalent();
    none.lemma_flatten_and_flatten_alt_are_equivalent();
    assert(none.flatten() == Seq::<u8>::empty());
    assert(all == none.push(chunks@[0]@));
}

/// A body is decoded exactly when it is UTF-8 as a whole, to the text whose UTF-8
/// bytes it is. What is refused is the whole body too.
pub proof fn decoded_text_has_the_bytes_of_the_body(
    chunks: Vec<Vec<u8>>,
    body: Vec<u8>,
    text: Result<String, FromUtf8Error>,
)
    requires
        call_ensures(join_chunks, (chunks,), body),
        call_ensures(decode_body, (chunks,), text),
    ensures
        call_requires(decode_body, (chunks,)),
        text is Ok <==> valid_utf8(body@),
        text matches Ok(decoded) ==> encode_utf8(decoded@) == body@,
        text matches Err(reason) ==> reason == utf8_refusal(body@),
{
    if valid_utf8(body@) {
        decode_utf8_encode_utf8(body@);
    }
}

/// A response offers a session exactly when it has the session header and the bytes of
/// the first value are visible, whatever its status and its other headers. The session
/// is those bytes, character for character.
pub proof fn session_is_what_the_header_says(head: ResponseHead, id: Option<String>)
    requires
        call_ensures(ResponseHead::session_id, (&head,), id),
    ensures
        call_requires(ResponseHead::session_id, (&head,)),
        ({
            let entries = header_entries(head.headers);
            let bytes = entries["mcp-session-id"@][0];
            &&& id is Some <==> entries.contains_key("mcp-session-id"@) && forall|i: int|
                0 <= i < bytes.len() ==> 32 <= #[trigger] bytes[i] <= 126 || bytes[i] == 9
            &&& id matches Some(text) ==> {
                &&& text@.len() == bytes.len()
                &&& forall|i: int| 0 <= i < bytes.len() ==> #[trigger] text@[i] == bytes[i] as char
            }
        }),
{
    reveal_visible(header_entries(head.headers)["mcp-session-id"@][0]);
}

/// Visible bytes, by their numbers.
pub(crate) proof fn reveal_visible(bytes: Seq<u8>)
    ensures
        all_visible(bytes) <==> forall|i: int|
            0 <= i < bytes.len() ==> 32 <= #[trigger] bytes[i] <= 126 || bytes[i] == 9,
{
}

/// Nothing follows a response with the status 202, whatever its headers.
pub proof fn nothing_follows_accepted(head: ResponseHead, route: Route)
    requires
        call_ensures(ResponseHead::route, (&head,), route),
        head.status == 202,
    ensures
        call_requires(ResponseHead::route, (&head,)),
        route == Route::Nothing,
{
}

/// Nothing follows a response without a content type, or with one whose first value is
/// not visible throughout.
pub proof fn nothing_follows_without_a_readable_content_type(head: ResponseHead, route: Route)
    requires
        call_ensures(ResponseHead::route, (&head,), route),
        header_entries(head.headers).contains_key("content-type"@) ==> {
            let bytes = header_entries(head.headers)["content-type"@][0];
            exists|i: int|
                0 <= i < bytes.len() && (#[trigger] bytes[i] < 32 || bytes[i] > 126) && bytes[i]
                    != 9
        },
    ensures
        route == Route::Nothing,
{
    reveal_visible(header_entries(head.headers)["content-type"@][0]);
}

/// A response that is not 202 and whose content type reads as `text`: JSON follows
/// exactly when `application/json` stands somewhere in it; an event stream follows
/// exactly when `text/event-stream` does and the other does not.
pub proof fn content_type_tells_what_follows(head: ResponseHead, text: Seq<char>, route: Route)
    requires
        call_ensures(ResponseHead::route, (&head,), route),
        head.status != 202,
        header_entries(head.headers).contains_key("content-type"@),
        ({
            let bytes = header_entries(head.headers)["content-type"@][0];
            &&& text.len() == bytes.len()
            &&& forall|i: int| 0 <= i < bytes.len() ==> #[trigger] text[i] == bytes[i] as char
            &&& forall|i: int|
                0 <= i < bytes.len() ==> 32 <= #[trigger] bytes[i] <= 126 || bytes[i] == 9
        }),
    ensures
        route == Route::Json <==> exists|start: int|
            0 <= start <= text.len() - "application/json"@.len() && #[trigger] text.subrange(
                start,
                start + "application/json"@.len(),
            ) == "application/json"@,
        route == Route::Stream <==> route != Route::Json && exists|start: int|
            0 <= start <= text.len() - "text/event-stream"@.len() && #[trigger] text.subrange(
                start,
                start + "text/event-stream"@.len(),
            ) == "text/event-stream"@,
{
    route_by_content_type(head, text);
}

/// The route of a response by the places of the media types in its content type.
pub(crate) proof fn route_by_content_type(head: ResponseHead, text: Seq<char>)
    requires
        head.status != 202,
        header_entries(head.headers).contains_key("content-type"@),
        text.len() == header_entries(head.headers)["content-type"@][0].len(),
        forall|i: int|
            0 <= i < text.len() ==> #[trigger] text[i] == header_entries(
                head.headers,
            )["content-type"@][0][i] as char,
        all_visible(header_entries(head.headers)["content-type"@][0]),
    ensures
        route_of(head@) == Route::Json <==> exists|start: int|
            0 <= start <= text.len() - "application/json"@.len() && #[trigger] text.subrange(
                start,
                start + "application/json"@.len(),
            ) == "application/json"@,
        route_of(head@) == Route::Stream <==> route_of(head@) != Route::Json && exists|start: int|
            0 <= start <= text.len() - "text/event-stream"@.len() && #[trigger] text.subrange(
                start,
                start + "text/event-stream"@.len(),
            ) == "text/event-stream"@,
{
    let bytes = header_entries(head.headers)["content-type"@][0];
    assert(ascii_text(bytes) =~= text);
}

/// The names of the headers.
pub proof fn headers_have_their_names(field: Field, name: &'static str)
    requires
        call_ensures(Field::as_str, (field,), name),
    ensures
        call_requires(Field::as_str, (field,)),
        field == Field::ContentType ==> name@ == "Content-Type"@,
        field == Field::Accept ==> name@ == "Accept"@,
        field == Field::SessionId ==> name@ == "Mcp-Session-Id"@,
        field == Field::Authorization ==> name@ == "Authorization"@,
{
}

/// The names of the methods.
pub proof fn methods_have_their_names(method: Method, name: &'static str)
    requires
        call_ensures(Method::as_str, (method,), name),
    ensures
        call_requires(Method::as_str, (method,)),
        method == Method::Get ==> name@ == "GET"@,
        method == Method::Post ==> name@ == "POST"@,
{
}

/// The headers of a message: its content type and what is accepted; then the session
/// as it is, exactly when there is one; then the token behind the word `Bearer`,
/// exactly when there is one.
pub proof fn message_headers_tell_who_asks(
    session_id: Option<String>,
    auth_token: Option<String>,
    headers: Vec<Header>,
)
    requires
        call_ensures(build_headers, (&session_id, &auth_token), headers),
    ensures
        call_requires(build_headers, (&session_id, &auth_token)),
        headers@.len() == 2 + (if session_id is Some {
            1int
        } else {
            0
        }) + (if auth_token is Some {
            1int
        } else {
            0
        }),
        headers@[0].field == Field::ContentType && headers@[0].value@ == "application/json"@,
        headers@[1].field == Field::Accept && headers@[1].value@
            == "application/json, text/event-stream"@,
        session_id matches Some(id) ==> headers@[2].field == Field::SessionId
            && headers@[2].value@ == id@,
        auth_token matches Some(token) ==> headers@.last().field == Field::Authorization
            && headers@.last().value@ == "Bearer "@ + token@,
{
    let views = header_views(headers@);
    assert(views.len() == headers@.len());
    assert(views[0] == headers@[0]@ && views[1] == headers@[1]@);
    names_tell_fields_apart(headers@[0].field, Field::ContentType);
    names_tell_fields_apart(headers@[1].field, Field::Accept);
    if let Some(id) = session_id {
        assert(views[2] == headers@[2]@);
        names_tell_fields_apart(headers@[2].field, Field::SessionId);
    }
    if let Some(token) = auth_token {
        assert(views.last() == headers@.last()@);
        names_tell_fields_apart(headers@.last().field, Field::Authorization);
    }
}

/// Headers of different names are different headers.
pub(crate) proof fn names_tell_fields_apart(left: Field, right: Field)
    requires
        left.name() == right.name(),
    ensures
        left == right,
{
    reveal_strlit("Content-Type");
    reveal_strlit("Accept");
    reveal_strlit("Mcp-Session-Id");
    reveal_strlit("Authorization");
    assert("Content-Type"@[0] == 'C' && "Accept"@[1] == 'c' && "Mcp-Session-Id"@[0] == 'M'
        && "Authorization"@[1] == 'u' && "Accept"@[0] == 'A' && "Authorization"@[0] == 'A');
}

/// The headers of a subscription: an event stream is accepted; then the session and the
/// token, as in a message.
pub proof fn subscription_headers_tell_who_asks(
    session_id: Option<String>,
    auth_token: Option<String>,
    headers: Vec<Header>,
)
    requires
        call_ensures(build_subscription_headers, (&session_id, &auth_token), headers),
    ensures
        call_requires(build_subscription_headers, (&session_id, &auth_token)),
        headers@.len() == 1 + (if session_id is Some {
            1int
        } else {
            0
        }) + (if auth_token is Some {
            1int
        } else {
            0
        }),
        headers@[0].field == Field::Accept && headers@[0].value@ == "text/event-stream"@,
        session_id matches Some(id) ==> headers@[1].field == Field::SessionId
            && headers@[1].value@ == id@,
        auth_token matches Some(token) ==> headers@.last().field == Field::Authorization
            && headers@.last().value@ == "Bearer "@ + token@,
{
    let views = header_views(headers@);
    assert(views.len() == headers@.len());
    assert(views[0] == headers@[0]@);
    names_tell_fields_apart(headers@[0].field, Field::Accept);
    if let Some(id) = session_id {
        assert(views[1] == headers@[1]@);
        names_tell_fields_apart(headers@[1].field, Field::SessionId);
    }
    if let Some(token) = auth_token {
        assert(views.last() == headers@.last()@);
        names_tell_fields_apart(headers@.last().field, Field::Authorization);
    }
}

/// A request is refused exactly when the endpoint is no URI, which is reported first,
/// or when the value of a header holds a control character other than the tab.
pub proof fn request_is_refused_for_a_reason(
    method: Method,
    endpoint: &str,
    headers: Vec<Header>,
    body: String,
    outcome: Result<HttpRequest, RequestError>,
)
    requires
        call_ensures(make_request, (method, endpoint, headers, body), outcome),
    ensures
        call_requires(make_request, (method, endpoint, headers, body)),
        parsed_uri(endpoint@) matches Err(reason) ==> outcome matches Err(
            RequestError::Uri(given),
        ) && given == reason,
        parsed_uri(endpoint@) is Ok ==> !(outcome matches Err(RequestError::Uri(_))),
        parsed_uri(endpoint@) is Ok ==> (outcome is Ok <==> forall|i: int, j: int|
            0 <= i < headers@.len() && 0 <= j < headers@[i].value@.len() ==> {
                let c = #[trigger] headers@[i].value@[j] as u32;
                c >= 32 && c != 127 || c == 9
            }),
{
    let views = header_views(headers@);
    assert(views.len() == headers@.len());
    assert(forall|i: int|
        0 <= i < headers@.len() ==> #[trigger] views[i].1 == headers@[i].value@);
    if outcome is Ok {
        assert forall|i: int, j: int|
            0 <= i < headers@.len() && 0 <= j < headers@[i].value@.len() implies {
            let c = #[trigger] headers@[i].value@[j] as u32;
            c >= 32 && c != 127 || c == 9
        } by {
            assert(is_sendable(views[i].1));
        }
    } else if parsed_uri(endpoint@) is Ok {
        let i = choose|i: int| 0 <= i < views.len() && !is_sendable(#[trigger] views[i].1);
        let text = views[i].1;
        let j = choose|j: int|
            0 <= j < text.len() && !((#[trigger] text[j] as u32 >= 32 && text[j] as u32 != 127)
                || text[j] as u32 == 9);
        assert(headers@[i].value@[j] == text[j]);
    }
}

/// A request has the method and the body that it was made of, the URI of the endpoint,
/// and the headers in their order, each with its value in UTF-8.
pub proof fn request_has_what_it_was_made_of(
    method: Method,
    endpoint: &str,
    headers: Vec<Header>,
    body: String,
    request: HttpRequest,
)
    requires
        call_ensures(
            make_request,
            (method, endpoint, headers, body),
            Ok::<HttpRequest, RequestError>(request),
        ),
    ensures
        request.method == method,
        parsed_uri(endpoint@) == Ok::<http::Uri, http::uri::InvalidUri>(request.uri),
        request.body@ == body@,
        request.headers@.len() == headers@.len(),
        forall|i: int|
            0 <= i < headers@.len() ==> (#[trigger] request.headers@[i]).field == headers@[i].field
                && header_bytes(request.headers@[i].value) == encode_utf8(headers@[i].value@),
{
    let wire = request.headers@.map_values(|header: WireHeader| header@);
    assert(request@.headers == wire);
    assert(wire.len() == request.headers@.len());
    assert forall|i: int| 0 <= i < headers@.len() implies (#[trigger] request.headers@[i]).field
        == headers@[i].field && header_bytes(request.headers@[i].value) == encode_utf8(
        headers@[i].value@,
    ) by {
        assert(wire[i] == request.headers@[i]@);
        assert(header_views(headers@)[i] == headers@[i]@);
        names_tell_fields_apart(request.headers@[i].field, headers@[i].field);
    }
}

} // verus!
