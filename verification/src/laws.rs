//! What holds of every run of the bridge.
use vstd::prelude::*;
use vstd::utf8::*;

use crate::bridge::{
    answer, can_happen, line_request, next_state, subscription_request, BridgeState, CommandView,
    ErrorView, EventView, Phase, Subscription,
};
use crate::http_types::{all_visible, ascii_text, is_sendable, parsed_uri};
use crate::request::{
    all_sendable, bearer, encoded, message_headers, subscription_headers, Method,
    RequestErrorView, RequestView,
};
use crate::response::{header_text, is_readable, offered_session, ResponseView, ACCEPTED};
use crate::stream::{messages, StreamEventView};
use crate::text::is_part_of;

verus! {

/// Whether each of the events can happen when its turn comes.
pub open spec fn possible(state: BridgeState, events: Seq<EventView>) -> bool
    decreases events.len(),
{
    events.len() == 0 || (can_happen(state, events.first()) && possible(
        next_state(state, events.first()),
        events.drop_first(),
    ))
}

/// The state after a run.
pub open spec fn state_after(state: BridgeState, events: Seq<EventView>) -> BridgeState
    decreases events.len(),
{
    if events.len() == 0 {
        state
    } else {
        state_after(next_state(state, events.first()), events.drop_first())
    }
}

/// What a run prints.
pub open spec fn printed(state: BridgeState, events: Seq<EventView>) -> Seq<Seq<char>>
    decreases events.len(),
{
    if events.len() == 0 {
        Seq::empty()
    } else {
        let rest = printed(next_state(state, events.first()), events.drop_first());
        match answer(state, events.first()).output {
            Some(line) => seq![line] + rest,
            None => rest,
        }
    }
}

/// The requests that a run sends.
pub open spec fn sent(state: BridgeState, events: Seq<EventView>) -> Seq<RequestView>
    decreases events.len(),
{
    if events.len() == 0 {
        Seq::empty()
    } else {
        let rest = sent(next_state(state, events.first()), events.drop_first());
        match answer(state, events.first()).command {
            CommandView::Send(request) => seq![request] + rest,
            _ => rest,
        }
    }
}

/// The first session that is offered among the events.
pub open spec fn first_offer(events: Seq<EventView>) -> Option<Seq<char>>
    decreases events.len(),
{
    if events.len() == 0 {
        None
    } else {
        match events.first() {
            EventView::Response(response) if offered_session(response) is Some => offered_session(
                response,
            ),
            _ => first_offer(events.drop_first()),
        }
    }
}

/// The lines among the events that are not empty.
pub open spec fn lines(events: Seq<EventView>) -> Seq<Seq<char>>
    decreases events.len(),
{
    if events.len() == 0 {
        Seq::empty()
    } else {
        match events.first() {
            EventView::Line(line) if line.len() > 0 => seq![line] + lines(events.drop_first()),
            _ => lines(events.drop_first()),
        }
    }
}

/// The messages of the server among the events: the bodies that are UTF-8, and
/// the data of the event streams and of the subscription.
pub open spec fn server_messages(events: Seq<EventView>) -> Seq<Seq<char>>
    decreases events.len(),
{
    if events.len() == 0 {
        Seq::empty()
    } else {
        let rest = server_messages(events.drop_first());
        match events.first() {
            EventView::Body(chunks) if valid_utf8(chunks.flatten()) => seq![
                decode_utf8(chunks.flatten()),
            ] + rest,
            EventView::Stream(StreamEventView::Message(data)) => seq![data] + rest,
            EventView::Push(StreamEventView::Message(data)) => seq![data] + rest,
            _ => rest,
        }
    }
}

/// Whether an endpoint and a token are fit for requests.
pub open spec fn is_usable(endpoint: Seq<char>, auth_token: Option<Seq<char>>) -> bool {
    &&& parsed_uri(endpoint) is Ok
    &&& auth_token matches Some(token) ==> is_sendable(token)
}

/// The endpoint and the token stay what they are, whatever happens.
pub proof fn endpoint_and_token_stay(state: BridgeState, events: Seq<EventView>)
    ensures
        state_after(state, events).endpoint == state.endpoint,
        state_after(state, events).auth_token == state.auth_token,
    decreases events.len(),
{
    if events.len() > 0 {
        endpoint_and_token_stay(next_state(state, events.first()), events.drop_first());
    }
}

/// A session that is known is kept, whatever the server offers later.
pub proof fn session_stays(state: BridgeState, events: Seq<EventView>)
    requires
        state.session_id is Some,
    ensures
        state_after(state, events).session_id == state.session_id,
    decreases events.len(),
{
    if events.len() > 0 {
        session_stays(next_state(state, events.first()), events.drop_first());
    }
}

/// While no session is known, the first one that is offered becomes the session.
pub proof fn session_is_the_first_offer(state: BridgeState, events: Seq<EventView>)
    requires
        state.session_id is None,
    ensures
        state_after(state, events).session_id == first_offer(events),
    decreases events.len(),
{
    if events.len() > 0 {
        let next = next_state(state, events.first());
        if next.session_id is Some {
            session_stays(next, events.drop_first());
        } else {
            session_is_the_first_offer(next, events.drop_first());
        }
    }
}

/// A session, where there is one, stays a readable text.
pub proof fn well_formed_stays(state: BridgeState, events: Seq<EventView>)
    requires
        state.well_formed(),
    ensures
        state_after(state, events).well_formed(),
    decreases events.len(),
{
    if events.len() > 0 {
        well_formed_stays(next_state(state, events.first()), events.drop_first());
    }
}

/// A run that falls into two parts: the second goes on from the state in which the
/// first ends, and what is printed and sent stands in the order of the parts.
pub proof fn run_in_two_parts(state: BridgeState, first: Seq<EventView>, second: Seq<EventView>)
    ensures
        state_after(state, first + second) == state_after(state_after(state, first), second),
        possible(state, first + second) <==> possible(state, first) && possible(
            state_after(state, first),
            second,
        ),
        printed(state, first + second) == printed(state, first) + printed(
            state_after(state, first),
            second,
        ),
        sent(state, first + second) == sent(state, first) + sent(
            state_after(state, first),
            second,
        ),
    decreases first.len(),
{
    if first.len() == 0 {
        assert(first + second == second);
    } else {
        assert((first + second).first() == first.first());
        assert((first + second).drop_first() == first.drop_first() + second);
        run_in_two_parts(next_state(state, first.first()), first.drop_first(), second);
    }
}

/// The session that is known after events: the one that was known before them, or
/// else the first that they offer.
pub open spec fn known_session(session_id: Option<Seq<char>>, events: Seq<EventView>) -> Option<
    Seq<char>,
> {
    match session_id {
        Some(id) => Some(id),
        None => first_offer(events),
    }
}

/// The session is all that a run hands on to the lines that come after it: a bridge
/// that reads again is the bridge that it was, but for the session and the subscription.
pub proof fn session_is_all_that_is_carried(
    state: BridgeState,
    first: Seq<EventView>,
    second: Seq<EventView>,
)
    requires
        state.phase == Phase::Reading,
        state_after(state, first).phase == Phase::Reading,
    ensures
        ({
            let carried = BridgeState {
                session_id: known_session(state.session_id, first),
                subscription: state_after(state, first).subscription,
                ..state
            };
            &&& state_after(state, first) == carried
            &&& state_after(state, first + second) == state_after(carried, second)
            &&& printed(state, first + second) == printed(state, first) + printed(carried, second)
            &&& sent(state, first + second) == sent(state, first) + sent(carried, second)
        }),
{
    endpoint_and_token_stay(state, first);
    if state.session_id is Some {
        session_stays(state, first);
    } else {
        session_is_the_first_offer(state, first);
    }
    run_in_two_parts(state, first, second);
}

/// The headers of a message, and those of the subscription, can be sent unless the
/// token forbids it: neither a readable session nor the fixed headers stand in the
/// way.
proof fn headers_are_sendable(session_id: Option<Seq<char>>, auth_token: Option<Seq<char>>)
    requires
        session_id matches Some(id) ==> is_readable(id),
    ensures
        all_sendable(message_headers(session_id, auth_token)) <==> (auth_token matches Some(
            token,
        ) ==> is_sendable(token)),
        all_sendable(subscription_headers(session_id, auth_token)) <==> (auth_token matches Some(
            token,
        ) ==> is_sendable(token)),
{
    reveal_strlit("text/event-stream");
    reveal_strlit("application/json");
    reveal_strlit("application/json, text/event-stream");
    reveal_strlit("Bearer ");
    let headers = message_headers(session_id, auth_token);
    assert(is_sendable(headers[0].1));
    assert(is_sendable(headers[1].1));
    let subscription = subscription_headers(session_id, auth_token);
    assert(is_sendable(subscription[0].1));
    if let Some(token) = auth_token {
        assert(is_sendable(bearer(token)) <==> is_sendable(token)) by {
            let prefix = "Bearer "@;
            assert(forall|i: int|
                0 <= i < token.len() ==> #[trigger] bearer(token)[prefix.len() + i] == token[i]);
            if is_sendable(bearer(token)) {
                assert forall|i: int| 0 <= i < token.len() implies (#[trigger] token[i] as u32 >= 32
                    && token[i] as u32 != 127) || token[i] as u32 == 9 by {
                    assert(bearer(token)[prefix.len() + i] == token[i]);
                }
            }
        }
        assert(headers.last().1 == bearer(token));
        assert(subscription.last().1 == bearer(token));
    }
}

/// Whether a line is taken depends on the endpoint and the token alone: in no
/// state of a run does a session that the server gave make a line fail.
pub proof fn only_endpoint_and_token_refuse_a_line(
    state: BridgeState,
    events: Seq<EventView>,
    line: Seq<char>,
)
    requires
        state.well_formed(),
    ensures
        line_request(state_after(state, events), line) is Ok <==> is_usable(
            state.endpoint,
            state.auth_token,
        ),
{
    endpoint_and_token_stay(state, events);
    well_formed_stays(state, events);
    headers_are_sendable(state_after(state, events).session_id, state.auth_token);
}

/// Whether the subscription can be asked for depends on the endpoint and the token
/// alone, as it does for a line.
pub proof fn only_endpoint_and_token_refuse_the_subscription(
    state: BridgeState,
    events: Seq<EventView>,
)
    requires
        state.well_formed(),
    ensures
        subscription_request(state_after(state, events)) is Ok <==> is_usable(
            state.endpoint,
            state.auth_token,
        ),
{
    endpoint_and_token_stay(state, events);
    well_formed_stays(state, events);
    headers_are_sendable(state_after(state, events).session_id, state.auth_token);
}

/// What a request holds that carries a line: it is a POST; the line, unchanged, is
/// its body; the content type and what is accepted; the session exactly when one is known;
/// the token exactly when there is one.
pub proof fn request_holds(state: BridgeState, line: Seq<char>, request: RequestView)
    requires
        line_request(state, line) == Ok::<_, RequestErrorView>(request),
    ensures
        parsed_uri(state.endpoint) == Ok::<_, http::uri::InvalidUri>(request.uri),
        request.method == Method::Post,
        request.body == line,
        request.headers.contains(("Content-Type"@, encode_utf8("application/json"@))),
        request.headers.contains(
            ("Accept"@, encode_utf8("application/json, text/event-stream"@)),
        ),
        forall|value: Seq<u8>|
            request.headers.contains(("Mcp-Session-Id"@, value)) <==> (state.session_id matches Some(
                id,
            ) && value == encode_utf8(id)),
        forall|value: Seq<u8>|
            request.headers.contains(("Authorization"@, value)) <==> (state.auth_token matches Some(
                token,
            ) && value == encode_utf8("Bearer "@ + token)),
{
    let texts = message_headers(state.session_id, state.auth_token);
    assert(request.headers == encoded(texts));
    reveal_strlit("Content-Type");
    reveal_strlit("Accept");
    reveal_strlit("Mcp-Session-Id");
    reveal_strlit("Authorization");
    assert("Content-Type"@[0] == 'C' && "Accept"@[1] == 'c' && "Mcp-Session-Id"@[0] == 'M'
        && "Authorization"@[1] == 'u' && "Accept"@[0] == 'A' && "Authorization"@[0] == 'A');
    assert(request.headers[0] == ("Content-Type"@, encode_utf8("application/json"@)));
    assert(request.headers[1] == (
        "Accept"@,
        encode_utf8("application/json, text/event-stream"@),
    ));
    if let Some(id) = state.session_id {
        assert(request.headers[2] == ("Mcp-Session-Id"@, encode_utf8(id)));
    }
    if let Some(token) = state.auth_token {
        assert(request.headers.last() == ("Authorization"@, encode_utf8(bearer(token))));
    }
}

/// What the request for the subscription holds: it is a GET without a body; an event
/// stream is all that it accepts, and it names no content type; the session exactly
/// when one is known; the token exactly when there is one.
pub proof fn subscription_request_holds(state: BridgeState, request: RequestView)
    requires
        subscription_request(state) == Ok::<_, RequestErrorView>(request),
    ensures
        parsed_uri(state.endpoint) == Ok::<_, http::uri::InvalidUri>(request.uri),
        request.method == Method::Get,
        request.body.len() == 0,
        forall|value: Seq<u8>|
            request.headers.contains(("Accept"@, value)) <==> value == encode_utf8(
                "text/event-stream"@,
            ),
        forall|value: Seq<u8>| !request.headers.contains(("Content-Type"@, value)),
        forall|value: Seq<u8>|
            request.headers.contains(("Mcp-Session-Id"@, value)) <==> (state.session_id matches Some(
                id,
            ) && value == encode_utf8(id)),
        forall|value: Seq<u8>|
            request.headers.contains(("Authorization"@, value)) <==> (state.auth_token matches Some(
                token,
            ) && value == encode_utf8("Bearer "@ + token)),
{
    let texts = subscription_headers(state.session_id, state.auth_token);
    assert(request.headers == encoded(texts));
    reveal_strlit("Content-Type");
    reveal_strlit("Accept");
    reveal_strlit("Mcp-Session-Id");
    reveal_strlit("Authorization");
    assert("Content-Type"@[0] == 'C' && "Accept"@[1] == 'c' && "Mcp-Session-Id"@[0] == 'M'
        && "Authorization"@[1] == 'u' && "Accept"@[0] == 'A' && "Authorization"@[0] == 'A');
    assert(request.headers[0] == ("Accept"@, encode_utf8("text/event-stream"@)));
    if let Some(id) = state.session_id {
        assert(request.headers[1] == ("Mcp-Session-Id"@, encode_utf8(id)));
    }
    if let Some(token) = state.auth_token {
        assert(request.headers.last() == ("Authorization"@, encode_utf8(bearer(token))));
    }
}

/// Whether a request is a POST to the endpoint that a run began with; holds the token
/// exactly when there is one; and holds a session exactly when one was known at the
/// beginning or offered by the events before the request.
pub open spec fn belongs_to(
    request: RequestView,
    state: BridgeState,
    before: Seq<EventView>,
) -> bool {
    &&& request.method == Method::Post
    &&& parsed_uri(state.endpoint) == Ok::<_, http::uri::InvalidUri>(request.uri)
    &&& forall|value: Seq<u8>|
        request.headers.contains(("Authorization"@, value)) <==> (state.auth_token matches Some(
            token,
        ) && value == encode_utf8("Bearer "@ + token))
    &&& forall|value: Seq<u8>|
        request.headers.contains(("Mcp-Session-Id"@, value)) <==> (known_session(
            state.session_id,
            before,
        ) matches Some(id) && value == encode_utf8(id))
}

/// Whether the request at an index among those that a run sends is the one that
/// carries the line at a place among its events.
pub open spec fn carries(
    state: BridgeState,
    events: Seq<EventView>,
    index: int,
    place: int,
) -> bool {
    &&& 0 <= place < events.len()
    &&& sent(state, events.take(place)).len() == index
    &&& events[place] == EventView::Line(sent(state, events)[index].body)
    &&& belongs_to(sent(state, events)[index], state, events.take(place))
}

/// Every request of a run is a POST that carries a line of the run, to the endpoint,
/// under the token if there is one and under no other, and in the session that was
/// known when the line was read and in no other.
pub proof fn every_request_belongs(state: BridgeState, events: Seq<EventView>, index: int)
    requires
        0 <= index < sent(state, events).len(),
    ensures
        exists|place: int| carries(state, events, index, place),
    decreases events.len(),
{
    let earlier = events.drop_last();
    let last = events.last();
    let reached = state_after(state, earlier);
    assert(events == earlier + seq![last]);
    run_in_two_parts(state, earlier, seq![last]);
    assert(seq![last].first() == last);
    assert(sent(next_state(reached, last), seq![last].drop_first()).len() == 0);
    if index < sent(state, earlier).len() {
        every_request_belongs(state, earlier, index);
        let place = choose|place: int| carries(state, earlier, index, place);
        assert(events.take(place) == earlier.take(place));
        assert(carries(state, events, index, place));
    } else {
        let place = earlier.len() as int;
        let request = answer(reached, last).command->Send_0;
        assert(events.take(place) == earlier);
        assert(sent(state, events)[index] == request);
        endpoint_and_token_stay(state, earlier);
        if state.session_id is Some {
            session_stays(state, earlier);
        } else {
            session_is_the_first_offer(state, earlier);
        }
        request_holds(reached, last->Line_0, request);
        assert(carries(state, events, index, place));
    }
}

/// Readable bytes come back from their text.
proof fn readable_bytes_round_trip(bytes: Seq<u8>)
    requires
        all_visible(bytes),
    ensures
        encode_utf8(ascii_text(bytes)) == bytes,
{
    let text = ascii_text(bytes);
    assert forall|i: int| 0 <= i < text.len() implies '\0' <= #[trigger] text[i] <= '\u{7f}' by {
        assert(bytes[i] < 127);
    }
    is_ascii_chars_encode_utf8(text);
    assert forall|i: int| 0 <= i < bytes.len() implies encode_utf8(text)[i] == bytes[i] by {
        assert(text[i] == bytes[i] as char);
    }
    assert(encode_utf8(text) =~= bytes);
}

/// The session goes back to the server byte for byte: once a response has brought
/// the first session header of visible bytes, every later request holds those bytes,
/// whatever the rest of the response was and whatever happened in between.
pub proof fn session_is_sent_back(
    state: BridgeState,
    response: ResponseView,
    events: Seq<EventView>,
    line: Seq<char>,
    request: RequestView,
)
    requires
        state.session_id is None,
        response.headers.contains_key("mcp-session-id"@),
        forall|i: int|
            0 <= i < response.headers["mcp-session-id"@][0].len() ==> {
                let byte = #[trigger] response.headers["mcp-session-id"@][0][i];
                32 <= byte <= 126 || byte == 9
            },
        line_request(
            state_after(next_state(state, EventView::Response(response)), events),
            line,
        ) == Ok::<_, RequestErrorView>(request),
    ensures
        request.headers.contains(
            ("Mcp-Session-Id"@, response.headers["mcp-session-id"@][0]),
        ),
{
    let taken = next_state(state, EventView::Response(response));
    session_stays(taken, events);
    request_holds(state_after(taken, events), line, request);
    readable_bytes_round_trip(response.headers["mcp-session-id"@][0]);
}

/// Under a usable endpoint and token every line that is not empty is sent: once,
/// unchanged, and in the order of the input.
pub proof fn every_line_is_sent(state: BridgeState, events: Seq<EventView>)
    requires
        state.well_formed(),
        is_usable(state.endpoint, state.auth_token),
    ensures
        sent(state, events).map_values(|request: RequestView| request.body) == lines(events),
    decreases events.len(),
{
    let body_of = |request: RequestView| request.body;
    if events.len() > 0 {
        let event = events.first();
        let next = next_state(state, event);
        every_line_is_sent(next, events.drop_first());
        let rest = sent(next, events.drop_first());
        if let EventView::Line(line) = event {
            if line.len() > 0 {
                headers_are_sendable(state.session_id, state.auth_token);
                let request = line_request(state, line)->Ok_0;
                assert((seq![request] + rest).map_values(body_of) == seq![line] + rest.map_values(
                    body_of,
                ));
            }
        }
    }
}

/// Under an endpoint or a token that is of no use nothing is ever sent, and the
/// first line that is not empty ends the bridge with an error.
pub proof fn nothing_is_sent_when_unusable(
    state: BridgeState,
    events: Seq<EventView>,
    line: Seq<char>,
)
    requires
        state.well_formed(),
        !is_usable(state.endpoint, state.auth_token),
    ensures
        sent(state, events).len() == 0,
        line.len() > 0 ==> answer(state, EventView::Line(line)).command matches CommandView::Fail(
            ErrorView::Request(_),
        ),
    decreases events.len(),
{
    headers_are_sendable(state.session_id, state.auth_token);
    if events.len() > 0 {
        nothing_is_sent_when_unusable(
            next_state(state, events.first()),
            events.drop_first(),
            line,
        );
    }
}

/// The bridge prints the messages of the server and nothing else, in the order in
/// which they come.
pub proof fn server_messages_are_printed(state: BridgeState, events: Seq<EventView>)
    ensures
        printed(state, events) == server_messages(events),
    decreases events.len(),
{
    if events.len() > 0 {
        server_messages_are_printed(next_state(state, events.first()), events.drop_first());
    }
}

/// A JSON answer is printed as the server wrote it, however it was cut into
/// chunks, and the bridge turns to the next line.
pub proof fn json_answer_is_printed(state: BridgeState, text: Seq<char>, chunks: Seq<Seq<u8>>)
    requires
        chunks.flatten() == encode_utf8(text),
    ensures
        answer(state, EventView::Body(chunks)).output == Some(text),
        answer(state, EventView::Body(chunks)).command is ReadLine,
{
    encode_utf8_valid_utf8(text);
    encode_utf8_decode_utf8(text);
}

/// The messages of a stream that falls into two parts: those of the first, and
/// those of the second unless the stream was over before.
pub proof fn messages_in_two_parts(first: Seq<StreamEventView>, second: Seq<StreamEventView>)
    ensures
        messages(first + second) == if first.contains(StreamEventView::Over) {
            messages(first)
        } else {
            messages(first) + messages(second)
        },
    decreases first.len(),
{
    if first.len() == 0 {
        assert(first + second == second);
    } else {
        let rest = first.drop_first();
        assert((first + second).first() == first.first());
        assert((first + second).drop_first() == rest + second);
        assert(first == seq![first.first()] + rest);
        if first.first() is Over {
            assert(first[0] == StreamEventView::Over);
        } else {
            messages_in_two_parts(rest, second);
            assert(first.contains(StreamEventView::Over) <==> rest.contains(
                StreamEventView::Over,
            )) by {
                if first.contains(StreamEventView::Over) {
                    let i = choose|i: int|
                        0 <= i < first.len() && first[i] == StreamEventView::Over;
                    assert(rest[i - 1] == StreamEventView::Over);
                }
                if rest.contains(StreamEventView::Over) {
                    let i = choose|i: int|
                        0 <= i < rest.len() && rest[i] == StreamEventView::Over;
                    assert(first[i + 1] == StreamEventView::Over);
                }
            }
        }
    }
}

/// A stream of ignored fragments has no messages and is not over.
proof fn ignored_fragments_are_silent(ignored: Seq<StreamEventView>)
    requires
        forall|i: int| 0 <= i < ignored.len() ==> #[trigger] ignored[i] is Ignored,
    ensures
        messages(ignored) == Seq::<Seq<char>>::empty(),
        !ignored.contains(StreamEventView::Over),
    decreases ignored.len(),
{
    if ignored.len() > 0 {
        assert(ignored[0] is Ignored);
        ignored_fragments_are_silent(ignored.drop_first());
    }
}

/// The messages of a stream are the same when ignored fragments come or go,
/// wherever they stand.
pub proof fn ignored_fragments_do_not_matter(
    before: Seq<StreamEventView>,
    ignored: Seq<StreamEventView>,
    after: Seq<StreamEventView>,
)
    requires
        forall|i: int| 0 <= i < ignored.len() ==> #[trigger] ignored[i] is Ignored,
    ensures
        messages(before + ignored + after) == messages(before + after),
{
    ignored_fragments_are_silent(ignored);
    messages_in_two_parts(before, after);
    messages_in_two_parts(ignored, after);
    messages_in_two_parts(before, ignored + after);
    assert(before + ignored + after == before + (ignored + after));
}

/// The events of one event stream.
pub open spec fn stream_events(stream: Seq<StreamEventView>) -> Seq<EventView> {
    stream.map_values(|event: StreamEventView| EventView::Stream(event))
}

/// An event stream is printed message by message and changes nothing else. When
/// it is over, for whatever reason, the bridge turns to the next line.
pub proof fn stream_is_printed(state: BridgeState, stream: Seq<StreamEventView>)
    requires
        state.phase == Phase::Streaming,
        forall|i: int| 0 <= i < stream.len() - 1 ==> !(#[trigger] stream[i] is Over),
    ensures
        possible(state, stream_events(stream)),
        printed(state, stream_events(stream)) == messages(stream),
        state_after(state, stream_events(stream)) == (BridgeState {
            phase: if stream.len() > 0 && stream.last() is Over {
                Phase::Reading
            } else {
                Phase::Streaming
            },
            ..state
        }),
    decreases stream.len(),
{
    let events = stream_events(stream);
    if stream.len() > 0 {
        let rest = stream.drop_first();
        let next = next_state(state, events.first());
        assert(events.first() == EventView::Stream(stream.first()));
        assert(events.drop_first() == stream_events(rest));
        if stream.len() == 1 {
            assert(possible(next, stream_events(rest)));
            assert(state_after(next, stream_events(rest)) == next);
            assert(printed(next, stream_events(rest)) == messages(rest));
        } else {
            assert(!(stream[0] is Over));
            assert forall|i: int| 0 <= i < rest.len() - 1 implies !(#[trigger] rest[i] is Over) by {
                assert(rest[i] == stream[i + 1]);
            }
            stream_is_printed(state, rest);
        }
    }
}

/// The requests for the subscription in a run.
pub open spec fn asked(state: BridgeState, events: Seq<EventView>) -> Seq<RequestView>
    decreases events.len(),
{
    if events.len() == 0 {
        Seq::empty()
    } else {
        let rest = asked(next_state(state, events.first()), events.drop_first());
        match answer(state, events.first()).command {
            CommandView::Subscribe(request) => seq![request] + rest,
            _ => rest,
        }
    }
}

/// A bridge that was started does not ask for the subscription.
proof fn nothing_is_asked_after_the_start(state: BridgeState, events: Seq<EventView>)
    requires
        state.phase != Phase::Starting,
        possible(state, events),
    ensures
        asked(state, events).len() == 0,
    decreases events.len(),
{
    if events.len() > 0 {
        nothing_is_asked_after_the_start(next_state(state, events.first()), events.drop_first());
    }
}

/// A run begins with the subscription: the start is the first that can happen, and
/// under a usable endpoint and token the subscription is asked for then, once and for
/// all. Under others it is never asked for. Either way the first line is awaited next.
pub proof fn run_begins_with_the_subscription(state: BridgeState, events: Seq<EventView>)
    requires
        state.well_formed(),
        state.phase == Phase::Starting,
        state.subscription == Subscription::Idle,
        possible(state, events),
        events.len() > 0,
    ensures
        events.first() is Started,
        next_state(state, events.first()).phase == Phase::Reading,
        is_usable(state.endpoint, state.auth_token) ==> asked(state, events) == seq![
            subscription_request(state)->Ok_0,
        ],
        !is_usable(state.endpoint, state.auth_token) ==> asked(state, events).len() == 0,
{
    headers_are_sendable(state.session_id, state.auth_token);
    nothing_is_asked_after_the_start(next_state(state, events.first()), events.drop_first());
}

/// Whether an event is one of the subscription.
pub open spec fn is_of_subscription(event: EventView) -> bool {
    event is Subscribed || event is SubscribeFailed || event is Push
}

/// The events that are not of the subscription.
pub open spec fn without_subscription(events: Seq<EventView>) -> Seq<EventView>
    decreases events.len(),
{
    if events.len() == 0 {
        Seq::empty()
    } else if is_of_subscription(events.first()) {
        without_subscription(events.drop_first())
    } else {
        seq![events.first()] + without_subscription(events.drop_first())
    }
}

/// The events of the subscription once it is followed.
pub open spec fn push_events(stream: Seq<StreamEventView>) -> Seq<EventView> {
    stream.map_values(|event: StreamEventView| EventView::Push(event))
}

/// The subscription is followed exactly when its answer is an event stream: the
/// status is not 202, and the content type names the event stream and not JSON. Its
/// answer, or the lack of one, prints nothing, and changes nothing else.
pub proof fn event_stream_opens_the_subscription(state: BridgeState, response: ResponseView)
    ensures
        ({
            let opened = response.status != ACCEPTED && names(response, "text/event-stream"@)
                && !names(response, "application/json"@);
            &&& answer(state, EventView::Subscribed(response)).command is Follow <==> opened
            &&& answer(state, EventView::Subscribed(response)).command is Continue <==> !opened
            &&& answer(state, EventView::Subscribed(response)).output is None
            &&& next_state(state, EventView::Subscribed(response)) == BridgeState {
                subscription: if opened {
                    Subscription::Followed
                } else {
                    Subscription::Idle
                },
                ..state
            }
        }),
        answer(state, EventView::SubscribeFailed).command is Continue,
        answer(state, EventView::SubscribeFailed).output is None,
        next_state(state, EventView::SubscribeFailed) == (BridgeState {
            subscription: Subscription::Idle,
            ..state
        }),
{
}

/// While the subscription is followed its messages are printed as they come, whatever
/// else the bridge waits for, and it goes on waiting for that. When the subscription
/// is over, for whatever reason, it is not followed any more, and that is all.
pub proof fn pushes_are_printed(state: BridgeState, stream: Seq<StreamEventView>)
    requires
        state.phase != Phase::Done,
        state.subscription == Subscription::Followed,
        forall|i: int| 0 <= i < stream.len() - 1 ==> !(#[trigger] stream[i] is Over),
    ensures
        possible(state, push_events(stream)),
        printed(state, push_events(stream)) == messages(stream),
        sent(state, push_events(stream)).len() == 0,
        state_after(state, push_events(stream)) == (BridgeState {
            subscription: if stream.len() > 0 && stream.last() is Over {
                Subscription::Idle
            } else {
                Subscription::Followed
            },
            ..state
        }),
    decreases stream.len(),
{
    let events = push_events(stream);
    if stream.len() > 0 {
        let rest = stream.drop_first();
        let next = next_state(state, events.first());
        assert(events.first() == EventView::Push(stream.first()));
        assert(events.drop_first() == push_events(rest));
        if stream.len() == 1 {
            assert(possible(next, push_events(rest)));
            assert(state_after(next, push_events(rest)) == next);
            assert(printed(next, push_events(rest)) == messages(rest));
            assert(sent(next, push_events(rest)).len() == 0);
        } else {
            assert(!(stream[0] is Over));
            assert forall|i: int| 0 <= i < rest.len() - 1 implies !(#[trigger] rest[i] is Over) by {
                assert(rest[i] == stream[i + 1]);
            }
            pushes_are_printed(state, rest);
        }
    }
}

/// What two bridges do that differ only in the subscription, one in a run, the other
/// in the run without the events of the subscription.
proof fn runs_agree_without_subscription(
    state: BridgeState,
    other: BridgeState,
    events: Seq<EventView>,
)
    requires
        other == (BridgeState { subscription: other.subscription, ..state }),
    ensures
        possible(state, events) ==> possible(other, without_subscription(events)),
        sent(state, events) == sent(other, without_subscription(events)),
        state_after(other, without_subscription(events)) == (BridgeState {
            subscription: state_after(other, without_subscription(events)).subscription,
            ..state_after(state, events)
        }),
    decreases events.len(),
{
    if events.len() > 0 {
        let event = events.first();
        let rest = events.drop_first();
        let next = next_state(state, event);
        if is_of_subscription(event) {
            runs_agree_without_subscription(next, other, rest);
        } else {
            let kept = without_subscription(events);
            runs_agree_without_subscription(next, next_state(other, event), rest);
            assert(kept.first() == event);
            assert(kept.drop_first() == without_subscription(rest));
        }
    }
}

/// The subscription stands apart: without its events a run can happen still, sends the
/// same requests, ends in the same state but for the subscription, and prints the
/// messages of the server among the events that are left.
pub proof fn subscription_stands_apart(state: BridgeState, events: Seq<EventView>)
    ensures
        possible(state, events) ==> possible(state, without_subscription(events)),
        sent(state, events) == sent(state, without_subscription(events)),
        state_after(state, without_subscription(events)) == (BridgeState {
            subscription: state_after(state, without_subscription(events)).subscription,
            ..state_after(state, events)
        }),
        printed(state, without_subscription(events)) == server_messages(
            without_subscription(events),
        ),
{
    runs_agree_without_subscription(state, state, events);
    server_messages_are_printed(state, without_subscription(events));
}

/// An empty line has no effect.
pub proof fn empty_line_has_no_effect(state: BridgeState)
    requires
        state.phase == Phase::Reading,
    ensures
        next_state(state, EventView::Line(Seq::empty())) == state,
        answer(state, EventView::Line(Seq::empty())).output is None,
        answer(state, EventView::Line(Seq::empty())).command is ReadLine,
{
}

/// Whether the content type of a response is readable and names a media type.
pub open spec fn names(response: ResponseView, media_type: Seq<char>) -> bool {
    header_text(response.headers, "content-type"@) matches Some(text) && is_part_of(
        media_type,
        text,
    )
}

/// After a response with the status 202 nothing is read or printed, whatever its
/// content type: the bridge turns to the next line.
pub proof fn accepted_has_no_answer(state: BridgeState, response: ResponseView)
    requires
        response.status == ACCEPTED,
    ensures
        answer(state, EventView::Response(response)).output is None,
        answer(state, EventView::Response(response)).command is ReadLine,
{
}

/// How a response is answered when its status is not 202: a content type that
/// names JSON has a body read, also where it names the event stream too; one that
/// names the event stream alone has the stream followed; under any other, and
/// under none that is readable, the bridge turns to the next line.
pub proof fn content_type_decides(state: BridgeState, response: ResponseView)
    requires
        response.status != ACCEPTED,
    ensures
        answer(state, EventView::Response(response)).command is ReadBody <==> names(
            response,
            "application/json"@,
        ),
        answer(state, EventView::Response(response)).command is ReadFragment <==> names(
            response,
            "text/event-stream"@,
        ) && !names(response, "application/json"@),
        answer(state, EventView::Response(response)).command is ReadLine <==> !names(
            response,
            "application/json"@,
        ) && !names(response, "text/event-stream"@),
{
}

/// The bridge ends well exactly when the input ends or cannot be read. It ends
/// with an error exactly when a line makes no request, a request cannot be sent,
/// or a JSON answer cannot be read or is not UTF-8. A broken or silent event
/// stream never ends it, nor does the subscription.
pub proof fn how_the_bridge_ends(state: BridgeState, event: EventView)
    requires
        can_happen(state, event),
    ensures
        answer(state, event).command is Finish <==> event is InputClosed || event is InputFailed,
        answer(state, event).command is Fail <==> {
            ||| event matches EventView::Line(line) && line.len() > 0 && line_request(
                state,
                line,
            ) is Err
            ||| event is SendFailed
            ||| event is BodyFailed
            ||| event matches EventView::Body(chunks) && !valid_utf8(chunks.flatten())
        },
        next_state(state, event).phase == Phase::Done <==> answer(state, event).command is Finish
            || answer(state, event).command is Fail,
{
}

/// Once the bridge has ended nothing can happen.
pub proof fn end_is_final(state: BridgeState, event: EventView)
    requires
        state.phase == Phase::Done,
    ensures
        !can_happen(state, event),
{
}

/// Whether an event can be what carrying out a command came to. Two commands leave
/// what is waited for as it was, and nothing new comes of them.
pub open spec fn comes_of(command: CommandView, event: EventView) -> bool {
    match command {
        CommandView::Subscribe(_) => event is Line || event is InputClosed || event is InputFailed,
        CommandView::ReadLine => event is Line || event is InputClosed || event is InputFailed,
        CommandView::Send(_) => event is Response || event is SendFailed,
        CommandView::ReadBody => event is Body || event is BodyFailed,
        CommandView::ReadFragment => event is Stream,
        CommandView::Follow => false,
        CommandView::Continue => false,
        CommandView::Finish => false,
        CommandView::Fail(_) => false,
    }
}

/// A caller that carries out each command and reports what came of it never meets
/// an event that the bridge does not wait for. What is waited for is what the last
/// command asked for, unless that command was to go on: then it is what it was. The
/// answer to the request for the subscription is awaited until it comes or the bridge
/// ends, and the events of the subscription from the command to follow it until it
/// is over or the bridge ends.
pub proof fn following_the_commands_is_safe(
    state: BridgeState,
    event: EventView,
    reported: EventView,
)
    requires
        can_happen(state, event),
    ensures
        ({
            let next = next_state(state, event);
            let command = answer(state, event).command;
            if reported is Push {
                can_happen(next, reported) <==> next.phase != Phase::Done && (command is Follow || (
                can_happen(state, reported) && !(command is Subscribe) && event != EventView::Push(
                    StreamEventView::Over,
                )))
            } else if is_of_subscription(reported) {
                can_happen(next, reported) <==> next.phase != Phase::Done && (command is Subscribe
                    || (can_happen(state, reported) && !is_of_subscription(event)))
            } else if command is Follow || command is Continue {
                can_happen(next, reported) <==> can_happen(state, reported)
            } else {
                can_happen(next, reported) <==> comes_of(command, reported)
            }
        }),
{
}

} // verus!
