//! What the steps of a bridge come to, told by the event that goes in and by the step
//! that comes out.
//!
//! As in [`crate::calls`], `call_ensures(f, arguments, result)` says that a call of `f`
//! gave the result, and `call_requires(f, arguments)` that the call may be made. What a
//! bridge was before a call is `old(bridge)`, and what it is after it `final(bridge)`.
use vstd::prelude::*;
use vstd::utf8::*;

use crate::bridge::{
    Bridge, BridgeError, BridgeState, Command, Event, EventView, Phase, Step, Subscription,
};
use crate::calls::{
    names_tell_fields_apart, nothing_follows_accepted, reveal_visible, route_by_content_type,
};
use crate::config::Config;
use crate::http_types::{header_bytes, header_entries, is_sendable, parsed_uri};
use crate::request::{
    all_sendable, bearer, encoded, message_headers, subscription_headers, Field, HttpRequest,
    Method, RequestError, WireHeader,
};
use crate::response::{ResponseHead, ResponseView, Route};
use crate::stream::{Fragment, StreamEvent, StreamEventView};
use crate::text::{chunk_bytes, join_chunks, utf8_refusal};

verus! {

/// What counts of an event is what it holds: the characters of a line, the status and the
/// headers of a response, the bytes of every chunk of a body, and the characters of data.
pub proof fn events_count_for_what_they_hold(
    line: String,
    head: ResponseHead,
    chunks: Vec<Vec<u8>>,
    data: String,
)
    ensures
        Event::Line(line)@ == EventView::Line(line@),
        Event::Response(head)@ == EventView::Response(
            (ResponseView { status: head.status, headers: header_entries(head.headers) }),
        ),
        Event::Subscribed(head)@ == EventView::Subscribed(
            (ResponseView { status: head.status, headers: header_entries(head.headers) }),
        ),
        Event::Body(chunks)@ matches EventView::Body(pieces) && pieces.len() == chunks@.len() && (
        forall|i: int| 0 <= i < pieces.len() ==> #[trigger] pieces[i] == chunks@[i]@),
        Event::Stream(StreamEvent::Fragment(Fragment::Data(data)))@ == EventView::Stream(
            StreamEventView::Message(data@),
        ),
        Event::Push(StreamEvent::Fragment(Fragment::Data(data)))@ == EventView::Push(
            StreamEventView::Message(data@),
        ),
{
}

/// A new bridge has the endpoint and the token that it was given, as they are. It has no
/// session and no subscription, and is to be started.
pub proof fn bridge_has_what_it_was_given(
    endpoint: String,
    auth_token: Option<String>,
    bridge: Bridge,
)
    requires
        call_ensures(Bridge::new, (endpoint, auth_token), bridge),
    ensures
        call_requires(Bridge::new, (endpoint, auth_token)),
        bridge@.endpoint == endpoint@,
        auth_token is None ==> bridge@.auth_token is None,
        auth_token matches Some(token) ==> bridge@.auth_token == Some(token@),
        bridge@.session_id is None,
        bridge@.phase == Phase::Starting,
        bridge@.subscription == Subscription::Idle,
{
}

/// Settings make the bridge that has their endpoint and their token.
pub proof fn settings_make_their_bridge(config: Config, bridge: Bridge)
    requires
        call_ensures(Config::into_bridge, (config,), bridge),
    ensures
        call_requires(Config::into_bridge, (config,)),
        bridge@.endpoint == config.endpoint@,
        config.auth_token is None ==> bridge@.auth_token is None,
        config.auth_token matches Some(token) ==> bridge@.auth_token == Some(token@),
        bridge@.session_id is None,
        bridge@.phase == Phase::Starting,
        bridge@.subscription == Subscription::Idle,
{
}

/// A bridge tells the session that it has.
pub proof fn bridge_tells_its_session(bridge: Bridge, id: Option<String>)
    requires
        call_ensures(Bridge::session_id, (&bridge,), id),
    ensures
        call_requires(Bridge::session_id, (&bridge,)),
        id is None <==> bridge@.session_id is None,
        id matches Some(text) ==> bridge@.session_id == Some(text@),
{
}

/// A bridge tells what it waits for.
pub proof fn bridge_tells_its_phase(bridge: Bridge, phase: Phase)
    requires
        call_ensures(Bridge::phase, (&bridge,), phase),
    ensures
        call_requires(Bridge::phase, (&bridge,)),
        phase == bridge@.phase,
{
}

/// Which events a bridge expects rests on what it waits for and on the kind of the event,
/// never on what the event holds.
pub proof fn kind_of_event_is_expected(bridge: Bridge, event: Event, expected: bool)
    requires
        call_ensures(Bridge::expects, (&bridge, &event), expected),
    ensures
        call_requires(Bridge::expects, (&bridge, &event)),
        event is Started ==> (expected <==> bridge@.phase == Phase::Starting),
        event is Line || event is InputClosed || event is InputFailed ==> (expected
            <==> bridge@.phase == Phase::Reading),
        event is Response || event is SendFailed ==> (expected <==> bridge@.phase
            == Phase::Sending),
        event is Body || event is BodyFailed ==> (expected <==> bridge@.phase
            == Phase::Receiving),
        event is Stream ==> (expected <==> bridge@.phase == Phase::Streaming),
        event is Subscribed || event is SubscribeFailed ==> (expected <==> bridge@.phase
            != Phase::Done && bridge@.subscription == Subscription::Asked),
        event is Push ==> (expected <==> bridge@.phase != Phase::Done && bridge@.subscription
            == Subscription::Followed),
{
}

/// A bridge may be told of every event that it expects.
pub proof fn expected_event_may_be_told(bridge: &mut Bridge, event: Event)
    requires
        call_ensures(Bridge::expects, (&*bridge, &event), true),
    ensures
        call_requires(Bridge::step, (bridge, event)),
{
}

/// No event changes the endpoint or the token, none but a response changes the session,
/// and none at all changes a session that is known.
pub proof fn step_keeps_what_is_known(bridge: &mut Bridge, event: Event, step: Step)
    requires
        call_ensures(Bridge::step, (bridge, event), step),
    ensures
        final(bridge)@.endpoint == old(bridge)@.endpoint,
        final(bridge)@.auth_token == old(bridge)@.auth_token,
        !(event is Response) || old(bridge)@.session_id is Some ==> final(bridge)@.session_id
            == old(bridge)@.session_id,
{
}

/// Nothing is printed but bodies and data. Nothing is sent but lines, and the subscription
/// is asked for at the start alone.
pub proof fn step_adds_nothing_of_its_own(bridge: &mut Bridge, event: Event, step: Step)
    requires
        call_ensures(Bridge::step, (bridge, event), step),
    ensures
        step.output is Some ==> {
            ||| event is Body
            ||| event matches Event::Stream(StreamEvent::Fragment(Fragment::Data(_)))
            ||| event matches Event::Push(StreamEvent::Fragment(Fragment::Data(_)))
        },
        step.command is Send ==> event is Line,
        step.command is Subscribe ==> event is Started,
{
}

/// What a bridge waits for after a step is what the step asks for.
pub proof fn bridge_waits_for_what_it_asks(bridge: &mut Bridge, event: Event, step: Step)
    requires
        call_ensures(Bridge::step, (bridge, event), step),
    ensures
        step.command is ReadLine || step.command is Subscribe ==> final(bridge)@.phase
            == Phase::Reading,
        step.command is Send ==> final(bridge)@.phase == Phase::Sending,
        step.command is ReadBody ==> final(bridge)@.phase == Phase::Receiving,
        step.command is ReadFragment ==> final(bridge)@.phase == Phase::Streaming,
        step.command is Follow || step.command is Continue ==> final(bridge)@.phase == old(
            bridge,
        )@.phase,
        step.command is Finish || step.command is Fail ==> final(bridge)@.phase == Phase::Done,
{
}

/// A line that is not empty is posted to the endpoint, unchanged, under the content type of
/// JSON. Behind what is accepted stand the session as it is, exactly when one is known,
/// and the token behind the word `Bearer`, exactly when there is one.
pub proof fn line_is_posted(bridge: &mut Bridge, line: String, uri: http::Uri, step: Step)
    requires
        call_ensures(Bridge::step, (bridge, Event::Line(line)), step),
        line@.len() > 0,
        parsed_uri(old(bridge)@.endpoint) == Ok::<http::Uri, http::uri::InvalidUri>(uri),
        old(bridge)@.session_id matches Some(id) ==> forall|i: int|
            0 <= i < id.len() ==> (#[trigger] id[i] as u32 >= 32 && id[i] as u32 != 127) || id[i]
                as u32 == 9,
        old(bridge)@.auth_token matches Some(token) ==> forall|i: int|
            0 <= i < token.len() ==> (#[trigger] token[i] as u32 >= 32 && token[i] as u32 != 127)
                || token[i] as u32 == 9,
    ensures
        step.output is None,
        final(bridge)@ == (BridgeState { phase: Phase::Sending, ..old(bridge)@ }),
        step.command matches Command::Send(request) && {
            &&& request.method == Method::Post
            &&& request.uri == uri
            &&& request.body@ == line@
            &&& request.headers@.len() == 2 + (if old(bridge)@.session_id is Some {
                1int
            } else {
                0
            }) + (if old(bridge)@.auth_token is Some {
                1int
            } else {
                0
            })
            &&& request.headers@[0].field == Field::ContentType
            &&& header_bytes(request.headers@[0].value) == encode_utf8("application/json"@)
            &&& request.headers@[1].field == Field::Accept
            &&& header_bytes(request.headers@[1].value) == encode_utf8(
                "application/json, text/event-stream"@,
            )
            &&& old(bridge)@.session_id matches Some(id) ==> {
                &&& request.headers@[2].field == Field::SessionId
                &&& header_bytes(request.headers@[2].value) == encode_utf8(id)
            }
            &&& old(bridge)@.auth_token matches Some(token) ==> {
                &&& request.headers@.last().field == Field::Authorization
                &&& header_bytes(request.headers@.last().value) == encode_utf8("Bearer "@ + token)
            }
        },
{
    let state = old(bridge)@;
    let texts = message_headers(state.session_id, state.auth_token);
    fixed_values_are_sendable();
    if let Some(token) = state.auth_token {
        token_behind_bearer(token);
    }
    assert(all_sendable(texts));
    let request = step.command->Send_0;
    headers_on_the_wire(request, texts, 0, Field::ContentType);
    headers_on_the_wire(request, texts, 1, Field::Accept);
    if let Some(id) = state.session_id {
        headers_on_the_wire(request, texts, 2, Field::SessionId);
    }
    if let Some(token) = state.auth_token {
        headers_on_the_wire(request, texts, texts.len() - 1, Field::Authorization);
    }
}

/// The values that every request of a kind has can be sent.
proof fn fixed_values_are_sendable()
    ensures
        is_sendable("application/json"@),
        is_sendable("application/json, text/event-stream"@),
        is_sendable("text/event-stream"@),
{
    reveal_strlit("application/json");
    reveal_strlit("application/json, text/event-stream");
    reveal_strlit("text/event-stream");
}

/// Behind the word `Bearer` stands the token, and can be sent there when it can be sent.
proof fn token_behind_bearer(token: Seq<char>)
    ensures
        bearer(token) == "Bearer "@ + token,
        is_sendable(token) <==> is_sendable("Bearer "@ + token),
{
    reveal_strlit("Bearer ");
    let value = "Bearer "@ + token;
    assert(forall|i: int| 0 <= i < token.len() ==> #[trigger] value[7 + i] == token[i]);
    if is_sendable(value) {
        assert forall|i: int| 0 <= i < token.len() implies (#[trigger] token[i] as u32 >= 32
            && token[i] as u32 != 127) || token[i] as u32 == 9 by {
            assert(value[7 + i] == token[i]);
        }
    }
}

/// A header of a request by its place among the texts that the request was made of.
proof fn headers_on_the_wire(
    request: HttpRequest,
    texts: Seq<(Seq<char>, Seq<char>)>,
    place: int,
    field: Field,
)
    requires
        request@.headers == encoded(texts),
        0 <= place < texts.len(),
        texts[place].0 == field.name(),
    ensures
        request.headers@.len() == texts.len(),
        request.headers@[place].field == field,
        header_bytes(request.headers@[place].value) == encode_utf8(texts[place].1),
{
    let wire = request.headers@.map_values(|header: WireHeader| header@);
    assert(wire.len() == request.headers@.len());
    assert(wire[place] == request.headers@[place]@);
    names_tell_fields_apart(request.headers@[place].field, field);
}

/// A line that is not empty ends the bridge when the endpoint is no URI: with the reason why
/// it is none.
pub proof fn line_to_a_bad_endpoint_fails(
    bridge: &mut Bridge,
    line: String,
    reason: http::uri::InvalidUri,
    step: Step,
)
    requires
        call_ensures(Bridge::step, (bridge, Event::Line(line)), step),
        line@.len() > 0,
        parsed_uri(old(bridge)@.endpoint) == Err::<http::Uri, http::uri::InvalidUri>(reason),
    ensures
        step.output is None,
        step.command matches Command::Fail(BridgeError::Request(RequestError::Uri(given)))
            && given == reason,
        final(bridge)@ == (BridgeState { phase: Phase::Done, ..old(bridge)@ }),
{
}

/// A line that is not empty ends the bridge when the token holds a control character other
/// than the tab.
pub proof fn line_under_a_bad_token_fails(
    bridge: &mut Bridge,
    line: String,
    token: Seq<char>,
    place: int,
    step: Step,
)
    requires
        call_ensures(Bridge::step, (bridge, Event::Line(line)), step),
        line@.len() > 0,
        parsed_uri(old(bridge)@.endpoint) is Ok,
        old(bridge)@.auth_token == Some(token),
        0 <= place < token.len(),
        token[place] as u32 == 127 || (token[place] as u32) < 32 && token[place] as u32 != 9,
    ensures
        step.output is None,
        step.command matches Command::Fail(BridgeError::Request(RequestError::HeaderValue(_))),
        final(bridge)@ == (BridgeState { phase: Phase::Done, ..old(bridge)@ }),
{
    let texts = message_headers(old(bridge)@.session_id, old(bridge)@.auth_token);
    token_behind_bearer(token);
    assert(!is_sendable(token));
    assert(texts.last().1 == "Bearer "@ + token);
    assert(!is_sendable(texts[texts.len() - 1].1));
}

/// An empty line is passed over.
pub proof fn empty_line_is_passed_over(bridge: &mut Bridge, line: String, step: Step)
    requires
        call_ensures(Bridge::step, (bridge, Event::Line(line)), step),
        old(bridge)@.phase == Phase::Reading,
        line@.len() == 0,
    ensures
        step.output is None,
        step.command is ReadLine,
        final(bridge)@ == old(bridge)@,
{
}

/// The end of the input, and an input that cannot be read, end the bridge well.
pub proof fn end_of_the_input_ends_the_bridge(bridge: &mut Bridge, event: Event, step: Step)
    requires
        call_ensures(Bridge::step, (bridge, event), step),
        event is InputClosed || event is InputFailed,
    ensures
        step.output is None,
        step.command is Finish,
        final(bridge)@ == (BridgeState { phase: Phase::Done, ..old(bridge)@ }),
{
}

/// A request that cannot be sent, and a body that cannot be read, end the bridge with an
/// error that says which it was.
pub proof fn failed_exchange_ends_the_bridge(bridge: &mut Bridge, event: Event, step: Step)
    requires
        call_ensures(Bridge::step, (bridge, event), step),
        event is SendFailed || event is BodyFailed,
    ensures
        step.output is None,
        event is SendFailed ==> step.command matches Command::Fail(BridgeError::Send),
        event is BodyFailed ==> step.command matches Command::Fail(BridgeError::Body),
        final(bridge)@ == (BridgeState { phase: Phase::Done, ..old(bridge)@ }),
{
}

/// While no session is known, a response that has the session header with a first value of
/// visible bytes brings the session: those bytes, character for character, whatever the
/// status and the other headers. Any other response brings none.
pub proof fn first_session_is_kept(bridge: &mut Bridge, head: ResponseHead, step: Step)
    requires
        call_ensures(Bridge::step, (bridge, Event::Response(head)), step),
        old(bridge)@.session_id is None,
    ensures
        ({
            let entries = header_entries(head.headers);
            let bytes = entries["mcp-session-id"@][0];
            &&& final(bridge)@.session_id is Some <==> entries.contains_key("mcp-session-id"@)
                && forall|i: int|
                0 <= i < bytes.len() ==> 32 <= #[trigger] bytes[i] <= 126 || bytes[i] == 9
            &&& final(bridge)@.session_id matches Some(id) ==> {
                &&& id.len() == bytes.len()
                &&& forall|i: int| 0 <= i < bytes.len() ==> #[trigger] id[i] == bytes[i] as char
            }
        }),
{
    reveal_visible(header_entries(head.headers)["mcp-session-id"@][0]);
}

/// A response prints nothing. After one with the status 202 the next line is read; after any
/// other, what its content type announces.
pub proof fn response_leads_to_what_follows(
    bridge: &mut Bridge,
    head: ResponseHead,
    route: Route,
    step: Step,
)
    requires
        call_ensures(Bridge::step, (bridge, Event::Response(head)), step),
        call_ensures(ResponseHead::route, (&head,), route),
    ensures
        step.output is None,
        head.status == 202 ==> step.command is ReadLine,
        route == Route::Nothing ==> step.command is ReadLine,
        route == Route::Json ==> step.command is ReadBody,
        route == Route::Stream ==> step.command is ReadFragment,
        final(bridge)@.subscription == old(bridge)@.subscription,
{
    if head.status == 202 {
        nothing_follows_accepted(head, route);
    }
}

/// After a response that is not 202 and whose content type reads as `text`, a body is read
/// exactly when `application/json` stands somewhere in it; an event stream is followed
/// exactly when `text/event-stream` does and the other does not; and the next line is read
/// when neither does.
pub proof fn content_type_decides_what_is_read(
    bridge: &mut Bridge,
    head: ResponseHead,
    text: Seq<char>,
    step: Step,
)
    requires
        call_ensures(Bridge::step, (bridge, Event::Response(head)), step),
        head.status != 202,
        header_entries(head.headers).contains_key("content-type"@),
        ({
            let bytes = header_entries(head.headers)["content-type"@][0];
            &&& text.len() == bytes.len()
            &&& forall|i: int| 0 <= i < bytes.len() ==> #[trigger] text[i] == bytes[i] as char
            &&& forall|i: int|
                0 <= i < bytes.len() ==> 32 <= #[trigger] bytes[i] <= 126 || bytes[i] == 9
        }),
    ensures
        step.command is ReadBody <==> exists|start: int|
            0 <= start <= text.len() - "application/json"@.len() && #[trigger] text.subrange(
                start,
                start + "application/json"@.len(),
            ) == "application/json"@,
        step.command is ReadFragment <==> !(step.command is ReadBody) && exists|start: int|
            0 <= start <= text.len() - "text/event-stream"@.len() && #[trigger] text.subrange(
                start,
                start + "text/event-stream"@.len(),
            ) == "text/event-stream"@,
        step.command is ReadBody || step.command is ReadFragment || step.command is ReadLine,
{
    route_by_content_type(head, text);
}

/// The body of a JSON response is printed exactly when it is UTF-8: as the text whose UTF-8
/// bytes are those of all its chunks. A body that is not UTF-8 ends the bridge with the
/// reason why it is none.
pub proof fn whole_body_is_printed(
    bridge: &mut Bridge,
    chunks: Vec<Vec<u8>>,
    body: Vec<u8>,
    step: Step,
)
    requires
        call_ensures(Bridge::step, (bridge, Event::Body(chunks)), step),
        call_ensures(join_chunks, (chunks,), body),
    ensures
        step.output is Some <==> valid_utf8(body@),
        step.output matches Some(text) ==> {
            &&& encode_utf8(text@) == body@
            &&& step.command is ReadLine
            &&& final(bridge)@ == (BridgeState { phase: Phase::Reading, ..old(bridge)@ })
        },
        step.output is None ==> {
            &&& step.command matches Command::Fail(BridgeError::Utf8(reason))
            &&& reason == utf8_refusal(body@)
            &&& final(bridge)@ == (BridgeState { phase: Phase::Done, ..old(bridge)@ })
        },
{
    if valid_utf8(body@) {
        decode_utf8_encode_utf8(body@);
    }
}

/// Two bodies that differ in one more chunk at the end: where both are printed, the bytes of
/// that chunk are all that is added to what is printed.
pub proof fn last_chunk_is_printed_too(
    bridge: &mut Bridge,
    other: &mut Bridge,
    chunks: Vec<Vec<u8>>,
    chunk: Vec<u8>,
    more: Vec<Vec<u8>>,
    text: String,
    longer: String,
    step: Step,
    next: Step,
)
    requires
        more@ == chunks@.push(chunk),
        call_ensures(Bridge::step, (bridge, Event::Body(chunks)), step),
        call_ensures(Bridge::step, (other, Event::Body(more)), next),
        step.output == Some(text),
        next.output == Some(longer),
    ensures
        encode_utf8(longer@) == encode_utf8(text@) + chunk@,
{
    let few = chunk_bytes(chunks@);
    let all = chunk_bytes(more@);
    assert(all == few.push(chunk@));
    assert(all.drop_last() == few);
    assert(all.last() == chunk@);
    few.lemma_flatten_and_flatten_alt_are_equivalent();
    all.lemma_flatten_and_flatten_alt_are_equivalent();
    decode_utf8_encode_utf8(few.flatten());
    decode_utf8_encode_utf8(all.flatten());
}

/// Data of an event stream is printed, character for character, and the next fragment is
/// read.
pub proof fn data_of_a_stream_is_printed(bridge: &mut Bridge, data: String, step: Step)
    requires
        call_ensures(
            Bridge::step,
            (bridge, Event::Stream(StreamEvent::Fragment(Fragment::Data(data)))),
            step,
        ),
        old(bridge)@.phase == Phase::Streaming,
    ensures
        step.output matches Some(line) && line@ == data@,
        step.command is ReadFragment,
        final(bridge)@ == old(bridge)@,
{
}

/// Other fragments of an event stream are passed over, and the next fragment is read.
pub proof fn other_fragments_of_a_stream_are_passed_over(
    bridge: &mut Bridge,
    fragment: Fragment,
    step: Step,
)
    requires
        call_ensures(
            Bridge::step,
            (bridge, Event::Stream(StreamEvent::Fragment(fragment))),
            step,
        ),
        old(bridge)@.phase == Phase::Streaming,
        !(fragment is Data),
    ensures
        step.output is None,
        step.command is ReadFragment,
        final(bridge)@ == old(bridge)@,
{
}

/// When an event stream brings no fragment, for whatever reason, the next line is read.
pub proof fn stream_gives_way_to_the_next_line(
    bridge: &mut Bridge,
    event: StreamEvent,
    step: Step,
)
    requires
        call_ensures(Bridge::step, (bridge, Event::Stream(event)), step),
        !(event is Fragment),
    ensures
        step.output is None,
        step.command is ReadLine,
        final(bridge)@ == (BridgeState { phase: Phase::Reading, ..old(bridge)@ }),
{
}

/// The start asks for the subscription at the endpoint, for an event stream and without a
/// body, and turns to the first line. The session and the token stand in the request as
/// they do in one that carries a line.
pub proof fn start_asks_for_the_subscription(bridge: &mut Bridge, uri: http::Uri, step: Step)
    requires
        call_ensures(Bridge::step, (bridge, Event::Started), step),
        parsed_uri(old(bridge)@.endpoint) == Ok::<http::Uri, http::uri::InvalidUri>(uri),
        old(bridge)@.session_id matches Some(id) ==> forall|i: int|
            0 <= i < id.len() ==> (#[trigger] id[i] as u32 >= 32 && id[i] as u32 != 127) || id[i]
                as u32 == 9,
        old(bridge)@.auth_token matches Some(token) ==> forall|i: int|
            0 <= i < token.len() ==> (#[trigger] token[i] as u32 >= 32 && token[i] as u32 != 127)
                || token[i] as u32 == 9,
    ensures
        step.output is None,
        final(bridge)@ == (BridgeState {
            phase: Phase::Reading,
            subscription: Subscription::Asked,
            ..old(bridge)@
        }),
        step.command matches Command::Subscribe(request) && {
            &&& request.method == Method::Get
            &&& request.uri == uri
            &&& request.body@.len() == 0
            &&& request.headers@.len() == 1 + (if old(bridge)@.session_id is Some {
                1int
            } else {
                0
            }) + (if old(bridge)@.auth_token is Some {
                1int
            } else {
                0
            })
            &&& request.headers@[0].field == Field::Accept
            &&& header_bytes(request.headers@[0].value) == encode_utf8("text/event-stream"@)
            &&& old(bridge)@.session_id matches Some(id) ==> {
                &&& request.headers@[1].field == Field::SessionId
                &&& header_bytes(request.headers@[1].value) == encode_utf8(id)
            }
            &&& old(bridge)@.auth_token matches Some(token) ==> {
                &&& request.headers@.last().field == Field::Authorization
                &&& header_bytes(request.headers@.last().value) == encode_utf8("Bearer "@ + token)
            }
        },
{
    let state = old(bridge)@;
    let texts = subscription_headers(state.session_id, state.auth_token);
    fixed_values_are_sendable();
    if let Some(token) = state.auth_token {
        token_behind_bearer(token);
    }
    assert(all_sendable(texts));
    let request = step.command->Subscribe_0;
    headers_on_the_wire(request, texts, 0, Field::Accept);
    if let Some(id) = state.session_id {
        headers_on_the_wire(request, texts, 1, Field::SessionId);
    }
    if let Some(token) = state.auth_token {
        headers_on_the_wire(request, texts, texts.len() - 1, Field::Authorization);
    }
}

/// Without a usable endpoint and token the start asks for nothing, and turns to the first
/// line all the same.
pub proof fn start_without_a_subscription(bridge: &mut Bridge, place: int, step: Step)
    requires
        call_ensures(Bridge::step, (bridge, Event::Started), step),
        parsed_uri(old(bridge)@.endpoint) is Err || (old(bridge)@.auth_token matches Some(token)
            && 0 <= place < token.len() && (token[place] as u32 == 127 || (token[place] as u32)
            < 32 && token[place] as u32 != 9)),
    ensures
        step.output is None,
        step.command is ReadLine,
        final(bridge)@ == (BridgeState { phase: Phase::Reading, ..old(bridge)@ }),
{
    let texts = subscription_headers(old(bridge)@.session_id, old(bridge)@.auth_token);
    if let Some(token) = old(bridge)@.auth_token {
        token_behind_bearer(token);
        assert(texts.last().1 == "Bearer "@ + token);
        if 0 <= place < token.len() && (token[place] as u32 == 127 || (token[place] as u32) < 32
            && token[place] as u32 != 9) {
            assert(!is_sendable(token));
            assert(!is_sendable(texts[texts.len() - 1].1));
        }
    }
}

/// The subscription is followed exactly when its answer announces an event stream. The answer
/// prints nothing, brings no session, and leaves what is waited for as it is.
pub proof fn announced_stream_opens_the_subscription(
    bridge: &mut Bridge,
    head: ResponseHead,
    route: Route,
    step: Step,
)
    requires
        call_ensures(Bridge::step, (bridge, Event::Subscribed(head)), step),
        call_ensures(ResponseHead::route, (&head,), route),
    ensures
        step.output is None,
        route == Route::Stream ==> step.command is Follow,
        route != Route::Stream ==> step.command is Continue,
        final(bridge)@ == (BridgeState {
            subscription: if route == Route::Stream {
                Subscription::Followed
            } else {
                Subscription::Idle
            },
            ..old(bridge)@
        }),
{
}

/// A subscription that cannot be had is passed over.
pub proof fn failed_subscription_is_passed_over(bridge: &mut Bridge, step: Step)
    requires
        call_ensures(Bridge::step, (bridge, Event::SubscribeFailed), step),
    ensures
        step.output is None,
        step.command is Continue,
        final(bridge)@ == (BridgeState { subscription: Subscription::Idle, ..old(bridge)@ }),
{
}

/// Data of the subscription is printed, character for character, and nothing else changes.
pub proof fn data_of_the_subscription_is_printed(bridge: &mut Bridge, data: String, step: Step)
    requires
        call_ensures(
            Bridge::step,
            (bridge, Event::Push(StreamEvent::Fragment(Fragment::Data(data)))),
            step,
        ),
    ensures
        step.output matches Some(line) && line@ == data@,
        step.command is Continue,
        final(bridge)@ == old(bridge)@,
{
}

/// Other fragments of the subscription are passed over.
pub proof fn other_fragments_of_the_subscription_are_passed_over(
    bridge: &mut Bridge,
    fragment: Fragment,
    step: Step,
)
    requires
        call_ensures(Bridge::step, (bridge, Event::Push(StreamEvent::Fragment(fragment))), step),
        !(fragment is Data),
    ensures
        step.output is None,
        step.command is Continue,
        final(bridge)@ == old(bridge)@,
{
}

/// When the subscription brings no fragment, for whatever reason, it is not followed any
/// more, and nothing else changes.
pub proof fn subscription_ends_without_a_fragment(
    bridge: &mut Bridge,
    event: StreamEvent,
    step: Step,
)
    requires
        call_ensures(Bridge::step, (bridge, Event::Push(event)), step),
        !(event is Fragment),
    ensures
        step.output is None,
        step.command is Continue,
        final(bridge)@ == (BridgeState { subscription: Subscription::Idle, ..old(bridge)@ }),
{
}

} // verus!
