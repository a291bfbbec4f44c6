use http::{HeaderMap, HeaderValue};
use mcp_gateway::bridge::{Bridge, BridgeError, Command, Event, Phase};
use mcp_gateway::config::{Config, DEFAULT_LOG_LEVEL};
use mcp_gateway::request::{Field, HttpRequest, Method, RequestError};
use mcp_gateway::response::ResponseHead;
use mcp_gateway::stream::{Fragment, StreamEvent};

const ENDPOINT: &str = "http://localhost:9092/sse";

/// A bridge that was started, and whose subscription has not been answered.
fn bridge(token: Option<&str>) -> Bridge {
    let mut bridge = Bridge::new(ENDPOINT.to_string(), token.map(|token| token.to_string()));
    report(&mut bridge, Event::Started);
    bridge
}

/// A bridge whose subscription is followed.
fn subscribed() -> Bridge {
    let mut bridge = bridge(None);
    report(&mut bridge, subscription(200, &[("content-type", "text/event-stream")]));
    bridge
}

fn report(bridge: &mut Bridge, event: Event) -> (Option<String>, Command) {
    assert!(bridge.expects(&event));
    let step = bridge.step(event);
    (step.output, step.command)
}

fn send(bridge: &mut Bridge, line: &str) -> HttpRequest {
    match report(bridge, Event::Line(line.to_string())) {
        (None, Command::Send(request)) => request,
        _ => panic!("not sent"),
    }
}

fn head(status: u16, headers: &[(&'static str, &'static str)]) -> ResponseHead {
    let mut map = HeaderMap::new();
    for (name, value) in headers {
        map.insert(*name, HeaderValue::from_static(value));
    }
    ResponseHead { status, headers: map }
}

fn response(status: u16, headers: &[(&'static str, &'static str)]) -> Event {
    Event::Response(head(status, headers))
}

fn subscription(status: u16, headers: &[(&'static str, &'static str)]) -> Event {
    Event::Subscribed(head(status, headers))
}

fn push(text: &str) -> Event {
    Event::Push(StreamEvent::Fragment(Fragment::Data(text.to_string())))
}

fn data(text: &str) -> Event {
    Event::Stream(StreamEvent::Fragment(Fragment::Data(text.to_string())))
}

fn value(request: &HttpRequest, field: Field) -> Option<Vec<u8>> {
    request
        .headers
        .iter()
        .find(|header| header.field == field)
        .map(|header| header.value.as_bytes().to_vec())
}

#[test]
fn settings_make_a_bridge() {
    let config = Config {
        endpoint: ENDPOINT.to_string(),
        log_level: DEFAULT_LOG_LEVEL.to_string(),
        auth_token: Some("secret".to_string()),
    };
    assert_eq!(config.log_level, "debug");
    let mut bridge = config.into_bridge();
    assert_eq!(bridge.phase(), Phase::Starting);
    assert_eq!(bridge.session_id(), None);
    report(&mut bridge, Event::Started);
    assert_eq!(bridge.phase(), Phase::Reading);
    let request = send(&mut bridge, "{}");
    assert_eq!(request.method, Method::Post);
    assert_eq!(request.uri.path(), "/sse");
    assert_eq!(value(&request, Field::Authorization), Some(b"Bearer secret".to_vec()));
}

#[test]
fn empty_line_is_passed_over() {
    let mut bridge = bridge(None);
    let (output, command) = report(&mut bridge, Event::Line("".to_string()));
    assert_eq!(output, None);
    assert!(matches!(command, Command::ReadLine));
    assert_eq!(bridge.phase(), Phase::Reading);
}

#[test]
fn blank_line_is_sent() {
    let mut bridge = bridge(None);
    assert_eq!(send(&mut bridge, " ").body, " ");
}

#[test]
fn json_answer_is_printed_and_the_next_line_is_read() {
    let mut bridge = bridge(None);
    let line = "{\"jsonrpc\":\"2.0\",\"method\":\"tools/list\",\"id\":1}";
    assert_eq!(send(&mut bridge, line).body, line);
    assert_eq!(bridge.phase(), Phase::Sending);

    let (output, command) =
        report(&mut bridge, response(200, &[("content-type", "application/json")]));
    assert_eq!(output, None);
    assert!(matches!(command, Command::ReadBody));

    let chunks = vec![b"{\"result\"".to_vec(), b":{}}".to_vec()];
    let (output, command) = report(&mut bridge, Event::Body(chunks));
    assert_eq!(output, Some("{\"result\":{}}".to_string()));
    assert!(matches!(command, Command::ReadLine));
    assert_eq!(bridge.phase(), Phase::Reading);
}

#[test]
fn event_stream_is_printed_in_order() {
    let mut bridge = bridge(None);
    send(&mut bridge, "{}");
    let (_, command) =
        report(&mut bridge, response(200, &[("content-type", "text/event-stream")]));
    assert!(matches!(command, Command::ReadFragment));

    let mut printed = Vec::new();
    for event in [
        Event::Stream(StreamEvent::Fragment(Fragment::Event("message".to_string()))),
        data("one"),
        Event::Stream(StreamEvent::Fragment(Fragment::Id("1".to_string()))),
        data("two"),
        Event::Stream(StreamEvent::Fragment(Fragment::Other)),
    ] {
        let (output, command) = report(&mut bridge, event);
        printed.extend(output);
        assert!(matches!(command, Command::ReadFragment));
    }
    assert_eq!(printed, vec!["one".to_string(), "two".to_string()]);

    let (output, command) = report(&mut bridge, Event::Stream(StreamEvent::Ended));
    assert_eq!(output, None);
    assert!(matches!(command, Command::ReadLine));
}

#[test]
fn broken_stream_does_not_end_the_bridge() {
    for end in [StreamEvent::Failed, StreamEvent::TimedOut, StreamEvent::Ended] {
        let mut bridge = bridge(None);
        send(&mut bridge, "{}");
        report(&mut bridge, response(200, &[("content-type", "text/event-stream")]));
        let (output, command) = report(&mut bridge, Event::Stream(end));
        assert_eq!(output, None);
        assert!(matches!(command, Command::ReadLine));
        send(&mut bridge, "{}");
    }
}

#[test]
fn first_session_is_kept_and_sent_back() {
    let mut bridge = bridge(Some("t"));
    assert_eq!(value(&send(&mut bridge, "1"), Field::SessionId), None);
    report(&mut bridge, response(202, &[]));
    assert_eq!(bridge.session_id(), None);

    send(&mut bridge, "2");
    report(&mut bridge, response(202, &[("mcp-session-id", "first")]));
    assert_eq!(bridge.session_id(), Some("first".to_string()));

    let request = send(&mut bridge, "3");
    assert_eq!(value(&request, Field::SessionId), Some(b"first".to_vec()));
    assert_eq!(value(&request, Field::Authorization), Some(b"Bearer t".to_vec()));
    report(&mut bridge, response(202, &[("mcp-session-id", "second")]));

    let request = send(&mut bridge, "4");
    assert_eq!(value(&request, Field::SessionId), Some(b"first".to_vec()));
}

#[test]
fn unreadable_session_leaves_the_way_open() {
    let mut bridge = bridge(None);
    send(&mut bridge, "1");
    let mut headers = HeaderMap::new();
    headers.insert("mcp-session-id", HeaderValue::from_bytes(b"\xe9").unwrap());
    report(&mut bridge, Event::Response(ResponseHead { status: 202, headers }));
    assert_eq!(bridge.session_id(), None);
    send(&mut bridge, "2");
    report(&mut bridge, response(202, &[("mcp-session-id", "later")]));
    assert_eq!(bridge.session_id(), Some("later".to_string()));
}

#[test]
fn session_is_taken_from_an_error_response() {
    let mut bridge = bridge(None);
    send(&mut bridge, "1");
    let (_, command) = report(&mut bridge, response(500, &[("mcp-session-id", "s")]));
    assert!(matches!(command, Command::ReadLine));
    assert_eq!(bridge.session_id(), Some("s".to_string()));
}

#[test]
fn accepted_goes_on_with_the_next_line() {
    let mut bridge = bridge(None);
    send(&mut bridge, "{\"method\":\"notifications/message\"}");
    let (output, command) =
        report(&mut bridge, response(202, &[("content-type", "application/json")]));
    assert_eq!(output, None);
    assert!(matches!(command, Command::ReadLine));
}

#[test]
fn end_of_input_ends_well() {
    for event in [Event::InputClosed, Event::InputFailed] {
        let mut bridge = bridge(None);
        let (output, command) = report(&mut bridge, event);
        assert_eq!(output, None);
        assert!(matches!(command, Command::Finish));
        assert_eq!(bridge.phase(), Phase::Done);
    }
}

#[test]
fn nothing_is_expected_after_the_end() {
    let mut bridge = bridge(None);
    report(&mut bridge, Event::InputClosed);
    for event in [
        Event::Started,
        Event::Line("x".to_string()),
        Event::InputClosed,
        Event::InputFailed,
        response(202, &[]),
        Event::SendFailed,
        Event::Body(vec![]),
        Event::BodyFailed,
        data("x"),
        subscription(200, &[("content-type", "text/event-stream")]),
        Event::SubscribeFailed,
        push("x"),
    ] {
        assert!(!bridge.expects(&event));
    }
}

#[test]
fn events_are_expected_in_their_phase() {
    let mut bridge = bridge(None);
    assert!(!bridge.expects(&response(202, &[])));
    assert!(!bridge.expects(&Event::SendFailed));
    send(&mut bridge, "x");
    assert!(!bridge.expects(&Event::Line("x".to_string())));
    assert!(!bridge.expects(&Event::InputClosed));
    report(&mut bridge, response(200, &[("content-type", "application/json")]));
    assert!(bridge.expects(&Event::BodyFailed));
    assert!(!bridge.expects(&data("x")));
}

#[test]
fn unusable_endpoint_fails_on_the_first_line() {
    let mut bridge = Bridge::new("http://local host/".to_string(), None);
    let (output, command) = report(&mut bridge, Event::Started);
    assert_eq!(output, None);
    assert!(matches!(command, Command::ReadLine));
    assert!(!bridge.expects(&Event::SubscribeFailed));
    let (_, command) = report(&mut bridge, Event::Line("".to_string()));
    assert!(matches!(command, Command::ReadLine));
    let (output, command) = report(&mut bridge, Event::Line("{}".to_string()));
    assert_eq!(output, None);
    assert!(matches!(
        command,
        Command::Fail(BridgeError::Request(RequestError::Uri(_)))
    ));
    assert_eq!(bridge.phase(), Phase::Done);
}

#[test]
fn unusable_token_fails_on_the_first_line() {
    let mut bridge = bridge(Some("a\nb"));
    let (_, command) = report(&mut bridge, Event::Line("{}".to_string()));
    assert!(matches!(
        command,
        Command::Fail(BridgeError::Request(RequestError::HeaderValue(_)))
    ));
}

#[test]
fn failed_exchange_fails_the_bridge() {
    let mut sending = bridge(None);
    send(&mut sending, "{}");
    let (_, command) = report(&mut sending, Event::SendFailed);
    assert!(matches!(command, Command::Fail(BridgeError::Send)));
    assert_eq!(sending.phase(), Phase::Done);

    let mut receiving = bridge(None);
    send(&mut receiving, "{}");
    report(&mut receiving, response(200, &[("content-type", "application/json")]));
    let (_, command) = report(&mut receiving, Event::BodyFailed);
    assert!(matches!(command, Command::Fail(BridgeError::Body)));

    let mut garbled = bridge(None);
    send(&mut garbled, "{}");
    report(&mut garbled, response(200, &[("content-type", "application/json")]));
    let (output, command) = report(&mut garbled, Event::Body(vec![b"ab".to_vec(), vec![0xff]]));
    assert_eq!(output, None);
    match command {
        Command::Fail(BridgeError::Utf8(refusal)) => {
            assert_eq!(refusal.utf8_error().valid_up_to(), 2);
            assert_eq!(refusal.into_bytes(), vec![b'a', b'b', 0xff]);
        }
        _ => panic!("not refused"),
    }
}

#[test]
fn requests_hold_no_session_before_it_is_offered_and_no_token_without_one() {
    let mut bridge = bridge(None);
    for line in ["1", "2"] {
        let request = send(&mut bridge, line);
        assert_eq!(value(&request, Field::SessionId), None);
        assert_eq!(value(&request, Field::Authorization), None);
        report(&mut bridge, response(202, &[]));
    }
    send(&mut bridge, "3");
    report(&mut bridge, response(202, &[("mcp-session-id", "s")]));
    let request = send(&mut bridge, "4");
    assert_eq!(value(&request, Field::SessionId), Some(b"s".to_vec()));
    assert_eq!(value(&request, Field::Authorization), None);
}

#[test]
fn session_is_all_that_an_exchange_leaves_behind() {
    let mut long = bridge(Some("t"));
    send(&mut long, "1");
    report(
        &mut long,
        response(200, &[("mcp-session-id", "s"), ("content-type", "text/event-stream")]),
    );
    report(&mut long, data("x"));
    report(&mut long, Event::Stream(StreamEvent::Failed));

    let mut short = bridge(Some("t"));
    send(&mut short, "other");
    report(&mut short, response(202, &[("mcp-session-id", "s")]));

    let (first, second) = (send(&mut long, "2"), send(&mut short, "2"));
    assert_eq!(first.uri, second.uri);
    assert_eq!(first.body, second.body);
    assert_eq!(first.headers.len(), second.headers.len());
    for (left, right) in first.headers.iter().zip(&second.headers) {
        assert_eq!(left.field, right.field);
        assert_eq!(left.value, right.value);
    }
}

#[test]
fn ignored_fragments_do_not_change_what_is_printed() {
    let ignored = || Event::Stream(StreamEvent::Fragment(Fragment::Other));
    let mut outputs = Vec::new();
    for events in [
        vec![data("a"), data("b")],
        vec![ignored(), data("a"), ignored(), ignored(), data("b"), ignored()],
    ] {
        let mut bridge = bridge(None);
        send(&mut bridge, "{}");
        report(&mut bridge, response(200, &[("content-type", "text/event-stream")]));
        let mut printed = Vec::new();
        for event in events {
            printed.extend(report(&mut bridge, event).0);
        }
        outputs.push(printed);
    }
    assert_eq!(outputs[0], vec!["a".to_string(), "b".to_string()]);
    assert_eq!(outputs[0], outputs[1]);
}

#[test]
fn messages_of_a_whole_session() {
    let mut bridge = bridge(None);
    let list = "{\"jsonrpc\":\"2.0\",\"method\":\"tools/list\",\"id\":1}";
    let call = "{\"jsonrpc\":\"2.0\",\"method\":\"tools/call\",\"id\":2,\"params\":{\"name\":\"test.echo\",\"arguments\":{\"text\":\"Hello from integration test!\"}}}";
    let note = "{\"jsonrpc\":\"2.0\",\"method\":\"notifications/message\",\"params\":{\"message\":\"Test notification\"}}";
    let mut bodies = Vec::new();
    let mut printed = Vec::new();

    bodies.push(send(&mut bridge, list).body);
    report(&mut bridge, response(200, &[("content-type", "application/json")]));
    printed.extend(report(&mut bridge, Event::Body(vec![b"{\"id\":1}".to_vec()])).0);

    bodies.push(send(&mut bridge, call).body);
    report(&mut bridge, response(200, &[("content-type", "text/event-stream")]));
    printed.extend(report(&mut bridge, data("{\"id\":2}")).0);
    printed.extend(report(&mut bridge, Event::Stream(StreamEvent::Ended)).0);

    bodies.push(send(&mut bridge, note).body);
    printed.extend(report(&mut bridge, response(202, &[])).0);

    assert!(matches!(report(&mut bridge, Event::InputClosed).1, Command::Finish));
    assert_eq!(bodies, vec![list.to_string(), call.to_string(), note.to_string()]);
    assert_eq!(printed, vec!["{\"id\":1}".to_string(), "{\"id\":2}".to_string()]);
}

#[test]
fn bridge_begins_with_the_subscription() {
    let mut bridge = Bridge::new(ENDPOINT.to_string(), Some("secret".to_string()));
    assert!(!bridge.expects(&Event::Line("{}".to_string())));
    assert!(!bridge.expects(&Event::SubscribeFailed));
    assert!(!bridge.expects(&push("x")));
    let request = match report(&mut bridge, Event::Started) {
        (None, Command::Subscribe(request)) => request,
        _ => panic!("not subscribed"),
    };
    assert_eq!(request.method, Method::Get);
    assert_eq!(request.uri.to_string(), ENDPOINT);
    assert_eq!(request.body, "");
    assert_eq!(request.headers.len(), 2);
    assert_eq!(value(&request, Field::Accept), Some(b"text/event-stream".to_vec()));
    assert_eq!(value(&request, Field::Authorization), Some(b"Bearer secret".to_vec()));
    assert_eq!(bridge.phase(), Phase::Reading);
    assert!(!bridge.expects(&Event::Started));
    assert!(bridge.expects(&Event::SubscribeFailed));
    assert!(bridge.expects(&Event::Line("{}".to_string())));
}

#[test]
fn pushes_are_printed_while_a_line_is_awaited() {
    let mut bridge = bridge(None);
    let answer = subscription(200, &[("content-type", "text/event-stream")]);
    let (output, command) = report(&mut bridge, answer);
    assert_eq!(output, None);
    assert!(matches!(command, Command::Follow));
    assert!(!bridge.expects(&Event::SubscribeFailed));

    let mut printed = Vec::new();
    for event in [
        Event::Push(StreamEvent::Fragment(Fragment::Event("endpoint".to_string()))),
        push("/message/1"),
        push("{\"jsonrpc\":\"2.0\",\"method\":\"tools/list\",\"id\":1}"),
        Event::Push(StreamEvent::Fragment(Fragment::Other)),
    ] {
        let (output, command) = report(&mut bridge, event);
        printed.extend(output);
        assert!(matches!(command, Command::Continue));
        assert_eq!(bridge.phase(), Phase::Reading);
    }
    assert_eq!(
        printed,
        vec![
            "/message/1".to_string(),
            "{\"jsonrpc\":\"2.0\",\"method\":\"tools/list\",\"id\":1}".to_string(),
        ]
    );
}

#[test]
fn pushes_do_not_disturb_an_exchange() {
    let mut bridge = subscribed();
    send(&mut bridge, "1");
    assert_eq!(report(&mut bridge, push("a")).0, Some("a".to_string()));
    assert_eq!(bridge.phase(), Phase::Sending);
    report(&mut bridge, response(200, &[("content-type", "application/json")]));
    assert_eq!(report(&mut bridge, push("b")).0, Some("b".to_string()));
    assert_eq!(bridge.phase(), Phase::Receiving);
    assert_eq!(
        report(&mut bridge, Event::Body(vec![b"{}".to_vec()])).0,
        Some("{}".to_string())
    );
    send(&mut bridge, "2");
    report(&mut bridge, response(200, &[("content-type", "text/event-stream")]));
    assert_eq!(report(&mut bridge, push("c")).0, Some("c".to_string()));
    assert_eq!(bridge.phase(), Phase::Streaming);
    assert_eq!(report(&mut bridge, data("d")).0, Some("d".to_string()));
}

#[test]
fn end_of_the_subscription_leaves_the_bridge_as_it_was() {
    for end in [StreamEvent::Failed, StreamEvent::TimedOut, StreamEvent::Ended] {
        let mut bridge = subscribed();
        let (output, command) = report(&mut bridge, Event::Push(end));
        assert_eq!(output, None);
        assert!(matches!(command, Command::Continue));
        assert_eq!(bridge.phase(), Phase::Reading);
        assert!(!bridge.expects(&push("x")));
        assert!(!bridge.expects(&Event::SubscribeFailed));
        send(&mut bridge, "{}");
    }
}

#[test]
fn server_without_a_subscription_is_served() {
    for event in [
        Event::SubscribeFailed,
        subscription(405, &[]),
        subscription(200, &[("content-type", "application/json")]),
        subscription(202, &[("content-type", "text/event-stream")]),
    ] {
        let mut bridge = bridge(None);
        let (output, command) = report(&mut bridge, event);
        assert_eq!(output, None);
        assert!(matches!(command, Command::Continue));
        assert!(!bridge.expects(&push("x")));
        assert!(!bridge.expects(&Event::SubscribeFailed));
        send(&mut bridge, "{}");
    }
}

#[test]
fn subscription_brings_no_session() {
    let mut bridge = bridge(None);
    report(
        &mut bridge,
        subscription(200, &[("content-type", "text/event-stream"), ("mcp-session-id", "s")]),
    );
    assert_eq!(bridge.session_id(), None);
    assert_eq!(value(&send(&mut bridge, "{}"), Field::SessionId), None);
}

#[test]
fn subscription_may_be_answered_in_the_middle_of_an_exchange() {
    let mut bridge = bridge(None);
    send(&mut bridge, "{}");
    let answer = subscription(200, &[("content-type", "text/event-stream")]);
    assert!(matches!(report(&mut bridge, answer).1, Command::Follow));
    assert_eq!(bridge.phase(), Phase::Sending);
    assert!(matches!(report(&mut bridge, response(202, &[])).1, Command::ReadLine));
    assert_eq!(report(&mut bridge, push("x")).0, Some("x".to_string()));
}

#[test]
fn unusable_token_asks_for_no_subscription() {
    let mut bridge = Bridge::new(ENDPOINT.to_string(), Some("a\nb".to_string()));
    assert!(matches!(report(&mut bridge, Event::Started).1, Command::ReadLine));
    assert_eq!(bridge.phase(), Phase::Reading);
}

#[test]
fn subscription_changes_no_request() {
    let mut without = bridge(Some("t"));
    let mut with = bridge(Some("t"));
    report(&mut with, subscription(200, &[("content-type", "text/event-stream")]));
    for line in ["1", "2", "3"] {
        let (first, second) = (send(&mut without, line), send(&mut with, line));
        assert_eq!(first.method, second.method);
        assert_eq!(first.uri, second.uri);
        assert_eq!(first.body, second.body);
        assert_eq!(value(&first, Field::SessionId), value(&second, Field::SessionId));
        assert_eq!(value(&first, Field::Authorization), value(&second, Field::Authorization));
        report(&mut with, push("x"));
        report(&mut without, response(202, &[("mcp-session-id", "s")]));
        report(&mut with, response(202, &[("mcp-session-id", "s")]));
    }
    report(&mut with, Event::Push(StreamEvent::Ended));
    assert_eq!(without.session_id(), with.session_id());
    assert_eq!(without.phase(), with.phase());
}
