use mcp_gateway::stream::{
    on_stream_event, Fragment, StreamEvent, StreamStep, STREAM_TIMEOUT_SECS,
};

#[test]
fn data_is_printed() {
    let step = on_stream_event(StreamEvent::Fragment(Fragment::Data("{}".to_string())));
    assert!(matches!(step, StreamStep::Print(line) if line == "{}"));
    let step = on_stream_event(StreamEvent::Fragment(Fragment::Data("".to_string())));
    assert!(matches!(step, StreamStep::Print(line) if line == ""));
}

#[test]
fn other_fragments_are_passed_over() {
    for fragment in [
        Fragment::Event("message".to_string()),
        Fragment::Id("7".to_string()),
        Fragment::Other,
    ] {
        let step = on_stream_event(StreamEvent::Fragment(fragment));
        assert!(matches!(step, StreamStep::Continue));
    }
}

#[test]
fn stream_is_left_when_it_is_over() {
    for event in [StreamEvent::Failed, StreamEvent::Ended, StreamEvent::TimedOut] {
        assert!(matches!(on_stream_event(event), StreamStep::Stop));
    }
    assert_eq!(STREAM_TIMEOUT_SECS, 30);
}
