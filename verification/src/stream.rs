//! The event stream with which a server may answer.
use vstd::prelude::*;

verus! {

/// How long the gateway waits for the next fragment, in seconds.
pub const STREAM_TIMEOUT_SECS: u64 = 30;

/// One fragment of an event stream.
pub enum Fragment {
    /// The type of an event.
    Event(String),
    /// The identifier of an event.
    Id(String),
    /// The data of an event: a message.
    Data(String),
    /// Any other field.
    Other,
}

/// What waiting for the next fragment can come to.
pub enum StreamEvent {
    Fragment(Fragment),
    /// The stream broke.
    Failed,
    /// The stream came to its end.
    Ended,
    /// No fragment came in time.
    TimedOut,
}

/// What to do after a [`StreamEvent`].
pub enum StreamStep {
    /// Print a message, then wait for the next fragment.
    Print(String),
    /// Wait for the next fragment.
    Continue,
    /// Leave the stream.
    Stop,
}

/// What a [`StreamEvent`] says to the gateway: a message, nothing of interest, or
/// that the stream is over.
pub enum StreamEventView {
    Message(Seq<char>),
    Ignored,
    Over,
}

impl View for StreamEvent {
    type V = StreamEventView;

    open spec fn view(&self) -> StreamEventView {
        match self {
            StreamEvent::Fragment(Fragment::Data(data)) => StreamEventView::Message(data@),
            StreamEvent::Fragment(_) => StreamEventView::Ignored,
            StreamEvent::Failed => StreamEventView::Over,
            StreamEvent::Ended => StreamEventView::Over,
            StreamEvent::TimedOut => StreamEventView::Over,
        }
    }
}

/// The messages of a stream, in order, up to the point where it is over.
pub open spec fn messages(events: Seq<StreamEventView>) -> Seq<Seq<char>>
    decreases events.len(),
{
    if events.len() == 0 {
        Seq::empty()
    } else {
        match events.first() {
            StreamEventView::Message(data) => seq![data] + messages(events.drop_first()),
            StreamEventView::Ignored => messages(events.drop_first()),
            StreamEventView::Over => Seq::empty(),
        }
    }
}

/// Decides on one stream event: data is printed, other fragments are passed
/// over, and a stream that broke, ended or fell silent is left.
pub fn on_stream_event(event: StreamEvent) -> (step: StreamStep)
    ensures
        match event@ {
            StreamEventView::Message(data) => step matches StreamStep::Print(line) && line@ == data,
            StreamEventView::Ignored => step is Continue,
            StreamEventView::Over => step is Stop,
        },
{
    match event {
        StreamEvent::Fragment(fragment) => match fragment {
            Fragment::Event(_) => StreamStep::Continue,
            Fragment::Id(_) => StreamStep::Continue,
            Fragment::Data(data) => StreamStep::Print(data),
            Fragment::Other => StreamStep::Continue,
        },
        StreamEvent::Failed => StreamStep::Stop,
        StreamEvent::Ended => StreamStep::Stop,
        StreamEvent::TimedOut => StreamStep::Stop,
    }
}

} // verus!
