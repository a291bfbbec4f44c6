//! The bridge between the lines of the standard input and the MCP endpoint.
//!
//! A [`Bridge`] decides and never waits: it is told what happened, and says what
//! is to be printed and what is to be waited for next.
//!
//! Beside the exchange of lines and answers stands the subscription: the bridge
//! asks for it when it starts, and prints what the server sends over it at any
//! time. A server that has none to give is served all the same.
use std::string::FromUtf8Error;
use vstd::prelude::*;
use vstd::utf8::*;

use crate::request::{
    build_headers, build_subscription_headers, make_request, made_request, message_headers,
    subscription_headers, text_view, HttpRequest, Method, RequestError,
    RequestErrorView, RequestView,
};
use crate::response::{is_readable, route_of, session_after, ResponseHead, ResponseView, Route};
use crate::stream::{on_stream_event, StreamEvent, StreamEventView, StreamStep};
use crate::text::{chunk_bytes, decode_body, utf8_refusal};

verus! {

/// What the bridge waits for, the subscription apart.
#[derive(Clone, Copy, Debug, PartialEq, Eq, Structural)]
pub enum Phase {
    /// The start.
    Starting,
    /// The next line of the input.
    Reading,
    /// The head of a response.
    Sending,
    /// The body of a JSON response.
    Receiving,
    /// The next fragment of an event stream.
    Streaming,
    /// Nothing more.
    Done,
}

/// How the bridge stands to the subscription.
#[derive(Clone, Copy, Debug, PartialEq, Eq, Structural)]
pub enum Subscription {
    /// There is none.
    Idle,
    /// It was asked for, and the answer has not come.
    Asked,
    /// It is followed.
    Followed,
}

/// What happened.
pub enum Event {
    /// The bridge was started.
    Started,
    /// A line was read, without its line ending.
    Line(String),
    /// The input came to its end.
    InputClosed,
    /// The input could not be read.
    InputFailed,
    /// The server answered.
    Response(ResponseHead),
    /// The request could not be sent.
    SendFailed,
    /// The body of a JSON response came, in these chunks.
    Body(Vec<Vec<u8>>),
    /// The body of a JSON response could not be read.
    BodyFailed,
    /// Something happened on the event stream.
    Stream(StreamEvent),
    /// The server answered the request for the subscription.
    Subscribed(ResponseHead),
    /// The request for the subscription could not be sent.
    SubscribeFailed,
    /// Something happened on the subscription.
    Push(StreamEvent),
}

/// Why the bridge failed.
pub enum BridgeError {
    /// A line could not be made into a request.
    Request(RequestError),
    /// A request could not be sent.
    Send,
    /// The body of a JSON response could not be read.
    Body,
    /// The body of a JSON response is not UTF-8.
    Utf8(FromUtf8Error),
}

/// What to wait for.
pub enum Command {
    /// Ask for the subscription, and read the next line of the input without waiting
    /// for the answer.
    Subscribe(HttpRequest),
    /// Read the next line of the input.
    ReadLine,
    /// Send a request, and wait for the response.
    Send(HttpRequest),
    /// Read the body of the response.
    ReadBody,
    /// Read the next fragment of the event stream.
    ReadFragment,
    /// Follow the subscription from now on, and go on with what is waited for.
    Follow,
    /// Go on with what is waited for.
    Continue,
    /// End well.
    Finish,
    /// End with an error.
    Fail(BridgeError),
}

/// What to print, if anything, and then what to wait for.
pub struct Step {
    pub output: Option<String>,
    pub command: Command,
}

/// The state of a bridge.
pub struct BridgeState {
    pub endpoint: Seq<char>,
    pub auth_token: Option<Seq<char>>,
    pub session_id: Option<Seq<char>>,
    pub phase: Phase,
    pub subscription: Subscription,
}

impl BridgeState {
    /// A session that is known is a readable text.
    pub open spec fn well_formed(self) -> bool {
        self.session_id matches Some(id) ==> is_readable(id)
    }
}

/// An [`Event`] by what the bridge reads of it.
pub enum EventView {
    Started,
    Line(Seq<char>),
    InputClosed,
    InputFailed,
    Response(ResponseView),
    SendFailed,
    Body(Seq<Seq<u8>>),
    BodyFailed,
    Stream(StreamEventView),
    Subscribed(ResponseView),
    SubscribeFailed,
    Push(StreamEventView),
}

impl View for Event {
    type V = EventView;

    open spec fn view(&self) -> EventView {
        match self {
            Event::Started => EventView::Started,
            Event::Line(line) => EventView::Line(line@),
            Event::InputClosed => EventView::InputClosed,
            Event::InputFailed => EventView::InputFailed,
            Event::Response(head) => EventView::Response(head@),
            Event::SendFailed => EventView::SendFailed,
            Event::Body(chunks) => EventView::Body(chunk_bytes(chunks@)),
            Event::BodyFailed => EventView::BodyFailed,
            Event::Stream(event) => EventView::Stream(event@),
            Event::Subscribed(head) => EventView::Subscribed(head@),
            Event::SubscribeFailed => EventView::SubscribeFailed,
            Event::Push(event) => EventView::Push(event@),
        }
    }
}

/// A [`BridgeError`] by its contents.
pub enum ErrorView {
    Request(RequestErrorView),
    Send,
    Body,
    Utf8(FromUtf8Error),
}

impl View for BridgeError {
    type V = ErrorView;

    open spec fn view(&self) -> ErrorView {
        match self {
            BridgeError::Request(error) => ErrorView::Request(error@),
            BridgeError::Send => ErrorView::Send,
            BridgeError::Body => ErrorView::Body,
            BridgeError::Utf8(reason) => ErrorView::Utf8(*reason),
        }
    }
}

/// A [`Command`] by its contents.
pub enum CommandView {
    Subscribe(RequestView),
    ReadLine,
    Send(RequestView),
    ReadBody,
    ReadFragment,
    Follow,
    Continue,
    Finish,
    Fail(ErrorView),
}

impl View for Command {
    type V = CommandView;

    open spec fn view(&self) -> CommandView {
        match self {
            Command::Subscribe(request) => CommandView::Subscribe(request@),
            Command::ReadLine => CommandView::ReadLine,
            Command::Send(request) => CommandView::Send(request@),
            Command::ReadBody => CommandView::ReadBody,
            Command::ReadFragment => CommandView::ReadFragment,
            Command::Follow => CommandView::Follow,
            Command::Continue => CommandView::Continue,
            Command::Finish => CommandView::Finish,
            Command::Fail(error) => CommandView::Fail(error@),
        }
    }
}

/// A [`Step`] by its contents.
pub struct StepView {
    pub output: Option<Seq<char>>,
    pub command: CommandView,
}

impl View for Step {
    type V = StepView;

    open spec fn view(&self) -> StepView {
        StepView { output: text_view(self.output), command: self.command@ }
    }
}

/// The events that can happen in a state. Those of the subscription do not depend
/// on what else is waited for.
pub open spec fn can_happen(state: BridgeState, event: EventView) -> bool {
    match event {
        EventView::Started => state.phase == Phase::Starting,
        EventView::Line(_) => state.phase == Phase::Reading,
        EventView::InputClosed => state.phase == Phase::Reading,
        EventView::InputFailed => state.phase == Phase::Reading,
        EventView::Response(_) => state.phase == Phase::Sending,
        EventView::SendFailed => state.phase == Phase::Sending,
        EventView::Body(_) => state.phase == Phase::Receiving,
        EventView::BodyFailed => state.phase == Phase::Receiving,
        EventView::Stream(_) => state.phase == Phase::Streaming,
        EventView::Subscribed(_) => state.phase != Phase::Done && state.subscription
            == Subscription::Asked,
        EventView::SubscribeFailed => state.phase != Phase::Done && state.subscription
            == Subscription::Asked,
        EventView::Push(_) => state.phase != Phase::Done && state.subscription
            == Subscription::Followed,
    }
}

/// The phase in which a command leaves a bridge.
pub open spec fn phase_after(phase: Phase, command: CommandView) -> Phase {
    match command {
        CommandView::Subscribe(_) => Phase::Reading,
        CommandView::ReadLine => Phase::Reading,
        CommandView::Send(_) => Phase::Sending,
        CommandView::ReadBody => Phase::Receiving,
        CommandView::ReadFragment => Phase::Streaming,
        CommandView::Follow => phase,
        CommandView::Continue => phase,
        CommandView::Finish => Phase::Done,
        CommandView::Fail(_) => Phase::Done,
    }
}

/// The request for the subscription, or the reason why there is none.
pub open spec fn subscription_request(state: BridgeState) -> Result<RequestView, RequestErrorView> {
    made_request(
        Method::Get,
        state.endpoint,
        subscription_headers(state.session_id, state.auth_token),
        Seq::empty(),
    )
}

/// The request that carries a line, or the reason why there is none.
pub open spec fn line_request(state: BridgeState, line: Seq<char>) -> Result<
    RequestView,
    RequestErrorView,
> {
    made_request(
        Method::Post,
        state.endpoint,
        message_headers(state.session_id, state.auth_token),
        line,
    )
}

/// What the bridge answers to an event.
pub open spec fn answer(state: BridgeState, event: EventView) -> StepView {
    match event {
        EventView::Started => StepView {
            output: None,
            command: match subscription_request(state) {
                Ok(request) => CommandView::Subscribe(request),
                Err(_) => CommandView::ReadLine,
            },
        },
        EventView::Line(line) => StepView {
            output: None,
            command: if line.len() == 0 {
                CommandView::ReadLine
            } else {
                match line_request(state, line) {
                    Ok(request) => CommandView::Send(request),
                    Err(error) => CommandView::Fail(ErrorView::Request(error)),
                }
            },
        },
        EventView::InputClosed => StepView { output: None, command: CommandView::Finish },
        EventView::InputFailed => StepView { output: None, command: CommandView::Finish },
        EventView::Response(response) => StepView {
            output: None,
            command: match route_of(response) {
                Route::Nothing => CommandView::ReadLine,
                Route::Json => CommandView::ReadBody,
                Route::Stream => CommandView::ReadFragment,
            },
        },
        EventView::SendFailed => StepView {
            output: None,
            command: CommandView::Fail(ErrorView::Send),
        },
        EventView::Body(chunks) => if valid_utf8(chunks.flatten()) {
            StepView {
                output: Some(decode_utf8(chunks.flatten())),
                command: CommandView::ReadLine,
            }
        } else {
            StepView {
                output: None,
                command: CommandView::Fail(ErrorView::Utf8(utf8_refusal(chunks.flatten()))),
            }
        },
        EventView::BodyFailed => StepView {
            output: None,
            command: CommandView::Fail(ErrorView::Body),
        },
        EventView::Stream(event) => match event {
            StreamEventView::Message(data) => StepView {
                output: Some(data),
                command: CommandView::ReadFragment,
            },
            StreamEventView::Ignored => StepView {
                output: None,
                command: CommandView::ReadFragment,
            },
            StreamEventView::Over => StepView { output: None, command: CommandView::ReadLine },
        },
        EventView::Subscribed(response) => StepView {
            output: None,
            command: if route_of(response) == Route::Stream {
                CommandView::Follow
            } else {
                CommandView::Continue
            },
        },
        EventView::SubscribeFailed => StepView { output: None, command: CommandView::Continue },
        EventView::Push(event) => StepView {
            output: match event {
                StreamEventView::Message(data) => Some(data),
                _ => None,
            },
            command: CommandView::Continue,
        },
    }
}

/// The state after an event: a response to a line may bring the session, the answer
/// to the event decides the phase, and the subscription is asked for at the start and
/// followed from the answer that opens it until it is over. All else stays.
pub open spec fn next_state(state: BridgeState, event: EventView) -> BridgeState {
    BridgeState {
        session_id: match event {
            EventView::Response(response) => session_after(state.session_id, response),
            _ => state.session_id,
        },
        phase: phase_after(state.phase, answer(state, event).command),
        subscription: match event {
            EventView::Started if subscription_request(state) is Ok => Subscription::Asked,
            EventView::Subscribed(response) if route_of(response)
                == Route::Stream => Subscription::Followed,
            EventView::Subscribed(_) => Subscription::Idle,
            EventView::SubscribeFailed => Subscription::Idle,
            EventView::Push(StreamEventView::Over) => Subscription::Idle,
            _ => state.subscription,
        },
        ..state
    }
}

/// A bridge to one MCP endpoint.
pub struct Bridge {
    endpoint: String,
    auth_token: Option<String>,
    session_id: Option<String>,
    phase: Phase,
    subscription: Subscription,
}

impl View for Bridge {
    type V = BridgeState;

    closed spec fn view(&self) -> BridgeState {
        BridgeState {
            endpoint: self.endpoint@,
            auth_token: text_view(self.auth_token),
            session_id: text_view(self.session_id),
            phase: self.phase,
            subscription: self.subscription,
        }
    }
}

impl Bridge {
    /// A bridge to an endpoint, under a token if there is one. It has no session and
    /// no subscription yet, and is to be started.
    pub fn new(endpoint: String, auth_token: Option<String>) -> (bridge: Bridge)
        ensures
            bridge@ == (BridgeState {
                endpoint: endpoint@,
                auth_token: text_view(auth_token),
                session_id: None,
                phase: Phase::Starting,
                subscription: Subscription::Idle,
            }),
            bridge@.well_formed(),
    {
        Bridge {
            endpoint,
            auth_token,
            session_id: None,
            phase: Phase::Starting,
            subscription: Subscription::Idle,
        }
    }

    /// What the bridge waits for.
    pub fn phase(&self) -> (phase: Phase)
        ensures
            phase == self@.phase,
    {
        self.phase
    }

    /// The session, once the server has given one.
    pub fn session_id(&self) -> (id: Option<String>)
        ensures
            text_view(id) == self@.session_id,
    {
        match &self.session_id {
            Some(id) => Some(id.clone()),
            None => None,
        }
    }

    /// Whether an event is one of those that the bridge waits for.
    pub fn expects(&self, event: &Event) -> (expected: bool)
        ensures
            expected <==> can_happen(self@, event@),
    {
        match event {
            Event::Started => self.phase == Phase::Starting,
            Event::Line(_) => self.phase == Phase::Reading,
            Event::InputClosed => self.phase == Phase::Reading,
            Event::InputFailed => self.phase == Phase::Reading,
            Event::Response(_) => self.phase == Phase::Sending,
            Event::SendFailed => self.phase == Phase::Sending,
            Event::Body(_) => self.phase == Phase::Receiving,
            Event::BodyFailed => self.phase == Phase::Receiving,
            Event::Stream(_) => self.phase == Phase::Streaming,
            Event::Subscribed(_) => self.phase != Phase::Done && self.subscription
                == Subscription::Asked,
            Event::SubscribeFailed => self.phase != Phase::Done && self.subscription
                == Subscription::Asked,
            Event::Push(_) => self.phase != Phase::Done && self.subscription
                == Subscription::Followed,
        }
    }

    /// Takes an event, and says what to print and what to wait for.
    pub fn step(&mut self, event: Event) -> (step: Step)
        requires
            can_happen(old(self)@, event@),
        ensures
            step@ == answer(old(self)@, event@),
            final(self)@ == next_state(old(self)@, event@),
            old(self)@.well_formed() ==> final(self)@.well_formed(),
    {
        match event {
            Event::Started => self.on_start(),
            Event::Line(line) => self.on_line(line),
            Event::InputClosed => self.finish(),
            Event::InputFailed => self.finish(),
            Event::Response(head) => self.on_response(head),
            Event::SendFailed => self.fail(BridgeError::Send),
            Event::Body(chunks) => self.on_body(chunks),
            Event::BodyFailed => self.fail(BridgeError::Body),
            Event::Stream(event) => self.on_stream(event),
            Event::Subscribed(head) => self.on_subscribed(head),
            Event::SubscribeFailed => {
                self.subscription = Subscription::Idle;
                Step { output: None, command: Command::Continue }
            },
            Event::Push(event) => self.on_push(event),
        }
    }

    /// Sends a line that is not empty.
    fn on_line(&mut self, line: String) -> (step: Step)
        requires
            old(self)@.phase == Phase::Reading,
        ensures
            step@ == answer(old(self)@, EventView::Line(line@)),
            final(self)@ == next_state(old(self)@, EventView::Line(line@)),
    {
        if line.as_str().is_empty() {
            return Step { output: None, command: Command::ReadLine };
        }
        let headers = build_headers(&self.session_id, &self.auth_token);
        match make_request(Method::Post, self.endpoint.as_str(), headers, line) {
            Ok(request) => {
                self.phase = Phase::Sending;
                Step { output: None, command: Command::Send(request) }
            },
            Err(error) => self.fail(BridgeError::Request(error)),
        }
    }

    /// Keeps the first session that is offered, and turns to what follows.
    fn on_response(&mut self, head: ResponseHead) -> (step: Step)
        ensures
            step@ == answer(old(self)@, EventView::Response(head@)),
            final(self)@ == next_state(old(self)@, EventView::Response(head@)),
    {
        if self.session_id.is_none() {
            self.session_id = head.session_id();
        }
        match head.route() {
            Route::Nothing => {
                self.phase = Phase::Reading;
                Step { output: None, command: Command::ReadLine }
            },
            Route::Json => {
                self.phase = Phase::Receiving;
                Step { output: None, command: Command::ReadBody }
            },
            Route::Stream => {
                self.phase = Phase::Streaming;
                Step { output: None, command: Command::ReadFragment }
            },
        }
    }

    /// Prints the message of a JSON response.
    fn on_body(&mut self, chunks: Vec<Vec<u8>>) -> (step: Step)
        ensures
            step@ == answer(old(self)@, EventView::Body(chunk_bytes(chunks@))),
            final(self)@ == next_state(old(self)@, EventView::Body(chunk_bytes(chunks@))),
    {
        match decode_body(chunks) {
            Ok(text) => {
                self.phase = Phase::Reading;
                Step { output: Some(text), command: Command::ReadLine }
            },
            Err(error) => self.fail(BridgeError::Utf8(error)),
        }
    }

    /// Prints a message of the event stream, or leaves a stream that is over.
    fn on_stream(&mut self, event: StreamEvent) -> (step: Step)
        requires
            old(self)@.phase == Phase::Streaming,
        ensures
            step@ == answer(old(self)@, EventView::Stream(event@)),
            final(self)@ == next_state(old(self)@, EventView::Stream(event@)),
    {
        match on_stream_event(event) {
            StreamStep::Print(line) => Step { output: Some(line), command: Command::ReadFragment },
            StreamStep::Continue => Step { output: None, command: Command::ReadFragment },
            StreamStep::Stop => {
                self.phase = Phase::Reading;
                Step { output: None, command: Command::ReadLine }
            },
        }
    }

    /// Asks for the subscription, unless the endpoint or the token makes no request.
    /// The first line will be refused then.
    fn on_start(&mut self) -> (step: Step)
        ensures
            step@ == answer(old(self)@, EventView::Started),
            final(self)@ == next_state(old(self)@, EventView::Started),
    {
        let headers = build_subscription_headers(&self.session_id, &self.auth_token);
        self.phase = Phase::Reading;
        match make_request(Method::Get, self.endpoint.as_str(), headers, String::new()) {
            Ok(request) => {
                self.subscription = Subscription::Asked;
                Step { output: None, command: Command::Subscribe(request) }
            },
            Err(_) => Step { output: None, command: Command::ReadLine },
        }
    }

    /// Follows the subscription when an event stream opens it.
    fn on_subscribed(&mut self, head: ResponseHead) -> (step: Step)
        ensures
            step@ == answer(old(self)@, EventView::Subscribed(head@)),
            final(self)@ == next_state(old(self)@, EventView::Subscribed(head@)),
    {
        match head.route() {
            Route::Stream => {
                self.subscription = Subscription::Followed;
                Step { output: None, command: Command::Follow }
            },
            _ => {
                self.subscription = Subscription::Idle;
                Step { output: None, command: Command::Continue }
            },
        }
    }

    /// Prints a message of the subscription, or leaves one that is over.
    fn on_push(&mut self, event: StreamEvent) -> (step: Step)
        ensures
            step@ == answer(old(self)@, EventView::Push(event@)),
            final(self)@ == next_state(old(self)@, EventView::Push(event@)),
    {
        match on_stream_event(event) {
            StreamStep::Print(line) => Step { output: Some(line), command: Command::Continue },
            StreamStep::Continue => Step { output: None, command: Command::Continue },
            StreamStep::Stop => {
                self.subscription = Subscription::Idle;
                Step { output: None, command: Command::Continue }
            },
        }
    }

    /// Ends well.
    fn finish(&mut self) -> (step: Step)
        ensures
            step@ == (StepView { output: None, command: CommandView::Finish }),
            final(self)@ == (BridgeState { phase: Phase::Done, ..old(self)@ }),
    {
        self.phase = Phase::Done;
        Step { output: None, command: Command::Finish }
    }

    /// Ends with an error.
    fn fail(&mut self, error: BridgeError) -> (step: Step)
        ensures
            step@ == (StepView { output: None, command: CommandView::Fail(error@) }),
            final(self)@ == (BridgeState { phase: Phase::Done, ..old(self)@ }),
    {
        self.phase = Phase::Done;
        Step { output: None, command: Command::Fail(error) }
    }
}

} // verus!
