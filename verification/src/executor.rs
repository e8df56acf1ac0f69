//! The course of one request, as a state machine.
//!
//! Opening the sink, talking to the network and copying the body are done
//! by the caller. After each of them it reports what happened as an
//! `Event`, and `step` decides the next `Stage` and what to do next. The
//! sink is opened before anything is sent, and every failure ends the
//! request: nothing is retried.

use vstd::prelude::*;
use crate::error::RequestError;
use crate::method::Method;
use crate::params::RequestParameters;

verus! {

/// The overall time allowed for one request, in seconds.
pub const REQUEST_TIMEOUT_SECS: u64 = 30;

/// The exit status of a request that succeeded.
pub const EXIT_SUCCESS: u8 = 0;

/// The exit status of a request that failed.
pub const EXIT_FAILURE: u8 = 1;

/// How the HTTP client is set up.
#[derive(Clone, Copy, Debug, PartialEq, Eq, Structural)]
pub struct ClientConfig {
    /// Whether compressed responses are negotiated and decoded.
    pub gzip: bool,
    /// The overall timeout of the request, in seconds.
    pub timeout_secs: u64,
}

/// The one client setup in use: compression on, thirty seconds.
pub open spec fn fixed_client_config() -> ClientConfig {
    ClientConfig { gzip: true, timeout_secs: 30 }
}

/// The client setup for a request. It is fixed, and does not depend on
/// anything the user passed.
pub fn client_config() -> (r: ClientConfig)
    ensures
        r == fixed_client_config(),
{
    ClientConfig { gzip: true, timeout_secs: REQUEST_TIMEOUT_SECS }
}

/// What is handed to the transport: the method, the rendered address, and
/// the headers and the body that go with them.
#[derive(Debug, PartialEq, Eq)]
pub struct RequestDescriptor {
    pub method: Method,
    pub url: String,
    /// Headers beyond those that the transport adds by itself.
    pub extra_headers: Vec<(String, String)>,
    pub body: Option<Vec<u8>>,
}

/// Describes the request for a bundle of parameters: its method and its
/// address as rendered, with no extra headers and no body.
pub fn describe_request<W>(params: &RequestParameters<W>) -> (r: RequestDescriptor)
    ensures
        r.method == params.method,
        r.url@ == params.url@.rendered,
        r.extra_headers@.len() == 0,
        r.body is None,
{
    RequestDescriptor {
        method: params.method,
        url: params.url.as_str().to_owned(),
        extra_headers: Vec::new(),
        body: None,
    }
}

/// Where a request stands.
#[derive(Debug, PartialEq, Eq)]
pub enum Stage {
    /// Nothing has been done yet.
    Idle,
    /// The sink is being opened.
    OpeningSink,
    /// The request was submitted and the response is awaited.
    Sending,
    /// The response body is being copied into the sink.
    Copying,
    /// This many bytes were copied and the sink is being flushed.
    Flushing(u64),
    /// The request is over; this many bytes reached the sink.
    Succeeded(u64),
    /// The request is over and failed.
    Failed(RequestError),
}

/// What the caller reports.
#[derive(Debug, PartialEq, Eq)]
pub enum Event {
    /// The request is to be started.
    Begin,
    /// The sink is open.
    SinkOpened,
    /// The response's status and headers arrived.
    ResponseArrived,
    /// The whole body was copied: this many bytes.
    BodyCopied(u64),
    /// The sink was flushed.
    Flushed,
    /// Opening, writing or flushing the sink failed, for this cause.
    IoError(String),
    /// Submitting the request or reading the response failed, for this
    /// cause. A timeout is reported in this way too.
    TransportError(String),
}

/// What the caller is to do next.
#[derive(Clone, Copy, Debug, PartialEq, Eq, Structural)]
pub enum Action {
    /// Open the selected sink.
    OpenSink,
    /// Build a client with this setup and submit the request, without a
    /// body and without extra headers.
    Send(ClientConfig),
    /// Copy the response body into the sink.
    CopyBody,
    /// Flush the sink.
    Flush,
    /// Report the outcome and leave with this exit status.
    Exit(u8),
    /// The event does not fit the stage: nothing is to be done.
    Nothing,
}

impl Stage {
    /// Whether the request is over.
    pub open spec fn is_over(self) -> bool {
        self is Succeeded || self is Failed
    }

    /// Whether the request is over.
    pub fn is_terminal(&self) -> (r: bool)
        ensures
            r == self.is_over(),
    {
        match self {
            Stage::Succeeded(_) => true,
            Stage::Failed(_) => true,
            _ => false,
        }
    }

    /// The exit status at this stage, once the request is over: zero
    /// after a success, non-zero after a failure.
    pub open spec fn exit_status(self) -> Option<u8> {
        match self {
            Stage::Succeeded(_) => Some(0u8),
            Stage::Failed(_) => Some(1u8),
            _ => None,
        }
    }

    /// The exit status at this stage, once the request is over.
    pub fn exit_code(&self) -> (r: Option<u8>)
        ensures
            r == self.exit_status(),
    {
        match self {
            Stage::Succeeded(_) => Some(EXIT_SUCCESS),
            Stage::Failed(_) => Some(EXIT_FAILURE),
            _ => None,
        }
    }

    /// The result of a request that is over: the number of bytes written,
    /// or the failure. `None` while it is still under way.
    pub fn into_outcome(self) -> (r: Option<Result<u64, RequestError>>)
        ensures
            r == match self {
                Stage::Succeeded(n) => Some(Ok::<u64, RequestError>(n)),
                Stage::Failed(e) => Some(Err::<u64, RequestError>(e)),
                _ => None,
            },
    {
        match self {
            Stage::Succeeded(n) => Some(Ok(n)),
            Stage::Failed(e) => Some(Err(e)),
            _ => None,
        }
    }
}

/// The transition relation: the stage that follows `stage` on `event`,
/// and the action that goes with it.
pub open spec fn next(stage: Stage, event: Event) -> (Stage, Action) {
    match (stage, event) {
        (Stage::Idle, Event::Begin) => (Stage::OpeningSink, Action::OpenSink),
        (Stage::OpeningSink, Event::SinkOpened) => (
            Stage::Sending,
            Action::Send(fixed_client_config()),
        ),
        (Stage::OpeningSink, Event::IoError(cause)) => (
            Stage::Failed(RequestError::IoFailure(cause)),
            Action::Exit(1),
        ),
        (Stage::Sending, Event::ResponseArrived) => (Stage::Copying, Action::CopyBody),
        (Stage::Sending, Event::TransportError(cause)) => (
            Stage::Failed(RequestError::TransportFailure(cause)),
            Action::Exit(1),
        ),
        (Stage::Copying, Event::BodyCopied(n)) => (Stage::Flushing(n), Action::Flush),
        (Stage::Copying, Event::IoError(cause)) => (
            Stage::Failed(RequestError::IoFailure(cause)),
            Action::Exit(1),
        ),
        (Stage::Copying, Event::TransportError(cause)) => (
            Stage::Failed(RequestError::TransportFailure(cause)),
            Action::Exit(1),
        ),
        (Stage::Flushing(n), Event::Flushed) => (Stage::Succeeded(n), Action::Exit(0)),
        (Stage::Flushing(_), Event::IoError(cause)) => (
            Stage::Failed(RequestError::IoFailure(cause)),
            Action::Exit(1),
        ),
        (other, _) => (other, Action::Nothing),
    }
}

/// Takes one step: returns the stage that follows `stage` on `event` and
/// what the caller is to do next. An event that does not fit the stage
/// changes nothing.
pub fn step(stage: Stage, event: Event) -> (r: (Stage, Action))
    ensures
        r == next(stage, event),
{
    match stage {
        Stage::Idle => match event {
            Event::Begin => (Stage::OpeningSink, Action::OpenSink),
            _ => (Stage::Idle, Action::Nothing),
        },
        Stage::OpeningSink => match event {
            Event::SinkOpened => (Stage::Sending, Action::Send(client_config())),
            Event::IoError(cause) => (
                Stage::Failed(RequestError::IoFailure(cause)),
                Action::Exit(EXIT_FAILURE),
            ),
            _ => (Stage::OpeningSink, Action::Nothing),
        },
        Stage::Sending => match event {
            Event::ResponseArrived => (Stage::Copying, Action::CopyBody),
            Event::TransportError(cause) => (
                Stage::Failed(RequestError::TransportFailure(cause)),
                Action::Exit(EXIT_FAILURE),
            ),
            _ => (Stage::Sending, Action::Nothing),
        },
        Stage::Copying => match event {
            Event::BodyCopied(n) => (Stage::Flushing(n), Action::Flush),
            Event::IoError(cause) => (
                Stage::Failed(RequestError::IoFailure(cause)),
                Action::Exit(EXIT_FAILURE),
            ),
            Event::TransportError(cause) => (
                Stage::Failed(RequestError::TransportFailure(cause)),
                Action::Exit(EXIT_FAILURE),
            ),
            _ => (Stage::Copying, Action::Nothing),
        },
        Stage::Flushing(n) => match event {
            Event::Flushed => (Stage::Succeeded(n), Action::Exit(EXIT_SUCCESS)),
            Event::IoError(cause) => (
                Stage::Failed(RequestError::IoFailure(cause)),
                Action::Exit(EXIT_FAILURE),
            ),
            _ => (Stage::Flushing(n), Action::Nothing),
        },
        Stage::Succeeded(n) => (Stage::Succeeded(n), Action::Nothing),
        Stage::Failed(e) => (Stage::Failed(e), Action::Nothing),
    }
}

/// The stage reached from `stage` after the events of `events`, in order.
pub open spec fn run(stage: Stage, events: Seq<Event>) -> Stage
    decreases events.len(),
{
    if events.len() == 0 {
        stage
    } else {
        next(run(stage, events.drop_last()), events.last()).0
    }
}

/// The actions handed out on the way from `stage` through `events`, one
/// for each event.
pub open spec fn requested(stage: Stage, events: Seq<Event>) -> Seq<Action>
    decreases events.len(),
{
    if events.len() == 0 {
        Seq::empty()
    } else {
        requested(stage, events.drop_last()).push(
            next(run(stage, events.drop_last()), events.last()).1,
        )
    }
}

/// The request is sent only once the sink is open: a `Send` comes from no
/// other step than the one that takes the report of the opened sink, and
/// it always carries the fixed client setup.
pub proof fn lemma_send_only_after_sink_opened(stage: Stage, event: Event)
    ensures
        next(stage, event).1 matches Action::Send(config) ==> stage is OpeningSink
            && event is SinkOpened && config == fixed_client_config(),
        stage is OpeningSink && event is IoError ==> (next(stage, event).0 matches Stage::Failed(
            RequestError::IoFailure(_),
        )) && next(stage, event).1 == Action::Exit(1),
{
}

/// A request that is over stays as it is, whatever is reported.
pub proof fn lemma_over_is_final(stage: Stage, event: Event)
    requires
        stage.is_over(),
    ensures
        next(stage, event) == (stage, Action::Nothing),
{
}

/// The exit status is handed out exactly when a step ends the request,
/// and it is the status of the stage reached: zero exactly for a success.
/// A success is reached only by the flush, and counts the bytes that were
/// copied.
pub proof fn lemma_exit_matches_outcome(stage: Stage, event: Event)
    ensures
        next(stage, event).1 matches Action::Exit(code) ==> !stage.is_over() && next(
            stage,
            event,
        ).0.exit_status() == Some(code),
        !stage.is_over() && next(stage, event).0.is_over() ==> next(stage, event).1 is Exit,
        next(stage, event).0 matches Stage::Succeeded(n) ==> stage.is_over() || (stage
            == Stage::Flushing(n) && event is Flushed),
{
}

/// Nothing goes over the network before the sink is open: whatever was
/// reported since the start, a request that is waiting for its response,
/// copying, flushing or done, or that failed in transport, has had the
/// report of the opened sink.
pub proof fn lemma_network_only_after_sink_opened(events: Seq<Event>)
    ensures
        ({
            let reached = run(Stage::Idle, events);
            (reached is Sending || reached is Copying || reached is Flushing
                || reached is Succeeded || reached matches Stage::Failed(
                RequestError::TransportFailure(_),
            )) ==> events.contains(Event::SinkOpened)
        }),
    decreases events.len(),
{
    if events.len() > 0 {
        let before = events.drop_last();
        lemma_network_only_after_sink_opened(before);
        let reached = run(Stage::Idle, events);
        assert(reached == next(run(Stage::Idle, before), events.last()).0);
        if before.contains(Event::SinkOpened) {
            let i = choose|i: int| 0 <= i < before.len() && before[i] == Event::SinkOpened;
            assert(events[i] == Event::SinkOpened);
        }
        if events.last() == Event::SinkOpened {
            assert(events[events.len() - 1] == Event::SinkOpened);
        }
    }
}

/// Each action answers one event: the action at a place is the one that
/// the step on the event at that place gave, from the stage reached by
/// the events before it.
pub proof fn lemma_action_answers_event(stage: Stage, events: Seq<Event>, i: int)
    requires
        0 <= i < events.len(),
    ensures
        requested(stage, events).len() == events.len(),
        requested(stage, events)[i] == next(run(stage, events.take(i)), events[i]).1,
    decreases events.len(),
{
    let before = events.drop_last();
    lemma_requested_len(stage, before);
    if i == events.len() - 1 {
        assert(events.take(i) =~= before);
    } else {
        lemma_action_answers_event(stage, before, i);
        assert(before.take(i) =~= events.take(i));
    }
}

/// As many actions are handed out as events are reported.
pub proof fn lemma_requested_len(stage: Stage, events: Seq<Event>)
    ensures
        requested(stage, events).len() == events.len(),
    decreases events.len(),
{
    if events.len() > 0 {
        lemma_requested_len(stage, events.drop_last());
    }
}

/// Whatever is reported, and from whatever stage: a request is submitted
/// only in answer to the report that the sink is open, and the body is
/// copied only in answer to the arrival of the response.
pub proof fn lemma_send_answers_sink_opened(stage: Stage, events: Seq<Event>, i: int)
    requires
        0 <= i < events.len(),
    ensures
        requested(stage, events)[i] is Send ==> events[i] is SinkOpened,
        requested(stage, events)[i] is CopyBody ==> events[i] is ResponseArrived,
{
    lemma_action_answers_event(stage, events, i);
}

/// The course of a request that meets no failure: started, sink opened,
/// response received, `n` bytes copied, flushed. It ends in success with
/// exactly `n` bytes and the exit status zero.
pub proof fn lemma_successful_course(n: u64)
    ensures
        ({
            let events = seq![
                Event::Begin,
                Event::SinkOpened,
                Event::ResponseArrived,
                Event::BodyCopied(n),
                Event::Flushed,
            ];
            &&& run(Stage::Idle, events) == Stage::Succeeded(n)
            &&& requested(Stage::Idle, events) == seq![
                Action::OpenSink,
                Action::Send(fixed_client_config()),
                Action::CopyBody,
                Action::Flush,
                Action::Exit(0),
            ]
        }),
{
    let events = seq![
        Event::Begin,
        Event::SinkOpened,
        Event::ResponseArrived,
        Event::BodyCopied(n),
        Event::Flushed,
    ];
    let e4 = events.drop_last();
    let e3 = e4.drop_last();
    let e2 = e3.drop_last();
    let e1 = e2.drop_last();
    let e0 = e1.drop_last();
    assert(e0.len() == 0);
    assert(run(Stage::Idle, e0) == Stage::Idle);
    assert(e1.last() == Event::Begin);
    assert(run(Stage::Idle, e1) == Stage::OpeningSink);
    assert(e2.last() == Event::SinkOpened);
    assert(run(Stage::Idle, e2) == Stage::Sending);
    assert(e3.last() == Event::ResponseArrived);
    assert(run(Stage::Idle, e3) == Stage::Copying);
    assert(e4.last() == Event::BodyCopied(n));
    assert(run(Stage::Idle, e4) == Stage::Flushing(n));
    assert(events.last() == Event::Flushed);
    assert(requested(Stage::Idle, e0) =~= Seq::empty());
    assert(requested(Stage::Idle, e1) =~= seq![Action::OpenSink]);
    assert(requested(Stage::Idle, e2) =~= seq![
        Action::OpenSink,
        Action::Send(fixed_client_config()),
    ]);
    assert(requested(Stage::Idle, e3) =~= seq![
        Action::OpenSink,
        Action::Send(fixed_client_config()),
        Action::CopyBody,
    ]);
    assert(requested(Stage::Idle, e4) =~= seq![
        Action::OpenSink,
        Action::Send(fixed_client_config()),
        Action::CopyBody,
        Action::Flush,
    ]);
    assert(requested(Stage::Idle, events) =~= seq![
        Action::OpenSink,
        Action::Send(fixed_client_config()),
        Action::CopyBody,
        Action::Flush,
        Action::Exit(0),
    ]);
}

/// The course of a request whose submission fails: the sink is opened,
/// the request is sent, and the failure ends it. The body is never copied,
/// so not a byte is written, and the exit status is not zero.
pub proof fn lemma_transport_failure_course(cause: String)
    ensures
        ({
            let events = seq![Event::Begin, Event::SinkOpened, Event::TransportError(cause)];
            &&& run(Stage::Idle, events) == Stage::Failed(RequestError::TransportFailure(cause))
            &&& run(Stage::Idle, events).exit_status() == Some(1u8)
            &&& requested(Stage::Idle, events) == seq![
                Action::OpenSink,
                Action::Send(fixed_client_config()),
                Action::Exit(1),
            ]
        }),
{
    let events = seq![Event::Begin, Event::SinkOpened, Event::TransportError(cause)];
    let e2 = events.drop_last();
    let e1 = e2.drop_last();
    let e0 = e1.drop_last();
    assert(e0.len() == 0);
    assert(run(Stage::Idle, e0) == Stage::Idle);
    assert(e1.last() == Event::Begin);
    assert(run(Stage::Idle, e1) == Stage::OpeningSink);
    assert(e2.last() == Event::SinkOpened);
    assert(run(Stage::Idle, e2) == Stage::Sending);
    assert(events.last() == Event::TransportError(cause));
    assert(requested(Stage::Idle, e0) =~= Seq::empty());
    assert(requested(Stage::Idle, e1) =~= seq![Action::OpenSink]);
    assert(requested(Stage::Idle, e2) =~= seq![
        Action::OpenSink,
        Action::Send(fixed_client_config()),
    ]);
    assert(requested(Stage::Idle, events) =~= seq![
        Action::OpenSink,
        Action::Send(fixed_client_config()),
        Action::Exit(1),
    ]);
}

/// The course of a request whose sink cannot be opened: it fails with an
/// I/O failure and a non-zero exit status, and no request is ever sent.
pub proof fn lemma_unopenable_sink_course(cause: String)
    ensures
        ({
            let events = seq![Event::Begin, Event::IoError(cause)];
            &&& run(Stage::Idle, events) == Stage::Failed(RequestError::IoFailure(cause))
            &&& run(Stage::Idle, events).exit_status() == Some(1u8)
            &&& requested(Stage::Idle, events) == seq![Action::OpenSink, Action::Exit(1)]
        }),
{
    let events = seq![Event::Begin, Event::IoError(cause)];
    let e1 = events.drop_last();
    let e0 = e1.drop_last();
    assert(e0.len() == 0);
    assert(run(Stage::Idle, e0) == Stage::Idle);
    assert(e1.last() == Event::Begin);
    assert(run(Stage::Idle, e1) == Stage::OpeningSink);
    assert(events.last() == Event::IoError(cause));
    assert(requested(Stage::Idle, e0) =~= Seq::empty());
    assert(requested(Stage::Idle, e1) =~= seq![Action::OpenSink]);
    assert(requested(Stage::Idle, events) =~= seq![Action::OpenSink, Action::Exit(1)]);
}

} // verus!
