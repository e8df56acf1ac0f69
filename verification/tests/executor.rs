use httpbox::cli::CLI;
use httpbox::error::RequestError;
use httpbox::executor::{
    client_config, describe_request, step, Action, ClientConfig, Event, RequestDescriptor, Stage,
    EXIT_FAILURE, EXIT_SUCCESS, REQUEST_TIMEOUT_SECS,
};
use httpbox::method::Method;
use httpbox::sink::SinkChoice;

fn drive(events: Vec<Event>) -> (Stage, Vec<Action>) {
    let mut stage = Stage::Idle;
    let mut actions = Vec::new();
    for event in events {
        let (next, action) = step(stage, event);
        stage = next;
        actions.push(action);
    }
    (stage, actions)
}

#[test]
fn client_setup_is_gzip_and_thirty_seconds() {
    assert_eq!(client_config(), ClientConfig { gzip: true, timeout_secs: 30 });
    assert_eq!(REQUEST_TIMEOUT_SECS, 30);
    assert_eq!(EXIT_SUCCESS, 0);
    assert_eq!(EXIT_FAILURE, 1);
}

#[test]
fn request_has_no_body_and_no_extra_headers() {
    let cli = CLI::new("http://example.com/x?y=z".to_string(), "PUT".to_string(), "-".to_string(), 0, false);
    let params = cli.get_request_parameters().unwrap();
    assert_eq!(
        describe_request(&params),
        RequestDescriptor {
            method: Method::Put,
            url: "http://example.com/x?y=z".to_string(),
            extra_headers: Vec::new(),
            body: None,
        }
    );
}

#[test]
fn get_to_standard_output_writes_five_bytes_and_succeeds() {
    let cli = CLI::new("http://example.com".to_string(), "GET".to_string(), "-".to_string(), 0, false);
    let params = cli.get_request_parameters().unwrap();
    assert_eq!(params.method, Method::Get);
    assert_eq!(params.url.as_str(), "http://example.com/");
    assert_eq!(params.output_writer, SinkChoice::StandardOutput);

    let body = "hello";
    let mut sink: Vec<u8> = Vec::new();
    let (stage, action) = step(Stage::Idle, Event::Begin);
    assert_eq!(action, Action::OpenSink);
    let (stage, action) = step(stage, Event::SinkOpened);
    assert_eq!(action, Action::Send(ClientConfig { gzip: true, timeout_secs: 30 }));
    let (stage, action) = step(stage, Event::ResponseArrived);
    assert_eq!(action, Action::CopyBody);
    sink.extend_from_slice(body.as_bytes());
    let (stage, action) = step(stage, Event::BodyCopied(sink.len() as u64));
    assert_eq!(action, Action::Flush);
    assert_eq!(stage, Stage::Flushing(5));
    let (stage, action) = step(stage, Event::Flushed);
    assert_eq!(action, Action::Exit(0));
    assert_eq!(stage, Stage::Succeeded(5));
    assert!(stage.is_terminal());
    assert_eq!(stage.exit_code(), Some(0));
    assert_eq!(stage.into_outcome(), Some(Ok(5)));
    assert_eq!(sink, b"hello".to_vec());
}

#[test]
fn unreachable_host_is_a_transport_failure_with_nothing_written() {
    let (stage, actions) = drive(vec![
        Event::Begin,
        Event::SinkOpened,
        Event::TransportError("connection refused".to_string()),
    ]);
    assert_eq!(
        actions,
        vec![Action::OpenSink, Action::Send(ClientConfig { gzip: true, timeout_secs: 30 }), Action::Exit(1)]
    );
    assert!(!actions.contains(&Action::CopyBody));
    assert_eq!(stage, Stage::Failed(RequestError::TransportFailure("connection refused".to_string())));
    assert_eq!(stage.exit_code(), Some(1));
    assert_eq!(
        stage.into_outcome(),
        Some(Err(RequestError::TransportFailure("connection refused".to_string())))
    );
}

#[test]
fn unopenable_sink_fails_before_any_request_is_sent() {
    let (stage, actions) = drive(vec![Event::Begin, Event::IoError("permission denied".to_string())]);
    assert_eq!(actions, vec![Action::OpenSink, Action::Exit(1)]);
    assert!(actions.iter().all(|action| !matches!(action, Action::Send(_))));
    assert_eq!(stage, Stage::Failed(RequestError::IoFailure("permission denied".to_string())));
    assert_eq!(stage.exit_code(), Some(1));

    let (stage, action) = step(stage, Event::SinkOpened);
    assert_eq!(action, Action::Nothing);
    assert_eq!(stage, Stage::Failed(RequestError::IoFailure("permission denied".to_string())));
}

#[test]
fn failure_while_copying_or_flushing_is_fatal() {
    let (stage, actions) = drive(vec![
        Event::Begin,
        Event::SinkOpened,
        Event::ResponseArrived,
        Event::IoError("disk full".to_string()),
    ]);
    assert_eq!(actions.last(), Some(&Action::Exit(1)));
    assert_eq!(stage, Stage::Failed(RequestError::IoFailure("disk full".to_string())));

    let (stage, actions) = drive(vec![
        Event::Begin,
        Event::SinkOpened,
        Event::ResponseArrived,
        Event::TransportError("timed out".to_string()),
    ]);
    assert_eq!(actions.last(), Some(&Action::Exit(1)));
    assert_eq!(stage, Stage::Failed(RequestError::TransportFailure("timed out".to_string())));

    let (stage, actions) = drive(vec![
        Event::Begin,
        Event::SinkOpened,
        Event::ResponseArrived,
        Event::BodyCopied(12),
        Event::IoError("broken pipe".to_string()),
    ]);
    assert_eq!(actions.last(), Some(&Action::Exit(1)));
    assert_eq!(stage, Stage::Failed(RequestError::IoFailure("broken pipe".to_string())));
}

#[test]
fn events_that_do_not_fit_change_nothing() {
    assert_eq!(step(Stage::Idle, Event::Flushed), (Stage::Idle, Action::Nothing));
    assert_eq!(step(Stage::Idle, Event::SinkOpened), (Stage::Idle, Action::Nothing));
    assert_eq!(step(Stage::OpeningSink, Event::Begin), (Stage::OpeningSink, Action::Nothing));
    assert_eq!(
        step(Stage::OpeningSink, Event::TransportError("x".to_string())),
        (Stage::OpeningSink, Action::Nothing)
    );
    assert_eq!(step(Stage::Sending, Event::IoError("x".to_string())), (Stage::Sending, Action::Nothing));
    assert_eq!(step(Stage::Sending, Event::BodyCopied(3)), (Stage::Sending, Action::Nothing));
    assert_eq!(step(Stage::Copying, Event::Flushed), (Stage::Copying, Action::Nothing));
    assert_eq!(step(Stage::Flushing(7), Event::BodyCopied(9)), (Stage::Flushing(7), Action::Nothing));
    assert_eq!(
        step(Stage::Flushing(7), Event::TransportError("x".to_string())),
        (Stage::Flushing(7), Action::Nothing)
    );
}

#[test]
fn finished_request_absorbs_every_event() {
    assert_eq!(step(Stage::Succeeded(5), Event::Begin), (Stage::Succeeded(5), Action::Nothing));
    assert_eq!(
        step(Stage::Succeeded(5), Event::IoError("late".to_string())),
        (Stage::Succeeded(5), Action::Nothing)
    );
    let failed = Stage::Failed(RequestError::TransportFailure("t".to_string()));
    assert_eq!(
        step(failed, Event::Flushed),
        (Stage::Failed(RequestError::TransportFailure("t".to_string())), Action::Nothing)
    );
}

#[test]
fn unfinished_stages_have_no_outcome() {
    assert!(!Stage::Idle.is_terminal());
    assert!(!Stage::Flushing(3).is_terminal());
    assert_eq!(Stage::Idle.exit_code(), None);
    assert_eq!(Stage::Copying.exit_code(), None);
    assert_eq!(Stage::Sending.into_outcome(), None);
    assert_eq!(Stage::Flushing(3).into_outcome(), None);
}

#[test]
fn empty_body_is_a_success_with_zero_bytes() {
    let (stage, _) = drive(vec![
        Event::Begin,
        Event::SinkOpened,
        Event::ResponseArrived,
        Event::BodyCopied(0),
        Event::Flushed,
    ]);
    assert_eq!(stage, Stage::Succeeded(0));
    assert_eq!(stage.exit_code(), Some(0));
}
