use unitctl::change_filter::{DataChange, EventKind, MetadataKind, ModifyKind, RawEvent};
use unitctl::resolver::{select_candidate, ControlEndpoint};
use unitctl::sync_driver::{
    decide, push_request, setup_error, Action, DropReason, OutputFormat, PushOutcome, PushRequest,
    SetupFailure, SyncSession, WatchItem,
};
use unitctl::unitctl_error::{ClientError, ClientErrorKind, UnitctlError};

fn content_event(paths: &[&str]) -> WatchItem {
    WatchItem::Event(RawEvent {
        kind: EventKind::Modify(ModifyKind::Data(DataChange::Content)),
        paths: paths.iter().map(|p| String::from(*p)).collect(),
    })
}

fn replace_with(file: &str) -> PushRequest {
    PushRequest {
        method: String::from("PUT"),
        file: String::from(file),
        resource: String::from("/config"),
        format: OutputFormat::JsonPretty,
    }
}

fn delivered() -> PushOutcome {
    PushOutcome::Delivered { acknowledgment: String::from("{\"success\": \"Reconfiguration done.\"}") }
}

fn refused() -> PushOutcome {
    PushOutcome::Failed {
        error: UnitctlError::UnitClientError {
            source: ClientError {
                kind: ClientErrorKind::Other,
                message: String::from("connection reset"),
                cause: String::new(),
            },
        },
    }
}

fn session() -> SyncSession {
    SyncSession::new(ControlEndpoint { address: String::from("A") }, String::from("app.conf"))
}

#[test]
fn request_replaces_the_whole_configuration() {
    assert_eq!(push_request(String::from("app.conf")), replace_with("app.conf"));
}

#[test]
fn content_write_is_pushed_to_the_single_endpoint() {
    let endpoint = select_candidate(&vec![String::from("A")]).unwrap();
    assert_eq!(endpoint, ControlEndpoint { address: String::from("A") });
    let mut session = SyncSession::new(endpoint, String::from("app.conf"));
    assert_eq!(session.endpoint().address, "A");
    assert_eq!(session.path(), "app.conf");

    let action = decide(&content_event(&["app.conf"]));
    assert_eq!(action, Action::Push(replace_with("app.conf")));

    assert_eq!(session.record(&delivered()), None);
    assert_eq!(session.delivered(), 1);
    assert_eq!(session.failed(), 0);
    assert!(session.is_running());
}

#[test]
fn metadata_touch_is_not_pushed() {
    let touch = WatchItem::Event(RawEvent {
        kind: EventKind::Modify(ModifyKind::Metadata(MetadataKind::Any)),
        paths: vec![String::from("app.conf")],
    });
    assert_eq!(decide(&touch), Action::Drop(DropReason::NotContent));
}

#[test]
fn path_anomalies_are_dropped_with_their_reason() {
    assert_eq!(decide(&content_event(&[])), Action::Drop(DropReason::NoPaths));
    assert_eq!(decide(&content_event(&["a", "b"])), Action::Drop(DropReason::SeveralPaths));
}

#[test]
fn watcher_error_is_reported_and_not_pushed() {
    let item = WatchItem::SourceError { message: String::from("queue overflow") };
    assert_eq!(
        decide(&item),
        Action::ReportSourceError { message: String::from("queue overflow") }
    );
}

#[test]
fn fresh_session_has_counted_nothing() {
    let session = session();
    assert_eq!(session.delivered(), 0);
    assert_eq!(session.failed(), 0);
    assert!(session.is_running());
    assert_eq!(session.endpoint(), &ControlEndpoint { address: String::from("A") });
}

#[test]
fn failed_push_is_logged_and_counted() {
    let mut session = session();
    let line = session.record(&refused());
    assert_eq!(
        line,
        Some(String::from(
            "error happened on send and deserialize: Unit client error: connection reset"
        ))
    );
    assert_eq!(session.failed(), 1);
    assert_eq!(session.delivered(), 0);
    assert!(session.is_running());
}

#[test]
fn one_failure_among_five_pushes() {
    let mut session = session();
    let failing: usize = 2;
    let mut logged: u32 = 0;
    for k in 0..5usize {
        let action = decide(&content_event(&["app.conf"]));
        assert!(matches!(action, Action::Push(_)));
        let outcome = if k == failing { refused() } else { delivered() };
        if session.record(&outcome).is_some() {
            logged += 1;
        }
        assert!(session.is_running());
        assert_eq!(session.endpoint().address, "A");
        if k == failing + 1 {
            assert_eq!(session.delivered(), 3);
        }
    }
    assert_eq!(session.delivered(), 4);
    assert_eq!(session.failed(), 1);
    assert_eq!(logged, 1);
}

#[test]
fn every_failure_is_counted() {
    let mut session = session();
    for _ in 0..3usize {
        assert!(session.record(&refused()).is_some());
    }
    assert_eq!(session.failed(), 3);
    assert_eq!(session.delivered(), 0);
    assert!(session.is_running());
}

#[test]
fn stop_ends_the_session_cleanly() {
    let mut session = session();
    assert_eq!(session.record(&delivered()), None);
    assert_eq!(session.stop(), 0);
    assert!(!session.is_running());
    assert_eq!(session.delivered(), 1);
    assert_eq!(session.endpoint().address, "A");
}

#[test]
fn missing_path_is_a_fatal_setup_error() {
    let path = String::from("/no/such/app.conf");
    let error = setup_error(&path, SetupFailure::PathNotFound);
    assert_eq!(error, UnitctlError::PathNotFound { path: String::from("/no/such/app.conf") });
    assert_eq!(error.exit_code(), 99);
    assert!(!error.retryable());
}

#[test]
fn other_setup_failure_keeps_its_message() {
    let path = String::from("app.conf");
    let failure = SetupFailure::Other { message: String::from("too many watches") };
    let error = setup_error(&path, failure);
    assert_eq!(error, UnitctlError::IoError { source: String::from("too many watches") });
    assert_eq!(error.to_string(), "IO error: too many watches");
    assert_eq!(error.exit_code(), 99);
}
