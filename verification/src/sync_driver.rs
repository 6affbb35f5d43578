//! The decisions of the watch loop. For each item that the watcher hands over
//! the driver says what to do: push the file, or drop the event and say why.
//! For each push it is told the outcome and records it. A failed push is
//! counted and reported, and the session goes on: the operator's next save is
//! the next try.
//!
//! The caller watches, loads the file, sends and logs.

use crate::change_filter::{classify, RawEvent, RawEventModel, Verdict, VerdictModel};
use crate::resolver::ControlEndpoint;
use crate::text::joined;
use crate::unitctl_error::{ErrorModel, UnitctlError};
use vstd::prelude::*;
use vstd::string::StringExecFns;

verus! {

/// The form in which the server's answer is wanted.
#[derive(Debug, Clone, Copy, PartialEq, Eq, Structural)]
pub enum OutputFormat {
    Yaml,
    Json,
    JsonPretty,
}

/// One request to replace the server's whole configuration with a file.
#[derive(Debug, Clone, PartialEq, Eq)]
pub struct PushRequest {
    /// The HTTP method.
    pub method: String,
    /// The path of the file whose bytes are the payload.
    pub file: String,
    /// The resource that the payload replaces.
    pub resource: String,
    pub format: OutputFormat,
}

/// The mathematical value of a `PushRequest`.
pub ghost struct PushRequestModel {
    pub method: Seq<char>,
    pub file: Seq<char>,
    pub resource: Seq<char>,
    pub format: OutputFormat,
}

impl View for PushRequest {
    type V = PushRequestModel;

    open spec fn view(&self) -> PushRequestModel {
        PushRequestModel {
            method: self.method@,
            file: self.file@,
            resource: self.resource@,
            format: self.format,
        }
    }
}

/// How one push ended.
#[derive(Debug, Clone, PartialEq, Eq)]
pub enum PushOutcome {
    /// The server took the configuration; `acknowledgment` is its answer.
    Delivered { acknowledgment: String },
    /// The configuration did not arrive or was refused.
    Failed { error: UnitctlError },
}

/// The mathematical value of a `PushOutcome`.
pub ghost enum PushOutcomeModel {
    Delivered { acknowledgment: Seq<char> },
    Failed { error: ErrorModel },
}

impl View for PushOutcome {
    type V = PushOutcomeModel;

    open spec fn view(&self) -> PushOutcomeModel {
        match self {
            PushOutcome::Delivered { acknowledgment } => PushOutcomeModel::Delivered {
                acknowledgment: acknowledgment@,
            },
            PushOutcome::Failed { error } => PushOutcomeModel::Failed { error: error@ },
        }
    }
}

/// What the watcher hands over: an event, or its own error.
#[derive(Debug, Clone, PartialEq, Eq)]
pub enum WatchItem {
    Event(RawEvent),
    SourceError { message: String },
}

/// The mathematical value of a `WatchItem`.
pub ghost enum WatchItemModel {
    Event(RawEventModel),
    SourceError { message: Seq<char> },
}

impl View for WatchItem {
    type V = WatchItemModel;

    open spec fn view(&self) -> WatchItemModel {
        match self {
            WatchItem::Event(event) => WatchItemModel::Event(event@),
            WatchItem::SourceError { message } => WatchItemModel::SourceError {
                message: message@,
            },
        }
    }
}

/// Why an event led to no push.
#[derive(Debug, Clone, Copy, PartialEq, Eq, Structural)]
pub enum DropReason {
    /// A content change that names no path.
    NoPaths,
    /// A content change that names more than one path.
    SeveralPaths,
    /// Not a change of content.
    NotContent,
}

/// What the loop does with one item.
#[derive(Debug, Clone, PartialEq, Eq)]
pub enum Action {
    /// Load the file and send it.
    Push(PushRequest),
    /// Log the reason and go on.
    Drop(DropReason),
    /// Log the watcher's error and go on.
    ReportSourceError { message: String },
}

/// The mathematical value of an `Action`.
pub ghost enum ActionModel {
    Push(PushRequestModel),
    Drop(DropReason),
    ReportSourceError { message: Seq<char> },
}

impl View for Action {
    type V = ActionModel;

    open spec fn view(&self) -> ActionModel {
        match self {
            Action::Push(request) => ActionModel::Push(request@),
            Action::Drop(reason) => ActionModel::Drop(*reason),
            Action::ReportSourceError { message } => ActionModel::ReportSourceError {
                message: message@,
            },
        }
    }
}

/// The request that replaces the whole configuration with the file at `file`.
pub open spec fn replace_configuration(file: Seq<char>) -> PushRequestModel {
    PushRequestModel {
        method: "PUT"@,
        file,
        resource: "/config"@,
        format: OutputFormat::JsonPretty,
    }
}

/// What the loop does with `item`: one push for each event that qualifies as
/// a change signal, for the path of the event, and none for anything else.
pub open spec fn action_for(item: WatchItemModel) -> ActionModel {
    match item {
        WatchItemModel::SourceError { message } => ActionModel::ReportSourceError { message },
        WatchItemModel::Event(event) => match event.verdict() {
            VerdictModel::Changed(path) => ActionModel::Push(replace_configuration(path)),
            VerdictModel::NoPaths => ActionModel::Drop(DropReason::NoPaths),
            VerdictModel::SeveralPaths => ActionModel::Drop(DropReason::SeveralPaths),
            VerdictModel::NotContent => ActionModel::Drop(DropReason::NotContent),
        },
    }
}

/// Builds the request that replaces the whole configuration with `file`.
pub fn push_request(file: String) -> (request: PushRequest)
    ensures
        request@ == replace_configuration(file@),
{
    PushRequest {
        method: String::from_str("PUT"),
        file,
        resource: String::from_str("/config"),
        format: OutputFormat::JsonPretty,
    }
}

/// Decides what to do with one item of the watcher.
pub fn decide(item: &WatchItem) -> (action: Action)
    ensures
        action@ == action_for(item@),
        action is Push <==> (item@ matches WatchItemModel::Event(event) && event.qualifies()),
{
    match item {
        WatchItem::SourceError { message } => Action::ReportSourceError {
            message: message.clone(),
        },
        WatchItem::Event(event) => match classify(event) {
            Verdict::Changed(signal) => Action::Push(push_request(signal.path)),
            Verdict::NoPaths => Action::Drop(DropReason::NoPaths),
            Verdict::SeveralPaths => Action::Drop(DropReason::SeveralPaths),
            Verdict::NotContent => Action::Drop(DropReason::NotContent),
        },
    }
}

/// Why the watch could not be set up.
#[derive(Debug, Clone, PartialEq, Eq)]
pub enum SetupFailure {
    /// The path to watch does not exist.
    PathNotFound,
    /// Anything else; `message` is the watcher's error, rendered.
    Other { message: String },
}

/// The failure that ends a session whose watch on `path` could not be set up.
pub open spec fn setup_error_for(path: Seq<char>, failure: SetupFailure) -> ErrorModel {
    match failure {
        SetupFailure::PathNotFound => ErrorModel::PathNotFound { path },
        SetupFailure::Other { message } => ErrorModel::IoError { source: message@ },
    }
}

/// Names the failure that ends a session whose watch on `path` could not be
/// set up. It is fatal: it exits with 99 and is not tried again.
pub fn setup_error(path: &String, failure: SetupFailure) -> (error: UnitctlError)
    ensures
        error@ == setup_error_for(path@, failure),
        error@.exit_code() == 99,
        !error@.retryable(),
{
    match failure {
        SetupFailure::PathNotFound => UnitctlError::PathNotFound { path: path.clone() },
        SetupFailure::Other { message } => UnitctlError::IoError { source: message },
    }
}

/// The state of a watch session, as a value.
pub ghost struct SessionModel {
    /// The endpoint that every push of the session goes to.
    pub endpoint: Seq<char>,
    /// The watched path.
    pub path: Seq<char>,
    /// Pushes that were delivered.
    pub delivered: nat,
    /// Pushes that failed.
    pub failed: nat,
    /// Whether the watch is still on.
    pub running: bool,
}

/// `count` and one more, as far as a `u64` holds it.
pub open spec fn counted(count: nat) -> nat {
    if count < u64::MAX {
        count + 1
    } else {
        count
    }
}

impl SessionModel {
    /// The session at its start.
    pub open spec fn start(endpoint: Seq<char>, path: Seq<char>) -> SessionModel {
        SessionModel { endpoint, path, delivered: 0, failed: 0, running: true }
    }

    /// The session after one push ended in `outcome`.
    pub open spec fn after(self, outcome: PushOutcomeModel) -> SessionModel {
        match outcome {
            PushOutcomeModel::Delivered { .. } => SessionModel {
                delivered: counted(self.delivered),
                ..self
            },
            PushOutcomeModel::Failed { .. } => SessionModel {
                failed: counted(self.failed),
                ..self
            },
        }
    }

    /// The session after pushes ended in `outcomes`, in this order.
    pub open spec fn after_all(self, outcomes: Seq<PushOutcomeModel>) -> SessionModel
        decreases outcomes.len(),
    {
        if outcomes.len() == 0 {
            self
        } else {
            self.after_all(outcomes.drop_last()).after(outcomes.last())
        }
    }
}

/// The line logged for a push that ended in `outcome`, if it failed.
pub open spec fn failure_line(outcome: PushOutcomeModel) -> Option<Seq<char>> {
    match outcome {
        PushOutcomeModel::Delivered { .. } => None,
        PushOutcomeModel::Failed { error } => Some(
            "error happened on send and deserialize: "@ + error.text(),
        ),
    }
}

/// One watch session: its endpoint, fixed at the start, and what became of
/// its pushes.
#[derive(Debug)]
pub struct SyncSession {
    endpoint: ControlEndpoint,
    path: String,
    delivered: u64,
    failed: u64,
    running: bool,
}

impl View for SyncSession {
    type V = SessionModel;

    closed spec fn view(&self) -> SessionModel {
        SessionModel {
            endpoint: self.endpoint@,
            path: self.path@,
            delivered: self.delivered as nat,
            failed: self.failed as nat,
            running: self.running,
        }
    }
}

impl SyncSession {
    /// Starts a session on `path` against `endpoint`.
    pub fn new(endpoint: ControlEndpoint, path: String) -> (session: SyncSession)
        ensures
            session@ == SessionModel::start(endpoint@, path@),
    {
        SyncSession { endpoint, path, delivered: 0, failed: 0, running: true }
    }

    /// The endpoint of the session.
    pub fn endpoint(&self) -> (endpoint: &ControlEndpoint)
        ensures
            endpoint@ == self@.endpoint,
    {
        &self.endpoint
    }

    /// The watched path.
    pub fn path(&self) -> (path: &String)
        ensures
            path@ == self@.path,
    {
        &self.path
    }

    /// How many pushes were delivered.
    pub fn delivered(&self) -> (count: u64)
        ensures
            count == self@.delivered,
    {
        self.delivered
    }

    /// How many pushes failed.
    pub fn failed(&self) -> (count: u64)
        ensures
            count == self@.failed,
    {
        self.failed
    }

    /// Whether the watch is still on.
    pub fn is_running(&self) -> (running: bool)
        ensures
            running == self@.running,
    {
        self.running
    }

    /// Records how one push ended. A failure is counted and its log line
    /// returned; it does not end the session.
    pub fn record(&mut self, outcome: &PushOutcome) -> (line: Option<String>)
        ensures
            final(self)@ == old(self)@.after(outcome@),
            final(self)@.running == old(self)@.running,
            final(self)@.endpoint == old(self)@.endpoint,
            match line {
                Some(text) => failure_line(outcome@) == Some(text@),
                None => failure_line(outcome@) is None,
            },
    {
        match outcome {
            PushOutcome::Delivered { .. } => {
                if self.delivered < u64::MAX {
                    self.delivered = self.delivered + 1;
                }
                None
            },
            PushOutcome::Failed { error } => {
                if self.failed < u64::MAX {
                    self.failed = self.failed + 1;
                }
                let text = error.to_string();
                Some(joined("error happened on send and deserialize: ", text.as_str()))
            },
        }
    }

    /// Ends the session: the watch source has terminated or was cancelled.
    /// Returns the exit code of a clean shutdown.
    pub fn stop(&mut self) -> (code: i32)
        ensures
            final(self)@ == (SessionModel { running: false, ..old(self)@ }),
            code == 0,
    {
        self.running = false;
        0
    }
}

/// A session keeps its endpoint, its path and its life through any run of
/// pushes, however they end: no failed push stops it.
pub proof fn session_outlives_every_push(start: SessionModel, outcomes: Seq<PushOutcomeModel>)
    ensures
        start.after_all(outcomes).running == start.running,
        start.after_all(outcomes).endpoint == start.endpoint,
        start.after_all(outcomes).path == start.path,
    decreases outcomes.len(),
{
    if outcomes.len() > 0 {
        session_outlives_every_push(start, outcomes.drop_last());
    }
}

/// Every push is counted once, as delivered or as failed, as long as the
/// counters can hold it.
pub proof fn session_counts_every_push(start: SessionModel, outcomes: Seq<PushOutcomeModel>)
    requires
        start.delivered + outcomes.len() <= u64::MAX,
        start.failed + outcomes.len() <= u64::MAX,
    ensures
        start.after_all(outcomes).delivered == start.delivered + outcomes.filter(
            |outcome: PushOutcomeModel| outcome is Delivered,
        ).len(),
        start.after_all(outcomes).failed == start.failed + outcomes.filter(
            |outcome: PushOutcomeModel| outcome is Failed,
        ).len(),
        start.after_all(outcomes).delivered + start.after_all(outcomes).failed == start.delivered
            + start.failed + outcomes.len(),
    decreases outcomes.len(),
{
    reveal(Seq::filter);
    if outcomes.len() > 0 {
        session_counts_every_push(start, outcomes.drop_last());
    }
}

/// The session after the first `done` of a run of pushes of which only push
/// `k` fails.
proof fn counts_with_one_failure(
    start: SessionModel,
    outcomes: Seq<PushOutcomeModel>,
    k: int,
    done: int,
)
    requires
        start.delivered == 0,
        start.failed == 0,
        0 <= k < outcomes.len() <= u64::MAX,
        0 <= done <= outcomes.len(),
        forall|i: int| 0 <= i < outcomes.len() ==> (#[trigger] outcomes[i] is Failed <==> i == k),
    ensures
        start.after_all(outcomes.take(done)) == (SessionModel {
            delivered: (if done <= k {
                done
            } else {
                done - 1
            }) as nat,
            failed: if done <= k {
                0
            } else {
                1
            },
            ..start
        }),
    decreases done,
{
    if done == 0 {
        assert(outcomes.take(0) =~= Seq::<PushOutcomeModel>::empty());
    } else {
        counts_with_one_failure(start, outcomes, k, done - 1);
        assert(outcomes.take(done).drop_last() =~= outcomes.take(done - 1));
        assert(outcomes.take(done).last() == outcomes[done - 1]);
    }
}

/// When, of the pushes of a fresh session, push `k` fails and every other is
/// delivered, all but one are counted as delivered and one as failed, and the
/// session is alive at the end. It is alive after each push on the way too,
/// with every push before it counted: the push after the failed one is
/// handled like any other. One line is logged, for the failed push.
pub proof fn one_failed_push_among_many(
    endpoint: Seq<char>,
    path: Seq<char>,
    outcomes: Seq<PushOutcomeModel>,
    k: int,
)
    requires
        0 <= k < outcomes.len() <= u64::MAX,
        forall|i: int| 0 <= i < outcomes.len() ==> (#[trigger] outcomes[i] is Failed <==> i == k),
    ensures
        SessionModel::start(endpoint, path).after_all(outcomes) == (SessionModel {
            endpoint,
            path,
            delivered: (outcomes.len() - 1) as nat,
            failed: 1,
            running: true,
        }),
        forall|done: int|
            0 <= done <= outcomes.len() ==> #[trigger] SessionModel::start(
                endpoint,
                path,
            ).after_all(outcomes.take(done)) == (SessionModel {
                endpoint,
                path,
                delivered: (if done <= k {
                    done
                } else {
                    done - 1
                }) as nat,
                failed: if done <= k {
                    0
                } else {
                    1
                },
                running: true,
            }),
        forall|i: int|
            0 <= i < outcomes.len() ==> (failure_line(#[trigger] outcomes[i]) is Some <==> i == k),
{
    let start = SessionModel::start(endpoint, path);
    assert forall|done: int| 0 <= done <= outcomes.len() implies #[trigger] start.after_all(
        outcomes.take(done),
    ) == (SessionModel {
        endpoint,
        path,
        delivered: (if done <= k {
            done
        } else {
            done - 1
        }) as nat,
        failed: if done <= k {
            0
        } else {
            1
        },
        running: true,
    }) by {
        counts_with_one_failure(start, outcomes, k, done);
    }
    assert(outcomes.take(outcomes.len() as int) =~= outcomes);
}

} // verus!
