//! Chooses the one control endpoint of a session. Given an explicit address,
//! the address is probed; given none, the running instances are enumerated and
//! the choice is made only if there is exactly one. An attempt that fails for
//! want of a socket or of a server is made again, after a pause, until the
//! retry policy is spent; every other failure ends the resolution at once.
//!
//! The caller probes, enumerates and sleeps; what it saw is judged here.

use crate::text::{join, join_with, joined, string_views};
use crate::unitctl_error::{ControlSocketErrorKind, ErrorModel, UnitctlError};
use vstd::prelude::*;
use vstd::string::StringExecFns;

verus! {

/// One reachable control surface of a local server.
#[derive(Debug, Clone, PartialEq, Eq)]
pub struct ControlEndpoint {
    pub address: String,
}

impl View for ControlEndpoint {
    type V = Seq<char>;

    open spec fn view(&self) -> Seq<char> {
        self.address@
    }
}

/// What probing an address found.
#[derive(Debug, Clone, Copy, PartialEq, Eq, Structural)]
pub enum ProbeOutcome {
    /// The socket is there and answers.
    Reachable,
    /// No socket at the address: the server may still be starting.
    NotFound,
    /// The socket is there and may not be opened.
    PermissionDenied,
}

/// Fixed backoff: pause `wait_time_seconds` between attempts, and give up once
/// `max_tries` attempts have been made.
#[derive(Debug, Clone, Copy, PartialEq, Eq, Structural)]
pub struct RetryPolicy {
    pub wait_time_seconds: u64,
    pub max_tries: u32,
}

/// How the endpoint is to be found.
#[derive(Debug, Clone, PartialEq, Eq)]
pub enum Target {
    /// Probe the address that the operator gave.
    Explicit { address: String },
    /// Enumerate the running instances.
    Discover,
}

/// The mathematical value of a `Target`.
pub ghost enum TargetModel {
    Explicit { address: Seq<char> },
    Discover,
}

impl View for Target {
    type V = TargetModel;

    open spec fn view(&self) -> TargetModel {
        match self {
            Target::Explicit { address } => TargetModel::Explicit { address: address@ },
            Target::Discover => TargetModel::Discover,
        }
    }
}

/// What follows one attempt.
#[derive(Debug, Clone, PartialEq, Eq)]
pub enum Step {
    /// The endpoint of the session.
    Resolved(ControlEndpoint),
    /// Resolution is over, with this failure.
    Failed(UnitctlError),
    /// Pause this long, then attempt again.
    RetryAfter { seconds: u64 },
}

/// The mathematical value of a `Step`.
pub ghost enum StepModel {
    Resolved(Seq<char>),
    Failed(ErrorModel),
    RetryAfter { seconds: u64 },
}

impl View for Step {
    type V = StepModel;

    open spec fn view(&self) -> StepModel {
        match self {
            Step::Resolved(endpoint) => StepModel::Resolved(endpoint@),
            Step::Failed(error) => StepModel::Failed(error@),
            Step::RetryAfter { seconds } => StepModel::RetryAfter { seconds: *seconds },
        }
    }
}

/// The result of an attempt, or of a whole resolution: the address of the
/// endpoint, or the failure.
pub type Outcome = Result<Seq<char>, ErrorModel>;

/// The mathematical value of an attempt's result.
pub open spec fn outcome_view(result: Result<ControlEndpoint, UnitctlError>) -> Outcome {
    match result {
        Ok(endpoint) => Ok(endpoint@),
        Err(error) => Err(error@),
    }
}

/// The mathematical value of a resolution that may not be over yet.
pub open spec fn pending_view(
    result: Option<Result<ControlEndpoint, UnitctlError>>,
) -> Option<Outcome> {
    match result {
        Some(outcome) => Some(outcome_view(outcome)),
        None => None,
    }
}

/// The failure for more than one explicit address.
pub open spec fn too_many_addresses() -> ErrorModel {
    ErrorModel::ControlSocketError {
        kind: ControlSocketErrorKind::General,
        message: "too many control sockets. specify at most one."@,
    }
}

/// The target for the addresses that the operator gave.
pub open spec fn target_for(addresses: Seq<Seq<char>>) -> Result<TargetModel, ErrorModel> {
    if addresses.len() > 1 {
        Err(too_many_addresses())
    } else if addresses.len() == 1 {
        Ok(TargetModel::Explicit { address: addresses[0] })
    } else {
        Ok(TargetModel::Discover)
    }
}

/// What a probe of `address` amounts to.
pub open spec fn probe_result(address: Seq<char>, outcome: ProbeOutcome) -> Outcome {
    match outcome {
        ProbeOutcome::Reachable => Ok(address),
        ProbeOutcome::NotFound => Err(
            ErrorModel::ControlSocketError {
                kind: ControlSocketErrorKind::NotFound,
                message: "control socket not found: "@ + address,
            },
        ),
        ProbeOutcome::PermissionDenied => Err(
            ErrorModel::ControlSocketError {
                kind: ControlSocketErrorKind::Permissions,
                message: "permission denied for control socket: "@ + address,
            },
        ),
    }
}

/// The suggestion shown when several instances run: their addresses.
pub open spec fn suggestion_for(candidates: Seq<Seq<char>>) -> Seq<char> {
    "specify one of these control socket addresses: "@ + join_with(candidates, ", "@)
}

/// The choice among the candidates found at one moment. Each entry counts as
/// one candidate. None is a failure that may be tried again, one is the
/// choice, and more than one is never chosen among.
pub open spec fn selection(candidates: Seq<Seq<char>>) -> Outcome {
    if candidates.len() == 0 {
        Err(ErrorModel::NoUnitInstancesError)
    } else if candidates.len() == 1 {
        Ok(candidates[0])
    } else {
        Err(ErrorModel::MultipleUnitInstancesError { suggestion: suggestion_for(candidates) })
    }
}

/// What follows an attempt that ended in `result`, when `attempts_made`
/// attempts have been made, this one included.
pub open spec fn step_after(
    policy: Option<RetryPolicy>,
    attempts_made: nat,
    result: Outcome,
) -> StepModel {
    match result {
        Ok(address) => StepModel::Resolved(address),
        Err(error) => if !error.retryable() {
            StepModel::Failed(error)
        } else {
            match policy {
                None => StepModel::Failed(error),
                Some(policy) => if attempts_made < policy.max_tries {
                    StepModel::RetryAfter { seconds: policy.wait_time_seconds }
                } else {
                    StepModel::Failed(ErrorModel::WaitTimeoutError)
                },
            }
        },
    }
}

/// How a resolution ends when its attempts end in `results`, in this order,
/// and `made` attempts came before them; `None` while it is still waiting for
/// another attempt.
pub open spec fn resolution(
    policy: Option<RetryPolicy>,
    results: Seq<Outcome>,
    made: nat,
) -> Option<Outcome>
    decreases results.len(),
{
    if results.len() == 0 {
        None
    } else {
        match step_after(policy, made + 1, results[0]) {
            StepModel::Resolved(address) => Some(Ok(address)),
            StepModel::Failed(error) => Some(Err(error)),
            StepModel::RetryAfter { .. } => resolution(policy, results.drop_first(), made + 1),
        }
    }
}

/// Decides how to look for the endpoint. More than one explicit address is
/// refused: the operator must say which one is meant.
pub fn plan(explicit_addresses: &Vec<String>) -> (target: Result<Target, UnitctlError>)
    ensures
        match target {
            Ok(target) => target_for(string_views(explicit_addresses@)) == Ok::<
                TargetModel,
                ErrorModel,
            >(target@),
            Err(error) => target_for(string_views(explicit_addresses@)) == Err::<
                TargetModel,
                ErrorModel,
            >(error@),
        },
{
    if explicit_addresses.len() > 1 {
        Err(
            UnitctlError::ControlSocketError {
                kind: ControlSocketErrorKind::General,
                message: String::from_str("too many control sockets. specify at most one."),
            },
        )
    } else if explicit_addresses.len() == 1 {
        Ok(Target::Explicit { address: explicit_addresses[0].clone() })
    } else {
        Ok(Target::Discover)
    }
}

/// Judges the probe of an explicit address.
pub fn judge_probe(address: &String, outcome: ProbeOutcome) -> (result: Result<
    ControlEndpoint,
    UnitctlError,
>)
    ensures
        outcome_view(result) == probe_result(address@, outcome),
{
    match outcome {
        ProbeOutcome::Reachable => Ok(ControlEndpoint { address: address.clone() }),
        ProbeOutcome::NotFound => Err(
            UnitctlError::ControlSocketError {
                kind: ControlSocketErrorKind::NotFound,
                message: joined("control socket not found: ", address.as_str()),
            },
        ),
        ProbeOutcome::PermissionDenied => Err(
            UnitctlError::ControlSocketError {
                kind: ControlSocketErrorKind::Permissions,
                message: joined("permission denied for control socket: ", address.as_str()),
            },
        ),
    }
}

/// Chooses among the candidates found at one moment: the only one, or none.
pub fn select_candidate(candidates: &Vec<String>) -> (result: Result<
    ControlEndpoint,
    UnitctlError,
>)
    ensures
        outcome_view(result) == selection(string_views(candidates@)),
        candidates@.len() == 0 ==> result is Err && result->Err_0@.retryable(),
        candidates@.len() == 1 ==> result is Ok && result->Ok_0@ == candidates@[0]@,
        candidates@.len() >= 2 ==> result is Err && !result->Err_0@.retryable(),
{
    if candidates.len() == 0 {
        Err(UnitctlError::NoUnitInstancesError)
    } else if candidates.len() == 1 {
        Ok(ControlEndpoint { address: candidates[0].clone() })
    } else {
        let listing = join(candidates, ", ");
        Err(
            UnitctlError::MultipleUnitInstancesError {
                suggestion: joined(
                    "specify one of these control socket addresses: ",
                    listing.as_str(),
                ),
            },
        )
    }
}

/// Decides what follows an attempt that ended in `result`, when
/// `attempts_made` attempts have been made, this one included.
pub fn after_attempt(
    policy: Option<RetryPolicy>,
    attempts_made: u32,
    result: Result<ControlEndpoint, UnitctlError>,
) -> (step: Step)
    ensures
        step@ == step_after(policy, attempts_made as nat, outcome_view(result)),
{
    match result {
        Ok(endpoint) => Step::Resolved(endpoint),
        Err(error) => {
            if !error.retryable() {
                Step::Failed(error)
            } else {
                match policy {
                    None => Step::Failed(error),
                    Some(policy) => {
                        if attempts_made < policy.max_tries {
                            Step::RetryAfter { seconds: policy.wait_time_seconds }
                        } else {
                            Step::Failed(UnitctlError::WaitTimeoutError)
                        }
                    },
                }
            }
        },
    }
}

/// The results of the attempts of a discovery that found `snapshots`, one
/// candidate set per attempt.
pub open spec fn discovery_results(snapshots: Seq<Vec<String>>) -> Seq<Outcome> {
    snapshots.map_values(|candidates: Vec<String>| selection(string_views(candidates@)))
}

/// The results of the attempts on an explicit address whose probes found
/// `probes`, one per attempt.
pub open spec fn probe_results(address: Seq<char>, probes: Seq<ProbeOutcome>) -> Seq<Outcome> {
    probes.map_values(|outcome: ProbeOutcome| probe_result(address, outcome))
}

/// Resolves by discovery against candidate sets taken at successive attempts.
/// Returns `None` if the sets run out while the policy still allows another
/// attempt.
pub fn resolve_discovery(policy: Option<RetryPolicy>, snapshots: &Vec<Vec<String>>) -> (result:
    Option<Result<ControlEndpoint, UnitctlError>>)
    ensures
        pending_view(result) == resolution(policy, discovery_results(snapshots@), 0),
{
    let ghost all = discovery_results(snapshots@);
    let mut i: usize = 0;
    let mut made: u32 = 0;
    assert(all.skip(0) =~= all);
    while i < snapshots.len()
        invariant
            i <= snapshots.len(),
            made == i,
            made < u32::MAX,
            all == discovery_results(snapshots@),
            resolution(policy, all, 0) == resolution(policy, all.skip(i as int), made as nat),
        decreases snapshots.len() - i,
    {
        assert(all.skip(i as int).drop_first() =~= all.skip(i + 1));
        let found = select_candidate(&snapshots[i]);
        match after_attempt(policy, made + 1, found) {
            Step::Resolved(endpoint) => {
                return Some(Ok(endpoint));
            },
            Step::Failed(error) => {
                return Some(Err(error));
            },
            Step::RetryAfter { .. } => {
                made = made + 1;
                i = i + 1;
            },
        }
    }
    None
}

/// Resolves an explicit address against the outcomes of successive probes.
/// Returns `None` if the outcomes run out while the policy still allows
/// another attempt.
pub fn resolve_explicit(
    policy: Option<RetryPolicy>,
    address: &String,
    probes: &Vec<ProbeOutcome>,
) -> (result: Option<Result<ControlEndpoint, UnitctlError>>)
    ensures
        pending_view(result) == resolution(policy, probe_results(address@, probes@), 0),
{
    let ghost all = probe_results(address@, probes@);
    let mut i: usize = 0;
    let mut made: u32 = 0;
    assert(all.skip(0) =~= all);
    while i < probes.len()
        invariant
            i <= probes.len(),
            made == i,
            made < u32::MAX,
            all == probe_results(address@, probes@),
            resolution(policy, all, 0) == resolution(policy, all.skip(i as int), made as nat),
        decreases probes.len() - i,
    {
        assert(all.skip(i as int).drop_first() =~= all.skip(i + 1));
        let found = judge_probe(address, probes[i]);
        match after_attempt(policy, made + 1, found) {
            Step::Resolved(endpoint) => {
                return Some(Ok(endpoint));
            },
            Step::Failed(error) => {
                return Some(Err(error));
            },
            Step::RetryAfter { .. } => {
                made = made + 1;
                i = i + 1;
            },
        }
    }
    None
}

/// What discovery makes of the candidates found at one moment is fixed by
/// their number. With none it is a failure that may be tried again. With one
/// it is that candidate. With more it is a failure that is never tried again,
/// with exit code 11. In the last two cases the attempt ends the resolution
/// under every policy, whatever a later attempt would have found: no candidate
/// is ever chosen among several.
pub proof fn selection_by_size(
    candidates: Seq<Seq<char>>,
    policy: Option<RetryPolicy>,
    later: Seq<Outcome>,
    made: nat,
)
    ensures
        candidates.len() == 0 ==> selection(candidates) == Err::<Seq<char>, ErrorModel>(
            ErrorModel::NoUnitInstancesError,
        ) && ErrorModel::NoUnitInstancesError.retryable(),
        candidates.len() == 1 ==> selection(candidates) == Ok::<Seq<char>, ErrorModel>(
            candidates[0],
        ),
        candidates.len() >= 2 ==> (selection(candidates) matches Err(error) && error
            is MultipleUnitInstancesError && !error.retryable() && error.exit_code() == 11),
        candidates.len() >= 1 ==> resolution(policy, seq![selection(candidates)] + later, made)
            == Some(selection(candidates)),
{
    let results = seq![selection(candidates)] + later;
    assert(results[0] == selection(candidates));
}

/// Whether a result is one that resolution tries again after.
pub open spec fn is_transient(result: Outcome) -> bool {
    result matches Err(error) && error.retryable()
}

/// Under a retry policy, attempts that never find the socket or the server end
/// in a timeout, with exit code 14, exactly when the policy's attempts are
/// spent; until then the resolution waits for the next attempt.
pub proof fn gives_up_when_nothing_appears(policy: RetryPolicy, results: Seq<Outcome>, made: nat)
    requires
        forall|i: int| 0 <= i < results.len() ==> is_transient(#[trigger] results[i]),
    ensures
        results.len() >= 1 && made + results.len() >= policy.max_tries ==> resolution(
            Some(policy),
            results,
            made,
        ) == Some(Err::<Seq<char>, ErrorModel>(ErrorModel::WaitTimeoutError)),
        results.len() == 0 || made + results.len() < policy.max_tries ==> resolution(
            Some(policy),
            results,
            made,
        ) is None,
        ErrorModel::WaitTimeoutError.exit_code() == 14,
        !ErrorModel::WaitTimeoutError.retryable(),
    decreases results.len(),
{
    if results.len() > 0 {
        assert(is_transient(results[0]));
        let rest = results.drop_first();
        assert forall|i: int| 0 <= i < rest.len() implies is_transient(#[trigger] rest[i]) by {
            assert(rest[i] == results[i + 1]);
        }
        gives_up_when_nothing_appears(policy, rest, made + 1);
    }
}

/// Without a retry policy the first attempt decides, whatever its result.
pub proof fn single_attempt_without_policy(results: Seq<Outcome>, made: nat)
    requires
        results.len() >= 1,
    ensures
        resolution(None, results, made) == Some(results[0]),
{
}

/// An attempt that finds the endpoint, or fails in a way that waiting cannot
/// mend, ends the resolution with its own result: ambiguity and denied
/// permissions are never tried again, whatever the policy allows.
pub proof fn decisive_attempt_ends_resolution(
    policy: Option<RetryPolicy>,
    results: Seq<Outcome>,
    made: nat,
)
    requires
        results.len() >= 1,
        !is_transient(results[0]),
    ensures
        resolution(policy, results, made) == Some(results[0]),
{
}

/// A resolution that is over ended in the result of one of its attempts, or
/// in a timeout after an attempt that could have been tried again. It never
/// yields an endpoint that no attempt found.
pub proof fn resolution_comes_from_an_attempt(
    policy: Option<RetryPolicy>,
    results: Seq<Outcome>,
    made: nat,
)
    ensures
        resolution(policy, results, made) matches Some(outcome) ==> exists|i: int|
            0 <= i < results.len() && (#[trigger] results[i] == outcome || (is_transient(
                results[i],
            ) && outcome == Err::<Seq<char>, ErrorModel>(ErrorModel::WaitTimeoutError))),
    decreases results.len(),
{
    if results.len() > 0 {
        match step_after(policy, made + 1, results[0]) {
            StepModel::RetryAfter { .. } => {
                let rest = results.drop_first();
                resolution_comes_from_an_attempt(policy, rest, made + 1);
                if let Some(outcome) = resolution(policy, rest, made + 1) {
                    let i = choose|i: int|
                        0 <= i < rest.len() && (#[trigger] rest[i] == outcome || (is_transient(
                            rest[i],
                        ) && outcome == Err::<Seq<char>, ErrorModel>(
                            ErrorModel::WaitTimeoutError,
                        )));
                    assert(results[i + 1] == rest[i]);
                }
            },
            _ => {
                assert(results[0] == results[0]);
            },
        }
    }
}

} // verus!
