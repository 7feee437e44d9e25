//! One synchronization, from request to outcome, as a state machine.
//!
//! The engine validates the request, then runs two retried steps: fetching
//! the key material, and installing it. The second step lists the configs and
//! writes in one unit, so that every retry looks again before it writes. The
//! engine hands out one action at a time and takes back the event that the
//! action led to.

use crate::request::{validate, validation, CertificateRequest, CertificateRequestView, ValidationError};
use crate::retry::{advanced, begun, RetryEvent, RetryExecutor, RetryLimits, RetryState};
use crate::secret::{
    fetch, fetched, CertificateMaterial, CertificateMaterialView, SecretLookup, SecretLookupView,
};
use crate::terminator::{
    plan_upsert, planned, resolve, resolved, settle, settled, ListingReply, ListingReplyView,
    UpsertRequest, UpsertRequestView, WriteReply, WriteReplyView,
};
use vstd::prelude::*;

verus! {

/// How a synchronization ended.
#[derive(Clone, Copy, Debug, PartialEq, Eq, Structural)]
pub enum SyncStatus {
    Success,
    ValidationError,
    FetchError,
    UpsertError,
}

/// The result of one synchronization, as handed to the caller.
#[derive(Debug, PartialEq, Eq)]
pub struct SyncOutcome {
    pub status: SyncStatus,
    pub message: Option<String>,
}

/// An outcome as contracts see it.
pub struct SyncOutcomeView {
    pub status: SyncStatus,
    pub message: Option<Seq<char>>,
}

impl View for SyncOutcome {
    type V = SyncOutcomeView;

    open spec fn view(&self) -> SyncOutcomeView {
        SyncOutcomeView {
            status: self.status,
            message: match self.message {
                Some(text) => Some(text@),
                None => None,
            },
        }
    }
}

/// The text that stands for the last error where no attempt was made.
pub open spec fn unknown_failure() -> Seq<char> {
    "Unknown error during retry"@
}

/// The outcome of a synchronization that went through.
pub open spec fn succeeded() -> SyncOutcomeView {
    SyncOutcomeView { status: SyncStatus::Success, message: None }
}

/// The outcome for a request that validation refused.
pub open spec fn refused(error: ValidationError) -> SyncOutcomeView {
    SyncOutcomeView {
        status: SyncStatus::ValidationError,
        message: Some("Invalid request: "@ + error.text()),
    }
}

/// The outcome where the key material could not be had; `failure` is the
/// text of the last error.
pub open spec fn fetch_failed(failure: Seq<char>) -> SyncOutcomeView {
    SyncOutcomeView {
        status: SyncStatus::FetchError,
        message: Some("Failed to retrieve certificate data: "@ + failure),
    }
}

/// The outcome where the material could not be installed; `failure` is the
/// text of the last error.
pub open spec fn upsert_failed(failure: Seq<char>) -> SyncOutcomeView {
    SyncOutcomeView {
        status: SyncStatus::UpsertError,
        message: Some("Failed to update NodeBalancer: "@ + failure),
    }
}

impl SyncStatus {
    /// The HTTP status under which the outcome is reported.
    pub open spec fn http_status(self) -> u16 {
        match self {
            SyncStatus::Success => 200,
            SyncStatus::ValidationError => 400,
            SyncStatus::FetchError => 500,
            SyncStatus::UpsertError => 500,
        }
    }

    /// The word under which the outcome is reported.
    pub open spec fn word(self) -> Seq<char> {
        match self {
            SyncStatus::Success => "success"@,
            _ => "error"@,
        }
    }
}

impl SyncOutcome {
    /// The HTTP status under which the outcome is reported: 200 for a
    /// success, 400 for a refused request, 500 for a failed step.
    pub fn http_status(&self) -> (status: u16)
        ensures
            status == self.status.http_status(),
    {
        match self.status {
            SyncStatus::Success => 200,
            SyncStatus::ValidationError => 400,
            SyncStatus::FetchError => 500,
            SyncStatus::UpsertError => 500,
        }
    }

    /// The word under which the outcome is reported: `success` or `error`.
    pub fn status_word(&self) -> (word: &'static str)
        ensures
            word@ == self.status.word(),
    {
        match self.status {
            SyncStatus::Success => "success",
            _ => "error",
        }
    }
}

/// What an engine is set up with, once, before any request.
pub struct SyncEngine {
    /// The load balancer whose terminator is kept up to date.
    pub load_balancer_id: String,
    /// The limits under which each of the two remote steps is retried.
    pub retry: RetryExecutor,
}

/// An engine as contracts see it.
pub struct SyncEngineView {
    pub load_balancer_id: Seq<char>,
    pub retry: RetryLimits,
}

impl View for SyncEngine {
    type V = SyncEngineView;

    open spec fn view(&self) -> SyncEngineView {
        SyncEngineView { load_balancer_id: self.load_balancer_id@, retry: self.retry@ }
    }
}

/// Where a synchronization stands.
pub enum SyncState {
    /// The material is being fetched: a lookup is in flight, or the wait
    /// before the next one.
    Fetching { request: CertificateRequest, retry: RetryState },
    /// The material is there and the terminator is being looked for: a
    /// listing is in flight, or the wait before the next one.
    Resolving { material: CertificateMaterial, retry: RetryState },
    /// The write that follows a listing is in flight.
    Writing { material: CertificateMaterial, retry: RetryState },
    /// The outcome has been handed out.
    Finished,
}

/// A state as contracts see it.
pub enum SyncStateView {
    Fetching { request: CertificateRequestView, retry: RetryState },
    Resolving { material: CertificateMaterialView, retry: RetryState },
    Writing { material: CertificateMaterialView, retry: RetryState },
    Finished,
}

impl View for SyncState {
    type V = SyncStateView;

    open spec fn view(&self) -> SyncStateView {
        match self {
            SyncState::Fetching { request, retry } => SyncStateView::Fetching {
                request: request@,
                retry: *retry,
            },
            SyncState::Resolving { material, retry } => SyncStateView::Resolving {
                material: material@,
                retry: *retry,
            },
            SyncState::Writing { material, retry } => SyncStateView::Writing {
                material: material@,
                retry: *retry,
            },
            SyncState::Finished => SyncStateView::Finished,
        }
    }
}

/// What an action led to.
pub enum SyncEvent {
    /// The answer of the secret store.
    Secret(SecretLookup),
    /// The answer of the listing call.
    Listing(ListingReply),
    /// The answer of the write.
    Written(WriteReply),
    /// The wait is over.
    Woke,
}

/// An event as contracts see it.
pub enum SyncEventView {
    Secret(SecretLookupView),
    Listing(ListingReplyView),
    Written(WriteReplyView),
    Woke,
}

impl View for SyncEvent {
    type V = SyncEventView;

    open spec fn view(&self) -> SyncEventView {
        match self {
            SyncEvent::Secret(lookup) => SyncEventView::Secret(lookup@),
            SyncEvent::Listing(reply) => SyncEventView::Listing(reply@),
            SyncEvent::Written(reply) => SyncEventView::Written(reply@),
            SyncEvent::Woke => SyncEventView::Woke,
        }
    }
}

/// What the engine asks its caller to do next. A write holds the private
/// key, so an action cannot be printed.
#[derive(PartialEq, Eq)]
pub enum SyncAction {
    /// Look the secret up, and report `Secret`.
    FetchSecret { namespace: String, secret_name: String },
    /// Attempt `attempt` failed with `error`: wait `delay_ms` milliseconds
    /// without holding anything up, and report `Woke`.
    Backoff { delay_ms: u64, attempt: u32, error: String },
    /// List the configs of the load balancer, and report `Listing`.
    ListTerminators { load_balancer_id: String },
    /// Send the write to the load balancer, and report `Written`.
    Upsert { load_balancer_id: String, request: UpsertRequest },
    /// Hand the outcome to the caller. Nothing follows.
    Finish(SyncOutcome),
    /// The event was not awaited: go on waiting for the one that is.
    Ignore,
}

/// An action as contracts see it.
pub enum SyncActionView {
    FetchSecret { namespace: Seq<char>, secret_name: Seq<char> },
    Backoff { delay_ms: u64, attempt: u32, error: Seq<char> },
    ListTerminators { load_balancer_id: Seq<char> },
    Upsert { load_balancer_id: Seq<char>, request: UpsertRequestView },
    Finish(SyncOutcomeView),
    Ignore,
}

impl View for SyncAction {
    type V = SyncActionView;

    open spec fn view(&self) -> SyncActionView {
        match self {
            SyncAction::FetchSecret { namespace, secret_name } => SyncActionView::FetchSecret {
                namespace: namespace@,
                secret_name: secret_name@,
            },
            SyncAction::Backoff { delay_ms, attempt, error } => SyncActionView::Backoff {
                delay_ms: *delay_ms,
                attempt: *attempt,
                error: error@,
            },
            SyncAction::ListTerminators { load_balancer_id } => SyncActionView::ListTerminators {
                load_balancer_id: load_balancer_id@,
            },
            SyncAction::Upsert { load_balancer_id, request } => SyncActionView::Upsert {
                load_balancer_id: load_balancer_id@,
                request: request@,
            },
            SyncAction::Finish(outcome) => SyncActionView::Finish(outcome@),
            SyncAction::Ignore => SyncActionView::Ignore,
        }
    }
}

impl SyncActionView {
    /// The action asks something of the secret store or the load balancer.
    pub open spec fn is_remote_call(self) -> bool {
        self is FetchSecret || self is ListTerminators || self is Upsert
    }

    /// The action asks something of the load balancer.
    pub open spec fn calls_load_balancer(self) -> bool {
        self is ListTerminators || self is Upsert
    }
}

impl SyncStateView {
    /// The state awaits `event`: the answer to the call in flight, or the
    /// end of the wait.
    pub open spec fn awaits(self, event: SyncEventView) -> bool {
        match (self, event) {
            (SyncStateView::Fetching { retry, .. }, SyncEventView::Secret(_)) => retry
                is Attempting,
            (SyncStateView::Fetching { retry, .. }, SyncEventView::Woke) => retry is Waiting,
            (SyncStateView::Resolving { retry, .. }, SyncEventView::Listing(_)) => retry
                is Attempting,
            (SyncStateView::Resolving { retry, .. }, SyncEventView::Woke) => retry is Waiting,
            (SyncStateView::Writing { retry, .. }, SyncEventView::Written(_)) => retry
                is Attempting,
            _ => false,
        }
    }
}

/// The end of a synchronization with `outcome`.
pub open spec fn finished(outcome: SyncOutcomeView) -> (SyncStateView, SyncActionView) {
    (SyncStateView::Finished, SyncActionView::Finish(outcome))
}

/// The next lookup, where `retry` allows one; else the fetch has failed
/// without an error of its own.
pub open spec fn fetch_attempt(request: CertificateRequestView, retry: RetryState) -> (
    SyncStateView,
    SyncActionView,
) {
    if retry is Attempting {
        (
            SyncStateView::Fetching { request, retry },
            SyncActionView::FetchSecret {
                namespace: request.namespace,
                secret_name: request.secret_name,
            },
        )
    } else {
        finished(fetch_failed(unknown_failure()))
    }
}

/// What follows a lookup that failed with `failure`: a wait while attempts
/// are left, else the end with that failure.
pub open spec fn fetch_failure(
    engine: SyncEngineView,
    request: CertificateRequestView,
    retry: RetryState,
    failure: Seq<char>,
) -> (SyncStateView, SyncActionView) {
    match advanced(engine.retry, retry, RetryEvent::Failed) {
        RetryState::Waiting { attempt, delay_ms } => (
            SyncStateView::Fetching { request, retry: RetryState::Waiting { attempt, delay_ms } },
            SyncActionView::Backoff { delay_ms, attempt, error: failure },
        ),
        _ => finished(fetch_failed(failure)),
    }
}

/// The next listing, where `retry` allows one; else the installation has
/// failed without an error of its own.
pub open spec fn upsert_attempt(
    engine: SyncEngineView,
    material: CertificateMaterialView,
    retry: RetryState,
) -> (SyncStateView, SyncActionView) {
    if retry is Attempting {
        (
            SyncStateView::Resolving { material, retry },
            SyncActionView::ListTerminators { load_balancer_id: engine.load_balancer_id },
        )
    } else {
        finished(upsert_failed(unknown_failure()))
    }
}

/// What follows a listing or a write that failed with `failure`: a wait
/// while attempts are left, else the end with that failure.
pub open spec fn upsert_failure(
    engine: SyncEngineView,
    material: CertificateMaterialView,
    retry: RetryState,
    failure: Seq<char>,
) -> (SyncStateView, SyncActionView) {
    match advanced(engine.retry, retry, RetryEvent::Failed) {
        RetryState::Waiting { attempt, delay_ms } => (
            SyncStateView::Resolving { material, retry: RetryState::Waiting { attempt, delay_ms } },
            SyncActionView::Backoff { delay_ms, attempt, error: failure },
        ),
        _ => finished(upsert_failed(failure)),
    }
}

/// How a synchronization starts: a refused request ends it at once, with no
/// call made; any other request has its secret looked up.
pub open spec fn started(engine: SyncEngineView, request: CertificateRequestView) -> (
    SyncStateView,
    SyncActionView,
) {
    match validation(request) {
        Err(error) => finished(refused(error)),
        Ok(_) => fetch_attempt(request, begun(engine.retry)),
    }
}

/// The state and the action that follow `state` on `event`.
///
/// Material that was fetched opens the second step with all its attempts.
/// A listing that was read is followed by the write that it calls for. A
/// failed lookup, listing or write is retried after a wait while attempts
/// are left, and ends the synchronization otherwise. After a wait the step
/// starts over: the second step with a new listing. An event that is not
/// awaited changes nothing.
pub open spec fn stepped(engine: SyncEngineView, state: SyncStateView, event: SyncEventView) -> (
    SyncStateView,
    SyncActionView,
) {
    if !state.awaits(event) {
        (state, SyncActionView::Ignore)
    } else {
        match (state, event) {
            (SyncStateView::Fetching { request, retry }, SyncEventView::Secret(lookup)) => {
                match fetched(lookup) {
                    Ok(material) => upsert_attempt(engine, material, begun(engine.retry)),
                    Err(error) => fetch_failure(engine, request, retry, error.text()),
                }
            },
            (SyncStateView::Fetching { request, retry }, SyncEventView::Woke) => fetch_attempt(
                request,
                advanced(engine.retry, retry, RetryEvent::Woke),
            ),
            (SyncStateView::Resolving { material, retry }, SyncEventView::Listing(reply)) => {
                match resolved(reply) {
                    Ok(existing) => (
                        SyncStateView::Writing { material, retry },
                        SyncActionView::Upsert {
                            load_balancer_id: engine.load_balancer_id,
                            request: planned(existing, material),
                        },
                    ),
                    Err(error) => upsert_failure(engine, material, retry, error.text()),
                }
            },
            (SyncStateView::Resolving { material, retry }, SyncEventView::Woke) => upsert_attempt(
                engine,
                material,
                advanced(engine.retry, retry, RetryEvent::Woke),
            ),
            (SyncStateView::Writing { material, retry }, SyncEventView::Written(reply)) => {
                match settled(reply) {
                    Ok(_) => finished(succeeded()),
                    Err(error) => upsert_failure(engine, material, retry, error.text()),
                }
            },
            _ => (state, SyncActionView::Ignore),
        }
    }
}

fn finish(outcome: SyncOutcome) -> (r: (SyncState, SyncAction))
    ensures
        (r.0@, r.1@) == finished(outcome@),
{
    (SyncState::Finished, SyncAction::Finish(outcome))
}

fn outcome_of(status: SyncStatus, prefix: &str, failure: &str) -> (outcome: SyncOutcome)
    ensures
        outcome@ == (SyncOutcomeView { status, message: Some(prefix@ + failure@) }),
{
    SyncOutcome { status, message: Some(String::from_str(prefix).concat(failure)) }
}

fn fetch_failed_with(failure: &str) -> (outcome: SyncOutcome)
    ensures
        outcome@ == fetch_failed(failure@),
{
    outcome_of(SyncStatus::FetchError, "Failed to retrieve certificate data: ", failure)
}

fn upsert_failed_with(failure: &str) -> (outcome: SyncOutcome)
    ensures
        outcome@ == upsert_failed(failure@),
{
    outcome_of(SyncStatus::UpsertError, "Failed to update NodeBalancer: ", failure)
}

fn next_fetch(request: CertificateRequest, retry: RetryState) -> (r: (SyncState, SyncAction))
    ensures
        (r.0@, r.1@) == fetch_attempt(request@, retry),
{
    match retry {
        RetryState::Attempting { .. } => {
            let action = SyncAction::FetchSecret {
                namespace: request.namespace.clone(),
                secret_name: request.secret_name.clone(),
            };
            (SyncState::Fetching { request, retry }, action)
        },
        _ => finish(fetch_failed_with("Unknown error during retry")),
    }
}

impl SyncEngine {
    fn fetch_failure(&self, request: CertificateRequest, retry: RetryState, failure: String) -> (r: (
        SyncState,
        SyncAction,
    ))
        ensures
            (r.0@, r.1@) == fetch_failure(self@, request@, retry, failure@),
    {
        match self.retry.advance(retry, RetryEvent::Failed) {
            RetryState::Waiting { attempt, delay_ms } => (
                SyncState::Fetching { request, retry: RetryState::Waiting { attempt, delay_ms } },
                SyncAction::Backoff { delay_ms, attempt, error: failure },
            ),
            _ => finish(fetch_failed_with(failure.as_str())),
        }
    }

    fn upsert_attempt(&self, material: CertificateMaterial, retry: RetryState) -> (r: (
        SyncState,
        SyncAction,
    ))
        ensures
            (r.0@, r.1@) == upsert_attempt(self@, material@, retry),
    {
        match retry {
            RetryState::Attempting { .. } => (
                SyncState::Resolving { material, retry },
                SyncAction::ListTerminators { load_balancer_id: self.load_balancer_id.clone() },
            ),
            _ => finish(upsert_failed_with("Unknown error during retry")),
        }
    }

    fn upsert_failure(&self, material: CertificateMaterial, retry: RetryState, failure: String) -> (r:
        (SyncState, SyncAction))
        ensures
            (r.0@, r.1@) == upsert_failure(self@, material@, retry, failure@),
    {
        match self.retry.advance(retry, RetryEvent::Failed) {
            RetryState::Waiting { attempt, delay_ms } => (
                SyncState::Resolving { material, retry: RetryState::Waiting { attempt, delay_ms } },
                SyncAction::Backoff { delay_ms, attempt, error: failure },
            ),
            _ => finish(upsert_failed_with(failure.as_str())),
        }
    }

    /// Starts the synchronization that `request` asks for.
    pub fn start(&self, request: CertificateRequest) -> (r: (SyncState, SyncAction))
        ensures
            (r.0@, r.1@) == started(self@, request@),
    {
        match validate(&request) {
            Err(error) => {
                let message = error.message();
                finish(
                    outcome_of(SyncStatus::ValidationError, "Invalid request: ", message.as_str()),
                )
            },
            Ok(_) => next_fetch(request, self.retry.begin()),
        }
    }

    /// Takes the event that the last action led to, and says what to do next.
    pub fn step(&self, state: SyncState, event: SyncEvent) -> (r: (SyncState, SyncAction))
        ensures
            (r.0@, r.1@) == stepped(self@, state@, event@),
    {
        match (state, event) {
            (
                SyncState::Fetching { request, retry: RetryState::Attempting { attempt } },
                SyncEvent::Secret(lookup),
            ) => {
                match fetch(lookup) {
                    Ok(material) => self.upsert_attempt(material, self.retry.begin()),
                    Err(error) => {
                        let failure = error.message();
                        self.fetch_failure(request, RetryState::Attempting { attempt }, failure)
                    },
                }
            },
            (
                SyncState::Fetching { request, retry: RetryState::Waiting { attempt, delay_ms } },
                SyncEvent::Woke,
            ) => {
                let retry = self.retry.advance(
                    RetryState::Waiting { attempt, delay_ms },
                    RetryEvent::Woke,
                );
                next_fetch(request, retry)
            },
            (
                SyncState::Resolving { material, retry: RetryState::Attempting { attempt } },
                SyncEvent::Listing(reply),
            ) => {
                match resolve(reply) {
                    Ok(existing) => {
                        let request = plan_upsert(existing, &material);
                        let action = SyncAction::Upsert {
                            load_balancer_id: self.load_balancer_id.clone(),
                            request,
                        };
                        (
                            SyncState::Writing {
                                material,
                                retry: RetryState::Attempting { attempt },
                            },
                            action,
                        )
                    },
                    Err(error) => {
                        let failure = error.message();
                        self.upsert_failure(material, RetryState::Attempting { attempt }, failure)
                    },
                }
            },
            (
                SyncState::Resolving { material, retry: RetryState::Waiting { attempt, delay_ms } },
                SyncEvent::Woke,
            ) => {
                let retry = self.retry.advance(
                    RetryState::Waiting { attempt, delay_ms },
                    RetryEvent::Woke,
                );
                self.upsert_attempt(material, retry)
            },
            (
                SyncState::Writing { material, retry: RetryState::Attempting { attempt } },
                SyncEvent::Written(reply),
            ) => {
                match settle(reply) {
                    Ok(_) => finish(SyncOutcome { status: SyncStatus::Success, message: None }),
                    Err(error) => {
                        let failure = error.message();
                        self.upsert_failure(material, RetryState::Attempting { attempt }, failure)
                    },
                }
            },
            (state, _) => (state, SyncAction::Ignore),
        }
    }
}

} // verus!
