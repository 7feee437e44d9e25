//! What holds of every run of the synchronization engine.

use crate::request::{validation, CertificateRequestView};
use crate::retry::{
    backoff, begun, is_executable, lemma_attempts_bounded, lemma_backoff_monotonic, RetryEvent,
    RetryLimits, RetryState,
};
use crate::secret::{
    fetched, lemma_fetched_material_wf, CertificateMaterialView, SecretLookupView,
};
use crate::sync::{
    fetch_failed, refused, started, stepped, succeeded, upsert_failed, SyncActionView,
    SyncEngineView, SyncEventView, SyncStateView, SyncStatus,
};
use crate::terminator::{planned, resolved, settled, ListingReplyView, WriteReplyView};
use vstd::prelude::*;

verus! {

/// The attempts of a step that are still to come after attempt `attempt`.
pub open spec fn attempts_left(limits: RetryLimits, attempt: u32) -> nat {
    if attempt < limits.max_attempts {
        (limits.max_attempts - attempt) as nat
    } else {
        0
    }
}

/// An upper bound on the events that a synchronization in `state` can
/// still take before it is finished. An attempt at the material takes two
/// (the lookup and the wait), an attempt at the installation three (the
/// listing, the write and the wait).
pub open spec fn budget(limits: RetryLimits, state: SyncStateView) -> nat {
    match state {
        SyncStateView::Fetching { retry: RetryState::Attempting { attempt }, .. } => 2
            * attempts_left(limits, attempt) + 2 + 3 * limits.max_attempts + 4,
        SyncStateView::Fetching { retry: RetryState::Waiting { attempt, .. }, .. } => 2
            * attempts_left(limits, attempt) + 1 + 3 * limits.max_attempts + 4,
        SyncStateView::Resolving { retry: RetryState::Attempting { attempt }, .. } => 3
            * attempts_left(limits, attempt) + 3,
        SyncStateView::Writing { retry: RetryState::Attempting { attempt }, .. } => 3
            * attempts_left(limits, attempt) + 2,
        SyncStateView::Resolving { retry: RetryState::Waiting { attempt, .. }, .. } => 3
            * attempts_left(limits, attempt) + 1,
        _ => 0,
    }
}

impl SyncStateView {
    /// The state can arise under `limits`: its step is within them, and the
    /// material that it holds is complete.
    pub open spec fn within(self, limits: RetryLimits) -> bool {
        match self {
            SyncStateView::Fetching { retry, .. } => retry.within(limits) && !retry.is_final(),
            SyncStateView::Resolving { material, retry } => retry.within(limits)
                && !retry.is_final() && material.wf(),
            SyncStateView::Writing { material, retry } => retry.within(limits) && retry
                is Attempting && material.wf(),
            SyncStateView::Finished => true,
        }
    }
}

/// A refused request ends the synchronization at once, with the error's
/// text. No call to the secret store or to the load balancer is asked for,
/// then or after any later event.
pub proof fn lemma_refused_request_makes_no_call(
    engine: SyncEngineView,
    request: CertificateRequestView,
)
    requires
        validation(request) is Err,
    ensures
        started(engine, request) == (
            SyncStateView::Finished,
            SyncActionView::Finish(refused(validation(request)->Err_0)),
        ),
        !started(engine, request).1.is_remote_call(),
        forall|event: SyncEventView|
            (#[trigger] stepped(engine, started(engine, request).0, event)) == (
                SyncStateView::Finished,
                SyncActionView::Ignore,
            ),
{
}

/// An accepted request has its secret looked up first, under its own
/// namespace and name, where at least one attempt is allowed.
pub proof fn lemma_accepted_request_is_looked_up(
    engine: SyncEngineView,
    request: CertificateRequestView,
)
    requires
        validation(request) is Ok,
        engine.retry.max_attempts >= 1,
    ensures
        started(engine, request) == (
            SyncStateView::Fetching { request, retry: RetryState::Attempting { attempt: 1 } },
            SyncActionView::FetchSecret {
                namespace: request.namespace,
                secret_name: request.secret_name,
            },
        ),
{
}

/// A synchronization starts at most `5 * max_attempts + 6` events away from
/// its end, and it starts at its end exactly where it hands the outcome out
/// at once.
pub proof fn lemma_run_starts_within_budget(
    engine: SyncEngineView,
    request: CertificateRequestView,
)
    ensures
        budget(engine.retry, started(engine, request).0) <= 5 * engine.retry.max_attempts + 6,
        started(engine, request).0 is Finished <==> started(engine, request).1 is Finish,
{
}

/// Every synchronization ends: an awaited event takes the state strictly
/// nearer to the end, and the outcome is handed out exactly when the end is
/// reached.
pub proof fn lemma_awaited_event_uses_budget(
    engine: SyncEngineView,
    state: SyncStateView,
    event: SyncEventView,
)
    requires
        engine.retry.max_attempts <= u32::MAX,
        state.awaits(event),
    ensures
        budget(engine.retry, stepped(engine, state, event).0) < budget(engine.retry, state),
        stepped(engine, state, event).0 is Finished <==> stepped(engine, state, event).1 is Finish,
        !(stepped(engine, state, event).1 is Ignore),
{
}

/// An event that is not awaited changes nothing and asks for nothing, and
/// nothing is awaited once the outcome has been handed out.
pub proof fn lemma_unawaited_event_is_ignored(
    engine: SyncEngineView,
    state: SyncStateView,
    event: SyncEventView,
)
    ensures
        !state.awaits(event) ==> stepped(engine, state, event) == (state, SyncActionView::Ignore),
        state is Finished ==> !state.awaits(event),
{
}

/// A synchronization starts within the limits: with its first attempt, or
/// at its end.
pub proof fn lemma_run_starts_within_limits(
    engine: SyncEngineView,
    request: CertificateRequestView,
)
    requires
        is_executable(engine.retry),
    ensures
        started(engine, request).0.within(engine.retry),
{
    lemma_attempts_bounded(engine.retry, begun(engine.retry), RetryEvent::Failed);
}

/// No step is attempted more often than the limits allow, and the engine
/// never holds incomplete material: no event takes a synchronization out of
/// the limits.
pub proof fn lemma_run_stays_within_limits(
    engine: SyncEngineView,
    state: SyncStateView,
    event: SyncEventView,
)
    requires
        is_executable(engine.retry),
        state.within(engine.retry),
    ensures
        stepped(engine, state, event).0.within(engine.retry),
{
    lemma_attempts_bounded(engine.retry, begun(engine.retry), RetryEvent::Failed);
    match state {
        SyncStateView::Fetching { retry, .. } => {
            lemma_attempts_bounded(engine.retry, retry, RetryEvent::Failed);
            lemma_attempts_bounded(engine.retry, retry, RetryEvent::Woke);
            if let SyncEventView::Secret(lookup) = event {
                lemma_fetched_material_wf(lookup);
            }
        },
        SyncStateView::Resolving { retry, .. } => {
            lemma_attempts_bounded(engine.retry, retry, RetryEvent::Failed);
            lemma_attempts_bounded(engine.retry, retry, RetryEvent::Woke);
        },
        SyncStateView::Writing { retry, .. } => {
            lemma_attempts_bounded(engine.retry, retry, RetryEvent::Failed);
        },
        SyncStateView::Finished => {},
    }
}

/// The load balancer is not asked anything before the material is there:
/// while the material is being fetched, only a lookup that gave it is
/// followed by a call to the load balancer.
pub proof fn lemma_no_balancer_call_without_material(
    engine: SyncEngineView,
    state: SyncStateView,
    event: SyncEventView,
)
    requires
        state is Fetching,
        stepped(engine, state, event).1.calls_load_balancer(),
    ensures
        event matches SyncEventView::Secret(lookup) && fetched(lookup) is Ok,
        stepped(engine, state, event).1 is ListTerminators,
{
}

/// Every write follows a listing: it is asked for only in answer to a
/// listing that was read, and it is the write which that listing calls
/// for. So a retry of the installation lists again before it writes.
pub proof fn lemma_write_follows_listing(
    engine: SyncEngineView,
    state: SyncStateView,
    event: SyncEventView,
)
    requires
        stepped(engine, state, event).1 is Upsert,
    ensures
        state matches SyncStateView::Resolving { material, retry } && event
            matches SyncEventView::Listing(reply) && resolved(reply) matches Ok(existing)
            && stepped(engine, state, event) == (
            SyncStateView::Writing { material, retry },
            SyncActionView::Upsert {
                load_balancer_id: engine.load_balancer_id,
                request: planned(existing, material),
            },
        ),
{
}

/// The outcome of a run that was started names the step that failed: a
/// failure while the material is fetched is a fetch error, a failure of the
/// installation is an upsert error, and success is reported only for a write
/// that the load balancer accepted.
pub proof fn lemma_outcome_names_the_step(
    engine: SyncEngineView,
    state: SyncStateView,
    event: SyncEventView,
)
    requires
        is_executable(engine.retry),
        state.within(engine.retry),
        stepped(engine, state, event).1 is Finish,
    ensures
        ({
            let outcome = stepped(engine, state, event).1->Finish_0;
            match state {
                SyncStateView::Fetching { .. } => outcome.status == SyncStatus::FetchError
                    && outcome.message is Some,
                SyncStateView::Resolving { .. } => outcome.status == SyncStatus::UpsertError
                    && outcome.message is Some,
                SyncStateView::Writing { .. } => if event matches SyncEventView::Written(reply)
                    && settled(reply) is Ok {
                    outcome == succeeded()
                } else {
                    outcome.status == SyncStatus::UpsertError && outcome.message is Some
                },
                SyncStateView::Finished => false,
            }
        }),
{
}

/// A run in which nothing fails: the secret is looked up once, the configs
/// are listed once, one write is sent, and the outcome is success. The write
/// is an update of the terminator that the listing shows, under its
/// identifier, and the creation of the default terminator where it shows
/// none; either way it carries the material that the secret holds.
pub proof fn lemma_clean_run(
    engine: SyncEngineView,
    request: CertificateRequestView,
    lookup: SecretLookupView,
    listing: ListingReplyView,
    written: WriteReplyView,
)
    requires
        engine.retry.max_attempts >= 1,
        validation(request) is Ok,
        fetched(lookup) is Ok,
        resolved(listing) is Ok,
        settled(written) is Ok,
    ensures
        ({
            let material = fetched(lookup)->Ok_0;
            let existing = resolved(listing)->Ok_0;
            let first = started(engine, request);
            let second = stepped(engine, first.0, SyncEventView::Secret(lookup));
            let third = stepped(engine, second.0, SyncEventView::Listing(listing));
            let last = stepped(engine, third.0, SyncEventView::Written(written));
            &&& first.1 == SyncActionView::FetchSecret {
                namespace: request.namespace,
                secret_name: request.secret_name,
            }
            &&& second.1 == SyncActionView::ListTerminators {
                load_balancer_id: engine.load_balancer_id,
            }
            &&& third.1 == SyncActionView::Upsert {
                load_balancer_id: engine.load_balancer_id,
                request: planned(existing, material),
            }
            &&& last == (SyncStateView::Finished, SyncActionView::Finish(succeeded()))
        }),
{
}

/// The state of a run once the first `failures` of `lookups` have failed
/// and the wait after each of them is over.
pub open spec fn after_failed_lookups(
    engine: SyncEngineView,
    request: CertificateRequestView,
    lookups: Seq<SecretLookupView>,
    failures: nat,
) -> SyncStateView
    decreases failures,
{
    if failures == 0 {
        started(engine, request).0
    } else {
        let before = after_failed_lookups(engine, request, lookups, (failures - 1) as nat);
        let failed = stepped(engine, before, SyncEventView::Secret(lookups[failures - 1]));
        stepped(engine, failed.0, SyncEventView::Woke).0
    }
}

/// While lookups fail and attempts are left, the engine only waits and looks
/// up again: after `failures` failed lookups the next attempt is under way,
/// and the wait after the last of them was the base delay doubled once for
/// each failure before it, announced together with that failure's text.
pub proof fn lemma_failed_lookups_are_retried(
    engine: SyncEngineView,
    request: CertificateRequestView,
    lookups: Seq<SecretLookupView>,
    failures: nat,
)
    requires
        is_executable(engine.retry),
        validation(request) is Ok,
        failures < engine.retry.max_attempts,
        failures <= lookups.len(),
        forall|i: int| 0 <= i < failures ==> fetched(#[trigger] lookups[i]) is Err,
    ensures
        after_failed_lookups(engine, request, lookups, failures) == (SyncStateView::Fetching {
            request,
            retry: RetryState::Attempting { attempt: (failures + 1) as u32 },
        }),
        failures >= 1 ==> stepped(
            engine,
            after_failed_lookups(engine, request, lookups, (failures - 1) as nat),
            SyncEventView::Secret(lookups[failures - 1]),
        ).1 == (SyncActionView::Backoff {
            delay_ms: backoff(engine.retry.base_delay_ms, failures) as u64,
            attempt: failures as u32,
            error: fetched(lookups[failures - 1])->Err_0.text(),
        }),
        failures >= 1 ==> backoff(engine.retry.base_delay_ms, failures) <= u64::MAX,
    decreases failures,
{
    if failures >= 1 {
        lemma_failed_lookups_are_retried(engine, request, lookups, (failures - 1) as nat);
        lemma_backoff_monotonic(
            engine.retry.base_delay_ms,
            failures,
            (engine.retry.max_attempts - 1) as nat,
        );
    }
}

/// Where every lookup fails, the secret is looked up exactly as often as the
/// limits allow, the last failure ends the run with a fetch error that
/// carries its text, and the load balancer is never asked anything.
pub proof fn lemma_failed_lookups_end_in_fetch_error(
    engine: SyncEngineView,
    request: CertificateRequestView,
    lookups: Seq<SecretLookupView>,
)
    requires
        is_executable(engine.retry),
        engine.retry.max_attempts >= 1,
        validation(request) is Ok,
        lookups.len() == engine.retry.max_attempts,
        forall|i: int| 0 <= i < lookups.len() ==> fetched(#[trigger] lookups[i]) is Err,
    ensures
        stepped(
            engine,
            after_failed_lookups(engine, request, lookups, (lookups.len() - 1) as nat),
            SyncEventView::Secret(lookups.last()),
        ) == (
            SyncStateView::Finished,
            SyncActionView::Finish(fetch_failed(fetched(lookups.last())->Err_0.text())),
        ),
        forall|failures: nat|
            failures < lookups.len() ==> !(#[trigger] stepped(
                engine,
                after_failed_lookups(engine, request, lookups, failures),
                SyncEventView::Secret(lookups[failures as int]),
            )).1.calls_load_balancer(),
{
    lemma_failed_lookups_are_retried(engine, request, lookups, (lookups.len() - 1) as nat);
    assert forall|failures: nat| failures < lookups.len() implies !(#[trigger] stepped(
        engine,
        after_failed_lookups(engine, request, lookups, failures),
        SyncEventView::Secret(lookups[failures as int]),
    )).1.calls_load_balancer() by {
        lemma_failed_lookups_are_retried(engine, request, lookups, failures);
    }
}

/// The state of an installation once its first `failures` attempts have
/// each listed the configs, written, been refused, and waited.
pub open spec fn after_failed_writes(
    engine: SyncEngineView,
    material: CertificateMaterialView,
    listings: Seq<ListingReplyView>,
    writes: Seq<WriteReplyView>,
    failures: nat,
) -> SyncStateView
    decreases failures,
{
    if failures == 0 {
        SyncStateView::Resolving { material, retry: begun(engine.retry) }
    } else {
        let before = after_failed_writes(engine, material, listings, writes, (failures - 1) as nat);
        let listed = stepped(engine, before, SyncEventView::Listing(listings[failures - 1]));
        let written = stepped(engine, listed.0, SyncEventView::Written(writes[failures - 1]));
        stepped(engine, written.0, SyncEventView::Woke).0
    }
}

/// While writes fail and attempts are left, every new attempt starts with a
/// listing of its own, and its write is the one which that listing calls for:
/// no write is repeated from what an earlier attempt saw.
pub proof fn lemma_failed_writes_are_retried(
    engine: SyncEngineView,
    material: CertificateMaterialView,
    listings: Seq<ListingReplyView>,
    writes: Seq<WriteReplyView>,
    failures: nat,
)
    requires
        is_executable(engine.retry),
        failures < engine.retry.max_attempts,
        failures < listings.len(),
        failures <= writes.len(),
        forall|i: int| 0 <= i <= failures ==> resolved(#[trigger] listings[i]) is Ok,
        forall|i: int| 0 <= i < failures ==> settled(#[trigger] writes[i]) is Err,
    ensures
        after_failed_writes(engine, material, listings, writes, failures) == (
        SyncStateView::Resolving {
            material,
            retry: RetryState::Attempting { attempt: (failures + 1) as u32 },
        }),
        stepped(
            engine,
            after_failed_writes(engine, material, listings, writes, failures),
            SyncEventView::Listing(listings[failures as int]),
        ) == (
            SyncStateView::Writing {
                material,
                retry: RetryState::Attempting { attempt: (failures + 1) as u32 },
            },
            SyncActionView::Upsert {
                load_balancer_id: engine.load_balancer_id,
                request: planned(resolved(listings[failures as int])->Ok_0, material),
            },
        ),
    decreases failures,
{
    if failures >= 1 {
        lemma_failed_writes_are_retried(engine, material, listings, writes, (failures - 1) as nat);
        lemma_backoff_monotonic(
            engine.retry.base_delay_ms,
            failures,
            (engine.retry.max_attempts - 1) as nat,
        );
    }
}

/// Where every write fails, the installation is attempted exactly as often
/// as the limits allow, and the last failure ends the run with an upsert
/// error that carries its text.
pub proof fn lemma_failed_writes_end_in_upsert_error(
    engine: SyncEngineView,
    material: CertificateMaterialView,
    listings: Seq<ListingReplyView>,
    writes: Seq<WriteReplyView>,
)
    requires
        is_executable(engine.retry),
        engine.retry.max_attempts >= 1,
        listings.len() == engine.retry.max_attempts,
        writes.len() == engine.retry.max_attempts,
        forall|i: int| 0 <= i < listings.len() ==> resolved(#[trigger] listings[i]) is Ok,
        forall|i: int| 0 <= i < writes.len() ==> settled(#[trigger] writes[i]) is Err,
    ensures
        ({
            let before = after_failed_writes(
                engine,
                material,
                listings,
                writes,
                (writes.len() - 1) as nat,
            );
            let listed = stepped(engine, before, SyncEventView::Listing(listings.last()));
            stepped(engine, listed.0, SyncEventView::Written(writes.last())) == (
                SyncStateView::Finished,
                SyncActionView::Finish(upsert_failed(settled(writes.last())->Err_0.text())),
            )
        }),
{
    lemma_failed_writes_are_retried(
        engine,
        material,
        listings,
        writes,
        (writes.len() - 1) as nat,
    );
}

} // verus!
