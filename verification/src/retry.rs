//! Bounded retry with exponential backoff, as a state machine.
//!
//! The executor makes no call and does not sleep. Its state says what comes
//! next: make the attempt, wait, hand back the success, or hand back the last
//! error. The caller does that and reports what happened as an event.

use vstd::arithmetic::power2::{lemma2_to64, lemma_pow2_strictly_increases, lemma_pow2_unfold, pow2};
use vstd::prelude::*;

verus! {

/// The two parameters of a retry executor.
pub struct RetryLimits {
    /// How many times the operation may be invoked.
    pub max_attempts: nat,
    /// The wait after the first failed attempt, in milliseconds.
    pub base_delay_ms: nat,
}

/// The wait between attempt `attempt` and the next one, attempts counted
/// from 1: the base delay, doubled once for each earlier failure.
pub open spec fn backoff(base_delay_ms: nat, attempt: nat) -> nat
    recommends
        attempt >= 1,
{
    base_delay_ms * pow2((attempt - 1) as nat)
}

impl RetryLimits {
    /// A wait follows attempt `attempt`: it is not the last one allowed.
    pub open spec fn retries_after(self, attempt: nat) -> bool {
        1 <= attempt < self.max_attempts
    }

    /// The longest wait that these limits can ask for fits in 64 bits.
    pub open spec fn fits(self) -> bool {
        self.max_attempts >= 2 ==> backoff(self.base_delay_ms, (self.max_attempts - 1) as nat)
            <= u64::MAX
    }
}

/// Where a retried operation stands, and so what its caller does next.
#[derive(Clone, Copy, Debug, PartialEq, Eq, Structural)]
pub enum RetryState {
    /// Invoke the operation now; this is attempt number `attempt`.
    Attempting { attempt: u32 },
    /// Attempt `attempt` failed: wait `delay_ms` milliseconds, then report `Woke`.
    Waiting { attempt: u32, delay_ms: u64 },
    /// The operation succeeded at its `attempts`-th invocation: hand its result back.
    Succeeded { attempts: u32 },
    /// Every allowed attempt failed: hand back the last error observed.
    Exhausted { attempts: u32 },
}

/// What the caller reports back to the executor.
#[derive(Clone, Copy, Debug, PartialEq, Eq, Structural)]
pub enum RetryEvent {
    /// The attempt returned a success.
    Succeeded,
    /// The attempt returned an error.
    Failed,
    /// The wait is over.
    Woke,
}

impl RetryState {
    /// The state awaits `event`: an attempt awaits its result, a wait its end.
    pub open spec fn awaits(self, event: RetryEvent) -> bool {
        match self {
            RetryState::Attempting { .. } => event != RetryEvent::Woke,
            RetryState::Waiting { .. } => event == RetryEvent::Woke,
            _ => false,
        }
    }

    /// The state is final: nothing more is invoked.
    pub open spec fn is_final(self) -> bool {
        self is Succeeded || self is Exhausted
    }

    /// The state can arise under `limits`: the attempt under way is one of
    /// those allowed, a wait follows an attempt that is not the last and
    /// lasts what the backoff says, a success came at one of the attempts
    /// allowed, and exhaustion means that every one of them was made.
    pub open spec fn within(self, limits: RetryLimits) -> bool {
        match self {
            RetryState::Attempting { attempt } => 1 <= attempt <= limits.max_attempts,
            RetryState::Waiting { attempt, delay_ms } => limits.retries_after(attempt as nat)
                && delay_ms == backoff(limits.base_delay_ms, attempt as nat),
            RetryState::Succeeded { attempts } => 1 <= attempts <= limits.max_attempts,
            RetryState::Exhausted { attempts } => attempts == limits.max_attempts,
        }
    }

    /// How many times the operation has been invoked when this state is reached.
    pub open spec fn invocations(self) -> nat {
        match self {
            RetryState::Attempting { attempt } => attempt as nat,
            RetryState::Waiting { attempt, .. } => attempt as nat,
            RetryState::Succeeded { attempts } => attempts as nat,
            RetryState::Exhausted { attempts } => attempts as nat,
        }
    }
}

/// The state before the first attempt. With no attempt allowed the
/// operation is never invoked and the executor is exhausted at once.
pub open spec fn begun(limits: RetryLimits) -> RetryState {
    if limits.max_attempts == 0 {
        RetryState::Exhausted { attempts: 0 }
    } else {
        RetryState::Attempting { attempt: 1 }
    }
}

/// The state that follows `state` on `event`.
///
/// A success ends the run at once. A failure is followed by a wait while
/// attempts are left, and ends the run otherwise. The end of a wait starts the
/// next attempt. An event that `state` does not await changes nothing.
pub open spec fn advanced(limits: RetryLimits, state: RetryState, event: RetryEvent) -> RetryState {
    match (state, event) {
        (RetryState::Attempting { attempt }, RetryEvent::Succeeded) => RetryState::Succeeded {
            attempts: attempt,
        },
        (RetryState::Attempting { attempt }, RetryEvent::Failed) => {
            if limits.retries_after(attempt as nat) {
                RetryState::Waiting {
                    attempt,
                    delay_ms: backoff(limits.base_delay_ms, attempt as nat) as u64,
                }
            } else {
                RetryState::Exhausted { attempts: attempt }
            }
        },
        (RetryState::Waiting { attempt, .. }, RetryEvent::Woke) => {
            if limits.retries_after(attempt as nat) {
                RetryState::Attempting { attempt: (attempt + 1) as u32 }
            } else {
                RetryState::Exhausted { attempts: attempt }
            }
        },
        _ => state,
    }
}

/// Waits never shrink from one attempt to the next.
pub proof fn lemma_backoff_monotonic(base_delay_ms: nat, earlier: nat, later: nat)
    requires
        1 <= earlier <= later,
    ensures
        backoff(base_delay_ms, earlier) <= backoff(base_delay_ms, later),
{
    let low = pow2((earlier - 1) as nat);
    let high = pow2((later - 1) as nat);
    if earlier < later {
        lemma_pow2_strictly_increases((earlier - 1) as nat, (later - 1) as nat);
    }
    assert(base_delay_ms * low <= base_delay_ms * high) by (nonlinear_arith)
        requires
            low <= high,
            base_delay_ms >= 0,
    ;
}

/// The wait doubles from each attempt to the next, starting at the base delay.
pub proof fn lemma_backoff_doubles(base_delay_ms: nat, attempt: nat)
    requires
        attempt >= 1,
    ensures
        backoff(base_delay_ms, 1) == base_delay_ms,
        backoff(base_delay_ms, attempt + 1) == 2 * backoff(base_delay_ms, attempt),
{
    lemma2_to64();
    assert(backoff(base_delay_ms, 1) == base_delay_ms * pow2(0));
    lemma_pow2_unfold(attempt);
    let p = pow2((attempt - 1) as nat);
    assert(base_delay_ms * (2 * p) == 2 * (base_delay_ms * p)) by (nonlinear_arith);
}

/// The limits are those of an executor: the attempts can be counted in 32
/// bits and every wait in 64.
pub open spec fn is_executable(limits: RetryLimits) -> bool {
    limits.max_attempts <= u32::MAX && limits.fits()
}

/// The operation is never invoked more often than the limits allow: a run
/// starts within them and no event takes it out of them.
pub proof fn lemma_attempts_bounded(limits: RetryLimits, state: RetryState, event: RetryEvent)
    requires
        is_executable(limits),
        state.within(limits),
    ensures
        begun(limits).within(limits),
        advanced(limits, state, event).within(limits),
        advanced(limits, state, event).invocations() <= limits.max_attempts,
{
    if let RetryState::Attempting { attempt } = state {
        if limits.retries_after(attempt as nat) {
            lemma_backoff_monotonic(
                limits.base_delay_ms,
                attempt as nat,
                (limits.max_attempts - 1) as nat,
            );
        }
    }
}

/// An event that the state does not await changes nothing, and nothing is
/// awaited once the run has ended.
pub proof fn lemma_unawaited_event_changes_nothing(
    limits: RetryLimits,
    state: RetryState,
    event: RetryEvent,
)
    ensures
        !state.awaits(event) ==> advanced(limits, state, event) == state,
        state.is_final() ==> !state.awaits(event),
{
}

/// The state reached from the start once `failures` attempts have failed
/// and the wait after each of them is over.
pub open spec fn after_failures(limits: RetryLimits, failures: nat) -> RetryState
    decreases failures,
{
    if failures == 0 {
        begun(limits)
    } else {
        advanced(
            limits,
            advanced(limits, after_failures(limits, (failures - 1) as nat), RetryEvent::Failed),
            RetryEvent::Woke,
        )
    }
}

/// While attempts are left, each failure is followed by the next attempt,
/// and the first success ends the run at once: an operation that fails
/// `failures` times and then succeeds is invoked `failures + 1` times.
pub proof fn lemma_success_after_failures(limits: RetryLimits, failures: nat)
    requires
        is_executable(limits),
        failures < limits.max_attempts,
    ensures
        after_failures(limits, failures) == (RetryState::Attempting {
            attempt: (failures + 1) as u32,
        }),
        advanced(limits, after_failures(limits, failures), RetryEvent::Succeeded) == (
        RetryState::Succeeded { attempts: (failures + 1) as u32 }),
    decreases failures,
{
    if failures > 0 {
        lemma_success_after_failures(limits, (failures - 1) as nat);
        lemma_backoff_monotonic(limits.base_delay_ms, failures, (limits.max_attempts - 1) as nat);
    }
}

/// The wait that follows the `attempt`-th failure in a row, where an
/// attempt is left, lasts the base delay doubled `attempt - 1` times.
pub proof fn lemma_wait_after_failure(limits: RetryLimits, attempt: nat)
    requires
        is_executable(limits),
        limits.retries_after(attempt),
    ensures
        advanced(limits, after_failures(limits, (attempt - 1) as nat), RetryEvent::Failed) == (
        RetryState::Waiting {
            attempt: attempt as u32,
            delay_ms: backoff(limits.base_delay_ms, attempt) as u64,
        }),
        backoff(limits.base_delay_ms, attempt) <= u64::MAX,
{
    lemma_success_after_failures(limits, (attempt - 1) as nat);
    lemma_backoff_monotonic(limits.base_delay_ms, attempt, (limits.max_attempts - 1) as nat);
}

/// An operation that always fails is invoked exactly as often as the limits
/// allow, and the run then ends exhausted.
pub proof fn lemma_exhausted_after_failures(limits: RetryLimits)
    requires
        is_executable(limits),
    ensures
        after_failures(limits, limits.max_attempts) == (RetryState::Exhausted {
            attempts: limits.max_attempts as u32,
        }),
        limits.max_attempts >= 1 ==> advanced(
            limits,
            after_failures(limits, (limits.max_attempts - 1) as nat),
            RetryEvent::Failed,
        ) == (RetryState::Exhausted { attempts: limits.max_attempts as u32 }),
{
    if limits.max_attempts >= 1 {
        lemma_success_after_failures(limits, (limits.max_attempts - 1) as nat);
    }
}

/// Runs an operation up to a fixed number of times, waiting longer after
/// each failure.
#[derive(Clone, Copy, Debug)]
pub struct RetryExecutor {
    max_attempts: u32,
    base_delay_ms: u64,
}

impl View for RetryExecutor {
    type V = RetryLimits;

    closed spec fn view(&self) -> RetryLimits {
        RetryLimits {
            max_attempts: self.max_attempts as nat,
            base_delay_ms: self.base_delay_ms as nat,
        }
    }
}

impl RetryExecutor {
    #[verifier::type_invariant]
    spec fn well_formed(self) -> bool {
        self@.fits()
    }

    /// An executor with the given limits, or `None` where a wait that they
    /// can ask for does not fit in 64 bits.
    pub fn new(max_attempts: u32, base_delay_ms: u64) -> (r: Option<RetryExecutor>)
        ensures
            r is Some <==> (RetryLimits {
                max_attempts: max_attempts as nat,
                base_delay_ms: base_delay_ms as nat,
            }).fits(),
            r matches Some(executor) ==> executor@ == (RetryLimits {
                max_attempts: max_attempts as nat,
                base_delay_ms: base_delay_ms as nat,
            }),
            r matches Some(executor) ==> is_executable(executor@),
    {
        if max_attempts >= 2 && base_delay_ms > 0 {
            let last: u32 = max_attempts - 1;
            let mut attempt: u32 = 1;
            let mut delay: u64 = base_delay_ms;
            proof {
                lemma_backoff_doubles(base_delay_ms as nat, 1);
            }
            while attempt < last
                invariant
                    1 <= attempt <= last,
                    last == max_attempts - 1,
                    delay == backoff(base_delay_ms as nat, attempt as nat),
                decreases last - attempt,
            {
                proof {
                    lemma_backoff_doubles(base_delay_ms as nat, attempt as nat);
                }
                match delay.checked_mul(2) {
                    Some(doubled) => {
                        delay = doubled;
                        attempt = attempt + 1;
                    },
                    None => {
                        proof {
                            lemma_backoff_monotonic(
                                base_delay_ms as nat,
                                (attempt + 1) as nat,
                                last as nat,
                            );
                        }
                        return None;
                    },
                }
            }
        } else if max_attempts >= 2 {
            assert(backoff(0, (max_attempts - 1) as nat) == 0) by (nonlinear_arith)
                requires
                    backoff(0, (max_attempts - 1) as nat) == 0 * pow2((max_attempts - 2) as nat),
            ;
        }
        Some(RetryExecutor { max_attempts, base_delay_ms })
    }

    /// How many times the operation may be invoked.
    pub fn max_attempts(&self) -> (n: u32)
        ensures
            n == self@.max_attempts,
            is_executable(self@),
    {
        proof {
            use_type_invariant(self);
        }
        self.max_attempts
    }

    /// The wait after the first failed attempt, in milliseconds.
    pub fn base_delay_ms(&self) -> (ms: u64)
        ensures
            ms == self@.base_delay_ms,
            is_executable(self@),
    {
        proof {
            use_type_invariant(self);
        }
        self.base_delay_ms
    }

    /// The wait that follows attempt `attempt`, or `None` where no attempt
    /// follows it.
    pub fn backoff_ms(&self, attempt: u32) -> (r: Option<u64>)
        ensures
            r is Some <==> self@.retries_after(attempt as nat),
            r matches Some(delay) ==> delay == backoff(self@.base_delay_ms, attempt as nat),
    {
        if attempt < 1 || attempt >= self.max_attempts {
            return None;
        }
        proof {
            use_type_invariant(self);
            lemma_backoff_doubles(self.base_delay_ms as nat, 1);
        }
        if self.base_delay_ms == 0 {
            assert(backoff(0, attempt as nat) == 0) by (nonlinear_arith)
                requires
                    backoff(0, attempt as nat) == 0 * pow2((attempt - 1) as nat),
            ;
            return Some(0);
        }
        let mut reached: u32 = 1;
        let mut delay: u64 = self.base_delay_ms;
        while reached < attempt
            invariant
                1 <= reached <= attempt < self.max_attempts,
                self@.fits(),
                delay == backoff(self@.base_delay_ms, reached as nat),
            decreases attempt - reached,
        {
            proof {
                lemma_backoff_doubles(self.base_delay_ms as nat, reached as nat);
                lemma_backoff_monotonic(
                    self.base_delay_ms as nat,
                    (reached + 1) as nat,
                    (self.max_attempts - 1) as nat,
                );
            }
            delay = delay * 2;
            reached = reached + 1;
        }
        Some(delay)
    }

    /// The state before the first attempt.
    pub fn begin(&self) -> (state: RetryState)
        ensures
            state == begun(self@),
            is_executable(self@),
    {
        proof {
            use_type_invariant(self);
        }
        if self.max_attempts == 0 {
            RetryState::Exhausted { attempts: 0 }
        } else {
            RetryState::Attempting { attempt: 1 }
        }
    }

    /// Moves `state` on by one event.
    pub fn advance(&self, state: RetryState, event: RetryEvent) -> (next: RetryState)
        ensures
            next == advanced(self@, state, event),
    {
        match (state, event) {
            (RetryState::Attempting { attempt }, RetryEvent::Succeeded) => RetryState::Succeeded {
                attempts: attempt,
            },
            (RetryState::Attempting { attempt }, RetryEvent::Failed) => {
                match self.backoff_ms(attempt) {
                    Some(delay_ms) => RetryState::Waiting { attempt, delay_ms },
                    None => RetryState::Exhausted { attempts: attempt },
                }
            },
            (RetryState::Waiting { attempt, .. }, RetryEvent::Woke) => {
                if 1 <= attempt && attempt < self.max_attempts {
                    RetryState::Attempting { attempt: attempt + 1 }
                } else {
                    RetryState::Exhausted { attempts: attempt }
                }
            },
            _ => state,
        }
    }
}

impl Default for RetryExecutor {
    /// Three attempts, with half a second after the first failure.
    fn default() -> (executor: RetryExecutor)
        ensures
            executor@ == (RetryLimits { max_attempts: 3, base_delay_ms: 500 }),
            is_executable(executor@),
    {
        proof {
            lemma2_to64();
        }
        RetryExecutor { max_attempts: 3, base_delay_ms: 500 }
    }
}

} // verus!
