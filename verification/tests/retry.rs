use certsync::retry::{RetryEvent, RetryExecutor, RetryState};

/// Runs an operation whose attempts end as `results` say (`true` for a
/// success), and returns the final state, the number of invocations and the
/// waits in the order in which they were asked for.
fn run(executor: &RetryExecutor, results: &[bool]) -> (RetryState, usize, Vec<u64>) {
    let mut invocations = 0;
    let mut waits = Vec::new();
    let mut state = executor.begin();
    loop {
        state = match state {
            RetryState::Attempting { .. } => {
                let result = results[invocations];
                invocations += 1;
                let event = if result { RetryEvent::Succeeded } else { RetryEvent::Failed };
                executor.advance(state, event)
            }
            RetryState::Waiting { delay_ms, .. } => {
                waits.push(delay_ms);
                executor.advance(state, RetryEvent::Woke)
            }
            RetryState::Succeeded { .. } | RetryState::Exhausted { .. } => {
                return (state, invocations, waits);
            }
        };
    }
}

#[test]
fn succeeds_at_the_third_attempt_after_two_doubling_waits() {
    let executor = RetryExecutor::new(3, 500).unwrap();
    let (state, invocations, waits) = run(&executor, &[false, false, true]);
    assert_eq!(state, RetryState::Succeeded { attempts: 3 });
    assert_eq!(invocations, 3);
    assert_eq!(waits, vec![500, 1000]);
}

#[test]
fn gives_up_after_three_failures() {
    let executor = RetryExecutor::new(3, 500).unwrap();
    let (state, invocations, waits) = run(&executor, &[false, false, false, true]);
    assert_eq!(state, RetryState::Exhausted { attempts: 3 });
    assert_eq!(invocations, 3);
    assert_eq!(waits, vec![500, 1000]);
}

#[test]
fn first_success_ends_the_run_at_once() {
    let executor = RetryExecutor::new(3, 500).unwrap();
    let (state, invocations, waits) = run(&executor, &[true, false, false]);
    assert_eq!(state, RetryState::Succeeded { attempts: 1 });
    assert_eq!(invocations, 1);
    assert!(waits.is_empty());
}

#[test]
fn a_single_attempt_is_never_waited_after() {
    let executor = RetryExecutor::new(1, 500).unwrap();
    let (state, invocations, waits) = run(&executor, &[false]);
    assert_eq!(state, RetryState::Exhausted { attempts: 1 });
    assert_eq!(invocations, 1);
    assert!(waits.is_empty());
}

#[test]
fn no_attempt_allowed_means_no_invocation() {
    let executor = RetryExecutor::new(0, 500).unwrap();
    assert_eq!(executor.begin(), RetryState::Exhausted { attempts: 0 });
    let (state, invocations, waits) = run(&executor, &[]);
    assert_eq!(state, RetryState::Exhausted { attempts: 0 });
    assert_eq!(invocations, 0);
    assert!(waits.is_empty());
}

#[test]
fn waits_double_up_to_the_last_retry() {
    let executor = RetryExecutor::new(6, 100).unwrap();
    let (state, invocations, waits) = run(&executor, &[false; 6]);
    assert_eq!(state, RetryState::Exhausted { attempts: 6 });
    assert_eq!(invocations, 6);
    assert_eq!(waits, vec![100, 200, 400, 800, 1600]);
    for pair in waits.windows(2) {
        assert_eq!(pair[1], 2 * pair[0]);
    }
}

#[test]
fn the_default_is_three_attempts_and_half_a_second() {
    let executor = RetryExecutor::default();
    assert_eq!(executor.max_attempts(), 3);
    assert_eq!(executor.base_delay_ms(), 500);
}

#[test]
fn backoff_is_the_base_delay_times_a_power_of_two() {
    let executor = RetryExecutor::new(5, 500).unwrap();
    assert_eq!(executor.backoff_ms(1), Some(500));
    assert_eq!(executor.backoff_ms(2), Some(1000));
    assert_eq!(executor.backoff_ms(3), Some(2000));
    assert_eq!(executor.backoff_ms(4), Some(4000));
}

#[test]
fn no_backoff_follows_the_last_attempt() {
    let executor = RetryExecutor::new(5, 500).unwrap();
    assert_eq!(executor.backoff_ms(5), None);
    assert_eq!(executor.backoff_ms(6), None);
    assert_eq!(executor.backoff_ms(0), None);
}

#[test]
fn a_zero_base_delay_stays_zero() {
    let executor = RetryExecutor::new(u32::MAX, 0).unwrap();
    assert_eq!(executor.backoff_ms(1), Some(0));
    assert_eq!(executor.backoff_ms(u32::MAX - 1), Some(0));
    assert_eq!(executor.backoff_ms(u32::MAX), None);
}

#[test]
fn limits_whose_longest_wait_fits_are_accepted() {
    // 65 attempts: the longest wait follows attempt 64 and is 2^63 ms.
    let executor = RetryExecutor::new(65, 1).unwrap();
    assert_eq!(executor.backoff_ms(64), Some(1u64 << 63));
    assert!(RetryExecutor::new(2, u64::MAX).is_some());
    assert!(RetryExecutor::new(1, u64::MAX).is_some());
    assert!(RetryExecutor::new(0, u64::MAX).is_some());
}

#[test]
fn limits_whose_longest_wait_overflows_are_refused() {
    assert!(RetryExecutor::new(66, 1).is_none());
    assert!(RetryExecutor::new(3, u64::MAX).is_none());
    assert!(RetryExecutor::new(3, (1u64 << 63) + 1).is_none());
    assert!(RetryExecutor::new(u32::MAX, 1).is_none());
}

#[test]
fn events_that_are_not_awaited_change_nothing() {
    let executor = RetryExecutor::new(3, 500).unwrap();
    let attempting = RetryState::Attempting { attempt: 1 };
    assert_eq!(executor.advance(attempting, RetryEvent::Woke), attempting);
    let waiting = RetryState::Waiting { attempt: 1, delay_ms: 500 };
    assert_eq!(executor.advance(waiting, RetryEvent::Failed), waiting);
    assert_eq!(executor.advance(waiting, RetryEvent::Succeeded), waiting);
    let succeeded = RetryState::Succeeded { attempts: 2 };
    let exhausted = RetryState::Exhausted { attempts: 3 };
    for event in [RetryEvent::Succeeded, RetryEvent::Failed, RetryEvent::Woke] {
        assert_eq!(executor.advance(succeeded, event), succeeded);
        assert_eq!(executor.advance(exhausted, event), exhausted);
    }
}

#[test]
fn states_outside_the_limits_end_exhausted() {
    let executor = RetryExecutor::new(3, 500).unwrap();
    assert_eq!(
        executor.advance(RetryState::Attempting { attempt: 0 }, RetryEvent::Failed),
        RetryState::Exhausted { attempts: 0 }
    );
    assert_eq!(
        executor.advance(RetryState::Attempting { attempt: 7 }, RetryEvent::Failed),
        RetryState::Exhausted { attempts: 7 }
    );
    assert_eq!(
        executor.advance(RetryState::Waiting { attempt: 3, delay_ms: 1 }, RetryEvent::Woke),
        RetryState::Exhausted { attempts: 3 }
    );
}
