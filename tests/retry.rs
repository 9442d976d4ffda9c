use solana_holder_bot::{
    classify_rpc_error, exponential_backoff, status_code, AttemptOutcome, FetchError, RemoteFailure, RetryAction,
    RetryState,
};

fn drive(max_retries: u32, outcomes: &[AttemptOutcome]) -> (usize, Vec<u64>, RetryAction) {
    let mut state = RetryState::new(max_retries);
    let mut delays = Vec::new();
    let mut attempts = 0;
    for o in outcomes {
        attempts += 1;
        match state.on_outcome(*o) {
            RetryAction::Retry { delay_ms } => delays.push(delay_ms),
            other => return (attempts, delays, other),
        }
    }
    panic!("outcomes ran out");
}

#[test]
fn backoff_doubles_up_to_cap() {
    assert_eq!(exponential_backoff(0), 1000);
    assert_eq!(exponential_backoff(1), 2000);
    assert_eq!(exponential_backoff(2), 4000);
    assert_eq!(exponential_backoff(3), 8000);
    assert_eq!(exponential_backoff(4), 10000);
    assert_eq!(exponential_backoff(63), 10000);
    assert_eq!(exponential_backoff(u32::MAX), 10000);
}

#[test]
fn transient_failures_exhaust_three_attempts() {
    let fail = AttemptOutcome::Failed(RemoteFailure::Transient);
    let (attempts, delays, end) = drive(3, &[fail; 10]);
    assert_eq!(attempts, 3);
    assert_eq!(delays, vec![1000, 2000]);
    assert_eq!(
        end,
        RetryAction::GiveUp(FetchError::ExhaustedRetries { attempts: 3, last: RemoteFailure::Transient })
    );
}

#[test]
fn unsupported_endpoint_is_not_retried() {
    let (attempts, delays, end) = drive(
        3,
        &[AttemptOutcome::Failed(RemoteFailure::Unsupported), AttemptOutcome::Received { accounts: 5 }],
    );
    assert_eq!(attempts, 1);
    assert!(delays.is_empty());
    assert_eq!(end, RetryAction::GiveUp(FetchError::UnsupportedByEndpoint));
}

#[test]
fn success_after_timeouts_is_delivered() {
    let t = AttemptOutcome::Failed(RemoteFailure::TimedOut);
    let (attempts, delays, end) = drive(5, &[t, t, AttemptOutcome::Received { accounts: 2 }]);
    assert_eq!(attempts, 3);
    assert_eq!(delays, vec![1000, 2000]);
    assert_eq!(end, RetryAction::Deliver);
}

#[test]
fn empty_answer_is_retried() {
    let empty = AttemptOutcome::Received { accounts: 0 };
    let (attempts, _, end) = drive(2, &[empty, empty]);
    assert_eq!(attempts, 2);
    assert_eq!(
        end,
        RetryAction::GiveUp(FetchError::ExhaustedRetries { attempts: 2, last: RemoteFailure::EmptyResult })
    );
}

#[test]
fn single_attempt_gives_up_at_once() {
    let mut state = RetryState::new(1);
    let end = state.on_outcome(AttemptOutcome::Failed(RemoteFailure::TimedOut));
    assert_eq!(end, RetryAction::GiveUp(FetchError::ExhaustedRetries { attempts: 1, last: RemoteFailure::TimedOut }));
    assert_eq!(state.last_error, Some(RemoteFailure::TimedOut));
}

#[test]
fn status_codes_for_errors() {
    assert_eq!(status_code(&FetchError::InvalidIdentifier), 400);
    assert_eq!(status_code(&FetchError::CallerTimeout), 504);
    assert_eq!(
        status_code(&FetchError::ExhaustedRetries { attempts: 3, last: RemoteFailure::TimedOut }),
        504
    );
    assert_eq!(
        status_code(&FetchError::ExhaustedRetries { attempts: 3, last: RemoteFailure::Transient }),
        502
    );
    assert_eq!(status_code(&FetchError::UnsupportedByEndpoint), 502);
}

#[test]
fn rpc_codes_classify_failures() {
    assert_eq!(classify_rpc_error(Some(-32010)), RemoteFailure::Unsupported);
    assert_eq!(classify_rpc_error(Some(-32005)), RemoteFailure::Transient);
    assert_eq!(classify_rpc_error(None), RemoteFailure::Transient);
}

#[test]
fn unsupported_endpoint_message_suggests_remedy() {
    let m = FetchError::UnsupportedByEndpoint.message();
    assert!(m.contains("private RPC endpoint"));
    assert!(m.contains("https://rpc.ankr.com/solana"));
    assert_eq!(FetchError::CallerTimeout.message(), "RPC request timed out; try again later or use a faster RPC endpoint");
}
