//! The decisions of a remote fetch: classifying each attempt's outcome, capped
//! exponential backoff between attempts, and when to give up.

use vstd::arithmetic::power2::{lemma2_to64, lemma_pow2_strictly_increases, pow2};
use vstd::prelude::*;

use crate::address::{base58_address, Address};

verus! {

/// Delay before the second attempt, in milliseconds.
pub const BASE_DELAY_MS: u64 = 1000;

/// Longest delay between two attempts, in milliseconds.
pub const MAX_DELAY_MS: u64 = 10000;

/// The delay after the failed attempt with 0-based index `attempt`:
/// `min(BASE_DELAY_MS * 2^attempt, MAX_DELAY_MS)`.
pub open spec fn backoff_ms(attempt: nat) -> nat {
    let d = BASE_DELAY_MS as nat * pow2(attempt);
    if d < MAX_DELAY_MS as nat {
        d
    } else {
        MAX_DELAY_MS as nat
    }
}

/// Capped exponential backoff: the delay in milliseconds after the failed
/// attempt with 0-based index `attempt`.
pub fn exponential_backoff(attempt: u32) -> (r: u64)
    ensures
        r == backoff_ms(attempt as nat),
{
    proof {
        lemma2_to64();
    }
    if attempt == 0 {
        BASE_DELAY_MS
    } else if attempt == 1 {
        2 * BASE_DELAY_MS
    } else if attempt == 2 {
        4 * BASE_DELAY_MS
    } else if attempt == 3 {
        8 * BASE_DELAY_MS
    } else {
        proof {
            if attempt > 4 {
                lemma_pow2_strictly_increases(4, attempt as nat);
            }
        }
        MAX_DELAY_MS
    }
}

/// Why one attempt of the remote call failed.
#[derive(Clone, Copy, Debug, PartialEq, Eq, Structural)]
pub enum RemoteFailure {
    /// A connection error, rate limiting or another error that may pass.
    Transient,
    /// The attempt ran past its own deadline.
    TimedOut,
    /// The endpoint answered with no accounts at all.
    EmptyResult,
    /// The endpoint lacks the indexing the query needs; retrying cannot help.
    Unsupported,
}

/// What one attempt of the remote call ended with.
#[derive(Clone, Copy, Debug, PartialEq, Eq, Structural)]
pub enum AttemptOutcome {
    /// The endpoint answered with this many account records.
    Received { accounts: usize },
    Failed(RemoteFailure),
}

/// Why a fetch failed as a whole.
#[derive(Clone, Copy, Debug, PartialEq, Eq, Structural)]
pub enum FetchError {
    /// The token identifier is not a well-formed address; nothing was sent.
    InvalidIdentifier,
    /// The endpoint cannot serve the query at all; it was not retried.
    UnsupportedByEndpoint,
    /// Every attempt failed; `last` is how the final one failed.
    ExhaustedRetries { attempts: u32, last: RemoteFailure },
    /// The caller stopped waiting before the fetch finished.
    CallerTimeout,
}

impl FetchError {
    /// A sentence that explains the error; for an endpoint that cannot serve
    /// the query it says what to use instead.
    pub fn message(&self) -> (r: &'static str)
        ensures
            r@ == match *self {
                FetchError::InvalidIdentifier => "Invalid token identifier: expected a base58 address of 32 bytes"@,
                FetchError::UnsupportedByEndpoint => "The RPC endpoint does not support getProgramAccounts for the token program; this is a known limitation of public endpoints. Use a private RPC endpoint (such as Helius, QuickNode or Alchemy) or another public endpoint (such as https://rpc.ankr.com/solana)"@,
                FetchError::ExhaustedRetries { .. } => "Failed to get token accounts after all retries"@,
                FetchError::CallerTimeout => "RPC request timed out; try again later or use a faster RPC endpoint"@,
            },
    {
        match self {
            FetchError::InvalidIdentifier => "Invalid token identifier: expected a base58 address of 32 bytes",
            FetchError::UnsupportedByEndpoint => "The RPC endpoint does not support getProgramAccounts for the token program; this is a known limitation of public endpoints. Use a private RPC endpoint (such as Helius, QuickNode or Alchemy) or another public endpoint (such as https://rpc.ankr.com/solana)",
            FetchError::ExhaustedRetries { .. } => "Failed to get token accounts after all retries",
            FetchError::CallerTimeout => "RPC request timed out; try again later or use a faster RPC endpoint",
        }
    }
}

/// What the driver of a fetch does next.
#[derive(Clone, Copy, Debug, PartialEq, Eq, Structural)]
pub enum RetryAction {
    /// Hand the records of the last attempt to the caller.
    Deliver,
    /// Wait this long, then make the next attempt.
    Retry { delay_ms: u64 },
    /// Stop and report this error.
    GiveUp(FetchError),
}

/// The failure that an outcome stands for, if any: an empty answer counts as
/// a failure.
pub open spec fn failure_of(o: AttemptOutcome) -> Option<RemoteFailure> {
    match o {
        AttemptOutcome::Received { accounts } => if accounts == 0 {
            Some(RemoteFailure::EmptyResult)
        } else {
            None
        },
        AttemptOutcome::Failed(f) => Some(f),
    }
}

/// The state of one fetch: the 0-based index of the current attempt, the
/// number of attempts allowed, and how the last failed attempt failed.
#[derive(Clone, Copy, Debug, PartialEq, Eq, Structural)]
pub struct RetryState {
    pub attempt: u32,
    pub max_retries: u32,
    pub last_error: Option<RemoteFailure>,
}

/// The state after an outcome, and the action it calls for.
pub open spec fn next(s: RetryState, o: AttemptOutcome) -> (RetryState, RetryAction) {
    match failure_of(o) {
        None => (s, RetryAction::Deliver),
        Some(f) => {
            let failed = RetryState { attempt: s.attempt, max_retries: s.max_retries, last_error: Some(f) };
            if f == RemoteFailure::Unsupported {
                (failed, RetryAction::GiveUp(FetchError::UnsupportedByEndpoint))
            } else if s.attempt + 1 < s.max_retries {
                (
                    RetryState { attempt: (s.attempt + 1) as u32, ..failed },
                    RetryAction::Retry { delay_ms: backoff_ms(s.attempt as nat) as u64 },
                )
            } else {
                (
                    failed,
                    RetryAction::GiveUp(
                        FetchError::ExhaustedRetries { attempts: s.max_retries, last: f },
                    ),
                )
            }
        },
    }
}

/// The actions that a driver takes when its attempts end with `outcomes`, in
/// order: one action per attempt made, stopping at the first action that is not
/// a retry.
pub open spec fn run(s: RetryState, outcomes: Seq<AttemptOutcome>) -> Seq<RetryAction>
    decreases outcomes.len(),
{
    if outcomes.len() == 0 {
        Seq::empty()
    } else {
        let (s2, a) = next(s, outcomes[0]);
        if a is Retry {
            seq![a] + run(s2, outcomes.drop_first())
        } else {
            seq![a]
        }
    }
}

impl RetryState {
    /// At least one attempt is allowed and the current one is among them.
    pub open spec fn wf(&self) -> bool {
        0 < self.max_retries && self.attempt < self.max_retries
    }

    /// The state before the first attempt.
    pub open spec fn initial(max_retries: u32) -> RetryState {
        RetryState { attempt: 0, max_retries, last_error: None }
    }

    /// A fetch that allows `max_retries` attempts in all.
    pub fn new(max_retries: u32) -> (r: RetryState)
        requires
            max_retries > 0,
        ensures
            r == RetryState::initial(max_retries),
            r.wf(),
    {
        RetryState { attempt: 0, max_retries, last_error: None }
    }

    /// Records the outcome of the current attempt and decides what comes next.
    pub fn on_outcome(&mut self, outcome: AttemptOutcome) -> (r: RetryAction)
        requires
            old(self).wf(),
        ensures
            final(self).wf(),
            (*final(self), r) == next(*old(self), outcome),
    {
        let failure = match outcome {
            AttemptOutcome::Received { accounts } => {
                if accounts > 0 {
                    return RetryAction::Deliver;
                }
                RemoteFailure::EmptyResult
            },
            AttemptOutcome::Failed(f) => f,
        };
        self.last_error = Some(failure);
        if let RemoteFailure::Unsupported = failure {
            return RetryAction::GiveUp(FetchError::UnsupportedByEndpoint);
        }
        if self.attempt + 1 < self.max_retries {
            let delay_ms = exponential_backoff(self.attempt);
            self.attempt = self.attempt + 1;
            RetryAction::Retry { delay_ms }
        } else {
            RetryAction::GiveUp(
                FetchError::ExhaustedRetries { attempts: self.max_retries, last: failure },
            )
        }
    }
}

/// RPC error code for a key excluded from the endpoint's account secondary
/// indexes: the endpoint cannot enumerate the token program's accounts.
pub const KEY_EXCLUDED_FROM_SECONDARY_INDEX: i64 = -32010;

/// Classifies a failed remote call by the RPC error code it carried, if any:
/// only an endpoint that lacks the secondary index is beyond retrying.
pub fn classify_rpc_error(code: Option<i64>) -> (r: RemoteFailure)
    ensures
        r == if code == Some(KEY_EXCLUDED_FROM_SECONDARY_INDEX) {
            RemoteFailure::Unsupported
        } else {
            RemoteFailure::Transient
        },
{
    match code {
        Some(c) if c == KEY_EXCLUDED_FROM_SECONDARY_INDEX => RemoteFailure::Unsupported,
        _ => RemoteFailure::Transient,
    }
}

/// Checks a token identifier before anything is sent: its base58 text must
/// decode to an address.
pub fn parse_token_id(text: &str) -> (r: Result<Address, FetchError>)
    ensures
        match r {
            Ok(a) => base58_address(text@) == Some(a@),
            Err(e) => base58_address(text@).is_none() && e == FetchError::InvalidIdentifier,
        },
{
    match Address::parse(text) {
        Some(a) => Ok(a),
        None => Err(FetchError::InvalidIdentifier),
    }
}

/// The HTTP status that reports a fetch error: 400 for a malformed identifier,
/// 504 when the upstream timed out, 502 for any other upstream failure.
pub fn status_code(e: &FetchError) -> (r: u16)
    ensures
        r == match *e {
            FetchError::InvalidIdentifier => 400u16,
            FetchError::CallerTimeout => 504u16,
            FetchError::ExhaustedRetries { last: RemoteFailure::TimedOut, .. } => 504u16,
            _ => 502u16,
        },
{
    match e {
        FetchError::InvalidIdentifier => 400,
        FetchError::CallerTimeout => 504,
        FetchError::ExhaustedRetries { last: RemoteFailure::TimedOut, .. } => 504,
        _ => 502,
    }
}

/// `n` attempts in a row that all fail with `failure`.
pub open spec fn repeated_failures(failure: RemoteFailure, n: nat) -> Seq<AttemptOutcome> {
    Seq::new(n, |i: int| AttemptOutcome::Failed(failure))
}

proof fn lemma_failures_from(s: RetryState, failure: RemoteFailure, n: nat)
    requires
        s.wf(),
        failure != RemoteFailure::Unsupported,
        n >= s.max_retries - s.attempt,
    ensures
        ({
            let acts = run(s, repeated_failures(failure, n));
            &&& acts.len() == s.max_retries - s.attempt
            &&& forall|i: int|
                0 <= i < s.max_retries - s.attempt - 1 ==> acts[i] == RetryAction::Retry {
                    delay_ms: backoff_ms((s.attempt + i) as nat) as u64,
                }
            &&& acts.last() == RetryAction::GiveUp(
                FetchError::ExhaustedRetries { attempts: s.max_retries, last: failure },
            )
        }),
    decreases s.max_retries - s.attempt,
{
    let outcomes = repeated_failures(failure, n);
    assert(outcomes[0] == AttemptOutcome::Failed(failure));
    if s.attempt + 1 < s.max_retries {
        let (s2, a) = next(s, outcomes[0]);
        assert(outcomes.drop_first() =~= repeated_failures(failure, (n - 1) as nat));
        lemma_failures_from(s2, failure, (n - 1) as nat);
        let rest = run(s2, outcomes.drop_first());
        let acts = run(s, outcomes);
        assert(acts == seq![a] + rest);
        assert forall|i: int| 0 <= i < s.max_retries - s.attempt - 1 implies acts[i]
            == RetryAction::Retry { delay_ms: backoff_ms((s.attempt + i) as nat) as u64 } by {
            if i > 0 {
                assert(acts[i] == rest[i - 1]);
            }
        }
    }
}

/// A fetch whose every attempt fails with the same retryable failure makes
/// exactly `max_retries` attempts, waits `backoff_ms(i)` after the failed
/// attempt `i` for each but the last, and then gives up with `ExhaustedRetries`
/// naming that failure.
pub proof fn lemma_persistent_failure_exhausts(max_retries: u32, failure: RemoteFailure, n: nat)
    requires
        max_retries > 0,
        failure != RemoteFailure::Unsupported,
        n >= max_retries,
    ensures
        ({
            let acts = run(RetryState::initial(max_retries), repeated_failures(failure, n));
            &&& acts.len() == max_retries
            &&& forall|i: int|
                0 <= i < max_retries - 1 ==> acts[i] == RetryAction::Retry {
                    delay_ms: backoff_ms(i as nat) as u64,
                }
            &&& acts.last() == RetryAction::GiveUp(
                FetchError::ExhaustedRetries { attempts: max_retries, last: failure },
            )
        }),
{
    lemma_failures_from(RetryState::initial(max_retries), failure, n);
}

/// An endpoint that cannot serve the query ends the fetch at its first attempt,
/// with no retry, whatever later attempts would have returned.
pub proof fn lemma_unsupported_short_circuits(max_retries: u32, later: Seq<AttemptOutcome>)
    requires
        max_retries > 0,
    ensures
        run(
            RetryState::initial(max_retries),
            seq![AttemptOutcome::Failed(RemoteFailure::Unsupported)] + later,
        ) == seq![RetryAction::GiveUp(FetchError::UnsupportedByEndpoint)],
{
    let outcomes = seq![AttemptOutcome::Failed(RemoteFailure::Unsupported)] + later;
    assert(outcomes[0] == AttemptOutcome::Failed(RemoteFailure::Unsupported));
}

} // verus!
