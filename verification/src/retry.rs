//! The transient-failure retry policy: which outcomes are retried, how
//! often, and when.

use crate::models::ErrorKind;
use reqwest_retry::policies::ExponentialBackoff;
use reqwest_retry::{RetryDecision, RetryPolicy as _};
use std::time::{Duration, SystemTime, UNIX_EPOCH};
use vstd::prelude::*;

verus! {

/// Retries granted to a request unless configured otherwise.
pub const DEFAULT_RETRIES: u32 = 5;

/// Shortest wait between two attempts, in milliseconds, unless configured
/// otherwise.
pub const DEFAULT_INITIAL_RETRY_INTERVAL_MS: u64 = 1000;

/// Longest wait between two attempts, in milliseconds, unless configured
/// otherwise.
pub const DEFAULT_MAX_RETRY_INTERVAL_MS: u64 = 10000;

/// Base of the exponential growth of the wait unless configured otherwise.
pub const DEFAULT_EXPONENTIAL_BASE: u32 = 2;

/// How the wait before a retry is randomised.
#[derive(Debug, Clone, Copy, PartialEq, Eq, Structural)]
pub enum Jitter {
    /// Not at all.
    Off,
    /// Between zero and the computed wait.
    Full,
    /// Between the shortest wait and the computed wait.
    Bounded,
}

/// The configuration of the retry policy, applied to each logical request.
#[derive(Debug, Clone, Copy, PartialEq, Eq, Structural)]
pub struct RetryPolicy {
    pub max_retries: u32,
    pub min_interval_ms: u64,
    pub max_interval_ms: u64,
    pub jitter: Jitter,
    pub base: u32,
}

/// How an attempt ended, as far as the policy cares.
#[derive(Debug, Clone, Copy, PartialEq, Eq, Structural)]
pub enum Retryable {
    /// The failure may pass: try again.
    Transient,
    /// The failure will not pass: report it.
    Fatal,
}

/// What the transport reports of one attempt.
#[derive(Debug, Clone, Copy, PartialEq, Eq, Structural)]
pub enum Attempt {
    /// A reply arrived, with this status code.
    Reply(u16),
    /// No reply arrived; `transient` says whether the cause may pass, as a
    /// timeout or a refused connection does.
    Failed { transient: bool },
}

/// What to do after an attempt.
#[derive(Debug, Clone, Copy, PartialEq, Eq, Structural)]
pub enum RetryAction {
    /// Hand the outcome of the attempt to the caller.
    Deliver,
    /// Send the request again, not before this time (milliseconds since the
    /// epoch).
    RetryAt(u64),
    /// Report the failure named: the retries are used up.
    GiveUp(ErrorKind),
}

/// The kind of step that follows an attempt.
#[derive(Debug, Clone, Copy, PartialEq, Eq, Structural)]
pub enum RetryStep {
    Deliver,
    Retry,
    GiveUp,
}

/// How a status code is classified: server errors, 408 and 429 are
/// transient, success is no failure, everything else is fatal.
pub open spec fn classify_status(status: u16) -> Option<Retryable> {
    if 500 <= status < 600 {
        Some(Retryable::Transient)
    } else if 400 <= status < 500 && status != 408 && status != 429 {
        Some(Retryable::Fatal)
    } else if 200 <= status < 300 {
        None
    } else if status == 408 || status == 429 {
        Some(Retryable::Transient)
    } else {
        Some(Retryable::Fatal)
    }
}

/// How an attempt is classified.
pub open spec fn classify(attempt: Attempt) -> Option<Retryable> {
    match attempt {
        Attempt::Reply(status) => classify_status(status),
        Attempt::Failed { transient } => if transient {
            Some(Retryable::Transient)
        } else {
            Some(Retryable::Fatal)
        },
    }
}

/// The step that follows an attempt which `retries` retries preceded.
pub open spec fn next_step(policy: RetryPolicy, retries: u32, attempt: Attempt) -> RetryStep {
    if classify(attempt) != Some(Retryable::Transient) {
        RetryStep::Deliver
    } else if retries < policy.max_retries {
        RetryStep::Retry
    } else {
        RetryStep::GiveUp
    }
}

/// The number of attempts made from the attempt after `retries` retries on,
/// where every attempt ends as `outcome` does.
pub open spec fn attempts_from(policy: RetryPolicy, retries: u32, outcome: Attempt) -> nat
    decreases policy.max_retries - retries,
{
    if next_step(policy, retries, outcome) == RetryStep::Retry && retries < u32::MAX {
        1 + attempts_from(policy, (retries + 1) as u32, outcome)
    } else {
        1
    }
}

/// The step at which a run ends that starts after `retries` retries and in
/// which every attempt ends as `outcome` does.
pub open spec fn last_step(policy: RetryPolicy, retries: u32, outcome: Attempt) -> RetryStep
    decreases policy.max_retries - retries,
{
    if next_step(policy, retries, outcome) == RetryStep::Retry && retries < u32::MAX {
        last_step(policy, (retries + 1) as u32, outcome)
    } else {
        next_step(policy, retries, outcome)
    }
}

impl RetryPolicy {
    /// Whether the configuration is one that the backoff computation
    /// accepts: the bounds in order, the shortest wait within 32 bits of
    /// milliseconds, and a base of at least one.
    pub open spec fn wf(self) -> bool {
        self.min_interval_ms <= self.max_interval_ms && self.min_interval_ms <= u32::MAX
            && self.base >= 1
    }

    /// The largest number of attempts that one request can take.
    pub open spec fn max_attempts(self) -> nat {
        (self.max_retries + 1) as nat
    }

    /// The policy of five retries, waits between one and ten seconds that
    /// double, and bounded jitter.
    pub fn standard() -> (r: RetryPolicy)
        ensures
            r == (RetryPolicy {
                max_retries: DEFAULT_RETRIES,
                min_interval_ms: DEFAULT_INITIAL_RETRY_INTERVAL_MS,
                max_interval_ms: DEFAULT_MAX_RETRY_INTERVAL_MS,
                jitter: Jitter::Bounded,
                base: DEFAULT_EXPONENTIAL_BASE,
            }),
            r.wf(),
    {
        RetryPolicy {
            max_retries: DEFAULT_RETRIES,
            min_interval_ms: DEFAULT_INITIAL_RETRY_INTERVAL_MS,
            max_interval_ms: DEFAULT_MAX_RETRY_INTERVAL_MS,
            jitter: Jitter::Bounded,
            base: DEFAULT_EXPONENTIAL_BASE,
        }
    }

    /// A policy with the given values, where they make a valid one.
    pub fn new(
        max_retries: u32,
        min_interval_ms: u64,
        max_interval_ms: u64,
        jitter: Jitter,
        base: u32,
    ) -> (r: Option<RetryPolicy>)
        ensures
            r == if (RetryPolicy { max_retries, min_interval_ms, max_interval_ms, jitter, base }).wf() {
                Some(RetryPolicy { max_retries, min_interval_ms, max_interval_ms, jitter, base })
            } else {
                None
            },
    {
        if min_interval_ms <= max_interval_ms && min_interval_ms <= 0xffff_ffff && base >= 1 {
            Some(RetryPolicy { max_retries, min_interval_ms, max_interval_ms, jitter, base })
        } else {
            None
        }
    }

    /// Whether the policy is valid.
    pub fn is_valid(&self) -> (r: bool)
        ensures
            r == self.wf(),
    {
        self.min_interval_ms <= self.max_interval_ms && self.min_interval_ms <= 0xffff_ffff
            && self.base >= 1
    }

    /// Decides what follows an attempt that `retries` retries preceded.
    ///
    /// An outcome that is no transient failure is delivered. A transient
    /// failure is retried while retries are left, and reported as
    /// `TransientNetwork` once they are used up.
    pub fn after_attempt(&self, retries: u32, attempt: Attempt) -> (r: RetryAction)
        requires
            self.wf(),
        ensures
            match next_step(*self, retries, attempt) {
                RetryStep::Deliver => r == RetryAction::Deliver,
                RetryStep::Retry => r is RetryAt,
                RetryStep::GiveUp => r == RetryAction::GiveUp(ErrorKind::TransientNetwork),
            },
    {
        match classify_attempt(attempt) {
            Some(Retryable::Transient) => match backoff_deadline(self, retries) {
                Some(at) => RetryAction::RetryAt(at),
                None => RetryAction::GiveUp(ErrorKind::TransientNetwork),
            },
            _ => RetryAction::Deliver,
        }
    }
}

/// Classifies the outcome of an attempt.
pub fn classify_attempt(attempt: Attempt) -> (r: Option<Retryable>)
    ensures
        r == classify(attempt),
{
    match attempt {
        Attempt::Reply(status) => {
            if 500 <= status && status < 600 {
                Some(Retryable::Transient)
            } else if 400 <= status && status < 500 && status != 408 && status != 429 {
                Some(Retryable::Fatal)
            } else if 200 <= status && status < 300 {
                None
            } else if status == 408 || status == 429 {
                Some(Retryable::Transient)
            } else {
                Some(Retryable::Fatal)
            }
        },
        Attempt::Failed { transient } => if transient {
            Some(Retryable::Transient)
        } else {
            Some(Retryable::Fatal)
        },
    }
}

/// Asks `ExponentialBackoff::should_retry` of the `retry-policies` crate
/// whether and when to retry after `retries` earlier retries.
///
/// The answer is `None` exactly when the retries are used up. The time of a
/// retry, in milliseconds since the epoch, depends on the clock and on
/// chance: nothing is claimed of it.
#[verifier::external_body]
fn backoff_deadline(policy: &RetryPolicy, retries: u32) -> (r: Option<u64>)
    requires
        policy.wf(),
    ensures
        r is Some <==> retries < policy.max_retries,
{
    let jitter = match policy.jitter {
        Jitter::Off => reqwest_retry::Jitter::None,
        Jitter::Full => reqwest_retry::Jitter::Full,
        Jitter::Bounded => reqwest_retry::Jitter::Bounded,
    };
    let (low, high) = (policy.min_interval_ms, policy.max_interval_ms);
    let backoff = ExponentialBackoff::builder()
        .retry_bounds(Duration::from_millis(low), Duration::from_millis(high))
        .jitter(jitter).base(policy.base).build_with_max_retries(policy.max_retries);
    match backoff.should_retry(SystemTime::now(), retries) {
        RetryDecision::Retry { execute_after } => Some(
            execute_after.duration_since(UNIX_EPOCH).unwrap_or_default().as_millis() as u64),
        RetryDecision::DoNotRetry => None,
    }
}

/// Against a transport on which every attempt fails transiently, a request
/// takes exactly `max_attempts` attempts and then gives up; it never goes on
/// for ever.
pub proof fn lemma_retry_bound(policy: RetryPolicy, outcome: Attempt)
    requires
        classify(outcome) == Some(Retryable::Transient),
    ensures
        attempts_from(policy, 0, outcome) == policy.max_attempts(),
        last_step(policy, 0, outcome) == RetryStep::GiveUp,
{
    lemma_retry_bound_from(policy, 0, outcome);
}

/// The attempts left after `retries` retries against a transport on which
/// every attempt fails transiently.
pub proof fn lemma_retry_bound_from(policy: RetryPolicy, retries: u32, outcome: Attempt)
    requires
        classify(outcome) == Some(Retryable::Transient),
        retries <= policy.max_retries,
    ensures
        attempts_from(policy, retries, outcome) == policy.max_retries - retries + 1,
        last_step(policy, retries, outcome) == RetryStep::GiveUp,
    decreases policy.max_retries - retries,
{
    if retries < policy.max_retries {
        lemma_retry_bound_from(policy, (retries + 1) as u32, outcome);
    }
}

/// An outcome that is no transient failure ends the run at once.
pub proof fn lemma_no_retry_without_transient_failure(
    policy: RetryPolicy,
    retries: u32,
    outcome: Attempt,
)
    requires
        classify(outcome) != Some(Retryable::Transient),
    ensures
        attempts_from(policy, retries, outcome) == 1,
        last_step(policy, retries, outcome) == RetryStep::Deliver,
{
}

} // verus!
