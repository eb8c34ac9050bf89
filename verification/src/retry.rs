//! Bounded retry with an attempt-indexed backoff schedule, used by
//! network-transport sinks: each write attempt is classified as success,
//! retryable failure (server-side 5xx, connection-establishment failure, or
//! timeout) or terminal failure (anything else). Retryable failures are
//! retried after a scheduled delay up to a fixed attempt count; a terminal
//! failure aborts at once; running out of attempts surfaces a failure
//! distinct from a single-attempt rejection.

use vstd::prelude::*;

verus! {

/// The observable outcome of one write attempt, as the transport reports it.
#[derive(Debug, Clone, Copy, PartialEq, Eq, Structural)]
pub enum AttemptOutcome {
    /// The backend answered with this HTTP-style status code.
    Status(u16),
    /// No connection to the backend could be established.
    ConnectFailure,
    /// The attempt timed out.
    Timeout,
}

/// How the policy treats one outcome.
#[derive(Debug, Clone, Copy, PartialEq, Eq, Structural)]
pub enum OutcomeClass {
    Success,
    Retryable,
    Terminal,
}

/// The classification rule: 2xx succeeds; 5xx, connection failures and
/// timeouts are retryable; every other status is terminal.
pub open spec fn classify_spec(o: AttemptOutcome) -> OutcomeClass {
    match o {
        AttemptOutcome::Status(s) => if 200 <= s < 300 {
            OutcomeClass::Success
        } else if 500 <= s < 600 {
            OutcomeClass::Retryable
        } else {
            OutcomeClass::Terminal
        },
        AttemptOutcome::ConnectFailure => OutcomeClass::Retryable,
        AttemptOutcome::Timeout => OutcomeClass::Retryable,
    }
}

/// Classifies one attempt outcome.
pub fn classify(o: AttemptOutcome) -> (r: OutcomeClass)
    ensures
        r == classify_spec(o),
{
    match o {
        AttemptOutcome::Status(s) => {
            if 200 <= s && s < 300 {
                OutcomeClass::Success
            } else if 500 <= s && s < 600 {
                OutcomeClass::Retryable
            } else {
                OutcomeClass::Terminal
            }
        },
        AttemptOutcome::ConnectFailure => OutcomeClass::Retryable,
        AttemptOutcome::Timeout => OutcomeClass::Retryable,
    }
}

/// A bounded-retry policy: a maximum attempt count and a fixed increasing
/// delay schedule that holds at its last value for further attempts.
#[derive(Debug, Clone)]
pub struct RetryPolicy {
    pub max_attempts: usize,
    pub delays_ms: Vec<u64>,
}

/// The delay slept after the attempt with the given zero-based index: the
/// schedule entry at that index, holding at the last entry.
pub open spec fn backoff_of(delays: Seq<u64>, attempt: nat) -> u64 {
    if attempt < delays.len() {
        delays[attempt as int]
    } else {
        delays.last()
    }
}

impl RetryPolicy {
    /// Well-formedness: at least one attempt and a nonempty schedule.
    pub open spec fn wf(&self) -> bool {
        self.max_attempts >= 1 && self.delays_ms@.len() >= 1
    }

    /// The standard policy for network sinks: three attempts, sleeping
    /// 200 ms after the first failure and 500 ms after later ones.
    pub fn standard() -> (r: RetryPolicy)
        ensures
            r.wf(),
            r.max_attempts == 3,
            r.delays_ms@ == seq![200u64, 500u64],
    {
        let mut delays: Vec<u64> = Vec::new();
        delays.push(200);
        delays.push(500);
        proof {
            assert(delays@ =~= seq![200u64, 500u64]);
        }
        RetryPolicy { max_attempts: 3, delays_ms: delays }
    }

    /// The backoff delay after the attempt with the given zero-based index.
    pub fn backoff_delay(&self, attempt: usize) -> (r: u64)
        requires
            self.wf(),
        ensures
            r == backoff_of(self.delays_ms@, attempt as nat),
    {
        if attempt < self.delays_ms.len() {
            self.delays_ms[attempt]
        } else {
            self.delays_ms[self.delays_ms.len() - 1]
        }
    }
}

/// What the caller of a retried write learns: distinct outcomes for success,
/// an immediately-rejected (terminal) attempt, and a run that exhausted all
/// attempts on retryable failures.
#[derive(Debug, Clone, Copy, PartialEq, Eq, Structural)]
pub enum RetryOutcome {
    Succeeded,
    TerminalFailure,
    RetriesExhausted,
}

/// What the driving loop does after one attempt.
#[derive(Debug, Clone, Copy, PartialEq, Eq, Structural)]
pub enum RetryDecision {
    /// The write succeeded; stop.
    Done,
    /// Terminal failure; abort immediately without further attempts.
    Fail,
    /// Retryable failure on the last allowed attempt; give up.
    FailExhausted,
    /// Retryable failure; sleep this many milliseconds and try again.
    RetryAfter(u64),
}

/// Decides what follows the attempt with the given zero-based index: stop on
/// success, abort on a terminal failure, and on a retryable failure either
/// schedule the indexed backoff delay or, on the last allowed attempt,
/// give up.
pub fn decide(policy: &RetryPolicy, attempt_index: usize, outcome: AttemptOutcome) -> (r:
    RetryDecision)
    requires
        policy.wf(),
        attempt_index < policy.max_attempts,
    ensures
        classify_spec(outcome) == OutcomeClass::Success ==> r == RetryDecision::Done,
        classify_spec(outcome) == OutcomeClass::Terminal ==> r == RetryDecision::Fail,
        classify_spec(outcome) == OutcomeClass::Retryable ==> r == (if attempt_index + 1
            == policy.max_attempts {
            RetryDecision::FailExhausted
        } else {
            RetryDecision::RetryAfter(backoff_of(policy.delays_ms@, attempt_index as nat))
        }),
{
    match classify(outcome) {
        OutcomeClass::Success => RetryDecision::Done,
        OutcomeClass::Terminal => RetryDecision::Fail,
        OutcomeClass::Retryable => {
            if attempt_index + 1 == policy.max_attempts {
                RetryDecision::FailExhausted
            } else {
                RetryDecision::RetryAfter(policy.backoff_delay(attempt_index))
            }
        },
    }
}

/// The result and attempt count of running the policy against the outcomes
/// the backend would return, attempt by attempt: stop at the first success
/// or terminal failure; keep retrying on retryable failures while attempts
/// remain.
pub open spec fn run_spec(outcomes: Seq<AttemptOutcome>, max: nat) -> (RetryOutcome, nat)
    decreases max,
{
    if max == 0 || outcomes.len() == 0 {
        (RetryOutcome::RetriesExhausted, 0)
    } else {
        match classify_spec(outcomes[0]) {
            OutcomeClass::Success => (RetryOutcome::Succeeded, 1),
            OutcomeClass::Terminal => (RetryOutcome::TerminalFailure, 1),
            OutcomeClass::Retryable => {
                if max == 1 {
                    (RetryOutcome::RetriesExhausted, 1)
                } else {
                    let rest = run_spec(outcomes.drop_first(), (max - 1) as nat);
                    (rest.0, rest.1 + 1)
                }
            },
        }
    }
}

/// Runs the policy against a scripted sequence of attempt outcomes (the
/// outcome at index `i` is what attempt `i + 1` would observe) and reports
/// the final result together with how many attempts were made.
pub fn run_policy(policy: &RetryPolicy, outcomes: &Vec<AttemptOutcome>) -> (r: (
    RetryOutcome,
    usize,
))
    requires
        policy.wf(),
        outcomes@.len() >= policy.max_attempts,
    ensures
        r.0 == run_spec(outcomes@, policy.max_attempts as nat).0,
        r.1 == run_spec(outcomes@, policy.max_attempts as nat).1,
        1 <= r.1 <= policy.max_attempts,
{
    let ghost full = outcomes@;
    let max = policy.max_attempts;
    let mut i: usize = 0;
    proof {
        assert(full.skip(0) =~= full);
    }
    while i < max
        invariant
            policy.wf(),
            full == outcomes@,
            full.len() >= max,
            max == policy.max_attempts,
            i < max,
            run_spec(full, max as nat).0 == run_spec(full.skip(i as int), (max - i) as nat).0,
            run_spec(full, max as nat).1 == run_spec(full.skip(i as int), (max - i) as nat).1 + i,
        decreases max - i,
    {
        let outcome = outcomes[i];
        proof {
            assert(full.skip(i as int)[0] == full[i as int]);
            assert(full.skip(i as int).drop_first() =~= full.skip(i + 1));
        }
        match decide(policy, i, outcome) {
            RetryDecision::Done => {
                return (RetryOutcome::Succeeded, i + 1);
            },
            RetryDecision::Fail => {
                return (RetryOutcome::TerminalFailure, i + 1);
            },
            RetryDecision::FailExhausted => {
                return (RetryOutcome::RetriesExhausted, i + 1);
            },
            RetryDecision::RetryAfter(_delay) => {
                i = i + 1;
            },
        }
    }
    (RetryOutcome::RetriesExhausted, max)
}

/// A run always makes at least one and at most `max` attempts.
pub proof fn lemma_run_spec_range(outcomes: Seq<AttemptOutcome>, max: nat)
    requires
        max >= 1,
        outcomes.len() >= max,
    ensures
        1 <= run_spec(outcomes, max).1 <= max,
    decreases max,
{
    if max > 1 {
        match classify_spec(outcomes[0]) {
            OutcomeClass::Retryable => {
                lemma_run_spec_range(outcomes.drop_first(), (max - 1) as nat);
            },
            _ => {},
        }
    }
}

} // verus!
