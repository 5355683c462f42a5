//! The per-entry delivery machine: what one attempt's answer means, how
//! long to back off, and when an entry is given up.
use vstd::prelude::*;

verus! {

/// The status the chat service answers a delivered message with.
pub const STATUS_OK: u16 = 200;

/// The status the chat service answers with while it is rate limiting.
pub const STATUS_TOO_MANY_REQUESTS: u16 = 429;

/// Attempts made of one entry, at most, before it is given up.
pub const MAX_RETRIES: u32 = 3;

/// The backoff after the first rate-limited attempt; each further one doubles it.
pub const BASE_BACKOFF_MS: u64 = 1000;

/// Time allowed to connect to the chat service.
pub const CONNECT_TIMEOUT_SECS: u64 = 5;

/// Time allowed to one whole request to the chat service.
pub const REQUEST_TIMEOUT_SECS: u64 = 10;

/// What one delivery attempt came to.
#[derive(Clone, Debug)]
pub enum DeliveryOutcome {
    /// The message was accepted.
    Delivered,
    /// The service asked to slow down.
    RateLimited,
    /// Any other answer, or no answer: the status and body, or the
    /// transport error, as text.
    Failed { detail: String },
}

/// How an entry ended.
#[derive(PartialEq, Eq, Structural, Clone, Copy, Debug)]
pub enum EntryResult {
    Delivered,
    FailedFinal,
}

/// What follows an attempt.
pub enum Transition {
    /// Rate limited: wait `backoff_ms` and attempt again, with the retry
    /// counter now at `retries`.
    Retry { retries: u32, backoff_ms: u64 },
    /// The entry has reached a terminal state.
    Finished { result: EntryResult },
}

/// The nominal wait after the `counter`-th rate-limited attempt: one second,
/// doubled for each earlier one.
pub open spec fn nominal_backoff(counter: nat) -> nat
    decreases counter,
{
    if counter <= 1 {
        BASE_BACKOFF_MS as nat
    } else {
        2 * nominal_backoff((counter - 1) as nat)
    }
}

/// The transition table of one entry: from the retry counter and the
/// attempt's outcome.
pub open spec fn transition_of(retries: nat, outcome: DeliveryOutcome) -> Transition {
    match outcome {
        DeliveryOutcome::Delivered => Transition::Finished { result: EntryResult::Delivered },
        DeliveryOutcome::Failed { .. } => Transition::Finished { result: EntryResult::FailedFinal },
        DeliveryOutcome::RateLimited => {
            if retries + 1 >= MAX_RETRIES {
                Transition::Finished { result: EntryResult::FailedFinal }
            } else {
                Transition::Retry {
                    retries: (retries + 1) as u32,
                    backoff_ms: nominal_backoff(retries + 1) as u64,
                }
            }
        },
    }
}

/// Reads a status and body that the chat service answered with.
pub fn classify_response(status: u16, body: String) -> (r: DeliveryOutcome)
    ensures
        status == STATUS_OK ==> r is Delivered,
        status == STATUS_TOO_MANY_REQUESTS ==> r is RateLimited,
        status != STATUS_OK && status != STATUS_TOO_MANY_REQUESTS ==> r == (DeliveryOutcome::Failed { detail: body }),
{
    if status == STATUS_OK {
        DeliveryOutcome::Delivered
    } else if status == STATUS_TOO_MANY_REQUESTS {
        DeliveryOutcome::RateLimited
    } else {
        DeliveryOutcome::Failed { detail: body }
    }
}

/// The nominal wait after the `counter`-th rate-limited attempt.
pub fn backoff_ms(counter: u32) -> (r: u64)
    requires
        1 <= counter <= MAX_RETRIES,
    ensures
        r == nominal_backoff(counter as nat),
{
    proof {
        reveal_with_fuel(nominal_backoff, 3);
    }
    if counter == 1 {
        BASE_BACKOFF_MS
    } else if counter == 2 {
        2 * BASE_BACKOFF_MS
    } else {
        4 * BASE_BACKOFF_MS
    }
}

/// Decides what follows an attempt of an entry whose retry counter is
/// `retries`.
pub fn next_transition(retries: u32, outcome: &DeliveryOutcome) -> (t: Transition)
    requires
        retries < MAX_RETRIES,
    ensures
        t == transition_of(retries as nat, *outcome),
{
    match outcome {
        DeliveryOutcome::Delivered => Transition::Finished { result: EntryResult::Delivered },
        DeliveryOutcome::Failed { .. } => Transition::Finished { result: EntryResult::FailedFinal },
        DeliveryOutcome::RateLimited => {
            if retries + 1 >= MAX_RETRIES {
                Transition::Finished { result: EntryResult::FailedFinal }
            } else {
                Transition::Retry { retries: retries + 1, backoff_ms: backoff_ms(retries + 1) }
            }
        },
    }
}

/// Where a run of attempts against the answers `script` ends, from the
/// attempt numbered `attempt` (counted from zero) on: the entry's result and
/// the number of attempts made, or `None` where the answers run out first.
/// Every attempt before the last was rate limited, so the retry counter at
/// an attempt equals its number.
pub open spec fn run_from(script: Seq<DeliveryOutcome>, attempt: nat) -> Option<(EntryResult, nat)>
    decreases script.len() - attempt,
{
    if attempt >= script.len() {
        None
    } else {
        match transition_of(attempt, script[attempt as int]) {
            Transition::Finished { result } => Some((result, attempt + 1)),
            Transition::Retry { .. } => run_from(script, attempt + 1),
        }
    }
}

/// Where a whole run against the answers `script` ends.
pub open spec fn entry_run(script: Seq<DeliveryOutcome>) -> Option<(EntryResult, nat)> {
    run_from(script, 0)
}

/// The nominal backoffs waited, in order, before `n` retries.
pub open spec fn backoff_schedule(n: nat) -> Seq<u64> {
    Seq::new(n, |k: int| nominal_backoff((k + 1) as nat) as u64)
}

/// How the delivery of one entry went.
pub struct EntryReport {
    pub result: EntryResult,
    /// Attempts made, the last included.
    pub attempts: u32,
    /// The backoff before each retry, in order.
    pub backoffs_ms: Vec<u64>,
}

/// Drives one entry through its retry machine against a downstream that
/// answers the attempts, in order, with `script`. `None` where the answers
/// run out before the entry ends.
pub fn run_entry(script: &Vec<DeliveryOutcome>) -> (r: Option<EntryReport>)
    ensures
        match entry_run(script@) {
            None => r is None,
            Some((result, attempts)) => {
                &&& r is Some
                &&& r->0.result == result
                &&& r->0.attempts == attempts
                &&& r->0.backoffs_ms@ == backoff_schedule((attempts - 1) as nat)
            },
        },
{
    let mut retries: u32 = 0;
    let mut i: usize = 0;
    let mut backoffs: Vec<u64> = Vec::new();
    while i < script.len()
        invariant
            i == retries,
            retries < MAX_RETRIES,
            backoffs@ == backoff_schedule(i as nat),
            entry_run(script@) == run_from(script@, i as nat),
        decreases script.len() - i,
    {
        match next_transition(retries, &script[i]) {
            Transition::Retry { retries: next, backoff_ms } => {
                backoffs.push(backoff_ms);
                assert(backoffs@ =~= backoff_schedule((i + 1) as nat));
                retries = next;
                i = i + 1;
            },
            Transition::Finished { result } => {
                return Some(EntryReport { result, attempts: retries + 1, backoffs_ms: backoffs });
            },
        }
    }
    None
}

/// A downstream that accepts every message is attempted once per entry.
pub proof fn lemma_accepting_downstream_delivers_at_once(script: Seq<DeliveryOutcome>)
    requires
        script.len() >= 1,
        forall|k: int| 0 <= k < script.len() ==> #[trigger] script[k] is Delivered,
    ensures
        entry_run(script) == Some((EntryResult::Delivered, 1nat)),
{
    assert(script[0] is Delivered);
}

/// Two rate-limited answers and then an acceptance deliver the entry on the
/// third attempt, after backoffs of one and two seconds.
pub proof fn lemma_two_rate_limits_then_delivered(script: Seq<DeliveryOutcome>)
    requires
        script.len() >= 3,
        script[0] is RateLimited,
        script[1] is RateLimited,
        script[2] is Delivered,
    ensures
        entry_run(script) == Some((EntryResult::Delivered, 3nat)),
        backoff_schedule(2) == seq![1000u64, 2000u64],
{
    reveal_with_fuel(run_from, 3);
    reveal_with_fuel(nominal_backoff, 2);
    assert(backoff_schedule(2) =~= seq![1000u64, 2000u64]);
}

/// A downstream that always rate limits makes the entry fail after the
/// largest number of attempts, and never one more.
pub proof fn lemma_always_rate_limited_gives_up(script: Seq<DeliveryOutcome>)
    requires
        script.len() >= MAX_RETRIES,
        forall|k: int| 0 <= k < script.len() ==> #[trigger] script[k] is RateLimited,
    ensures
        entry_run(script) == Some((EntryResult::FailedFinal, MAX_RETRIES as nat)),
{
    reveal_with_fuel(run_from, 3);
    assert(script[0] is RateLimited);
    assert(script[1] is RateLimited);
    assert(script[2] is RateLimited);
}

/// Any other failure on the first attempt ends the entry there: no retry.
pub proof fn lemma_failure_is_not_retried(script: Seq<DeliveryOutcome>)
    requires
        script.len() >= 1,
        script[0] is Failed,
    ensures
        entry_run(script) == Some((EntryResult::FailedFinal, 1nat)),
{
}

} // verus!
