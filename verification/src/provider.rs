//! The provider abstraction: structured provider errors with their
//! classification by HTTP status, model resolution, and the rate-limit
//! retry policy as a pure run over attempt outcomes.

use vstd::prelude::*;
use crate::chat::ChatRequest;
use crate::chat::ChatResponse;
use crate::strutil::{dec_digits, u64_to_string};

verus! {

/// A backend that completes chat requests. Concrete providers live
/// outside the library (the calls are network I/O); the chain logic here
/// is stated over the outcomes such a provider produces.
pub trait Provider {
    /// Sends one chat request and returns the response or the error.
    fn complete(&self, request: &ChatRequest) -> Result<ChatResponse, ProviderError>;

    /// A short name for the provider.
    fn name(&self) -> String;

    /// A cheap, local availability check, such as credential presence.
    fn is_available(&self) -> bool;
}

/// The kind of a provider failure. Rate limits are the one retryable
/// kind.
#[derive(Debug, Clone, Copy, PartialEq, Eq, Structural)]
pub enum ErrorCategory {
    /// Rejected credential (HTTP 401 or 403).
    Authentication,
    /// Too many requests (HTTP 429); retried with backoff.
    RateLimit,
    /// The request timed out (HTTP 408 or 504).
    Timeout,
    /// Any other non-success HTTP status.
    Api,
    /// The request could not be sent or answered at the transport level.
    Network,
    /// The response could not be decoded.
    Parse,
}

/// A structured provider failure: its kind, the HTTP status when one was
/// received, and a human-readable message.
#[derive(Debug, Clone, PartialEq, Eq)]
pub struct ProviderError {
    /// The kind of failure.
    pub category: ErrorCategory,
    /// The HTTP status, when the failure came from a response.
    pub status: Option<u16>,
    /// A human-readable description carrying the raw body text.
    pub message: String,
}

/// The failure kind a non-success HTTP status falls under.
pub open spec fn classify_status(status: u16) -> ErrorCategory {
    if status == 401 || status == 403 {
        ErrorCategory::Authentication
    } else if status == 429 {
        ErrorCategory::RateLimit
    } else if status == 408 || status == 504 {
        ErrorCategory::Timeout
    } else {
        ErrorCategory::Api
    }
}

/// The message text of a status-classified error.
pub open spec fn status_error_message(status: u16, body: Seq<char>) -> Seq<char> {
    if status == 401 || status == 403 {
        "Authentication error ("@ + dec_digits(status as int)
            + "): Invalid or missing API key. "@ + body
    } else if status == 429 {
        "Rate limit error ("@ + dec_digits(status as int) + "): Too many requests. "@ + body
    } else if status == 408 || status == 504 {
        "Timeout error ("@ + dec_digits(status as int) + "): Request timed out. "@ + body
    } else {
        "API error ("@ + dec_digits(status as int) + "): "@ + body
    }
}

/// Builds the structured error for a non-success HTTP response: the
/// category follows the status code, and the message names the category,
/// the status and the raw body.
pub fn error_from_status(status: u16, body: &str) -> (r: ProviderError)
    ensures
        r.category == classify_status(status),
        r.status == Some(status),
        r.message@ == status_error_message(status, body@),
{
    let num = u64_to_string(status as u64);
    let mut msg = String::new();
    let category: ErrorCategory = if status == 401 || status == 403 {
        msg.append("Authentication error (");
        msg.append(num.as_str());
        msg.append("): Invalid or missing API key. ");
        ErrorCategory::Authentication
    } else if status == 429 {
        msg.append("Rate limit error (");
        msg.append(num.as_str());
        msg.append("): Too many requests. ");
        ErrorCategory::RateLimit
    } else if status == 408 || status == 504 {
        msg.append("Timeout error (");
        msg.append(num.as_str());
        msg.append("): Request timed out. ");
        ErrorCategory::Timeout
    } else {
        msg.append("API error (");
        msg.append(num.as_str());
        msg.append("): ");
        ErrorCategory::Api
    };
    msg.append(body);
    ProviderError { category, status: Some(status), message: msg }
}

/// Whether an error is retried: only rate limits are.
pub fn is_rate_limited(e: &ProviderError) -> (r: bool)
    ensures
        r == (e.category is RateLimit),
{
    match e.category {
        ErrorCategory::RateLimit => true,
        _ => false,
    }
}

/// The model sent with a request: the request's own model wins, then the
/// provider's configured default, then the hard-coded fallback.
pub open spec fn resolve_model_spec(
    request_model: Option<Seq<char>>,
    default_model: Option<Seq<char>>,
) -> Seq<char> {
    match request_model {
        Some(m) => m,
        None => match default_model {
            Some(m) => m,
            None => "qwen/qwen3-coder"@,
        },
    }
}

/// Resolves the model for one request: explicit request model, else the
/// provider's configured model, else the hard-coded fallback.
pub fn resolve_model(request_model: Option<String>, default_model: Option<String>) -> (r: String)
    ensures
        r@ == resolve_model_spec(
            match request_model {
                Some(m) => Some(m@),
                None => None,
            },
            match default_model {
                Some(m) => Some(m@),
                None => None,
            },
        ),
{
    match request_model {
        Some(m) => m,
        None => match default_model {
            Some(m) => m,
            None => "qwen/qwen3-coder".to_owned(),
        },
    }
}

pub(crate) fn clone_opt_string(o: &Option<String>) -> (c: Option<String>)
    ensures
        c == *o,
{
    match o {
        Some(m) => Some(m.clone()),
        None => None,
    }
}

/// A field-wise copy of a response.
pub fn clone_response(r: &ChatResponse) -> (c: ChatResponse)
    ensures
        c == *r,
{
    ChatResponse { content: r.content.clone(), model: clone_opt_string(&r.model), usage: r.usage }
}

/// A field-wise copy of a provider error.
pub fn clone_error(e: &ProviderError) -> (c: ProviderError)
    ensures
        c == *e,
{
    ProviderError { category: e.category, status: e.status, message: e.message.clone() }
}

/// Outcome of one attempt of a provider call, as the caller observed it.
#[derive(Debug, Clone, PartialEq, Eq)]
pub enum CallOutcome {
    /// The call returned a response.
    Success(ChatResponse),
    /// The call failed with the carried error.
    Failure(ProviderError),
}

pub(crate) fn clone_outcome(o: &CallOutcome) -> (c: CallOutcome)
    ensures
        c == *o,
{
    match o {
        CallOutcome::Success(resp) => CallOutcome::Success(clone_response(resp)),
        CallOutcome::Failure(e) => CallOutcome::Failure(clone_error(e)),
    }
}

/// The retry run over a sequence of attempt outcomes, with `retries`
/// retries left and `delay` seconds before the next one: an attempt that
/// succeeds ends the run; a rate-limited failure with retries left sleeps
/// for `delay`, doubles it, and tries again; any other failure ends the
/// run at once. Yields the final result and the delays slept, in order.
pub open spec fn retry_run(
    outcomes: Seq<CallOutcome>,
    retries: int,
    delay: int,
) -> (Result<ChatResponse, ProviderError>, Seq<int>)
    decreases outcomes.len(),
{
    if outcomes.len() == 0 {
        (Err(arbitrary()), Seq::empty())
    } else {
        match outcomes.first() {
            CallOutcome::Success(resp) => (Ok(resp), Seq::empty()),
            CallOutcome::Failure(e) => {
                if e.category is RateLimit && retries > 0 {
                    let rest = retry_run(outcomes.drop_first(), retries - 1, delay * 2);
                    (rest.0, seq![delay] + rest.1)
                } else {
                    (Err(e), Seq::empty())
                }
            },
        }
    }
}

/// How many retries a provider call makes on rate limits.
pub open spec fn max_retries() -> int {
    3
}

/// What one attempt outcome resolves to in the retry loop.
#[derive(Debug, PartialEq, Eq)]
pub enum RetryStep {
    /// The call is over, with this result.
    Done(Result<ChatResponse, ProviderError>),
    /// Sleep for `sleep_secs`, then try again with the carried budget.
    Retry { sleep_secs: u64, retries: u64, delay: u64 },
}

/// Advances the retry loop by one attempt outcome: success ends the call;
/// a rate-limited failure with retries left sleeps for the current delay
/// and doubles it; any other failure ends the call at once. Each arm is
/// one arm of `retry_run`.
pub fn retry_step(retries: u64, delay: u64, outcome: CallOutcome) -> (r: RetryStep)
    requires
        delay <= 0x7fff_ffff_ffff_ffff,
    ensures
        match outcome {
            CallOutcome::Success(resp) => r == RetryStep::Done(
                Ok::<ChatResponse, ProviderError>(resp),
            ),
            CallOutcome::Failure(e) => if e.category is RateLimit && retries > 0 {
                r == (RetryStep::Retry {
                    sleep_secs: delay,
                    retries: (retries - 1) as u64,
                    delay: (delay * 2) as u64,
                })
            } else {
                r == RetryStep::Done(Err::<ChatResponse, ProviderError>(e))
            },
        },
{
    match outcome {
        CallOutcome::Success(resp) => RetryStep::Done(Ok(resp)),
        CallOutcome::Failure(e) => {
            if is_rate_limited(&e) && retries > 0 {
                RetryStep::Retry { sleep_secs: delay, retries: retries - 1, delay: delay * 2 }
            } else {
                RetryStep::Done(Err(e))
            }
        },
    }
}

/// One step of the retry loop agrees with the whole run: the first
/// outcome either ends the run with the stepped result, or the run is the
/// rest of the outcomes under the stepped budget, with the slept delay
/// prepended.
pub proof fn lemma_retry_step_consistent(outcomes: Seq<CallOutcome>, retries: int, delay: int)
    requires
        outcomes.len() > 0,
    ensures
        match outcomes.first() {
            CallOutcome::Success(resp) => retry_run(outcomes, retries, delay) == (
                Ok::<ChatResponse, ProviderError>(resp),
                Seq::<int>::empty(),
            ),
            CallOutcome::Failure(e) => if e.category is RateLimit && retries > 0 {
                retry_run(outcomes, retries, delay) == (
                    retry_run(outcomes.drop_first(), retries - 1, delay * 2).0,
                    seq![delay] + retry_run(outcomes.drop_first(), retries - 1, delay * 2).1,
                )
            } else {
                retry_run(outcomes, retries, delay) == (
                    Err::<ChatResponse, ProviderError>(e),
                    Seq::<int>::empty(),
                )
            },
        },
{
}

/// Runs the retry policy over the outcomes of successive attempts of one
/// provider call, driving `retry_step` over them: at most three retries,
/// each only after a rate-limited failure, with delays of 1, 2 and 4
/// seconds. Returns the final result and the delays that were slept.
/// `outcomes[i]` is what attempt `i` returned; at most four are looked
/// at.
pub fn complete_with_retry(outcomes: &Vec<CallOutcome>) -> (r: (
    Result<ChatResponse, ProviderError>,
    Vec<u64>,
))
    requires
        outcomes@.len() >= 4,
    ensures
        (r.0, r.1@.map_values(|d: u64| d as int)) == retry_run(outcomes@, max_retries(), 1),
{
    let mut delays: Vec<u64> = Vec::new();
    let mut retries: u64 = 3;
    let mut delay: u64 = 1;
    let mut i: usize = 0;
    proof {
        assert(outcomes@.skip(0) =~= outcomes@);
        assert(delays@.map_values(|d: u64| d as int) =~= Seq::<int>::empty());
    }
    loop
        invariant
            0 <= i <= outcomes@.len(),
            outcomes@.len() >= 4,
            retries == 3 - i,
            i <= 3,
            delay == (if i == 0 { 1int } else if i == 1 { 2int } else if i == 2 { 4int } else { 8int }),
            retry_run(outcomes@, max_retries(), 1) == {
                let rest = retry_run(outcomes@.skip(i as int), retries as int, delay as int);
                (rest.0, delays@.map_values(|d: u64| d as int) + rest.1)
            },
        decreases outcomes@.len() - i,
    {
        let ghost rest_seq = outcomes@.skip(i as int);
        proof {
            assert(rest_seq.len() > 0);
            assert(rest_seq.first() == outcomes@[i as int]);
            assert(rest_seq.drop_first() =~= outcomes@.skip(i + 1));
        }
        match retry_step(retries, delay, clone_outcome(&outcomes[i])) {
            RetryStep::Done(res) => {
                proof {
                    assert(delays@.map_values(|d: u64| d as int) + Seq::<int>::empty()
                        =~= delays@.map_values(|d: u64| d as int));
                }
                return (res, delays);
            },
            RetryStep::Retry { sleep_secs, retries: retries_left, delay: next_delay } => {
                let ghost before = delays@.map_values(|d: u64| d as int);
                delays.push(sleep_secs);
                retries = retries_left;
                proof {
                    assert(delays@.map_values(|d: u64| d as int) =~= before + seq![
                        sleep_secs as int,
                    ]);
                }
                delay = next_delay;
                i = i + 1;
            },
        }
    }
}

/// A provider failing with a rate-limit signature exactly twice and then
/// succeeding returns the success after exactly two delays, of 1 and 2
/// seconds.
pub proof fn lemma_rate_limit_twice_then_success(
    outcomes: Seq<CallOutcome>,
    e0: ProviderError,
    e1: ProviderError,
    resp: ChatResponse,
)
    requires
        outcomes.len() >= 3,
        outcomes[0] == CallOutcome::Failure(e0),
        e0.category is RateLimit,
        outcomes[1] == CallOutcome::Failure(e1),
        e1.category is RateLimit,
        outcomes[2] == CallOutcome::Success(resp),
    ensures
        retry_run(outcomes, max_retries(), 1) == (
            Ok::<ChatResponse, ProviderError>(resp),
            seq![1int, 2int],
        ),
{
    let o1 = outcomes.drop_first();
    let o2 = o1.drop_first();
    assert(o1.first() == outcomes[1]);
    assert(o2.first() == outcomes[2]);
    assert(retry_run(o2, 1, 4) == (Ok::<ChatResponse, ProviderError>(resp), Seq::<int>::empty()));
    assert(retry_run(o1, 2, 2).0 == Ok::<ChatResponse, ProviderError>(resp));
    assert(retry_run(o1, 2, 2).1 =~= seq![2int]);
    assert(retry_run(outcomes, 3, 1).0 == Ok::<ChatResponse, ProviderError>(resp));
    assert(retry_run(outcomes, 3, 1).1 =~= seq![1int, 2int]);
}

/// A provider that fails with anything but a rate limit is never retried:
/// a single attempt, no delays.
pub proof fn lemma_non_rate_limit_not_retried(outcomes: Seq<CallOutcome>, e: ProviderError)
    requires
        outcomes.len() >= 1,
        outcomes[0] == CallOutcome::Failure(e),
        !(e.category is RateLimit),
    ensures
        retry_run(outcomes, max_retries(), 1) == (
            Err::<ChatResponse, ProviderError>(e),
            Seq::<int>::empty(),
        ),
{
}

} // verus!
