//! Retrying a request until it succeeds or a retry budget is spent.

use vstd::prelude::*;

verus! {

/// A request to send.
#[derive(Debug, Clone)]
pub struct Request;

/// The answer to a request.
#[derive(Debug, Clone)]
pub struct Response;

/// Something that sends requests and may fail.  Implementors choose the
/// error type (such as `Box<dyn std::error::Error>`).
pub trait Client {
    type Error;

    fn call(&self, request: &Request) -> Result<Response, Self::Error>;
}

/// What to do after one attempt.
pub enum RetryDecision<E> {
    /// Stop and hand back this outcome.
    Finish(Result<Response, E>),
    /// Send the request again.
    Retry,
}

/// The decision after an attempt with `outcome`, when `n_retries` retries
/// have been made already and at most `max_n_retries` are allowed.
pub open spec fn retry_decision_spec<E>(
    n_retries: int,
    max_n_retries: int,
    outcome: Result<Response, E>,
) -> RetryDecision<E> {
    match outcome {
        Ok(r) => RetryDecision::Finish(Ok(r)),
        Err(e) => if n_retries == max_n_retries {
            RetryDecision::Finish(Err(e))
        } else {
            RetryDecision::Retry
        },
    }
}

/// Decides what follows an attempt with `outcome`: a success is handed
/// back, a failure is handed back once the retries are spent, and
/// otherwise the request is sent again.
pub fn retry_decision<E>(n_retries: usize, max_n_retries: usize, outcome: Result<Response, E>) -> (d: RetryDecision<E>)
    ensures
        d == retry_decision_spec(n_retries as int, max_n_retries as int, outcome),
{
    match outcome {
        Ok(r) => RetryDecision::Finish(Ok(r)),
        Err(e) => if n_retries == max_n_retries {
            RetryDecision::Finish(Err(e))
        } else {
            RetryDecision::Retry
        },
    }
}

/// `attempts` are answers that `client` may give when it is called with
/// `request`: each is an outcome that its `call` can return.
pub open spec fn possible_answers<C: Client>(
    client: C,
    request: Request,
    attempts: Seq<Result<Response, C::Error>>,
) -> bool {
    forall|i: int| 0 <= i < attempts.len() ==> call_ensures(C::call, (&client, &request), #[trigger] attempts[i])
}

/// `r` is what retrying hands back after the calls that answered `attempts`,
/// in order: every call but the last failed, the number of retries is the
/// number of those failures, and the outcome is the last call's answer.
pub open spec fn retried_over<E>(attempts: Seq<Result<Response, E>>, r: (Result<Response, E>, usize)) -> bool {
    &&& attempts.len() == r.1 + 1
    &&& forall|i: int| 0 <= i < r.1 ==> #[trigger] attempts[i] is Err
    &&& attempts[r.1 as int] == r.0
}

/// Retry a request until it succeeds or the maximum number of retries is
/// reached.  It always returns the number of retries that have been
/// attempted: the client is called with `request` until it answers with a
/// success or `max_n_retries` retries have failed, and the last answer is
/// handed back with the number of failed calls before it.
pub fn with_retries<C: Client>(request: Request, client: C, max_n_retries: usize) -> (r: (
    Result<Response, C::Error>,
    usize,
))
    ensures
        r.1 <= max_n_retries,
        r.0 is Err ==> r.1 == max_n_retries,
        call_ensures(C::call, (&client, &request), r.0),
        exists|attempts: Seq<Result<Response, C::Error>>|
            possible_answers(client, request, attempts) && retried_over(attempts, r),
{
    let mut n_retries: usize = 0;
    let ghost mut failures: Seq<Result<Response, C::Error>> = Seq::empty();
    loop
        invariant
            n_retries <= max_n_retries,
            failures.len() == n_retries,
            possible_answers(client, request, failures),
            forall|i: int| 0 <= i < failures.len() ==> #[trigger] failures[i] is Err,
        decreases max_n_retries - n_retries,
    {
        let outcome = client.call(&request);
        let ghost answer = outcome;
        match retry_decision(n_retries, max_n_retries, outcome) {
            RetryDecision::Finish(result) => {
                let ghost attempts = failures.push(answer);
                assert(attempts[n_retries as int] == result);
                assert(possible_answers(client, request, attempts));
                assert(retried_over(attempts, (result, n_retries)));
                return (result, n_retries);
            },
            RetryDecision::Retry => {
                proof {
                    failures = failures.push(answer);
                }
                n_retries = n_retries + 1;
            },
        }
    }
}

} // verus!
