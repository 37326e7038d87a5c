//! The request execution engine: builds the request plan for one logical
//! call (URL resolution, auth and identity headers, optional JSON body),
//! interprets the response status, and decides when a failed exchange is
//! retried and with which backoff delay. The application drives the actual
//! transport and feeds each attempt's outcome back into the engine.

use vstd::prelude::*;
use crate::config::Config;
use crate::config::spec_normalized_base;
use crate::error::Error;
use crate::error::ErrorEnvelope;
use crate::error::spec_classify;
use crate::urls::build_url;
use crate::urls::spec_full_url;

verus! {

/// The HTTP methods the API uses.
#[derive(Debug, Clone, Copy, PartialEq, Eq, Structural)]
pub enum HttpMethod {
    Get,
    Post,
}

/// Everything the transport needs to perform one attempt of a logical call:
/// the method, the fully assembled URL, the headers in order, and the JSON
/// body text when there is one.
#[derive(Debug, Clone)]
pub struct RequestPlan {
    pub method: HttpMethod,
    pub url: String,
    pub headers: Vec<(String, String)>,
    pub body: Option<String>,
}

/// `s` with every leading `/` removed.
pub open spec fn spec_strip_leading_slashes(s: Seq<char>) -> Seq<char>
    decreases s.len(),
{
    if s.len() > 0 && s[0] == '/' {
        spec_strip_leading_slashes(s.drop_first())
    } else {
        s
    }
}

proof fn lemma_strip_skip(s: Seq<char>, i: int)
    requires
        0 <= i <= s.len(),
        forall|j: int| 0 <= j < i ==> s[j] == '/',
    ensures
        spec_strip_leading_slashes(s) == spec_strip_leading_slashes(s.skip(i)),
    decreases i,
{
    if i > 0 {
        assert(s.len() > 0 && s[0] == '/');
        assert(s.drop_first() =~= s.skip(1));
        lemma_strip_skip(s.skip(1), i - 1);
        assert(s.skip(1).skip(i - 1) =~= s.skip(i));
    } else {
        assert(s.skip(0) =~= s);
    }
}

/// Remove every leading path separator, so the path can be resolved as a
/// relative reference against the base URL.
pub fn strip_leading_slashes(s: &str) -> (r: &str)
    ensures
        r@ == spec_strip_leading_slashes(s@),
{
    let n = s.unicode_len();
    let mut i: usize = 0;
    while i < n && s.get_char(i) == '/'
        invariant
            i <= n,
            n == s@.len(),
            forall|j: int| 0 <= j < i ==> s@[j] == '/',
        decreases n - i,
    {
        i = i + 1;
    }
    let r = s.substring_char(i, n);
    proof {
        lemma_strip_skip(s@, i as int);
        assert(s@.skip(i as int) =~= s@.subrange(i as int, n as int));
        if i < n {
            assert(s@.skip(i as int)[0] == s@[i as int]);
            assert(s@[i as int] != '/');
        }
    }
    r
}

/// The headers attached to every request, in order: bearer authorization,
/// the identifying user agent, `Accept: application/json`, and — only when
/// a body is present — `Content-Type: application/json`.
pub open spec fn spec_headers(
    access_token: Seq<char>,
    user_agent: Seq<char>,
    has_body: bool,
) -> Seq<(Seq<char>, Seq<char>)> {
    let common = seq![
        ("Authorization"@, "Bearer "@ + access_token),
        ("User-Agent"@, user_agent),
        ("Accept"@, "application/json"@),
    ];
    if has_body {
        common.push(("Content-Type"@, "application/json"@))
    } else {
        common
    }
}

/// Build the request plan for one logical call: resolve `path` (leading
/// separators stripped) against the configuration's normalized base URL,
/// append the encoded query pairs, and attach the standard headers. Fails
/// with a URL error exactly when the resolution fails.
pub fn build_request(
    config: &Config,
    method: HttpMethod,
    path: &str,
    query: &Vec<(String, String)>,
    body: Option<String>,
) -> (r: Result<RequestPlan, Error>)
    ensures
        r is Ok <==> spec_full_url(
            spec_normalized_base(config.base_url@),
            spec_strip_leading_slashes(path@),
            query.deep_view(),
        ) is Some,
        r matches Ok(plan) ==> plan.method == method && plan.body == body && Some(plan.url@)
            == spec_full_url(
            spec_normalized_base(config.base_url@),
            spec_strip_leading_slashes(path@),
            query.deep_view(),
        ) && plan.headers.deep_view() == spec_headers(
            config.access_token@,
            config.user_agent@,
            body is Some,
        ),
        r matches Err(e) ==> e matches Error::Url { .. },
{
    let base = config.normalized_base_url();
    let rel = strip_leading_slashes(path);
    match build_url(base.as_str(), rel, query) {
        Err(detail) => {
            let mut message = String::from_str("invalid request URL: ");
            message.append(detail.as_str());
            Err(Error::Url { message })
        },
        Ok(url) => {
            let mut headers: Vec<(String, String)> = Vec::new();
            let mut auth = String::from_str("Bearer ");
            auth.append(config.access_token.as_str());
            headers.push((String::from_str("Authorization"), auth));
            headers.push((String::from_str("User-Agent"), config.user_agent.clone()));
            headers.push((String::from_str("Accept"), String::from_str("application/json")));
            let has_body = body.is_some();
            if has_body {
                headers.push(
                    (String::from_str("Content-Type"), String::from_str("application/json")),
                );
            }
            proof {
                assert(headers.deep_view() =~= spec_headers(
                    config.access_token@,
                    config.user_agent@,
                    has_body,
                ));
            }
            Ok(RequestPlan { method, url, headers, body })
        },
    }
}

/// Whether an HTTP status is a success (2xx).
pub fn is_success_status(status: u16) -> (r: bool)
    ensures
        r == (200 <= status && status <= 299),
{
    200 <= status && status <= 299
}

/// Interpret one HTTP exchange that produced a status and a body: a 2xx
/// response hands the raw body back for decoding, and any other status is
/// classified into exactly one typed error using the best-effort parsed
/// envelope.
pub fn interpret_response(status: u16, body: String, envelope: Option<ErrorEnvelope>) -> (r: Result<
    String,
    Error,
>)
    ensures
        200 <= status <= 299 ==> r == Ok::<String, Error>(body),
        !(200 <= status <= 299) ==> r == Err::<String, Error>(
            spec_classify(status, body, envelope),
        ),
{
    if is_success_status(status) {
        Ok(body)
    } else {
        Err(crate::error::classify(status, body, envelope))
    }
}

/// The backoff before retry number `attempt` (counting from 1): a fixed
/// 1000 ms multiplied by the attempt number, so delays grow linearly.
pub open spec fn spec_backoff_ms(attempt: nat) -> nat {
    1000 * attempt
}

/// The retry ledger of one logical call: the configured budget and how much
/// of it is left.
#[derive(Debug, Clone, Copy, PartialEq, Eq, Structural)]
pub struct RetryState {
    /// The configured maximum number of retries.
    pub max_retries: u32,
    /// How many retries are still allowed.
    pub retries_left: u32,
}

impl RetryState {
    /// The ledger never holds more retries than the budget.
    pub open spec fn wf(self) -> bool {
        self.retries_left <= self.max_retries
    }

    /// A fresh ledger with the whole budget available.
    pub fn new(max_retries: u32) -> (s: Self)
        ensures
            s == (RetryState { max_retries, retries_left: max_retries }),
    {
        RetryState { max_retries, retries_left: max_retries }
    }

    /// The number of the next retry, counting from 1 for the first.
    pub open spec fn spec_next_attempt(self) -> nat {
        (self.max_retries - self.retries_left + 1) as nat
    }

    /// Decide what to do after a failed exchange: when the failure is
    /// retryable and budget remains, consume one retry and return the
    /// backoff delay to sleep before re-executing; otherwise leave the
    /// ledger unchanged and return `None`, meaning the error is final.
    pub fn on_failure(&mut self, retryable: bool) -> (r: Option<u64>)
        requires
            old(self).wf(),
        ensures
            final(self).wf(),
            retryable && old(self).retries_left > 0 ==> *final(self) == (RetryState {
                retries_left: (old(self).retries_left - 1) as u32,
                ..*old(self)
            }) && r == Some(spec_backoff_ms(old(self).spec_next_attempt()) as u64),
            !(retryable && old(self).retries_left > 0) ==> *final(self) == *old(self) && r is None,
    {
        if retryable && self.retries_left > 0 {
            let attempt: u32 = self.max_retries - self.retries_left + 1;
            self.retries_left = self.retries_left - 1;
            Some(1000u64 * (attempt as u64))
        } else {
            None
        }
    }
}

/// How many exchanges one logical call performs, given the retry budget and
/// the sequence of outcomes the transport would produce (`true` = that
/// attempt fails with a retryable error): the call stops at the first
/// non-retryable outcome, or when the budget is exhausted.
pub open spec fn spec_attempts_used(budget: nat, outcomes: Seq<bool>) -> nat
    decreases outcomes.len(),
{
    if outcomes.len() == 0 {
        0
    } else if !outcomes[0] {
        1
    } else if budget == 0 {
        1
    } else {
        1 + spec_attempts_used((budget - 1) as nat, outcomes.drop_first())
    }
}

/// The retry loop always terminates within the budget: no logical call
/// performs more than `budget + 1` exchanges.
pub proof fn lemma_attempts_bounded(budget: nat, outcomes: Seq<bool>)
    ensures
        spec_attempts_used(budget, outcomes) <= budget + 1,
    decreases outcomes.len(),
{
    if outcomes.len() > 0 && outcomes[0] && budget > 0 {
        lemma_attempts_bounded((budget - 1) as nat, outcomes.drop_first());
    }
}

/// The loop stops at the first terminal outcome: when the first `k`
/// attempts fail retryably within the budget and attempt `k` ends with a
/// success or a non-retryable error, exactly `k + 1` exchanges happen. In
/// particular a non-retryable first outcome is never retried, however much
/// budget remains.
pub proof fn lemma_stops_at_first_terminal(budget: nat, outcomes: Seq<bool>, k: int)
    requires
        0 <= k < outcomes.len(),
        k <= budget,
        forall|i: int| 0 <= i < k ==> outcomes[i],
        !outcomes[k],
    ensures
        spec_attempts_used(budget, outcomes) == k + 1,
    decreases k,
{
    if k > 0 {
        lemma_stops_at_first_terminal((budget - 1) as nat, outcomes.drop_first(), k - 1);
    }
}

/// Retry budget exhaustion: against a transport whose every outcome is a
/// retryable failure, a call with budget `n` performs exactly `n + 1`
/// exchanges before giving up.
pub proof fn lemma_retry_budget_exhaustion(budget: nat, outcomes: Seq<bool>)
    requires
        outcomes.len() > budget,
        forall|i: int| 0 <= i < outcomes.len() ==> outcomes[i],
    ensures
        spec_attempts_used(budget, outcomes) == budget + 1,
    decreases budget,
{
    if budget > 0 {
        lemma_retry_budget_exhaustion((budget - 1) as nat, outcomes.drop_first());
    }
}

} // verus!
