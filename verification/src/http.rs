//! What the shared HTTP client decides: which headers a request carries,
//! which query pairs it sends, how a request path is built, and when a failed
//! request is tried again.
//!
//! Sending requests and waiting belong to the caller, which runs the loop
//! `RetryState::on_outcome` describes.

use vstd::prelude::*;
use vstd::string::*;

use crate::config::{
    distinct_names, header_lookup, headers_from, insert_header, join_url, lemma_headers_from,
    lemma_headers_from_distinct, opt_view, pairs_view, spec_join_url, ClientConfig, ClientConfigView,
};
use crate::auth::AuthMethod;
use crate::error::Error;
use crate::text::{encode_path_segment, owned, percent_encode};

verus! {

/// The authentication header a configuration sends: one, when a non-empty
/// token is configured.
pub open spec fn spec_auth_headers(config: ClientConfigView) -> Seq<(Seq<char>, Seq<char>)> {
    match config.token {
        Some(t) => if t.len() > 0 {
            seq![(config.auth_method.spec_header_name(), config.auth_method.spec_header_value(t))]
        } else {
            Seq::empty()
        },
        None => Seq::empty(),
    }
}

/// The headers of a request, in the order they are added: the configured
/// default headers first (one per name, the last entry of a name winning),
/// then the built-in `user-agent`, `x-request-id`, authentication and (for a
/// request with a body) `content-type` headers.
pub open spec fn spec_request_headers(config: ClientConfigView, request_id: Seq<char>, has_body: bool) -> Seq<(Seq<char>, Seq<char>)> {
    headers_from(config.default_headers) + seq![("user-agent"@, config.user_agent), ("x-request-id"@, request_id)]
        + spec_auth_headers(config) + if has_body {
        seq![("content-type"@, "application/json"@)]
    } else {
        Seq::empty()
    }
}

fn push_pair(out: &mut Vec<(String, String)>, name: &str, value: &str)
    ensures
        pairs_view(final(out)@) == pairs_view(old(out)@).push((name@, value@)),
{
    out.push((owned(name), owned(value)));
    assert(pairs_view(out@) =~= pairs_view(old(out)@).push((name@, value@)));
}

/// The headers of a request to send: `request_id` when the caller supplies
/// one, else `generated_id`.
pub fn request_headers(
    config: &ClientConfig,
    request_id: Option<&str>,
    generated_id: &str,
    has_body: bool,
) -> (r: Vec<(String, String)>)
    ensures
        pairs_view(r@) == spec_request_headers(
            config@,
            match request_id {
                Some(id) => id@,
                None => generated_id@,
            },
            has_body,
        ),
{
    let mut out: Vec<(String, String)> = Vec::new();
    let mut i: usize = 0;
    while i < config.default_headers.len()
        invariant
            i <= config.default_headers.len(),
            pairs_view(out@) == headers_from(pairs_view(config.default_headers@.take(i as int))),
        decreases config.default_headers.len() - i,
    {
        let k = config.default_headers[i].0.clone();
        let v = config.default_headers[i].1.clone();
        out = insert_header(&out, k, v);
        assert(pairs_view(config.default_headers@.take(i + 1)).drop_last() =~= pairs_view(config.default_headers@.take(i as int)));
        i = i + 1;
    }
    assert(config.default_headers@.take(config.default_headers.len() as int) =~= config.default_headers@);
    let ghost defaults = pairs_view(out@);
    push_pair(&mut out, "user-agent", config.user_agent.as_str());
    let id = match request_id {
        Some(id) => id,
        None => generated_id,
    };
    push_pair(&mut out, "x-request-id", id);
    let ghost builtin = pairs_view(out@);
    assert(builtin =~= defaults + seq![("user-agent"@, config@.user_agent), ("x-request-id"@, id@)]);
    match &config.token {
        Some(token) => {
            if token.as_str().is_empty() {
                assert(spec_auth_headers(config@) =~= Seq::<(Seq<char>, Seq<char>)>::empty());
            } else {
                let method = config.auth_method;
                let value = method.header_value(token.as_str());
                push_pair(&mut out, method.header_name(), value.as_str());
            }
        },
        None => {},
    }
    assert(pairs_view(out@) =~= builtin + spec_auth_headers(config@));
    if has_body {
        push_pair(&mut out, "content-type", "application/json");
    }
    assert(pairs_view(out@) =~= spec_request_headers(config@, id@, has_body));
    out
}

/// An authentication header is sent exactly when a non-empty token is
/// configured, under the name of the configured style; the request ID and
/// user agent are always sent, after every default header. The default
/// headers are sent once per name, each with the last value configured for
/// it, and exactly as configured when their names are distinct.
pub proof fn law_request_headers(config: ClientConfigView, request_id: Seq<char>, has_body: bool, key: Seq<char>)
    ensures
        spec_auth_headers(config).len() > 0 <==> (config.token matches Some(t) && t.len() > 0),
        config.token matches Some(t) ==> (t.len() > 0 ==> spec_request_headers(config, request_id, has_body)[headers_from(config.default_headers).len() + 2int]
            == (config.auth_method.spec_header_name(), config.auth_method.spec_header_value(t))),
        spec_request_headers(config, request_id, has_body)[headers_from(config.default_headers).len() as int] == ("user-agent"@, config.user_agent),
        spec_request_headers(config, request_id, has_body)[headers_from(config.default_headers).len() + 1int] == ("x-request-id"@, request_id),
        spec_request_headers(config, request_id, has_body).subrange(0, headers_from(config.default_headers).len() as int) == headers_from(config.default_headers),
        distinct_names(headers_from(config.default_headers)),
        header_lookup(headers_from(config.default_headers), key) == header_lookup(config.default_headers, key),
        distinct_names(config.default_headers) ==> headers_from(config.default_headers) == config.default_headers,
{
    let d = headers_from(config.default_headers);
    let h = spec_request_headers(config, request_id, has_body);
    assert(h.subrange(0, d.len() as int) =~= d);
    lemma_headers_from(config.default_headers, key);
    if distinct_names(config.default_headers) {
        lemma_headers_from_distinct(config.default_headers);
    }
}

/// The query pairs whose value is present, in their order.
pub open spec fn present_pairs(s: Seq<(Seq<char>, Option<Seq<char>>)>) -> Seq<(Seq<char>, Seq<char>)>
    decreases s.len(),
{
    if s.len() == 0 {
        Seq::empty()
    } else {
        match s.last().1 {
            Some(v) => present_pairs(s.drop_last()).push((s.last().0, v)),
            None => present_pairs(s.drop_last()),
        }
    }
}

/// Query parameters as character sequences.
pub open spec fn params_view(v: Seq<(String, Option<String>)>) -> Seq<(Seq<char>, Option<Seq<char>>)> {
    v.map_values(|p: (String, Option<String>)| (p.0@, opt_view(p.1)))
}

/// Builds a query from optional parameters: each parameter whose value is
/// present, in the given order; absent ones are left out.
pub fn query_pairs(params: Vec<(String, Option<String>)>) -> (r: Vec<(String, String)>)
    ensures
        pairs_view(r@) == present_pairs(params_view(params@)),
{
    let mut out: Vec<(String, String)> = Vec::new();
    let mut i: usize = 0;
    while i < params.len()
        invariant
            i <= params.len(),
            pairs_view(out@) == present_pairs(params_view(params@.take(i as int))),
        decreases params.len() - i,
    {
        assert(params_view(params@.take(i + 1)).drop_last() =~= params_view(params@.take(i as int)));
        match &params[i].1 {
            Some(v) => {
                push_pair(&mut out, params[i].0.as_str(), v.as_str());
            },
            None => {},
        }
        i = i + 1;
    }
    assert(params@.take(params.len() as int) =~= params@);
    out
}

/// A request path made of `prefix`, the percent-encoded `id`, and `suffix`,
/// e.g. `/v1/orders/{client_order_id}/cancel`.
pub fn path_with_id(prefix: &str, id: &str, suffix: &str) -> (r: String)
    ensures
        r@ == prefix@ + percent_encode(id.spec_bytes()) + suffix@,
{
    let encoded = encode_path_segment(id);
    owned(prefix).concat(encoded.as_str()).concat(suffix)
}

/// Whether `text` is accepted by `reqwest::Url::parse` (the WHATWG URL
/// parser of the `url` crate).
pub uninterp spec fn parses_as_url(text: Seq<char>) -> bool;

/// `reqwest::Url::parse`, reduced to whether it accepts `text`. The parser is
/// deterministic, so its verdict is named as a function of the text; nothing
/// more is stated of which texts it accepts.
#[verifier::external_body]
fn url_parses(text: &str) -> (r: bool)
    ensures
        r == parses_as_url(text@),
{
    reqwest::Url::parse(text).is_ok()
}

/// The outcome for a request URL given whether it parses: the URL itself, or
/// an [`Error::InvalidUrl`] holding it.
pub fn checked_url(url: String, parses: bool) -> (r: Result<String, Error>)
    ensures
        parses ==> r == Ok::<String, Error>(url),
        !parses ==> r == Err::<String, Error>(Error::InvalidUrl(url)),
{
    if parses {
        Ok(url)
    } else {
        Err(Error::InvalidUrl(url))
    }
}

/// The URL of a request: `path` joined to `base_url`, refused as
/// [`Error::InvalidUrl`] when the result does not parse as a URL.
pub fn request_url(base_url: &str, path: &str) -> (r: Result<String, Error>)
    ensures
        parses_as_url(spec_join_url(base_url@, path@)) ==> (r matches Ok(u) && u@ == spec_join_url(
            base_url@,
            path@,
        )),
        !parses_as_url(spec_join_url(base_url@, path@)) ==> (r matches Err(Error::InvalidUrl(u))
            && u@ == spec_join_url(base_url@, path@)),
{
    let url = join_url(base_url, path);
    let parses = url_parses(url.as_str());
    checked_url(url, parses)
}

/// Whether a response status means success (`2xx`); any other status is
/// mapped to an error by [`crate::response::http_error`].
pub fn is_success_status(status: u16) -> (r: bool)
    ensures
        r == (200 <= status && status < 300),
{
    200 <= status && status < 300
}

/// The retry state of one request: how many attempts have been made, how
/// many are allowed, and whether the request is a safe GET.
#[derive(Debug, Clone, Copy, PartialEq, Eq, Structural)]
pub struct RetryState {
    /// Index of the attempt in flight (the first is `0`).
    pub attempt: u32,
    /// How many attempts are allowed in all.
    pub max_attempts: u32,
    /// Only GET requests are ever repeated.
    pub is_get: bool,
}

/// What to do after an attempt.
#[derive(Debug, PartialEq)]
pub enum RetryStep {
    /// Stop and report this outcome.
    Finish(Result<String, Error>),
    /// Wait `delay_ms` milliseconds, then attempt again in state `next`.
    Wait { delay_ms: u64, next: RetryState },
}

/// How many attempts a request gets: a GET gets one plus the configured
/// retries (saturating), any other method exactly one.
pub open spec fn spec_max_attempts(is_get: bool, retry: u32) -> u32 {
    if is_get {
        if retry == u32::MAX {
            u32::MAX
        } else {
            (retry + 1) as u32
        }
    } else {
        1
    }
}

/// The step after an attempt ends with `outcome`: success is reported at
/// once; a failure is retried, after `50 * (attempt + 1)` milliseconds, only
/// for a GET with attempts left and a retryable error.
pub open spec fn spec_retry_step(state: RetryState, outcome: Result<String, Error>) -> RetryStep {
    match outcome {
        Ok(text) => RetryStep::Finish(Ok(text)),
        Err(e) => if state.is_get && state.attempt + 1 < state.max_attempts
            && e.spec_is_retryable() {
            RetryStep::Wait {
                delay_ms: (50 * (state.attempt + 1)) as u64,
                next: RetryState { attempt: (state.attempt + 1) as u32, ..state },
            }
        } else {
            RetryStep::Finish(Err(e))
        },
    }
}

impl RetryState {
    /// The state before the first attempt of a request.
    pub fn start(is_get: bool, retry: u32) -> (r: Self)
        ensures
            r == (RetryState { attempt: 0, max_attempts: spec_max_attempts(is_get, retry), is_get }),
    {
        let max_attempts = if is_get {
            retry.saturating_add(1)
        } else {
            1
        };
        RetryState { attempt: 0, max_attempts, is_get }
    }

    /// Decides what follows an attempt that ended with `outcome`.
    pub fn on_outcome(self, outcome: Result<String, Error>) -> (r: RetryStep)
        requires
            self.attempt < self.max_attempts,
        ensures
            r == spec_retry_step(self, outcome),
    {
        match outcome {
            Ok(text) => RetryStep::Finish(Ok(text)),
            Err(e) => {
                let retryable = self.is_get && self.attempt + 1 < self.max_attempts
                    && e.is_retryable();
                if retryable {
                    let delay_ms: u64 = 50u64 * (self.attempt as u64 + 1);
                    RetryStep::Wait {
                        delay_ms,
                        next: RetryState { attempt: self.attempt + 1, ..self },
                    }
                } else {
                    RetryStep::Finish(Err(e))
                }
            },
        }
    }
}

/// Retry discipline: a request that is not a GET is attempted once and its
/// first outcome is final; a success is never retried; a retry happens only
/// after a retryable error, moves to the next attempt, stays within the
/// allowed number of attempts (so a request is attempted at most
/// `retry + 1` times), and waits `50 * (attempt + 1)` milliseconds.
pub proof fn law_retry(state: RetryState, outcome: Result<String, Error>, retry: u32)
    requires
        state.attempt < state.max_attempts,
    ensures
        spec_max_attempts(false, retry) == 1,
        spec_max_attempts(true, retry) as int == if retry == u32::MAX {
            u32::MAX as int
        } else {
            retry + 1
        },
        !state.is_get && state.max_attempts == 1 ==> spec_retry_step(state, outcome) == RetryStep::Finish(outcome),
        outcome is Ok ==> spec_retry_step(state, outcome) == RetryStep::Finish(outcome),
        spec_retry_step(state, outcome) matches RetryStep::Wait { delay_ms, next } ==> {
            &&& state.is_get
            &&& outcome matches Err(e) && e.spec_is_retryable()
            &&& next.attempt == state.attempt + 1
            &&& next.attempt < next.max_attempts
            &&& next.max_attempts == state.max_attempts
            &&& next.is_get == state.is_get
            &&& delay_ms == 50 * (state.attempt + 1)
        },
{
}


/// The number of attempts a request makes from `state` when its attempts end
/// with `outcomes` in turn (counting only the outcomes given).
pub open spec fn attempts_made(state: RetryState, outcomes: Seq<Result<String, Error>>) -> nat
    decreases outcomes.len(),
{
    if outcomes.len() == 0 {
        0
    } else {
        match spec_retry_step(state, outcomes[0]) {
            RetryStep::Finish(_) => 1,
            RetryStep::Wait { next, .. } => 1 + attempts_made(next, outcomes.drop_first()),
        }
    }
}

/// Every outcome is an error that a GET may repeat.
pub open spec fn all_retryable(outcomes: Seq<Result<String, Error>>) -> bool {
    forall|i: int| 0 <= i < outcomes.len() ==> (#[trigger] outcomes[i] matches Err(e) && e.spec_is_retryable())
}

/// Attempt budget: whatever the outcomes, a request makes no more attempts
/// than it has left, and a request that is not a GET makes at most one; a GET
/// whose attempts all fail with retryable errors uses every attempt it has
/// left.
pub proof fn law_attempt_budget(state: RetryState, outcomes: Seq<Result<String, Error>>)
    requires
        state.attempt < state.max_attempts,
    ensures
        attempts_made(state, outcomes) <= state.max_attempts - state.attempt,
        !state.is_get ==> attempts_made(state, outcomes) <= 1,
        state.is_get && all_retryable(outcomes) && outcomes.len() >= state.max_attempts - state.attempt
            ==> attempts_made(state, outcomes) == state.max_attempts - state.attempt,
    decreases outcomes.len(),
{
    if outcomes.len() > 0 {
        let rest = outcomes.drop_first();
        if all_retryable(outcomes) {
            assert forall|i: int| 0 <= i < rest.len() implies (#[trigger] rest[i] matches Err(e)
                && e.spec_is_retryable()) by {
                assert(rest[i] == outcomes[i + 1]);
            }
            assert(outcomes[0] matches Err(e) && e.spec_is_retryable());
        }
        match spec_retry_step(state, outcomes[0]) {
            RetryStep::Wait { next, .. } => {
                law_attempt_budget(next, rest);
            },
            RetryStep::Finish(_) => {},
        }
    }
}

/// A request with `retry` configured retries is attempted at most `retry + 1`
/// times when it is a GET, and once otherwise.
pub proof fn law_request_attempts(is_get: bool, retry: u32, outcomes: Seq<Result<String, Error>>)
    ensures
        attempts_made(
            RetryState { attempt: 0, max_attempts: spec_max_attempts(is_get, retry), is_get },
            outcomes,
        ) <= retry + 1,
        !is_get ==> attempts_made(
            RetryState { attempt: 0, max_attempts: spec_max_attempts(is_get, retry), is_get },
            outcomes,
        ) <= 1,
{
    law_attempt_budget(
        RetryState { attempt: 0, max_attempts: spec_max_attempts(is_get, retry), is_get },
        outcomes,
    );
}


/// Which errors a GET may repeat: transport failures, timeouts, and HTTP or
/// API errors whose response status is `429` or `500` and above; no other.
pub proof fn law_retryable_errors(status: u16, body: String, code: String, message: String, detail: serde_json::Value, text: String)
    ensures
        Error::Transport(text).spec_is_retryable(),
        Error::Timeout.spec_is_retryable(),
        (Error::Http { status, body }).spec_is_retryable() == (status == 429 || status >= 500),
        (Error::Api { code, message, detail, status: Some(status) }).spec_is_retryable() == (status
            == 429 || status >= 500),
        !(Error::Api { code, message, detail, status: None::<u16> }).spec_is_retryable(),
        !(Error::Decode { body, source: text }).spec_is_retryable(),
        !Error::WebSocket(text).spec_is_retryable(),
        !Error::InvalidUrl(text).spec_is_retryable(),
        !Error::InvalidRequest(text).spec_is_retryable(),
{
}

/// A step that finishes reports the attempt's outcome exactly as it came:
/// a success is passed on, and the error of the last attempt is returned as
/// is. A GET with an attempt left after a retryable error always waits
/// `50 * (attempt + 1)` milliseconds and tries again; every other failure
/// finishes at once.
pub proof fn law_retry_outcome(state: RetryState, outcome: Result<String, Error>)
    ensures
        spec_retry_step(state, outcome) matches RetryStep::Finish(o) ==> o == outcome,
        (state.is_get && state.attempt + 1 < state.max_attempts && (outcome matches Err(e)
            && e.spec_is_retryable())) ==> spec_retry_step(state, outcome) == (RetryStep::Wait {
            delay_ms: (50 * (state.attempt + 1)) as u64,
            next: RetryState { attempt: (state.attempt + 1) as u32, ..state },
        }),
        !(state.is_get && state.attempt + 1 < state.max_attempts && (outcome matches Err(e)
            && e.spec_is_retryable())) ==> spec_retry_step(state, outcome) == RetryStep::Finish(
            outcome,
        ),
{
}

/// A request with a body carries `content-type: application/json` as its last
/// header and one without carries none; apart from that the headers are the
/// default headers (one per name), `user-agent`, `x-request-id`, and at most
/// one authentication header: `authorization: Bearer <token>` in the bearer
/// style, `x-auth-token: <token>` in the other, only for a non-empty token.
pub proof fn law_request_header_list(config: ClientConfigView, request_id: Seq<char>, t: Seq<char>)
    ensures
        spec_request_headers(config, request_id, true) == spec_request_headers(config, request_id, false).push(
            ("content-type"@, "application/json"@),
        ),
        spec_request_headers(config, request_id, false).len() == headers_from(config.default_headers).len()
            + 2 + spec_auth_headers(config).len(),
        spec_auth_headers(config).len() <= 1,
        config.token == Some(t) && t.len() > 0 && config.auth_method == AuthMethod::Bearer
            ==> spec_auth_headers(config) == seq![("authorization"@, "Bearer "@ + t)],
        config.token == Some(t) && t.len() > 0 && config.auth_method == AuthMethod::XAuthToken
            ==> spec_auth_headers(config) == seq![("x-auth-token"@, t)],
        (config.token is None || config.token == Some(Seq::<char>::empty())) ==> spec_auth_headers(
            config,
        ).len() == 0,
{
    assert(spec_request_headers(config, request_id, true) =~= spec_request_headers(
        config,
        request_id,
        false,
    ).push(("content-type"@, "application/json"@)));
    assert(spec_request_headers(config, request_id, false) =~= headers_from(config.default_headers)
        + seq![("user-agent"@, config.user_agent), ("x-request-id"@, request_id)] + spec_auth_headers(config));
}

} // verus!
