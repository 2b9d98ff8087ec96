//! Client configuration, and the decisions the client makes around each HTTP
//! exchange: when to retry, what error a failed response becomes, and what
//! rate-limit state the response headers leave.
use vstd::prelude::*;
use core::time::Duration;
use crate::errors::{ApiError, Error};
use crate::text::{decimal, parse_u64, parse_u64_spec, push_decimal, IntoText};
use crate::types::RateLimitState;

verus! {

/// Default base URL for the Klozeo API.
pub const DEFAULT_BASE_URL: &'static str = "https://app.klozeo.com/api/v1";

/// The duration of `secs` whole seconds.
pub uninterp spec fn duration_of_secs(secs: u64) -> Duration;

/// `Duration::from_secs` gives the duration of `secs` whole seconds; the
/// name `duration_of_secs` stands for that value, nothing more is claimed.
pub assume_specification[ core::time::Duration::from_secs ](secs: u64) -> (d: Duration)
    ensures
        d == duration_of_secs(secs),
;

/// `Duration` is `Copy`: its `clone` gives back the same value.
pub assume_specification[ <core::time::Duration as Clone>::clone ](d: &Duration) -> (r: Duration)
    ensures
        r == *d,
;

// ─── ClientConfig ──────────────────────────────────────────────────────────

/// Configuration options for the Klozeo client.
#[derive(Debug, Clone)]
pub struct ClientConfig {
    /// API base URL. Defaults to `https://app.klozeo.com/api/v1`.
    pub base_url: String,
    /// Per-request timeout. Defaults to 30 seconds.
    pub timeout: Duration,
    /// Maximum number of retries on 429 / 5xx responses. Defaults to 3.
    pub max_retries: u32,
}

/// The view of a configuration: base URL text, timeout, retry budget.
pub struct ClientConfigView {
    pub base_url: Seq<char>,
    pub timeout: Duration,
    pub max_retries: u32,
}

impl View for ClientConfig {
    type V = ClientConfigView;

    open spec fn view(&self) -> ClientConfigView {
        ClientConfigView { base_url: self.base_url@, timeout: self.timeout, max_retries: self.max_retries }
    }
}

impl ClientConfigView {
    /// The default configuration.
    pub open spec fn default_config() -> ClientConfigView {
        ClientConfigView {
            base_url: DEFAULT_BASE_URL@,
            timeout: duration_of_secs(30),
            max_retries: 3,
        }
    }
}

impl Default for ClientConfig {
    fn default() -> (c: Self)
        ensures
            c@ == ClientConfigView::default_config(),
    {
        ClientConfig {
            base_url: DEFAULT_BASE_URL.to_owned(),
            timeout: Duration::from_secs(30),
            max_retries: 3,
        }
    }
}

impl ClientConfig {
    /// Returns a builder for `ClientConfig` with nothing overridden.
    pub fn builder() -> (b: ClientConfigBuilder)
        ensures
            b@ == (ClientConfigBuilderView { base_url: None, timeout: None, max_retries: None }),
    {
        ClientConfigBuilder { base_url: None, timeout: None, max_retries: None }
    }
}

/// Builder for [`ClientConfig`]: each setting left unset takes its default.
#[derive(Debug, Clone)]
pub struct ClientConfigBuilder {
    base_url: Option<String>,
    timeout: Option<Duration>,
    max_retries: Option<u32>,
}

/// The settings a builder holds so far.
pub struct ClientConfigBuilderView {
    pub base_url: Option<Seq<char>>,
    pub timeout: Option<Duration>,
    pub max_retries: Option<u32>,
}

impl View for ClientConfigBuilder {
    type V = ClientConfigBuilderView;

    closed spec fn view(&self) -> ClientConfigBuilderView {
        ClientConfigBuilderView {
            base_url: self.base_url.deep_view(),
            timeout: self.timeout,
            max_retries: self.max_retries,
        }
    }
}

impl ClientConfigBuilderView {
    /// The configuration these settings build: each setting given, or its default.
    pub open spec fn spec_build(self) -> ClientConfigView {
        let d = ClientConfigView::default_config();
        ClientConfigView {
            base_url: match self.base_url {
                Some(u) => u,
                None => d.base_url,
            },
            timeout: match self.timeout {
                Some(t) => t,
                None => d.timeout,
            },
            max_retries: match self.max_retries {
                Some(n) => n,
                None => d.max_retries,
            },
        }
    }
}

impl Default for ClientConfigBuilder {
    fn default() -> (b: Self)
        ensures
            b@ == (ClientConfigBuilderView { base_url: None, timeout: None, max_retries: None }),
    {
        ClientConfig::builder()
    }
}

impl ClientConfigBuilder {
    /// Override the API base URL.
    pub fn base_url<U: IntoText>(self, url: U) -> (b: Self)
        ensures
            b@ == (ClientConfigBuilderView { base_url: Some(url.text()), ..self@ }),
    {
        let mut b = self;
        b.base_url = Some(url.into_text());
        b
    }

    /// Set the per-request timeout.
    pub fn timeout(self, d: Duration) -> (b: Self)
        ensures
            b@ == (ClientConfigBuilderView { timeout: Some(d), ..self@ }),
    {
        let mut b = self;
        b.timeout = Some(d);
        b
    }

    /// Set the maximum number of retries on 429 / 5xx.
    pub fn max_retries(self, n: u32) -> (b: Self)
        ensures
            b@ == (ClientConfigBuilderView { max_retries: Some(n), ..self@ }),
    {
        let mut b = self;
        b.max_retries = Some(n);
        b
    }

    /// Build the [`ClientConfig`]: each setting given, or its default.
    pub fn build(self) -> (c: ClientConfig)
        ensures
            c@ == self@.spec_build(),
    {
        let defaults = ClientConfig::default();
        ClientConfig {
            base_url: self.base_url.unwrap_or(defaults.base_url),
            timeout: self.timeout.unwrap_or(defaults.timeout),
            max_retries: self.max_retries.unwrap_or(defaults.max_retries),
        }
    }
}

/// Building with nothing overridden gives the default configuration.
pub proof fn lemma_empty_builder_builds_default()
    ensures
        (ClientConfigBuilderView { base_url: None, timeout: None, max_retries: None }).spec_build()
            == ClientConfigView::default_config(),
{
}


// ─── Error responses ───────────────────────────────────────────────────────

/// The fields of an API error body, each absent when the body lacks it or
/// could not be read.
#[derive(Debug, Clone, PartialEq, Eq)]
pub struct ApiErrorBody {
    pub message: Option<String>,
    pub code: Option<String>,
    pub error: Option<String>,
}

impl ApiErrorBody {
    /// The message of the error: `message`, else `error`, else `HTTP <status>`.
    pub open spec fn message_for(self, status: u16) -> Seq<char> {
        match self.message {
            Some(m) => m@,
            None => match self.error {
                Some(e) => e@,
                None => "HTTP "@ + decimal(status as nat),
            },
        }
    }

    /// The code of the error: `code`, else `unknown`.
    pub open spec fn code_or_unknown(self) -> Seq<char> {
        match self.code {
            Some(c) => c@,
            None => "unknown"@,
        }
    }
}

/// The error that a failed response with `status` and `body` stands for.
pub open spec fn api_error_spec(status: u16, body: ApiErrorBody, e: Error) -> bool {
    if status == 404 {
        e is NotFound
    } else if status == 401 {
        e is Unauthorized
    } else if status == 403 {
        e is Forbidden
    } else if status == 400 {
        e matches Error::BadRequest(m) && m@ == body.message_for(status)
    } else if status == 429 {
        e matches Error::RateLimited { retry_after } && retry_after == 0
    } else {
        e matches Error::Api(a) && a.status_code == status && a.message@ == body.message_for(status)
            && a.code@ == body.code_or_unknown()
    }
}

/// Map a failed response's status and error body to an [`Error`].
///
/// A `429` maps to `RateLimited` with `retry_after` 0; the retry logic
/// answers a `429` itself, with the `Retry-After` it read.
pub fn parse_api_error(status: u16, body: ApiErrorBody) -> (e: Error)
    ensures
        api_error_spec(status, body, e),
{
    let ghost b = body;
    let message = match body.message {
        Some(m) => m,
        None => match body.error {
            Some(e) => e,
            None => {
                let mut m = "HTTP ".to_owned();
                push_decimal(&mut m, status as u64);
                m
            },
        },
    };
    assert(message@ == b.message_for(status));
    let code = match body.code {
        Some(c) => c,
        None => "unknown".to_owned(),
    };
    if status == 404 {
        Error::NotFound
    } else if status == 401 {
        Error::Unauthorized
    } else if status == 403 {
        Error::Forbidden
    } else if status == 400 {
        Error::BadRequest(message)
    } else if status == 429 {
        Error::RateLimited { retry_after: 0 }
    } else {
        Error::Api(ApiError { status_code: status, message, code })
    }
}

/// A failed response whose status is none of 400, 401, 403, 404 and 429 is an
/// `Api` error that keeps the status, the body's `message` (else its `error`,
/// else `HTTP <status>`) and the body's `code` (else `unknown`); and each of
/// the dedicated variants comes from its own status alone.
pub proof fn lemma_api_error_keeps_status(status: u16, body: ApiErrorBody, e: Error)
    requires
        api_error_spec(status, body, e),
    ensures
        status != 400 && status != 401 && status != 403 && status != 404 && status != 429 ==> {
            &&& e is Api
            &&& e->Api_0.status_code == status
            &&& e->Api_0.message@ == (if body.message is Some {
                body.message->Some_0@
            } else if body.error is Some {
                body.error->Some_0@
            } else {
                "HTTP "@ + decimal(status as nat)
            })
            &&& e->Api_0.code@ == (if body.code is Some { body.code->Some_0@ } else { "unknown"@ })
        },
        e is BadRequest ==> status == 400,
        e is NotFound ==> status == 404,
        e is Unauthorized ==> status == 401,
        e is Forbidden ==> status == 403,
        e is RateLimited ==> status == 429,
        status == 400 ==> e is BadRequest,
        status == 404 ==> e is NotFound,
        status == 401 ==> e is Unauthorized,
        status == 403 ==> e is Forbidden,
        status == 429 ==> e is RateLimited,
{
}

// ─── Rate limit and Retry-After headers ────────────────────────────────────

/// The text of an optional header value.
pub open spec fn header_view(h: Option<&str>) -> Option<Seq<char>> {
    match h {
        Some(s) => Some(s@),
        None => None,
    }
}

/// The number a header holds, when it is present and reads as a `u64`.
pub open spec fn header_u64(h: Option<Seq<char>>) -> Option<u64> {
    match h {
        Some(s) => parse_u64_spec(s),
        None => None,
    }
}

fn read_header_u64(h: Option<&str>) -> (r: Option<u64>)
    ensures
        r == header_u64(header_view(h)),
{
    match h {
        Some(s) => parse_u64(s),
        None => None,
    }
}

/// The rate-limit state after a response whose `X-RateLimit-Limit` and
/// `X-RateLimit-Remaining` headers are `limit` and `remaining`: replaced when
/// both read as numbers, otherwise kept.
pub open spec fn rate_limit_after(
    prev: Option<RateLimitState>,
    limit: Option<Seq<char>>,
    remaining: Option<Seq<char>>,
) -> Option<RateLimitState> {
    match (header_u64(limit), header_u64(remaining)) {
        (Some(l), Some(r)) => Some(RateLimitState { limit: l, remaining: r }),
        _ => prev,
    }
}

/// Update the rate-limit state from the `X-RateLimit-Limit` and
/// `X-RateLimit-Remaining` header values of a response.
pub fn update_rate_limit(state: &mut Option<RateLimitState>, limit: Option<&str>, remaining: Option<&str>)
    ensures
        *final(state) == rate_limit_after(*old(state), header_view(limit), header_view(remaining)),
{
    let l = read_header_u64(limit);
    let r = read_header_u64(remaining);
    match (l, r) {
        (Some(l), Some(r)) => {
            *state = Some(RateLimitState { limit: l, remaining: r });
        },
        _ => {},
    }
}

/// When both rate-limit headers read as numbers `l` and `r`, the state becomes
/// exactly `limit: l, remaining: r`, whatever it was and whatever `r` is (0
/// included); when either header is missing or does not read as a number, the
/// state is kept.
pub proof fn lemma_rate_limit_follows_headers(
    prev: Option<RateLimitState>,
    limit: Option<Seq<char>>,
    remaining: Option<Seq<char>>,
)
    ensures
        (limit is Some && remaining is Some && parse_u64_spec(limit->Some_0) is Some
            && parse_u64_spec(remaining->Some_0) is Some) ==> rate_limit_after(prev, limit, remaining)
            == Some(
            RateLimitState {
                limit: parse_u64_spec(limit->Some_0)->Some_0,
                remaining: parse_u64_spec(remaining->Some_0)->Some_0,
            },
        ),
        (limit is None || remaining is None || parse_u64_spec(limit->Some_0) is None
            || parse_u64_spec(remaining->Some_0) is None) ==> rate_limit_after(prev, limit, remaining)
            == prev,
{
}

/// The seconds a `Retry-After` header asks to wait: its number, or 1 when it
/// is missing or does not read as a `u64`.
pub open spec fn retry_after_spec(h: Option<Seq<char>>) -> u64 {
    match header_u64(h) {
        Some(v) => v,
        None => 1,
    }
}

/// Extract `Retry-After` seconds from the header value (1 when absent or unreadable).
pub fn retry_after_secs(header: Option<&str>) -> (secs: u64)
    ensures
        secs == retry_after_spec(header_view(header)),
{
    match read_header_u64(header) {
        Some(v) => v,
        None => 1,
    }
}


// ─── Retry ─────────────────────────────────────────────────────────────────

/// Two to the power `n`.
pub open spec fn two_to(n: nat) -> nat
    decreases n,
{
    if n == 0 { 1 } else { 2 * two_to((n - 1) as nat) }
}

proof fn lemma_two_to_monotone(a: nat, b: nat)
    requires
        a <= b,
    ensures
        two_to(a) <= two_to(b),
    decreases b - a,
{
    if a < b {
        lemma_two_to_monotone(a, (b - 1) as nat);
    }
}

proof fn lemma_two_to_56()
    ensures
        two_to(56) == 0x0100_0000_0000_0000,
{
    reveal_with_fuel(two_to, 57);
}

/// The highest attempt number whose backoff, `200 * 2^attempt` ms, fits in a `u64`.
pub const MAX_BACKOFF_ATTEMPT: u32 = 56;

/// The backoff before the `attempt`-th resend after a server error, in milliseconds.
pub open spec fn backoff_millis_spec(attempt: nat) -> nat {
    200 * two_to(attempt)
}

/// The backoff before the `attempt`-th resend after a server error:
/// `200 * 2^attempt` milliseconds.
pub fn backoff_millis(attempt: u32) -> (ms: u64)
    requires
        attempt <= MAX_BACKOFF_ATTEMPT,
    ensures
        ms == backoff_millis_spec(attempt as nat),
{
    proof {
        lemma_two_to_56();
    }
    let mut ms: u64 = 200;
    let mut i: u32 = 0;
    while i < attempt
        invariant
            i <= attempt <= MAX_BACKOFF_ATTEMPT,
            ms == 200 * two_to(i as nat),
            two_to(56) == 0x0100_0000_0000_0000,
        decreases attempt - i,
    {
        proof {
            lemma_two_to_monotone((i + 1) as nat, 56);
        }
        ms = ms * 2;
        i = i + 1;
    }
    ms
}

/// What to do with a response, given the retries used so far.
#[derive(Debug, Clone, Copy, PartialEq, Eq, Structural)]
pub enum RetryDecision {
    /// A 2xx status: the response is the result.
    Success,
    /// A 429 with retries left: wait this many seconds, then send again.
    WaitSecs(u64),
    /// A 5xx with retries left: wait this many milliseconds, then send again.
    WaitMillis(u64),
    /// A 429 with no retries left: fail with `RateLimited` and this `retry_after`.
    RateLimited(u64),
    /// Any other failure: the error body decides the error (see [`parse_api_error`]).
    Failed,
}

impl RetryDecision {
    /// Whether the request is sent again after this decision.
    pub open spec fn is_retry(self) -> bool {
        self is WaitSecs || self is WaitMillis
    }
}

/// The retry budget of one request and the retries used so far.
pub struct RetryView {
    pub max_retries: u32,
    pub attempt: u32,
}

/// Whether `status` is a 2xx status.
pub open spec fn is_success_status(status: u16) -> bool {
    200 <= status <= 299
}

impl RetryView {
    /// Whether answering `status` would need a backoff beyond what a `u64`
    /// of milliseconds holds (a server error with a resend numbered above
    /// [`MAX_BACKOFF_ATTEMPT`]).
    pub open spec fn backoff_overflows(self, status: u16) -> bool {
        status >= 500 && self.attempt < self.max_retries && self.attempt + 1 > MAX_BACKOFF_ATTEMPT
    }

    /// The decision for a response with `status` and `Retry-After` header
    /// `retry_after`, and the retries used after it.
    pub open spec fn step(self, status: u16, retry_after: Option<Seq<char>>) -> (RetryDecision, RetryView) {
        if is_success_status(status) {
            (RetryDecision::Success, self)
        } else if status == 429 {
            let secs = retry_after_spec(retry_after);
            if self.attempt < self.max_retries {
                (RetryDecision::WaitSecs(secs), RetryView { attempt: (self.attempt + 1) as u32, ..self })
            } else {
                (RetryDecision::RateLimited(secs), self)
            }
        } else if status >= 500 && self.attempt < self.max_retries {
            (
                RetryDecision::WaitMillis(backoff_millis_spec((self.attempt + 1) as nat) as u64),
                RetryView { attempt: (self.attempt + 1) as u32, ..self },
            )
        } else {
            (RetryDecision::Failed, self)
        }
    }
}

/// Any 2xx response is the result: for every status from 200 to 299, whatever
/// its `Retry-After` header, the decision is `Success` and no retry is used.
pub proof fn lemma_any_2xx_succeeds(s: RetryView, status: u16, retry_after: Option<Seq<char>>)
    requires
        200 <= status <= 299,
    ensures
        s.step(status, retry_after) == (RetryDecision::Success, s),
{
}

/// A response outside 200 to 299 is never taken as the result.
pub proof fn lemma_only_2xx_succeeds(s: RetryView, status: u16, retry_after: Option<Seq<char>>)
    requires
        status < 200 || status > 299,
    ensures
        s.step(status, retry_after).0 != RetryDecision::Success,
{
}

/// The retry state of one request: at most `max_retries` resends on 429 and
/// 5xx responses, with exponential backoff on 5xx.
#[derive(Debug)]
pub struct RetryState {
    max_retries: u32,
    attempt: u32,
}

impl View for RetryState {
    type V = RetryView;

    closed spec fn view(&self) -> RetryView {
        RetryView { max_retries: self.max_retries, attempt: self.attempt }
    }
}

impl RetryState {
    #[verifier::type_invariant]
    spec fn inv(self) -> bool {
        self.attempt <= self.max_retries
    }

    /// A fresh request with `max_retries` resends allowed.
    pub fn new(max_retries: u32) -> (s: Self)
        ensures
            s@ == (RetryView { max_retries, attempt: 0 }),
    {
        RetryState { max_retries, attempt: 0 }
    }

    /// Whether answering a response with `status` would overflow the backoff
    /// (see [`RetryView::backoff_overflows`]).
    pub fn backoff_overflows(&self, status: u16) -> (b: bool)
        ensures
            b == self@.backoff_overflows(status),
    {
        status >= 500 && self.attempt < self.max_retries && self.attempt >= MAX_BACKOFF_ATTEMPT
    }

    /// Decide what to do with a response with `status` whose `Retry-After`
    /// header value is `retry_after`.
    pub fn on_response(&mut self, status: u16, retry_after: Option<&str>) -> (d: RetryDecision)
        requires
            !old(self)@.backoff_overflows(status),
        ensures
            (d, final(self)@) == old(self)@.step(status, header_view(retry_after)),
            final(self)@.attempt <= final(self)@.max_retries,
    {
        proof {
            use_type_invariant(&*self);
        }
        if 200 <= status && status <= 299 {
            return RetryDecision::Success;
        }
        if status == 429 {
            let secs = retry_after_secs(retry_after);
            if self.attempt < self.max_retries {
                self.attempt = self.attempt + 1;
                return RetryDecision::WaitSecs(secs);
            }
            return RetryDecision::RateLimited(secs);
        }
        if status >= 500 && self.attempt < self.max_retries {
            self.attempt = self.attempt + 1;
            let ms = backoff_millis(self.attempt);
            return RetryDecision::WaitMillis(ms);
        }
        RetryDecision::Failed
    }
}

/// One response a request gets: its status and its `Retry-After` header value.
pub struct ResponseView {
    pub status: u16,
    pub retry_after: Option<Seq<char>>,
}

/// How many times a request is sent when the responses are `responses`, in
/// order, starting from `s` (the last send is the one not followed by a retry,
/// or the last response given).
pub open spec fn sends(s: RetryView, responses: Seq<ResponseView>) -> nat
    decreases responses.len(),
{
    if responses.len() == 0 {
        0
    } else {
        let (d, next) = s.step(responses[0].status, responses[0].retry_after);
        if d.is_retry() {
            1 + sends(next, responses.drop_first())
        } else {
            1
        }
    }
}

/// A request is sent at most `max_retries + 1` times, whatever the server answers.
pub proof fn lemma_sends_bounded(s: RetryView, responses: Seq<ResponseView>)
    requires
        s.attempt <= s.max_retries,
    ensures
        sends(s, responses) <= s.max_retries - s.attempt + 1,
    decreases responses.len(),
{
    if responses.len() > 0 {
        let (d, next) = s.step(responses[0].status, responses[0].retry_after);
        if d.is_retry() {
            lemma_sends_bounded(next, responses.drop_first());
        }
    }
}


/// A request that keeps getting 429 or 5xx responses is sent exactly
/// `max_retries + 1` times: the whole retry budget is used before giving up.
pub proof fn lemma_failing_server_uses_budget(s: RetryView, responses: Seq<ResponseView>)
    requires
        s.attempt <= s.max_retries,
        responses.len() > s.max_retries - s.attempt,
        forall|i: int|
            0 <= i < responses.len() ==> (#[trigger] responses[i].status >= 500 || responses[i].status == 429),
    ensures
        sends(s, responses) == s.max_retries - s.attempt + 1,
    decreases responses.len(),
{
    let r0 = responses[0];
    assert(r0.status >= 500 || r0.status == 429);
    let (d, next) = s.step(r0.status, r0.retry_after);
    if s.attempt < s.max_retries {
        assert(d.is_retry());
        let rest = responses.drop_first();
        assert forall|i: int| 0 <= i < rest.len() implies (#[trigger] rest[i].status >= 500 || rest[i].status == 429) by {
            assert(rest[i] == responses[i + 1]);
        }
        lemma_failing_server_uses_budget(next, rest);
    } else {
        assert(!d.is_retry());
    }
}

} // verus!
