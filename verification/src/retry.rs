//! When a failed request is tried again, and after how long.
//!
//! The caller owns the network and the clock. For one request it creates a
//! [`Retry`], and then repeats: ask [`Retry::permit`] whether an attempt may
//! start, wait for admission by the rate limiter, run the attempt under its
//! deadline, and hand the outcome to [`Retry::settle`], which either ends the
//! request or names the pause before the next round.

use vstd::prelude::*;
use vstd::string::*;
use vstd::arithmetic::power2::{pow2, lemma_pow2_unfold, lemma2_to64};
use vstd::arithmetic::power2::lemma_pow2_strictly_increases;
use crate::error::{message_of, AppError, AppErrorView};
use crate::metrics::{advanced, bump, Metrics, MetricsView};
use crate::text::{append_decimal, decimal};

verus! {

/// The pause after the failed attempt number `attempt`, counted from one:
/// the base delay, doubled for every earlier failure.
pub open spec fn backoff_millis(attempt: nat, base: nat) -> nat
    recommends
        attempt >= 1,
{
    base * pow2((attempt - 1) as nat)
}

/// `millis`, or the longest pause a `u64` can hold if that is shorter.
pub open spec fn capped(millis: nat) -> nat {
    if millis > u64::MAX {
        u64::MAX as nat
    } else {
        millis
    }
}

/// Computes the pause after the failed attempt number `attempt`. A pause
/// that does not fit in a `u64` is cut down to `u64::MAX` milliseconds.
pub fn backoff_delay(attempt: u32, base_ms: u64) -> (millis: u64)
    requires
        attempt >= 1,
    ensures
        millis == capped(backoff_millis(attempt as nat, base_ms as nat)),
{
    if base_ms == 0 {
        assert(0 * pow2((attempt - 1) as nat) == 0) by (nonlinear_arith);
        return 0;
    }
    let mut delay: u64 = base_ms;
    let mut k: u32 = 1;
    proof {
        lemma2_to64();
        assert(base_ms * pow2(0) == base_ms) by (nonlinear_arith)
            requires
                pow2(0) == 1,
        ;
    }
    while k < attempt
        invariant
            1 <= k <= attempt,
            base_ms > 0,
            delay == backoff_millis(k as nat, base_ms as nat),
        decreases attempt - k,
    {
        if delay > u64::MAX / 2 {
            proof {
                let here = pow2((k - 1) as nat);
                let last = pow2((attempt - 1) as nat);
                lemma_pow2_unfold(k as nat);
                if k < attempt - 1 {
                    lemma_pow2_strictly_increases(k as nat, (attempt - 1) as nat);
                }
                assert(last >= 2 * here);
                assert(base_ms * last >= base_ms * (2 * here)) by (nonlinear_arith)
                    requires
                        last >= 2 * here,
                        base_ms > 0,
                ;
                assert(base_ms * (2 * here) == 2 * (base_ms * here)) by (nonlinear_arith);
            }
            return u64::MAX;
        }
        proof {
            lemma_pow2_unfold(k as nat);
            assert(base_ms * (2 * pow2((k - 1) as nat)) == 2 * (base_ms * pow2((k - 1) as nat)))
                by (nonlinear_arith);
        }
        delay = delay * 2;
        k = k + 1;
    }
    delay
}

/// What one attempt came to: the payload, or why there is none.
pub open spec fn outcome_view(outcome: Result<String, AppError>) -> Result<
    Seq<char>,
    AppErrorView,
> {
    match outcome {
        Ok(body) => Ok(body@),
        Err(e) => Err(e@),
    }
}

/// What the caller saw of one attempt.
#[derive(Debug)]
pub enum AttemptReport {
    /// The payload arrived in time.
    Body(String),
    /// The attempt failed in time; the text says how.
    Failed(String),
    /// The deadline of the attempt expired.
    TimedOut,
}

/// The outcome that a report of an attempt at `url` amounts to.
pub open spec fn reported(url: Seq<char>, report: AttemptReport) -> Result<
    Seq<char>,
    AppErrorView,
> {
    match report {
        AttemptReport::Body(body) => Ok(body@),
        AttemptReport::Failed(cause) => Err(AppErrorView::HttpError { url, message: cause@ }),
        AttemptReport::TimedOut => Err(AppErrorView::TimeoutError(url)),
    }
}

/// Turns what the caller saw of an attempt at `url` into its outcome. An
/// expired deadline is a failure like any other, under a name of its own.
pub fn attempt_outcome(url: &str, report: AttemptReport) -> (res: Result<String, AppError>)
    ensures
        outcome_view(res) == reported(url@, report),
{
    match report {
        AttemptReport::Body(body) => Ok(body),
        AttemptReport::Failed(cause) => Err(AppError::http_error(url, cause.as_str())),
        AttemptReport::TimedOut => Err(AppError::TimeoutError(String::from_str(url))),
    }
}

/// The error that ends a request whose last allowed attempt failed with
/// `cause`. A deadline that expired is reported as a timeout of the target;
/// any other cause is wrapped, in words, in a request failure.
pub open spec fn exhausted_error(url: Seq<char>, attempts: nat, cause: AppErrorView)
    -> AppErrorView {
    match cause {
        AppErrorView::TimeoutError(_) => AppErrorView::TimeoutError(
            url + " after "@ + decimal(attempts) + " attempts"@,
        ),
        _ => AppErrorView::HttpError {
            url,
            message: "All "@ + decimal(attempts) + " attempts failed: "@ + message_of(cause),
        },
    }
}

/// The progress of one request through its attempts.
#[derive(Debug)]
pub struct Retry {
    url: String,
    max_attempts: u32,
    base_delay_ms: u64,
    failures: u32,
}

/// The mathematical content of a [`Retry`].
pub struct RetryView {
    pub url: Seq<char>,
    pub max_attempts: nat,
    pub base_delay_ms: nat,
    /// How many attempts have failed so far.
    pub failures: nat,
}

impl RetryView {
    /// At least one attempt is allowed, and not all of them have failed.
    pub open spec fn wf(self) -> bool {
        self.failures < self.max_attempts
    }

    /// The same request after one more failure.
    pub open spec fn failed_once_more(self) -> RetryView {
        RetryView { failures: self.failures + 1, ..self }
    }
}

/// What follows an attempt.
#[derive(Debug)]
pub enum Verdict {
    /// The request is over, with its payload or with the reason for none.
    Done(Result<String, AppError>),
    /// Pause for `delay_ms` milliseconds, then go on with `next`.
    RetryAfter { delay_ms: u64, next: Retry },
}

/// The mathematical content of a [`Verdict`].
pub enum VerdictView {
    Done(Result<Seq<char>, AppErrorView>),
    RetryAfter { delay_ms: nat, next: RetryView },
}

/// The rule by which an attempt's outcome is settled.
///
/// Success ends the request at once. So does cancellation, which is never
/// retried. Any other failure is retried after the pause that belongs to
/// it, unless it was the last attempt allowed.
pub open spec fn settled(state: RetryView, outcome: Result<Seq<char>, AppErrorView>)
    -> VerdictView {
    match outcome {
        Ok(body) => VerdictView::Done(Ok(body)),
        Err(AppErrorView::ShutdownError) => VerdictView::Done(Err(AppErrorView::ShutdownError)),
        Err(cause) => if state.failures + 1 >= state.max_attempts {
            VerdictView::Done(Err(exhausted_error(state.url, state.max_attempts, cause)))
        } else {
            VerdictView::RetryAfter {
                delay_ms: capped(backoff_millis(state.failures + 1, state.base_delay_ms)),
                next: state.failed_once_more(),
            }
        },
    }
}

/// The request `start` after `k` more failed attempts.
pub open spec fn after_failures(start: RetryView, k: nat) -> RetryView {
    RetryView { failures: start.failures + k, ..start }
}

/// The counters after one attempt has failed with each of `causes` in turn.
pub open spec fn counted_all(before: MetricsView, causes: Seq<AppErrorView>) -> MetricsView
    decreases causes.len(),
{
    if causes.len() == 0 {
        before
    } else {
        counted(counted_all(before, causes.drop_last()), Err(causes.last()))
    }
}

/// The counters after an attempt with the given outcome: one more request,
/// and one more failure unless the attempt succeeded or was cancelled.
pub open spec fn counted(before: MetricsView, outcome: Result<Seq<char>, AppErrorView>)
    -> MetricsView {
    let failed = outcome is Err && outcome != Err::<Seq<char>, AppErrorView>(
        AppErrorView::ShutdownError,
    );
    MetricsView {
        http_requests: bump(before.http_requests),
        http_failures: if failed {
            bump(before.http_failures)
        } else {
            before.http_failures
        },
        ..before
    }
}

impl View for Retry {
    type V = RetryView;

    closed spec fn view(&self) -> RetryView {
        RetryView {
            url: self.url@,
            max_attempts: self.max_attempts as nat,
            base_delay_ms: self.base_delay_ms as nat,
            failures: self.failures as nat,
        }
    }
}

impl View for Verdict {
    type V = VerdictView;

    open spec fn view(&self) -> VerdictView {
        match self {
            Verdict::Done(outcome) => VerdictView::Done(outcome_view(*outcome)),
            Verdict::RetryAfter { delay_ms, next } => VerdictView::RetryAfter {
                delay_ms: *delay_ms as nat,
                next: next@,
            },
        }
    }
}

fn exhausted(url: &str, attempts: u32, cause: &AppError) -> (res: AppError)
    ensures
        res@ == exhausted_error(url@, attempts as nat, cause@),
{
    match cause {
        AppError::TimeoutError(_) => {
            let mut text = String::from_str(url);
            text.append(" after ");
            append_decimal(&mut text, attempts as u64);
            text.append(" attempts");
            AppError::TimeoutError(text)
        },
        _ => {
            let mut text = String::from_str("All ");
            append_decimal(&mut text, attempts as u64);
            text.append(" attempts failed: ");
            let why = cause.message();
            text.append(why.as_str());
            AppError::HttpError { url: String::from_str(url), message: text }
        },
    }
}

impl Retry {
    #[verifier::type_invariant]
    spec fn inv(self) -> bool {
        self.failures < self.max_attempts
    }

    /// A request to `url` that has not been attempted yet. A request that
    /// may not be attempted even once is a configuration error.
    pub fn new(url: &str, max_attempts: u32, base_delay_ms: u64) -> (res: Result<Retry, AppError>)
        ensures
            match res {
                Ok(state) => max_attempts >= 1 && state@ == (RetryView {
                    url: url@,
                    max_attempts: max_attempts as nat,
                    base_delay_ms: base_delay_ms as nat,
                    failures: 0,
                }),
                Err(e) => max_attempts == 0 && e@ == AppErrorView::ConfigError(
                    "retry_attempts must be at least 1"@,
                ),
            },
    {
        if max_attempts == 0 {
            return Err(AppError::ConfigError(String::from_str("retry_attempts must be at least 1")));
        }
        Ok(Retry { url: String::from_str(url), max_attempts, base_delay_ms, failures: 0 })
    }

    /// Whether the next attempt may start: it may unless cancellation has
    /// been requested. To be asked before every attempt.
    pub fn permit(&self, cancelled: bool) -> (res: Result<(), AppError>)
        ensures
            match res {
                Ok(()) => !cancelled,
                Err(e) => cancelled && e@ == AppErrorView::ShutdownError,
            },
    {
        if cancelled {
            Err(AppError::ShutdownError)
        } else {
            Ok(())
        }
    }

    /// How many attempts have failed so far.
    pub fn failures(&self) -> (n: u32)
        ensures
            n == self@.failures,
            self@.wf(),
    {
        proof {
            use_type_invariant(self);
        }
        self.failures
    }

    /// Settles the outcome of the attempt that just ended and counts it.
    pub fn settle(self, outcome: Result<String, AppError>, metrics: &mut Metrics) -> (res: Verdict)
        ensures
            res@ == settled(self@, outcome_view(outcome)),
            final(metrics)@ == counted(old(metrics)@, outcome_view(outcome)),
    {
        proof {
            use_type_invariant(&self);
        }
        metrics.record_http_request();
        match outcome {
            Ok(body) => Verdict::Done(Ok(body)),
            Err(AppError::ShutdownError) => Verdict::Done(Err(AppError::ShutdownError)),
            Err(cause) => {
                metrics.record_http_failure();
                let failures = self.failures + 1;
                if failures >= self.max_attempts {
                    Verdict::Done(Err(exhausted(self.url.as_str(), self.max_attempts, &cause)))
                } else {
                    let delay_ms = backoff_delay(failures, self.base_delay_ms);
                    Verdict::RetryAfter {
                        delay_ms,
                        next: Retry {
                            url: self.url,
                            max_attempts: self.max_attempts,
                            base_delay_ms: self.base_delay_ms,
                            failures,
                        },
                    }
                }
            },
        }
    }
}

/// A request whose every attempt fails is attempted exactly as often as
/// allowed. After the failure of attempt `k`, for every `k` short of the
/// last, the caller is told to pause for the base delay doubled `k - 1`
/// times (cut down to what a `u64` holds) and to go on. The failure of the
/// last attempt ends the request with the error made from its own cause.
///
/// `causes[k - 1]` is the cause with which attempt `k` fails; none of them
/// is a cancellation, which would end the request at once.
pub proof fn lemma_always_failing(start: RetryView, causes: Seq<AppErrorView>)
    requires
        start.failures == 0,
        start.max_attempts >= 1,
        causes.len() == start.max_attempts,
        forall|k: int| 0 <= k < causes.len() ==> causes[k] != AppErrorView::ShutdownError,
    ensures
        forall|k: int|
            1 <= k < start.max_attempts ==> #[trigger] settled(
                after_failures(start, (k - 1) as nat),
                Err(causes[k - 1]),
            ) == (VerdictView::RetryAfter {
                delay_ms: capped(backoff_millis(k as nat, start.base_delay_ms)),
                next: after_failures(start, k as nat),
            }),
        settled(
            after_failures(start, (start.max_attempts - 1) as nat),
            Err(causes[start.max_attempts - 1]),
        ) == VerdictView::Done(
            Err(
                exhausted_error(
                    start.url,
                    start.max_attempts,
                    causes[start.max_attempts - 1],
                ),
            ),
        ),
{
}

/// The first pause is the base delay itself, and every later pause is
/// twice the one before.
pub proof fn lemma_backoff_doubles(k: nat, base: nat)
    requires
        k >= 1,
    ensures
        backoff_millis(1, base) == base,
        backoff_millis(k + 1, base) == 2 * backoff_millis(k, base),
{
    lemma2_to64();
    lemma_pow2_unfold(k);
    assert(base * pow2(0) == base) by (nonlinear_arith)
        requires
            pow2(0) == 1,
    ;
    assert(base * (2 * pow2((k - 1) as nat)) == 2 * (base * pow2((k - 1) as nat)))
        by (nonlinear_arith);
}

/// A later pause is never shorter than an earlier one.
pub proof fn lemma_backoff_grows(j: nat, k: nat, base: nat)
    requires
        1 <= j <= k,
    ensures
        backoff_millis(j, base) <= backoff_millis(k, base),
{
    if j < k {
        lemma_pow2_strictly_increases((j - 1) as nat, (k - 1) as nat);
    }
    assert(base * pow2((j - 1) as nat) <= base * pow2((k - 1) as nat)) by (nonlinear_arith)
        requires
            pow2((j - 1) as nat) <= pow2((k - 1) as nat),
    ;
}

/// Where the longest pause of a request fits in a `u64` of milliseconds,
/// the pauses of a request whose every attempt fails are exactly the base
/// delay doubled: after the failure of attempt `k`, for every `k` short of
/// the last, the pause is `base * 2^(k-1)`, and no pause follows the last
/// attempt.
pub proof fn lemma_always_failing_pauses(start: RetryView, causes: Seq<AppErrorView>)
    requires
        start.failures == 0,
        start.max_attempts >= 1,
        causes.len() == start.max_attempts,
        forall|k: int| 0 <= k < causes.len() ==> causes[k] != AppErrorView::ShutdownError,
        start.max_attempts >= 2 ==> backoff_millis(
            (start.max_attempts - 1) as nat,
            start.base_delay_ms,
        ) <= u64::MAX,
    ensures
        forall|k: int|
            1 <= k < start.max_attempts ==> #[trigger] settled(
                after_failures(start, (k - 1) as nat),
                Err(causes[k - 1]),
            ) == (VerdictView::RetryAfter {
                delay_ms: backoff_millis(k as nat, start.base_delay_ms),
                next: after_failures(start, k as nat),
            }),
        settled(
            after_failures(start, (start.max_attempts - 1) as nat),
            Err(causes[start.max_attempts - 1]),
        ) is Done,
{
    assert forall|k: int| 1 <= k < start.max_attempts implies #[trigger] settled(
        after_failures(start, (k - 1) as nat),
        Err(causes[k - 1]),
    ) == (VerdictView::RetryAfter {
        delay_ms: backoff_millis(k as nat, start.base_delay_ms),
        next: after_failures(start, k as nat),
    }) by {
        lemma_backoff_grows(k as nat, (start.max_attempts - 1) as nat, start.base_delay_ms);
    }
}

/// Every attempt is counted as one request, and every failed one as one
/// failure as well: after `k` failed attempts, `k` more of each.
pub proof fn lemma_failures_counted(before: MetricsView, causes: Seq<AppErrorView>)
    requires
        before.wf(),
        forall|k: int| 0 <= k < causes.len() ==> causes[k] != AppErrorView::ShutdownError,
    ensures
        counted_all(before, causes).http_requests == advanced(before.http_requests, causes.len()),
        counted_all(before, causes).http_failures == advanced(before.http_failures, causes.len()),
        counted_all(before, causes).articles_fetched == before.articles_fetched,
        counted_all(before, causes).articles_failed == before.articles_failed,
        counted_all(before, causes).wf(),
    decreases causes.len(),
{
    if causes.len() > 0 {
        lemma_failures_counted(before, causes.drop_last());
    }
}

} // verus!
