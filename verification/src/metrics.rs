//! Counters of what the pipeline did.

use vstd::prelude::*;
use vstd::string::*;
use crate::text::{append_decimal, decimal};

verus! {

/// Four event counters. Each wraps around to zero after `u64::MAX`.
#[derive(Debug, Clone, Copy)]
pub struct Metrics {
    articles_fetched: u64,
    articles_failed: u64,
    http_requests: u64,
    http_failures: u64,
}

/// The counts a [`Metrics`] holds.
pub struct MetricsView {
    pub articles_fetched: nat,
    pub articles_failed: nat,
    pub http_requests: nat,
    pub http_failures: nat,
}

impl MetricsView {
    /// Every count fits a 64-bit counter.
    pub open spec fn wf(self) -> bool {
        &&& self.articles_fetched <= u64::MAX
        &&& self.articles_failed <= u64::MAX
        &&& self.http_requests <= u64::MAX
        &&& self.http_failures <= u64::MAX
    }
}

/// The count that follows `n` in a 64-bit counter.
pub open spec fn bump(n: nat) -> nat {
    if n >= u64::MAX {
        0
    } else {
        n + 1
    }
}

/// A 64-bit counter that stood at `count`, after `by` more events.
pub open spec fn advanced(count: nat, by: nat) -> nat {
    (count + by) % 0x1_0000_0000_0000_0000
}

/// The one-line report of the four counts.
pub open spec fn summary_of(m: MetricsView) -> Seq<char> {
    "Metrics summary: articles_fetched="@ + decimal(m.articles_fetched) + " articles_failed="@
        + decimal(m.articles_failed) + " http_requests="@ + decimal(m.http_requests)
        + " http_failures="@ + decimal(m.http_failures)
}

fn next_count(n: u64) -> (res: u64)
    ensures
        res == bump(n as nat),
{
    if n == u64::MAX {
        0
    } else {
        n + 1
    }
}

impl View for Metrics {
    type V = MetricsView;

    closed spec fn view(&self) -> MetricsView {
        MetricsView {
            articles_fetched: self.articles_fetched as nat,
            articles_failed: self.articles_failed as nat,
            http_requests: self.http_requests as nat,
            http_failures: self.http_failures as nat,
        }
    }
}

impl Metrics {
    /// The counts of a `Metrics` fit its counters.
    pub proof fn lemma_counts_fit(&self)
        ensures
            self@.wf(),
    {
    }

    /// All counters at zero.
    pub fn new() -> (res: Self)
        ensures
            res@ == (MetricsView {
                articles_fetched: 0,
                articles_failed: 0,
                http_requests: 0,
                http_failures: 0,
            }),
    {
        Self { articles_fetched: 0, articles_failed: 0, http_requests: 0, http_failures: 0 }
    }

    /// Counts one article obtained.
    pub fn record_article_fetched(&mut self)
        ensures
            final(self)@ == (MetricsView {
                articles_fetched: bump(old(self)@.articles_fetched),
                ..old(self)@
            }),
    {
        self.articles_fetched = next_count(self.articles_fetched);
    }

    /// Counts one article given up.
    pub fn record_article_failed(&mut self)
        ensures
            final(self)@ == (MetricsView {
                articles_failed: bump(old(self)@.articles_failed),
                ..old(self)@
            }),
    {
        self.articles_failed = next_count(self.articles_failed);
    }

    /// Counts one request attempt.
    pub fn record_http_request(&mut self)
        ensures
            final(self)@ == (MetricsView {
                http_requests: bump(old(self)@.http_requests),
                ..old(self)@
            }),
    {
        self.http_requests = next_count(self.http_requests);
    }

    /// Counts one failed request attempt.
    pub fn record_http_failure(&mut self)
        ensures
            final(self)@ == (MetricsView {
                http_failures: bump(old(self)@.http_failures),
                ..old(self)@
            }),
    {
        self.http_failures = next_count(self.http_failures);
    }

    pub fn articles_fetched(&self) -> (n: u64)
        ensures
            n == self@.articles_fetched,
    {
        self.articles_fetched
    }

    pub fn articles_failed(&self) -> (n: u64)
        ensures
            n == self@.articles_failed,
    {
        self.articles_failed
    }

    pub fn http_requests(&self) -> (n: u64)
        ensures
            n == self@.http_requests,
    {
        self.http_requests
    }

    pub fn http_failures(&self) -> (n: u64)
        ensures
            n == self@.http_failures,
    {
        self.http_failures
    }

    /// The one-line report of the four counts, for the caller to log.
    pub fn log_summary(&self) -> (res: String)
        ensures
            res@ == summary_of(self@),
    {
        let mut out = String::from_str("Metrics summary: articles_fetched=");
        append_decimal(&mut out, self.articles_fetched);
        out.append(" articles_failed=");
        append_decimal(&mut out, self.articles_failed);
        out.append(" http_requests=");
        append_decimal(&mut out, self.http_requests);
        out.append(" http_failures=");
        append_decimal(&mut out, self.http_failures);
        out
    }
}

impl Default for Metrics {
    fn default() -> (res: Self)
        ensures
            res@ == (MetricsView {
                articles_fetched: 0,
                articles_failed: 0,
                http_requests: 0,
                http_failures: 0,
            }),
    {
        Self::new()
    }
}

} // verus!
