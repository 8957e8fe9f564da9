//! The settings the pipeline runs with, and the rules they must meet.

use vstd::prelude::*;
use vstd::string::*;
use std::time::Duration;
use crate::error::{AppError, AppErrorView};

verus! {

/// The length of a duration in nanoseconds.
pub uninterp spec fn duration_nanos(d: Duration) -> nat;

/// `Duration::from_secs` makes the duration of that many whole seconds.
pub assume_specification[ Duration::from_secs ](secs: u64) -> (d: Duration)
    ensures
        duration_nanos(d) == secs * 1_000_000_000,
;

/// `Duration::from_millis` makes the duration of that many milliseconds.
pub assume_specification[ Duration::from_millis ](millis: u64) -> (d: Duration)
    ensures
        duration_nanos(d) == millis * 1_000_000,
;

#[derive(Debug, Clone)]
pub struct HttpConfig {
    /// Deadline of one request attempt, in seconds.
    pub timeout_secs: u64,
    pub pool_max_idle_per_host: usize,
    /// How many times a request is attempted before it is given up.
    pub retry_attempts: u32,
    /// The pause before the first retry, in milliseconds.
    pub retry_delay_ms: u64,
}

#[derive(Debug, Clone)]
pub struct FetcherConfig {
    /// How many requests of one source may be in flight at once.
    pub max_concurrent_requests: usize,
    /// How many Hacker News stories are fetched at most.
    pub hacker_news_limit: usize,
}

#[derive(Debug, Clone)]
pub struct RateLimitConfig {
    pub requests_per_second: u32,
}

#[derive(Debug, Clone)]
pub struct AnalyzerConfig {
    pub rayon_threads: usize,
}

#[derive(Debug, Clone)]
pub struct KeywordsConfig {
    pub values: Vec<String>,
}

#[derive(Debug, Clone)]
pub struct Config {
    pub http: HttpConfig,
    pub fetcher: FetcherConfig,
    pub rate_limit: RateLimitConfig,
    pub analyzer: AnalyzerConfig,
    pub keywords: KeywordsConfig,
}

impl Config {
    /// The complaint about the first setting that breaks a rule, in the
    /// order in which the rules are checked, or `None` when all are met.
    pub open spec fn violation(&self) -> Option<Seq<char>> {
        if self.http.timeout_secs == 0 {
            Some("timeout_secs must be greater than 0"@)
        } else if self.http.retry_attempts == 0 {
            Some("retry_attempts must be greater than 0"@)
        } else if self.rate_limit.requests_per_second == 0 {
            Some("requests_per_second must be greater than 0"@)
        } else if self.fetcher.max_concurrent_requests == 0 {
            Some("max_concurrent_requests must be greater than 0"@)
        } else if self.analyzer.rayon_threads == 0 {
            Some("rayon_threads must be greater than 0"@)
        } else if self.keywords.values@.len() == 0 {
            Some("keywords list cannot be empty"@)
        } else {
            None
        }
    }

    /// Every rule is met: positive timeout, attempts, rate, concurrency and
    /// thread count, and at least one keyword.
    pub open spec fn is_valid(&self) -> bool {
        &&& self.http.timeout_secs > 0
        &&& self.http.retry_attempts > 0
        &&& self.rate_limit.requests_per_second > 0
        &&& self.fetcher.max_concurrent_requests > 0
        &&& self.analyzer.rayon_threads > 0
        &&& self.keywords.values@.len() > 0
    }

    /// A configuration is valid exactly when no rule has a complaint.
    pub proof fn lemma_valid_iff_no_violation(&self)
        ensures
            self.is_valid() <==> self.violation() is None,
    {
    }

    /// Accepts `candidate` as the configuration to run with if it meets every
    /// rule, and refuses it with the first complaint otherwise.
    pub fn load(candidate: Config) -> (res: Result<Config, AppError>)
        ensures
            match res {
                Ok(config) => config == candidate && candidate.is_valid(),
                Err(e) => candidate.violation() matches Some(why) && e@
                    == AppErrorView::ConfigError(why),
            },
    {
        match candidate.validate() {
            Ok(()) => Ok(candidate),
            Err(e) => Err(e),
        }
    }

    /// Checks the rules in a fixed order and reports the first one broken.
    pub fn validate(&self) -> (res: Result<(), AppError>)
        ensures
            match res {
                Ok(()) => self.is_valid(),
                Err(e) => self.violation() matches Some(why) && e@ == AppErrorView::ConfigError(
                    why,
                ),
            },
    {
        if self.http.timeout_secs == 0 {
            return Err(
                AppError::ConfigError(String::from_str("timeout_secs must be greater than 0")),
            );
        }
        if self.http.retry_attempts == 0 {
            return Err(
                AppError::ConfigError(String::from_str("retry_attempts must be greater than 0")),
            );
        }
        if self.rate_limit.requests_per_second == 0 {
            return Err(
                AppError::ConfigError(
                    String::from_str("requests_per_second must be greater than 0"),
                ),
            );
        }
        if self.fetcher.max_concurrent_requests == 0 {
            return Err(
                AppError::ConfigError(
                    String::from_str("max_concurrent_requests must be greater than 0"),
                ),
            );
        }
        if self.analyzer.rayon_threads == 0 {
            return Err(
                AppError::ConfigError(String::from_str("rayon_threads must be greater than 0")),
            );
        }
        if self.keywords.values.len() == 0 {
            return Err(AppError::ConfigError(String::from_str("keywords list cannot be empty")));
        }
        Ok(())
    }

    /// The deadline of one request attempt.
    pub fn timeout(&self) -> (d: Duration)
        ensures
            duration_nanos(d) == self.http.timeout_secs * 1_000_000_000,
    {
        Duration::from_secs(self.http.timeout_secs)
    }

    /// The pause before the first retry.
    pub fn retry_delay(&self) -> (d: Duration)
        ensures
            duration_nanos(d) == self.http.retry_delay_ms * 1_000_000,
    {
        Duration::from_millis(self.http.retry_delay_ms)
    }
}

} // verus!
