//! Spacing out requests.
//!
//! The token bucket is the `governor` crate's, and so is the clock it runs
//! on. This module decides whether a limiter can exist at all (one that
//! would never let a request pass is refused when it is made) and hands the
//! bucket's answers on to the caller, who does the waiting.

use vstd::prelude::*;
use vstd::string::*;
use std::num::NonZeroU32;
use governor::clock::Clock;
use governor::Quota;
use crate::error::{AppError, AppErrorView};

verus! {

/// A token bucket shared by all requests of one class. It refills at the
/// rate it was made for and never holds more than one second's worth.
///
/// The bucket is a `governor::DefaultDirectRateLimiter`. Proofs see
/// nothing of its state: all that is known about it is what the functions
/// of this module state.
#[verifier::external_body]
pub struct RateLimiter {
    limiter: governor::DefaultDirectRateLimiter,
}

/// The bucket's answer to a request for one cell.
#[derive(Debug, Clone, Copy)]
pub enum Admission {
    /// The cell was taken: the request may go ahead.
    Granted,
    /// No cell was taken. One may be available after this many nanoseconds.
    Wait { nanos: u64 },
}

/// The rate that a limiter was made for, in cells per second. Its bucket
/// holds at most that many cells, and one cell comes back every second
/// divided by the rate, in whole nanoseconds.
pub uninterp spec fn limiter_rate(limiter: RateLimiter) -> nat;

/// Builds the bucket with `Quota::per_second` and `RateLimiter::direct`.
/// `NonZeroU32::new` is why the rate must not be zero.
///
/// Taken for granted: the quota made by `per_second` allows a burst of
/// `rate` cells and gives one cell back every second divided by `rate`,
/// and the limiter keeps the quota it was made with.
#[verifier::external_body]
fn direct_limiter(rate: u32) -> (limiter: RateLimiter)
    requires
        rate > 0,
    ensures
        limiter_rate(limiter) == rate,
{
    let quota = Quota::per_second(NonZeroU32::new(rate).unwrap());
    RateLimiter { limiter: governor::RateLimiter::direct(quota) }
}

/// Calls `check` on the bucket. `None` stands for a cell taken; otherwise
/// the number is `NotUntil::wait_time_from` the bucket's own clock, in
/// nanoseconds. The answer depends on the time and on the other callers, so
/// nothing is claimed about it.
#[verifier::external_body]
fn check_cell(limiter: &RateLimiter) -> (wait: Option<u64>)
{
    match limiter.limiter.check() {
        Ok(()) => None,
        Err(denied) => Some(denied.wait_time_from(limiter.limiter.clock().now()).as_nanos() as u64),
    }
}

/// What the bucket's answer means for the caller: no wait stands for a
/// cell taken, and a wait is handed on as it is.
pub open spec fn admission_of(wait: Option<u64>) -> Admission {
    match wait {
        None => Admission::Granted,
        Some(nanos) => Admission::Wait { nanos },
    }
}

/// Turns the bucket's answer into the admission the caller acts on.
pub fn admission_for(wait: Option<u64>) -> (res: Admission)
    ensures
        res == admission_of(wait),
{
    match wait {
        None => Admission::Granted,
        Some(nanos) => Admission::Wait { nanos },
    }
}

impl RateLimiter {
    /// A limiter that lets `requests_per_second` requests pass per second.
    /// A rate of zero is refused: no request would ever pass.
    pub fn new(requests_per_second: u32) -> (res: Result<Self, AppError>)
        ensures
            requests_per_second > 0 ==> (res matches Ok(limiter) && limiter_rate(limiter)
                == requests_per_second),
            requests_per_second == 0 ==> (res matches Err(e) && e@ == AppErrorView::ConfigError(
                "requests_per_second must be greater than 0"@,
            )),
    {
        if requests_per_second == 0 {
            return Err(
                AppError::ConfigError(
                    String::from_str("requests_per_second must be greater than 0"),
                ),
            );
        }
        Ok(direct_limiter(requests_per_second))
    }

    /// Asks for one cell without waiting. On `Wait` the caller pauses for
    /// the time given and asks again.
    ///
    /// The answer is the bucket's, which goes by the time and by the other
    /// callers: it is [`admission_for`] what the bucket said, and nothing is
    /// known of it beforehand.
    pub fn acquire(&self) -> (res: Admission)
    {
        admission_for(check_cell(self))
    }
}

} // verus!
