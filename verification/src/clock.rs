//! Spans of time, in milliseconds.

use vstd::prelude::*;

verus! {

/// A span of time as `Duration` prints it for debugging.
pub uninterp spec fn duration_debug_text(ms: u64) -> Seq<char>;

/// The `Debug` format of `std::time::Duration`: a text that depends on the
/// span alone. What the text is, is not stated.
#[verifier::external_body]
pub(crate) fn duration_text(ms: u64) -> (r: String)
    ensures
        r@ == duration_debug_text(ms),
{
    format!("{:?}", std::time::Duration::from_millis(ms))
}

pub open spec fn at_least(a: u64, b: u64) -> u64 {
    if a < b {
        b
    } else {
        a
    }
}

pub open spec fn at_most(a: u64, b: u64) -> u64 {
    if a > b {
        b
    } else {
        a
    }
}

pub fn max_ms(a: u64, b: u64) -> (r: u64)
    ensures
        r == at_least(a, b),
{
    if a < b {
        b
    } else {
        a
    }
}

pub fn min_ms(a: u64, b: u64) -> (r: u64)
    ensures
        r == at_most(a, b),
{
    if a > b {
        b
    } else {
        a
    }
}

/// How long to go on waiting: none when the time is up.
pub open spec fn time_left(elapsed_ms: u64, timeout_ms: u64) -> Option<u64> {
    if elapsed_ms >= timeout_ms {
        None
    } else {
        Some((timeout_ms - elapsed_ms) as u64)
    }
}

pub fn remaining_ms(elapsed_ms: u64, timeout_ms: u64) -> (r: Option<u64>)
    ensures
        r == time_left(elapsed_ms, timeout_ms),
{
    if elapsed_ms >= timeout_ms {
        None
    } else {
        Some(timeout_ms - elapsed_ms)
    }
}

/// Time is left exactly as long as less than the whole has passed, and what is left and
/// what has passed make the whole.
pub proof fn law_time_runs_out(elapsed_ms: u64, timeout_ms: u64)
    ensures
        time_left(elapsed_ms, timeout_ms) is Some <==> elapsed_ms < timeout_ms,
        time_left(elapsed_ms, timeout_ms) matches Some(ms) ==> ms + elapsed_ms == timeout_ms,
{
}

/// Of two numbers the larger one, and the smaller one.
pub proof fn law_larger_and_smaller(a: u64, b: u64)
    ensures
        at_least(a, b) >= a && at_least(a, b) >= b && (at_least(a, b) == a || at_least(a, b) == b),
        at_most(a, b) <= a && at_most(a, b) <= b && (at_most(a, b) == a || at_most(a, b) == b),
{
}

} // verus!
