use std::time::Duration;
use vstd::prelude::*;

verus! {

/// The whole milliseconds in `interval`: what `Duration::as_millis` returns.
pub uninterp spec fn duration_millis(interval: Duration) -> u128;

/// `Duration::as_millis` returns the total number of whole milliseconds
/// that the duration contains. The contract only gives that number its name.
pub assume_specification[ Duration::as_millis ](interval: &Duration) -> (millis: u128)
    ensures
        millis == duration_millis(*interval),
;

/// `Duration::from_millis` makes the duration of that many milliseconds, so
/// the whole milliseconds in the result are the argument.
pub assume_specification[ Duration::from_millis ](millis: u64) -> (interval: Duration)
    ensures
        duration_millis(interval) == millis,
;

/// The low 32 bits of `n`, read as a signed number.
pub open spec fn wrap_to_i32(n: int) -> int {
    let low = n % 0x1_0000_0000;
    if low >= 0x8000_0000 {
        low - 0x1_0000_0000
    } else {
        low
    }
}

/// The timeout, in milliseconds, that a poll is given for `interval`.
pub open spec fn timeout_millis(interval: Duration) -> int {
    wrap_to_i32(duration_millis(interval) as int)
}

/// The timeout of one poll: the interval's whole milliseconds, cut to the 32
/// bits of the consumer's timeout argument. An interval of up to `i32::MAX`
/// milliseconds comes out unchanged.
pub fn poll_timeout(interval: Duration) -> (timeout_ms: i32)
    ensures
        timeout_ms == timeout_millis(interval),
        duration_millis(interval) <= i32::MAX ==> timeout_ms == duration_millis(interval),
{
    let millis: u128 = interval.as_millis();
    let low: u128 = millis % 0x1_0000_0000;
    if low >= 0x8000_0000 {
        let below: u128 = 0x1_0000_0000 - low;
        let magnitude: i64 = below as i64;
        (-magnitude) as i32
    } else {
        low as i32
    }
}

} // verus!
