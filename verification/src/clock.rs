//! The wall clock, read once per request. Everything downstream takes the
//! reading as an argument, so the logic is verified for every possible time.

use vstd::prelude::*;

use std::time::SystemTime;
use std::time::UNIX_EPOCH;

verus! {

/// Relies on std::time::SystemTime::now and duration_since: seconds since
/// the Unix epoch, or 0 when the system clock reads before the epoch (a
/// documented degraded mode, not a crash).
#[verifier::external_body]
pub fn now_unix_seconds() -> u64 {
    match SystemTime::now().duration_since(UNIX_EPOCH) {
        Ok(d) => d.as_secs(),
        Err(_) => 0,
    }
}

/// Whole minutes since the Unix epoch, as the ban tracker stores time.
pub open spec fn minutes_of_seconds(seconds: u64) -> int {
    seconds as int / 60
}

/// The current minute, from one clock reading.
pub fn now_minutes() -> (r: i64)
    ensures
        0 <= r,
{
    let s = now_unix_seconds();
    minutes_for(s)
}

/// The minute that a clock reading of `seconds` falls in.
pub fn minutes_for(seconds: u64) -> (r: i64)
    ensures
        r == minutes_of_seconds(seconds),
        0 <= r,
{
    let m = seconds / 60;
    proof {
        vstd::arithmetic::div_mod::lemma_div_is_ordered(
            seconds as int,
            u64::MAX as int,
            60,
        );
        assert(u64::MAX as int / 60 < i64::MAX as int);
    }
    m as i64
}

} // verus!
