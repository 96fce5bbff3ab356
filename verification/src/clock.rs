//! The time stamps that backup records carry.

use vstd::prelude::*;

verus! {

/// The last time stamp that the clock can give.
pub const LAST_TIMESTAMP: u64 = 253_402_207_200;

/// Seconds since the Unix epoch as records hold them: a time before the epoch counts as 0.
pub open spec fn timestamp_of(second: int) -> int {
    if second >= 0 {
        second
    } else {
        0
    }
}

/// `jiff::Timestamp::now` and `jiff::Timestamp::as_second`: the whole seconds between the Unix
/// epoch and now, inside the range of `jiff::Timestamp`. Which second it is depends on the system
/// clock, and a clock set outside that range makes `now` panic.
#[verifier::external_body]
fn now_second() -> (second: i64)
    ensures
        -377_705_023_201 <= second <= 253_402_207_200,
{
    jiff::Timestamp::now().as_second()
}

/// The time stamp for a number of seconds since the Unix epoch.
pub fn timestamp_from_second(second: i64) -> (timestamp: u64)
    ensures
        timestamp == timestamp_of(second as int),
{
    if second >= 0 {
        second as u64
    } else {
        0
    }
}

/// The time stamp of this moment.
pub fn current_timestamp() -> (timestamp: u64)
    ensures
        timestamp <= LAST_TIMESTAMP,
{
    timestamp_from_second(now_second())
}

/// A time stamp is the second itself, no time before the epoch has one of its own, and a later
/// second never has an earlier time stamp.
pub proof fn law_timestamps_follow_the_clock(second: int, later: int)
    requires
        second <= later,
    ensures
        0 <= second ==> timestamp_of(second) == second,
        second < 0 ==> timestamp_of(second) == 0,
        timestamp_of(second) <= timestamp_of(later),
{
}

} // verus!
