//! The time of day.

use std::time::UNIX_EPOCH;
use vstd::prelude::*;

verus! {

/// The milliseconds in a reading of the clock, which gives the seconds and the nanoseconds since
/// the epoch. The count starts again from zero when it does not fit in sixty-four bits, and is
/// zero for a clock that stands before the epoch.
pub open spec fn millis_in(reading: Option<(u64, u32)>) -> int {
    match reading {
        Some((secs, nanos)) => (secs * 1000 + nanos as int / 1_000_000)
            % 0x1_0000_0000_0000_0000,
        None => 0,
    }
}

/// `SystemTime::elapsed`, of the epoch, gives the time that has passed since, in whole seconds
/// and the nanoseconds of the second that has begun, or an error for a clock that stands before
/// the epoch. Nothing is claimed of the time itself.
#[verifier::external_body]
pub(crate) fn read_clock() -> (reading: Option<(u64, u32)>)
    ensures
        reading matches Some(r) ==> r.1 < 1_000_000_000,
{
    match UNIX_EPOCH.elapsed() {
        Ok(passed) => Some((passed.as_secs(), passed.subsec_nanos())),
        Err(_) => None,
    }
}

/// Whether a reading is what the clock of the system shows when it is read.
pub closed spec fn clock_reads(reading: Option<(u64, u32)>) -> bool {
    call_ensures(read_clock, (), reading)
}

/// The milliseconds in a reading of the clock.
pub fn millis_of(reading: Option<(u64, u32)>) -> (millis: u64)
    ensures
        millis == millis_in(reading),
{
    match reading {
        Some((secs, nanos)) => {
            let total: u128 = secs as u128 * 1000 + (nanos / 1_000_000) as u128;
            let kept: u128 = total % 0x1_0000_0000_0000_0000u128;
            kept as u64
        },
        None => 0,
    }
}

/// The milliseconds since the epoch.
pub fn now_millis() -> (millis: u64)
    ensures
        exists|reading: Option<(u64, u32)>|
            #[trigger] clock_reads(reading) && millis == millis_in(reading),
{
    let reading = read_clock();
    assert(clock_reads(reading));
    millis_of(reading)
}

} // verus!
