//! Wall-clock access. The time is outside the reach of any proof: nothing is
//! stated of the values read here beyond their type.

use std::time::{SystemTime, UNIX_EPOCH};
use vstd::prelude::*;

verus! {

#[verifier::external_type_specification]
#[verifier::external_body]
pub struct ExSystemTime(SystemTime);

/// Trusted: `SystemTime::now()`. Nothing is stated of the instant returned.
#[verifier::external_body]
pub(crate) fn system_time_now() -> SystemTime {
    SystemTime::now()
}

/// Trusted: `t.duration_since(UNIX_EPOCH)` in whole seconds, `None` when `t`
/// lies before the epoch. Nothing is stated of the number of seconds.
#[verifier::external_body]
pub(crate) fn secs_since_unix_epoch(t: &SystemTime) -> Option<u64> {
    t.duration_since(UNIX_EPOCH).ok().map(|d| d.as_secs())
}

/// The whole seconds read from the clock, or 0 when the clock read a time
/// before the epoch (`None`).
pub fn secs_or_zero(secs: Option<u64>) -> (n: u64)
    ensures
        n == (match secs {
            Some(s) => s,
            None => 0u64,
        }),
{
    match secs {
        Some(s) => s,
        None => 0,
    }
}

/// `secs` is what reading the clock can give: the whole seconds between an
/// instant `SystemTime::now` returned and the epoch, `None` for an instant
/// before it.
pub closed spec fn epoch_secs_read(secs: Option<u64>) -> bool {
    exists|t: SystemTime|
        #[trigger] call_ensures(system_time_now, (), t) && call_ensures(
            secs_since_unix_epoch,
            (&t,),
            secs,
        )
}

/// `t` is a reading [`unix_timestamp`] can give: the clock's seconds since
/// the epoch at the moment of the call.
pub open spec fn clock_reading(t: u64) -> bool {
    call_ensures(unix_timestamp, (), t)
}

/// Seconds since the Unix epoch now; 0 when the clock reads a time before
/// the epoch. The seconds are the clock's; [`secs_or_zero`] states how a
/// reading becomes the result.
pub fn unix_timestamp() -> (n: u64)
    ensures
        exists|secs: Option<u64>|
            #[trigger] epoch_secs_read(secs) && n == (match secs {
                Some(s) => s,
                None => 0u64,
            }),
{
    let now = system_time_now();
    let secs = secs_since_unix_epoch(&now);
    assert(call_ensures(system_time_now, (), now));
    assert(epoch_secs_read(secs));
    secs_or_zero(secs)
}

/// Law: a reading of [`unix_timestamp`] is the clock's: the whole seconds
/// since the epoch of an instant `SystemTime::now` gave, or 0 for an instant
/// before the epoch. A fixed value is not a reading unless the clock gave it.
pub proof fn lemma_clock_reading_is_the_clock(t: u64)
    requires
        clock_reading(t),
    ensures
        exists|secs: Option<u64>|
            #[trigger] epoch_secs_read(secs) && t == (match secs {
                Some(s) => s,
                None => 0u64,
            }),
{
}

} // verus!
