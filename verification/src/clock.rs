//! The wall clock, read in whole seconds relative to the Unix epoch.

use std::time::Duration;
use std::time::SystemTimeError;
use std::time::UNIX_EPOCH;
use vstd::prelude::*;

verus! {

/// What `SystemTime` hands back when asked for the time since a moment that
/// has not come yet. It holds how far away that moment is.
#[verifier::external_type_specification]
#[verifier::external_body]
pub struct ExSystemTimeError(SystemTimeError);

/// `Duration::as_secs`: the whole seconds of the duration. Nothing is
/// claimed of their number.
pub assume_specification[ Duration::as_secs ](d: &Duration) -> (secs: u64);

/// `SystemTimeError::duration`: how far the clock was from the moment asked
/// about. Nothing is claimed of it.
pub assume_specification[ SystemTimeError::duration ](e: &SystemTimeError) -> (distance: Duration);

/// `SystemTime::elapsed` on the Unix epoch: the time from the epoch to now,
/// or, on a clock set before the epoch, the error that holds the distance.
/// The result is the clock's; nothing is claimed of it.
#[verifier::external_body]
fn since_epoch() -> (elapsed: Result<Duration, SystemTimeError>) {
    UNIX_EPOCH.elapsed()
}

/// The timestamp of the moment `secs` whole seconds after the epoch: `secs`
/// itself where a signed 64-bit integer holds it, and `secs` wrapped into
/// that range where not.
pub open spec fn after_epoch(secs: u64) -> int {
    if secs <= i64::MAX {
        secs as int
    } else {
        secs - 0x1_0000_0000_0000_0000
    }
}

/// The timestamp of the moment `secs` whole seconds before the epoch:
/// `-secs` where a signed 64-bit integer holds it, and `-secs` wrapped into
/// that range where not.
pub open spec fn before_epoch(secs: u64) -> int {
    if secs <= 0x8000_0000_0000_0000 {
        -(secs as int)
    } else {
        0x1_0000_0000_0000_0000 - secs
    }
}

/// The timestamp of the moment `secs` whole seconds after the epoch.
pub fn seconds_after_epoch(secs: u64) -> (stamp: i64)
    ensures
        stamp == after_epoch(secs),
{
    if secs <= 0x7fff_ffff_ffff_ffff {
        secs as i64
    } else {
        let over: u64 = secs - 0x8000_0000_0000_0000;
        (over as i64) + i64::MIN
    }
}

/// The timestamp of the moment `secs` whole seconds before the epoch.
pub fn seconds_before_epoch(secs: u64) -> (stamp: i64)
    ensures
        stamp == before_epoch(secs),
{
    if secs <= 0x7fff_ffff_ffff_ffff {
        -(secs as i64)
    } else if secs == 0x8000_0000_0000_0000 {
        i64::MIN
    } else {
        let back: u64 = 0xffff_ffff_ffff_ffff - secs;
        (back as i64) + 1
    }
}

/// Reads the wall clock: whole seconds since the Unix epoch, negative on a
/// clock that is set before it. The value is the clock's, so nothing is
/// promised of it.
pub fn unix_time() -> i64 {
    timestamp(read_clock())
}

/// Reads the wall clock: its distance from the Unix epoch in whole seconds,
/// `Ok` where the clock is at or after the epoch, `Err` where it is before.
/// The fraction of a second is left off. The reading is the clock's, so
/// nothing is promised of it.
pub fn read_clock() -> (reading: Result<u64, u64>) {
    match since_epoch() {
        Ok(elapsed) => Ok(elapsed.as_secs()),
        Err(early) => {
            let distance = early.duration();
            Err(distance.as_secs())
        },
    }
}

/// The timestamp that a reading of the clock stands for. A reading is the
/// clock's distance from the epoch in whole seconds: `Ok` where the clock is
/// at or after the epoch, `Err` where it is before.
pub open spec fn stamp_of(reading: Result<u64, u64>) -> int {
    match reading {
        Ok(secs) => after_epoch(secs),
        Err(secs) => before_epoch(secs),
    }
}

/// The timestamp that a reading of the clock stands for.
pub fn timestamp(reading: Result<u64, u64>) -> (stamp: i64)
    ensures
        stamp == stamp_of(reading),
{
    match reading {
        Ok(secs) => seconds_after_epoch(secs),
        Err(secs) => seconds_before_epoch(secs),
    }
}

} // verus!
