//! Deadlines of timed waits, and what a timed wait's native status means.
use vstd::prelude::*;

use crate::fault::{Fault, STATUS_OK};

verus! {

/// The native "operation timed out" status.
pub const ERR_ETIMEDOUT: i32 = 116;

pub const NANOS_PER_SEC: u32 = 1_000_000_000;

pub const MICROS_PER_SEC: i32 = 1_000_000;

/// Wall-clock time as the native clock query reports it.
#[derive(Clone, Copy, Debug, PartialEq, Eq, Structural)]
pub struct TimeVal {
    pub tv_sec: i64,
    pub tv_usec: i32,
}

/// An absolute deadline as the native timed wait takes it.
#[derive(Clone, Copy, Debug, PartialEq, Eq, Structural)]
pub struct TimeSpec {
    pub tv_sec: i64,
    pub tv_nsec: i32,
}

impl TimeVal {
    /// The clock reports microseconds below one second.
    pub open spec fn wf(&self) -> bool {
        0 <= self.tv_usec < MICROS_PER_SEC
    }

    pub open spec fn nanos(&self) -> int {
        self.tv_sec * 1_000_000_000 + self.tv_usec * 1000
    }
}

impl TimeSpec {
    /// Nanoseconds below one second, as the native timed wait requires.
    pub open spec fn wf(&self) -> bool {
        0 <= self.tv_nsec < NANOS_PER_SEC
    }

    pub open spec fn nanos(&self) -> int {
        self.tv_sec * 1_000_000_000 + self.tv_nsec
    }
}

/// The latest instant a `TimeSpec` can hold.
pub open spec fn latest_nanos() -> int {
    i64::MAX * 1_000_000_000 + 999_999_999
}

/// The instant `now + secs + nanos`, or the latest one a `TimeSpec` can hold
/// where the sum lies beyond it.
pub open spec fn deadline_nanos(now: TimeVal, secs: u64, nanos: u32) -> int {
    let sum = now.nanos() + secs * 1_000_000_000 + nanos;
    if sum <= latest_nanos() {
        sum
    } else {
        latest_nanos()
    }
}

/// The absolute deadline `now + secs + nanos`, normalized.
///
/// Where the sum lies beyond what a `TimeSpec` can hold, the deadline is the
/// latest instant it can hold, so that a very long wait never ends early.
pub fn deadline(now: TimeVal, secs: u64, nanos: u32) -> (r: TimeSpec)
    requires
        now.wf(),
        nanos < NANOS_PER_SEC,
    ensures
        r.wf(),
        r.nanos() == deadline_nanos(now, secs, nanos),
{
    let mut sec: i128 = now.tv_sec as i128 + secs as i128;
    let mut nsec: i64 = now.tv_usec as i64 * 1000 + nanos as i64;
    if nsec >= NANOS_PER_SEC as i64 {
        sec = sec + 1;
        nsec = nsec - NANOS_PER_SEC as i64;
    }
    if sec > i64::MAX as i128 {
        TimeSpec { tv_sec: i64::MAX, tv_nsec: 999_999_999 }
    } else {
        TimeSpec { tv_sec: sec as i64, tv_nsec: nsec as i32 }
    }
}

/// Whether `deadline` is at or before `now`.
pub fn has_passed(deadline: TimeSpec, now: TimeSpec) -> (r: bool)
    requires
        deadline.wf(),
        now.wf(),
    ensures
        r == (deadline.nanos() <= now.nanos()),
{
    deadline.tv_sec < now.tv_sec || (deadline.tv_sec == now.tv_sec && deadline.tv_nsec
        <= now.tv_nsec)
}

/// Reads the status of a native timed wait: `Ok(true)` when the deadline
/// elapsed, `Ok(false)` when the wait was woken before it.
pub fn wait_status(status: i32) -> (r: Result<bool, Fault>)
    ensures
        status == ERR_ETIMEDOUT ==> r == Ok::<bool, Fault>(true),
        status == STATUS_OK ==> r == Ok::<bool, Fault>(false),
        status != ERR_ETIMEDOUT && status != STATUS_OK ==> r == Err::<bool, Fault>(
            Fault::Native(status),
        ),
{
    if status == ERR_ETIMEDOUT {
        Ok(true)
    } else if status == STATUS_OK {
        Ok(false)
    } else {
        Err(Fault::Native(status))
    }
}

} // verus!
