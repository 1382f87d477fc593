//! A monotonic point in time, on a clock that continues to advance while the system is asleep.

use std::time::Duration;
use vstd::prelude::*;

verus! {

/// The `Duration` that `Duration::from_nanos` returns for `nanos`.
pub uninterp spec fn duration_from_nanos_spec(nanos: u64) -> Duration;

/// The total number of nanoseconds of `d`, as `Duration::as_nanos` returns it.
pub uninterp spec fn duration_total_nanos(d: Duration) -> u128;

/// Calls `Duration::from_nanos`. The contract names the result, and claims what the
/// documentation says of it: a `Duration` of exactly `nanos` nanoseconds.
#[verifier::external_body]
pub(crate) fn duration_from_nanos(nanos: u64) -> (d: Duration)
    ensures
        d == duration_from_nanos_spec(nanos),
        duration_total_nanos(d) == nanos,
{
    Duration::from_nanos(nanos)
}

/// Calls `Duration::as_nanos`: the total nanoseconds of `d`. A `Duration` is its whole seconds and
/// its nanoseconds below a second, so one whose total fits a `u64` is what `Duration::from_nanos`
/// makes of that total.
#[verifier::external_body]
pub(crate) fn duration_as_nanos(d: Duration) -> (r: u128)
    ensures
        r == duration_total_nanos(d),
        r <= u64::MAX ==> d == duration_from_nanos_spec(r as u64),
{
    d.as_nanos()
}

/// Reads `CLOCK_BOOTTIME` with `nix::time::clock_gettime`: the seconds and nanoseconds that
/// the kernel reported, or `None` if the call failed. Nothing is stated of the values, which
/// come from the machine's clock.
#[verifier::external_body]
fn read_boot_clock() -> (r: Option<(i64, i64)>) {
    match nix::time::clock_gettime(nix::time::ClockId::CLOCK_BOOTTIME) {
        Ok(t) => Some((t.tv_sec(), t.tv_nsec())),
        Err(_) => None,
    }
}

/// A monotonic point in time, on a clock that continues to advance while the system is asleep,
/// hibernating, or otherwise suspended.
#[derive(Copy, Clone, Debug, Eq, PartialEq, Structural, Ord, PartialOrd, Hash)]
pub struct WakeInstant {
    nanos: u64,
}

impl View for WakeInstant {
    type V = u64;

    /// Nanoseconds since boot.
    closed spec fn view(&self) -> u64 {
        self.nanos
    }
}

/// The nanoseconds of a clock reading, if it is non-negative and fits in a `u64`.
pub open spec fn clock_nanos(sec: i64, nsec: i64) -> Option<u64> {
    if 0 <= sec && 0 <= nsec && sec * 1_000_000_000 + nsec <= u64::MAX {
        Some((sec * 1_000_000_000 + nsec) as u64)
    } else {
        None
    }
}

/// Nanoseconds from `from` to `target`, or zero if `from` is later than `target`.
pub open spec fn nanos_until(target: u64, from: u64) -> u64 {
    if from <= target {
        (target - from) as u64
    } else {
        0
    }
}

impl WakeInstant {
    /// The instant that a clock reading of `sec` seconds and `nsec` nanoseconds stands for.
    /// `None` if the reading is negative or does not fit in 64 bits of nanoseconds.
    pub fn from_clock(sec: i64, nsec: i64) -> (r: Option<WakeInstant>)
        ensures
            r matches Some(w) ==> clock_nanos(sec, nsec) == Some(w@),
            r is None <==> clock_nanos(sec, nsec) is None,
    {
        if sec < 0 || nsec < 0 {
            return None;
        }
        let secs = sec as u64;
        let nsecs = nsec as u64;
        match secs.checked_mul(1_000_000_000) {
            Some(base) => match base.checked_add(nsecs) {
                Some(nanos) => Some(WakeInstant { nanos }),
                None => None,
            },
            None => None,
        }
    }

    /// The current instant, or `None` if the clock cannot be read or its reading does not fit in
    /// 64 bits of nanoseconds.
    pub fn now() -> (r: Option<WakeInstant>) {
        match read_boot_clock() {
            Some((sec, nsec)) => WakeInstant::from_clock(sec, nsec),
            None => None,
        }
    }

    /// The time from `earlier` to `self`, or `None` if `earlier` is later than `self`.
    pub fn checked_duration_since(self, earlier: Self) -> (r: Option<Duration>)
        ensures
            r is Some <==> earlier@ <= self@,
            r matches Some(d) ==> d == duration_from_nanos_spec((self@ - earlier@) as u64),
            r matches Some(d) ==> duration_total_nanos(d) == self@ - earlier@,
    {
        match self.nanos.checked_sub(earlier.nanos) {
            Some(nanos) => Some(duration_from_nanos(nanos)),
            None => None,
        }
    }

    /// This instant moved `rhs` later. The sum must fit in 64 bits of nanoseconds.
    pub fn add_duration(self, rhs: Duration) -> (r: WakeInstant)
        requires
            self@ + duration_total_nanos(rhs) <= u64::MAX,
        ensures
            r@ == self@ + duration_total_nanos(rhs),
            rhs == duration_from_nanos_spec((r@ - self@) as u64),
    {
        let nanos = duration_as_nanos(rhs);
        WakeInstant { nanos: self.nanos + nanos as u64 }
    }

    /// This instant moved `rhs` later, or `None` if that does not fit in 64 bits of nanoseconds.
    pub fn checked_add_duration(self, rhs: Duration) -> (r: Option<WakeInstant>)
        ensures
            r is Some <==> self@ + duration_total_nanos(rhs) <= u64::MAX,
            r matches Some(w) ==> w@ == self@ + duration_total_nanos(rhs) && rhs == duration_from_nanos_spec(
                (w@ - self@) as u64,
            ),
    {
        let nanos = duration_as_nanos(rhs);
        if nanos <= (u64::MAX - self.nanos) as u128 {
            Some(self.add_duration(rhs))
        } else {
            None
        }
    }

    /// How much time until this instant; `None` if the clock cannot be read.
    pub fn remaining(self) -> (r: Option<Duration>)
        ensures
            r matches Some(d) ==> exists|now: u64|
                d == duration_from_nanos_spec(#[trigger] nanos_until(self@, now)),
    {
        match WakeInstant::now() {
            Some(now) => Some(self.saturating_duration_since(now)),
            None => None,
        }
    }

    /// The time from `earlier` to `self`, or zero if `earlier` is later than `self`.
    pub fn saturating_duration_since(self, earlier: Self) -> (r: Duration)
        ensures
            r == duration_from_nanos_spec(nanos_until(self@, earlier@)),
            duration_total_nanos(r) == nanos_until(self@, earlier@),
            duration_total_nanos(r) == 0 <==> self@ <= earlier@,
    {
        duration_from_nanos(self.nanos.saturating_sub(earlier.nanos))
    }
}

/// Moving an instant later by a duration and measuring from the instant gives the duration back;
/// measuring the other way gives nothing unless the duration is zero.
pub proof fn lemma_add_duration_round_trip(b: WakeInstant, d: Duration, later: WakeInstant)
    requires
        later@ == b@ + duration_total_nanos(d),
        d == duration_from_nanos_spec((later@ - b@) as u64),
    ensures
        b@ <= later@,
        duration_from_nanos_spec((later@ - b@) as u64) == d,
        later@ <= b@ <==> duration_total_nanos(d) == 0,
{
}

} // verus!
