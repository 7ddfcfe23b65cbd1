//! The countdown of the allotted time.
use vstd::prelude::*;

verus! {

/// Relies on `chrono::Local::now` and `DateTime::timestamp`: the current time as
/// whole seconds since the Unix epoch.
#[verifier::external_body]
fn now_seconds() -> (r: i64) {
    chrono::Local::now().timestamp()
}

/// Seconds left at time `now` of `duration` seconds started at `start`: never
/// more than the duration, never below zero.
pub open spec fn remaining_secs(start: i64, duration: u64, now: i64) -> int {
    let elapsed = if now - start > 0 { now - start } else { 0 };
    if elapsed >= duration {
        0
    } else {
        duration - elapsed
    }
}

/// A countdown of a fixed number of seconds.
pub struct Timer {
    start_time: i64,
    duration: u64,
}

impl Timer {
    pub closed spec fn start(&self) -> i64 {
        self.start_time
    }

    pub closed spec fn length(&self) -> u64 {
        self.duration
    }

    /// A countdown of `seconds` starting now.
    pub fn new(seconds: u64) -> (r: Timer)
        ensures
            r.length() == seconds,
    {
        Timer { start_time: now_seconds(), duration: seconds }
    }

    /// A countdown of `seconds` started at `start` (seconds since the Unix epoch).
    pub fn starting_at(start: i64, seconds: u64) -> (r: Timer)
        ensures
            r.start() == start,
            r.length() == seconds,
    {
        Timer { start_time: start, duration: seconds }
    }

    /// Seconds left at time `now`.
    pub fn remaining_at(&self, now: i64) -> (r: u64)
        ensures
            r == remaining_secs(self.start(), self.length(), now),
            r <= self.length(),
    {
        let elapsed: i128 = now as i128 - self.start_time as i128;
        if elapsed <= 0 {
            self.duration
        } else if elapsed >= self.duration as i128 {
            0
        } else {
            (self.duration as i128 - elapsed) as u64
        }
    }

    /// Seconds left now.
    pub fn remaining(&self) -> (r: u64)
        ensures
            r <= self.length(),
    {
        self.remaining_at(now_seconds())
    }

    /// Whether no time is left at `now`; the examination is then handed in.
    pub fn expired_at(&self, now: i64) -> (r: bool)
        ensures
            r == (remaining_secs(self.start(), self.length(), now) == 0),
    {
        self.remaining_at(now) == 0
    }
}

/// Hours, minutes and seconds of a span of seconds.
pub fn clock_face(secs: u64) -> (r: (u64, u64, u64))
    ensures
        r.0 == secs / 3600,
        r.1 == (secs / 60) % 60,
        r.2 == secs % 60,
        r.0 * 3600 + r.1 * 60 + r.2 == secs,
{
    let h = secs / 3600;
    let m = (secs / 60) % 60;
    let s = secs % 60;
    assert(h * 3600 + m * 60 + s == secs) by (nonlinear_arith)
        requires
            h == secs / 3600,
            m == (secs / 60) % 60,
            s == secs % 60,
    ;
    (h, m, s)
}

} // verus!
