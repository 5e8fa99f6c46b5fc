//! Millisecond-precision monotonic time for the event loop.

use vstd::prelude::*;

verus! {

/// A span of time, split into whole seconds and a nanosecond remainder.
///
/// The loop only ever reads whole milliseconds out of a span; sub-millisecond
/// parts are truncated.
#[derive(Debug, Clone, Copy, PartialEq, Eq, Structural)]
pub struct Duration {
    pub secs: u64,
    pub nanos: u32,
}

/// The whole milliseconds contained in a span.
pub open spec fn duration_millis(d: Duration) -> int {
    d.secs * 1000 + d.nanos / 1_000_000
}

impl Duration {
    /// A well-formed span keeps its nanosecond part below one second.
    pub open spec fn wf(&self) -> bool {
        self.nanos < 1_000_000_000
    }

    pub fn new(secs: u64, nanos: u32) -> (r: Duration)
        requires
            nanos < 1_000_000_000,
        ensures
            r.secs == secs,
            r.nanos == nanos,
            r.wf(),
    {
        Duration { secs, nanos }
    }

    pub fn from_millis(ms: u64) -> (r: Duration)
        ensures
            r.wf(),
            duration_millis(r) == ms,
    {
        let r = Duration { secs: ms / 1000, nanos: ((ms % 1000) as u32) * 1_000_000 };
        proof {
            assert(duration_millis(r) == ms) by {
                assert(r.secs * 1000 + (ms % 1000) == ms) by (nonlinear_arith)
                    requires
                        r.secs == ms / 1000,
                ;
                assert(r.nanos / 1_000_000 == ms % 1000);
            }
        }
        r
    }

    pub fn zero() -> (r: Duration)
        ensures
            r.wf(),
            duration_millis(r) == 0,
    {
        Duration { secs: 0, nanos: 0 }
    }
}

/// The whole milliseconds of a span, as an executable value.
pub fn millis(dur: Duration) -> (r: u64)
    requires
        duration_millis(dur) <= u64::MAX,
    ensures
        r == duration_millis(dur),
{
    dur.secs * 1000 + (dur.nanos / 1_000_000) as u64
}

/// The current time of an event loop, in milliseconds from loop start.
///
/// The loop's clock starts at one, not zero, so that a time value is never
/// the all-zero bit pattern.
#[derive(Debug, Clone, Copy, PartialEq, Eq, PartialOrd, Ord, Structural)]
pub struct Time(pub u64);

impl Time {
    /// Zero time value, the starting point of a loop's clock; meant as a
    /// base for unit tests.
    pub fn zero() -> (r: Time)
        ensures
            r.0 == 1,
    {
        Time(1)
    }

    /// The time a span later than `self`, truncated to whole milliseconds.
    pub fn add(self, rhs: Duration) -> (r: Time)
        requires
            self.0 + duration_millis(rhs) <= u64::MAX,
        ensures
            r.0 == self.0 + duration_millis(rhs),
    {
        Time(self.0 + millis(rhs))
    }
}

/// Adding a span never moves time backwards: the loop's clock is monotone.
pub proof fn lemma_time_add_monotone(t: Time, d: Duration)
    ensures
        t.0 <= t.0 + duration_millis(d),
{
}

/// Adding the empty span leaves a time unchanged.
pub proof fn lemma_time_add_zero(t: Time, d: Duration)
    requires
        duration_millis(d) == 0,
    ensures
        t.0 + duration_millis(d) == t.0,
{
}

/// The loop time that corresponds to a span elapsed since loop start.
pub fn make_time(elapsed: Duration) -> (r: Time)
    requires
        duration_millis(elapsed) + 1 <= u64::MAX,
    ensures
        r.0 == duration_millis(elapsed) + 1,
{
    Time(millis(elapsed) + 1)
}

/// The delay, in milliseconds, that the timer wheel is armed with for a
/// deadline `event` read against the loop time `now`.
pub open spec fn spec_timeout_delay(now: Time, event: Time) -> u64 {
    if event.0 > now.0 {
        ((event.0 - now.0 + 1) as u64)
    } else {
        0
    }
}

/// The delay, in milliseconds, to hand the timer wheel for a deadline.
///
/// A deadline in the future gets one extra millisecond, because both times
/// were truncated to millisecond precision and the wheel must not fire
/// early.  A deadline at or before `now` gets a zero delay, so that it
/// fires on the next dispatch quantum rather than never.
pub fn mio_timeout_ms(now: Time, event: Time) -> (r: u64)
    requires
        now.0 >= 1,
    ensures
        r == spec_timeout_delay(now, event),
        event.0 > now.0 ==> r == event.0 - now.0 + 1,
        event.0 <= now.0 ==> r == 0,
{
    if event.0 > now.0 {
        event.0 - now.0 + 1
    } else {
        0
    }
}

/// Relies on std::time::SystemTime being a wall-clock point; the type is
/// opaque here and only carried around.
#[verifier::external_type_specification]
#[verifier::external_body]
pub struct ExSystemTime(std::time::SystemTime);

/// Relies on std::time::SystemTime::now: reads the wall clock.
#[verifier::external_body]
fn system_time_now() -> (r: std::time::SystemTime) {
    std::time::SystemTime::now()
}

/// Relies on std::time::SystemTime::checked_add: moves a wall-clock point
/// forward by a span, or reports that the clock's range would be left.
#[verifier::external_body]
fn wall_plus_millis(t: std::time::SystemTime, ms: u64) -> (r: Option<std::time::SystemTime>) {
    t.checked_add(std::time::Duration::from_millis(ms))
}

/// The wall-clock point that corresponds to the loop time `value`, read
/// against the loop time `now`.
///
/// This is an estimate: the loop runs on a monotonic clock, while the
/// wall clock may be adjusted at any moment.  Fine to show a user, wrong
/// to rely on in code.  `None` only when the wall clock's range ends.
pub fn estimate_system_time(now: Time, value: Time) -> (r: Option<std::time::SystemTime>)
    requires
        now.0 <= value.0,
{
    wall_plus_millis(system_time_now(), value.0 - now.0)
}

} // verus!
