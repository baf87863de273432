//! Message processing deadlines.
use core::time::Duration;
use std::time::SystemTime;
use vstd::prelude::*;

verus! {

/// The earliest instant that a UTC date-time can hold (January 1, 262144 BCE), in nanoseconds
/// since the UNIX epoch.
pub const MIN_INSTANT_NANOS: i128 = -8334601315200000000000;

/// The latest instant that a UTC date-time can hold (December 31, 262142 CE, the last
/// nanosecond), in nanoseconds since the UNIX epoch.
pub const MAX_INSTANT_NANOS: i128 = 8210266876799999999999;

/// Nanoseconds in a millisecond.
pub const NANOS_PER_MILLI: i128 = 1000000;

/// Whether `t` (nanoseconds since the UNIX epoch) is an instant that a UTC date-time can hold.
pub open spec fn is_instant(t: int) -> bool {
    MIN_INSTANT_NANOS <= t <= MAX_INSTANT_NANOS
}

/// A millisecond count read as a signed 64 bit number (as `millis as i64` does).
pub open spec fn signed_millis(m: u64) -> int {
    if m <= i64::MAX {
        m as int
    } else {
        m - 0x1_0000_0000_0000_0000
    }
}

/// Deadline
#[derive(Clone, Copy, Debug, PartialEq, Eq, Structural, Hash, PartialOrd, Ord)]
pub enum Deadline {
    /// Max time allowed for the message to process
    ProcessingTimeoutMillis(u64),
    /// Message timeout is relative to the message timestamp
    MessageTimeoutMillis(u64),
}

/// The timeout of a deadline, in nanoseconds, for a message that started at `start` and is
/// looked at `now` (both in nanoseconds since the UNIX epoch).
pub open spec fn deadline_duration(d: Deadline, start: int, now: int) -> int {
    match d {
        Deadline::ProcessingTimeoutMillis(m) => signed_millis(m) * NANOS_PER_MILLI,
        Deadline::MessageTimeoutMillis(m) => {
            let deadline = start + signed_millis(m) * NANOS_PER_MILLI;
            if !is_instant(deadline) {
                0
            } else if now >= deadline {
                0
            } else {
                deadline - now
            }
        },
    }
}

/// The largest distance from the UNIX epoch that the system clock can report, in nanoseconds
/// (`u64::MAX` seconds and 999,999,999 nanoseconds).
pub const MAX_CLOCK_NANOS: i128 = 18446744073709551615999999999;

/// Whether `t` is a reading that the system clock can give, in nanoseconds since the UNIX
/// epoch.
pub open spec fn is_clock_reading(t: int) -> bool {
    -MAX_CLOCK_NANOS <= t <= MAX_CLOCK_NANOS
}

/// A reading of the system clock.
#[verifier::external_type_specification]
#[verifier::external_body]
pub struct ExSystemTime(std::time::SystemTime);

/// The system clock's reading (`std::time::SystemTime::now`). It rests on the clock: nothing is
/// stated of it.
#[verifier::external_body]
fn system_now() -> SystemTime {
    SystemTime::now()
}

/// How far the reading is from the UNIX epoch (`SystemTime::duration_since(UNIX_EPOCH)`): after
/// it, or, for a reading before the epoch, before it (the error's `duration`). Nothing is
/// stated of the distance, which rests on the reading.
#[verifier::external_body]
fn since_epoch(t: SystemTime) -> (r: Result<Duration, Duration>) {
    match t.duration_since(std::time::UNIX_EPOCH) {
        Ok(d) => Ok(d),
        Err(e) => Err(e.duration()),
    }
}

/// The whole seconds of a duration (`Duration::as_secs`).
#[verifier::external_body]
fn whole_secs(d: Duration) -> u64 {
    d.as_secs()
}

/// The nanoseconds of a duration beyond its whole seconds (`Duration::subsec_nanos`), which
/// std documents as always below one billion.
#[verifier::external_body]
fn subsec_nanos(d: Duration) -> (n: u32)
    ensures
        n < 1_000_000_000,
{
    d.subsec_nanos()
}

/// The current time in nanoseconds since the UNIX epoch (negative before it).
pub(crate) fn now_nanos() -> (t: i128)
    ensures
        is_clock_reading(t as int),
{
    match since_epoch(system_now()) {
        Ok(d) => whole_secs(d) as i128 * 1_000_000_000 + subsec_nanos(d) as i128,
        Err(d) => -(whole_secs(d) as i128 * 1_000_000_000 + subsec_nanos(d) as i128),
    }
}

impl Deadline {
    /// The milliseconds of the deadline.
    pub open spec fn millis(self) -> u64 {
        match self {
            Deadline::ProcessingTimeoutMillis(m) => m,
            Deadline::MessageTimeoutMillis(m) => m,
        }
    }

    /// Converts the deadline into a timeout duration in nanoseconds, as seen at `now_nanos`.
    /// - the `starting_nanos` is used when the deadline is `MessageTimeoutMillis`: the timeout
    ///   is taken relative to the starting time: the time left from `now_nanos` until the
    ///   starting time plus the timeout. If the deadline time has passed, or the deadline cannot
    ///   be represented as a date-time, then a zero duration is returned.
    pub fn duration_at(&self, starting_nanos: i128, now_nanos: i128) -> (r: i128)
        requires
            is_instant(starting_nanos as int),
            is_clock_reading(now_nanos as int),
        ensures
            r == deadline_duration(*self, starting_nanos as int, now_nanos as int),
    {
        match self {
            Deadline::ProcessingTimeoutMillis(m) => {
                let millis: i128 = if *m <= 0x7fff_ffff_ffff_ffff {
                    *m as i128
                } else {
                    *m as i128 - 0x1_0000_0000_0000_0000
                };
                millis * NANOS_PER_MILLI
            },
            Deadline::MessageTimeoutMillis(m) => {
                let millis: i128 = if *m <= 0x7fff_ffff_ffff_ffff {
                    *m as i128
                } else {
                    *m as i128 - 0x1_0000_0000_0000_0000
                };
                let deadline = starting_nanos + millis * NANOS_PER_MILLI;
                if deadline < MIN_INSTANT_NANOS || deadline > MAX_INSTANT_NANOS {
                    0
                } else if now_nanos >= deadline {
                    0
                } else {
                    deadline - now_nanos
                }
            },
        }
    }

    /// Converts the deadline into a timeout duration in nanoseconds, as seen now (see
    /// [`Deadline::duration_at`]).
    pub fn duration(&self, starting_nanos: i128) -> (r: i128)
        requires
            is_instant(starting_nanos as int),
        ensures
            exists|now: int| is_clock_reading(now) && r == deadline_duration(*self, starting_nanos as int, now),
    {
        let now = now_nanos();
        self.duration_at(starting_nanos, now)
    }
}

/// A message timeout is never negative; once its starting time is not in the future, it is
/// never longer than the timeout itself, and it is exactly the time left until the deadline
/// while that has not passed.
pub proof fn law_message_timeout_bounds(m: u64, start: int, now: int)
    requires
        is_instant(start),
        is_clock_reading(now),
        m <= i64::MAX,
    ensures
        0 <= deadline_duration(Deadline::MessageTimeoutMillis(m), start, now),
        start <= now ==> deadline_duration(Deadline::MessageTimeoutMillis(m), start, now) <= m
            * NANOS_PER_MILLI,
        is_instant(start + m * NANOS_PER_MILLI) && now < start + m * NANOS_PER_MILLI
            ==> deadline_duration(Deadline::MessageTimeoutMillis(m), start, now) == start + m
            * NANOS_PER_MILLI - now,
{
}

} // verus!
