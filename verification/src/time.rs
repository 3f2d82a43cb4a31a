//! Spans of time, points in time and the monotonic clock that they are read from.
use crate::call::{call_with_none, call_with_one};
use vstd::prelude::*;

verus! {

/// Nanoseconds in one second.
pub const NANOS_PER_SEC: u128 = 1_000_000_000;

/// Nanoseconds in one millisecond.
pub const NANOS_PER_MILLI: u128 = 1_000_000;

/// A span of time, in whole nanoseconds.
#[derive(Clone, Copy, Debug, PartialEq, Eq, Structural)]
pub struct Duration {
    pub nanos: u128,
}

impl Duration {
    /// The span of `secs` seconds.
    pub open spec fn secs(secs: u64) -> Duration {
        Duration { nanos: (secs * 1_000_000_000) as u128 }
    }

    /// The longer of the two spans.
    pub open spec fn longer(self, other: Duration) -> Duration {
        if self.nanos <= other.nanos {
            other
        } else {
            self
        }
    }

    /// Whole milliseconds in the span, modulo what a `u64` can hold.
    pub open spec fn millis(self) -> int {
        (self.nanos as int / 1_000_000) % 0x1_0000_0000_0000_0000
    }

    /// The span of `secs` seconds.
    pub fn from_secs(secs: u64) -> (span: Duration)
        ensures
            span == Duration::secs(secs),
            span.nanos == secs * NANOS_PER_SEC,
    {
        Duration { nanos: secs as u128 * NANOS_PER_SEC }
    }

    /// The longer of the two spans.
    pub fn max(self, other: Duration) -> (longer: Duration)
        ensures
            longer == self.longer(other),
    {
        if self.nanos <= other.nanos {
            other
        } else {
            self
        }
    }

    /// Whole milliseconds in the span, keeping the low 64 bits of the count.
    pub fn as_millis_u64(&self) -> (millis: u64)
        ensures
            millis == self.millis(),
    {
        let whole: u128 = self.nanos / NANOS_PER_MILLI;
        assert(whole as u64 == whole % 0x1_0000_0000_0000_0000u128) by (bit_vector);
        #[verifier::truncate]
        (whole as u64)
    }
}

/// A point in time: nanoseconds since the origin of the [`Clock`] it was read from.
#[derive(Clone, Copy, Debug, PartialEq, Eq, Structural)]
pub struct Moment {
    pub nanos: u128,
}

impl Moment {
    /// Whether the point that lies `span` later can be represented.
    pub open spec fn reaches(self, span: Duration) -> bool {
        self.nanos + span.nanos <= u128::MAX
    }

    /// The time from `earlier` to this point, or nothing where `earlier` is the later one.
    pub open spec fn since(self, earlier: Moment) -> Duration {
        if earlier.nanos <= self.nanos {
            Duration { nanos: (self.nanos - earlier.nanos) as u128 }
        } else {
            Duration { nanos: 0 }
        }
    }

    /// The point is not later than any that a clock can show.
    pub open spec fn is_shown(self) -> bool {
        self.nanos <= u64::MAX * 1_000_000_000 + u32::MAX
    }

    /// The point `secs` seconds and `nanos` nanoseconds after the clock's origin.
    pub fn at(secs: u64, nanos: u32) -> (point: Moment)
        ensures
            point.nanos == secs * 1_000_000_000 + nanos,
            point.is_shown(),
    {
        Moment { nanos: secs as u128 * NANOS_PER_SEC + nanos as u128 }
    }

    /// The point that lies `span` later.
    pub fn after(self, span: Duration) -> (later: Moment)
        requires
            self.reaches(span),
        ensures
            later.nanos == self.nanos + span.nanos,
    {
        Moment { nanos: self.nanos + span.nanos }
    }

    /// The time from `earlier` to this point, or nothing where `earlier` is the later one.
    pub fn saturating_duration_since(self, earlier: Moment) -> (span: Duration)
        ensures
            span == self.since(earlier),
    {
        if earlier.nanos <= self.nanos {
            Duration { nanos: self.nanos - earlier.nanos }
        } else {
            Duration { nanos: 0 }
        }
    }
}

/// A span of seconds lasts that many times a thousand million nanoseconds, so more seconds last
/// longer.
pub proof fn law_seconds(secs: u64, span: Duration, more: u64, longer: Duration)
    requires
        call_ensures(Duration::from_secs, (secs,), span),
        call_ensures(Duration::from_secs, (more,), longer),
    ensures
        span.nanos == secs * 1_000_000_000,
        secs < more <==> span.nanos < longer.nanos,
{
}

/// The longer of two spans is one of them and no shorter than either, in whichever order they
/// are given.
pub proof fn law_longer_span(a: Duration, b: Duration, longer: Duration, swapped: Duration)
    requires
        call_ensures(Duration::max, (a, b), longer),
        call_ensures(Duration::max, (b, a), swapped),
    ensures
        longer == a || longer == b,
        a.nanos <= longer.nanos,
        b.nanos <= longer.nanos,
        longer == swapped,
{
}

/// The milliseconds of a span fit into it and one more would not, as long as a `u64` can hold
/// them. Beyond that the count starts again from zero.
pub proof fn law_whole_milliseconds(span: Duration, millis: u64)
    requires
        call_ensures(Duration::as_millis_u64, (&span,), millis),
    ensures
        span.nanos < 0x1_0000_0000_0000_0000 * 1_000_000 ==> millis * 1_000_000 <= span.nanos < (
        millis + 1) * 1_000_000,
        (span.nanos as int / 1_000_000 - millis) % 0x1_0000_0000_0000_0000 == 0,
{
}

/// The time between two points, added to the earlier one, leads to the later one. Nothing lies
/// between a point and an earlier one, and going on by a span takes exactly that span.
pub proof fn law_time_between_points(
    earlier: Moment,
    later: Moment,
    between: Duration,
    span: Duration,
    reached: Moment,
    taken: Duration,
)
    requires
        call_ensures(Moment::saturating_duration_since, (later, earlier), between),
        call_ensures(Moment::after, (earlier, span), reached),
        call_ensures(Moment::saturating_duration_since, (reached, earlier), taken),
    ensures
        earlier.nanos <= later.nanos ==> earlier.nanos + between.nanos == later.nanos,
        later.nanos <= earlier.nanos ==> between.nanos == 0,
        taken == span,
{
}

/// Tokio's instant: a point on its monotonic clock, with nothing inside that can be read.
#[verifier::external_type_specification]
#[verifier::external_body]
pub struct ExTokioInstant(tokio::time::Instant);

/// Calls `tokio::time::Instant::now`. Nothing is claimed of the point that it returns:
/// it is the time of the call.
#[verifier::external_body]
fn tokio_now() -> (now: tokio::time::Instant) {
    tokio::time::Instant::now()
}

/// Calls `tokio::time::Instant::elapsed` and gives the span as whole seconds and the
/// nanoseconds beyond them. Nothing is claimed of the numbers: they depend on the time of the
/// call.
#[verifier::external_body]
fn tokio_elapsed(origin: &tokio::time::Instant) -> (parts: (u64, u32)) {
    let span = origin.elapsed();
    (span.as_secs(), span.subsec_nanos())
}

/// A monotonic clock. Its points are told as the time since its origin.
#[derive(Clone, Copy, Debug)]
pub struct Clock {
    pub origin: tokio::time::Instant,
}

impl Clock {
    /// The clock's origin is what Tokio told as the time of a call.
    pub closed spec fn is_started(self) -> bool {
        call_ensures(tokio_now, (), self.origin)
    }

    /// `now` is what this clock told as the time of a call.
    pub closed spec fn shows(self, now: Moment) -> bool {
        exists|parts: (u64, u32)| #[trigger]
            call_ensures(tokio_elapsed, (&self.origin,), parts) && now.nanos == parts.0
                * 1_000_000_000 + parts.1
    }

    /// A clock whose origin is the time of the call. Which point that is can be told only by
    /// the points that the clock shows.
    pub fn start() -> (clock: Clock)
        ensures
            clock.is_started(),
    {
        Clock { origin: call_with_none(tokio_now) }
    }

    /// The time of the call, as this clock tells it. Which point that is depends on when the
    /// call is made.
    pub fn now(&self) -> (now: Moment)
        ensures
            self.shows(now),
            now.is_shown(),
    {
        let (secs, nanos) = call_with_one(tokio_elapsed, &self.origin);
        Moment::at(secs, nanos)
    }
}

/// The origin of a clock is what Tokio told when the clock was started.
proof fn law_clock_starts_now(clock: Clock)
    requires
        call_ensures(Clock::start, (), clock),
    ensures
        call_ensures(tokio_now, (), clock.origin),
{
}

/// A point that a clock shows is the time that Tokio told since the clock's origin, to the
/// nanosecond.
proof fn law_clock_shows_time_since_origin(clock: Clock, now: Moment)
    requires
        clock.shows(now) || call_ensures(Clock::now, (&clock,), now),
    ensures
        exists|parts: (u64, u32)| #[trigger]
            call_ensures(tokio_elapsed, (&clock.origin,), parts) && now.nanos == parts.0
                * 1_000_000_000 + parts.1,
{
}

/// A Unix timestamp that is told is the one that chrono told.
proof fn law_timestamp_is_told_by_chrono(seconds: i64)
    requires
        utc_shows(seconds) || call_ensures(utc_now, (), seconds),
    ensures
        call_ensures(utc_timestamp, (), seconds),
{
}

/// `seconds` is what chrono told as the Unix timestamp of the time of a call.
pub closed spec fn utc_shows(seconds: i64) -> bool {
    call_ensures(utc_timestamp, (), seconds)
}

/// The Unix timestamp of the time of the call.
pub(crate) fn utc_now() -> (seconds: i64)
    ensures
        utc_shows(seconds),
{
    call_with_none(utc_timestamp)
}

/// Calls `chrono::Utc::now` and gives its Unix timestamp in seconds. Nothing is claimed of
/// the number: it is the time of the call.
#[verifier::external_body]
fn utc_timestamp() -> (seconds: i64) {
    chrono::Utc::now().timestamp()
}

} // verus!
