//! Instants and signed intervals as plain integers, and the wall clock.

use vstd::prelude::*;

verus! {

/// Nanoseconds in one second.
pub const NANOS_PER_SEC: i128 = 1_000_000_000;

/// Seconds in one day.
pub const SECS_PER_DAY: i64 = 86_400;

/// Largest distance from the epoch, in seconds, that a [`Timestamp`] holds:
/// one hundred million days.
pub const SECS_LIMIT: i64 = 8_640_000_000_000;

/// Largest magnitude of a [`TimeSpan`], in nanoseconds: `i64::MAX` milliseconds.
pub const SPAN_LIMIT: i128 = 9_223_372_036_854_775_807_000_000;

/// Largest magnitude of the whole seconds of a [`TimeSpan`].
pub const SPAN_SECONDS_LIMIT: i64 = 9_223_372_036_854_775;

/// A signed interval of time with nanosecond resolution.
///
/// Its view is the interval in nanoseconds.
#[derive(Clone, Copy, Debug, PartialEq, Eq)]
pub struct TimeSpan {
    nanos: i128,
}

impl View for TimeSpan {
    type V = int;

    closed spec fn view(&self) -> int {
        self.nanos as int
    }
}

/// Whole seconds of an interval of `nanos` nanoseconds, rounded toward zero.
pub open spec fn whole_seconds(nanos: int) -> int {
    if nanos >= 0 {
        nanos / 1_000_000_000
    } else {
        -((-nanos) / 1_000_000_000)
    }
}

impl TimeSpan {
    /// Validity: the interval is within the limit. Holds of every value in
    /// executable code.
    #[verifier::type_invariant]
    pub closed spec fn wf(self) -> bool {
        Self::fits(self.nanos as int)
    }

    /// Whether an interval of `nanos` nanoseconds can be held.
    pub open spec fn fits(nanos: int) -> bool {
        -SPAN_LIMIT <= nanos <= SPAN_LIMIT
    }

    /// Every valid interval is within the limit.
    pub proof fn lemma_fits(self)
        requires
            self.wf(),
        ensures
            Self::fits(self@),
    {
    }

    /// The interval of `nanos` nanoseconds, if it can be held.
    pub fn from_nanos(nanos: i128) -> (r: Option<TimeSpan>)
        ensures
            r is Some <==> Self::fits(nanos as int),
            r matches Some(s) ==> s@ == nanos,
    {
        if -SPAN_LIMIT <= nanos && nanos <= SPAN_LIMIT {
            Some(TimeSpan { nanos })
        } else {
            None
        }
    }

    /// The interval of `minutes` whole minutes.
    pub fn from_minutes(minutes: i32) -> (r: TimeSpan)
        ensures
            r@ == minutes * 60 * 1_000_000_000,
    {
        let m: i128 = minutes as i128;
        TimeSpan { nanos: m * 60 * NANOS_PER_SEC }
    }

    /// The interval in nanoseconds.
    pub fn nanos(&self) -> (r: i128)
        ensures
            r == self@,
    {
        self.nanos
    }

    /// Whole seconds of the interval, rounded toward zero.
    pub fn num_seconds(&self) -> (r: i64)
        ensures
            r == whole_seconds(self@),
            -SPAN_SECONDS_LIMIT <= r <= SPAN_SECONDS_LIMIT,
    {
        proof {
            use_type_invariant(self);
        }
        if self.nanos >= 0 {
            let q: i128 = self.nanos / NANOS_PER_SEC;
            q as i64
        } else {
            let p: i128 = -self.nanos;
            let q: i128 = p / NANOS_PER_SEC;
            (-q) as i64
        }
    }

    /// Whether `self - rhs` can be held.
    pub fn can_sub(&self, rhs: &TimeSpan) -> (r: bool)
        ensures
            r == Self::fits(self@ - rhs@),
    {
        proof {
            use_type_invariant(self);
            use_type_invariant(rhs);
        }
        let d: i128 = self.nanos - rhs.nanos;
        -SPAN_LIMIT <= d && d <= SPAN_LIMIT
    }

    /// The interval `self - rhs`.
    pub fn sub(&self, rhs: &TimeSpan) -> (r: TimeSpan)
        requires
            Self::fits(self@ - rhs@),
        ensures
            r@ == self@ - rhs@,
    {
        proof {
            use_type_invariant(self);
            use_type_invariant(rhs);
        }
        TimeSpan { nanos: self.nanos - rhs.nanos }
    }
}

/// First second of the UTC day that holds the second `secs`.
pub open spec fn day_start_secs(secs: int) -> int {
    secs - secs % 86_400
}

/// Reads the system clock with `chrono::Utc::now` and hands back the
/// instant's whole seconds since the Unix epoch (`DateTime::timestamp`) and
/// its nanoseconds past that second (`DateTime::timestamp_subsec_nanos`).
///
/// Trusted: the seconds lie within the dates that chrono can hold (years
/// within 262143 of year 0, so fewer than one hundred million days from the
/// epoch), and the nanoseconds, which chrono takes from a
/// `std::time::Duration`, are below one second. Which instant comes back is
/// not stated. chrono panics if the system clock is set before 1970.
#[verifier::external_body]
fn wall_clock() -> (r: (i64, u32))
    ensures
        Timestamp::in_range(r.0 as int, r.1 as int),
{
    let t = chrono::Utc::now();
    (t.timestamp(), t.timestamp_subsec_nanos())
}

/// An instant on the UTC time line: whole seconds since the Unix epoch and
/// the nanoseconds past that second.
///
/// Its view is the instant in nanoseconds since the epoch.
#[derive(Clone, Copy, Debug, PartialEq, Eq)]
pub struct Timestamp {
    secs: i64,
    nanos: u32,
}

impl View for Timestamp {
    type V = int;

    open spec fn view(&self) -> int {
        self.spec_secs() * 1_000_000_000 + self.spec_subsec_nanos()
    }
}

impl Timestamp {
    /// Whole seconds since the epoch.
    pub closed spec fn spec_secs(self) -> int {
        self.secs as int
    }

    /// Nanoseconds past the whole second.
    pub closed spec fn spec_subsec_nanos(self) -> int {
        self.nanos as int
    }

    /// Whether `secs` seconds and `nanos` nanoseconds name an instant that
    /// can be held.
    pub open spec fn in_range(secs: int, nanos: int) -> bool {
        -SECS_LIMIT <= secs <= SECS_LIMIT && 0 <= nanos < 1_000_000_000
    }

    /// Validity: the parts are in range. Holds of every value in executable
    /// code.
    #[verifier::type_invariant]
    pub open spec fn wf(self) -> bool {
        Self::in_range(self.spec_secs(), self.spec_subsec_nanos())
    }

    /// Two instants with the same parts are the same value.
    pub proof fn lemma_parts_determine(a: Timestamp, b: Timestamp)
        requires
            a.spec_secs() == b.spec_secs(),
            a.spec_subsec_nanos() == b.spec_subsec_nanos(),
        ensures
            a == b,
    {
    }

    /// Two valid instants at the same point of the time line are the same
    /// value.
    pub proof fn lemma_view_determines(a: Timestamp, b: Timestamp)
        requires
            a.wf(),
            b.wf(),
            a@ == b@,
        ensures
            a == b,
    {
    }

    /// The instant `secs` seconds and `nanos` nanoseconds after the epoch,
    /// if it can be held.
    pub fn new(secs: i64, nanos: u32) -> (r: Option<Timestamp>)
        ensures
            r is Some <==> Self::in_range(secs as int, nanos as int),
            r matches Some(t) ==> t.spec_secs() == secs && t.spec_subsec_nanos() == nanos,
    {
        if -SECS_LIMIT <= secs && secs <= SECS_LIMIT && nanos < 1_000_000_000 {
            Some(Timestamp { secs, nanos })
        } else {
            None
        }
    }

    /// The current instant of the system clock.
    pub fn now() -> (r: Timestamp)
        ensures
            r.wf(),
    {
        let (secs, nanos) = wall_clock();
        Timestamp { secs, nanos }
    }

    /// The first instant of the UTC day that holds `self`, and the first
    /// instant of the next day; `None` where the next day starts past the
    /// limit.
    pub fn day_bounds(&self) -> (r: Option<(Timestamp, Timestamp)>)
        ensures
            r is Some <==> day_start_secs(self.spec_secs()) + 86_400 <= SECS_LIMIT,
            r matches Some((start, end)) ==> {
                &&& start.spec_secs() == day_start_secs(self.spec_secs())
                &&& start.spec_subsec_nanos() == 0
                &&& end.spec_secs() == day_start_secs(self.spec_secs()) + 86_400
                &&& end.spec_subsec_nanos() == 0
            },
    {
        proof {
            use_type_invariant(self);
        }
        let into_day: i64 = if self.secs >= 0 {
            self.secs % SECS_PER_DAY
        } else {
            let back: i64 = (-self.secs) % SECS_PER_DAY;
            if back == 0 {
                0
            } else {
                SECS_PER_DAY - back
            }
        };
        let first: i64 = self.secs - into_day;
        if first + SECS_PER_DAY <= SECS_LIMIT {
            Some(
                (
                    Timestamp { secs: first, nanos: 0 },
                    Timestamp { secs: first + SECS_PER_DAY, nanos: 0 },
                ),
            )
        } else {
            None
        }
    }

    /// Whole seconds since the epoch.
    pub fn secs(&self) -> (r: i64)
        ensures
            r == self.spec_secs(),
            -SECS_LIMIT <= r <= SECS_LIMIT,
    {
        proof {
            use_type_invariant(self);
        }
        self.secs
    }

    /// Nanoseconds past the whole second.
    pub fn subsec_nanos(&self) -> (r: u32)
        ensures
            r == self.spec_subsec_nanos(),
            r < 1_000_000_000,
    {
        proof {
            use_type_invariant(self);
        }
        self.nanos
    }

    /// The signed interval from `earlier` to `self`.
    pub fn since(&self, earlier: &Timestamp) -> (r: TimeSpan)
        ensures
            r@ == self@ - earlier@,
    {
        proof {
            use_type_invariant(self);
            use_type_invariant(earlier);
        }
        let ds: i128 = self.secs as i128 - earlier.secs as i128;
        let dn: i128 = self.nanos as i128 - earlier.nanos as i128;
        TimeSpan { nanos: ds * NANOS_PER_SEC + dn }
    }
}

} // verus!
