//! Instants in UTC, as whole seconds since the Unix epoch and nanoseconds.

use vstd::prelude::*;
use std::time::{Duration, SystemTime, SystemTimeError};

verus! {

#[verifier::external_type_specification]
#[verifier::external_body]
pub struct ExSystemTime(SystemTime);

#[verifier::external_type_specification]
#[verifier::external_body]
pub struct ExSystemTimeError(SystemTimeError);

/// `SystemTime::now`: the system clock's reading. Nothing is promised of it.
#[verifier::external_body]
pub(crate) fn system_time_now() -> (r: SystemTime) {
    SystemTime::now()
}

/// `SystemTime::duration_since(UNIX_EPOCH)`: the time from the epoch to `t`,
/// or an error that holds the time from `t` to the epoch when `t` is earlier.
/// Which of the two comes back, and the durations, depend on the reading.
#[verifier::external_body]
pub(crate) fn since_unix_epoch(t: &SystemTime) -> (r: Result<Duration, SystemTimeError>) {
    t.duration_since(std::time::UNIX_EPOCH)
}

/// `SystemTimeError::duration`: how far the reading lies before the epoch.
#[verifier::external_body]
pub(crate) fn error_duration(e: &SystemTimeError) -> (r: Duration) {
    e.duration()
}

/// `Duration::as_secs`: the whole seconds of a duration.
#[verifier::external_body]
pub(crate) fn duration_secs(d: &Duration) -> (r: u64) {
    d.as_secs()
}

/// `Duration::subsec_nanos`: the nanoseconds past the whole seconds, which
/// the documentation gives as always less than one billion.
#[verifier::external_body]
pub(crate) fn duration_subsec_nanos(d: &Duration) -> (r: u32)
    ensures
        r < 1_000_000_000,
{
    d.subsec_nanos()
}

/// The earliest second that a UTC date and time can denote here
/// (January 1 of year -262143).
pub const MIN_UNIX_SECONDS: i64 = -8334601315200;

/// The latest second that a UTC date and time can denote here
/// (December 31 of year 262142, 23:59:59).
pub const MAX_UNIX_SECONDS: i64 = 8210266876799;

/// Whether `secs` and `nanos` denote an instant: the second is in range, and
/// the nanoseconds are below one second, or below two seconds within the last
/// second of a minute (a leap second).
pub open spec fn valid_instant(secs: i64, nanos: u32) -> bool {
    &&& MIN_UNIX_SECONDS <= secs <= MAX_UNIX_SECONDS
    &&& nanos < 2_000_000_000
    &&& (nanos >= 1_000_000_000 ==> (secs as int) % 60 == 59)
}

/// The RFC 3339 text of an instant, with a `+00:00` offset, as
/// `chrono::DateTime::<Utc>::to_rfc3339` writes it.
pub uninterp spec fn rfc3339_text(secs: i64, nanos: u32) -> Seq<char>;

/// An instant in UTC: seconds since 1970-01-01T00:00:00Z and the nanoseconds
/// within that second.
#[derive(Clone, Copy, Debug, PartialEq, Eq, Structural)]
pub struct Timestamp {
    secs: i64,
    nanos: u32,
}

impl Timestamp {
    #[verifier::type_invariant]
    spec fn valid(self) -> bool {
        valid_instant(self.secs, self.nanos)
    }

    /// The whole seconds since the epoch.
    pub closed spec fn spec_secs(self) -> i64 {
        self.secs
    }

    /// The nanoseconds within the second.
    pub closed spec fn spec_nanos(self) -> u32 {
        self.nanos
    }

    /// The instant `secs` seconds and `nanos` nanoseconds after the epoch, or
    /// `None` when they denote none.
    pub fn from_unix(secs: i64, nanos: u32) -> (r: Option<Timestamp>)
        ensures
            r is Some <==> valid_instant(secs, nanos),
            r matches Some(t) ==> t.spec_secs() == secs && t.spec_nanos() == nanos,
    {
        if MIN_UNIX_SECONDS <= secs && secs <= MAX_UNIX_SECONDS && nanos < 2_000_000_000 && (
        nanos < 1_000_000_000 || secs % 60 == 59 || secs % 60 == -1) {
            Some(Timestamp { secs, nanos })
        } else {
            None
        }
    }

    /// The whole seconds since the epoch.
    pub fn unix_seconds(&self) -> (r: i64)
        ensures
            r == self.spec_secs(),
            valid_instant(self.spec_secs(), self.spec_nanos()),
    {
        proof {
            use_type_invariant(self);
        }
        self.secs
    }

    /// The nanoseconds within the second.
    pub fn subsec_nanos(&self) -> (r: u32)
        ensures
            r == self.spec_nanos(),
    {
        self.nanos
    }

    /// Whether `self` comes strictly after `other`.
    pub fn is_after(&self, other: &Timestamp) -> (r: bool)
        ensures
            r == later(*self, *other),
    {
        self.secs > other.secs || (self.secs == other.secs && self.nanos > other.nanos)
    }

    /// The RFC 3339 text of the instant (`chrono`'s `to_rfc3339`). The type's
    /// invariant keeps the instant within what `DateTime::from_timestamp`
    /// accepts, so the `None` arm is never taken.
    #[verifier::external_body]
    pub fn to_rfc3339(&self) -> (r: String)
        ensures
            r@ == rfc3339_text(self.spec_secs(), self.spec_nanos()),
    {
        match chrono::DateTime::from_timestamp(self.secs, self.nanos) {
            Some(d) => d.to_rfc3339(),
            None => String::new(),
        }
    }

    /// The instant of a clock reading of `secs` seconds and `nanos`
    /// nanoseconds after the epoch, or, when `before_epoch`, that long before
    /// it. A reading beyond the range of dates (year -262143 to 262142) is
    /// taken as the nearest end of that range.
    pub fn from_clock_reading(before_epoch: bool, secs: u64, nanos: u32) -> (r: Timestamp)
        requires
            nanos < 1_000_000_000,
        ensures
            r.spec_secs() == clock_secs(before_epoch, secs, nanos),
            r.spec_nanos() == clock_nanos(before_epoch, secs, nanos),
    {
        if !before_epoch {
            if secs > MAX_UNIX_SECONDS as u64 {
                Timestamp { secs: MAX_UNIX_SECONDS, nanos: 999_999_999 }
            } else {
                Timestamp { secs: secs as i64, nanos }
            }
        } else if nanos == 0 {
            if secs > 8334601315200 {
                Timestamp { secs: MIN_UNIX_SECONDS, nanos: 0 }
            } else {
                Timestamp { secs: -(secs as i64), nanos: 0 }
            }
        } else {
            if secs >= 8334601315200 {
                Timestamp { secs: MIN_UNIX_SECONDS, nanos: 0 }
            } else {
                Timestamp { secs: -(secs as i64) - 1, nanos: 1_000_000_000 - nanos }
            }
        }
    }

    /// The current instant, as the system clock reads it, turned into an
    /// instant by `from_clock_reading`. Nothing is promised of which instant
    /// the clock reads.
    pub fn now() -> (r: Timestamp)
        ensures
            is_clock_instant(r),
    {
        let t = system_time_now();
        match since_unix_epoch(&t) {
            Ok(d) => {
                let secs = duration_secs(&d);
                let nanos = duration_subsec_nanos(&d);
                Timestamp::from_clock_reading(false, secs, nanos)
            },
            Err(e) => {
                let d = error_duration(&e);
                let secs = duration_secs(&d);
                let nanos = duration_subsec_nanos(&d);
                Timestamp::from_clock_reading(true, secs, nanos)
            },
        }
    }
}

/// Whether `t` is the instant of some clock reading (see
/// `Timestamp::from_clock_reading`).
pub open spec fn is_clock_instant(t: Timestamp) -> bool {
    exists|before_epoch: bool, secs: u64, nanos: u32|
        nanos < 1_000_000_000 && t.spec_secs() == clock_secs(before_epoch, secs, nanos)
            && t.spec_nanos() == clock_nanos(before_epoch, secs, nanos)
}

/// Every instant of a clock reading has fewer than a billion nanoseconds
/// and lies within the range of dates; so an instant in the leap second at
/// the end of the range comes after every clock reading.
pub proof fn lemma_clock_instants_bounded(t: Timestamp, u: Timestamp)
    requires
        is_clock_instant(t),
        u.spec_secs() == MAX_UNIX_SECONDS,
        u.spec_nanos() >= 1_000_000_000,
    ensures
        t.spec_nanos() < 1_000_000_000,
        MIN_UNIX_SECONDS <= t.spec_secs() <= MAX_UNIX_SECONDS,
        later(u, t),
{
}

/// The whole seconds of the instant of a clock reading (see
/// `Timestamp::from_clock_reading`): the reading itself after the epoch, its
/// negation before it, one second further back when there are nanoseconds,
/// and the nearest end of the range of dates beyond it.
pub open spec fn clock_secs(before_epoch: bool, secs: u64, nanos: u32) -> int {
    if !before_epoch {
        if secs > MAX_UNIX_SECONDS {
            MAX_UNIX_SECONDS as int
        } else {
            secs as int
        }
    } else if nanos == 0 {
        if -secs < MIN_UNIX_SECONDS {
            MIN_UNIX_SECONDS as int
        } else {
            -secs
        }
    } else {
        if -secs - 1 < MIN_UNIX_SECONDS {
            MIN_UNIX_SECONDS as int
        } else {
            -secs - 1
        }
    }
}

/// The nanoseconds of the instant of a clock reading: the reading's own
/// after the epoch, what is left to the next whole second before it, and the
/// end of the range's own where the reading lies beyond the range.
pub open spec fn clock_nanos(before_epoch: bool, secs: u64, nanos: u32) -> int {
    if !before_epoch {
        if secs > MAX_UNIX_SECONDS {
            999_999_999
        } else {
            nanos as int
        }
    } else if nanos == 0 {
        0
    } else {
        if -secs - 1 < MIN_UNIX_SECONDS {
            0
        } else {
            1_000_000_000 - nanos
        }
    }
}

/// Whether `a` comes strictly after `b`: by seconds, then by nanoseconds.
pub open spec fn later(a: Timestamp, b: Timestamp) -> bool {
    a.spec_secs() > b.spec_secs() || (a.spec_secs() == b.spec_secs() && a.spec_nanos()
        > b.spec_nanos())
}

/// `later` is a strict total order: no instant is later than itself, it is
/// transitive, and of two different instants one is later than the other.
pub proof fn lemma_later_is_strict_total_order(a: Timestamp, b: Timestamp, c: Timestamp)
    ensures
        !later(a, a),
        later(a, b) && later(b, c) ==> later(a, c),
        later(a, b) ==> !later(b, a),
        (a.spec_secs() == b.spec_secs() && a.spec_nanos() == b.spec_nanos()) || later(a, b) || later(
            b,
            a,
        ),
{
}

} // verus!
