//! Times of day with nanosecond resolution, as `chrono::NaiveTime` holds them.

use vstd::prelude::*;

verus! {

/// Number of seconds in a civil day.
pub const SECONDS_PER_DAY: u32 = 86_400;

/// Number of nanoseconds in a second.
pub const NANOS_PER_SECOND: u32 = 1_000_000_000;

/// Seconds from midnight of 23:59:59, the instant the schedule treats as the
/// end of the day.
pub const END_OF_DAY_SECONDS: u32 = 86_399;

/// Whether `(seconds, nanos)` denotes a time of day.
///
/// `seconds` counts whole seconds from midnight.  `nanos` counts nanoseconds
/// within that second; values from one to two thousand million denote a leap
/// second, which can only follow the last second of a minute.
pub open spec fn is_time_of_day(seconds: int, nanos: int) -> bool {
    &&& 0 <= seconds < SECONDS_PER_DAY
    &&& 0 <= nanos < 2 * NANOS_PER_SECOND
    &&& nanos >= NANOS_PER_SECOND ==> seconds % 60 == 59
}

/// A time of day: whole seconds from midnight and nanoseconds within the
/// second.
#[derive(Clone, Copy, Debug, PartialEq, Eq, Structural)]
pub struct TimeOfDay {
    secs: u32,
    frac: u32,
}

impl TimeOfDay {
    /// Whole seconds from midnight.
    pub closed spec fn seconds(self) -> int {
        self.secs as int
    }

    /// Nanoseconds within the second; at least `NANOS_PER_SECOND` during a
    /// leap second.
    pub closed spec fn nanos(self) -> int {
        self.frac as int
    }

    /// Every `TimeOfDay` that executable code holds denotes a time of day.
    #[verifier::type_invariant]
    pub open spec fn well_formed(self) -> bool {
        is_time_of_day(self.seconds(), self.nanos())
    }

    /// Strict chronological order within one day: by seconds, then by
    /// nanoseconds.
    pub open spec fn precedes(self, other: TimeOfDay) -> bool {
        self.seconds() < other.seconds() || (self.seconds() == other.seconds() && self.nanos()
            < other.nanos())
    }

    /// The time `secs` seconds and `nano` nanoseconds after midnight, or
    /// `None` where the pair denotes no time of day.
    pub fn new(secs: u32, nano: u32) -> (time: Option<TimeOfDay>)
        ensures
            time.is_some() <==> is_time_of_day(secs as int, nano as int),
            time matches Some(t) ==> t.seconds() == secs && t.nanos() == nano,
    {
        if secs >= SECONDS_PER_DAY || nano >= 2 * NANOS_PER_SECOND || (nano >= NANOS_PER_SECOND
            && secs % 60 != 59) {
            None
        } else {
            Some(TimeOfDay { secs, frac: nano })
        }
    }

    /// Whole seconds from midnight.
    pub fn num_seconds_from_midnight(&self) -> (secs: u32)
        ensures
            secs == self.seconds(),
            secs < SECONDS_PER_DAY,
    {
        proof {
            use_type_invariant(self);
        }
        self.secs
    }

    /// Nanoseconds within the second.
    pub fn nanosecond(&self) -> (nano: u32)
        ensures
            nano == self.nanos(),
            nano < 2 * NANOS_PER_SECOND,
    {
        proof {
            use_type_invariant(self);
        }
        self.frac
    }

    /// Whether `self` comes strictly before `other`.
    pub fn is_before(&self, other: &TimeOfDay) -> (before: bool)
        ensures
            before == self.precedes(*other),
    {
        self.secs < other.secs || (self.secs == other.secs && self.frac < other.frac)
    }

    /// 23:59:59, one second before midnight.
    pub fn end_of_day() -> (time: TimeOfDay)
        ensures
            time == end_of_day(),
            time.seconds() == END_OF_DAY_SECONDS,
            time.nanos() == 0,
    {
        TimeOfDay { secs: END_OF_DAY_SECONDS, frac: 0 }
    }

    /// Whole seconds from `earlier` to `self`, negative where `self` comes
    /// first; never more than a day either way.
    pub fn seconds_since(&self, earlier: &TimeOfDay) -> (secs: i64)
        ensures
            secs == whole_seconds(nanos_between(*self, *earlier)),
            -(SECONDS_PER_DAY as int) <= secs <= SECONDS_PER_DAY,
    {
        proof {
            use_type_invariant(self);
            use_type_invariant(earlier);
            lemma_nanos_between_bounded(*self, *earlier);
        }
        self.chrono_seconds_since(earlier)
    }

    /// Whole seconds from `earlier` to `self`, as chrono counts them.
    ///
    /// Not proved: the body calls chrono, `NaiveTime - NaiveTime` and then
    /// `TimeDelta::num_seconds`, on the two times rebuilt with
    /// `NaiveTime::from_num_seconds_from_midnight_opt`.  The contract states
    /// what chrono's source computes: the difference of the seconds, with one
    /// second more or less where the earlier of the two lies inside a leap
    /// second, plus the difference of the nanoseconds, cut to whole seconds
    /// towards zero.  Both times are well formed, so rebuilding them succeeds
    /// and the difference is in range.
    #[verifier::external_body]
    fn chrono_seconds_since(&self, earlier: &TimeOfDay) -> (secs: i64)
        requires
            self.well_formed(),
            earlier.well_formed(),
        ensures
            secs == whole_seconds(nanos_between(*self, *earlier)),
    {
        let end = chrono::NaiveTime::from_num_seconds_from_midnight_opt(self.secs, self.frac);
        let start = chrono::NaiveTime::from_num_seconds_from_midnight_opt(
            earlier.secs,
            earlier.frac,
        );
        (end.unwrap() - start.unwrap()).num_seconds()
    }
}

/// The time 23:59:59 sharp.
pub closed spec fn end_of_day() -> TimeOfDay {
    TimeOfDay { secs: END_OF_DAY_SECONDS, frac: 0 }
}

/// Nanoseconds from `earlier` to `later`, negative where `later` comes first.
///
/// A leap second that the earlier of the two times lies in is counted in
/// full: the time is then one second further from the other than its seconds
/// from midnight say.
pub open spec fn nanos_between(later: TimeOfDay, earlier: TimeOfDay) -> int {
    let leap: int = if later.seconds() > earlier.seconds() && earlier.nanos()
        >= NANOS_PER_SECOND {
        1
    } else if later.seconds() < earlier.seconds() && later.nanos() >= NANOS_PER_SECOND {
        -1
    } else {
        0
    };
    (later.seconds() - earlier.seconds() + leap) * NANOS_PER_SECOND + (later.nanos()
        - earlier.nanos())
}

/// `nanos` nanoseconds in whole seconds, rounded towards zero.
pub open spec fn whole_seconds(nanos: int) -> int {
    if nanos >= 0 {
        nanos / (NANOS_PER_SECOND as int)
    } else {
        -((-nanos) / (NANOS_PER_SECOND as int))
    }
}

/// The end of the day is a time of day, at 86 399 seconds and no nanoseconds.
pub proof fn lemma_end_of_day()
    ensures
        end_of_day().well_formed(),
        end_of_day().seconds() == END_OF_DAY_SECONDS,
        end_of_day().nanos() == 0,
{
}

/// A time of day is its seconds and its nanoseconds: two times that agree
/// in both are the same time.
pub proof fn lemma_same_parts_same_time(a: TimeOfDay, b: TimeOfDay)
    requires
        a.seconds() == b.seconds(),
        a.nanos() == b.nanos(),
    ensures
        a == b,
{
}

/// `precedes` is a strict total order: no time precedes itself, of two
/// different times exactly one precedes the other, and the order is
/// transitive.
pub proof fn lemma_precedes_is_total_order(a: TimeOfDay, b: TimeOfDay, c: TimeOfDay)
    ensures
        !a.precedes(a),
        a == b || a.precedes(b) || b.precedes(a),
        !(a.precedes(b) && b.precedes(a)),
        a.precedes(b) && b.precedes(c) ==> a.precedes(c),
{
    if !a.precedes(b) && !b.precedes(a) {
        lemma_same_parts_same_time(a, b);
    }
}

/// From an earlier time to a later one the span is positive, from a time to
/// itself it is nothing, and turning the two times round turns its sign.
pub proof fn lemma_nanos_between_ordered(later: TimeOfDay, earlier: TimeOfDay)
    requires
        later.well_formed(),
        earlier.well_formed(),
    ensures
        earlier.precedes(later) ==> nanos_between(later, earlier) > 0,
        nanos_between(earlier, earlier) == 0,
        nanos_between(earlier, later) == -nanos_between(later, earlier),
{
}

/// Between two times of one day lies less than a day and a second, so that
/// the whole seconds between them are a day at most.
pub proof fn lemma_nanos_between_bounded(later: TimeOfDay, earlier: TimeOfDay)
    requires
        later.well_formed(),
        earlier.well_formed(),
    ensures
        -(SECONDS_PER_DAY + 1) * NANOS_PER_SECOND < nanos_between(later, earlier) < (
        SECONDS_PER_DAY + 1) * NANOS_PER_SECOND,
        -(SECONDS_PER_DAY as int) <= whole_seconds(nanos_between(later, earlier))
            <= SECONDS_PER_DAY,
{
}

} // verus!
