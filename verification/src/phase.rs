//! The three parts of a day and the wait until the next one begins.

use crate::time::{
    end_of_day, lemma_end_of_day, lemma_nanos_between_bounded, lemma_nanos_between_ordered,
    nanos_between, whole_seconds, TimeOfDay, NANOS_PER_SECOND, SECONDS_PER_DAY,
};
use vstd::prelude::*;

verus! {

/// Where an instant lies relative to the day's sunrise and sunset.
#[derive(Clone, Copy, Debug, PartialEq, Eq, Structural)]
pub enum ParOfDay {
    /// Before sunrise.
    BeforeDaytime,
    /// From sunrise up to, but not including, sunset.
    Daytime,
    /// From sunset on.
    AfterDaytime,
}

/// The part of the day that `time` lies in.
pub open spec fn part_of_day(time: TimeOfDay, sunrise: TimeOfDay, sunset: TimeOfDay) -> ParOfDay {
    if time.precedes(sunrise) {
        ParOfDay::BeforeDaytime
    } else if time.precedes(sunset) {
        ParOfDay::Daytime
    } else {
        ParOfDay::AfterDaytime
    }
}

/// The instant at which the part of the day that `time` lies in ends: sunrise
/// before daytime, sunset during it, and 23:59:59 afterwards.
pub open spec fn next_event(time: TimeOfDay, sunrise: TimeOfDay, sunset: TimeOfDay) -> TimeOfDay {
    match part_of_day(time, sunrise, sunset) {
        ParOfDay::BeforeDaytime => sunrise,
        ParOfDay::Daytime => sunset,
        ParOfDay::AfterDaytime => end_of_day(),
    }
}

/// Whole seconds from `time` to the next event, and zero where that event is
/// not later than `time`.
pub open spec fn seconds_to_next_event(
    time: TimeOfDay,
    sunrise: TimeOfDay,
    sunset: TimeOfDay,
) -> int {
    let raw = whole_seconds(nanos_between(next_event(time, sunrise, sunset), time));
    if raw < 0 {
        0
    } else {
        raw
    }
}

/// Classifies `time` against the day's sunrise and sunset.
pub fn get_part_of_day(time: TimeOfDay, sunrise: TimeOfDay, sunset: TimeOfDay) -> (part: ParOfDay)
    ensures
        part == part_of_day(time, sunrise, sunset),
        part == ParOfDay::BeforeDaytime <==> time.precedes(sunrise),
        part == ParOfDay::Daytime <==> !time.precedes(sunrise) && time.precedes(sunset),
        part == ParOfDay::AfterDaytime <==> !time.precedes(sunrise) && !time.precedes(sunset),
{
    if time.is_before(&sunrise) {
        ParOfDay::BeforeDaytime
    } else if time.is_before(&sunset) {
        ParOfDay::Daytime
    } else {
        ParOfDay::AfterDaytime
    }
}

/// Seconds to wait, from `time`, until the part of the day changes: up to
/// sunrise before daytime, up to sunset during it, and up to 23:59:59 after
/// it.  Where that instant is already past, the wait is zero.
pub fn get_duration_to_next_event(
    time: TimeOfDay,
    sunrise: TimeOfDay,
    sunset: TimeOfDay,
) -> (secs: u64)
    ensures
        secs == seconds_to_next_event(time, sunrise, sunset),
        secs <= SECONDS_PER_DAY,
{
    let num_sec = match get_part_of_day(time, sunrise, sunset) {
        ParOfDay::BeforeDaytime => sunrise.seconds_since(&time),
        ParOfDay::Daytime => sunset.seconds_since(&time),
        ParOfDay::AfterDaytime => TimeOfDay::end_of_day().seconds_since(&time),
    };
    match u64::try_from(num_sec) {
        Ok(secs) => secs,
        Err(_) => 0,
    }
}

/// Position of a part of the day in the order in which the parts follow one
/// another.
pub open spec fn part_rank(part: ParOfDay) -> int {
    match part {
        ParOfDay::BeforeDaytime => 0,
        ParOfDay::Daytime => 1,
        ParOfDay::AfterDaytime => 2,
    }
}

/// With sunrise no later than sunset, every instant lies in exactly one part
/// of the day: before daytime up to sunrise, daytime from sunrise up to
/// sunset, after daytime from sunset on.
pub proof fn lemma_exactly_one_part(time: TimeOfDay, sunrise: TimeOfDay, sunset: TimeOfDay)
    requires
        !sunset.precedes(sunrise),
    ensures
        ({
            let before = time.precedes(sunrise);
            let during = !time.precedes(sunrise) && time.precedes(sunset);
            let after = !time.precedes(sunset);
            &&& before || during || after
            &&& !(before && during) && !(before && after) && !(during && after)
            &&& before <==> part_of_day(time, sunrise, sunset) == ParOfDay::BeforeDaytime
            &&& during <==> part_of_day(time, sunrise, sunset) == ParOfDay::Daytime
            &&& after <==> part_of_day(time, sunrise, sunset) == ParOfDay::AfterDaytime
        }),
{
}

/// The parts of the day follow one another without a gap: as time advances
/// the part never steps back, daytime begins at sunrise itself and the part
/// after daytime at sunset itself.
pub proof fn lemma_parts_follow_in_order(
    earlier: TimeOfDay,
    later: TimeOfDay,
    sunrise: TimeOfDay,
    sunset: TimeOfDay,
)
    requires
        !sunset.precedes(sunrise),
        !later.precedes(earlier),
    ensures
        part_rank(part_of_day(earlier, sunrise, sunset)) <= part_rank(
            part_of_day(later, sunrise, sunset),
        ),
        sunrise.precedes(sunset) ==> part_of_day(sunrise, sunrise, sunset) == ParOfDay::Daytime,
        part_of_day(sunset, sunrise, sunset) == ParOfDay::AfterDaytime,
{
}

/// Each part of the day is an interval: an instant between two instants of
/// one part lies in that part too.
pub proof fn lemma_parts_are_intervals(
    first: TimeOfDay,
    between: TimeOfDay,
    last: TimeOfDay,
    sunrise: TimeOfDay,
    sunset: TimeOfDay,
)
    requires
        !between.precedes(first),
        !last.precedes(between),
        part_of_day(first, sunrise, sunset) == part_of_day(last, sunrise, sunset),
    ensures
        part_of_day(between, sunrise, sunset) == part_of_day(first, sunrise, sunset),
{
}

/// The wait until the next event is never negative and never longer than a
/// day, whatever the three times are.
pub proof fn lemma_wait_is_bounded(time: TimeOfDay, sunrise: TimeOfDay, sunset: TimeOfDay)
    requires
        time.well_formed(),
        sunrise.well_formed(),
        sunset.well_formed(),
    ensures
        0 <= seconds_to_next_event(time, sunrise, sunset) <= SECONDS_PER_DAY,
{
    lemma_end_of_day();
    lemma_nanos_between_bounded(next_event(time, sunrise, sunset), time);
}

/// Before sunset the next event lies ahead, so nothing is clamped: the wait
/// is the whole seconds up to sunrise or sunset.
pub proof fn lemma_wait_until_boundary(time: TimeOfDay, sunrise: TimeOfDay, sunset: TimeOfDay)
    requires
        time.well_formed(),
        sunrise.well_formed(),
        sunset.well_formed(),
        part_of_day(time, sunrise, sunset) != ParOfDay::AfterDaytime,
    ensures
        seconds_to_next_event(time, sunrise, sunset) == whole_seconds(
            nanos_between(next_event(time, sunrise, sunset), time),
        ),
{
    lemma_nanos_between_ordered(next_event(time, sunrise, sunset), time);
}

/// Between times on whole seconds the wait is the difference of their
/// seconds from midnight, and zero where the next event is not ahead.
pub proof fn lemma_wait_on_whole_seconds(time: TimeOfDay, sunrise: TimeOfDay, sunset: TimeOfDay)
    requires
        time.well_formed(),
        time.nanos() == 0,
        next_event(time, sunrise, sunset).nanos() == 0,
    ensures
        seconds_to_next_event(time, sunrise, sunset) == if next_event(
            time,
            sunrise,
            sunset,
        ).seconds() >= time.seconds() {
            next_event(time, sunrise, sunset).seconds() - time.seconds()
        } else {
            0
        },
{
    let event = next_event(time, sunrise, sunset);
    let span = event.seconds() - time.seconds();
    assert(nanos_between(event, time) == span * NANOS_PER_SECOND);
    if span >= 0 {
        assert((span * NANOS_PER_SECOND) / (NANOS_PER_SECOND as int) == span) by (nonlinear_arith);
    } else {
        assert(((-span) * NANOS_PER_SECOND) / (NANOS_PER_SECOND as int) == -span)
            by (nonlinear_arith);
        assert(-(span * NANOS_PER_SECOND) == (-span) * NANOS_PER_SECOND) by (nonlinear_arith);
    }
}

} // verus!
