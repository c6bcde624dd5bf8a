//! Instants, calendar days and the daylight window of one day, all in UTC.

use vstd::prelude::*;
use crate::failure::ConfigurationError;

verus! {

/// Length of a calendar day in seconds.
pub const SECONDS_PER_DAY: i64 = 86_400;

/// A point in time: whole seconds since 1970-01-01T00:00:00 UTC.
#[derive(Clone, Copy, Debug, PartialEq, Eq, Structural)]
pub struct Instant {
    pub secs: i64,
}

/// Whether `secs` can be held by an [`Instant`].
pub open spec fn representable(secs: int) -> bool {
    i64::MIN <= secs <= i64::MAX
}

impl Instant {
    /// The calendar day this instant falls on, counted from 1970-01-01 as
    /// day 0. Days before it are negative.
    pub open spec fn spec_day(&self) -> int {
        self.secs as int / SECONDS_PER_DAY as int
    }

    /// The time of day: seconds since midnight, in `0..86_400`.
    pub open spec fn spec_second_of_day(&self) -> int {
        self.secs as int % SECONDS_PER_DAY as int
    }

    /// Seconds since the epoch of the instant that has this instant's time of
    /// day on calendar day `day`.
    pub open spec fn moved_to_day(&self, day: int) -> int {
        day * SECONDS_PER_DAY as int + self.spec_second_of_day()
    }

    /// The calendar day this instant falls on.
    pub fn day(&self) -> (d: i64)
        ensures
            d == self.spec_day(),
    {
        if self.secs >= 0 {
            self.secs / SECONDS_PER_DAY
        } else {
            let below: i64 = -(self.secs + 1);
            -(below / SECONDS_PER_DAY) - 1
        }
    }

    /// Seconds since midnight.
    pub fn second_of_day(&self) -> (s: i64)
        ensures
            s == self.spec_second_of_day(),
            0 <= s < SECONDS_PER_DAY,
    {
        if self.secs >= 0 {
            self.secs % SECONDS_PER_DAY
        } else {
            let below: i64 = -(self.secs + 1);
            SECONDS_PER_DAY - 1 - below % SECONDS_PER_DAY
        }
    }

    /// The instant with the same time of day on calendar day `day`, or `None`
    /// where no `Instant` can hold it.
    pub fn on_day(&self, day: i64) -> (moved: Option<Instant>)
        ensures
            match moved {
                Some(t) => {
                    &&& t.secs == self.moved_to_day(day as int)
                    &&& t.spec_day() == day
                    &&& t.spec_second_of_day() == self.spec_second_of_day()
                },
                None => !representable(self.moved_to_day(day as int)),
            },
            self.spec_day() == day ==> moved == Some(*self),
    {
        let span: i128 = SECONDS_PER_DAY as i128;
        let midnight: i128 = day as i128 * span;
        let wide: i128 = midnight + self.second_of_day() as i128;
        if wide < i64::MIN as i128 || wide > i64::MAX as i128 {
            None
        } else {
            Some(Instant { secs: wide as i64 })
        }
    }
}

/// The daylight of one calendar day: sunrise and sunset, both on that day.
#[derive(Clone, Copy, Debug, PartialEq, Eq, Structural)]
pub struct SolarWindow {
    day: i64,
    sunrise: Instant,
    sunset: Instant,
}

/// Why no daylight window can be made of a reported sunrise and sunset once
/// both are moved to calendar day `day`; `None` where one can.
pub open spec fn window_fault(day: int, sunrise: Instant, sunset: Instant) -> Option<
    ConfigurationError,
> {
    if !representable(sunrise.moved_to_day(day)) || !representable(sunset.moved_to_day(day)) {
        Some(ConfigurationError::DayOutOfRange)
    } else if sunset.spec_second_of_day() <= sunrise.spec_second_of_day() {
        Some(ConfigurationError::NonPositiveDayLength)
    } else {
        None
    }
}

impl SolarWindow {
    /// The calendar day the window is for.
    pub closed spec fn spec_day(&self) -> i64 {
        self.day
    }

    /// When the sun rises on that day.
    pub closed spec fn spec_sunrise(&self) -> Instant {
        self.sunrise
    }

    /// When the sun sets on that day.
    pub closed spec fn spec_sunset(&self) -> Instant {
        self.sunset
    }

    /// Sunrise and sunset fall on the window's day, and sunset comes later.
    pub open spec fn wf(&self) -> bool {
        &&& self.sunrise().spec_day() == self.day()
        &&& self.sunset().spec_day() == self.day()
        &&& self.sunrise().secs < self.sunset().secs
    }

    /// Seconds from sunrise to sunset.
    pub open spec fn day_length(&self) -> int {
        self.sunset().secs - self.sunrise().secs
    }

    /// The calendar day the window is for.
    #[verifier::when_used_as_spec(spec_day)]
    pub fn day(&self) -> (d: i64)
        ensures
            d == self.day(),
    {
        self.day
    }

    /// When the sun rises on that day.
    #[verifier::when_used_as_spec(spec_sunrise)]
    pub fn sunrise(&self) -> (t: Instant)
        ensures
            t == self.sunrise(),
    {
        self.sunrise
    }

    /// When the sun sets on that day.
    #[verifier::when_used_as_spec(spec_sunset)]
    pub fn sunset(&self) -> (t: Instant)
        ensures
            t == self.sunset(),
    {
        self.sunset
    }

    /// The daylight window of calendar day `day` from a sunrise and a sunset
    /// as a solar clock reported them.
    ///
    /// Such a clock may date either instant a day off. Both are therefore
    /// moved to `day`, keeping their time of day; an instant that is on `day`
    /// already is taken as it is. The window is refused where sunset does not
    /// come after sunrise on that day.
    pub fn for_day(day: i64, sunrise: Instant, sunset: Instant) -> (made: Result<
        SolarWindow,
        ConfigurationError,
    >)
        ensures
            match made {
                Ok(w) => {
                    &&& window_fault(day as int, sunrise, sunset) is None
                    &&& w.wf()
                    &&& w.day() == day
                    &&& w.sunrise().secs == sunrise.moved_to_day(day as int)
                    &&& w.sunset().secs == sunset.moved_to_day(day as int)
                    &&& w.sunrise().spec_second_of_day() == sunrise.spec_second_of_day()
                    &&& w.sunset().spec_second_of_day() == sunset.spec_second_of_day()
                },
                Err(e) => window_fault(day as int, sunrise, sunset) == Some(e),
            },
    {
        match (sunrise.on_day(day), sunset.on_day(day)) {
            (Some(rise), Some(set)) => {
                if rise.secs < set.secs {
                    Ok(SolarWindow { day, sunrise: rise, sunset: set })
                } else {
                    Err(ConfigurationError::NonPositiveDayLength)
                }
            },
            _ => Err(ConfigurationError::DayOutOfRange),
        }
    }
}

/// Moving an instant to a calendar day puts it on that day and keeps its time
/// of day to the second; an instant that is on the day already stays as it is.
pub proof fn moving_keeps_time_of_day(t: Instant, day: int)
    ensures
        t.moved_to_day(day) / SECONDS_PER_DAY as int == day,
        t.moved_to_day(day) % SECONDS_PER_DAY as int == t.spec_second_of_day(),
        t.spec_day() == day ==> t.moved_to_day(day) == t.secs,
{
}

} // verus!
