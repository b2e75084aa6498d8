//! The clock that the sun and the moon go by.

use vstd::prelude::*;

verus! {

/// Length of a day, in seconds. The day begins at sunrise.
pub const DAY_LENGTH: u64 = 1200;

/// Number of nanoseconds in a second.
pub const NANOS_PER_SECOND: u64 = 1_000_000_000;

/// A time of the day that the clock can be set to.
#[derive(Clone, Copy, Debug, PartialEq, Eq, Structural)]
pub enum TimeOfDay {
    Sunrise,
    Noon,
    Sunset,
    Midnight,
}

impl TimeOfDay {
    /// How many seconds after sunrise the time of the day begins: noon a
    /// quarter, sunset a half and midnight three quarters of a day.
    pub open spec fn seconds_of(self) -> int {
        match self {
            TimeOfDay::Sunrise => 0,
            TimeOfDay::Noon => DAY_LENGTH as int / 4,
            TimeOfDay::Sunset => DAY_LENGTH as int / 2,
            TimeOfDay::Midnight => DAY_LENGTH as int / 4 * 3,
        }
    }

    /// How many seconds after sunrise the time of the day begins.
    pub fn seconds(self) -> (seconds: u64)
        ensures
            seconds == self.seconds_of(),
    {
        match self {
            TimeOfDay::Sunrise => 0,
            TimeOfDay::Noon => DAY_LENGTH / 4,
            TimeOfDay::Sunset => DAY_LENGTH / 2,
            TimeOfDay::Midnight => DAY_LENGTH / 4 * 3,
        }
    }
}

/// The time that has passed since the first sunrise, in nanoseconds.
#[derive(Clone, Copy, Debug, PartialEq, Eq, Structural)]
pub struct Clock {
    pub time: u128,
}

impl Clock {
    /// The clock at the first sunrise.
    pub fn new() -> (clock: Clock)
        ensures
            clock.time == 0,
    {
        Clock { time: 0 }
    }

    /// Sets the clock to a time of the first day.
    pub fn set(&mut self, time: TimeOfDay)
        ensures
            final(self).time == time.seconds_of() * NANOS_PER_SECOND,
    {
        self.time = time.seconds() as u128 * NANOS_PER_SECOND as u128;
    }

    /// Sets the clock to the sunrise of the first day.
    pub fn set_sunrise(&mut self)
        ensures
            final(self).time == 0,
    {
        self.set(TimeOfDay::Sunrise);
    }

    /// Sets the clock to the sunset of the first day.
    pub fn set_sunset(&mut self)
        ensures
            final(self).time == 600 * NANOS_PER_SECOND,
    {
        self.set(TimeOfDay::Sunset);
    }

    /// Sets the clock to the noon of the first day.
    pub fn set_noon(&mut self)
        ensures
            final(self).time == 300 * NANOS_PER_SECOND,
    {
        self.set(TimeOfDay::Noon);
    }

    /// Sets the clock to the midnight of the first day.
    pub fn set_midnight(&mut self)
        ensures
            final(self).time == 900 * NANOS_PER_SECOND,
    {
        self.set(TimeOfDay::Midnight);
    }

    /// Lets `nanoseconds` pass.
    pub fn advance(&mut self, nanoseconds: u64)
        requires
            old(self).time + nanoseconds <= u128::MAX,
        ensures
            final(self).time == old(self).time + nanoseconds,
    {
        self.time = self.time + nanoseconds as u128;
    }
}

} // verus!
