//! The scheduling configuration and the bounds the configuration layer
//! enforces before a value reaches the core.

use vstd::prelude::*;
use crate::target::MouseTarget;

verus! {

/// Lowest interval between bursts, in seconds.
pub const INTERVAL_MIN: u8 = 1;

/// Highest interval between bursts, in seconds.
pub const INTERVAL_MAX: u8 = 100;

/// Lowest number of clicks per burst.
pub const CLICKS_MIN: u8 = 1;

/// Highest number of clicks per burst.
pub const CLICKS_MAX: u8 = 100;

/// Highest hours field of a delay or duration triple.
pub const HOURS_MAX: u64 = 23;

/// Highest minutes field of a delay or duration triple.
pub const MINUTES_MAX: u64 = 59;

/// Highest seconds field of a delay or duration triple.
pub const SECONDS_MAX: u64 = 59;

/// Largest total a delay or duration triple can sum to: 23h 59m 59s.
pub const TRIPLE_TOTAL_MAX: u64 = 23 * 3600 + 59 * 60 + 59;

/// A snapshot of the user-editable scheduling parameters, read by the
/// controller when a run starts.
#[derive(Clone, Copy, PartialEq, Eq, Structural, Debug)]
pub struct Config {
    /// Seconds between two bursts of clicks.
    pub interval_seconds: u8,
    /// Clicks performed in one burst.
    pub clicks_per_burst: u8,
    /// Delay before the first burst, as an hours/minutes/seconds triple.
    pub delay_hours: u64,
    pub delay_minutes: u64,
    pub delay_seconds: u64,
    /// Total run duration as a triple; all zero means unbounded.
    pub duration_hours: u64,
    pub duration_minutes: u64,
    pub duration_seconds: u64,
    /// The button the worker will press.
    pub target: MouseTarget,
}

impl Config {
    /// Every field within the bounds the configuration layer guarantees.
    pub open spec fn wf(self) -> bool {
        &&& INTERVAL_MIN <= self.interval_seconds <= INTERVAL_MAX
        &&& CLICKS_MIN <= self.clicks_per_burst <= CLICKS_MAX
        &&& self.delay_hours <= HOURS_MAX
        &&& self.delay_minutes <= MINUTES_MAX
        &&& self.delay_seconds <= SECONDS_MAX
        &&& self.duration_hours <= HOURS_MAX
        &&& self.duration_minutes <= MINUTES_MAX
        &&& self.duration_seconds <= SECONDS_MAX
    }

    /// The delay triple summed to seconds.
    pub open spec fn spec_delay_total(self) -> int {
        self.delay_hours * 3600 + self.delay_minutes * 60 + self.delay_seconds
    }

    /// The duration triple summed to seconds; `None` when all three fields
    /// are zero, which means the run is unbounded.
    pub open spec fn spec_duration_total(self) -> Option<u64> {
        if self.duration_hours == 0 && self.duration_minutes == 0 && self.duration_seconds == 0 {
            None
        } else {
            Some((self.duration_hours * 3600 + self.duration_minutes * 60
                + self.duration_seconds) as u64)
        }
    }

    /// Sum the delay triple to seconds.
    pub fn delay_total_seconds(&self) -> (r: u64)
        requires
            self.wf(),
        ensures
            r == self.spec_delay_total(),
            r <= TRIPLE_TOTAL_MAX,
    {
        self.delay_hours * 3600 + self.delay_minutes * 60 + self.delay_seconds
    }

    /// Sum the duration triple to seconds, or report an unbounded run.
    pub fn duration_total_seconds(&self) -> (r: Option<u64>)
        requires
            self.wf(),
        ensures
            r == self.spec_duration_total(),
            r matches Some(d) ==> 1 <= d <= TRIPLE_TOTAL_MAX,
    {
        if self.duration_hours == 0 && self.duration_minutes == 0 && self.duration_seconds == 0 {
            None
        } else {
            Some(self.duration_hours * 3600 + self.duration_minutes * 60 + self.duration_seconds)
        }
    }

    /// Replace the burst interval, clamped into its bounds.
    pub fn set_interval_seconds(&mut self, value: u8)
        ensures
            *final(self) == (Config {
                interval_seconds: clamp_u8(value, INTERVAL_MIN, INTERVAL_MAX),
                ..*old(self)
            }),
    {
        self.interval_seconds = exec_clamp_u8(value, INTERVAL_MIN, INTERVAL_MAX);
    }

    /// Replace the clicks-per-burst count, clamped into its bounds.
    pub fn set_clicks_per_burst(&mut self, value: u8)
        ensures
            *final(self) == (Config {
                clicks_per_burst: clamp_u8(value, CLICKS_MIN, CLICKS_MAX),
                ..*old(self)
            }),
    {
        self.clicks_per_burst = exec_clamp_u8(value, CLICKS_MIN, CLICKS_MAX);
    }

    /// Replace the delay hours field, capped at its bound.
    pub fn set_delay_hours(&mut self, value: u64)
        ensures
            *final(self) == (Config { delay_hours: cap_u64(value, HOURS_MAX), ..*old(self) }),
    {
        self.delay_hours = exec_cap_u64(value, HOURS_MAX);
    }

    /// Replace the delay minutes field, capped at its bound.
    pub fn set_delay_minutes(&mut self, value: u64)
        ensures
            *final(self) == (Config { delay_minutes: cap_u64(value, MINUTES_MAX), ..*old(self) }),
    {
        self.delay_minutes = exec_cap_u64(value, MINUTES_MAX);
    }

    /// Replace the delay seconds field, capped at its bound.
    pub fn set_delay_seconds(&mut self, value: u64)
        ensures
            *final(self) == (Config { delay_seconds: cap_u64(value, SECONDS_MAX), ..*old(self) }),
    {
        self.delay_seconds = exec_cap_u64(value, SECONDS_MAX);
    }

    /// Replace the duration hours field, capped at its bound.
    pub fn set_duration_hours(&mut self, value: u64)
        ensures
            *final(self) == (Config { duration_hours: cap_u64(value, HOURS_MAX), ..*old(self) }),
    {
        self.duration_hours = exec_cap_u64(value, HOURS_MAX);
    }

    /// Replace the duration minutes field, capped at its bound.
    pub fn set_duration_minutes(&mut self, value: u64)
        ensures
            *final(self) == (Config {
                duration_minutes: cap_u64(value, MINUTES_MAX),
                ..*old(self)
            }),
    {
        self.duration_minutes = exec_cap_u64(value, MINUTES_MAX);
    }

    /// Replace the duration seconds field, capped at its bound.
    pub fn set_duration_seconds(&mut self, value: u64)
        ensures
            *final(self) == (Config {
                duration_seconds: cap_u64(value, SECONDS_MAX),
                ..*old(self)
            }),
    {
        self.duration_seconds = exec_cap_u64(value, SECONDS_MAX);
    }

    /// Select the target the next run will press.
    pub fn set_target(&mut self, target: MouseTarget)
        ensures
            *final(self) == (Config { target, ..*old(self) }),
    {
        self.target = target;
    }

}

/// The defaults a fresh configuration starts from: the shortest interval,
/// a single click per burst, no delay, unbounded duration, primary button.
pub open spec fn default_config() -> Config {
    Config {
        interval_seconds: 1,
        clicks_per_burst: 1,
        delay_hours: 0,
        delay_minutes: 0,
        delay_seconds: 0,
        duration_hours: 0,
        duration_minutes: 0,
        duration_seconds: 0,
        target: MouseTarget::Primary,
    }
}

impl Default for Config {
    /// The documented defaults; they are well formed and unbounded.
    fn default() -> (c: Config)
        ensures
            c == default_config(),
            c.wf(),
    {
        Config {
            interval_seconds: 1,
            clicks_per_burst: 1,
            delay_hours: 0,
            delay_minutes: 0,
            delay_seconds: 0,
            duration_hours: 0,
            duration_minutes: 0,
            duration_seconds: 0,
            target: MouseTarget::Primary,
        }
    }
}

/// A value forced into a closed range.
pub open spec fn clamp_u8(v: u8, lo: u8, hi: u8) -> u8 {
    if v < lo {
        lo
    } else if v > hi {
        hi
    } else {
        v
    }
}

/// A value capped from above.
pub open spec fn cap_u64(v: u64, max: u64) -> u64 {
    if v > max {
        max
    } else {
        v
    }
}

fn exec_clamp_u8(v: u8, lo: u8, hi: u8) -> (r: u8)
    requires
        lo <= hi,
    ensures
        r == clamp_u8(v, lo, hi),
{
    if v < lo {
        lo
    } else if v > hi {
        hi
    } else {
        v
    }
}

fn exec_cap_u64(v: u64, max: u64) -> (r: u64)
    ensures
        r == cap_u64(v, max),
{
    if v > max {
        max
    } else {
        v
    }
}

} // verus!
