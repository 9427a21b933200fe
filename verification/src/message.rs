//! The events the host delivers to the engine.

use vstd::prelude::*;
use crate::target::MouseTarget;

verus! {

/// One user edit, lifecycle command, or heartbeat tick. Host-only concerns
/// (theme selection, raw key events) stay with the host, which translates
/// shortcut keys into `Start` and `Stop` itself.
#[derive(Clone, Copy, PartialEq, Eq, Structural, Debug)]
pub enum Message {
    ClickCountSliderChanged(u8),
    DelayHoursChanged(u64),
    DelayMinutesChanged(u64),
    DelaySecondsChanged(u64),
    DurationHoursChanged(u64),
    DurationMinutesChanged(u64),
    DurationSecondsChanged(u64),
    IntervalSliderChanged(u8),
    ResetToDefaults,
    SaveSettings,
    SelectMouseButton(MouseTarget),
    Start,
    Stop,
    Tick,
}

} // verus!
