//! What the machines report beside their state: the lines that a caller
//! logs, and the writes that a caller sends to the ramp registers.
use crate::axis::AxisEvent;
use vstd::prelude::*;

verus! {

/// A report of a machine. None of them is a failure: every operation
/// returns, and what it could not do is told here.
#[derive(Clone, Copy, Debug, PartialEq, Eq)]
pub enum Notice {
    /// An operation on axis `axis` has `event` to report.
    Axis { axis: usize, event: AxisEvent },
    /// The driver of axis `axis` raised its alarm: all axes were stopped.
    AlarmTriggered { axis: usize },
    /// The alarms were not reset: the alarm input of axis `axis` is still
    /// active.
    AlarmResetRefused { axis: usize },
    /// All alarm latches were cleared.
    AlarmsReset,
    /// A door is open while an axis is active: all axes were stopped.
    DoorOpen,
    /// No ramp writer is available: the acceleration of axis `axis` was
    /// recorded and has no effect on the hardware.
    RampWriterUnavailable { axis: usize },
    /// Axis `axis` is moving; told at most once a second.
    AxisMoving { axis: usize, frequency_hz: i32, position: u32 },
    /// A full report of inputs, outputs and channels was asked for.
    DebugLogRequested,
}

/// One write of a 16-bit value to a configuration register of a device.
#[derive(Clone, Copy, Debug, PartialEq, Eq)]
pub struct SdoWrite {
    pub subdevice_index: usize,
    pub index: u16,
    pub subindex: u8,
    pub value: u16,
}

/// Sub-index of the rising ramp time constant in a channel's registers.
pub const RAMP_RISING_SUBINDEX: u8 = 0x14;

/// Sub-index of the falling ramp time constant in a channel's registers.
pub const RAMP_FALLING_SUBINDEX: u8 = 0x15;

/// Base register of the first channel of a pulse-train device.
pub const PTO_CHANNEL_1_BASE: u16 = 0x8000;

/// Base register of the second channel of a pulse-train device.
pub const PTO_CHANNEL_2_BASE: u16 = 0x8010;

/// Nanoseconds between two live-value events: a thirtieth of a second.
pub const LIVE_VALUES_INTERVAL_NS: u64 = 33_333_333;

/// Nanoseconds between two reports of the axes that move.
pub const DEBUG_LOG_INTERVAL_NS: u64 = 1_000_000_000;

/// The time from `earlier` to `now`, zero where `earlier` is the later one.
pub open spec fn spec_elapsed(now: u64, earlier: u64) -> u64 {
    if now >= earlier {
        (now - earlier) as u64
    } else {
        0
    }
}

/// The time from `earlier` to `now`, zero where `earlier` is the later one.
pub fn elapsed(now: u64, earlier: u64) -> (ns: u64)
    ensures
        ns == spec_elapsed(now, earlier),
{
    if now >= earlier {
        now - earlier
    } else {
        0
    }
}

} // verus!
