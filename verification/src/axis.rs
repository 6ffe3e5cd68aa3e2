//! One axis: its motion state, the operations that change it, and the
//! command that each operation leaves in the axis's pulse-train channel.
//!
//! Every operation is total and is specified by a function of the axis
//! before it: the `ensures` of `Axis::stop` says that the axis afterwards is
//! `stopped()` of the axis before, and so on.
use crate::io::{
    position_to_counter, spec_position_to_counter, PtoCommand, PtoStatus, PulseTrainOutput,
};
use crate::mechanics::{
    distance_to_pulses, lemma_hz_to_mm_per_s_exact, mm_per_s_to_hz, mm_to_pulses, position_to_mm,
    saturate, saturate_i32, spec_distance_to_pulses, spec_mm_per_s_to_hz, spec_mm_to_pulses,
    spec_position_to_mm, spec_speed_magnitude_hz, speed_magnitude_hz, trunc_div, Milli,
    MILLI_PER_UNIT, PULSES_PER_MM,
};
use vstd::arithmetic::div_mod::{lemma_div_denominator, lemma_div_multiples_vanish};
use vstd::prelude::*;

verus! {

/// Lower bound of an axis's acceleration, in mm/s².
pub const MIN_ACCELERATION: Milli = 4_000;

/// Upper bound of an axis's acceleration, in mm/s².
pub const MAX_ACCELERATION: Milli = 500_000;

/// Acceleration of an axis at start-up, in mm/s².
pub const DEFAULT_ACCELERATION: Milli = 100_000;

/// Base frequency from which the ramp time constants are derived.
pub const RAMP_BASE_FREQUENCY_HZ: u32 = 5000;

/// Cycles after the start of a travel during which "target reached" is not
/// trusted: it may still tell of the travel before.
pub const IGNORE_CYCLES_AFTER_MOVE: u8 = 5;

/// Largest deviation, in pulses, of a finished travel from its target that
/// is not reported as step loss.
pub const STEP_LOSS_TOLERANCE: i64 = 2;

/// A requested position that the soft limits move by more than this, in mm,
/// is reported.
pub const CLAMP_REPORT_THRESHOLD: Milli = 100;

/// Lower soft limit of a bounded axis, in mm: the home position.
pub const SOFT_LIMIT_MIN_MM: Milli = 0;

/// Speed of both homing moves, in mm/s.
pub const HOMING_SPEED_MM_S: Milli = 15_000;

/// Distance by which homing backs off the reference sensor, in mm.
pub const RETRACT_DISTANCE_MM: Milli = 2_000;

/// The phases of the homing sequence.
#[derive(Clone, Copy, Debug, PartialEq, Eq, Structural)]
pub enum HomingPhase {
    /// Not homing.
    Idle,
    /// Moving in the negative direction until the reference sensor triggers.
    SearchingSensor,
    /// Backing off the sensor in the positive direction.
    Retracting,
    /// Waiting for the hardware to set the position counter to zero.
    SettingZero,
}

/// What an operation on one axis has to report.
#[derive(Clone, Copy, Debug, PartialEq, Eq)]
pub enum AxisEvent {
    /// A stop or a cancel request ended a homing sequence.
    HomingCancelled,
    /// Homing was requested of an axis without reference sensor.
    HomingRejected,
    /// Homing was requested of an axis that is homing already.
    HomingAlreadyActive,
    /// The homing sequence has ended; the position counter is zero.
    HomingComplete,
    /// A travel was requested of an axis that is homing.
    MoveRejected,
    /// The soft limits moved the target of a travel.
    PositionClamped { requested_mm: Milli, clamped_mm: Milli },
    /// A travel ended within the tolerance of its target.
    TargetReached { target: i32, actual: i32, deviation: i64 },
    /// A travel ended further from its target than the tolerance.
    StepLoss { target: i32, actual: i32, deviation: i64, deviation_mm: Milli },
    /// A jog was held at a soft limit.
    SoftLimitReached { position_mm: Milli },
}

/// The state of one axis, with the mirror of its pulse-train channel.
#[derive(Clone, Copy, Debug, PartialEq, Eq)]
pub struct Axis {
    /// Last speed written to the hardware; the sign is the direction.
    pub current_speed_hz: i32,
    /// Speed that jog mode is to reach.
    pub target_speed_hz: i32,
    /// Acceleration in mm/s², within the bounds above.
    pub acceleration: Milli,
    /// A travel to `target_position` is in flight.
    pub position_mode: bool,
    /// Target of the travel, in pulses.
    pub target_position: i32,
    /// Cycles left during which "target reached" is not trusted.
    pub ignore_cycles: u8,
    /// Upper soft limit in mm; `None` for an axis without bounds.
    pub soft_limit_max_mm: Option<Milli>,
    /// A driver alarm is latched.
    pub alarm_active: bool,
    pub homing_phase: HomingPhase,
    /// Position, in pulses, at which the retract move of homing ends.
    pub homing_retract_target: i32,
    /// The axis is linear and has a reference sensor.
    pub homeable: bool,
    /// The mirror of the axis's pulse-train channel.
    pub pto: PulseTrainOutput,
}

/// `x` limited to the range of `u16`.
pub open spec fn saturate_u16(x: int) -> int {
    if x < 0 {
        0
    } else if x > u16::MAX {
        u16::MAX as int
    } else {
        x
    }
}

/// An acceleration limited to the accepted range.
pub open spec fn spec_clamp_acceleration(accel_mm_s2: Milli) -> Milli {
    if accel_mm_s2 < MIN_ACCELERATION {
        MIN_ACCELERATION
    } else if accel_mm_s2 > MAX_ACCELERATION {
        MAX_ACCELERATION
    } else {
        accel_mm_s2
    }
}

/// The ramp time constant in ms of an acceleration: the time in which the
/// frequency changes by `RAMP_BASE_FREQUENCY_HZ`.
pub open spec fn spec_ramp_time_ms(accel_mm_s2: Milli) -> int {
    saturate_u16(
        (RAMP_BASE_FREQUENCY_HZ * MILLI_PER_UNIT * MILLI_PER_UNIT) / (accel_mm_s2 * PULSES_PER_MM),
    )
}

/// The frequency of both homing moves, in Hz.
pub open spec fn spec_homing_hz() -> int {
    spec_mm_per_s_to_hz(HOMING_SPEED_MM_S)
}

/// The report on a travel that ended at `actual`, `target` having been asked.
pub open spec fn spec_completion_event(target: i32, actual: i32) -> AxisEvent {
    let deviation = if actual >= target {
        actual - target
    } else {
        target - actual
    };
    if deviation > STEP_LOSS_TOLERANCE {
        AxisEvent::StepLoss {
            target,
            actual,
            deviation: deviation as i64,
            deviation_mm: ((deviation * MILLI_PER_UNIT) / (PULSES_PER_MM as int)) as i64,
        }
    } else {
        AxisEvent::TargetReached { target, actual, deviation: deviation as i64 }
    }
}

/// An acceleration limited to the accepted range.
pub fn clamp_acceleration(accel_mm_s2: Milli) -> (clamped: Milli)
    ensures
        clamped == spec_clamp_acceleration(accel_mm_s2),
        MIN_ACCELERATION <= clamped <= MAX_ACCELERATION,
{
    if accel_mm_s2 < MIN_ACCELERATION {
        MIN_ACCELERATION
    } else if accel_mm_s2 > MAX_ACCELERATION {
        MAX_ACCELERATION
    } else {
        accel_mm_s2
    }
}

/// The ramp time constant in ms of an acceleration, which is first limited
/// to the accepted range.
pub fn ramp_time_ms(accel_mm_s2: Milli) -> (ms: u16)
    ensures
        ms == spec_ramp_time_ms(spec_clamp_acceleration(accel_mm_s2)),
{
    let clamped = clamp_acceleration(accel_mm_s2);
    assert(RAMP_BASE_FREQUENCY_HZ * MILLI_PER_UNIT == 5_000_000 && RAMP_BASE_FREQUENCY_HZ
        * MILLI_PER_UNIT * MILLI_PER_UNIT == 5_000_000_000) by (nonlinear_arith)
        requires
            RAMP_BASE_FREQUENCY_HZ == 5000,
            MILLI_PER_UNIT == 1000,
    ;
    let numerator: u64 = (RAMP_BASE_FREQUENCY_HZ as u64) * (MILLI_PER_UNIT as u64) * (
    MILLI_PER_UNIT as u64);
    assert(0 < clamped * PULSES_PER_MM <= u64::MAX) by (nonlinear_arith)
        requires
            4_000 <= clamped <= 500_000,
            PULSES_PER_MM == 20,
    ;
    let denominator: u64 = (clamped as u64) * (PULSES_PER_MM as u64);
    let quotient: u64 = numerator / denominator;
    if quotient > 65535 {
        65535
    } else {
        quotient as u16
    }
}

/// With the constants above the ramp time constant is 250 000 000 divided by
/// the acceleration in thousandths of a mm/s², at most `u16::MAX`.
pub proof fn lemma_ramp_time_ms(accel_mm_s2: Milli)
    requires
        accel_mm_s2 > 0,
    ensures
        spec_ramp_time_ms(accel_mm_s2) == saturate_u16(250_000_000int / (accel_mm_s2 as int)),
{
    let numerator = RAMP_BASE_FREQUENCY_HZ * MILLI_PER_UNIT * MILLI_PER_UNIT;
    let denominator = accel_mm_s2 * PULSES_PER_MM;
    assert(numerator == 5_000_000_000int && denominator == accel_mm_s2 * 20) by (nonlinear_arith)
        requires
            numerator == RAMP_BASE_FREQUENCY_HZ * MILLI_PER_UNIT * MILLI_PER_UNIT,
            denominator == accel_mm_s2 * PULSES_PER_MM,
            RAMP_BASE_FREQUENCY_HZ == 5000,
            MILLI_PER_UNIT == 1000,
            PULSES_PER_MM == 20,
    ;
    lemma_div_denominator(5_000_000_000int, 20, accel_mm_s2 as int);
    assert(20 * accel_mm_s2 == accel_mm_s2 * 20);
}

/// The report on a travel that ended at `actual`, `target` having been asked.
pub fn completion_event(target: i32, actual: i32) -> (event: AxisEvent)
    ensures
        event == spec_completion_event(target, actual),
{
    let deviation: i64 = if actual >= target {
        (actual as i64) - (target as i64)
    } else {
        (target as i64) - (actual as i64)
    };
    if deviation > STEP_LOSS_TOLERANCE {
        AxisEvent::StepLoss {
            target,
            actual,
            deviation,
            deviation_mm: (deviation * MILLI_PER_UNIT) / (PULSES_PER_MM as i64),
        }
    } else {
        AxisEvent::TargetReached { target, actual, deviation }
    }
}

impl Axis {
    /// The invariant of an axis: homing and position mode exclude each
    /// other, only a homeable axis homes, the acceleration is within its
    /// bounds and an upper soft limit is not below the lower one.
    pub open spec fn wf(self) -> bool {
        &&& self.homing_phase != HomingPhase::Idle ==> !self.position_mode
        &&& self.homing_phase != HomingPhase::Idle ==> self.homeable
        &&& MIN_ACCELERATION <= self.acceleration <= MAX_ACCELERATION
        &&& self.soft_limit_max_mm matches Some(max) ==> max >= SOFT_LIMIT_MIN_MM
    }

    /// The axis is at rest: both speeds zero, no travel, no homing.
    pub open spec fn is_stopped(self) -> bool {
        &&& self.current_speed_hz == 0
        &&& self.target_speed_hz == 0
        &&& !self.position_mode
        &&& self.homing_phase == HomingPhase::Idle
    }

    /// The axis as it is created: at rest, nothing latched.
    pub open spec fn spec_new(soft_limit_max_mm: Option<Milli>, homeable: bool) -> Axis {
        Axis {
            current_speed_hz: 0,
            target_speed_hz: 0,
            acceleration: DEFAULT_ACCELERATION,
            position_mode: false,
            target_position: 0,
            ignore_cycles: 0,
            soft_limit_max_mm,
            alarm_active: false,
            homing_phase: HomingPhase::Idle,
            homing_retract_target: 0,
            homeable,
            pto: PulseTrainOutput {
                output: PtoCommand::spec_idle(),
                input: PtoStatus::spec_idle(),
            },
        }
    }

    /// The signed position in pulses that the hardware reports.
    pub open spec fn position(self) -> int {
        self.pto.spec_position()
    }

    /// The axis with another command in its channel.
    pub open spec fn with_command(self, command: PtoCommand) -> Axis {
        Axis { pto: PulseTrainOutput { output: command, ..self.pto }, ..self }
    }

    /// The axis after `set_jog_speed`.
    pub open spec fn with_jog_speed(self, hz: i32) -> Axis {
        Axis { target_speed_hz: hz, ..self }
    }

    /// The axis after `stop`.
    pub open spec fn stopped(self) -> Axis {
        Axis {
            current_speed_hz: 0,
            target_speed_hz: 0,
            position_mode: false,
            homing_phase: HomingPhase::Idle,
            ..self.with_command(self.pto.output.immediate_stop())
        }
    }

    /// The axis after `set_acceleration`.
    pub open spec fn with_acceleration(self, accel_mm_s2: Milli) -> Axis {
        Axis { acceleration: spec_clamp_acceleration(accel_mm_s2), ..self }
    }

    /// A requested position limited to the soft limits, where the axis has
    /// any.
    pub open spec fn clamp_target(self, position_mm: Milli) -> Milli {
        match self.soft_limit_max_mm {
            Some(max) => if position_mm < SOFT_LIMIT_MIN_MM {
                SOFT_LIMIT_MIN_MM
            } else if position_mm > max {
                max
            } else {
                position_mm
            },
            None => position_mm,
        }
    }

    /// The target in pulses of a travel to `position_mm`.
    pub open spec fn travel_target(self, position_mm: Milli) -> int {
        spec_mm_to_pulses(self.clamp_target(position_mm))
    }

    /// The axis after `move_to_position`.
    pub open spec fn moved_to(self, position_mm: Milli, speed_mm_s: Milli) -> Axis {
        if self.homing_phase != HomingPhase::Idle {
            self
        } else {
            let target = self.travel_target(position_mm) as i32;
            let hz = spec_speed_magnitude_hz(speed_mm_s) as i32;
            let signed = if target > self.position() {
                hz
            } else {
                (-hz) as i32
            };
            Axis {
                current_speed_hz: signed,
                target_speed_hz: signed,
                position_mode: true,
                target_position: target,
                ignore_cycles: IGNORE_CYCLES_AFTER_MOVE,
                ..self.with_command(
                    self.pto.output.travel_to(hz, spec_position_to_counter(target) as u32),
                )
            }
        }
    }

    /// What `move_to_position` reports.
    pub open spec fn move_event(self, position_mm: Milli) -> Option<AxisEvent> {
        let clamped = self.clamp_target(position_mm);
        if self.homing_phase != HomingPhase::Idle {
            Some(AxisEvent::MoveRejected)
        } else if clamped - position_mm > CLAMP_REPORT_THRESHOLD || position_mm - clamped
            > CLAMP_REPORT_THRESHOLD {
            Some(AxisEvent::PositionClamped { requested_mm: position_mm, clamped_mm: clamped })
        } else {
            None
        }
    }

    /// A travel is in flight and the hardware reports its end, after the
    /// cycles in which that report is not trusted.
    pub open spec fn travel_completes(self) -> bool {
        self.position_mode && self.ignore_cycles == 0 && self.pto.input.select_end_counter
    }

    /// The axis after the position-mode branch of the monitor.
    pub open spec fn after_travel_check(self) -> Axis {
        if !self.position_mode {
            self
        } else if self.ignore_cycles > 0 {
            Axis { ignore_cycles: (self.ignore_cycles - 1) as u8, ..self }
        } else if self.pto.input.select_end_counter {
            Axis {
                current_speed_hz: 0,
                target_speed_hz: 0,
                position_mode: false,
                ..self.with_command(self.pto.output.travel_done())
            }
        } else {
            self
        }
    }

    /// The axis jogs against one of its soft limits: at or beyond the upper
    /// one with a positive target speed, or at or beyond the lower one with
    /// a negative target speed.
    pub open spec fn at_soft_limit(self) -> bool {
        &&& !self.position_mode
        &&& self.soft_limit_max_mm matches Some(max)
        &&& {
            let mm = spec_position_to_mm(self.position() as i32);
            ||| (mm >= max && self.target_speed_hz > 0)
            ||| (mm <= SOFT_LIMIT_MIN_MM && self.target_speed_hz < 0)
        }
    }

    /// The target speed that the jog-mode branch of the monitor accepts.
    pub open spec fn admitted_speed(self) -> i32 {
        if self.at_soft_limit() {
            0
        } else {
            self.target_speed_hz
        }
    }

    /// The axis after the jog-mode branch of the monitor.
    pub open spec fn after_jog_check(self) -> Axis {
        if self.position_mode {
            self
        } else {
            let target = self.admitted_speed();
            if self.current_speed_hz != target {
                Axis {
                    current_speed_hz: target,
                    target_speed_hz: target,
                    ..self.with_command(self.pto.output.ramp_to(target))
                }
            } else {
                Axis { target_speed_hz: target, ..self }
            }
        }
    }

    /// The axis after `monitor`.
    pub open spec fn monitored(self) -> Axis {
        self.after_travel_check().after_jog_check()
    }

    /// Whether `monitor` changes what the state snapshot shows of the axis,
    /// which is one of its two speeds or its mode. An active hardware ramp
    /// counts as a change too.
    pub open spec fn monitor_changed(self) -> bool {
        let after = self.monitored();
        ||| after.current_speed_hz != self.current_speed_hz
        ||| after.target_speed_hz != self.target_speed_hz
        ||| after.position_mode != self.position_mode
        ||| self.pto.input.ramp_active
    }

    /// What `monitor` reports.
    pub open spec fn monitor_event(self) -> Option<AxisEvent> {
        if self.travel_completes() {
            Some(spec_completion_event(self.target_position, self.position() as i32))
        } else if self.at_soft_limit() {
            Some(
                AxisEvent::SoftLimitReached {
                    position_mm: spec_position_to_mm(self.position() as i32) as i64,
                },
            )
        } else {
            None
        }
    }

    /// The axis after `start_homing`.
    pub open spec fn homing_started(self) -> Axis {
        if self.homeable && self.homing_phase == HomingPhase::Idle {
            Axis {
                homing_phase: HomingPhase::SearchingSensor,
                position_mode: false,
                target_speed_hz: (-spec_homing_hz()) as i32,
                ..self
            }
        } else {
            self
        }
    }

    /// What `start_homing` reports.
    pub open spec fn start_homing_event(self) -> Option<AxisEvent> {
        if !self.homeable {
            Some(AxisEvent::HomingRejected)
        } else if self.homing_phase != HomingPhase::Idle {
            Some(AxisEvent::HomingAlreadyActive)
        } else {
            None
        }
    }

    /// Whether `advance_homing` moves the sequence on to its next phase.
    pub open spec fn homing_advances(self, sensor_triggered: bool) -> bool {
        match self.homing_phase {
            HomingPhase::Idle => false,
            HomingPhase::SearchingSensor => sensor_triggered,
            HomingPhase::Retracting => self.position() >= self.homing_retract_target,
            HomingPhase::SettingZero => self.pto.input.set_counter_done
                || self.pto.input.counter_value == 0,
        }
    }

    /// The axis after `advance_homing`.
    pub open spec fn homing_advanced(self, sensor_triggered: bool) -> Axis {
        if !self.homing_advances(sensor_triggered) {
            self
        } else {
            match self.homing_phase {
                HomingPhase::Idle => self,
                HomingPhase::SearchingSensor => Axis {
                    current_speed_hz: 0,
                    target_speed_hz: spec_homing_hz() as i32,
                    homing_retract_target: saturate_i32(
                        self.position() + spec_distance_to_pulses(RETRACT_DISTANCE_MM),
                    ) as i32,
                    homing_phase: HomingPhase::Retracting,
                    ..self.with_command(self.pto.output.immediate_stop())
                },
                HomingPhase::Retracting => Axis {
                    current_speed_hz: 0,
                    target_speed_hz: 0,
                    homing_phase: HomingPhase::SettingZero,
                    ..self.with_command(self.pto.output.immediate_stop().counter_reset())
                },
                HomingPhase::SettingZero => Axis {
                    homing_phase: HomingPhase::Idle,
                    ..self.with_command(self.pto.output.counter_reset_cleared())
                },
            }
        }
    }

    /// What `advance_homing` reports.
    pub open spec fn homing_event(self, sensor_triggered: bool) -> Option<AxisEvent> {
        if self.homing_phase == HomingPhase::SettingZero && self.homing_advances(sensor_triggered) {
            Some(AxisEvent::HomingComplete)
        } else {
            None
        }
    }

    /// The axis after `cancel_homing`.
    pub open spec fn homing_cancelled(self) -> Axis {
        if self.homing_phase != HomingPhase::Idle {
            self.stopped()
        } else {
            self
        }
    }

    /// Creates an axis at rest, with nothing latched.
    pub fn new(soft_limit_max_mm: Option<Milli>, homeable: bool) -> (axis: Axis)
        ensures
            axis == Axis::spec_new(soft_limit_max_mm, homeable),
            axis.is_stopped(),
            (soft_limit_max_mm matches Some(max) ==> max >= SOFT_LIMIT_MIN_MM) ==> axis.wf(),
    {
        Axis {
            current_speed_hz: 0,
            target_speed_hz: 0,
            acceleration: DEFAULT_ACCELERATION,
            position_mode: false,
            target_position: 0,
            ignore_cycles: 0,
            soft_limit_max_mm,
            alarm_active: false,
            homing_phase: HomingPhase::Idle,
            homing_retract_target: 0,
            homeable,
            pto: PulseTrainOutput::new(),
        }
    }

    /// Whether the axis is at rest.
    pub fn is_at_rest(&self) -> (at_rest: bool)
        ensures
            at_rest == self.is_stopped(),
    {
        self.current_speed_hz == 0 && self.target_speed_hz == 0 && !self.position_mode
            && self.homing_phase == HomingPhase::Idle
    }

    /// Whether a homing sequence is in progress.
    pub fn is_homing(&self) -> (homing: bool)
        ensures
            homing == (self.homing_phase != HomingPhase::Idle),
    {
        self.homing_phase != HomingPhase::Idle
    }

    /// Sets the speed that jog mode is to reach. The hardware is not
    /// touched: the monitor writes the speed in its next cycle.
    pub fn set_jog_speed(&mut self, hz: i32)
        ensures
            *final(self) == old(self).with_jog_speed(hz),
            old(self).wf() ==> final(self).wf(),
    {
        self.target_speed_hz = hz;
    }

    /// Stops the axis at once: both speeds zero, travel and homing ended,
    /// immediate-stop command to the hardware. Returns whether a homing
    /// sequence was cancelled by it.
    pub fn stop(&mut self) -> (homing_cancelled: bool)
        ensures
            *final(self) == old(self).stopped(),
            final(self).is_stopped(),
            old(self).wf() ==> final(self).wf(),
            homing_cancelled == (old(self).homing_phase != HomingPhase::Idle),
    {
        let homing_cancelled = self.homing_phase != HomingPhase::Idle;
        self.homing_phase = HomingPhase::Idle;
        self.current_speed_hz = 0;
        self.target_speed_hz = 0;
        self.position_mode = false;
        let mut output = self.pto.get_output();
        output.disable_ramp = true;
        output.go_counter = false;
        output.frequency_value = 0;
        self.pto.set_output(output);
        homing_cancelled
    }

    /// Stores the acceleration, limited to the accepted range, and returns
    /// the ramp time constant in ms that belongs to it.
    pub fn set_acceleration(&mut self, accel_mm_s2: Milli) -> (ramp_ms: u16)
        ensures
            *final(self) == old(self).with_acceleration(accel_mm_s2),
            old(self).wf() ==> final(self).wf(),
            ramp_ms == spec_ramp_time_ms(spec_clamp_acceleration(accel_mm_s2)),
    {
        self.acceleration = clamp_acceleration(accel_mm_s2);
        ramp_time_ms(accel_mm_s2)
    }

    /// Starts a travel to `position_mm`, limited to the soft limits, at the
    /// magnitude of `speed_mm_s`. An axis that is homing refuses.
    pub fn move_to_position(&mut self, position_mm: Milli, speed_mm_s: Milli) -> (event: Option<
        AxisEvent,
    >)
        ensures
            *final(self) == old(self).moved_to(position_mm, speed_mm_s),
            old(self).wf() ==> final(self).wf(),
            event == old(self).move_event(position_mm),
    {
        if self.homing_phase != HomingPhase::Idle {
            return Some(AxisEvent::MoveRejected);
        }
        let clamped_mm = match self.soft_limit_max_mm {
            Some(max) => if position_mm < SOFT_LIMIT_MIN_MM {
                SOFT_LIMIT_MIN_MM
            } else if position_mm > max {
                max
            } else {
                position_mm
            },
            None => position_mm,
        };
        let target_pulses = mm_to_pulses(clamped_mm);
        let speed_hz = speed_magnitude_hz(speed_mm_s);
        let current_pulses = self.pto.position();
        let signed_hz = if target_pulses > current_pulses {
            speed_hz
        } else {
            -speed_hz
        };
        self.target_position = target_pulses;
        self.position_mode = true;
        self.ignore_cycles = IGNORE_CYCLES_AFTER_MOVE;
        let mut output = self.pto.get_output();
        output.go_counter = true;
        output.disable_ramp = false;
        output.frequency_value = speed_hz;
        output.target_counter_value = position_to_counter(target_pulses);
        self.pto.set_output(output);
        self.target_speed_hz = signed_hz;
        self.current_speed_hz = signed_hz;
        let moved_by: i128 = (clamped_mm as i128) - (position_mm as i128);
        if moved_by > (CLAMP_REPORT_THRESHOLD as i128) || -moved_by > (
        CLAMP_REPORT_THRESHOLD as i128) {
            Some(AxisEvent::PositionClamped { requested_mm: position_mm, clamped_mm })
        } else {
            None
        }
    }

    /// One cycle of the ramp and position monitor. In position mode it waits
    /// out the cycles in which "target reached" is not trusted, then ends
    /// the travel when the hardware reports it and checks the position that
    /// was reached. In jog mode it holds the axis at its soft limits and
    /// writes a changed target speed to the hardware.
    pub fn monitor(&mut self) -> (report: (bool, Option<AxisEvent>))
        ensures
            *final(self) == old(self).monitored(),
            old(self).wf() ==> final(self).wf(),
            report.0 == old(self).monitor_changed(),
            report.1 == old(self).monitor_event(),
    {
        let input = self.pto.get_input();
        let mut changed = false;
        let mut event: Option<AxisEvent> = None;
        if self.position_mode {
            if self.ignore_cycles > 0 {
                self.ignore_cycles -= 1;
            } else if input.select_end_counter {
                self.current_speed_hz = 0;
                self.target_speed_hz = 0;
                self.position_mode = false;
                let mut output = self.pto.get_output();
                output.go_counter = false;
                output.frequency_value = 0;
                self.pto.set_output(output);
                changed = true;
                event = Some(completion_event(self.target_position, self.pto.position()));
            }
        }
        if !self.position_mode {
            if let Some(max_mm) = self.soft_limit_max_mm {
                let current_mm = position_to_mm(self.pto.position());
                let target = self.target_speed_hz;
                if (current_mm >= max_mm && target > 0) || (current_mm <= SOFT_LIMIT_MIN_MM
                    && target < 0) {
                    self.target_speed_hz = 0;
                    changed = true;
                    event = Some(AxisEvent::SoftLimitReached { position_mm: current_mm });
                }
            }
            let target = self.target_speed_hz;
            if self.current_speed_hz != target {
                let mut output = self.pto.get_output();
                output.disable_ramp = false;
                output.go_counter = false;
                output.frequency_value = target;
                self.pto.set_output(output);
                self.current_speed_hz = target;
                changed = true;
            }
        }
        if input.ramp_active {
            changed = true;
        }
        (changed, event)
    }

    /// Starts the homing sequence: the axis leaves position mode and jogs in
    /// the negative direction at the homing speed. An axis that is not
    /// homeable, or that is homing already, refuses.
    pub fn start_homing(&mut self) -> (event: Option<AxisEvent>)
        ensures
            *final(self) == old(self).homing_started(),
            old(self).wf() ==> final(self).wf(),
            event == old(self).start_homing_event(),
    {
        if !self.homeable {
            return Some(AxisEvent::HomingRejected);
        }
        if self.homing_phase != HomingPhase::Idle {
            return Some(AxisEvent::HomingAlreadyActive);
        }
        self.homing_phase = HomingPhase::SearchingSensor;
        self.position_mode = false;
        let homing_hz = mm_per_s_to_hz(HOMING_SPEED_MM_S);
        self.target_speed_hz = -homing_hz;
        None
    }

    /// One cycle of the homing sequence, given the level of the reference
    /// sensor. Returns whether the sequence moved on to its next phase, and
    /// the report of its end.
    pub fn advance_homing(&mut self, sensor_triggered: bool) -> (report: (bool, Option<AxisEvent>))
        ensures
            *final(self) == old(self).homing_advanced(sensor_triggered),
            old(self).wf() ==> final(self).wf(),
            report.0 == old(self).homing_advances(sensor_triggered),
            report.1 == old(self).homing_event(sensor_triggered),
    {
        match self.homing_phase {
            HomingPhase::Idle => (false, None),
            HomingPhase::SearchingSensor => {
                if sensor_triggered {
                    self.current_speed_hz = 0;
                    let mut output = self.pto.get_output();
                    output.disable_ramp = true;
                    output.go_counter = false;
                    output.frequency_value = 0;
                    self.pto.set_output(output);
                    let current_pos = self.pto.position();
                    let retract_pulses = distance_to_pulses(RETRACT_DISTANCE_MM);
                    self.homing_retract_target = saturate(
                        (current_pos as i128) + (retract_pulses as i128),
                    );
                    self.homing_phase = HomingPhase::Retracting;
                    self.target_speed_hz = mm_per_s_to_hz(HOMING_SPEED_MM_S);
                    (true, None)
                } else {
                    (false, None)
                }
            },
            HomingPhase::Retracting => {
                if self.pto.position() >= self.homing_retract_target {
                    self.current_speed_hz = 0;
                    self.target_speed_hz = 0;
                    let mut output = self.pto.get_output();
                    output.disable_ramp = true;
                    output.go_counter = false;
                    output.frequency_value = 0;
                    self.pto.set_output(output);
                    self.homing_phase = HomingPhase::SettingZero;
                    self.pto.reset_position();
                    (true, None)
                } else {
                    (false, None)
                }
            },
            HomingPhase::SettingZero => {
                let input = self.pto.get_input();
                if input.set_counter_done || input.counter_value == 0 {
                    self.pto.clear_set_counter();
                    self.homing_phase = HomingPhase::Idle;
                    (true, Some(AxisEvent::HomingComplete))
                } else {
                    (false, None)
                }
            },
        }
    }

    /// Ends a homing sequence in progress by stopping the axis. Returns
    /// whether there was one.
    pub fn cancel_homing(&mut self) -> (cancelled: bool)
        ensures
            *final(self) == old(self).homing_cancelled(),
            old(self).wf() ==> final(self).wf(),
            cancelled == (old(self).homing_phase != HomingPhase::Idle),
    {
        if self.homing_phase != HomingPhase::Idle {
            self.homing_phase = HomingPhase::Idle;
            self.stop();
            true
        } else {
            false
        }
    }
}

/// Stopping leaves the axis at rest whatever it was doing, and stopping an
/// axis twice leaves it as stopping it once.
pub proof fn lemma_stop_idempotent(axis: Axis)
    ensures
        axis.stopped().is_stopped(),
        axis.stopped().pto.output == axis.pto.output.immediate_stop(),
        axis.stopped().stopped() == axis.stopped(),
{
}

/// The conversion of positions to pulses keeps the order of positions.
pub proof fn lemma_mm_to_pulses_monotonic(a: Milli, b: Milli)
    requires
        a <= b,
    ensures
        spec_mm_to_pulses(a) <= spec_mm_to_pulses(b),
        spec_mm_to_pulses(0) == 0,
{
    assert(MILLI_PER_UNIT == 1000 && PULSES_PER_MM == 20);
    let sa = a * PULSES_PER_MM;
    let sb = b * PULSES_PER_MM;
    assert(sa == a * 20 && sb == b * 20 && 0 * PULSES_PER_MM == 0) by (nonlinear_arith)
        requires
            sa == a * PULSES_PER_MM,
            sb == b * PULSES_PER_MM,
            PULSES_PER_MM == 20,
    ;
    assert(trunc_div(sa, 1000) <= trunc_div(sb, 1000));
}

/// A travel of a bounded axis never leaves the soft limits: a position
/// beyond a limit gives the target that the limit itself gives, and the
/// command to the hardware carries that target.
pub proof fn lemma_move_within_soft_limits(axis: Axis, position_mm: Milli, speed_mm_s: Milli)
    requires
        axis.homing_phase == HomingPhase::Idle,
        axis.soft_limit_max_mm is Some,
        axis.soft_limit_max_mm->0 >= SOFT_LIMIT_MIN_MM,
    ensures
        ({
            let max = axis.soft_limit_max_mm->0;
            let moved = axis.moved_to(position_mm, speed_mm_s);
            &&& moved.position_mode
            &&& 0 <= moved.target_position <= spec_mm_to_pulses(max)
            &&& position_mm >= max ==> moved.target_position == spec_mm_to_pulses(max)
            &&& position_mm <= SOFT_LIMIT_MIN_MM ==> moved.target_position == 0
            &&& SOFT_LIMIT_MIN_MM <= position_mm <= max ==> moved.target_position
                == spec_mm_to_pulses(position_mm)
            &&& moved.pto.output.go_counter
            &&& !moved.pto.output.disable_ramp
            &&& moved.pto.output.target_counter_value == moved.target_position
            &&& moved.pto.output.frequency_value == spec_speed_magnitude_hz(speed_mm_s)
            &&& moved.pto.output.frequency_value >= 0
        }),
{
    let max = axis.soft_limit_max_mm->0;
    let clamped = axis.clamp_target(position_mm);
    lemma_mm_to_pulses_monotonic(SOFT_LIMIT_MIN_MM, clamped);
    lemma_mm_to_pulses_monotonic(clamped, max);
}

/// The two branches of the monitor exclude each other: an axis in position
/// mode gets the position-mode branch only, even in the cycle in which its
/// travel ends, and an axis in jog mode gets the jog-mode branch only.
pub proof fn lemma_monitor_branches_exclude(axis: Axis)
    ensures
        axis.position_mode ==> axis.monitored() == axis.after_travel_check(),
        !axis.position_mode ==> axis.monitored() == axis.after_jog_check(),
        axis.position_mode ==> axis.monitored().target_position == axis.target_position,
{
}

/// During the cycles after the start of a travel in which "target reached"
/// is not trusted, the monitor counts one cycle down and does nothing else
/// to the axis, whatever the hardware reports.
pub proof fn lemma_grace_period(axis: Axis)
    requires
        axis.position_mode,
        axis.ignore_cycles > 0,
    ensures
        axis.monitored() == (Axis { ignore_cycles: (axis.ignore_cycles - 1) as u8, ..axis }),
        axis.monitor_event() is None,
        axis.monitor_changed() == axis.pto.input.ramp_active,
{
}

/// Every travel that ends is checked against its target: the axis is at
/// rest in jog mode, the travel is withdrawn from the hardware, and the
/// report is a step loss exactly when the position that was reached is more
/// than the tolerance from the target. Nothing else is ever reported as the
/// end of a travel.
pub proof fn lemma_travel_end_checked(axis: Axis)
    ensures
        ({
            let after = axis.monitored();
            let actual = axis.position();
            let deviation = if actual >= axis.target_position {
                actual - axis.target_position
            } else {
                axis.target_position - actual
            };
            &&& axis.travel_completes() ==> {
                &&& !after.position_mode
                &&& after.current_speed_hz == 0
                &&& after.target_speed_hz == 0
                &&& !after.pto.output.go_counter
                &&& after.pto.output.frequency_value == 0
                &&& axis.monitor_changed()
                &&& deviation > STEP_LOSS_TOLERANCE ==> axis.monitor_event() == Some(
                    AxisEvent::StepLoss {
                        target: axis.target_position,
                        actual: actual as i32,
                        deviation: deviation as i64,
                        deviation_mm: (deviation * (MILLI_PER_UNIT as int / PULSES_PER_MM as int)) as i64,
                    },
                )
                &&& deviation <= STEP_LOSS_TOLERANCE ==> axis.monitor_event() == Some(
                    AxisEvent::TargetReached {
                        target: axis.target_position,
                        actual: actual as i32,
                        deviation: deviation as i64,
                    },
                )
            }
            &&& !axis.travel_completes() ==> axis.monitor_event() !is Some
                || axis.monitor_event()->0 is SoftLimitReached
            &&& !axis.travel_completes() ==> after.position_mode == axis.position_mode
        }),
{
    let actual = axis.position();
    let deviation = if actual >= axis.target_position {
        actual - axis.target_position
    } else {
        axis.target_position - actual
    };
    assert(MILLI_PER_UNIT == 1000 && PULSES_PER_MM == 20);
    assert((deviation * MILLI_PER_UNIT) / (PULSES_PER_MM as int) == deviation * 50) by {
        assert(deviation * MILLI_PER_UNIT == 20 * (deviation * 50)) by (nonlinear_arith)
            requires
                MILLI_PER_UNIT == 1000,
        ;
        lemma_div_multiples_vanish(deviation * 50, 20);
    }
}

/// A jog against a soft limit is held: the target speed becomes zero, the
/// hardware is told so where it was moving, and the hold is reported. An
/// axis that is held is no longer against its limit, so the report comes
/// once, in the cycle in which the axis reaches the limit.
pub proof fn lemma_soft_limit_holds_jog(axis: Axis)
    requires
        axis.at_soft_limit(),
    ensures
        ({
            let after = axis.monitored();
            &&& after.target_speed_hz == 0
            &&& after.current_speed_hz == 0
            &&& axis.current_speed_hz != 0 ==> after.pto.output == axis.pto.output.ramp_to(0)
            &&& axis.monitor_changed()
            &&& axis.monitor_event() == Some(
                AxisEvent::SoftLimitReached {
                    position_mm: spec_position_to_mm(axis.position() as i32) as i64,
                },
            )
            &&& after.pto.input == axis.pto.input ==> !after.at_soft_limit()
            &&& after.pto.input == axis.pto.input ==> after.monitor_event() is None
        }),
{
    lemma_position_to_mm_in_range(axis.position() as i32);
}

/// A position in pulses is, in thousandths of a mm, within `i64`.
pub proof fn lemma_position_to_mm_in_range(pulses: i32)
    ensures
        spec_position_to_mm(pulses) == pulses * ((MILLI_PER_UNIT as int) / (PULSES_PER_MM as int)),
        i64::MIN <= spec_position_to_mm(pulses) <= i64::MAX,
{
    lemma_hz_to_mm_per_s_exact(pulses);
}

/// An axis without soft limit is never held, and in jog mode the monitor
/// sends a changed target speed to the hardware through the ramp.
pub proof fn lemma_jog_follows_target(axis: Axis)
    requires
        !axis.position_mode,
        !axis.at_soft_limit(),
    ensures
        ({
            let after = axis.monitored();
            &&& after.target_speed_hz == axis.target_speed_hz
            &&& after.current_speed_hz == axis.target_speed_hz
            &&& axis.current_speed_hz != axis.target_speed_hz ==> after.pto.output
                == axis.pto.output.ramp_to(axis.target_speed_hz)
            &&& axis.current_speed_hz == axis.target_speed_hz ==> after == axis
            &&& axis.monitor_event() is None
            &&& axis.monitor_changed() == (axis.current_speed_hz != axis.target_speed_hz
                || axis.pto.input.ramp_active)
            &&& axis.soft_limit_max_mm is None ==> !axis.at_soft_limit()
        }),
{
}

/// The homing sequence goes through its phases in one order: each cycle
/// leaves the phase as it is or moves it on to the next one, and only a
/// sequence that is waiting for the counter to be set returns to idle.
pub proof fn lemma_homing_order(axis: Axis, sensor_triggered: bool)
    ensures
        ({
            let after = axis.homing_advanced(sensor_triggered);
            &&& !axis.homing_advances(sensor_triggered) ==> after == axis
            &&& axis.homing_advances(sensor_triggered) ==> after.homing_phase == (match axis.homing_phase {
                HomingPhase::Idle => HomingPhase::Idle,
                HomingPhase::SearchingSensor => HomingPhase::Retracting,
                HomingPhase::Retracting => HomingPhase::SettingZero,
                HomingPhase::SettingZero => HomingPhase::Idle,
            })
            &&& axis.homing_phase == HomingPhase::Idle ==> after == axis
            &&& axis.stopped().homing_phase == HomingPhase::Idle
            &&& axis.homing_cancelled().homing_phase == HomingPhase::Idle
        }),
{
}

/// No operation breaks what `wf` asks of an axis: homing and position mode
/// stay apart, whatever is asked of the axis and whatever the hardware
/// reports.
pub proof fn lemma_operations_keep_wf(
    axis: Axis,
    hz: i32,
    accel_mm_s2: Milli,
    position_mm: Milli,
    speed_mm_s: Milli,
    sensor_triggered: bool,
)
    requires
        axis.wf(),
    ensures
        axis.with_jog_speed(hz).wf(),
        axis.stopped().wf(),
        axis.with_acceleration(accel_mm_s2).wf(),
        axis.moved_to(position_mm, speed_mm_s).wf(),
        axis.monitored().wf(),
        axis.homing_started().wf(),
        axis.homing_advanced(sensor_triggered).wf(),
        axis.homing_cancelled().wf(),
{
}

/// The speeds and distances of homing in raw units: both moves run at 300
/// Hz, and the axis backs off the sensor by 40 pulses.
pub proof fn lemma_homing_constants()
    ensures
        spec_homing_hz() == 300,
        spec_distance_to_pulses(RETRACT_DISTANCE_MM) == 40,
{
    assert(HOMING_SPEED_MM_S * PULSES_PER_MM == 300_000 && RETRACT_DISTANCE_MM * PULSES_PER_MM
        == 40_000 && MILLI_PER_UNIT == 1000) by (nonlinear_arith)
        requires
            HOMING_SPEED_MM_S == 15_000,
            RETRACT_DISTANCE_MM == 2_000,
            PULSES_PER_MM == 20,
            MILLI_PER_UNIT == 1000,
    ;
}

} // verus!
