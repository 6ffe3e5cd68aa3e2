//! The cutting machine: two linear axes, eight digital inputs, eight
//! digital outputs.
//!
//! The axes have no reference sensor, no soft limits and no alarm input.
//! Every operation of the machine is specified by a function of the same
//! name on the machine's view.
pub mod act;
pub mod api;

use crate::axis::{spec_clamp_acceleration, spec_ramp_time_ms, Axis, AxisEvent, HomingPhase};
use crate::io::DigitalInput;
use crate::mechanics::{
    hz_to_mm_per_s, mm_per_s_to_hz, pulses_to_mm, spec_hz_to_mm_per_s, spec_mm_per_s_to_hz,
    spec_pulses_to_mm, Milli,
};
use crate::notice::{
    Notice, SdoWrite, PTO_CHANNEL_1_BASE, PTO_CHANNEL_2_BASE, RAMP_FALLING_SUBINDEX,
    RAMP_RISING_SUBINDEX,
};
use crate::schneidemaschine_v0::api::{
    DebugPtoEvent, LiveValuesEvent, SchneidemaschineV0Events, SchneidemaschineV0Namespace,
    StateEvent,
};
use vstd::prelude::*;

verus! {

/// Number of axes.
pub const AXIS_COUNT: usize = 2;

/// Number of digital inputs, and of digital outputs.
pub const DIGITAL_COUNT: usize = 8;

/// The machine: the mirrors of its hardware, the state of its axes, and
/// what it has to send out.
pub struct SchneidemaschineV0 {
    /// Events that wait to be published.
    pub namespace: SchneidemaschineV0Namespace,
    /// Time of the last live-value event, in ns.
    pub last_state_emit: u64,
    pub digital_inputs: [DigitalInput; 8],
    pub output_states: [bool; 8],
    pub axes: [Axis; 2],
    /// Whether a writer of the ramp registers is available.
    pub sdo_write_available: bool,
    /// Device index of the pulse-train device.
    pub pto_subdevice_index: usize,
    /// Register writes that wait to be sent.
    pub sdo_writes: Vec<SdoWrite>,
    /// Reports that wait to be logged.
    pub notices: Vec<Notice>,
    /// Time of the last report of the axes that move, in ns.
    pub last_debug_log: Option<u64>,
}

/// The machine as the contracts see it.
pub struct SchneidemaschineV0View {
    pub events: Seq<SchneidemaschineV0Events>,
    pub last_state_emit: u64,
    pub digital_inputs: Seq<DigitalInput>,
    pub output_states: Seq<bool>,
    pub axes: Seq<Axis>,
    pub sdo_write_available: bool,
    pub pto_subdevice_index: usize,
    pub sdo_writes: Seq<SdoWrite>,
    pub notices: Seq<Notice>,
    pub last_debug_log: Option<u64>,
}

impl View for SchneidemaschineV0 {
    type V = SchneidemaschineV0View;

    open spec fn view(&self) -> SchneidemaschineV0View {
        SchneidemaschineV0View {
            events: self.namespace@,
            last_state_emit: self.last_state_emit,
            digital_inputs: self.digital_inputs@,
            output_states: self.output_states@,
            axes: self.axes@,
            sdo_write_available: self.sdo_write_available,
            pto_subdevice_index: self.pto_subdevice_index,
            sdo_writes: self.sdo_writes@,
            notices: self.notices@,
            last_debug_log: self.last_debug_log,
        }
    }
}

/// The base register of the channel of axis `index`.
pub open spec fn spec_ramp_base(index: int) -> u16 {
    if index == 0 {
        PTO_CHANNEL_1_BASE
    } else {
        PTO_CHANNEL_2_BASE
    }
}

impl SchneidemaschineV0View {
    /// The lengths of the mirrors are those of the hardware.
    pub open spec fn wf(self) -> bool {
        &&& self.digital_inputs.len() == DIGITAL_COUNT
        &&& self.output_states.len() == DIGITAL_COUNT
        &&& self.axes.len() == AXIS_COUNT
    }

    /// Every axis meets its invariant.
    pub open spec fn axes_wf(self) -> bool {
        forall|i: int| 0 <= i < self.axes.len() ==> (#[trigger] self.axes[i]).wf()
    }

    /// The mirrors of the digital inputs and outputs are those of `other`.
    pub open spec fn same_io(self, other: SchneidemaschineV0View) -> bool {
        self.digital_inputs == other.digital_inputs && self.output_states == other.output_states
    }

    /// Every axis is at rest.
    pub open spec fn all_stopped(self) -> bool {
        forall|i: int| 0 <= i < self.axes.len() ==> (#[trigger] self.axes[i]).is_stopped()
    }

    /// The state snapshot.
    pub open spec fn state_event(self) -> StateEvent {
        StateEvent {
            output_states: [
                self.output_states[0],
                self.output_states[1],
                self.output_states[2],
                self.output_states[3],
                self.output_states[4],
                self.output_states[5],
                self.output_states[6],
                self.output_states[7],
            ],
            axis_speeds: [self.axes[0].current_speed_hz, self.axes[1].current_speed_hz],
            axis_target_speeds: [self.axes[0].target_speed_hz, self.axes[1].target_speed_hz],
            axis_accelerations: [self.axes[0].acceleration, self.axes[1].acceleration],
            axis_target_positions: [self.axes[0].target_position, self.axes[1].target_position],
            axis_position_mode: [self.axes[0].position_mode, self.axes[1].position_mode],
        }
    }

    /// The live snapshot; an input that could not be read shows as off.
    pub open spec fn live_values(self) -> LiveValuesEvent {
        LiveValuesEvent {
            input_states: [
                self.digital_inputs[0].spec_value_or(false),
                self.digital_inputs[1].spec_value_or(false),
                self.digital_inputs[2].spec_value_or(false),
                self.digital_inputs[3].spec_value_or(false),
                self.digital_inputs[4].spec_value_or(false),
                self.digital_inputs[5].spec_value_or(false),
                self.digital_inputs[6].spec_value_or(false),
                self.digital_inputs[7].spec_value_or(false),
            ],
            axis_positions: [
                self.axes[0].pto.input.counter_value,
                self.axes[1].pto.input.counter_value,
            ],
        }
    }

    /// Everything that the mirror of channel `index` holds; the default
    /// event for an index beyond the axes.
    pub open spec fn debug_pto(self, index: usize) -> DebugPtoEvent {
        if index >= AXIS_COUNT {
            DebugPtoEvent::spec_default()
        } else {
            let input = self.axes[index as int].pto.input;
            let output = self.axes[index as int].pto.output;
            DebugPtoEvent {
                channel: index as u8,
                frequency_setpoint_hz: output.frequency_value,
                frequency_setpoint_mm_s: spec_hz_to_mm_per_s(output.frequency_value) as i64,
                target_position_pulses: output.target_counter_value,
                target_position_mm: spec_pulses_to_mm(output.target_counter_value) as i64,
                disable_ramp: output.disable_ramp,
                set_counter_request: output.set_counter,
                set_counter_value: output.set_counter_value,
                actual_position_pulses: input.counter_value,
                actual_position_mm: spec_pulses_to_mm(input.counter_value) as i64,
                ramp_active: input.ramp_active,
                error: input.error,
                sync_error: input.sync_error,
                counter_overflow: input.counter_overflow,
                counter_underflow: input.counter_underflow,
                set_counter_done: input.set_counter_done,
                input_t: input.input_t,
                input_z: input.input_z,
                select_end_counter: input.select_end_counter,
            }
        }
    }

    /// The machine with the state snapshot added to the events.
    pub open spec fn emit_state(self) -> SchneidemaschineV0View {
        SchneidemaschineV0View {
            events: self.events.push(SchneidemaschineV0Events::State(self.state_event())),
            ..self
        }
    }

    /// The machine with the live snapshot added to the events.
    pub open spec fn emit_live_values(self) -> SchneidemaschineV0View {
        SchneidemaschineV0View {
            events: self.events.push(SchneidemaschineV0Events::LiveValues(self.live_values())),
            ..self
        }
    }

    /// The machine after `emit_debug_pto`.
    pub open spec fn emit_debug_pto(self, index: usize) -> SchneidemaschineV0View {
        SchneidemaschineV0View {
            events: self.events.push(SchneidemaschineV0Events::DebugPto(self.debug_pto(index))),
            ..self
        }
    }

    /// The machine with one more report.
    pub open spec fn note(self, notice: Notice) -> SchneidemaschineV0View {
        SchneidemaschineV0View { notices: self.notices.push(notice), ..self }
    }

    /// The machine with the report of an axis, where there is one.
    pub open spec fn note_axis(self, axis: int, event: Option<AxisEvent>) -> SchneidemaschineV0View {
        match event {
            Some(event) => self.note(Notice::Axis { axis: axis as usize, event }),
            None => self,
        }
    }

    /// The machine after `log_debug_all`.
    pub open spec fn log_debug_all(self) -> SchneidemaschineV0View {
        self.note(Notice::DebugLogRequested)
    }

    /// The machine with axis `index` replaced.
    pub open spec fn with_axis(self, index: int, axis: Axis) -> SchneidemaschineV0View {
        SchneidemaschineV0View { axes: self.axes.update(index, axis), ..self }
    }

    /// The machine after `set_output`.
    pub open spec fn set_output(self, index: usize, on: bool) -> SchneidemaschineV0View {
        if index < DIGITAL_COUNT {
            (SchneidemaschineV0View {
                output_states: self.output_states.update(index as int, on),
                ..self
            }).emit_state()
        } else {
            self
        }
    }

    /// The machine after `set_all_outputs`.
    pub open spec fn set_all_outputs(self, on: bool) -> SchneidemaschineV0View {
        (SchneidemaschineV0View {
            output_states: Seq::new(DIGITAL_COUNT as nat, |i: int| on),
            ..self
        }).emit_state()
    }

    /// The machine after `set_axis_speed`.
    pub open spec fn set_axis_speed(self, index: usize, speed: i32) -> SchneidemaschineV0View {
        if index < AXIS_COUNT {
            self.with_axis(index as int, self.axes[index as int].with_jog_speed(speed)).emit_state()
        } else {
            self
        }
    }

    /// The machine after `set_axis_speed_mm_s`.
    pub open spec fn set_axis_speed_mm_s(
        self,
        index: usize,
        mm_per_s: Milli,
    ) -> SchneidemaschineV0View {
        self.set_axis_speed(index, spec_mm_per_s_to_hz(mm_per_s) as i32)
    }

    /// The machine with axis `index` stopped, and the report of a homing
    /// sequence that this ended.
    pub open spec fn halt_axis(self, index: int) -> SchneidemaschineV0View {
        let axis = self.axes[index];
        self.with_axis(index, axis.stopped()).note_axis(
            index,
            if axis.homing_phase != HomingPhase::Idle {
                Some(AxisEvent::HomingCancelled)
            } else {
                None
            },
        )
    }

    /// The machine with the axes below `count` stopped, in the order of
    /// their indices.
    pub open spec fn halt_axes(self, count: int) -> SchneidemaschineV0View
        decreases count,
    {
        if count <= 0 {
            self
        } else {
            self.halt_axes(count - 1).halt_axis(count - 1)
        }
    }

    /// The machine after `stop_axis`.
    pub open spec fn stop_axis(self, index: usize) -> SchneidemaschineV0View {
        if index < AXIS_COUNT {
            self.halt_axis(index as int).emit_state()
        } else {
            self
        }
    }

    /// The machine after `stop_all_axes`.
    pub open spec fn stop_all_axes(self) -> SchneidemaschineV0View {
        self.halt_axes(AXIS_COUNT as int).emit_state()
    }

    /// The machine with the two ramp time constants of axis `index` added
    /// to the register writes; the falling one equals the rising one.
    pub open spec fn write_ramp(self, index: int, ramp_ms: u16) -> SchneidemaschineV0View {
        let base = spec_ramp_base(index);
        SchneidemaschineV0View {
            sdo_writes: self.sdo_writes.push(
                SdoWrite {
                    subdevice_index: self.pto_subdevice_index,
                    index: base,
                    subindex: RAMP_RISING_SUBINDEX,
                    value: ramp_ms,
                },
            ).push(
                SdoWrite {
                    subdevice_index: self.pto_subdevice_index,
                    index: base,
                    subindex: RAMP_FALLING_SUBINDEX,
                    value: ramp_ms,
                },
            ),
            ..self
        }
    }

    /// The machine after `set_axis_acceleration`.
    pub open spec fn set_axis_acceleration(
        self,
        index: usize,
        accel_mm_s2: Milli,
    ) -> SchneidemaschineV0View {
        if index < AXIS_COUNT {
            let stored = self.with_axis(
                index as int,
                self.axes[index as int].with_acceleration(accel_mm_s2),
            );
            let ramp_ms = spec_ramp_time_ms(spec_clamp_acceleration(accel_mm_s2)) as u16;
            if self.sdo_write_available {
                stored.write_ramp(index as int, ramp_ms).emit_state()
            } else {
                stored.note(Notice::RampWriterUnavailable { axis: index }).emit_state()
            }
        } else {
            self
        }
    }

    /// The machine after `move_to_position_mm`.
    pub open spec fn move_to_position_mm(
        self,
        index: usize,
        position_mm: Milli,
        speed_mm_s: Milli,
    ) -> SchneidemaschineV0View {
        if index < AXIS_COUNT {
            let axis = self.axes[index as int];
            let moved = self.with_axis(index as int, axis.moved_to(position_mm, speed_mm_s)).note_axis(
                index as int,
                axis.move_event(position_mm),
            );
            if axis.homing_phase != HomingPhase::Idle {
                moved
            } else {
                moved.emit_state()
            }
        } else {
            self
        }
    }

    /// The machine with axis `index` monitored for one cycle.
    pub open spec fn monitor_axis(self, index: int) -> SchneidemaschineV0View {
        let axis = self.axes[index];
        self.with_axis(index, axis.monitored()).note_axis(index, axis.monitor_event())
    }

    /// The machine with the axes below `count` monitored for one cycle, in
    /// the order of their indices.
    pub open spec fn monitor_axes(self, count: int) -> SchneidemaschineV0View
        decreases count,
    {
        if count <= 0 {
            self
        } else {
            self.monitor_axes(count - 1).monitor_axis(count - 1)
        }
    }

    /// Whether the monitor changes what the state snapshot shows of one of
    /// the axes below `count`.
    pub open spec fn monitor_changed(self, count: int) -> bool
        decreases count,
    {
        count > 0 && (self.monitor_changed(count - 1) || self.axes[count - 1].monitor_changed())
    }

    /// The machine after `update_hardware_monitor`.
    pub open spec fn update_hardware_monitor(self) -> SchneidemaschineV0View {
        self.monitor_axes(AXIS_COUNT as int)
    }

    /// The machine as it is created.
    pub open spec fn spec_new(
        sdo_write_available: bool,
        pto_subdevice_index: usize,
    ) -> SchneidemaschineV0View {
        (SchneidemaschineV0View {
            events: Seq::empty(),
            last_state_emit: 0,
            digital_inputs: Seq::new(DIGITAL_COUNT as nat, |i: int| DigitalInput { reading: None }),
            output_states: Seq::new(DIGITAL_COUNT as nat, |i: int| false),
            axes: Seq::new(AXIS_COUNT as nat, |i: int| Axis::spec_new(None, false)),
            sdo_write_available,
            pto_subdevice_index,
            sdo_writes: Seq::empty(),
            notices: Seq::empty(),
            last_debug_log: None,
        }).emit_state()
    }
}

impl SchneidemaschineV0 {
    /// Creates the machine: everything at rest, both axes without bounds
    /// and without reference sensor. The first state snapshot waits to be
    /// published.
    pub fn new(sdo_write_available: bool, pto_subdevice_index: usize) -> (machine:
        SchneidemaschineV0)
        ensures
            machine@ == SchneidemaschineV0View::spec_new(sdo_write_available, pto_subdevice_index),
            machine@.wf(),
            machine@.axes_wf(),
            machine@.all_stopped(),
    {
        let mut machine = SchneidemaschineV0 {
            namespace: SchneidemaschineV0Namespace::new(),
            last_state_emit: 0,
            digital_inputs: [DigitalInput::new();8],
            output_states: [false;8],
            axes: [Axis::new(None, false), Axis::new(None, false)],
            sdo_write_available,
            pto_subdevice_index,
            sdo_writes: Vec::new(),
            notices: Vec::new(),
            last_debug_log: None,
        };
        proof {
            let model = SchneidemaschineV0View::spec_new(sdo_write_available, pto_subdevice_index);
            assert(machine@.digital_inputs =~= model.digital_inputs);
            assert(machine@.output_states =~= model.output_states);
            assert(machine@.axes =~= model.axes);
        }
        machine.emit_state();
        machine
    }

    /// The state snapshot.
    pub fn get_state(&self) -> (event: StateEvent)
        ensures
            event == self@.state_event(),
    {
        let event = StateEvent {
            output_states: self.output_states,
            axis_speeds: [self.axes[0].current_speed_hz, self.axes[1].current_speed_hz],
            axis_target_speeds: [self.axes[0].target_speed_hz, self.axes[1].target_speed_hz],
            axis_accelerations: [self.axes[0].acceleration, self.axes[1].acceleration],
            axis_target_positions: [self.axes[0].target_position, self.axes[1].target_position],
            axis_position_mode: [self.axes[0].position_mode, self.axes[1].position_mode],
        };
        assert(event.output_states =~= self@.state_event().output_states);
        event
    }

    /// The live snapshot.
    pub fn get_live_values(&self) -> (event: LiveValuesEvent)
        ensures
            event == self@.live_values(),
    {
        LiveValuesEvent {
            input_states: [
                self.digital_inputs[0].value_or(false),
                self.digital_inputs[1].value_or(false),
                self.digital_inputs[2].value_or(false),
                self.digital_inputs[3].value_or(false),
                self.digital_inputs[4].value_or(false),
                self.digital_inputs[5].value_or(false),
                self.digital_inputs[6].value_or(false),
                self.digital_inputs[7].value_or(false),
            ],
            axis_positions: [self.axes[0].pto.get_position(), self.axes[1].pto.get_position()],
        }
    }

    /// Everything that the mirror of a channel holds; the default event for
    /// an index beyond the axes.
    pub fn get_debug_pto(&self, index: usize) -> (event: DebugPtoEvent)
        ensures
            event == self@.debug_pto(index),
    {
        if index >= self.axes.len() {
            return DebugPtoEvent::default();
        }
        let input = self.axes[index].pto.get_input();
        let output = self.axes[index].pto.get_output();
        DebugPtoEvent {
            channel: index as u8,
            frequency_setpoint_hz: output.frequency_value,
            frequency_setpoint_mm_s: hz_to_mm_per_s(output.frequency_value),
            target_position_pulses: output.target_counter_value,
            target_position_mm: pulses_to_mm(output.target_counter_value),
            disable_ramp: output.disable_ramp,
            set_counter_request: output.set_counter,
            set_counter_value: output.set_counter_value,
            actual_position_pulses: input.counter_value,
            actual_position_mm: pulses_to_mm(input.counter_value),
            ramp_active: input.ramp_active,
            error: input.error,
            sync_error: input.sync_error,
            counter_overflow: input.counter_overflow,
            counter_underflow: input.counter_underflow,
            set_counter_done: input.set_counter_done,
            input_t: input.input_t,
            input_z: input.input_z,
            select_end_counter: input.select_end_counter,
        }
    }

    /// Adds the state snapshot to the events to publish.
    pub fn emit_state(&mut self)
        ensures
            final(self)@ == old(self)@.emit_state(),
    {
        let event = self.get_state();
        self.namespace.emit(SchneidemaschineV0Events::State(event));
    }

    /// Adds the live snapshot to the events to publish.
    pub fn emit_live_values(&mut self)
        ensures
            final(self)@ == old(self)@.emit_live_values(),
    {
        let event = self.get_live_values();
        self.namespace.emit(SchneidemaschineV0Events::LiveValues(event));
    }

    /// Adds what the mirror of a channel holds to the events to publish.
    pub fn emit_debug_pto(&mut self, index: usize)
        ensures
            final(self)@ == old(self)@.emit_debug_pto(index),
    {
        let event = self.get_debug_pto(index);
        self.namespace.emit(SchneidemaschineV0Events::DebugPto(event));
    }

    /// Asks for a full report of inputs, outputs and channels to be logged.
    pub fn log_debug_all(&mut self)
        ensures
            final(self)@ == old(self)@.log_debug_all(),
    {
        self.note(Notice::DebugLogRequested);
    }

    /// Hands out the reports that wait, oldest first, and leaves none.
    pub fn take_notices(&mut self) -> (notices: Vec<Notice>)
        ensures
            notices@ == old(self)@.notices,
            final(self)@ == (SchneidemaschineV0View { notices: Seq::empty(), ..old(self)@ }),
    {
        let mut notices: Vec<Notice> = Vec::new();
        std::mem::swap(&mut notices, &mut self.notices);
        notices
    }

    /// Hands out the register writes that wait, oldest first, and leaves
    /// none.
    pub fn take_sdo_writes(&mut self) -> (writes: Vec<SdoWrite>)
        ensures
            writes@ == old(self)@.sdo_writes,
            final(self)@ == (SchneidemaschineV0View { sdo_writes: Seq::empty(), ..old(self)@ }),
    {
        let mut writes: Vec<SdoWrite> = Vec::new();
        std::mem::swap(&mut writes, &mut self.sdo_writes);
        writes
    }

    /// Hands out the events that wait to be published, oldest first, and
    /// leaves none.
    pub fn take_events(&mut self) -> (events: Vec<SchneidemaschineV0Events>)
        ensures
            events@ == old(self)@.events,
            final(self)@ == (SchneidemaschineV0View { events: Seq::empty(), ..old(self)@ }),
    {
        self.namespace.drain()
    }

    /// Adds a report to those that wait to be logged.
    pub(crate) fn note(&mut self, notice: Notice)
        ensures
            final(self)@ == old(self)@.note(notice),
    {
        self.notices.push(notice);
    }

    /// Adds the report of an axis, where there is one.
    pub(crate) fn note_axis(&mut self, axis: usize, event: Option<AxisEvent>)
        ensures
            final(self)@ == old(self)@.note_axis(axis as int, event),
    {
        if let Some(event) = event {
            self.notices.push(Notice::Axis { axis, event });
        }
    }

    /// Sets one digital output. An index beyond the outputs is ignored.
    pub fn set_output(&mut self, index: usize, on: bool)
        ensures
            final(self)@ == old(self)@.set_output(index, on),
    {
        if index < self.output_states.len() {
            self.output_states[index] = on;
            self.emit_state();
        }
    }

    /// Sets all digital outputs.
    pub fn set_all_outputs(&mut self, on: bool)
        ensures
            final(self)@ == old(self)@.set_all_outputs(on),
    {
        self.output_states = [on;8];
        assert(self.output_states@ =~= Seq::new(DIGITAL_COUNT as nat, |i: int| on));
        self.emit_state();
    }

    /// Sets the jog speed of an axis in Hz. The hardware is not touched: the
    /// monitor writes the speed in its next cycle. An index beyond the axes
    /// is ignored.
    pub fn set_axis_speed(&mut self, index: usize, speed: i32)
        ensures
            final(self)@ == old(self)@.set_axis_speed(index, speed),
            old(self)@.axes_wf() ==> final(self)@.axes_wf(),
    {
        if index < self.axes.len() {
            self.axes[index].set_jog_speed(speed);
            self.emit_state();
        }
    }

    /// Sets the jog speed of an axis in mm/s.
    pub fn set_axis_speed_mm_s(&mut self, index: usize, mm_per_s: Milli)
        ensures
            final(self)@ == old(self)@.set_axis_speed_mm_s(index, mm_per_s),
            old(self)@.axes_wf() ==> final(self)@.axes_wf(),
    {
        let hz = mm_per_s_to_hz(mm_per_s);
        self.set_axis_speed(index, hz);
    }

    /// Stops one axis and reports the homing sequence that this ended.
    fn halt_axis(&mut self, index: usize)
        requires
            index < AXIS_COUNT,
        ensures
            final(self)@ == old(self)@.halt_axis(index as int),
            final(self)@.axes[index as int].is_stopped(),
            old(self)@.axes_wf() ==> final(self)@.axes_wf(),
    {
        let homing_cancelled = self.axes[index].stop();
        if homing_cancelled {
            self.note_axis(index, Some(AxisEvent::HomingCancelled));
        }
    }

    /// Stops one axis at once. An index beyond the axes is ignored.
    pub fn stop_axis(&mut self, index: usize)
        ensures
            final(self)@ == old(self)@.stop_axis(index),
            index < AXIS_COUNT ==> final(self)@.axes[index as int].is_stopped(),
            old(self)@.axes_wf() ==> final(self)@.axes_wf(),
    {
        if index < self.axes.len() {
            self.halt_axis(index);
            self.emit_state();
        }
    }

    /// Stops all axes at once.
    pub fn stop_all_axes(&mut self)
        ensures
            final(self)@ == old(self)@.stop_all_axes(),
            final(self)@.all_stopped(),
            forall|i: int|
                0 <= i < AXIS_COUNT ==> final(self)@.axes[i] == old(self)@.axes[i].stopped(),
            final(self)@.same_io(old(self)@),
            final(self)@.sdo_writes == old(self)@.sdo_writes,
            old(self)@.axes_wf() ==> final(self)@.axes_wf(),
    {
        proof {
            lemma_stop_all_axes(old(self)@);
        }
        let mut i: usize = 0;
        while i < AXIS_COUNT
            invariant
                i <= AXIS_COUNT,
                self@ == old(self)@.halt_axes(i as int),
                forall|j: int| 0 <= j < i ==> (#[trigger] self@.axes[j]).is_stopped(),
                old(self)@.axes_wf() ==> self@.axes_wf(),
            decreases AXIS_COUNT - i,
        {
            self.halt_axis(i);
            i += 1;
        }
        self.emit_state();
    }

    /// Sets the acceleration of an axis in mm/s², limited to the accepted
    /// range, and sends the ramp time constants that belong to it to the
    /// axis's ramp registers. Without a ramp writer the acceleration is
    /// recorded only, and that is reported. An index beyond the axes is
    /// ignored.
    pub fn set_axis_acceleration(&mut self, index: usize, accel_mm_s2: Milli)
        ensures
            final(self)@ == old(self)@.set_axis_acceleration(index, accel_mm_s2),
            old(self)@.axes_wf() ==> final(self)@.axes_wf(),
    {
        if index < self.axes.len() {
            let rising_ms = self.axes[index].set_acceleration(accel_mm_s2);
            let falling_ms = rising_ms;
            if self.sdo_write_available {
                let subdevice_index = self.pto_subdevice_index;
                let pto_base = if index == 0 {
                    PTO_CHANNEL_1_BASE
                } else {
                    PTO_CHANNEL_2_BASE
                };
                self.sdo_writes.push(
                    SdoWrite {
                        subdevice_index,
                        index: pto_base,
                        subindex: RAMP_RISING_SUBINDEX,
                        value: rising_ms,
                    },
                );
                self.sdo_writes.push(
                    SdoWrite {
                        subdevice_index,
                        index: pto_base,
                        subindex: RAMP_FALLING_SUBINDEX,
                        value: falling_ms,
                    },
                );
            } else {
                self.note(Notice::RampWriterUnavailable { axis: index });
            }
            self.emit_state();
        }
    }

    /// Starts a travel of an axis to a position in mm at the magnitude of a
    /// speed in mm/s. An index beyond the axes is ignored.
    pub fn move_to_position_mm(&mut self, index: usize, position_mm: Milli, speed_mm_s: Milli)
        ensures
            final(self)@ == old(self)@.move_to_position_mm(index, position_mm, speed_mm_s),
            old(self)@.axes_wf() ==> final(self)@.axes_wf(),
    {
        if index < self.axes.len() {
            let refused = self.axes[index].is_homing();
            let event = self.axes[index].move_to_position(position_mm, speed_mm_s);
            self.note_axis(index, event);
            if !refused {
                self.emit_state();
            }
        }
    }

    /// One cycle of the ramp and position monitor over all axes, in the
    /// order of their indices. Returns whether the state snapshot has
    /// changed.
    pub fn update_hardware_monitor(&mut self) -> (changed: bool)
        ensures
            final(self)@ == old(self)@.update_hardware_monitor(),
            changed == old(self)@.monitor_changed(AXIS_COUNT as int),
            changed == (exists|i: int|
                0 <= i < AXIS_COUNT && old(self)@.axes[i].monitor_changed()),
            forall|i: int|
                0 <= i < AXIS_COUNT ==> final(self)@.axes[i] == old(self)@.axes[i].monitored(),
            final(self)@.same_io(old(self)@),
            final(self)@.events == old(self)@.events,
            final(self)@.sdo_writes == old(self)@.sdo_writes,
            old(self)@.axes_wf() ==> final(self)@.axes_wf(),
    {
        proof {
            lemma_monitor_axes(old(self)@, AXIS_COUNT as int);
        }
        let mut changed = false;
        let mut i: usize = 0;
        while i < AXIS_COUNT
            invariant
                i <= AXIS_COUNT,
                self@ == old(self)@.monitor_axes(i as int),
                changed == old(self)@.monitor_changed(i as int),
                forall|j: int| i <= j < AXIS_COUNT ==> self@.axes[j] == old(self)@.axes[j],
                old(self)@.axes_wf() ==> self@.axes_wf(),
            decreases AXIS_COUNT - i,
        {
            let report = self.axes[i].monitor();
            self.note_axis(i, report.1);
            if report.0 {
                changed = true;
            }
            i += 1;
        }
        changed
    }
}

/// What stopping the axes below `count` changes: those axes become their
/// stopped selves, a report is added for each that was homing, and nothing
/// else changes.
pub proof fn lemma_halt_axes(machine: SchneidemaschineV0View, count: int)
    requires
        machine.wf(),
        0 <= count <= AXIS_COUNT,
    ensures
        ({
            let halted = machine.halt_axes(count);
            &&& halted == (SchneidemaschineV0View {
                axes: halted.axes,
                notices: halted.notices,
                ..machine
            })
            &&& halted.axes.len() == AXIS_COUNT
            &&& forall|i: int| 0 <= i < count ==> halted.axes[i] == machine.axes[i].stopped()
            &&& forall|i: int| count <= i < AXIS_COUNT ==> halted.axes[i] == machine.axes[i]
            &&& (forall|i: int|
                0 <= i < count ==> machine.axes[i].homing_phase == HomingPhase::Idle)
                ==> halted.notices == machine.notices
        }),
    decreases count,
{
    if count > 0 {
        lemma_halt_axes(machine, count - 1);
    }
}

/// After `stop_all_axes` every axis is at rest, whatever the machine was
/// doing: each axis is its stopped self, with the immediate-stop command in
/// its channel. Inputs, outputs and register writes are as they were, and
/// the state snapshot of the stopped machine is the one new event.
pub proof fn lemma_stop_all_axes(machine: SchneidemaschineV0View)
    requires
        machine.wf(),
    ensures
        ({
            let stopped = machine.stop_all_axes();
            &&& stopped.wf()
            &&& stopped.all_stopped()
            &&& forall|i: int|
                0 <= i < AXIS_COUNT ==> stopped.axes[i] == machine.axes[i].stopped()
            &&& stopped.events == machine.events.push(
                SchneidemaschineV0Events::State(stopped.state_event()),
            )
            &&& stopped == (SchneidemaschineV0View {
                axes: stopped.axes,
                notices: stopped.notices,
                events: stopped.events,
                ..machine
            })
        }),
{
    lemma_halt_axes(machine, AXIS_COUNT as int);
}

/// Stopping all axes twice leaves the machine as stopping them once: the
/// second stop changes no axis and reports nothing, it only publishes the
/// same state once more.
pub proof fn lemma_stop_all_axes_idempotent(machine: SchneidemaschineV0View)
    requires
        machine.wf(),
    ensures
        machine.stop_all_axes().stop_all_axes() == machine.stop_all_axes().emit_state(),
        machine.stop_all_axes().stop_all_axes().axes == machine.stop_all_axes().axes,
        machine.stop_all_axes().stop_all_axes().notices == machine.stop_all_axes().notices,
        machine.stop_all_axes().stop_all_axes().state_event()
            == machine.stop_all_axes().state_event(),
{
    let once = machine.stop_all_axes();
    lemma_stop_all_axes(machine);
    lemma_halt_axes(once, AXIS_COUNT as int);
    let halted = once.halt_axes(AXIS_COUNT as int);
    assert(halted.axes =~= once.axes);
    assert(halted == once);
}

/// What one cycle of the monitor changes: each axis becomes its monitored
/// self, whatever the other axes do; reports are added and none is taken
/// away; nothing else changes. The state has changed exactly when it has
/// for one of the axes.
pub proof fn lemma_monitor_axes(machine: SchneidemaschineV0View, count: int)
    requires
        machine.wf(),
        0 <= count <= AXIS_COUNT,
    ensures
        ({
            let monitored = machine.monitor_axes(count);
            &&& monitored == (SchneidemaschineV0View {
                axes: monitored.axes,
                notices: monitored.notices,
                ..machine
            })
            &&& monitored.axes.len() == AXIS_COUNT
            &&& forall|i: int| 0 <= i < count ==> monitored.axes[i] == machine.axes[i].monitored()
            &&& forall|i: int| count <= i < AXIS_COUNT ==> monitored.axes[i] == machine.axes[i]
            &&& monitored.notices.len() >= machine.notices.len()
            &&& (forall|i: int| 0 <= i < count ==> machine.axes[i].monitor_event() is None)
                ==> monitored.notices == machine.notices
            &&& machine.monitor_changed(count) <==> exists|i: int|
                0 <= i < count && machine.axes[i].monitor_changed()
        }),
    decreases count,
{
    if count > 0 {
        lemma_monitor_axes(machine, count - 1);
        let before = machine.monitor_axes(count - 1);
        assert(before.axes[count - 1] == machine.axes[count - 1]);
        if machine.monitor_changed(count) {
            if machine.axes[count - 1].monitor_changed() {
                assert(0 <= count - 1 < count && machine.axes[count - 1].monitor_changed());
            } else {
                let i = choose|i: int| 0 <= i < count - 1 && machine.axes[i].monitor_changed();
                assert(0 <= i < count && machine.axes[i].monitor_changed());
            }
        }
    }
}

} // verus!
