//! What the machine sends out and what it takes in: the snapshots, the
//! queue of events to publish, and the commands.
use crate::mechanics::Milli;
use crate::schneidemaschine_v0::{SchneidemaschineV0, SchneidemaschineV0View};
use vstd::prelude::*;

verus! {

/// The state snapshot: what can be commanded, as it stands.
#[derive(Clone, Copy, Debug, PartialEq, Eq)]
pub struct StateEvent {
    pub output_states: [bool; 8],
    pub axis_speeds: [i32; 2],
    pub axis_target_speeds: [i32; 2],
    /// In mm/s².
    pub axis_accelerations: [Milli; 2],
    /// In pulses.
    pub axis_target_positions: [i32; 2],
    pub axis_position_mode: [bool; 2],
}

/// The live snapshot: what the hardware reports.
#[derive(Clone, Copy, Debug, PartialEq, Eq)]
pub struct LiveValuesEvent {
    pub input_states: [bool; 8],
    /// The raw position counters.
    pub axis_positions: [u32; 2],
}

/// Everything that the mirror of one pulse-train channel holds.
#[derive(Clone, Copy, Debug, PartialEq, Eq)]
pub struct DebugPtoEvent {
    pub channel: u8,
    pub frequency_setpoint_hz: i32,
    pub frequency_setpoint_mm_s: Milli,
    pub target_position_pulses: u32,
    pub target_position_mm: Milli,
    pub disable_ramp: bool,
    pub set_counter_request: bool,
    pub set_counter_value: u32,
    pub actual_position_pulses: u32,
    pub actual_position_mm: Milli,
    pub ramp_active: bool,
    pub error: bool,
    pub sync_error: bool,
    pub counter_overflow: bool,
    pub counter_underflow: bool,
    pub set_counter_done: bool,
    pub input_t: bool,
    pub input_z: bool,
    pub select_end_counter: bool,
}

impl DebugPtoEvent {
    /// The event with every number zero and every flag off.
    pub open spec fn spec_default() -> DebugPtoEvent {
        DebugPtoEvent {
            channel: 0,
            frequency_setpoint_hz: 0,
            frequency_setpoint_mm_s: 0,
            target_position_pulses: 0,
            target_position_mm: 0,
            disable_ramp: false,
            set_counter_request: false,
            set_counter_value: 0,
            actual_position_pulses: 0,
            actual_position_mm: 0,
            ramp_active: false,
            error: false,
            sync_error: false,
            counter_overflow: false,
            counter_underflow: false,
            set_counter_done: false,
            input_t: false,
            input_z: false,
            select_end_counter: false,
        }
    }
}

impl Default for DebugPtoEvent {
    fn default() -> (event: DebugPtoEvent)
        ensures
            event == DebugPtoEvent::spec_default(),
    {
        DebugPtoEvent {
            channel: 0,
            frequency_setpoint_hz: 0,
            frequency_setpoint_mm_s: 0,
            target_position_pulses: 0,
            target_position_mm: 0,
            disable_ramp: false,
            set_counter_request: false,
            set_counter_value: 0,
            actual_position_pulses: 0,
            actual_position_mm: 0,
            ramp_active: false,
            error: false,
            sync_error: false,
            counter_overflow: false,
            counter_underflow: false,
            set_counter_done: false,
            input_t: false,
            input_z: false,
            select_end_counter: false,
        }
    }
}

/// The events that the machine publishes.
#[derive(Clone, Copy, Debug, PartialEq, Eq)]
pub enum SchneidemaschineV0Events {
    State(StateEvent),
    LiveValues(LiveValuesEvent),
    DebugPto(DebugPtoEvent),
}

/// The commands that the machine takes, one for each operation.
#[derive(Clone, Copy, Debug, PartialEq, Eq)]
pub enum Mutation {
    /// Set a single digital output.
    SetOutput { index: usize, on: bool },
    /// Set all digital outputs.
    SetAllOutputs { on: bool },
    /// Set the jog speed of an axis in Hz.
    SetAxisSpeed { index: usize, speed: i32 },
    /// Set the jog speed of an axis in mm/s.
    SetAxisSpeedMmS { index: usize, speed_mm_s: Milli },
    /// Set the acceleration of an axis in mm/s².
    SetAxisAcceleration { index: usize, accel_mm_s2: Milli },
    /// Move an axis to a position in mm at a speed in mm/s.
    MoveToPosition { index: usize, position_mm: Milli, speed_mm_s: Milli },
    /// Stop one axis.
    StopAxis { index: usize },
    /// Stop all axes.
    StopAllAxes,
    /// Publish everything that the mirror of a channel holds.
    DebugPto { index: usize },
    /// Ask for a full report of inputs, outputs and channels.
    DebugLogAll,
}

/// The queue of events that wait to be published, oldest first.
#[derive(Debug)]
pub struct SchneidemaschineV0Namespace {
    pub events: Vec<SchneidemaschineV0Events>,
}

impl View for SchneidemaschineV0Namespace {
    type V = Seq<SchneidemaschineV0Events>;

    open spec fn view(&self) -> Seq<SchneidemaschineV0Events> {
        self.events@
    }
}

impl SchneidemaschineV0Namespace {
    /// An empty queue.
    pub fn new() -> (namespace: SchneidemaschineV0Namespace)
        ensures
            namespace@ == Seq::<SchneidemaschineV0Events>::empty(),
    {
        SchneidemaschineV0Namespace { events: Vec::new() }
    }

    /// Appends an event to the queue.
    pub fn emit(&mut self, event: SchneidemaschineV0Events)
        ensures
            final(self)@ == old(self)@.push(event),
    {
        self.events.push(event);
    }

    /// Hands out the events that wait, oldest first, and leaves the queue
    /// empty.
    pub fn drain(&mut self) -> (events: Vec<SchneidemaschineV0Events>)
        ensures
            events@ == old(self)@,
            final(self)@ == Seq::<SchneidemaschineV0Events>::empty(),
    {
        let mut events: Vec<SchneidemaschineV0Events> = Vec::new();
        std::mem::swap(&mut events, &mut self.events);
        events
    }
}

impl SchneidemaschineV0View {
    /// The machine after `api_mutate`: each command is one operation.
    pub open spec fn api_mutate(self, mutation: Mutation) -> SchneidemaschineV0View {
        match mutation {
            Mutation::SetOutput { index, on } => self.set_output(index, on),
            Mutation::SetAllOutputs { on } => self.set_all_outputs(on),
            Mutation::SetAxisSpeed { index, speed } => self.set_axis_speed(index, speed),
            Mutation::SetAxisSpeedMmS { index, speed_mm_s } => self.set_axis_speed_mm_s(
                index,
                speed_mm_s,
            ),
            Mutation::SetAxisAcceleration { index, accel_mm_s2 } => self.set_axis_acceleration(
                index,
                accel_mm_s2,
            ),
            Mutation::MoveToPosition { index, position_mm, speed_mm_s } => self.move_to_position_mm(
                index,
                position_mm,
                speed_mm_s,
            ),
            Mutation::StopAxis { index } => self.stop_axis(index),
            Mutation::StopAllAxes => self.stop_all_axes(),
            Mutation::DebugPto { index } => self.emit_debug_pto(index),
            Mutation::DebugLogAll => self.log_debug_all(),
        }
    }
}

impl SchneidemaschineV0 {
    /// Carries out one command.
    pub fn api_mutate(&mut self, mutation: Mutation)
        ensures
            final(self)@ == old(self)@.api_mutate(mutation),
            old(self)@.axes_wf() ==> final(self)@.axes_wf(),
    {
        match mutation {
            Mutation::SetOutput { index, on } => self.set_output(index, on),
            Mutation::SetAllOutputs { on } => self.set_all_outputs(on),
            Mutation::SetAxisSpeed { index, speed } => self.set_axis_speed(index, speed),
            Mutation::SetAxisSpeedMmS { index, speed_mm_s } => self.set_axis_speed_mm_s(
                index,
                speed_mm_s,
            ),
            Mutation::SetAxisAcceleration { index, accel_mm_s2 } => self.set_axis_acceleration(
                index,
                accel_mm_s2,
            ),
            Mutation::MoveToPosition { index, position_mm, speed_mm_s } => self.move_to_position_mm(
                index,
                position_mm,
                speed_mm_s,
            ),
            Mutation::StopAxis { index } => self.stop_axis(index),
            Mutation::StopAllAxes => self.stop_all_axes(),
            Mutation::DebugPto { index } => self.emit_debug_pto(index),
            Mutation::DebugLogAll => self.log_debug_all(),
        }
    }
}

} // verus!
