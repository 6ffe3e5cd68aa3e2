//! What the machine sends out and what it takes in: the two snapshots, the
//! queue of events to publish, and the commands.
use crate::bbm_automatik_v2::{BbmAutomatikV2, BbmAutomatikV2View, OUTPUT_RUETTELMOTOR};
use crate::mechanics::Milli;
use vstd::prelude::*;

verus! {

/// The state snapshot: what can be commanded, as it stands.
#[derive(Clone, Copy, Debug, PartialEq, Eq)]
pub struct StateEvent {
    pub output_states: [bool; 8],
    pub axis_speeds: [i32; 4],
    pub axis_target_speeds: [i32; 4],
    /// In mm/s².
    pub axis_accelerations: [Milli; 4],
    /// In pulses.
    pub axis_target_positions: [i32; 4],
    pub axis_position_mode: [bool; 4],
    pub axis_homing_active: [bool; 4],
    /// In mm; `None` for an axis without bounds.
    pub axis_soft_limit_max: [Option<Milli>; 4],
    pub axis_alarm_active: [bool; 4],
}

/// The live snapshot: what the hardware reports.
#[derive(Clone, Copy, Debug, PartialEq, Eq)]
pub struct LiveValuesEvent {
    pub input_states: [bool; 8],
    /// In pulses.
    pub axis_positions: [i32; 4],
}

/// The events that the machine publishes.
#[derive(Clone, Copy, Debug, PartialEq, Eq)]
pub enum BbmAutomatikV2Events {
    State(StateEvent),
    LiveValues(LiveValuesEvent),
}

/// The commands that the machine takes, one for each operation.
#[derive(Clone, Copy, Debug, PartialEq, Eq)]
pub enum Mutation {
    /// Set a single digital output.
    SetOutput { index: usize, on: bool },
    /// Set all digital outputs.
    SetAllOutputs { on: bool },
    /// Set the jog speed of an axis in Hz.
    SetAxisSpeed { index: usize, speed: i32 },
    /// Set the jog speed of a linear axis in mm/s.
    SetAxisSpeedMmS { index: usize, speed_mm_s: Milli },
    /// Set the jog speed of a rotating axis in rpm.
    SetAxisSpeedRpm { index: usize, rpm: Milli },
    /// Set the acceleration of an axis in mm/s².
    SetAxisAcceleration { index: usize, accel_mm_s2: Milli },
    /// Move an axis to a position in mm at a speed in mm/s.
    MoveToPosition { index: usize, position_mm: Milli, speed_mm_s: Milli },
    /// Stop one axis.
    StopAxis { index: usize },
    /// Stop all axes.
    StopAllAxes,
    /// Switch the vibration motor.
    SetRuettelmotor { on: bool },
    /// Set the three lamps of the signal light.
    SetAmpel { rot: bool, gelb: bool, gruen: bool },
    /// Start the homing sequence of an axis.
    StartHoming { index: usize },
    /// Cancel the homing sequence of an axis.
    CancelHoming { index: usize },
    /// Clear the alarm latches.
    ResetAlarms,
}

/// The queue of events that wait to be published, oldest first.
#[derive(Debug)]
pub struct BbmAutomatikV2Namespace {
    pub events: Vec<BbmAutomatikV2Events>,
}

impl View for BbmAutomatikV2Namespace {
    type V = Seq<BbmAutomatikV2Events>;

    open spec fn view(&self) -> Seq<BbmAutomatikV2Events> {
        self.events@
    }
}

impl BbmAutomatikV2Namespace {
    /// An empty queue.
    pub fn new() -> (namespace: BbmAutomatikV2Namespace)
        ensures
            namespace@ == Seq::<BbmAutomatikV2Events>::empty(),
    {
        BbmAutomatikV2Namespace { events: Vec::new() }
    }

    /// Appends an event to the queue.
    pub fn emit(&mut self, event: BbmAutomatikV2Events)
        ensures
            final(self)@ == old(self)@.push(event),
    {
        self.events.push(event);
    }

    /// Hands out the events that wait, oldest first, and leaves the queue
    /// empty.
    pub fn drain(&mut self) -> (events: Vec<BbmAutomatikV2Events>)
        ensures
            events@ == old(self)@,
            final(self)@ == Seq::<BbmAutomatikV2Events>::empty(),
    {
        let mut events: Vec<BbmAutomatikV2Events> = Vec::new();
        std::mem::swap(&mut events, &mut self.events);
        events
    }
}

impl BbmAutomatikV2View {
    /// The machine after `api_mutate`: each command is one operation.
    pub open spec fn api_mutate(self, mutation: Mutation) -> BbmAutomatikV2View {
        match mutation {
            Mutation::SetOutput { index, on } => self.set_output(index, on),
            Mutation::SetAllOutputs { on } => self.set_all_outputs(on),
            Mutation::SetAxisSpeed { index, speed } => self.set_axis_speed(index, speed),
            Mutation::SetAxisSpeedMmS { index, speed_mm_s } => self.set_axis_speed_mm_s(
                index,
                speed_mm_s,
            ),
            Mutation::SetAxisSpeedRpm { index, rpm } => self.set_axis_speed_rpm(index, rpm),
            Mutation::SetAxisAcceleration { index, accel_mm_s2 } => self.set_axis_acceleration(
                index,
                accel_mm_s2,
            ),
            Mutation::MoveToPosition { index, position_mm, speed_mm_s } => self.move_to_position_mm(
                index,
                position_mm,
                speed_mm_s,
            ),
            Mutation::StopAxis { index } => self.stop_axis(index),
            Mutation::StopAllAxes => self.stop_all_axes(),
            Mutation::SetRuettelmotor { on } => self.set_output(OUTPUT_RUETTELMOTOR, on),
            Mutation::SetAmpel { rot, gelb, gruen } => self.set_ampel(rot, gelb, gruen),
            Mutation::StartHoming { index } => self.start_homing(index),
            Mutation::CancelHoming { index } => self.cancel_homing(index),
            Mutation::ResetAlarms => self.reset_alarms(),
        }
    }
}

impl BbmAutomatikV2 {
    /// Carries out one command.
    pub fn api_mutate(&mut self, mutation: Mutation)
        ensures
            final(self)@ == old(self)@.api_mutate(mutation),
            old(self)@.axes_wf() ==> final(self)@.axes_wf(),
    {
        match mutation {
            Mutation::SetOutput { index, on } => self.set_output(index, on),
            Mutation::SetAllOutputs { on } => self.set_all_outputs(on),
            Mutation::SetAxisSpeed { index, speed } => self.set_axis_speed(index, speed),
            Mutation::SetAxisSpeedMmS { index, speed_mm_s } => self.set_axis_speed_mm_s(
                index,
                speed_mm_s,
            ),
            Mutation::SetAxisSpeedRpm { index, rpm } => self.set_axis_speed_rpm(index, rpm),
            Mutation::SetAxisAcceleration { index, accel_mm_s2 } => self.set_axis_acceleration(
                index,
                accel_mm_s2,
            ),
            Mutation::MoveToPosition { index, position_mm, speed_mm_s } => self.move_to_position_mm(
                index,
                position_mm,
                speed_mm_s,
            ),
            Mutation::StopAxis { index } => self.stop_axis(index),
            Mutation::StopAllAxes => self.stop_all_axes(),
            Mutation::SetRuettelmotor { on } => self.set_ruettelmotor(on),
            Mutation::SetAmpel { rot, gelb, gruen } => self.set_ampel(rot, gelb, gruen),
            Mutation::StartHoming { index } => self.start_homing(index),
            Mutation::CancelHoming { index } => self.cancel_homing(index),
            Mutation::ResetAlarms => self.reset_alarms(),
        }
    }
}

} // verus!
