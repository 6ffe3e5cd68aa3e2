//! The control cycle.
//!
//! One cycle takes at most one command, then runs the safety monitor, the
//! homing sequences and the ramp and position monitor, in this order. A
//! cycle in which the safety monitor stops the axes does nothing else to
//! them. The live snapshot is published at most thirty times a second,
//! whatever the rate of the cycles.
use crate::bbm_automatik_v2::api::Mutation;
use crate::bbm_automatik_v2::homing::lemma_home_axes;
use crate::bbm_automatik_v2::safety::{
    lemma_alarm_stops_all_or_nothing, lemma_door_stops_all_or_nothing, lemma_first_new_alarm,
};
use crate::bbm_automatik_v2::{
    lemma_monitor_axes, lemma_stop_all_axes, BbmAutomatikV2, BbmAutomatikV2View, AXIS_COUNT,
};
use crate::notice::{
    elapsed, spec_elapsed, Notice, DEBUG_LOG_INTERVAL_NS, LIVE_VALUES_INTERVAL_NS,
};
use vstd::prelude::*;

verus! {

impl BbmAutomatikV2View {
    /// The machine after the safety monitor, the homing sequences and the
    /// ramp and position monitor of one cycle.
    pub open spec fn control_step(self) -> BbmAutomatikV2View {
        if self.alarm_fires() {
            self.check_driver_alarms().emit_state()
        } else if self.door_violation() {
            self.check_door_interlock().emit_state()
        } else {
            let homed = self.update_homing();
            let monitored = homed.update_hardware_monitor();
            if homed.monitor_changed(AXIS_COUNT as int) {
                monitored.emit_state()
            } else {
                monitored
            }
        }
    }

    /// A live snapshot is due at `now`: more than a thirtieth of a second
    /// has passed since the last one.
    pub open spec fn live_values_due(self, now: u64) -> bool {
        spec_elapsed(now, self.last_state_emit) > LIVE_VALUES_INTERVAL_NS
    }

    /// The machine after the live snapshot of a cycle, where one is due.
    pub open spec fn publish_live_values(self, now: u64) -> BbmAutomatikV2View {
        if self.live_values_due(now) {
            BbmAutomatikV2View { last_state_emit: now, ..self.emit_live_values() }
        } else {
            self
        }
    }

    /// An axis is moving.
    pub open spec fn any_axis_moving(self) -> bool {
        exists|i: int| 0 <= i < self.axes.len() && (#[trigger] self.axes[i]).current_speed_hz != 0
    }

    /// A report of the moving axes is due at `now`: an axis is moving, and
    /// more than a second has passed since the last report, if there was
    /// one.
    pub open spec fn debug_log_due(self, now: u64) -> bool {
        self.any_axis_moving() && match self.last_debug_log {
            Some(last) => spec_elapsed(now, last) > DEBUG_LOG_INTERVAL_NS,
            None => true,
        }
    }

    /// The machine with a report of each moving axis below `count`.
    pub open spec fn note_moving_axes(self, count: int) -> BbmAutomatikV2View
        decreases count,
    {
        if count <= 0 {
            self
        } else {
            let noted = self.note_moving_axes(count - 1);
            let axis = self.axes[count - 1];
            if axis.current_speed_hz != 0 {
                noted.note(
                    Notice::AxisMoving {
                        axis: (count - 1) as usize,
                        frequency_hz: axis.current_speed_hz,
                        position: axis.pto.input.counter_value,
                    },
                )
            } else {
                noted
            }
        }
    }

    /// The machine after the report of the moving axes, where one is due.
    pub open spec fn debug_log(self, now: u64) -> BbmAutomatikV2View {
        if self.debug_log_due(now) {
            (BbmAutomatikV2View { last_debug_log: Some(now), ..self }).note_moving_axes(
                AXIS_COUNT as int,
            )
        } else {
            self
        }
    }

    /// The machine after `act`.
    pub open spec fn act(self, command: Option<Mutation>, now: u64) -> BbmAutomatikV2View {
        let commanded = match command {
            Some(mutation) => self.api_mutate(mutation),
            None => self,
        };
        commanded.control_step().publish_live_values(now).debug_log(now)
    }
}

impl BbmAutomatikV2 {
    /// Whether an axis is moving.
    pub fn any_axis_moving(&self) -> (moving: bool)
        ensures
            moving == self@.any_axis_moving(),
    {
        let mut moving = false;
        let mut i: usize = 0;
        while i < AXIS_COUNT
            invariant
                i <= AXIS_COUNT,
                moving == (exists|j: int|
                    0 <= j < i && (#[trigger] self@.axes[j]).current_speed_hz != 0),
            decreases AXIS_COUNT - i,
        {
            let speed = self.axes[i].current_speed_hz;
            assert(speed == self@.axes[i as int].current_speed_hz);
            if speed != 0 {
                moving = true;
            }
            i += 1;
        }
        moving
    }

    /// The safety monitor, the homing sequences and the ramp and position
    /// monitor of one cycle. When the driver alarm check or the door
    /// interlock stops the axes, nothing else is done to them in this
    /// cycle.
    pub fn control_step(&mut self)
        ensures
            final(self)@ == old(self)@.control_step(),
            old(self)@.alarm_fires() || old(self)@.door_violation() ==> final(self)@.all_stopped(),
            !old(self)@.alarm_fires() && !old(self)@.door_violation() ==> forall|i: int|
                0 <= i < AXIS_COUNT ==> final(self)@.axes[i] == old(self)@.axes[i].homing_advanced(
                    old(self)@.is_axis_homed(i),
                ).monitored(),
            final(self)@.same_io(old(self)@),
            old(self)@.axes_wf() ==> final(self)@.axes_wf(),
    {
        proof {
            lemma_control_step(old(self)@);
        }
        let alarm_triggered = self.check_driver_alarms();
        if alarm_triggered {
            self.emit_state();
            return ;
        }
        let door_triggered = self.check_door_interlock();
        if door_triggered {
            self.emit_state();
            return ;
        }
        self.update_homing();
        let status_changed = self.update_hardware_monitor();
        if status_changed {
            self.emit_state();
        }
    }

    /// Publishes the live snapshot where more than a thirtieth of a second
    /// has passed since the last one.
    pub fn publish_live_values(&mut self, now: u64)
        ensures
            final(self)@ == old(self)@.publish_live_values(now),
            final(self)@.axes == old(self)@.axes,
    {
        if elapsed(now, self.last_state_emit) > LIVE_VALUES_INTERVAL_NS {
            self.emit_live_values();
            self.last_state_emit = now;
        }
    }

    /// Reports the axes that move, at most once a second.
    pub fn debug_log(&mut self, now: u64)
        ensures
            final(self)@ == old(self)@.debug_log(now),
            final(self)@.axes == old(self)@.axes,
    {
        if !self.any_axis_moving() {
            return ;
        }
        let should_log = match self.last_debug_log {
            Some(last) => elapsed(now, last) > DEBUG_LOG_INTERVAL_NS,
            None => true,
        };
        if should_log {
            self.last_debug_log = Some(now);
            let ghost start = self@;
            let mut i: usize = 0;
            while i < AXIS_COUNT
                invariant
                    i <= AXIS_COUNT,
                    self@ == start.note_moving_axes(i as int),
                    self@.axes == start.axes,
                decreases AXIS_COUNT - i,
            {
                let speed = self.axes[i].current_speed_hz;
                if speed != 0 {
                    let position = self.axes[i].pto.get_position();
                    self.note(Notice::AxisMoving { axis: i, frequency_hz: speed, position });
                }
                i += 1;
            }
        }
    }

    /// One control cycle at time `now`, in ns on a clock that does not go
    /// back. `command` is the command that was waiting, if there was one.
    pub fn act(&mut self, command: Option<Mutation>, now: u64)
        ensures
            final(self)@ == old(self)@.act(command, now),
            old(self)@.axes_wf() ==> final(self)@.axes_wf(),
            ({
                let commanded = match command {
                    Some(mutation) => old(self)@.api_mutate(mutation),
                    None => old(self)@,
                };
                commanded.alarm_fires() || commanded.door_violation() ==> final(self)@.all_stopped()
            }),
    {
        if let Some(mutation) = command {
            self.api_mutate(mutation);
        }
        self.control_step();
        self.publish_live_values(now);
        self.debug_log(now);
    }
}

/// What one control step does to the axes. When the safety monitor finds a
/// new driver alarm, or an open door while an axis is active, every axis is
/// at rest afterwards and has been touched by the stop alone. Otherwise each
/// axis is first advanced in its homing sequence by the level of its own
/// reference sensor and then monitored. Inputs and outputs are never
/// changed.
pub proof fn lemma_control_step(machine: BbmAutomatikV2View)
    requires
        machine.wf(),
    ensures
        ({
            let after = machine.control_step();
            &&& after.wf()
            &&& after.digital_inputs == machine.digital_inputs
            &&& after.output_states == machine.output_states
            &&& machine.alarm_fires() ==> forall|i: int|
                0 <= i < AXIS_COUNT ==> after.axes[i] == machine.latch_alarm(
                    machine.first_new_alarm(0)->0,
                ).axes[i].stopped()
            &&& !machine.alarm_fires() && machine.door_violation() ==> forall|i: int|
                0 <= i < AXIS_COUNT ==> after.axes[i] == machine.axes[i].stopped()
            &&& machine.alarm_fires() || machine.door_violation() ==> after.all_stopped()
            &&& !machine.alarm_fires() && !machine.door_violation() ==> forall|i: int|
                0 <= i < AXIS_COUNT ==> after.axes[i] == machine.axes[i].homing_advanced(
                    machine.is_axis_homed(i),
                ).monitored()
        }),
{
    if machine.alarm_fires() {
        lemma_first_new_alarm(machine, 0);
        let axis = machine.first_new_alarm(0)->0;
        lemma_alarm_stops_all_or_nothing(machine);
        lemma_stop_all_axes(
            machine.latch_alarm(axis).note(Notice::AlarmTriggered { axis: axis as usize }),
        );
    } else if machine.door_violation() {
        lemma_door_stops_all_or_nothing(machine);
        lemma_stop_all_axes(machine.note(Notice::DoorOpen));
    } else {
        lemma_home_axes(machine, AXIS_COUNT as int);
        lemma_monitor_axes(machine.update_homing(), AXIS_COUNT as int);
    }
}

} // verus!
