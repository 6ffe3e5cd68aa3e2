//! The control cycle.
//!
//! One cycle takes at most one command, then runs the ramp and position
//! monitor. The live snapshot is published at most thirty times a second,
//! whatever the rate of the cycles.
use crate::notice::{
    elapsed, spec_elapsed, Notice, DEBUG_LOG_INTERVAL_NS, LIVE_VALUES_INTERVAL_NS,
};
use crate::schneidemaschine_v0::api::Mutation;
use crate::schneidemaschine_v0::{SchneidemaschineV0, SchneidemaschineV0View, AXIS_COUNT};
use vstd::prelude::*;

verus! {

impl SchneidemaschineV0View {
    /// The machine after the ramp and position monitor of one cycle.
    pub open spec fn control_step(self) -> SchneidemaschineV0View {
        let monitored = self.update_hardware_monitor();
        if self.monitor_changed(AXIS_COUNT as int) {
            monitored.emit_state()
        } else {
            monitored
        }
    }

    /// A live snapshot is due at `now`: more than a thirtieth of a second
    /// has passed since the last one.
    pub open spec fn live_values_due(self, now: u64) -> bool {
        spec_elapsed(now, self.last_state_emit) > LIVE_VALUES_INTERVAL_NS
    }

    /// The machine after the live snapshot of a cycle, where one is due.
    pub open spec fn publish_live_values(self, now: u64) -> SchneidemaschineV0View {
        if self.live_values_due(now) {
            SchneidemaschineV0View { last_state_emit: now, ..self.emit_live_values() }
        } else {
            self
        }
    }

    /// An axis is moving.
    pub open spec fn any_axis_moving(self) -> bool {
        exists|i: int| 0 <= i < self.axes.len() && (#[trigger] self.axes[i]).current_speed_hz != 0
    }

    /// A report of the moving axes is due at `now`: an axis is moving, and
    /// more than a second has passed since the last report, if there was
    /// one.
    pub open spec fn debug_log_due(self, now: u64) -> bool {
        self.any_axis_moving() && match self.last_debug_log {
            Some(last) => spec_elapsed(now, last) > DEBUG_LOG_INTERVAL_NS,
            None => true,
        }
    }

    /// The machine with a report of each moving axis below `count`.
    pub open spec fn note_moving_axes(self, count: int) -> SchneidemaschineV0View
        decreases count,
    {
        if count <= 0 {
            self
        } else {
            let noted = self.note_moving_axes(count - 1);
            let axis = self.axes[count - 1];
            if axis.current_speed_hz != 0 {
                noted.note(
                    Notice::AxisMoving {
                        axis: (count - 1) as usize,
                        frequency_hz: axis.current_speed_hz,
                        position: axis.pto.input.counter_value,
                    },
                )
            } else {
                noted
            }
        }
    }

    /// The machine after the report of the moving axes, where one is due.
    pub open spec fn debug_log(self, now: u64) -> SchneidemaschineV0View {
        if self.debug_log_due(now) {
            (SchneidemaschineV0View { last_debug_log: Some(now), ..self }).note_moving_axes(
                AXIS_COUNT as int,
            )
        } else {
            self
        }
    }

    /// The machine after `act`.
    pub open spec fn act(self, command: Option<Mutation>, now: u64) -> SchneidemaschineV0View {
        let commanded = match command {
            Some(mutation) => self.api_mutate(mutation),
            None => self,
        };
        commanded.control_step().publish_live_values(now).debug_log(now)
    }
}

impl SchneidemaschineV0 {
    /// Whether an axis is moving.
    pub fn any_axis_moving(&self) -> (moving: bool)
        ensures
            moving == self@.any_axis_moving(),
    {
        let mut moving = false;
        let mut i: usize = 0;
        while i < AXIS_COUNT
            invariant
                i <= AXIS_COUNT,
                moving == (exists|j: int|
                    0 <= j < i && (#[trigger] self@.axes[j]).current_speed_hz != 0),
            decreases AXIS_COUNT - i,
        {
            let speed = self.axes[i].current_speed_hz;
            assert(speed == self@.axes[i as int].current_speed_hz);
            if speed != 0 {
                moving = true;
            }
            i += 1;
        }
        moving
    }

    /// The ramp and position monitor of one cycle; a changed state is
    /// published.
    pub fn control_step(&mut self)
        ensures
            final(self)@ == old(self)@.control_step(),
            forall|i: int|
                0 <= i < AXIS_COUNT ==> final(self)@.axes[i] == old(self)@.axes[i].monitored(),
            final(self)@.same_io(old(self)@),
            old(self)@.axes_wf() ==> final(self)@.axes_wf(),
    {
        let status_changed = self.update_hardware_monitor();
        if status_changed {
            self.emit_state();
        }
    }

    /// Publishes the live snapshot where more than a thirtieth of a second
    /// has passed since the last one.
    pub fn publish_live_values(&mut self, now: u64)
        ensures
            final(self)@ == old(self)@.publish_live_values(now),
            final(self)@.axes == old(self)@.axes,
    {
        if elapsed(now, self.last_state_emit) > LIVE_VALUES_INTERVAL_NS {
            self.emit_live_values();
            self.last_state_emit = now;
        }
    }

    /// Reports the axes that move, at most once a second.
    pub fn debug_log(&mut self, now: u64)
        ensures
            final(self)@ == old(self)@.debug_log(now),
            final(self)@.axes == old(self)@.axes,
    {
        if !self.any_axis_moving() {
            return ;
        }
        let should_log = match self.last_debug_log {
            Some(last) => elapsed(now, last) > DEBUG_LOG_INTERVAL_NS,
            None => true,
        };
        if should_log {
            self.last_debug_log = Some(now);
            let ghost start = self@;
            let mut i: usize = 0;
            while i < AXIS_COUNT
                invariant
                    i <= AXIS_COUNT,
                    self@ == start.note_moving_axes(i as int),
                    self@.axes == start.axes,
                decreases AXIS_COUNT - i,
            {
                let speed = self.axes[i].current_speed_hz;
                if speed != 0 {
                    let position = self.axes[i].pto.get_position();
                    self.note(Notice::AxisMoving { axis: i, frequency_hz: speed, position });
                }
                i += 1;
            }
        }
    }

    /// One control cycle at time `now`, in ns on a clock that does not go
    /// back. `command` is the command that was waiting, if there was one.
    pub fn act(&mut self, command: Option<Mutation>, now: u64)
        ensures
            final(self)@ == old(self)@.act(command, now),
            old(self)@.axes_wf() ==> final(self)@.axes_wf(),
    {
        if let Some(mutation) = command {
            self.api_mutate(mutation);
        }
        self.control_step();
        self.publish_live_values(now);
        self.debug_log(now);
    }
}

} // verus!
