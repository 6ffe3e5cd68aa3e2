//! The safety monitor: driver alarms and the door interlock.
//!
//! Both checks run first in every control cycle. Each of them ends in one
//! stop of all axes or leaves the machine as it is; none stops a part of the
//! axes.
//!
//! Door policy of this machine: an open door stops all axes as soon as one
//! of them is active. A command that starts a move while the door is open
//! is therefore undone in the cycle in which it arrives, before its command
//! reaches the bus. A door sensor that cannot be read counts as an open
//! door.
use crate::axis::Axis;
use crate::bbm_automatik_v2::{
    lemma_halt_axes, lemma_stop_all_axes, BbmAutomatikV2, BbmAutomatikV2View, AXIS_COUNT,
    INPUT_ALARM_MT, INPUT_TUER, LINEAR_AXIS_COUNT,
};
use crate::notice::Notice;
use vstd::prelude::*;

verus! {

impl BbmAutomatikV2View {
    /// The door is closed. One that cannot be read counts as open.
    pub open spec fn are_doors_closed(self) -> bool {
        self.digital_inputs[INPUT_TUER as int].spec_value_or(false)
    }

    /// The door is open while an axis is active.
    pub open spec fn door_violation(self) -> bool {
        !self.are_doors_closed() && !self.all_stopped()
    }

    /// The machine after `check_door_interlock`.
    pub open spec fn check_door_interlock(self) -> BbmAutomatikV2View {
        if self.door_violation() {
            self.note(Notice::DoorOpen).stop_all_axes()
        } else {
            self
        }
    }

    /// The alarm input of axis `axis` is active. The input is active-low:
    /// it reads true while there is no alarm. An input that cannot be read
    /// counts as no alarm, and an axis without alarm input has none.
    pub open spec fn alarm_input_active(self, axis: int) -> bool {
        0 <= axis < LINEAR_AXIS_COUNT && !self.digital_inputs[INPUT_ALARM_MT + axis].spec_value_or(
            true,
        )
    }

    /// The alarm input of linear axis `axis` is active and not latched yet.
    pub open spec fn new_alarm(self, axis: int) -> bool {
        self.alarm_input_active(axis) && !self.axes[axis].alarm_active
    }

    /// The first linear axis from `from` on with a new alarm.
    pub open spec fn first_new_alarm(self, from: int) -> Option<int>
        decreases LINEAR_AXIS_COUNT - from,
    {
        if from >= LINEAR_AXIS_COUNT {
            None
        } else if self.new_alarm(from) {
            Some(from)
        } else {
            self.first_new_alarm(from + 1)
        }
    }

    /// The first linear axis from `from` on whose alarm input is active.
    pub open spec fn first_active_alarm_input(self, from: int) -> Option<int>
        decreases LINEAR_AXIS_COUNT - from,
    {
        if from >= LINEAR_AXIS_COUNT {
            None
        } else if self.alarm_input_active(from) {
            Some(from)
        } else {
            self.first_active_alarm_input(from + 1)
        }
    }

    /// A new alarm fires in this cycle.
    pub open spec fn alarm_fires(self) -> bool {
        self.first_new_alarm(0) is Some
    }

    /// The machine with the alarm of axis `axis` latched.
    pub open spec fn latch_alarm(self, axis: int) -> BbmAutomatikV2View {
        self.with_axis(axis, Axis { alarm_active: true, ..self.axes[axis] })
    }

    /// The machine after `check_driver_alarms`: the first new alarm is
    /// latched and all axes are stopped, once; the axes behind it are left
    /// to the next cycle.
    pub open spec fn check_driver_alarms(self) -> BbmAutomatikV2View {
        match self.first_new_alarm(0) {
            Some(axis) => self.latch_alarm(axis).note(
                Notice::AlarmTriggered { axis: axis as usize },
            ).stop_all_axes(),
            None => self,
        }
    }

    /// An alarm is latched.
    pub open spec fn any_alarm_latched(self) -> bool {
        exists|i: int| 0 <= i < self.axes.len() && (#[trigger] self.axes[i]).alarm_active
    }

    /// The machine with no alarm latched.
    pub open spec fn clear_alarms(self) -> BbmAutomatikV2View {
        BbmAutomatikV2View {
            axes: Seq::new(
                self.axes.len(),
                |i: int| Axis { alarm_active: false, ..self.axes[i] },
            ),
            ..self
        }
    }

    /// The machine after `reset_alarms`.
    pub open spec fn reset_alarms(self) -> BbmAutomatikV2View {
        if !self.any_alarm_latched() {
            self
        } else {
            match self.first_active_alarm_input(0) {
                Some(axis) => self.note(
                    Notice::AlarmResetRefused { axis: axis as usize },
                ).emit_state(),
                None => self.clear_alarms().note(Notice::AlarmsReset).emit_state(),
            }
        }
    }
}

impl BbmAutomatikV2 {
    /// Whether the door is closed. A sensor that cannot be read counts as
    /// an open door.
    pub fn are_doors_closed(&self) -> (closed: bool)
        ensures
            closed == self@.are_doors_closed(),
    {
        self.digital_inputs[INPUT_TUER].value_or(false)
    }

    /// Whether every axis is at rest.
    pub fn all_axes_stopped(&self) -> (stopped: bool)
        ensures
            stopped == self@.all_stopped(),
    {
        let mut stopped = true;
        let mut i: usize = 0;
        while i < AXIS_COUNT
            invariant
                i <= AXIS_COUNT,
                stopped == (forall|j: int| 0 <= j < i ==> (#[trigger] self@.axes[j]).is_stopped()),
            decreases AXIS_COUNT - i,
        {
            let at_rest = self.axes[i].is_at_rest();
            assert(at_rest == self@.axes[i as int].is_stopped());
            if !at_rest {
                stopped = false;
            }
            i += 1;
        }
        stopped
    }

    /// Whether an alarm is latched.
    pub fn any_alarm_latched(&self) -> (latched: bool)
        ensures
            latched == self@.any_alarm_latched(),
    {
        let mut latched = false;
        let mut i: usize = 0;
        while i < AXIS_COUNT
            invariant
                i <= AXIS_COUNT,
                latched == (exists|j: int| 0 <= j < i && (#[trigger] self@.axes[j]).alarm_active),
            decreases AXIS_COUNT - i,
        {
            let active = self.axes[i].alarm_active;
            assert(active == self@.axes[i as int].alarm_active);
            if active {
                latched = true;
            }
            i += 1;
        }
        latched
    }

    /// Whether the alarm input of an axis is active.
    pub fn alarm_input_active(&self, axis: usize) -> (active: bool)
        ensures
            active == self@.alarm_input_active(axis as int),
    {
        if axis < LINEAR_AXIS_COUNT {
            let raw = self.digital_inputs[INPUT_ALARM_MT + axis].value_or(true);
            !raw
        } else {
            false
        }
    }

    /// The door interlock. Where the door is open while an axis is active,
    /// all axes are stopped and the function returns true.
    pub fn check_door_interlock(&mut self) -> (triggered: bool)
        ensures
            final(self)@ == old(self)@.check_door_interlock(),
            triggered == old(self)@.door_violation(),
            triggered ==> final(self)@.all_stopped(),
            triggered ==> forall|i: int|
                0 <= i < AXIS_COUNT ==> final(self)@.axes[i] == old(self)@.axes[i].stopped(),
            !triggered ==> final(self)@ == old(self)@,
            final(self)@.same_io(old(self)@),
            old(self)@.axes_wf() ==> final(self)@.axes_wf(),
    {
        if !self.are_doors_closed() && !self.all_axes_stopped() {
            self.note(Notice::DoorOpen);
            self.stop_all_axes();
            true
        } else {
            false
        }
    }

    /// The driver alarm check. The alarm inputs of the linear axes are read
    /// in the order of the axes. The first one that is active and not
    /// latched yet is latched, all axes are stopped, and the function
    /// returns true without looking at the axes behind it.
    pub fn check_driver_alarms(&mut self) -> (fired: bool)
        ensures
            final(self)@ == old(self)@.check_driver_alarms(),
            fired == old(self)@.alarm_fires(),
            fired == (exists|axis: int|
                0 <= axis < LINEAR_AXIS_COUNT && old(self)@.new_alarm(axis)),
            fired ==> final(self)@.all_stopped(),
            fired ==> {
                let axis = old(self)@.first_new_alarm(0)->0;
                &&& 0 <= axis < LINEAR_AXIS_COUNT
                &&& old(self)@.new_alarm(axis)
                &&& forall|j: int| 0 <= j < axis ==> !old(self)@.new_alarm(j)
                &&& final(self)@.axes[axis].alarm_active
                &&& forall|i: int|
                    0 <= i < AXIS_COUNT && i != axis ==> final(self)@.axes[i].alarm_active
                        == old(self)@.axes[i].alarm_active
            },
            !fired ==> final(self)@ == old(self)@,
            final(self)@.same_io(old(self)@),
            old(self)@.axes_wf() ==> final(self)@.axes_wf(),
    {
        proof {
            lemma_alarm_stops_all_or_nothing(old(self)@);
            lemma_first_new_alarm(old(self)@, 0);
        }
        let mut axis: usize = 0;
        while axis < LINEAR_AXIS_COUNT
            invariant
                axis <= LINEAR_AXIS_COUNT,
                self@ == old(self)@,
                old(self)@.first_new_alarm(0) == old(self)@.first_new_alarm(axis as int),
                forall|j: int| 0 <= j < axis ==> !old(self)@.new_alarm(j),
            decreases LINEAR_AXIS_COUNT - axis,
        {
            let is_alarm = self.alarm_input_active(axis);
            if is_alarm && !self.axes[axis].alarm_active {
                assert(old(self)@.new_alarm(axis as int));
                self.axes[axis].alarm_active = true;
                self.note(Notice::AlarmTriggered { axis });
                self.stop_all_axes();
                return true;
            }
            axis += 1;
        }
        false
    }

    /// Clears the alarm latches. With no alarm latched nothing happens.
    /// While an alarm input is still active the reset is refused and the
    /// first such axis is reported.
    pub fn reset_alarms(&mut self)
        ensures
            final(self)@ == old(self)@.reset_alarms(),
            final(self)@.same_io(old(self)@),
            old(self)@.any_alarm_latched() && (forall|j: int|
                0 <= j < LINEAR_AXIS_COUNT ==> !old(self)@.alarm_input_active(j))
                ==> !final(self)@.any_alarm_latched(),
            !old(self)@.any_alarm_latched() || (exists|j: int|
                0 <= j < LINEAR_AXIS_COUNT && old(self)@.alarm_input_active(j)) ==> final(self)@.axes
                == old(self)@.axes,
            old(self)@.axes_wf() ==> final(self)@.axes_wf(),
    {
        proof {
            lemma_reset_alarms(old(self)@);
        }
        if !self.any_alarm_latched() {
            return ;
        }
        let mut axis: usize = 0;
        while axis < LINEAR_AXIS_COUNT
            invariant
                axis <= LINEAR_AXIS_COUNT,
                self@ == old(self)@,
                old(self)@.any_alarm_latched(),
                old(self)@.first_active_alarm_input(0) == old(self)@.first_active_alarm_input(
                    axis as int,
                ),
            decreases LINEAR_AXIS_COUNT - axis,
        {
            if self.alarm_input_active(axis) {
                self.note(Notice::AlarmResetRefused { axis });
                self.emit_state();
                return ;
            }
            axis += 1;
        }
        let mut i: usize = 0;
        while i < AXIS_COUNT
            invariant
                i <= AXIS_COUNT,
                self@ == (BbmAutomatikV2View { axes: self@.axes, ..old(self)@ }),
                self@.axes.len() == AXIS_COUNT,
                old(self)@.any_alarm_latched(),
                old(self)@.first_active_alarm_input(0) is None,
                old(self)@.axes_wf() ==> self@.axes_wf(),
                forall|j: int|
                    0 <= j < i ==> self@.axes[j] == (Axis {
                        alarm_active: false,
                        ..old(self)@.axes[j]
                    }),
                forall|j: int| i <= j < AXIS_COUNT ==> self@.axes[j] == old(self)@.axes[j],
            decreases AXIS_COUNT - i,
        {
            self.axes[i].alarm_active = false;
            i += 1;
        }
        assert(self@.axes =~= old(self)@.clear_alarms().axes);
        self.note(Notice::AlarmsReset);
        self.emit_state();
    }
}

/// The alarm check finds the first linear axis, in the order of the axes,
/// whose alarm input is active and not latched.
pub proof fn lemma_first_new_alarm(machine: BbmAutomatikV2View, from: int)
    requires
        0 <= from <= LINEAR_AXIS_COUNT,
    ensures
        match machine.first_new_alarm(from) {
            Some(axis) => {
                &&& from <= axis < LINEAR_AXIS_COUNT
                &&& machine.new_alarm(axis)
                &&& forall|j: int| from <= j < axis ==> !machine.new_alarm(j)
            },
            None => forall|j: int| from <= j < LINEAR_AXIS_COUNT ==> !machine.new_alarm(j),
        },
    decreases LINEAR_AXIS_COUNT - from,
{
    if from < LINEAR_AXIS_COUNT && !machine.new_alarm(from) {
        lemma_first_new_alarm(machine, from + 1);
    }
}

/// The alarm reset finds the first linear axis, in the order of the axes,
/// whose alarm input is active.
pub proof fn lemma_first_active_alarm_input(machine: BbmAutomatikV2View, from: int)
    requires
        0 <= from <= LINEAR_AXIS_COUNT,
    ensures
        match machine.first_active_alarm_input(from) {
            Some(axis) => {
                &&& from <= axis < LINEAR_AXIS_COUNT
                &&& machine.alarm_input_active(axis)
                &&& forall|j: int| from <= j < axis ==> !machine.alarm_input_active(j)
            },
            None => forall|j: int|
                from <= j < LINEAR_AXIS_COUNT ==> !machine.alarm_input_active(j),
        },
    decreases LINEAR_AXIS_COUNT - from,
{
    if from < LINEAR_AXIS_COUNT && !machine.alarm_input_active(from) {
        lemma_first_active_alarm_input(machine, from + 1);
    }
}

/// A driver alarm stops the whole machine or nothing. Where an alarm input
/// is active that is not latched, the check latches the first such axis,
/// reports it, and leaves every axis at rest; the latches of the other axes
/// are as they were, and the alarm that was latched is not new in the next
/// check. Where there is none, the check leaves the machine as it is.
pub proof fn lemma_alarm_stops_all_or_nothing(machine: BbmAutomatikV2View)
    requires
        machine.wf(),
    ensures
        ({
            let checked = machine.check_driver_alarms();
            &&& !machine.alarm_fires() ==> checked == machine
            &&& machine.alarm_fires() ==> {
                let axis = machine.first_new_alarm(0)->0;
                &&& 0 <= axis < LINEAR_AXIS_COUNT
                &&& machine.new_alarm(axis)
                &&& checked.all_stopped()
                &&& checked.axes[axis].alarm_active
                &&& !checked.new_alarm(axis)
                &&& forall|i: int|
                    0 <= i < AXIS_COUNT && i != axis ==> checked.axes[i].alarm_active
                        == machine.axes[i].alarm_active
                &&& checked.notices.len() > machine.notices.len()
                &&& checked.notices[machine.notices.len() as int] == (Notice::AlarmTriggered {
                    axis: axis as usize,
                })
                &&& checked.digital_inputs == machine.digital_inputs
            }
        }),
{
    lemma_first_new_alarm(machine, 0);
    if machine.alarm_fires() {
        let axis = machine.first_new_alarm(0)->0;
        let latched = machine.latch_alarm(axis).note(
            Notice::AlarmTriggered { axis: axis as usize },
        );
        lemma_stop_all_axes(latched);
        lemma_halt_axes(latched, AXIS_COUNT as int);
        lemma_halt_notices_grow(latched, AXIS_COUNT as int);
        let at = machine.notices.len() as int;
        assert(latched.halt_axes(AXIS_COUNT as int).notices[at] == latched.notices[at]);
    }
}

/// Stopping axes adds reports and takes none away.
pub proof fn lemma_halt_notices_grow(machine: BbmAutomatikV2View, count: int)
    requires
        machine.wf(),
        0 <= count <= AXIS_COUNT,
    ensures
        machine.halt_axes(count).notices.len() >= machine.notices.len(),
        forall|k: int|
            0 <= k < machine.notices.len() ==> machine.halt_axes(count).notices[k]
                == machine.notices[k],
    decreases count,
{
    if count > 0 {
        lemma_halt_notices_grow(machine, count - 1);
    }
}

/// The alarm latches are cleared only when no alarm input is active. With
/// an alarm latched and an alarm input still active, the reset is refused:
/// no axis changes and the refusal is reported. With an alarm latched and no
/// alarm input active, no latch remains and nothing else changes in any
/// axis. With no alarm latched the reset does nothing at all.
pub proof fn lemma_reset_alarms(machine: BbmAutomatikV2View)
    requires
        machine.wf(),
    ensures
        ({
            let after = machine.reset_alarms();
            let input_active = exists|j: int|
                0 <= j < LINEAR_AXIS_COUNT && machine.alarm_input_active(j);
            &&& !machine.any_alarm_latched() ==> after == machine
            &&& machine.any_alarm_latched() && input_active ==> {
                &&& after.axes == machine.axes
                &&& after.notices == machine.notices.push(
                    Notice::AlarmResetRefused {
                        axis: machine.first_active_alarm_input(0)->0 as usize,
                    },
                )
            }
            &&& machine.any_alarm_latched() && !input_active ==> {
                &&& !after.any_alarm_latched()
                &&& forall|i: int|
                    0 <= i < AXIS_COUNT ==> after.axes[i] == (Axis {
                        alarm_active: false,
                        ..machine.axes[i]
                    })
                &&& after.notices == machine.notices.push(Notice::AlarmsReset)
            }
        }),
{
    lemma_first_active_alarm_input(machine, 0);
}

/// The door interlock stops the whole machine or nothing: with the door
/// open and an axis active every axis is left at rest, otherwise the
/// machine is left as it is.
pub proof fn lemma_door_stops_all_or_nothing(machine: BbmAutomatikV2View)
    requires
        machine.wf(),
    ensures
        machine.door_violation() ==> machine.check_door_interlock().all_stopped(),
        !machine.door_violation() ==> machine.check_door_interlock() == machine,
        !machine.check_door_interlock().door_violation(),
{
    lemma_stop_all_axes(machine.note(Notice::DoorOpen));
}

} // verus!
