//! The homing sequences of the machine's axes.
//!
//! A linear axis is homed in four steps: it jogs in the negative direction
//! until its reference sensor triggers, backs off the sensor by a fixed
//! distance, has its position counter set to zero, and is idle again when
//! the hardware confirms that. A stop of the axis ends the sequence at any
//! point.
//!
//! Both moves of the sequence are jogs, and the monitor holds them at the
//! soft limits as it holds any jog: a search that starts at or below
//! position zero does not move.
use crate::axis::{AxisEvent, HomingPhase};
use crate::bbm_automatik_v2::{
    BbmAutomatikV2, BbmAutomatikV2View, AXIS_COUNT, INPUT_REF_MT, LINEAR_AXIS_COUNT,
};
use crate::notice::Notice;
use vstd::prelude::*;

verus! {

impl BbmAutomatikV2View {
    /// The reference sensor of axis `axis` is triggered. A sensor that
    /// cannot be read counts as not triggered, and so does that of an axis
    /// which has none.
    pub open spec fn is_axis_homed(self, axis: int) -> bool {
        0 <= axis < LINEAR_AXIS_COUNT && self.digital_inputs[INPUT_REF_MT + axis].spec_value_or(
            false,
        )
    }

    /// The machine after `start_homing`.
    pub open spec fn start_homing(self, index: usize) -> BbmAutomatikV2View {
        if index >= AXIS_COUNT {
            self.note_axis(index as int, Some(AxisEvent::HomingRejected))
        } else {
            let axis = self.axes[index as int];
            let started = self.with_axis(index as int, axis.homing_started()).note_axis(
                index as int,
                axis.start_homing_event(),
            );
            if axis.start_homing_event() is None {
                started.emit_state()
            } else {
                started
            }
        }
    }

    /// The machine after `cancel_homing`.
    pub open spec fn cancel_homing(self, index: usize) -> BbmAutomatikV2View {
        if index < AXIS_COUNT && self.axes[index as int].homing_phase != HomingPhase::Idle {
            self.stop_axis(index)
        } else {
            self
        }
    }

    /// The machine with the homing sequence of axis `index` taken one cycle
    /// further.
    pub open spec fn home_axis(self, index: int) -> BbmAutomatikV2View {
        let axis = self.axes[index];
        let sensor = self.is_axis_homed(index);
        let advanced = self.with_axis(index, axis.homing_advanced(sensor)).note_axis(
            index,
            axis.homing_event(sensor),
        );
        if axis.homing_advances(sensor) {
            advanced.emit_state()
        } else {
            advanced
        }
    }

    /// The machine with the homing sequences of the axes below `count` taken
    /// one cycle further, in the order of their indices.
    pub open spec fn home_axes(self, count: int) -> BbmAutomatikV2View
        decreases count,
    {
        if count <= 0 {
            self
        } else {
            self.home_axes(count - 1).home_axis(count - 1)
        }
    }

    /// The machine after `update_homing`.
    pub open spec fn update_homing(self) -> BbmAutomatikV2View {
        self.home_axes(AXIS_COUNT as int)
    }
}

impl BbmAutomatikV2 {
    /// Whether the reference sensor of an axis is triggered.
    pub fn is_axis_homed(&self, axis: usize) -> (homed: bool)
        ensures
            homed == self@.is_axis_homed(axis as int),
    {
        if axis < LINEAR_AXIS_COUNT {
            self.digital_inputs[INPUT_REF_MT + axis].value_or(false)
        } else {
            false
        }
    }

    /// Starts the homing sequence of an axis. The request is refused, and
    /// that is reported, where the index is beyond the axes, the axis has no
    /// reference sensor, or it is homing already.
    pub fn start_homing(&mut self, index: usize)
        ensures
            final(self)@ == old(self)@.start_homing(index),
            old(self)@.axes_wf() ==> final(self)@.axes_wf(),
    {
        if index >= self.axes.len() {
            self.note_axis(index, Some(AxisEvent::HomingRejected));
            return ;
        }
        let event = self.axes[index].start_homing();
        self.note_axis(index, event);
        if event.is_none() {
            self.emit_state();
        }
    }

    /// Cancels the homing sequence of an axis by stopping the axis. Where
    /// the axis is not homing, or the index is beyond the axes, nothing
    /// happens.
    pub fn cancel_homing(&mut self, index: usize)
        ensures
            final(self)@ == old(self)@.cancel_homing(index),
            old(self)@.axes_wf() ==> final(self)@.axes_wf(),
    {
        if index < self.axes.len() && self.axes[index].is_homing() {
            self.stop_axis(index);
        }
    }

    /// One cycle of the homing sequences of all axes, in the order of their
    /// indices.
    pub fn update_homing(&mut self)
        ensures
            final(self)@ == old(self)@.update_homing(),
            forall|i: int|
                0 <= i < AXIS_COUNT ==> final(self)@.axes[i] == old(self)@.axes[i].homing_advanced(
                    old(self)@.is_axis_homed(i),
                ),
            final(self)@.same_io(old(self)@),
            final(self)@.sdo_writes == old(self)@.sdo_writes,
            old(self)@.axes_wf() ==> final(self)@.axes_wf(),
    {
        proof {
            lemma_home_axes(old(self)@, AXIS_COUNT as int);
        }
        let mut i: usize = 0;
        while i < AXIS_COUNT
            invariant
                i <= AXIS_COUNT,
                self@ == old(self)@.home_axes(i as int),
                old(self)@.axes_wf() ==> self@.axes_wf(),
            decreases AXIS_COUNT - i,
        {
            let sensor = self.is_axis_homed(i);
            let report = self.axes[i].advance_homing(sensor);
            self.note_axis(i, report.1);
            if report.0 {
                self.emit_state();
            }
            i += 1;
        }
    }
}

/// What one cycle of homing changes: each axis is advanced by the level of
/// its own reference sensor, whatever the other axes do; the inputs, the
/// outputs and the register writes are as they were.
pub proof fn lemma_home_axes(machine: BbmAutomatikV2View, count: int)
    requires
        machine.wf(),
        0 <= count <= AXIS_COUNT,
    ensures
        ({
            let homed = machine.home_axes(count);
            &&& homed == (BbmAutomatikV2View {
                axes: homed.axes,
                notices: homed.notices,
                events: homed.events,
                ..machine
            })
            &&& homed.axes.len() == AXIS_COUNT
            &&& forall|i: int|
                0 <= i < count ==> homed.axes[i] == machine.axes[i].homing_advanced(
                    machine.is_axis_homed(i),
                )
            &&& forall|i: int| count <= i < AXIS_COUNT ==> homed.axes[i] == machine.axes[i]
            &&& (forall|i: int|
                0 <= i < count ==> machine.axes[i].homing_phase == HomingPhase::Idle) ==> homed
                == machine
        }),
    decreases count,
{
    if count > 0 {
        lemma_home_axes(machine, count - 1);
        let before = machine.home_axes(count - 1);
        assert(before.axes[count - 1] == machine.axes[count - 1]);
        assert(before.is_axis_homed(count - 1) == machine.is_axis_homed(count - 1));
        if forall|i: int| 0 <= i < count ==> machine.axes[i].homing_phase == HomingPhase::Idle {
            assert(machine.axes[count - 1].homing_phase == HomingPhase::Idle);
            assert(before == machine);
            assert(machine.home_axes(count).axes =~= machine.axes);
        }
    }
}

/// A rotating axis, which has no reference sensor, never homes; a request
/// to home it changes nothing but the reports.
pub proof fn lemma_rotating_axis_never_homes(machine: BbmAutomatikV2View, index: usize)
    requires
        machine.wf(),
        index < AXIS_COUNT,
        !machine.axes[index as int].homeable,
    ensures
        machine.start_homing(index).axes == machine.axes,
        machine.start_homing(index).events == machine.events,
        machine.start_homing(index).notices == machine.notices.push(
            Notice::Axis { axis: index, event: AxisEvent::HomingRejected },
        ),
{
    assert(machine.axes.update(index as int, machine.axes[index as int]) =~= machine.axes);
}

} // verus!
