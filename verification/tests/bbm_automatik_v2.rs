use machines::axis::{Axis, AxisEvent, HomingPhase};
use machines::bbm_automatik_v2::api::{
    BbmAutomatikV2Events, BbmAutomatikV2Namespace, LiveValuesEvent, Mutation, StateEvent,
};
use machines::bbm_automatik_v2::{
    max_position_mm, BbmAutomatikV2, AXIS_BUERSTE, AXIS_COUNT, AXIS_DRUECKER, AXIS_MT,
    AXIS_SCHIEBER, INPUT_ALARM_MT, INPUT_REF_MT, INPUT_TUER, OUTPUT_AMPEL_GELB,
    OUTPUT_AMPEL_GRUEN, OUTPUT_AMPEL_ROT, OUTPUT_RUETTELMOTOR,
};
use machines::io::{DigitalInput, PtoCommand};
use machines::notice::{elapsed, Notice, SdoWrite};

/// A machine with the door closed, no alarm on the wire and no reference
/// sensor triggered, and with nothing waiting to be sent.
fn machine() -> BbmAutomatikV2 {
    let mut machine = BbmAutomatikV2::new(true, [7, 9]);
    for input in 0..3 {
        machine.digital_inputs[input].reading = Some(false);
    }
    for input in 3..6 {
        machine.digital_inputs[input].reading = Some(true);
    }
    machine.digital_inputs[INPUT_TUER].reading = Some(true);
    machine.digital_inputs[7].reading = Some(false);
    machine.take_events();
    machine
}

fn notices_but_moving(machine: &BbmAutomatikV2) -> Vec<Notice> {
    machine
        .notices
        .iter()
        .filter(|notice| !matches!(notice, Notice::AxisMoving { .. }))
        .copied()
        .collect()
}

fn state_events(machine: &BbmAutomatikV2) -> usize {
    machine
        .namespace
        .events
        .iter()
        .filter(|event| matches!(event, BbmAutomatikV2Events::State(_)))
        .count()
}

fn assert_all_stopped(machine: &BbmAutomatikV2) {
    for axis in machine.axes.iter() {
        assert_eq!(axis.current_speed_hz, 0);
        assert_eq!(axis.target_speed_hz, 0);
        assert!(!axis.position_mode);
        assert_eq!(axis.homing_phase, HomingPhase::Idle);
        assert!(axis.pto.output.disable_ramp);
        assert!(!axis.pto.output.go_counter);
        assert_eq!(axis.pto.output.frequency_value, 0);
    }
    assert!(machine.all_axes_stopped());
}

fn busy_machine() -> BbmAutomatikV2 {
    let mut machine = machine();
    machine.axes[0].pto.input.counter_value = 500;
    machine.start_homing(0);
    machine.move_to_position_mm(1, 40_000, 10_000);
    machine.set_axis_speed_mm_s(2, -5_000);
    machine.set_axis_speed_rpm(3, 120_000);
    machine.update_hardware_monitor();
    machine.take_events();
    machine.take_notices();
    machine
}

#[test]
fn soft_limits_per_axis() {
    assert_eq!(max_position_mm(AXIS_MT), Some(230_000));
    assert_eq!(max_position_mm(AXIS_SCHIEBER), Some(53_000));
    assert_eq!(max_position_mm(AXIS_DRUECKER), Some(107_000));
    assert_eq!(max_position_mm(AXIS_BUERSTE), None);
    assert_eq!(max_position_mm(17), None);
}

#[test]
fn new_machine_is_at_rest_and_publishes_its_state() {
    let machine = BbmAutomatikV2::new(false, [3, 4]);
    assert_eq!(AXIS_COUNT, 4);
    assert_eq!(machine.axes[0], Axis::new(Some(230_000), true));
    assert_eq!(machine.axes[1], Axis::new(Some(53_000), true));
    assert_eq!(machine.axes[2], Axis::new(Some(107_000), true));
    assert_eq!(machine.axes[3], Axis::new(None, false));
    assert_eq!(machine.output_states, [false; 8]);
    assert_eq!(machine.digital_inputs, [DigitalInput { reading: None }; 8]);
    assert!(!machine.sdo_write_available);
    assert_eq!(machine.pto_subdevice_indices, [3, 4]);
    assert_eq!(machine.last_state_emit, 0);
    assert_eq!(machine.last_debug_log, None);
    assert!(machine.notices.is_empty());
    assert!(machine.sdo_writes.is_empty());
    assert_eq!(machine.namespace.events, vec![BbmAutomatikV2Events::State(machine.get_state())]);
    assert!(machine.all_axes_stopped());
    assert!(!machine.any_alarm_latched());
    assert!(!machine.any_axis_moving());
}

#[test]
fn state_snapshot_shows_every_axis() {
    let mut machine = machine();
    machine.set_output(5, true);
    machine.axes[0].pto.input.counter_value = 500;
    machine.start_homing(0);
    machine.move_to_position_mm(1, 40_000, 10_000);
    machine.set_axis_speed(2, -77);
    machine.set_axis_acceleration(3, 250_000);
    machine.axes[2].alarm_active = true;
    assert_eq!(
        machine.get_state(),
        StateEvent {
            output_states: [false, false, false, false, false, true, false, false],
            axis_speeds: [0, 200, 0, 0],
            axis_target_speeds: [-300, 200, -77, 0],
            axis_accelerations: [100_000, 100_000, 100_000, 250_000],
            axis_target_positions: [0, 800, 0, 0],
            axis_position_mode: [false, true, false, false],
            axis_homing_active: [true, false, false, false],
            axis_soft_limit_max: [Some(230_000), Some(53_000), Some(107_000), None],
            axis_alarm_active: [false, false, true, false],
        }
    );
}

#[test]
fn live_snapshot_shows_inputs_and_positions() {
    let mut machine = machine();
    machine.digital_inputs[1].reading = Some(true);
    machine.digital_inputs[4].reading = None;
    machine.axes[0].pto.input.counter_value = 120;
    machine.axes[3].pto.input.counter_value = u32::MAX;
    assert_eq!(
        machine.get_live_values(),
        LiveValuesEvent {
            input_states: [false, true, false, true, false, true, true, false],
            axis_positions: [120, 0, 0, -1],
        }
    );
    machine.emit_live_values();
    machine.emit_state();
    assert_eq!(
        machine.take_events(),
        vec![
            BbmAutomatikV2Events::LiveValues(machine.get_live_values()),
            BbmAutomatikV2Events::State(machine.get_state()),
        ]
    );
    assert!(machine.namespace.events.is_empty());
}

#[test]
fn namespace_queues_in_order() {
    let mut namespace = BbmAutomatikV2Namespace::new();
    let machine = machine();
    namespace.emit(BbmAutomatikV2Events::State(machine.get_state()));
    namespace.emit(BbmAutomatikV2Events::LiveValues(machine.get_live_values()));
    assert_eq!(namespace.events.len(), 2);
    let events = namespace.drain();
    assert_eq!(events[0], BbmAutomatikV2Events::State(machine.get_state()));
    assert_eq!(events[1], BbmAutomatikV2Events::LiveValues(machine.get_live_values()));
    assert!(namespace.events.is_empty());
}

#[test]
fn outputs_are_set_and_published() {
    let mut machine = machine();
    machine.set_output(2, true);
    assert_eq!(machine.output_states, [false, false, true, false, false, false, false, false]);
    assert_eq!(state_events(&machine), 1);
    machine.set_output(8, true);
    assert_eq!(machine.output_states, [false, false, true, false, false, false, false, false]);
    assert_eq!(state_events(&machine), 1);
    machine.set_all_outputs(true);
    assert_eq!(machine.output_states, [true; 8]);
    machine.set_all_outputs(false);
    assert_eq!(machine.output_states, [false; 8]);
    machine.set_ruettelmotor(true);
    assert!(machine.output_states[OUTPUT_RUETTELMOTOR]);
    machine.set_ampel(true, false, true);
    assert!(machine.output_states[OUTPUT_AMPEL_ROT]);
    assert!(!machine.output_states[OUTPUT_AMPEL_GELB]);
    assert!(machine.output_states[OUTPUT_AMPEL_GRUEN]);
    assert_eq!(machine.output_states, [true, true, false, true, false, false, false, false]);
    assert_eq!(state_events(&machine), 5);
    assert_eq!(
        machine.namespace.events[4],
        BbmAutomatikV2Events::State(machine.get_state())
    );
}

#[test]
fn jog_speeds_in_three_units() {
    let mut machine = machine();
    machine.set_axis_speed(0, 1234);
    machine.set_axis_speed_mm_s(1, 15_000);
    machine.set_axis_speed_mm_s(2, -1_049);
    machine.set_axis_speed_rpm(3, 100_000);
    assert_eq!(machine.axes[0].target_speed_hz, 1234);
    assert_eq!(machine.axes[1].target_speed_hz, 300);
    assert_eq!(machine.axes[2].target_speed_hz, -20);
    assert_eq!(machine.axes[3].target_speed_hz, 333);
    for axis in machine.axes.iter() {
        assert_eq!(axis.current_speed_hz, 0);
        assert_eq!(axis.pto.output, PtoCommand::idle());
    }
    assert_eq!(state_events(&machine), 4);
}

#[test]
fn an_index_beyond_the_axes_is_ignored() {
    let mut machine = busy_machine();
    let axes = machine.axes;
    machine.set_axis_speed(4, 100);
    machine.set_axis_speed_mm_s(4, 100);
    machine.set_axis_speed_rpm(usize::MAX, 100);
    machine.set_axis_acceleration(4, 8_000);
    machine.move_to_position_mm(4, 10_000, 10_000);
    machine.stop_axis(4);
    machine.cancel_homing(4);
    assert_eq!(machine.axes, axes);
    assert!(machine.namespace.events.is_empty());
    assert!(machine.notices.is_empty());
    assert!(machine.sdo_writes.is_empty());
    assert!(!machine.is_axis_homed(4));
    assert!(!machine.alarm_input_active(4));
    machine.start_homing(4);
    assert_eq!(machine.axes, axes);
    assert_eq!(
        machine.notices,
        vec![Notice::Axis { axis: 4, event: AxisEvent::HomingRejected }]
    );
}

#[test]
fn acceleration_goes_to_the_ramp_registers_of_the_axis() {
    let mut machine = machine();
    machine.set_axis_acceleration(0, 100_000);
    machine.set_axis_acceleration(1, 1_000);
    machine.set_axis_acceleration(2, 500_000);
    machine.set_axis_acceleration(3, 900_000);
    let write = |subdevice_index, index, subindex, value| SdoWrite {
        subdevice_index,
        index,
        subindex,
        value,
    };
    assert_eq!(
        machine.sdo_writes,
        vec![
            write(7, 0x8000, 0x14, 2500),
            write(7, 0x8000, 0x15, 2500),
            write(7, 0x8010, 0x14, 62500),
            write(7, 0x8010, 0x15, 62500),
            write(9, 0x8000, 0x14, 500),
            write(9, 0x8000, 0x15, 500),
            write(9, 0x8010, 0x14, 500),
            write(9, 0x8010, 0x15, 500),
        ]
    );
    assert_eq!(machine.axes[0].acceleration, 100_000);
    assert_eq!(machine.axes[1].acceleration, 4_000);
    assert_eq!(machine.axes[2].acceleration, 500_000);
    assert_eq!(machine.axes[3].acceleration, 500_000);
    assert!(machine.notices.is_empty());
    assert_eq!(state_events(&machine), 4);
    assert_eq!(machine.take_sdo_writes().len(), 8);
    assert!(machine.sdo_writes.is_empty());
}

#[test]
fn acceleration_without_ramp_writer_is_recorded_and_reported() {
    let mut machine = BbmAutomatikV2::new(false, [7, 9]);
    machine.take_events();
    machine.set_axis_acceleration(2, 42_000);
    assert_eq!(machine.axes[2].acceleration, 42_000);
    assert!(machine.sdo_writes.is_empty());
    assert_eq!(machine.notices, vec![Notice::RampWriterUnavailable { axis: 2 }]);
    assert_eq!(state_events(&machine), 1);
}

#[test]
fn move_beyond_the_soft_limit_is_clamped() {
    let mut machine = machine();
    machine.move_to_position_mm(AXIS_MT, 300_000, 10_000);
    assert_eq!(machine.axes[0].target_position, 4600);
    assert_eq!(machine.axes[0].pto.output.target_counter_value, 4600);
    assert!(machine.axes[0].pto.output.go_counter);
    assert!(!machine.axes[0].pto.output.disable_ramp);
    assert_eq!(machine.axes[0].pto.output.frequency_value, 200);
    assert!(machine.axes[0].position_mode);
    assert_eq!(
        machine.notices,
        vec![Notice::Axis {
            axis: 0,
            event: AxisEvent::PositionClamped { requested_mm: 300_000, clamped_mm: 230_000 },
        }]
    );
    machine.move_to_position_mm(AXIS_SCHIEBER, 60_000, 10_000);
    assert_eq!(machine.axes[1].target_position, 1060);
    machine.move_to_position_mm(AXIS_DRUECKER, 107_400, 10_000);
    assert_eq!(machine.axes[2].target_position, 2140);
    machine.move_to_position_mm(AXIS_BUERSTE, 300_000, 10_000);
    assert_eq!(machine.axes[3].target_position, 6000);
    assert_eq!(
        machine.notices[1..],
        [
            Notice::Axis {
                axis: 1,
                event: AxisEvent::PositionClamped { requested_mm: 60_000, clamped_mm: 53_000 },
            },
            Notice::Axis {
                axis: 2,
                event: AxisEvent::PositionClamped { requested_mm: 107_400, clamped_mm: 107_000 },
            },
        ]
    );
    assert_eq!(state_events(&machine), 4);
}

#[test]
fn move_target_is_truncated_toward_zero() {
    let mut machine = machine();
    machine.move_to_position_mm(AXIS_MT, 10_750, 10_000);
    machine.move_to_position_mm(AXIS_SCHIEBER, 10_450, 10_000);
    machine.move_to_position_mm(AXIS_DRUECKER, 106_999, 10_000);
    machine.move_to_position_mm(AXIS_BUERSTE, -10_750, 10_000);
    assert_eq!(machine.axes[0].target_position, 215);
    assert_eq!(machine.axes[1].target_position, 209);
    assert_eq!(machine.axes[2].target_position, 2139);
    assert_eq!(machine.axes[3].target_position, -215);
    assert_eq!(machine.axes[0].pto.output.target_counter_value, 215);
    assert_eq!(machine.get_state().axis_target_positions, [215, 209, 2139, -215]);
    assert!(machine.notices.is_empty());
}

#[test]
fn move_is_refused_while_the_axis_is_homing() {
    let mut machine = machine();
    machine.start_homing(1);
    machine.take_events();
    let axes = machine.axes;
    machine.move_to_position_mm(1, 10_000, 10_000);
    assert_eq!(machine.axes, axes);
    assert_eq!(machine.notices, vec![Notice::Axis { axis: 1, event: AxisEvent::MoveRejected }]);
    assert!(machine.namespace.events.is_empty());
}

#[test]
fn stop_all_axes_stops_every_axis_whatever_it_was_doing() {
    let mut machine = busy_machine();
    assert!(machine.any_axis_moving());
    assert!(!machine.all_axes_stopped());
    let before = machine.axes;
    machine.stop_all_axes();
    assert_all_stopped(&machine);
    for (axis, was) in machine.axes.iter().zip(before.iter()) {
        assert_eq!(axis.alarm_active, was.alarm_active);
        assert_eq!(axis.acceleration, was.acceleration);
        assert_eq!(axis.target_position, was.target_position);
        assert_eq!(axis.soft_limit_max_mm, was.soft_limit_max_mm);
        assert_eq!(axis.pto.input, was.pto.input);
    }
    assert_eq!(
        machine.notices,
        vec![Notice::Axis { axis: 0, event: AxisEvent::HomingCancelled }]
    );
    assert_eq!(
        machine.namespace.events,
        vec![BbmAutomatikV2Events::State(machine.get_state())]
    );
}

#[test]
fn stop_all_axes_twice_is_stop_all_axes_once() {
    let mut machine = busy_machine();
    machine.stop_all_axes();
    let axes = machine.axes;
    let outputs = machine.output_states;
    let notices = machine.notices.clone();
    let state = machine.get_state();
    machine.stop_all_axes();
    assert_eq!(machine.axes, axes);
    assert_eq!(machine.output_states, outputs);
    assert_eq!(machine.notices, notices);
    assert_eq!(machine.get_state(), state);
    assert_eq!(
        machine.namespace.events,
        vec![BbmAutomatikV2Events::State(state), BbmAutomatikV2Events::State(state)]
    );
    assert_all_stopped(&machine);
}

#[test]
fn stop_axis_stops_one_axis() {
    let mut machine = busy_machine();
    let before = machine.axes;
    machine.stop_axis(1);
    assert_eq!(machine.axes[0], before[0]);
    assert_eq!(machine.axes[2], before[2]);
    assert_eq!(machine.axes[3], before[3]);
    assert!(machine.axes[1].is_at_rest());
    assert!(machine.axes[1].pto.output.disable_ramp);
    assert!(machine.notices.is_empty());
    machine.stop_axis(0);
    assert!(machine.axes[0].is_at_rest());
    assert_eq!(
        machine.notices,
        vec![Notice::Axis { axis: 0, event: AxisEvent::HomingCancelled }]
    );
    assert_eq!(state_events(&machine), 2);
}

#[test]
fn monitor_runs_over_all_axes() {
    let mut machine = machine();
    machine.set_axis_speed(0, 100);
    machine.set_axis_speed(3, -900);
    machine.take_events();
    assert!(machine.update_hardware_monitor());
    assert_eq!(machine.axes[0].pto.output.frequency_value, 100);
    assert_eq!(machine.axes[3].pto.output.frequency_value, -900);
    assert_eq!(machine.axes[0].current_speed_hz, 100);
    assert_eq!(machine.axes[3].current_speed_hz, -900);
    assert!(machine.namespace.events.is_empty());
    assert!(!machine.update_hardware_monitor());
    machine.axes[2].pto.input.ramp_active = true;
    assert!(machine.update_hardware_monitor());
    assert!(machine.notices.is_empty());
}

#[test]
fn step_loss_is_detected_when_a_travel_ends() {
    let mut machine = machine();
    machine.move_to_position_mm(0, 50_000, 10_000);
    machine.move_to_position_mm(2, 50_000, 10_000);
    assert_eq!(machine.axes[0].target_position, 1000);
    for _ in 0..5 {
        machine.axes[0].pto.input.select_end_counter = true;
        machine.axes[2].pto.input.select_end_counter = true;
        assert!(!machine.update_hardware_monitor());
        assert!(machine.axes[0].position_mode);
    }
    machine.axes[0].pto.input.counter_value = 1005;
    machine.axes[2].pto.input.counter_value = 1001;
    assert!(machine.update_hardware_monitor());
    assert_eq!(
        machine.notices,
        vec![
            Notice::Axis {
                axis: 0,
                event: AxisEvent::StepLoss {
                    target: 1000,
                    actual: 1005,
                    deviation: 5,
                    deviation_mm: 250,
                },
            },
            Notice::Axis {
                axis: 2,
                event: AxisEvent::TargetReached { target: 1000, actual: 1001, deviation: 1 },
            },
        ]
    );
    for axis in [0, 2] {
        assert!(!machine.axes[axis].position_mode);
        assert_eq!(machine.axes[axis].current_speed_hz, 0);
        assert_eq!(machine.axes[axis].target_speed_hz, 0);
        assert!(!machine.axes[axis].pto.output.go_counter);
        assert_eq!(machine.axes[axis].pto.output.frequency_value, 0);
    }
}

#[test]
fn soft_limit_holds_a_jog_and_is_reported_once() {
    let mut machine = machine();
    machine.set_axis_speed_mm_s(AXIS_SCHIEBER, 10_000);
    machine.update_hardware_monitor();
    assert_eq!(machine.axes[1].current_speed_hz, 200);
    machine.axes[1].pto.input.counter_value = 1060;
    assert!(machine.update_hardware_monitor());
    assert_eq!(machine.axes[1].target_speed_hz, 0);
    assert_eq!(machine.axes[1].current_speed_hz, 0);
    assert_eq!(machine.axes[1].pto.output.frequency_value, 0);
    assert_eq!(
        machine.notices,
        vec![Notice::Axis {
            axis: 1,
            event: AxisEvent::SoftLimitReached { position_mm: 53_000 },
        }]
    );
    assert!(!machine.update_hardware_monitor());
    assert_eq!(machine.notices.len(), 1);
}

#[test]
fn reference_sensors_belong_to_the_linear_axes() {
    let mut machine = machine();
    for axis in 0..4 {
        assert!(!machine.is_axis_homed(axis));
    }
    machine.digital_inputs[INPUT_REF_MT + 1].reading = Some(true);
    assert!(!machine.is_axis_homed(0));
    assert!(machine.is_axis_homed(1));
    assert!(!machine.is_axis_homed(2));
    machine.digital_inputs[3].reading = Some(true);
    assert!(!machine.is_axis_homed(3));
    machine.digital_inputs[1].reading = None;
    assert!(!machine.is_axis_homed(1));
}

#[test]
fn homing_sequence() {
    let mut machine = machine();
    machine.axes[0].pto.input.counter_value = 500;
    machine.start_homing(AXIS_MT);
    assert_eq!(machine.axes[0].homing_phase, HomingPhase::SearchingSensor);
    assert_eq!(machine.axes[0].target_speed_hz, -300);
    assert!(machine.get_state().axis_homing_active[0]);
    assert_eq!(state_events(&machine), 1);
    machine.act(None, 1_000_000);
    assert_eq!(machine.axes[0].current_speed_hz, -300);
    assert_eq!(
        machine.axes[0].pto.output,
        PtoCommand { frequency_value: -300, ..PtoCommand::idle() }
    );
    assert_eq!(machine.axes[0].homing_phase, HomingPhase::SearchingSensor);

    machine.axes[0].pto.input.counter_value = 120;
    machine.digital_inputs[INPUT_REF_MT].reading = Some(true);
    machine.update_homing();
    assert_eq!(machine.axes[0].homing_phase, HomingPhase::Retracting);
    assert_eq!(machine.axes[0].homing_retract_target, 160);
    assert_eq!(machine.axes[0].target_speed_hz, 300);
    assert_eq!(machine.axes[0].current_speed_hz, 0);
    assert!(machine.axes[0].pto.output.disable_ramp);
    assert_eq!(machine.axes[0].pto.output.frequency_value, 0);
    machine.act(None, 2_000_000);
    assert_eq!(machine.axes[0].current_speed_hz, 300);
    assert_eq!(
        machine.axes[0].pto.output,
        PtoCommand { frequency_value: 300, ..PtoCommand::idle() }
    );

    machine.axes[0].pto.input.counter_value = 140;
    machine.digital_inputs[INPUT_REF_MT].reading = Some(false);
    machine.act(None, 3_000_000);
    assert_eq!(machine.axes[0].homing_phase, HomingPhase::Retracting);
    machine.axes[0].pto.input.counter_value = 160;
    machine.act(None, 4_000_000);
    assert_eq!(machine.axes[0].homing_phase, HomingPhase::SettingZero);
    assert_eq!(machine.axes[0].current_speed_hz, 0);
    assert_eq!(machine.axes[0].target_speed_hz, 0);
    assert_eq!(
        machine.axes[0].pto.output,
        PtoCommand {
            disable_ramp: true,
            set_counter: true,
            set_counter_value: 0,
            ..PtoCommand::idle()
        }
    );

    machine.act(None, 5_000_000);
    assert_eq!(machine.axes[0].homing_phase, HomingPhase::SettingZero);
    machine.axes[0].pto.input.set_counter_done = true;
    machine.axes[0].pto.input.counter_value = 0;
    machine.act(None, 6_000_000);
    assert_eq!(machine.axes[0].homing_phase, HomingPhase::Idle);
    assert!(!machine.axes[0].pto.output.set_counter);
    assert_eq!(machine.axes[0].pto.get_position(), 0);
    assert_eq!(machine.get_live_values().axis_positions[0], 0);
    assert!(!machine.get_state().axis_homing_active[0]);
    assert_eq!(
        notices_but_moving(&machine),
        vec![Notice::Axis { axis: 0, event: AxisEvent::HomingComplete }]
    );
    for axis in 1..4 {
        assert_eq!(machine.axes[axis], BbmAutomatikV2::new(true, [7, 9]).axes[axis]);
    }
}

#[test]
fn homing_is_refused_for_the_brush_and_while_homing() {
    let mut machine = machine();
    machine.start_homing(AXIS_BUERSTE);
    assert_eq!(machine.axes[3].homing_phase, HomingPhase::Idle);
    machine.start_homing(2);
    machine.start_homing(2);
    assert_eq!(machine.axes[2].homing_phase, HomingPhase::SearchingSensor);
    assert_eq!(
        machine.notices,
        vec![
            Notice::Axis { axis: 3, event: AxisEvent::HomingRejected },
            Notice::Axis { axis: 2, event: AxisEvent::HomingAlreadyActive },
        ]
    );
    assert_eq!(state_events(&machine), 1);
}

#[test]
fn cancel_homing_stops_the_axis_and_nothing_else() {
    let mut machine = busy_machine();
    let before = machine.axes;
    machine.cancel_homing(1);
    machine.cancel_homing(3);
    assert_eq!(machine.axes, before);
    assert!(machine.namespace.events.is_empty());
    machine.cancel_homing(0);
    assert!(machine.axes[0].is_at_rest());
    assert!(machine.axes[0].pto.output.disable_ramp);
    assert_eq!(machine.axes[1], before[1]);
    assert_eq!(
        machine.notices,
        vec![Notice::Axis { axis: 0, event: AxisEvent::HomingCancelled }]
    );
    assert_eq!(state_events(&machine), 1);
}

#[test]
fn alarm_latches_one_axis_and_stops_all() {
    let mut machine = busy_machine();
    assert!(!machine.check_driver_alarms());
    assert!(machine.any_axis_moving());
    machine.digital_inputs[INPUT_ALARM_MT + 1].reading = Some(false);
    assert!(machine.alarm_input_active(1));
    assert!(machine.check_driver_alarms());
    assert!(machine.axes[1].alarm_active);
    assert!(!machine.axes[0].alarm_active);
    assert!(!machine.axes[2].alarm_active);
    assert!(!machine.axes[3].alarm_active);
    assert_all_stopped(&machine);
    assert_eq!(
        machine.notices,
        vec![
            Notice::AlarmTriggered { axis: 1 },
            Notice::Axis { axis: 0, event: AxisEvent::HomingCancelled },
        ]
    );
    assert_eq!(state_events(&machine), 1);
    assert!(machine.get_state().axis_alarm_active[1]);
    assert!(!machine.check_driver_alarms());
    assert_eq!(state_events(&machine), 1);
    assert_eq!(machine.notices.len(), 2);
}

#[test]
fn alarm_reset_is_refused_while_the_input_is_active() {
    let mut machine = machine();
    machine.digital_inputs[INPUT_ALARM_MT + 1].reading = Some(false);
    assert!(machine.check_driver_alarms());
    machine.take_notices();
    machine.take_events();
    machine.reset_alarms();
    assert!(machine.axes[1].alarm_active);
    assert!(machine.any_alarm_latched());
    assert_eq!(machine.notices, vec![Notice::AlarmResetRefused { axis: 1 }]);
    assert_eq!(state_events(&machine), 1);
    machine.digital_inputs[INPUT_ALARM_MT + 1].reading = Some(true);
    machine.reset_alarms();
    for axis in machine.axes.iter() {
        assert!(!axis.alarm_active);
    }
    assert!(!machine.any_alarm_latched());
    assert_eq!(
        machine.notices,
        vec![Notice::AlarmResetRefused { axis: 1 }, Notice::AlarmsReset]
    );
    assert_eq!(state_events(&machine), 2);
}

#[test]
fn alarm_reset_without_a_latch_does_nothing() {
    let mut machine = machine();
    machine.digital_inputs[INPUT_ALARM_MT].reading = Some(false);
    machine.axes[0].alarm_active = false;
    machine.reset_alarms();
    assert!(machine.notices.is_empty());
    assert!(machine.namespace.events.is_empty());
}

#[test]
fn alarm_reset_looks_at_every_alarm_input() {
    let mut machine = machine();
    machine.axes[3].alarm_active = true;
    machine.axes[0].alarm_active = true;
    machine.digital_inputs[INPUT_ALARM_MT + 2].reading = Some(false);
    machine.reset_alarms();
    assert!(machine.axes[3].alarm_active);
    assert!(machine.axes[0].alarm_active);
    assert_eq!(machine.notices, vec![Notice::AlarmResetRefused { axis: 2 }]);
    machine.digital_inputs[INPUT_ALARM_MT + 2].reading = None;
    machine.reset_alarms();
    assert!(!machine.any_alarm_latched());
}

#[test]
fn alarm_input_that_cannot_be_read_is_no_alarm() {
    let mut machine = busy_machine();
    for input in 3..6 {
        machine.digital_inputs[input].reading = None;
    }
    for axis in 0..3 {
        assert!(!machine.alarm_input_active(axis));
    }
    assert!(!machine.check_driver_alarms());
    assert!(machine.any_axis_moving());
    assert!(machine.notices.is_empty());
}

#[test]
fn two_alarms_are_latched_in_two_cycles() {
    let mut machine = machine();
    machine.digital_inputs[INPUT_ALARM_MT].reading = Some(false);
    machine.digital_inputs[INPUT_ALARM_MT + 2].reading = Some(false);
    assert!(machine.check_driver_alarms());
    assert!(machine.axes[0].alarm_active);
    assert!(!machine.axes[2].alarm_active);
    assert!(machine.check_driver_alarms());
    assert!(machine.axes[2].alarm_active);
    assert!(!machine.check_driver_alarms());
    assert_eq!(
        machine.notices,
        vec![Notice::AlarmTriggered { axis: 0 }, Notice::AlarmTriggered { axis: 2 }]
    );
    assert_eq!(state_events(&machine), 2);
}

#[test]
fn door_interlock_stops_active_axes() {
    let mut machine = busy_machine();
    assert!(machine.are_doors_closed());
    assert!(!machine.check_door_interlock());
    assert!(machine.any_axis_moving());
    machine.digital_inputs[INPUT_TUER].reading = Some(false);
    assert!(!machine.are_doors_closed());
    assert!(machine.check_door_interlock());
    assert_all_stopped(&machine);
    assert_eq!(
        machine.notices,
        vec![Notice::DoorOpen, Notice::Axis { axis: 0, event: AxisEvent::HomingCancelled }]
    );
    assert_eq!(state_events(&machine), 1);
    assert!(!machine.check_door_interlock());
    assert_eq!(machine.notices.len(), 2);
}

#[test]
fn door_that_cannot_be_read_counts_as_open() {
    let mut machine = busy_machine();
    machine.digital_inputs[INPUT_TUER].reading = None;
    assert!(!machine.are_doors_closed());
    assert!(machine.check_door_interlock());
    assert_all_stopped(&machine);
}

#[test]
fn commands_map_to_operations() {
    let mut by_command = machine();
    let mut by_call = machine();
    by_command.axes[2].pto.input.counter_value = 700;
    by_call.axes[2].pto.input.counter_value = 700;
    by_command.axes[1].alarm_active = true;
    by_call.axes[1].alarm_active = true;
    by_command.api_mutate(Mutation::SetOutput { index: 4, on: true });
    by_call.set_output(4, true);
    by_command.api_mutate(Mutation::SetAllOutputs { on: true });
    by_call.set_all_outputs(true);
    by_command.api_mutate(Mutation::SetRuettelmotor { on: false });
    by_call.set_ruettelmotor(false);
    by_command.api_mutate(Mutation::SetAmpel { rot: false, gelb: true, gruen: false });
    by_call.set_ampel(false, true, false);
    by_command.api_mutate(Mutation::SetAxisSpeed { index: 0, speed: 55 });
    by_call.set_axis_speed(0, 55);
    by_command.api_mutate(Mutation::SetAxisSpeedMmS { index: 1, speed_mm_s: 7_000 });
    by_call.set_axis_speed_mm_s(1, 7_000);
    by_command.api_mutate(Mutation::SetAxisSpeedRpm { index: 3, rpm: 90_000 });
    by_call.set_axis_speed_rpm(3, 90_000);
    by_command.api_mutate(Mutation::SetAxisAcceleration { index: 3, accel_mm_s2: 50_000 });
    by_call.set_axis_acceleration(3, 50_000);
    by_command.api_mutate(Mutation::MoveToPosition {
        index: 0,
        position_mm: 20_000,
        speed_mm_s: 9_000,
    });
    by_call.move_to_position_mm(0, 20_000, 9_000);
    by_command.api_mutate(Mutation::StartHoming { index: 2 });
    by_call.start_homing(2);
    by_command.api_mutate(Mutation::StopAxis { index: 0 });
    by_call.stop_axis(0);
    by_command.api_mutate(Mutation::CancelHoming { index: 2 });
    by_call.cancel_homing(2);
    by_command.api_mutate(Mutation::ResetAlarms);
    by_call.reset_alarms();
    by_command.api_mutate(Mutation::StopAllAxes);
    by_call.stop_all_axes();
    assert_eq!(by_command.axes, by_call.axes);
    assert_eq!(by_command.output_states, by_call.output_states);
    assert_eq!(by_command.namespace.events, by_call.namespace.events);
    assert_eq!(by_command.notices, by_call.notices);
    assert_eq!(by_command.sdo_writes, by_call.sdo_writes);
    assert_eq!(by_command.namespace.events.len(), 14);
    assert!(!by_command.axes[1].alarm_active);
    assert_eq!(by_command.sdo_writes.len(), 2);
}

#[test]
fn cycle_takes_a_command_then_monitors() {
    let mut machine = machine();
    machine.act(Some(Mutation::SetAxisSpeed { index: 3, speed: 400 }), 1_000);
    assert_eq!(machine.axes[3].target_speed_hz, 400);
    assert_eq!(machine.axes[3].current_speed_hz, 400);
    assert_eq!(machine.axes[3].pto.output.frequency_value, 400);
    assert_eq!(state_events(&machine), 2);
    machine.act(None, 2_000);
    assert_eq!(state_events(&machine), 2);
}

#[test]
fn alarm_is_checked_before_anything_moves() {
    let mut machine = machine();
    machine.digital_inputs[INPUT_ALARM_MT + 2].reading = Some(false);
    machine.act(
        Some(Mutation::MoveToPosition { index: 0, position_mm: 20_000, speed_mm_s: 9_000 }),
        1_000,
    );
    assert_all_stopped(&machine);
    assert!(machine.axes[2].alarm_active);
    assert_eq!(machine.notices, vec![Notice::AlarmTriggered { axis: 2 }]);
    assert_eq!(state_events(&machine), 3);
    machine.act(Some(Mutation::SetAxisSpeed { index: 3, speed: 400 }), 2_000);
    assert_eq!(machine.axes[3].current_speed_hz, 400);
    assert_eq!(notices_but_moving(&machine), vec![Notice::AlarmTriggered { axis: 2 }]);
}

#[test]
fn alarm_cycle_leaves_the_axes_to_the_stop() {
    let mut machine = machine();
    machine.set_axis_speed(3, 400);
    machine.update_hardware_monitor();
    machine.axes[3].pto.input.ramp_active = true;
    machine.axes[0].pto.input.counter_value = 500;
    machine.start_homing(0);
    machine.digital_inputs[INPUT_REF_MT].reading = Some(true);
    machine.digital_inputs[INPUT_ALARM_MT].reading = Some(false);
    machine.act(None, 1_000);
    assert_all_stopped(&machine);
    assert_eq!(machine.axes[0].homing_retract_target, 0);
}

#[test]
fn open_door_undoes_a_command_in_its_cycle() {
    let mut machine = machine();
    machine.digital_inputs[INPUT_TUER].reading = Some(false);
    machine.act(Some(Mutation::SetAxisSpeed { index: 3, speed: 400 }), 1_000);
    assert_all_stopped(&machine);
    assert_eq!(machine.notices, vec![Notice::DoorOpen]);
    machine.act(None, 2_000);
    assert_eq!(machine.notices.len(), 1);
    machine.digital_inputs[INPUT_TUER].reading = Some(true);
    machine.act(Some(Mutation::SetAxisSpeed { index: 3, speed: 400 }), 3_000);
    assert_eq!(machine.axes[3].current_speed_hz, 400);
    assert_eq!(notices_but_moving(&machine), vec![Notice::DoorOpen]);
}

#[test]
fn live_values_are_published_thirty_times_a_second_at_most() {
    let mut machine = machine();
    let live = |machine: &BbmAutomatikV2| {
        machine
            .namespace
            .events
            .iter()
            .filter(|event| matches!(event, BbmAutomatikV2Events::LiveValues(_)))
            .count()
    };
    machine.act(None, 10_000_000);
    assert_eq!(live(&machine), 0);
    machine.act(None, 33_333_333);
    assert_eq!(live(&machine), 0);
    assert_eq!(machine.last_state_emit, 0);
    machine.act(None, 33_333_334);
    assert_eq!(live(&machine), 1);
    assert_eq!(machine.last_state_emit, 33_333_334);
    machine.act(None, 66_666_667);
    assert_eq!(live(&machine), 1);
    machine.act(None, 20_000_000);
    assert_eq!(live(&machine), 1);
    machine.act(None, 66_666_668);
    assert_eq!(live(&machine), 2);
    assert_eq!(
        machine.namespace.events[1],
        BbmAutomatikV2Events::LiveValues(machine.get_live_values())
    );
    assert_eq!(elapsed(5, 7), 0);
    assert_eq!(elapsed(7, 5), 2);
}

#[test]
fn moving_axes_are_reported_once_a_second_at_most() {
    let mut machine = machine();
    machine.act(None, 100);
    assert_eq!(machine.last_debug_log, None);
    machine.axes[1].pto.input.counter_value = 77;
    machine.act(Some(Mutation::SetAxisSpeed { index: 1, speed: 40 }), 200);
    machine.act(Some(Mutation::SetAxisSpeed { index: 3, speed: -9 }), 300);
    assert_eq!(machine.last_debug_log, Some(200));
    assert_eq!(
        machine.notices,
        vec![Notice::AxisMoving { axis: 1, frequency_hz: 40, position: 77 }]
    );
    machine.act(None, 1_000_000_200);
    assert_eq!(machine.notices.len(), 1);
    machine.act(None, 1_000_000_201);
    assert_eq!(machine.last_debug_log, Some(1_000_000_201));
    assert_eq!(
        machine.take_notices(),
        vec![
            Notice::AxisMoving { axis: 1, frequency_hz: 40, position: 77 },
            Notice::AxisMoving { axis: 1, frequency_hz: 40, position: 77 },
            Notice::AxisMoving { axis: 3, frequency_hz: -9, position: 0 },
        ]
    );
    assert!(machine.notices.is_empty());
    machine.stop_all_axes();
    machine.act(None, 5_000_000_000);
    assert!(machine.notices.is_empty());
    assert_eq!(machine.last_debug_log, Some(1_000_000_201));
}
