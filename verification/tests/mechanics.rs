use machines::io::{counter_to_position, position_to_counter};
use machines::mechanics::{
    distance_to_pulses, hz_to_mm_per_s, hz_to_rpm, mm_per_s_to_hz, mm_to_pulses, position_to_mm,
    pulses_to_mm, rpm_to_hz, saturate, speed_magnitude_hz, LEAD_MM, MILLI_PER_UNIT, PULSES_PER_MM,
    PULSES_PER_REV,
};

#[test]
fn pulses_per_mm_is_pulses_per_rev_over_lead() {
    assert_eq!(PULSES_PER_REV, 200);
    assert_eq!(LEAD_MM, 10);
    assert_eq!(PULSES_PER_MM, 20);
    assert_eq!(MILLI_PER_UNIT, 1000);
}

#[test]
fn hz_round_trips_through_mm_per_s_at_representative_magnitudes() {
    for hz in [0, 1, 100, 4600, -1, -100, -4600] {
        assert_eq!(mm_per_s_to_hz(hz_to_mm_per_s(hz)), hz);
    }
    assert_eq!(hz_to_mm_per_s(0), 0);
    assert_eq!(hz_to_mm_per_s(1), 50);
    assert_eq!(hz_to_mm_per_s(100), 5_000);
    assert_eq!(hz_to_mm_per_s(4600), 230_000);
}

#[test]
fn mm_per_s_round_trips_through_hz_within_one_pulse() {
    for speed in [0i64, 1, 49, 50, 1_049, 5_000, 230_000, 230_049, -1, -49, -1_049, -230_049] {
        let back = hz_to_mm_per_s(mm_per_s_to_hz(speed));
        assert!((speed - back).abs() < 50);
        assert!(back.abs() <= speed.abs());
    }
}

#[test]
fn mm_per_s_to_hz_rounds_toward_zero() {
    assert_eq!(mm_per_s_to_hz(1_049), 20);
    assert_eq!(mm_per_s_to_hz(-1_049), -20);
    assert_eq!(mm_per_s_to_hz(1_999), 39);
    assert_eq!(mm_per_s_to_hz(-1_999), -39);
    assert_eq!(mm_per_s_to_hz(49), 0);
    assert_eq!(mm_per_s_to_hz(-49), 0);
    assert_eq!(mm_per_s_to_hz(50), 1);
    assert_eq!(mm_per_s_to_hz(-50), -1);
    assert_eq!(mm_per_s_to_hz(15_000), 300);
    assert_eq!(mm_per_s_to_hz(230_000), 4600);
}

#[test]
fn mm_per_s_to_hz_saturates() {
    assert_eq!(mm_per_s_to_hz(i64::MAX), i32::MAX);
    assert_eq!(mm_per_s_to_hz(i64::MIN), i32::MIN);
    assert_eq!(mm_per_s_to_hz(107_374_182_350), i32::MAX);
    assert_eq!(mm_per_s_to_hz(107_374_182_349), i32::MAX - 1);
    assert_eq!(mm_per_s_to_hz(-107_374_182_400), i32::MIN);
    assert_eq!(mm_per_s_to_hz(-107_374_182_399), i32::MIN + 1);
}

#[test]
fn rpm_conversions() {
    assert_eq!(rpm_to_hz(0), 0);
    assert_eq!(rpm_to_hz(60_000), 200);
    assert_eq!(rpm_to_hz(100_000), 333);
    assert_eq!(rpm_to_hz(-100_000), -333);
    assert_eq!(rpm_to_hz(299), 0);
    assert_eq!(rpm_to_hz(300), 1);
    assert_eq!(rpm_to_hz(-299), 0);
    assert_eq!(rpm_to_hz(i64::MAX), i32::MAX);
    assert_eq!(rpm_to_hz(i64::MIN), i32::MIN);
    assert_eq!(hz_to_rpm(0), 0);
    assert_eq!(hz_to_rpm(1), 300);
    assert_eq!(hz_to_rpm(200), 60_000);
    assert_eq!(hz_to_rpm(333), 99_900);
    assert_eq!(hz_to_rpm(-200), -60_000);
    for hz in [0, 1, 100, 4600, -4600, i32::MAX, i32::MIN] {
        assert_eq!(rpm_to_hz(hz_to_rpm(hz)), hz);
    }
}

#[test]
fn pulses_to_mm_divides_by_pulses_per_mm() {
    assert_eq!(pulses_to_mm(0), 0);
    assert_eq!(pulses_to_mm(1), 50);
    assert_eq!(pulses_to_mm(4600), 230_000);
    assert_eq!(pulses_to_mm(u32::MAX), 214_748_364_750);
    assert_eq!(position_to_mm(-40), -2_000);
    assert_eq!(position_to_mm(160), 8_000);
    assert_eq!(position_to_mm(i32::MIN), -107_374_182_400);
}

#[test]
fn mm_to_pulses_rounds_toward_zero() {
    assert_eq!(mm_to_pulses(0), 0);
    assert_eq!(mm_to_pulses(230_000), 4600);
    assert_eq!(mm_to_pulses(50_000), 1000);
    assert_eq!(mm_to_pulses(10_750), 215);
    assert_eq!(mm_to_pulses(10_450), 209);
    assert_eq!(mm_to_pulses(10_499), 209);
    assert_eq!(mm_to_pulses(49), 0);
    assert_eq!(mm_to_pulses(50), 1);
    assert_eq!(mm_to_pulses(499), 9);
    assert_eq!(mm_to_pulses(500), 10);
    assert_eq!(mm_to_pulses(1_499), 29);
    assert_eq!(mm_to_pulses(1_500), 30);
    assert_eq!(mm_to_pulses(-49), 0);
    assert_eq!(mm_to_pulses(-50), -1);
    assert_eq!(mm_to_pulses(-499), -9);
    assert_eq!(mm_to_pulses(-1_500), -30);
    assert_eq!(mm_to_pulses(-10_750), -215);
    assert_eq!(mm_to_pulses(-10_799), -215);
    assert_eq!(mm_to_pulses(i64::MAX), i32::MAX);
    assert_eq!(mm_to_pulses(i64::MIN), i32::MIN);
}

#[test]
fn position_round_trips_through_mm() {
    for pulses in [0, 1, 215, 209, 4600, -1, -215, i32::MAX, i32::MIN] {
        assert_eq!(mm_to_pulses(position_to_mm(pulses)), pulses);
    }
    for position in [0i64, 1, 49, 10_750, 10_799, 230_000, -1, -49, -10_799] {
        let back = position_to_mm(mm_to_pulses(position));
        assert!((position - back).abs() < 50);
        assert!(back.abs() <= position.abs());
    }
}

#[test]
fn distance_and_speed_magnitude() {
    assert_eq!(distance_to_pulses(2_000), 40);
    assert_eq!(distance_to_pulses(2_049), 40);
    assert_eq!(distance_to_pulses(-2_049), -40);
    assert_eq!(speed_magnitude_hz(10_000), 200);
    assert_eq!(speed_magnitude_hz(-10_000), 200);
    assert_eq!(speed_magnitude_hz(0), 0);
    assert_eq!(speed_magnitude_hz(-49), 0);
    assert_eq!(speed_magnitude_hz(i64::MIN), i32::MAX);
    assert_eq!(speed_magnitude_hz(i64::MAX), i32::MAX);
}

#[test]
fn saturate_limits_to_i32() {
    assert_eq!(saturate(0), 0);
    assert_eq!(saturate(2_147_483_647), i32::MAX);
    assert_eq!(saturate(2_147_483_648), i32::MAX);
    assert_eq!(saturate(-2_147_483_648), i32::MIN);
    assert_eq!(saturate(-2_147_483_649), i32::MIN);
    assert_eq!(saturate(i128::MAX), i32::MAX);
    assert_eq!(saturate(i128::MIN), i32::MIN);
}

#[test]
fn counter_values_stand_for_signed_positions() {
    assert_eq!(counter_to_position(0), 0);
    assert_eq!(counter_to_position(500), 500);
    assert_eq!(counter_to_position(0x7fff_ffff), i32::MAX);
    assert_eq!(counter_to_position(0x8000_0000), i32::MIN);
    assert_eq!(counter_to_position(0xffff_fff0), -16);
    assert_eq!(counter_to_position(u32::MAX), -1);
    assert_eq!(position_to_counter(0), 0);
    assert_eq!(position_to_counter(4600), 4600);
    assert_eq!(position_to_counter(-16), 0xffff_fff0);
    assert_eq!(position_to_counter(-1), u32::MAX);
    assert_eq!(position_to_counter(i32::MIN), 0x8000_0000);
    for counter in [0u32, 1, 4600, 0x7fff_ffff, 0x8000_0000, u32::MAX] {
        assert_eq!(position_to_counter(counter_to_position(counter)), counter);
        assert_eq!(counter_to_position(counter), counter as i32);
    }
}
