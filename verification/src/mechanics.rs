//! Conversions between physical units and raw actuator units.
//!
//! Physical quantities (mm, mm/s, mm/s², rpm) are carried as integers in
//! thousandths of their unit, see [`Milli`]. Raw quantities are pulses and
//! pulse frequencies in Hz. Every conversion into a raw unit rounds toward
//! zero and saturates at the bounds of the raw type.
use vstd::arithmetic::div_mod::{
    lemma_div_multiples_vanish, lemma_div_pos_is_pos, lemma_fundamental_div_mod, lemma_mod_bound,
};
use vstd::prelude::*;

verus! {

/// A physical quantity in thousandths of its unit: `1500` stands for 1.5 mm,
/// 1.5 mm/s, 1.5 mm/s² or 1.5 rpm, according to the place where it is used.
pub type Milli = i64;

/// How many [`Milli`] steps make one unit.
pub const MILLI_PER_UNIT: i64 = 1000;

/// Motor pulses per revolution.
pub const PULSES_PER_REV: u32 = 200;

/// Ball screw lead: travel in mm per revolution.
pub const LEAD_MM: u32 = 10;

/// Pulses per mm of travel.
pub const PULSES_PER_MM: u32 = PULSES_PER_REV / LEAD_MM;

/// Seconds per minute, for speeds of rotation.
pub const SECONDS_PER_MINUTE: u32 = 60;

/// The quotient of `a` by a positive `b`, rounded toward zero.
pub open spec fn trunc_div(a: int, b: int) -> int {
    if a >= 0 {
        a / b
    } else {
        -((-a) / b)
    }
}

/// `x` limited to the range of `i32`.
pub open spec fn saturate_i32(x: int) -> int {
    if x < i32::MIN {
        i32::MIN as int
    } else if x > i32::MAX {
        i32::MAX as int
    } else {
        x
    }
}

/// The magnitude of `x`.
pub open spec fn magnitude(x: int) -> int {
    if x < 0 {
        -x
    } else {
        x
    }
}

/// Pulse frequency of a linear speed: `mm_per_s * PULSES_PER_MM`, toward zero.
pub open spec fn spec_mm_per_s_to_hz(mm_per_s: Milli) -> int {
    saturate_i32(trunc_div(mm_per_s * PULSES_PER_MM, MILLI_PER_UNIT as int))
}

/// Linear speed of a pulse frequency: `hz / PULSES_PER_MM`.
pub open spec fn spec_hz_to_mm_per_s(hz: i32) -> int {
    trunc_div(hz * MILLI_PER_UNIT, PULSES_PER_MM as int)
}

/// Travel of a raw pulse count: `pulses / PULSES_PER_MM`.
pub open spec fn spec_pulses_to_mm(pulses: u32) -> int {
    trunc_div(pulses * MILLI_PER_UNIT, PULSES_PER_MM as int)
}

/// Travel of a signed position in pulses: `pulses / PULSES_PER_MM`.
pub open spec fn spec_position_to_mm(pulses: i32) -> int {
    trunc_div(pulses * MILLI_PER_UNIT, PULSES_PER_MM as int)
}

/// Pulse frequency of a speed of rotation: `rpm * PULSES_PER_REV / 60`,
/// toward zero.
pub open spec fn spec_rpm_to_hz(rpm: Milli) -> int {
    saturate_i32(trunc_div(rpm * PULSES_PER_REV, SECONDS_PER_MINUTE * MILLI_PER_UNIT))
}

/// Speed of rotation of a pulse frequency: `hz * 60 / PULSES_PER_REV`.
pub open spec fn spec_hz_to_rpm(hz: i32) -> int {
    trunc_div(hz * SECONDS_PER_MINUTE * MILLI_PER_UNIT, PULSES_PER_REV as int)
}

/// Position in pulses of a position in mm: `position_mm * PULSES_PER_MM`,
/// toward zero.
pub open spec fn spec_mm_to_pulses(position_mm: Milli) -> int {
    saturate_i32(trunc_div(position_mm * PULSES_PER_MM, MILLI_PER_UNIT as int))
}

/// Pulses of a travel in mm: `distance_mm * PULSES_PER_MM`, toward zero.
pub open spec fn spec_distance_to_pulses(distance_mm: Milli) -> int {
    saturate_i32(trunc_div(distance_mm * PULSES_PER_MM, MILLI_PER_UNIT as int))
}

/// Pulse frequency of the magnitude of a linear speed, whatever its sign.
pub open spec fn spec_speed_magnitude_hz(speed_mm_s: Milli) -> int {
    saturate_i32(trunc_div(magnitude(speed_mm_s as int) * PULSES_PER_MM, MILLI_PER_UNIT as int))
}

/// Limits `x` to the range of `i32`.
pub fn saturate(x: i128) -> (r: i32)
    ensures
        r == saturate_i32(x as int),
{
    if x < -2147483648 {
        -2147483648
    } else if x > 2147483647 {
        2147483647
    } else {
        x as i32
    }
}

/// Converts a linear speed in mm/s to a pulse frequency in Hz.
pub fn mm_per_s_to_hz(mm_per_s: Milli) -> (hz: i32)
    ensures
        hz == spec_mm_per_s_to_hz(mm_per_s),
{
    let scaled: i128 = (mm_per_s as i128) * (PULSES_PER_MM as i128);
    saturate(scaled / (MILLI_PER_UNIT as i128))
}

/// Converts a pulse frequency in Hz to a linear speed in mm/s.
pub fn hz_to_mm_per_s(hz: i32) -> (mm_per_s: Milli)
    ensures
        mm_per_s == spec_hz_to_mm_per_s(hz),
{
    ((hz as i64) * MILLI_PER_UNIT) / (PULSES_PER_MM as i64)
}

/// Converts a raw pulse count to a travel in mm.
pub fn pulses_to_mm(pulses: u32) -> (mm: Milli)
    ensures
        mm == spec_pulses_to_mm(pulses),
{
    ((pulses as i64) * MILLI_PER_UNIT) / (PULSES_PER_MM as i64)
}

/// Converts a signed position in pulses to a position in mm.
pub fn position_to_mm(pulses: i32) -> (mm: Milli)
    ensures
        mm == spec_position_to_mm(pulses),
{
    ((pulses as i64) * MILLI_PER_UNIT) / (PULSES_PER_MM as i64)
}

/// Converts a speed of rotation in rpm to a pulse frequency in Hz.
pub fn rpm_to_hz(rpm: Milli) -> (hz: i32)
    ensures
        hz == spec_rpm_to_hz(rpm),
{
    let scaled: i128 = (rpm as i128) * (PULSES_PER_REV as i128);
    saturate(scaled / ((SECONDS_PER_MINUTE as i128) * (MILLI_PER_UNIT as i128)))
}

/// Converts a pulse frequency in Hz to a speed of rotation in rpm.
pub fn hz_to_rpm(hz: i32) -> (rpm: Milli)
    ensures
        rpm == spec_hz_to_rpm(hz),
{
    ((hz as i64) * (SECONDS_PER_MINUTE as i64) * MILLI_PER_UNIT) / (PULSES_PER_REV as i64)
}

/// Converts a position in mm to a position in pulses.
pub fn mm_to_pulses(position_mm: Milli) -> (pulses: i32)
    ensures
        pulses == spec_mm_to_pulses(position_mm),
{
    let scaled: i128 = (position_mm as i128) * (PULSES_PER_MM as i128);
    saturate(scaled / (MILLI_PER_UNIT as i128))
}

/// Converts a travel in mm to a number of pulses.
pub fn distance_to_pulses(distance_mm: Milli) -> (pulses: i32)
    ensures
        pulses == spec_distance_to_pulses(distance_mm),
{
    let scaled: i128 = (distance_mm as i128) * (PULSES_PER_MM as i128);
    saturate(scaled / (MILLI_PER_UNIT as i128))
}

/// Converts a linear speed in mm/s to the pulse frequency of its magnitude.
pub fn speed_magnitude_hz(speed_mm_s: Milli) -> (hz: i32)
    ensures
        hz == spec_speed_magnitude_hz(speed_mm_s),
        hz >= 0,
{
    let x: i128 = speed_mm_s as i128;
    let m: i128 = if x < 0 {
        -x
    } else {
        x
    };
    saturate((m * (PULSES_PER_MM as i128)) / (MILLI_PER_UNIT as i128))
}

/// Rounding is toward zero: the quotient never exceeds the exact ratio in
/// magnitude, misses it by less than one, and negating the dividend negates
/// the quotient.
pub proof fn lemma_trunc_div_toward_zero(a: int, b: int)
    requires
        b > 0,
    ensures
        trunc_div(-a, b) == -trunc_div(a, b),
        a >= 0 ==> 0 <= trunc_div(a, b) * b <= a < (trunc_div(a, b) + 1) * b,
        a <= 0 ==> (trunc_div(a, b) - 1) * b < a <= trunc_div(a, b) * b <= 0,
{
    let m = magnitude(a);
    let q = m / b;
    assert(m == b * q + m % b) by {
        lemma_fundamental_div_mod(m, b);
    }
    assert(0 <= m % b < b) by {
        lemma_mod_bound(m, b);
    }
    assert(q >= 0) by {
        lemma_div_pos_is_pos(m, b);
    }
    assert(q * b == b * q && (q + 1) * b == b * q + b && (q - 1) * b == b * q - b
        && (-q) * b == -(b * q) && (-q - 1) * b == -(b * q) - b) by (nonlinear_arith);
}

/// A multiple of the divisor is divided without remainder.
pub proof fn lemma_trunc_div_exact(k: int, b: int)
    requires
        b > 0,
    ensures
        trunc_div(k * b, b) == k,
{
    if k >= 0 {
        assert(k * b >= 0 && k * b == b * k) by (nonlinear_arith)
            requires
                k >= 0,
                b > 0,
        ;
        lemma_div_multiples_vanish(k, b);
    } else {
        assert(k * b < 0 && -(k * b) == b * (-k)) by (nonlinear_arith)
            requires
                k < 0,
                b > 0,
        ;
        lemma_div_multiples_vanish(-k, b);
    }
}

/// A pulse frequency in Hz is `MILLI_PER_UNIT / PULSES_PER_MM` thousandths
/// of a mm/s for each Hz, exactly.
pub proof fn lemma_hz_to_mm_per_s_exact(hz: i32)
    ensures
        spec_hz_to_mm_per_s(hz) == hz * ((MILLI_PER_UNIT as int) / (PULSES_PER_MM as int)),
{
    let step = (MILLI_PER_UNIT as int) / (PULSES_PER_MM as int);
    assert(step == 50 && PULSES_PER_MM == 20 && MILLI_PER_UNIT == 1000);
    assert(hz * MILLI_PER_UNIT == (hz * step) * PULSES_PER_MM) by (nonlinear_arith)
        requires
            step == 50 && PULSES_PER_MM == 20 && MILLI_PER_UNIT == 1000,
    ;
    lemma_trunc_div_exact(hz * step, PULSES_PER_MM as int);
}

/// A pulse frequency in Hz is `60 * MILLI_PER_UNIT / PULSES_PER_REV`
/// thousandths of an rpm for each Hz, exactly.
pub proof fn lemma_hz_to_rpm_exact(hz: i32)
    ensures
        spec_hz_to_rpm(hz) == hz * ((SECONDS_PER_MINUTE * MILLI_PER_UNIT) / (PULSES_PER_REV as int)),
{
    let step = (SECONDS_PER_MINUTE * MILLI_PER_UNIT) / (PULSES_PER_REV as int);
    assert(SECONDS_PER_MINUTE * MILLI_PER_UNIT == 60000 && step == 300 && PULSES_PER_REV == 200);
    assert(hz * SECONDS_PER_MINUTE * MILLI_PER_UNIT == (hz * step) * PULSES_PER_REV)
        by (nonlinear_arith)
        requires
            step == 300 && PULSES_PER_REV == 200 && MILLI_PER_UNIT == 1000 && SECONDS_PER_MINUTE
                == 60,
    ;
    lemma_trunc_div_exact(hz * step, PULSES_PER_REV as int);
}

/// A pulse frequency converted to mm/s and back is unchanged.
pub proof fn lemma_hz_mm_per_s_round_trip(hz: i32)
    ensures
        i64::MIN <= spec_hz_to_mm_per_s(hz) <= i64::MAX,
        spec_mm_per_s_to_hz(spec_hz_to_mm_per_s(hz) as Milli) == hz,
{
    lemma_hz_to_mm_per_s_exact(hz);
    let v = spec_hz_to_mm_per_s(hz);
    assert(PULSES_PER_MM == 20 && MILLI_PER_UNIT == 1000);
    assert(v * PULSES_PER_MM == hz * MILLI_PER_UNIT) by (nonlinear_arith)
        requires
            v == hz * 50 && PULSES_PER_MM == 20 && MILLI_PER_UNIT == 1000,
    ;
    lemma_trunc_div_exact(hz as int, MILLI_PER_UNIT as int);
}

/// A linear speed converted to Hz and back loses less than one pulse per
/// second (`MILLI_PER_UNIT / PULSES_PER_MM` thousandths of a mm/s), and what
/// comes back lies between zero and the speed that went in.
pub proof fn lemma_mm_per_s_hz_round_trip(mm_per_s: Milli)
    requires
        i32::MIN <= trunc_div(mm_per_s * PULSES_PER_MM, MILLI_PER_UNIT as int) <= i32::MAX,
    ensures
        ({
            let back = spec_hz_to_mm_per_s(spec_mm_per_s_to_hz(mm_per_s) as i32);
            let step = (MILLI_PER_UNIT as int) / (PULSES_PER_MM as int);
            &&& mm_per_s >= 0 ==> 0 <= back <= mm_per_s < back + step
            &&& mm_per_s <= 0 ==> back - step < mm_per_s <= back <= 0
        }),
{
    let hz = spec_mm_per_s_to_hz(mm_per_s);
    lemma_trunc_div_toward_zero(mm_per_s * PULSES_PER_MM, MILLI_PER_UNIT as int);
    lemma_hz_to_mm_per_s_exact(hz as i32);
    assert(MILLI_PER_UNIT == 1000 && PULSES_PER_MM == 20);
    assert(hz * MILLI_PER_UNIT == hz * 1000 && (hz + 1) * MILLI_PER_UNIT == hz * 1000 + 1000 && (hz
        - 1) * MILLI_PER_UNIT == hz * 1000 - 1000 && mm_per_s * PULSES_PER_MM == mm_per_s * 20)
        by (nonlinear_arith)
        requires
            MILLI_PER_UNIT == 1000 && PULSES_PER_MM == 20,
    ;
}

/// A pulse frequency converted to rpm and back is unchanged.
pub proof fn lemma_hz_rpm_round_trip(hz: i32)
    ensures
        i64::MIN <= spec_hz_to_rpm(hz) <= i64::MAX,
        spec_rpm_to_hz(spec_hz_to_rpm(hz) as Milli) == hz,
{
    lemma_hz_to_rpm_exact(hz);
    let v = spec_hz_to_rpm(hz);
    assert(SECONDS_PER_MINUTE * MILLI_PER_UNIT == 60000 && PULSES_PER_REV == 200);
    assert(v * PULSES_PER_REV == hz * (SECONDS_PER_MINUTE * MILLI_PER_UNIT)) by (nonlinear_arith)
        requires
            v == hz * 300 && PULSES_PER_REV == 200 && SECONDS_PER_MINUTE * MILLI_PER_UNIT == 60000,
    ;
    lemma_trunc_div_exact(hz as int, SECONDS_PER_MINUTE * MILLI_PER_UNIT);
}

/// A speed of rotation converted to Hz and back loses less than one pulse
/// per second, and what comes back lies between zero and the speed that went
/// in.
pub proof fn lemma_rpm_hz_round_trip(rpm: Milli)
    requires
        i32::MIN <= trunc_div(rpm * PULSES_PER_REV, SECONDS_PER_MINUTE * MILLI_PER_UNIT) <= i32::MAX,
    ensures
        ({
            let back = spec_hz_to_rpm(spec_rpm_to_hz(rpm) as i32);
            let step = (SECONDS_PER_MINUTE * MILLI_PER_UNIT) / (PULSES_PER_REV as int);
            &&& rpm >= 0 ==> 0 <= back <= rpm < back + step
            &&& rpm <= 0 ==> back - step < rpm <= back <= 0
        }),
{
    let unit = SECONDS_PER_MINUTE * MILLI_PER_UNIT;
    let hz = spec_rpm_to_hz(rpm);
    lemma_trunc_div_toward_zero(rpm * PULSES_PER_REV, unit);
    lemma_hz_to_rpm_exact(hz as i32);
    assert(unit == 60000 && PULSES_PER_REV == 200);
    assert(hz * unit == hz * 60000 && (hz + 1) * unit == hz * 60000 + 60000 && (hz - 1) * unit
        == hz * 60000 - 60000 && rpm * PULSES_PER_REV == rpm * 200) by (nonlinear_arith)
        requires
            unit == 60000 && PULSES_PER_REV == 200,
    ;
}

/// A conversion of a linear speed to Hz rounds toward zero: for a speed that
/// does not saturate, the frequency times `MILLI_PER_UNIT` lies between zero
/// and the scaled speed, less than one pulse per second from it; the
/// opposite speed gives the opposite frequency, unless that saturates.
pub proof fn lemma_mm_per_s_to_hz_toward_zero(mm_per_s: Milli)
    requires
        i32::MIN <= trunc_div(mm_per_s * PULSES_PER_MM, MILLI_PER_UNIT as int) <= i32::MAX,
    ensures
        ({
            let hz = spec_mm_per_s_to_hz(mm_per_s);
            let exact = mm_per_s * PULSES_PER_MM;
            &&& mm_per_s >= 0 ==> 0 <= hz * MILLI_PER_UNIT <= exact < (hz + 1) * MILLI_PER_UNIT
            &&& mm_per_s <= 0 ==> (hz - 1) * MILLI_PER_UNIT < exact <= hz * MILLI_PER_UNIT <= 0
            &&& hz > i32::MIN ==> spec_mm_per_s_to_hz((-mm_per_s) as Milli) == -hz
        }),
{
    lemma_trunc_div_toward_zero(mm_per_s * PULSES_PER_MM, MILLI_PER_UNIT as int);
    assert(MILLI_PER_UNIT == 1000 && PULSES_PER_MM == 20);
    assert(mm_per_s * PULSES_PER_MM == mm_per_s * 20) by (nonlinear_arith)
        requires
            PULSES_PER_MM == 20,
    ;
}

/// A conversion of a speed of rotation to Hz rounds toward zero, as that of
/// a linear speed does.
pub proof fn lemma_rpm_to_hz_toward_zero(rpm: Milli)
    requires
        i32::MIN <= trunc_div(rpm * PULSES_PER_REV, SECONDS_PER_MINUTE * MILLI_PER_UNIT)
            <= i32::MAX,
    ensures
        ({
            let hz = spec_rpm_to_hz(rpm);
            let exact = rpm * PULSES_PER_REV;
            let unit = SECONDS_PER_MINUTE * MILLI_PER_UNIT;
            &&& rpm >= 0 ==> 0 <= hz * unit <= exact < (hz + 1) * unit
            &&& rpm <= 0 ==> (hz - 1) * unit < exact <= hz * unit <= 0
            &&& hz > i32::MIN ==> spec_rpm_to_hz((-rpm) as Milli) == -hz
        }),
{
    lemma_trunc_div_toward_zero(rpm * PULSES_PER_REV, SECONDS_PER_MINUTE * MILLI_PER_UNIT);
    assert(SECONDS_PER_MINUTE * MILLI_PER_UNIT == 60000 && PULSES_PER_REV == 200);
    assert(rpm * PULSES_PER_REV == rpm * 200) by (nonlinear_arith)
        requires
            PULSES_PER_REV == 200,
    ;
}

/// A conversion of a position to pulses rounds toward zero, as that of a
/// linear speed does: for a position that does not saturate, the pulses
/// times `MILLI_PER_UNIT` lie between zero and the scaled position, less
/// than one pulse from it.
pub proof fn lemma_mm_to_pulses_toward_zero(position_mm: Milli)
    requires
        i32::MIN <= trunc_div(position_mm * PULSES_PER_MM, MILLI_PER_UNIT as int) <= i32::MAX,
    ensures
        ({
            let pulses = spec_mm_to_pulses(position_mm);
            let exact = position_mm * PULSES_PER_MM;
            &&& position_mm >= 0 ==> 0 <= pulses * MILLI_PER_UNIT <= exact < (pulses + 1)
                * MILLI_PER_UNIT
            &&& position_mm <= 0 ==> (pulses - 1) * MILLI_PER_UNIT < exact <= pulses
                * MILLI_PER_UNIT <= 0
            &&& pulses > i32::MIN ==> spec_mm_to_pulses((-position_mm) as Milli) == -pulses
        }),
{
    lemma_mm_per_s_to_hz_toward_zero(position_mm);
}

/// A position in pulses converted to mm and back is unchanged.
pub proof fn lemma_position_mm_round_trip(pulses: i32)
    ensures
        i64::MIN <= spec_position_to_mm(pulses) <= i64::MAX,
        spec_mm_to_pulses(spec_position_to_mm(pulses) as Milli) == pulses,
{
    lemma_hz_mm_per_s_round_trip(pulses);
}

} // verus!
