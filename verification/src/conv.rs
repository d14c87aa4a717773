//! Integer engineering-unit conversions in the actuator domain.
//!
//! The transcendental temperature conversions are outside collaborators;
//! what the control core itself needs — current to DAC code and
//! current/voltage to PWM duty fraction — is exact integer arithmetic in
//! milliampere/millivolt units and is verified here.

use vstd::prelude::*;

verus! {

use vstd::arithmetic::div_mod::{lemma_div_is_ordered, lemma_div_pos_is_pos};

/// DAC code asking the TEC driver for a current of `i_ma` milliamperes.
///
/// The driver senses the current over a 50 milliohm resistor with a gain of
/// ten, so one milliampere is half a millivolt around the 1.5 V reference;
/// the 18-bit code spans the 3.025 V converter reference.  Computed in
/// half-millivolts, `(3000 + i_ma) * 262144 / 6050`, so the arithmetic is
/// exact.
pub open spec fn spec_i_ma_to_dac(i_ma: int) -> int {
    (3000 + i_ma) * 262144 / 6050
}

/// Duty fraction (16 fractional bits) that limits the TEC current to
/// `i_ma` milliamperes, against the driver's 3 A full scale.
pub open spec fn spec_i_ma_to_pwm(i_ma: int) -> int {
    i_ma * 65536 / 3000
}

/// Duty fraction (16 fractional bits) that limits the TEC voltage to
/// `v_mv` millivolts, against the driver's 5 V full scale.
pub open spec fn spec_v_mv_to_pwm(v_mv: int) -> int {
    v_mv * 65536 / 5000
}

/// Convert a TEC current to its DAC code.  The result always fits the
/// 18-bit output range.
pub fn i_ma_to_dac(i_ma: i64) -> (r: u32)
    requires
        -3000 <= i_ma <= 3000,
    ensures
        r == spec_i_ma_to_dac(i_ma as int),
        r <= 0x3FFFF,
{
    let half_mv: u64 = (3000 + i_ma) as u64;
    let code: u64 = half_mv * 262144 / 6050;
    proof {
        lemma_div_is_ordered(half_mv as int * 262144, 6000int * 262144, 6050);
        lemma_div_pos_is_pos(half_mv as int * 262144, 6050);
    }
    code as u32
}

/// Monotonicity of the current-to-code conversion: more current never asks
/// for a smaller code.
pub proof fn lemma_i_ma_to_dac_ordered(a: int, b: int)
    requires
        a <= b,
    ensures
        spec_i_ma_to_dac(a) <= spec_i_ma_to_dac(b),
{
    lemma_div_is_ordered((3000 + a) * 262144, (3000 + b) * 262144, 6050);
}

/// Convert a current limit to the PWM duty fraction.
pub fn i_ma_to_pwm(i_ma: u32) -> (r: u32)
    requires
        i_ma <= 10000,
    ensures
        r == spec_i_ma_to_pwm(i_ma as int),
{
    let r: u64 = i_ma as u64 * 65536 / 3000;
    proof {
        lemma_div_is_ordered(i_ma as int * 65536, 10000int * 65536, 3000);
        lemma_div_pos_is_pos(i_ma as int * 65536, 3000);
    }
    r as u32
}

/// Convert a voltage limit to the PWM duty fraction.
pub fn v_mv_to_pwm(v_mv: u32) -> (r: u32)
    requires
        v_mv <= 10000,
    ensures
        r == spec_v_mv_to_pwm(v_mv as int),
{
    let r: u64 = v_mv as u64 * 65536 / 5000;
    proof {
        lemma_div_is_ordered(v_mv as int * 65536, 10000int * 65536, 5000);
        lemma_div_pos_is_pos(v_mv as int * 65536, 5000);
    }
    r as u32
}

} // verus!
