//! Control filter tests: PID mapping, step response, anti-windup.

use thermostat::iir::{Biquad, ChannelFilter, IirCoeffs, pid_to_iir, Q_ONE};
use thermostat::settings::Q16_ONE;

fn filter_with(ba: IirCoeffs, offset: i64, y_min: i64, y_max: i64) -> ChannelFilter {
    let mut f = ChannelFilter::neutral(1);
    f.set_config(ba, offset, y_min, y_max);
    f
}

#[test]
fn pid_mapping_selects_minimal_structure() {
    // Full PID: integrator pole plus two zeros.
    let c = pid_to_iir(65536, 100, 50);
    assert_eq!(c.b0, 65686);
    assert_eq!(c.b1, -65636);
    assert_eq!(c.b2, 50);
    assert_eq!(c.a1, Q_ONE);
    assert_eq!(c.a2, 0);
    // PI.
    let c = pid_to_iir(65536, 100, 0);
    assert_eq!(c.b0, 65636);
    assert_eq!(c.b1, -65536);
    assert_eq!(c.b2, 0);
    assert_eq!(c.a1, Q_ONE);
    // PD.
    let c = pid_to_iir(65536, 0, 50);
    assert_eq!(c.b0, 65586);
    assert_eq!(c.b1, -50);
    assert_eq!(c.b2, 0);
    assert_eq!(c.a1, 0);
    // Plain P.
    let c = pid_to_iir(65536, 0, 0);
    assert_eq!(c.b0, 65536);
    assert_eq!(c.b1, 0);
    assert_eq!(c.b2, 0);
    assert_eq!(c.a1, 0);
    assert_eq!(c.a2, 0);
}

#[test]
fn pure_p_step_response_is_datawidth_gain() {
    // Unit proportional gain: steady-state output is x * 2^-6, at once and
    // with no drift over repeated constant input.
    let ba = pid_to_iir(Q16_ONE, 0, 0);
    let mut f = filter_with(ba, 0, -1000000, 1000000);
    for _ in 0..50 {
        let y = f.update(6400);
        assert_eq!(y, 100);
    }
}

#[test]
fn pure_p_gain_two() {
    let ba = pid_to_iir(2 * Q16_ONE, 0, 0);
    let mut f = filter_with(ba, 0, -1000000, 1000000);
    assert_eq!(f.update(6400), 200);
}

#[test]
fn pi_integrates_and_saturates() {
    // Zero proportional, unit integral gain: each constant input step adds
    // x * 2^-6 to the output, until the clamp stops the integration.
    let ba = pid_to_iir(0, Q16_ONE, 0);
    let mut f = filter_with(ba, 0, -250, 250);
    assert_eq!(f.update(6400), 100);
    assert_eq!(f.update(6400), 200);
    assert_eq!(f.update(6400), 250);
    assert_eq!(f.update(6400), 250);
}

#[test]
fn pd_settles_to_dc_gain() {
    // Derivative action shows only in the first step; from the moment the
    // delay line holds the constant input, the output is the DC response
    // kp * 2^-6 * x with no drift.
    let ba = pid_to_iir(Q16_ONE, 0, 64000);
    let mut f = filter_with(ba, 0, -1000000, 1000000);
    assert_eq!(f.update(6400), 197);
    assert_eq!(f.update(6400), 100);
    assert_eq!(f.update(6400), 100);
    assert_eq!(f.update(6400), 100);
}

#[test]
fn anti_windup_clamps_large_steps() {
    // A huge step drives the output to the clamp, never beyond.
    let ba = pid_to_iir(Q16_ONE, 0, 0);
    let mut f = filter_with(ba, 0, -100, 100);
    let y = f.update(1000000000);
    assert_eq!(y, 100);
    let y = f.update(0);
    assert_eq!(y, 0);
}

#[test]
fn target_offset_shifts_the_zero() {
    // A sample equal to the set-point offset reads as zero error.
    let ba = pid_to_iir(2 * Q16_ONE, 0, 0);
    let mut f = filter_with(ba, 8305552, -4333, 4333);
    assert_eq!(f.update(8305552), 0);
    // One code above the set point: 2 * 2^-6 truncates to zero; 64 codes
    // above give a clean 2-per-code response.
    assert_eq!(f.update(8305552 + 64), 2);
    assert_eq!(f.update(8305552 - 64), -2);
}

#[test]
fn biquad_update_recurrence() {
    // Direct-form recurrence with hand-picked coefficients and state.
    let ba = IirCoeffs { b0: Q_ONE, b1: Q_ONE, b2: 0, a1: 0, a2: 0 };
    let mut s = Biquad::new(ba);
    // First input: y = x (b1 sees x1 == 0).
    assert_eq!(s.update(10, -1000, 1000), 10);
    // Second input: y = x + previous x.
    assert_eq!(s.update(5, -1000, 1000), 15);
    // Delay line shifted.
    assert_eq!(s.x1, 5);
    assert_eq!(s.x2, 10);
    assert_eq!(s.y1, 15);
    assert_eq!(s.y2, 10);
}

#[test]
fn filter_state_survives_reconfiguration() {
    let ba = pid_to_iir(0, Q16_ONE, 0);
    let mut f = filter_with(ba, 0, -250, 250);
    assert_eq!(f.update(6400), 100);
    // Change gains and clamps: the integrator state stays warm.
    f.set_config(pid_to_iir(0, Q16_ONE, 0), 0, -1000, 1000);
    assert_eq!(f.update(6400), 200);
}
