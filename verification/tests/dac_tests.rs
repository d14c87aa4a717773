//! DAC framing/clamping and PWM limiter tests.

use thermostat::conv::{i_ma_to_dac, i_ma_to_pwm, v_mv_to_pwm};
use thermostat::dac::{Dacs, Pwms, MAX_VALUE, ZERO_CURRENT_CODE};

#[test]
fn dac_set_clamps_to_18_bits() {
    let mut dacs = Dacs::new();
    dacs.set(300000, 0);
    assert_eq!(dacs.val[0], 262143);
    dacs.set(262143, 1);
    assert_eq!(dacs.val[1], 262143);
    dacs.set(0, 0);
    assert_eq!(dacs.val[0], 0);
    assert_eq!(dacs.val[1], 262143);
}

#[test]
fn dac_frame_has_low_and_high_bits_clear() {
    let mut dacs = Dacs::new();
    // Code 1 sits at bit position 2 of the 24-bit frame.
    dacs.set(1, 0);
    assert_eq!(dacs.frame[0], [0x00, 0x00, 0x04]);
    // Full scale: the top four and bottom two bits stay low.
    dacs.set(MAX_VALUE, 0);
    assert_eq!(dacs.frame[0], [0x0F, 0xFF, 0xFC]);
    // A known pattern: 0x2A5A5 << 2 == 0xA9694.
    dacs.set(0x2A5A5, 1);
    assert_eq!(dacs.frame[1], [0x0A, 0x96, 0x94]);
}

#[test]
fn dacs_power_on_at_zero_current() {
    let dacs = Dacs::new();
    assert_eq!(dacs.val[0], ZERO_CURRENT_CODE);
    assert_eq!(dacs.val[1], ZERO_CURRENT_CODE);
    assert_eq!(dacs.val[0], 129988);
}

#[test]
fn current_to_dac_code_values() {
    // (3000 + i) * 262144 / 6050, exact in half-millivolts.
    assert_eq!(i_ma_to_dac(0), 129988);
    assert_eq!(i_ma_to_dac(100), 134321);
    assert_eq!(i_ma_to_dac(-100), 125655);
    assert_eq!(i_ma_to_dac(3000), 259977);
    assert_eq!(i_ma_to_dac(-3000), 0);
}

#[test]
fn duty_fraction_conversions() {
    // i / 3 A and v / 5 V, in 16 fractional bits.
    assert_eq!(i_ma_to_pwm(3000), 65536);
    assert_eq!(i_ma_to_pwm(250), 5461);
    assert_eq!(v_mv_to_pwm(5000), 65536);
    assert_eq!(v_mv_to_pwm(1000), 13107);
}

#[test]
fn pwm_set_scales_and_clamps() {
    let mut pwms = Pwms::new(10000);
    // Voltage channel: 1 V of 5 V is duty 13107/65536 of 10000.
    pwms.set(0, 1000);
    assert_eq!(pwms.duty[0], 1999);
    // Current channel: 250 mA of 3 A.
    pwms.set(2, 250);
    assert_eq!(pwms.duty[2], 833);
    // A limit above full scale rails at the counter maximum.
    pwms.set(1, 9000);
    assert_eq!(pwms.duty[1], 10000);
}

#[test]
fn pwm_set_all_orders_channels() {
    let mut pwms = Pwms::new(10000);
    pwms.set_all(250, 250, 1000, 3000, 3000, 5000);
    // Channel 0/1: voltage limits of the two thermal channels.
    assert_eq!(pwms.duty[0], 1999);
    assert_eq!(pwms.duty[1], 10000);
    // Channels 2/3: thermal channel 0 current ceilings.
    assert_eq!(pwms.duty[2], 833);
    assert_eq!(pwms.duty[3], 833);
    // Channels 4/5: thermal channel 1 current ceilings.
    assert_eq!(pwms.duty[4], 10000);
    assert_eq!(pwms.duty[5], 10000);
}
