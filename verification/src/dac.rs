//! DAC/TEC driver: word framing, output clamping and analog-limit PWM
//! mapping.
//!
//! Each of the two DAC channels takes a 24-bit frame in which the 18
//! significant bits occupy bit positions 2 through 19; the bottom two and
//! top four bits stay low.  The device has no read-back, so the last
//! commanded code is the authoritative output state.  Six PWM channels set
//! analog current/voltage ceilings for the actuator driver, a safety layer
//! independent of the digital control path.
//!
//! On hardware every frame goes out over its own serial bus and the
//! chip-select line must stay deasserted for the device's minimum pulse
//! width (at least 33 ns, enforced by a busy wait); that timing lives in
//! the hardware glue outside the library.

use vstd::prelude::*;

verus! {

use crate::conv::{
    i_ma_to_dac,
    i_ma_to_pwm,
    spec_i_ma_to_dac,
    spec_i_ma_to_pwm,
    spec_v_mv_to_pwm,
    v_mv_to_pwm,
};

/// Largest DAC code: the full 18-bit output range.
pub const MAX_VALUE: u32 = 0x3FFFF;

/// Code asking the TEC driver for zero current: `spec_i_ma_to_dac(0)`,
/// slightly off the 17-bit midpoint because of the driver's reference
/// offset.
pub const ZERO_CURRENT_CODE: u32 = 129988;

/// The commanded code after clamping to the 18-bit range.
pub open spec fn clamped_code(value: u32) -> u32 {
    if value > MAX_VALUE {
        MAX_VALUE
    } else {
        value
    }
}

/// First frame byte: code bits 17..=14.
pub open spec fn frame_b0(v: u32) -> u8 {
    (v >> 14u32) as u8
}

/// Middle frame byte: code bits 13..=6.
pub open spec fn frame_b1(v: u32) -> u8 {
    (v >> 6u32) as u8
}

/// Last frame byte: code bits 5..=0 shifted up, low two bits zero.
pub open spec fn frame_b2(v: u32) -> u8 {
    (v << 2u32) as u8
}

/// Framing law: for a clamped code the three bytes spell the 24-bit word
/// `code << 2` — the 18 significant bits sit at positions 2..=19, the top
/// four and bottom two bits are low.
pub proof fn lemma_dac_frame(v: u32)
    requires
        v <= MAX_VALUE,
    ensures
        frame_b0(v) as int * 65536 + frame_b1(v) as int * 256 + frame_b2(v) as int == v as int
            * 4,
        frame_b0(v) < 16,
        frame_b2(v) & 3 == 0,
{
    assert(((v >> 14u32) as u8) as int * 65536 + ((v >> 6u32) as u8) as int * 256 + ((v
        << 2u32) as u8) as int == v as int * 4 && ((v >> 14u32) as u8) < 16 && ((v
        << 2u32) as u8) & 3 == 0) by (bit_vector)
        requires
            v <= 0x3FFFF,
    ;
}

/// Two-channel DAC.  `set` clamps the code, frames it and records it; the
/// recorded value is what the control loop and the telemetry read back.
pub struct Dacs {
    /// Last commanded code per channel.
    pub val: [u32; 2],
    /// Last transmitted frame per channel.
    pub frame: [[u8; 3]; 2],
}

impl Dacs {
    pub open spec fn wf(&self) -> bool {
        &&& self.val[0] <= MAX_VALUE
        &&& self.val[1] <= MAX_VALUE
    }

    /// Whether the stored state of channel `ch` commands `value`.
    pub open spec fn channel_set(&self, ch: int, value: u32) -> bool {
        &&& self.val[ch] == clamped_code(value)
        &&& self.frame[ch][0] == frame_b0(clamped_code(value))
        &&& self.frame[ch][1] == frame_b1(clamped_code(value))
        &&& self.frame[ch][2] == frame_b2(clamped_code(value))
    }

    /// Both channels start at the zero-current code, as the power-on
    /// sequence commands.
    pub fn new() -> (r: Dacs)
        ensures
            r.wf(),
            r.channel_set(0, ZERO_CURRENT_CODE),
            r.channel_set(1, ZERO_CURRENT_CODE),
            r.val[0] == spec_i_ma_to_dac(0),
            r.val[1] == spec_i_ma_to_dac(0),
    {
        proof {
            assert(spec_i_ma_to_dac(0) == 129988);
        }
        let zero = i_ma_to_dac(0);
        let mut dacs = Dacs { val: [0, 0], frame: [[0, 0, 0], [0, 0, 0]] };
        dacs.set(zero, 0);
        dacs.set(zero, 1);
        dacs
    }

    /// Set the output code of one channel: clamp to the 18-bit range, frame
    /// and record.  Channel numbers other than zero address channel one, as
    /// the hardware wiring does.
    pub fn set(&mut self, value: u32, ch: u8)
        requires
            old(self).wf(),
        ensures
            final(self).wf(),
            ch == 0 ==> final(self).channel_set(0, value) && final(self).val[1] == old(
                self,
            ).val[1] && final(self).frame[1] == old(self).frame[1],
            ch != 0 ==> final(self).channel_set(1, value) && final(self).val[0] == old(
                self,
            ).val[0] && final(self).frame[0] == old(self).frame[0],
    {
        let v = if value > MAX_VALUE {
            MAX_VALUE
        } else {
            value
        };
        // 24-bit frame: the top four and bottom two bits stay low.
        let frame: [u8; 3] = [(v >> 14u32) as u8, (v >> 6u32) as u8, (v << 2u32) as u8];
        if ch == 0 {
            let v1 = self.val[1];
            let f1 = self.frame[1];
            self.val = [v, v1];
            self.frame = [frame, f1];
        } else {
            let v0 = self.val[0];
            let f0 = self.frame[0];
            self.val = [v0, v];
            self.frame = [f0, frame];
        }
    }
}

/// Six-channel PWM limiter.  Channels 0 and 1 carry the voltage ceilings of
/// the two thermal channels; 2 and 3 the positive/negative current ceiling
/// of thermal channel 0; 4 and 5 those of thermal channel 1.  The mapping
/// is fixed at initialization and the PWM hardware free-runs once
/// configured.
pub struct Pwms {
    /// Duty register per channel.
    pub duty: Vec<u16>,
    /// Full-scale duty of the PWM counter.
    pub max_duty: u16,
}

/// Duty register value for a duty fraction of `duty_q16` (16 fractional
/// bits), clamped to the counter's full scale.
pub open spec fn pwm_value(duty_q16: int, max: int) -> int {
    if duty_q16 * max / 65536 > max {
        max
    } else {
        duty_q16 * max / 65536
    }
}

/// Duty register value limiting channel `ch` to the physical quantity
/// `value`: millivolts on the voltage channels, milliamperes on the
/// current channels.
pub open spec fn limit_duty(ch: int, value: int, max: int) -> int {
    if ch < 2 {
        pwm_value(spec_v_mv_to_pwm(value), max)
    } else {
        pwm_value(spec_i_ma_to_pwm(value), max)
    }
}

impl Pwms {
    pub open spec fn wf(&self) -> bool {
        &&& self.duty@.len() == 6
        &&& self.max_duty >= 1
    }

    /// All limiter outputs start at zero duty, as the power-on sequence
    /// commands.
    pub fn new(max_duty: u16) -> (r: Pwms)
        requires
            max_duty >= 1,
        ensures
            r.wf(),
            r.max_duty == max_duty,
            forall|i: int| 0 <= i < 6 ==> r.duty@[i] == 0,
    {
        let mut duty: Vec<u16> = Vec::new();
        let mut i: usize = 0;
        while i < 6
            invariant
                duty@.len() == i,
                i <= 6,
                forall|j: int| 0 <= j < i ==> duty@[j] == 0,
            decreases 6 - i,
        {
            duty.push(0);
            i = i + 1;
        }
        Pwms { duty, max_duty }
    }

    /// Limit channel `ch` to the physical quantity `value`: convert to a
    /// duty fraction, clamp to the counter's full scale, write the duty
    /// register.
    pub fn set(&mut self, ch: u8, value: u32)
        requires
            old(self).wf(),
            ch < 6,
            value <= 10000,
        ensures
            final(self).wf(),
            final(self).max_duty == old(self).max_duty,
            final(self).duty@[ch as int] == limit_duty(
                ch as int,
                value as int,
                old(self).max_duty as int,
            ),
            forall|i: int|
                0 <= i < 6 && i != ch as int ==> final(self).duty@[i] == old(self).duty@[i],
    {
        let duty_q16: u32 = if ch < 2 {
            v_mv_to_pwm(value)
        } else {
            i_ma_to_pwm(value)
        };
        proof {
            vstd::arithmetic::mul::lemma_mul_upper_bound(
                duty_q16 as int,
                0xFFFFFFFF,
                self.max_duty as int,
                0xFFFF,
            );
        }
        let scaled: u64 = duty_q16 as u64 * self.max_duty as u64 / 65536;
        let v: u16 = if scaled > self.max_duty as u64 {
            self.max_duty
        } else {
            scaled as u16
        };
        self.duty[ch as usize] = v;
    }

    /// Apply all six analog ceilings from one settings snapshot, in the
    /// fixed channel order: the two voltage limits, then the
    /// positive/negative current limits of each thermal channel.
    pub fn set_all(
        &mut self,
        min_i0: u32,
        max_i0: u32,
        max_v0: u32,
        min_i1: u32,
        max_i1: u32,
        max_v1: u32,
    )
        requires
            old(self).wf(),
            min_i0 <= 10000,
            max_i0 <= 10000,
            max_v0 <= 10000,
            min_i1 <= 10000,
            max_i1 <= 10000,
            max_v1 <= 10000,
        ensures
            final(self).wf(),
            final(self).max_duty == old(self).max_duty,
            final(self).duty@[0] == limit_duty(0, max_v0 as int, old(self).max_duty as int),
            final(self).duty@[1] == limit_duty(1, max_v1 as int, old(self).max_duty as int),
            final(self).duty@[2] == limit_duty(2, max_i0 as int, old(self).max_duty as int),
            final(self).duty@[3] == limit_duty(3, min_i0 as int, old(self).max_duty as int),
            final(self).duty@[4] == limit_duty(4, max_i1 as int, old(self).max_duty as int),
            final(self).duty@[5] == limit_duty(5, min_i1 as int, old(self).max_duty as int),
    {
        self.set(0, max_v0);
        self.set(1, max_v1);
        self.set(2, max_i0);
        self.set(3, min_i0);
        self.set(4, max_i1);
        self.set(5, min_i1);
    }
}

} // verus!

