//! Run-time settings of the control core.
//!
//! The network layer (an outside collaborator) delivers a settings snapshot;
//! the settings-apply task distributes it over the devices and filters.  All
//! quantities live in integer domains: gains are fixed-point with 16
//! fractional bits, currents are in milliamperes, voltages in millivolts,
//! and the temperature set point arrives already converted to an offset in
//! the raw ADC sample domain (the transcendental temperature conversion is
//! an outside collaborator).

use vstd::prelude::*;

verus! {

/// One in the Q16 fixed-point gain representation.
pub const Q16_ONE: i64 = 65536;

/// Largest gain magnitude the filter accepts, `2^38` in Q16.
pub const GAIN_LIMIT: i64 = 274877906944;

/// Largest set-point offset magnitude: the full 24-bit ADC scale.
pub const OFFSET_LIMIT: i64 = 16777216;

/// Hard current ceiling of the TEC driver, mA.
pub const MAX_I_MA: u32 = 3000;

/// Hard voltage ceiling of the TEC driver, mV.
pub const MAX_V_MV: u32 = 5000;

/// Raw-domain offset equivalent of the 25 degree default set point, as the
/// outside temperature conversion computes it for the standard sensor
/// configuration.
pub const DEFAULT_TARGET_OFFSET: i64 = 8305552;

/// Digital filter configuration of the ADC: output data rate code, filter
/// order, enhanced-filter mode and enhanced-filter enable, written to both
/// channels' filter registers as one packed word.
#[derive(Clone, Copy)]
pub struct AdcFilterSettings {
    pub odr: u32,
    pub order: u32,
    pub enhfilt: u32,
    pub enhfilten: u32,
}

impl AdcFilterSettings {
    /// The packed filter register word:
    /// `odr | order << 4 | enhfilt << 7 | enhfilten << 10`.
    pub open spec fn spec_filtcon_word(&self) -> u32 {
        self.odr | self.order << 4u32 | self.enhfilt << 7u32 | self.enhfilten << 10u32
    }

    /// Pack the filter configuration into its register word.
    pub fn filtcon_word(&self) -> (r: u32)
        ensures
            r == self.spec_filtcon_word(),
    {
        self.odr | self.order << 4u32 | self.enhfilt << 7u32 | self.enhfilten << 10u32
    }
}

/// Per-channel control-loop settings.
#[derive(Clone, Copy)]
pub struct PidSettings {
    /// Proportional, integral and derivative gain, Q16.
    pub pid: [i64; 3],
    /// Set point, input-referred, in the raw ADC sample domain.
    pub target_offset: i64,
    /// Largest negative TEC current, mA (stored as a magnitude).
    pub max_i_neg: u32,
    /// Largest positive TEC current, mA.
    pub max_i_pos: u32,
}

impl PidSettings {
    pub open spec fn wf(&self) -> bool {
        &&& -GAIN_LIMIT <= self.pid[0] <= GAIN_LIMIT
        &&& -GAIN_LIMIT <= self.pid[1] <= GAIN_LIMIT
        &&& -GAIN_LIMIT <= self.pid[2] <= GAIN_LIMIT
        &&& -OFFSET_LIMIT <= self.target_offset <= OFFSET_LIMIT
        &&& self.max_i_neg <= MAX_I_MA
        &&& self.max_i_pos <= MAX_I_MA
    }
}

/// The full settings snapshot the network layer delivers.
#[derive(Clone, Copy)]
pub struct Settings {
    /// Telemetry cadence, seconds.
    pub telemetry_period: u32,
    /// Status indicator enable.
    pub led: bool,
    /// Manual output currents per channel, mA, driving disengaged channels.
    pub dacs: [i64; 2],
    pub pidsettings: [PidSettings; 2],
    /// Whether the filter output (rather than the manual set point) drives
    /// the DAC on each channel.
    pub engage_iir: [bool; 2],
    pub adcsettings: AdcFilterSettings,
    /// TEC voltage limit per channel, mV.
    pub max_v_tec: [u32; 2],
}

impl Settings {
    pub open spec fn wf(&self) -> bool {
        &&& 1 <= self.telemetry_period <= 3600
        &&& self.pidsettings[0].wf()
        &&& self.pidsettings[1].wf()
        &&& -(MAX_I_MA as i64) <= self.dacs[0] <= MAX_I_MA as i64
        &&& -(MAX_I_MA as i64) <= self.dacs[1] <= MAX_I_MA as i64
        &&& self.max_v_tec[0] <= MAX_V_MV
        &&& self.max_v_tec[1] <= MAX_V_MV
    }
}

impl Default for Settings {
    /// Power-on settings: telemetry every second, indicator off, both
    /// channels disengaged at zero manual current, gain-one proportional
    /// control toward the 25 degree set point, 100 mA current limits, 1 V
    /// voltage limits, 10 Hz data rate with the 16.67 SPS post-filter
    /// enabled.
    fn default() -> (r: Self)
        ensures
            r.wf(),
            r.telemetry_period == 1,
            !r.led,
            r.dacs[0] == 0 && r.dacs[1] == 0,
            !r.engage_iir[0] && !r.engage_iir[1],
            r.adcsettings.odr == 0x15,
            r.adcsettings.order == 0,
            r.adcsettings.enhfilt == 6,
            r.adcsettings.enhfilten == 1,
            r.max_v_tec[0] == 1000 && r.max_v_tec[1] == 1000,
            r.pidsettings[0].pid[0] == Q16_ONE,
            r.pidsettings[0].pid[1] == 0 && r.pidsettings[0].pid[2] == 0,
            r.pidsettings[0].target_offset == DEFAULT_TARGET_OFFSET,
            r.pidsettings[0].max_i_neg == 100 && r.pidsettings[0].max_i_pos == 100,
            r.pidsettings[1] == r.pidsettings[0],
    {
        let channel = PidSettings {
            pid: [Q16_ONE, 0, 0],
            target_offset: DEFAULT_TARGET_OFFSET,
            max_i_neg: 100,
            max_i_pos: 100,
        };
        Settings {
            telemetry_period: 1,
            led: false,
            dacs: [0, 0],
            pidsettings: [channel, channel],
            engage_iir: [false, false],
            adcsettings: AdcFilterSettings {
                odr: 0x15,  // 10 Hz output data rate
                order: 0,  // sinc5 + sinc1 filter
                enhfilt: 6,  // 16.67 SPS, 92 dB rejection, 60 ms settling
                enhfilten: 1,  // enable the post-filter
            },
            max_v_tec: [1000, 1000],
        }
    }
}

} // verus!
