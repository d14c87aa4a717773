//! Scheduler/orchestrator: the fixed task set that sequences acquisition,
//! filtering and actuation.
//!
//! On the instrument the tasks run under a single-core priority-preemptive
//! executor: the acquisition loop polls in the background context and hands
//! each completed sample pair to the compute task by value; compute,
//! settings-apply, network-poll, telemetry and the indicator blink share
//! one elevated priority tier and therefore never interleave; the Ethernet
//! interrupt sits above them all and touches no control state.  That
//! executor and the hardware it drives live outside the library.  Here
//! each task's body is a function from state and event to next state and
//! action, and every periodic task re-arms itself relative to its previous
//! deadline, so the timing grid never drifts.

use vstd::prelude::*;

verus! {

use crate::adc::{Adc, DATA, SimBus};
use crate::codec::be_val;
use crate::conv::{i_ma_to_dac, lemma_i_ma_to_dac_ordered, spec_i_ma_to_dac};
use crate::dac::{limit_duty, Dacs, Pwms, MAX_VALUE, ZERO_CURRENT_CODE};
use crate::iir::{
    cascade_next,
    cascade_out,
    input_of,
    pid_to_iir,
    spec_pid_to_iir,
    ChannelFilter,
    IIR_BOUND,
};
use crate::net::NetworkState;
use crate::pairing::SamplePairer;
use crate::sched::{DeadlineMissed, PeriodicTask};
use crate::settings::Settings;
use crate::telemetry::TelemetryBuffer;

/// Main clock frequency, cycles per second.
pub const CYC_PER_S: u64 = 168000000;

/// Status indicator blink period, cycles.
pub const LED_PERIOD: u64 = CYC_PER_S / 2;

/// Network poll period, cycles.
pub const ETH_P_PERIOD: u64 = CYC_PER_S / 1000;

/// Number of cascaded biquad sections per channel.
pub const IIR_CASCADE_LENGTH: usize = 1;

/// Margin added to the analog current ceilings over the digital clamps,
/// mA: five percent of the driver's 3 A full scale, so the hardware
/// limiter cannot rail before the digital anti-windup engages.
pub const I_MARGIN_MA: u32 = 150;

/// The DAC code commanded for a filter output: the output shifted up to
/// the zero-current code, saturated to the 18-bit range.
pub open spec fn output_code(y: i64) -> u32 {
    if y + ZERO_CURRENT_CODE < 0 {
        0
    } else if y + ZERO_CURRENT_CODE > MAX_VALUE {
        MAX_VALUE
    } else {
        (y + ZERO_CURRENT_CODE) as u32
    }
}

/// Shift a filter output to the zero-current code and saturate it to the
/// 18-bit output range — whatever the filter did, the commanded code is a
/// valid DAC word.
pub fn dac_code_for(y: i64) -> (r: u32)
    requires
        -IIR_BOUND <= y <= IIR_BOUND,
    ensures
        r == output_code(y),
        r <= MAX_VALUE,
{
    let shifted: i64 = y + ZERO_CURRENT_CODE as i64;
    if shifted < 0 {
        0
    } else if shifted > MAX_VALUE as i64 {
        MAX_VALUE
    } else {
        shifted as u32
    }
}

/// The whole instrument: devices, per-channel filters, settings, the
/// telemetry buffer, the acquisition pairer and the periodic task
/// schedules.
pub struct Thermostat {
    pub adc: Adc,
    pub dacs: Dacs,
    pub pwms: Pwms,
    pub filter0: ChannelFilter,
    pub filter1: ChannelFilter,
    pub settings: Settings,
    pub telemetry: TelemetryBuffer,
    pub pairer: SamplePairer,
    pub poll_eth_task: PeriodicTask,
    pub tele_task: PeriodicTask,
    pub blink_task: PeriodicTask,
    pub led_on: bool,
}

impl Thermostat {
    pub open spec fn wf(&self) -> bool {
        &&& self.adc.wf()
        &&& self.dacs.wf()
        &&& self.pwms.wf()
        &&& self.filter0.wf()
        &&& self.filter1.wf()
        &&& self.settings.wf()
        &&& self.poll_eth_task.wf()
        &&& self.tele_task.wf()
        &&& self.blink_task.wf()
    }

    /// The settings-apply task: distribute a snapshot over the devices and
    /// filters.  The ADC filter registers get the packed word; the PWM
    /// current ceilings sit `I_MARGIN_MA` above the digital clamps; each
    /// channel's coefficients, set point and clamp bounds are replaced
    /// while its delay line stays warm; and disengaged channels get their
    /// manual set-point code.
    pub fn settings_update(&mut self, new_settings: &Settings)
        requires
            old(self).wf(),
            new_settings.wf(),
        ensures
            final(self).wf(),
            final(self).settings == *new_settings,
            final(self).adc.bus.regs@[crate::adc::FILTCON0 as int]@ == crate::codec::be_bytes(
                new_settings.adcsettings.spec_filtcon_word() as int,
                2,
            ),
            final(self).adc.bus.regs@[crate::adc::FILTCON1 as int]@ == crate::codec::be_bytes(
                new_settings.adcsettings.spec_filtcon_word() as int,
                2,
            ),
            final(self).pwms.duty@[0] == limit_duty(
                0,
                new_settings.max_v_tec[0] as int,
                old(self).pwms.max_duty as int,
            ),
            final(self).pwms.duty@[1] == limit_duty(
                1,
                new_settings.max_v_tec[1] as int,
                old(self).pwms.max_duty as int,
            ),
            final(self).pwms.duty@[2] == limit_duty(
                2,
                new_settings.pidsettings[0].max_i_pos + I_MARGIN_MA,
                old(self).pwms.max_duty as int,
            ),
            final(self).pwms.duty@[3] == limit_duty(
                3,
                new_settings.pidsettings[0].max_i_neg + I_MARGIN_MA,
                old(self).pwms.max_duty as int,
            ),
            final(self).pwms.duty@[4] == limit_duty(
                4,
                new_settings.pidsettings[1].max_i_pos + I_MARGIN_MA,
                old(self).pwms.max_duty as int,
            ),
            final(self).pwms.duty@[5] == limit_duty(
                5,
                new_settings.pidsettings[1].max_i_neg + I_MARGIN_MA,
                old(self).pwms.max_duty as int,
            ),
            final(self).filter0.iir@[0].ba == spec_pid_to_iir(
                new_settings.pidsettings[0].pid[0],
                new_settings.pidsettings[0].pid[1],
                new_settings.pidsettings[0].pid[2],
            ),
            final(self).filter1.iir@[0].ba == spec_pid_to_iir(
                new_settings.pidsettings[1].pid[0],
                new_settings.pidsettings[1].pid[1],
                new_settings.pidsettings[1].pid[2],
            ),
            final(self).filter0.target_offset == new_settings.pidsettings[0].target_offset,
            final(self).filter1.target_offset == new_settings.pidsettings[1].target_offset,
            final(self).filter0.y_min == spec_i_ma_to_dac(
                -(new_settings.pidsettings[0].max_i_neg as int),
            ) - ZERO_CURRENT_CODE,
            final(self).filter0.y_max == spec_i_ma_to_dac(
                new_settings.pidsettings[0].max_i_pos as int,
            ) - ZERO_CURRENT_CODE,
            final(self).filter1.y_min == spec_i_ma_to_dac(
                -(new_settings.pidsettings[1].max_i_neg as int),
            ) - ZERO_CURRENT_CODE,
            final(self).filter1.y_max == spec_i_ma_to_dac(
                new_settings.pidsettings[1].max_i_pos as int,
            ) - ZERO_CURRENT_CODE,
            // The delay lines stay warm across the change.
            final(self).filter0.iir@[0].x1 == old(self).filter0.iir@[0].x1,
            final(self).filter0.iir@[0].y1 == old(self).filter0.iir@[0].y1,
            final(self).filter1.iir@[0].x1 == old(self).filter1.iir@[0].x1,
            final(self).filter1.iir@[0].y1 == old(self).filter1.iir@[0].y1,
            // Disengaged channels take their manual set point; engaged
            // channels keep driving the filter output.
            !new_settings.engage_iir[0] ==> final(self).dacs.val[0] == spec_i_ma_to_dac(
                new_settings.dacs[0] as int,
            ),
            !new_settings.engage_iir[1] ==> final(self).dacs.val[1] == spec_i_ma_to_dac(
                new_settings.dacs[1] as int,
            ),
            new_settings.engage_iir[0] ==> final(self).dacs.val[0] == old(self).dacs.val[0],
            new_settings.engage_iir[1] ==> final(self).dacs.val[1] == old(self).dacs.val[1],
            final(self).telemetry == old(self).telemetry,
            final(self).pairer.buffered_ch1 == old(self).pairer.buffered_ch1,
            final(self).poll_eth_task == old(self).poll_eth_task,
            final(self).tele_task == old(self).tele_task,
            final(self).blink_task == old(self).blink_task,
            final(self).led_on == old(self).led_on,
            final(self).adc.bus.sample_ready == old(self).adc.bus.sample_ready,
            final(self).pwms.max_duty == old(self).pwms.max_duty,
    {
        self.settings = *new_settings;
        self.adc.set_filters(new_settings.adcsettings);
        // Analog ceilings five percent of full scale above the digital
        // clamps.
        self.pwms.set_all(
            new_settings.pidsettings[0].max_i_neg + I_MARGIN_MA,
            new_settings.pidsettings[0].max_i_pos + I_MARGIN_MA,
            new_settings.max_v_tec[0],
            new_settings.pidsettings[1].max_i_neg + I_MARGIN_MA,
            new_settings.pidsettings[1].max_i_pos + I_MARGIN_MA,
            new_settings.max_v_tec[1],
        );
        let p0 = new_settings.pidsettings[0];
        let ba0 = pid_to_iir(p0.pid[0], p0.pid[1], p0.pid[2]);
        let y_min0 = i_ma_to_dac(-(p0.max_i_neg as i64)) as i64 - ZERO_CURRENT_CODE as i64;
        let y_max0 = i_ma_to_dac(p0.max_i_pos as i64) as i64 - ZERO_CURRENT_CODE as i64;
        proof {
            lemma_i_ma_to_dac_ordered(-(p0.max_i_neg as int), p0.max_i_pos as int);
        }
        self.filter0.set_config(ba0, p0.target_offset, y_min0, y_max0);
        let p1 = new_settings.pidsettings[1];
        let ba1 = pid_to_iir(p1.pid[0], p1.pid[1], p1.pid[2]);
        let y_min1 = i_ma_to_dac(-(p1.max_i_neg as i64)) as i64 - ZERO_CURRENT_CODE as i64;
        let y_max1 = i_ma_to_dac(p1.max_i_pos as i64) as i64 - ZERO_CURRENT_CODE as i64;
        proof {
            lemma_i_ma_to_dac_ordered(-(p1.max_i_neg as int), p1.max_i_pos as int);
        }
        self.filter1.set_config(ba1, p1.target_offset, y_min1, y_max1);
        if !new_settings.engage_iir[0] {
            let code = i_ma_to_dac(new_settings.dacs[0]);
            self.dacs.set(code, 0);
        }
        if !new_settings.engage_iir[1] {
            let code = i_ma_to_dac(new_settings.dacs[1]);
            self.dacs.set(code, 1);
        }
    }

    /// The compute task: consume one sample pair, advance each channel's
    /// filter, drive engaged channels' DACs with the saturated, offset
    /// output, and record the cycle in the telemetry buffer.
    pub fn process(&mut self, adcdata: [u32; 2])
        requires
            old(self).wf(),
        ensures
            final(self).wf(),
            ({
                let y0 = cascade_out(
                    old(self).filter0.iir@,
                    input_of(adcdata[0], old(self).filter0.target_offset),
                    old(self).filter0.y_min,
                    old(self).filter0.y_max,
                );
                let y1 = cascade_out(
                    old(self).filter1.iir@,
                    input_of(adcdata[1], old(self).filter1.target_offset),
                    old(self).filter1.y_min,
                    old(self).filter1.y_max,
                );
                &&& final(self).filter0.iir@ == cascade_next(
                    old(self).filter0.iir@,
                    input_of(adcdata[0], old(self).filter0.target_offset),
                    old(self).filter0.y_min,
                    old(self).filter0.y_max,
                )
                &&& final(self).filter1.iir@ == cascade_next(
                    old(self).filter1.iir@,
                    input_of(adcdata[1], old(self).filter1.target_offset),
                    old(self).filter1.y_min,
                    old(self).filter1.y_max,
                )
                &&& old(self).filter0.y_min <= y0 <= old(self).filter0.y_max
                &&& old(self).filter1.y_min <= y1 <= old(self).filter1.y_max
                &&& (old(self).settings.engage_iir[0] ==> final(self).dacs.val[0]
                    == output_code(y0))
                &&& (old(self).settings.engage_iir[1] ==> final(self).dacs.val[1]
                    == output_code(y1))
            }),
            !old(self).settings.engage_iir[0] ==> final(self).dacs.val[0] == old(self).dacs.val[0],
            !old(self).settings.engage_iir[1] ==> final(self).dacs.val[1] == old(self).dacs.val[1],
            final(self).dacs.val[0] <= MAX_VALUE && final(self).dacs.val[1] <= MAX_VALUE,
            final(self).telemetry.adcs == adcdata,
            final(self).telemetry.dacs == final(self).dacs.val,
            final(self).settings == old(self).settings,
            final(self).filter0.target_offset == old(self).filter0.target_offset,
            final(self).filter0.y_min == old(self).filter0.y_min,
            final(self).filter0.y_max == old(self).filter0.y_max,
            final(self).filter1.target_offset == old(self).filter1.target_offset,
            final(self).filter1.y_min == old(self).filter1.y_min,
            final(self).filter1.y_max == old(self).filter1.y_max,
            final(self).poll_eth_task == old(self).poll_eth_task,
            final(self).tele_task == old(self).tele_task,
            final(self).blink_task == old(self).blink_task,
            final(self).pairer.buffered_ch1 == old(self).pairer.buffered_ch1,
    {
        let y0 = self.filter0.update(adcdata[0]);
        let y1 = self.filter1.update(adcdata[1]);
        if self.settings.engage_iir[0] {
            let code = dac_code_for(y0);
            self.dacs.set(code, 0);
        }
        if self.settings.engage_iir[1] {
            let code = dac_code_for(y1);
            self.dacs.set(code, 1);
        }
        let commanded = self.dacs.val;
        self.telemetry.record(adcdata, commanded);
    }

    /// One turn of the acquisition loop: poll the status byte and, when a
    /// conversion is ready, read the data word and hand it to the pairer.
    /// The returned pair, if any, is the one message the compute task
    /// receives.  The converter's channel 1 completes a round because it
    /// is the instrument's logical channel 0.
    pub fn poll_adc(&mut self) -> (r: Option<[u32; 2]>)
        requires
            old(self).wf(),
        ensures
            final(self).wf(),
            !old(self).adc.bus.sample_ready ==> r is None && final(self).pairer.buffered_ch1
                == old(self).pairer.buffered_ch1 && final(self).adc.bus.regs@ == old(self).adc.bus.regs@ && !final(self).adc.bus.sample_ready,
            old(self).adc.bus.sample_ready ==> ({
                let w = be_val(old(self).adc.reg_read(DATA, 4)) as u32;
                &&& !final(self).adc.bus.sample_ready
                &&& final(self).adc.bus.regs@ == old(self).adc.bus.regs@
                &&& (w & 3 == 0 ==> r is None && final(self).pairer.buffered_ch1 == w >> 8u32)
                &&& (w & 3 != 0 ==> r == Some(
                    [w >> 8u32, old(self).pairer.buffered_ch1],
                ) && final(self).pairer.buffered_ch1 == old(self).pairer.buffered_ch1)
            }),
            final(self).dacs == old(self).dacs,
            final(self).filter0 == old(self).filter0,
            final(self).filter1 == old(self).filter1,
            final(self).settings == old(self).settings,
            final(self).telemetry == old(self).telemetry,
            final(self).poll_eth_task == old(self).poll_eth_task,
            final(self).tele_task == old(self).tele_task,
            final(self).blink_task == old(self).blink_task,
    {
        let status = self.adc.get_status_reg();
        if status != 0xFF {
            proof {
                let w = be_val(old(self).adc.reg_read(DATA, 4)) as u32;
                assert(w & 3 < 4) by (bit_vector);
            }
            let (data, ch) = self.adc.read_data();
            self.pairer.on_sample(data, ch)
        } else {
            None
        }
    }

    /// The network-poll task: act on one poll outcome and re-arm one poll
    /// period ahead of the previous deadline.  A changed settings snapshot
    /// is applied before the task yields; the other outcomes touch
    /// nothing.  `Ok(true)` reports that settings were applied.
    pub fn poll_eth_step(&mut self, state: NetworkState, snapshot: &Settings, now: u64) -> (r:
        Result<bool, DeadlineMissed>)
        requires
            old(self).wf(),
            snapshot.wf(),
            old(self).poll_eth_task.period == ETH_P_PERIOD,
            old(self).poll_eth_task.deadline + ETH_P_PERIOD <= u64::MAX,
        ensures
            final(self).wf(),
            r is Ok <==> old(self).poll_eth_task.deadline + old(self).poll_eth_task.period
                >= now,
            r is Ok ==> r == Ok::<bool, DeadlineMissed>(state is SettingsChanged)
                && final(self).poll_eth_task.deadline == old(self).poll_eth_task.deadline
                + old(self).poll_eth_task.period,
            r is Err ==> final(self).poll_eth_task == old(self).poll_eth_task,
            state is SettingsChanged ==> final(self).settings == *snapshot,
            !(state is SettingsChanged) ==> final(self).settings == old(self).settings
                && final(self).dacs == old(self).dacs && final(self).filter0 == old(self).filter0 && final(self).filter1 == old(self).filter1,
            final(self).telemetry == old(self).telemetry,
            final(self).tele_task == old(self).tele_task,
            final(self).blink_task == old(self).blink_task,
    {
        let applied = match state {
            NetworkState::SettingsChanged => {
                self.settings_update(snapshot);
                true
            },
            NetworkState::Updated => false,
            NetworkState::NoChange => false,
        };
        match self.poll_eth_task.rearm(now) {
            Ok(()) => Ok(applied),
            Err(e) => Err(e),
        }
    }

    /// The telemetry task: snapshot the buffer for the outside publisher
    /// and re-arm at the cadence the settings currently ask for.  The
    /// published values are raw; unit conversion happens in the reporting
    /// layer.
    pub fn tele_step(&mut self, now: u64) -> (r: Result<TelemetryBuffer, DeadlineMissed>)
        requires
            old(self).wf(),
            old(self).tele_task.deadline + old(self).settings.telemetry_period * CYC_PER_S
                <= u64::MAX,
        ensures
            final(self).wf(),
            r is Ok <==> old(self).tele_task.deadline + old(self).settings.telemetry_period
                * CYC_PER_S >= now,
            r is Ok ==> r == Ok::<TelemetryBuffer, DeadlineMissed>(old(self).telemetry)
                && final(self).tele_task.deadline == old(self).tele_task.deadline + old(self).settings.telemetry_period * CYC_PER_S,
            r is Err ==> final(self).tele_task.deadline == old(self).tele_task.deadline,
            final(self).telemetry == old(self).telemetry,
            final(self).settings == old(self).settings,
            final(self).dacs == old(self).dacs,
            final(self).poll_eth_task == old(self).poll_eth_task,
            final(self).blink_task == old(self).blink_task,
    {
        let period: u64 = self.settings.telemetry_period as u64 * CYC_PER_S;
        let snapshot = self.telemetry;
        match self.tele_task.rearm_with(period, now) {
            Ok(()) => Ok(snapshot),
            Err(e) => Err(e),
        }
    }

    /// The housekeeping task: toggle the status indicator and re-arm half
    /// a second ahead.  Returns the new indicator state for the hardware
    /// pin driver.
    pub fn blink_step(&mut self, now: u64) -> (r: Result<bool, DeadlineMissed>)
        requires
            old(self).wf(),
            old(self).blink_task.deadline + LED_PERIOD <= u64::MAX,
            old(self).blink_task.period == LED_PERIOD,
        ensures
            final(self).wf(),
            final(self).led_on == !old(self).led_on,
            r is Ok <==> old(self).blink_task.deadline + LED_PERIOD >= now,
            r is Ok ==> r == Ok::<bool, DeadlineMissed>(!old(self).led_on) && final(self).blink_task.deadline == old(self).blink_task.deadline + LED_PERIOD,
            r is Err ==> final(self).blink_task == old(self).blink_task,
            final(self).settings == old(self).settings,
            final(self).telemetry == old(self).telemetry,
            final(self).dacs == old(self).dacs,
            final(self).poll_eth_task == old(self).poll_eth_task,
            final(self).tele_task == old(self).tele_task,
    {
        self.led_on = !self.led_on;
        let led = self.led_on;
        match self.blink_task.rearm(now) {
            Ok(()) => Ok(led),
            Err(e) => Err(e),
        }
    }
}

/// Bring the instrument up: run the ADC initialization protocol, park
/// both DAC channels at the zero-current code, zero the PWM ceilings,
/// give each channel a neutral pass-through filter with wide-open
/// clamps, load the power-on settings and arm the periodic tasks one
/// period after `start`.  The boot sequence then applies the settings
/// snapshot through `settings_update`, scheduled as the first task after
/// initialization.
pub fn setup(start: u64, max_duty: u16) -> (r: Thermostat)
    requires
        max_duty >= 1,
        start + CYC_PER_S <= u64::MAX,
    ensures
        r.wf(),
        r.dacs.val[0] == ZERO_CURRENT_CODE,
        r.dacs.val[1] == ZERO_CURRENT_CODE,
        forall|i: int| 0 <= i < 6 ==> r.pwms.duty@[i] == 0,
        r.filter0.target_offset == 0 && r.filter1.target_offset == 0,
        !r.settings.engage_iir[0] && !r.settings.engage_iir[1],
        r.pairer.buffered_ch1 == 0,
        r.poll_eth_task.deadline == start + ETH_P_PERIOD,
        r.poll_eth_task.period == ETH_P_PERIOD,
        r.tele_task.deadline == start + CYC_PER_S,
        r.tele_task.period == CYC_PER_S,
        r.blink_task.deadline == start + LED_PERIOD,
        r.blink_task.period == LED_PERIOD,
        !r.led_on,
{
    proof {
        assert(spec_i_ma_to_dac(0) == 129988);
    }
    let adc = Adc::new(SimBus::new());
    let dacs = Dacs::new();
    let pwms = Pwms::new(max_duty);
    let filter0 = ChannelFilter::neutral(IIR_CASCADE_LENGTH);
    let filter1 = ChannelFilter::neutral(IIR_CASCADE_LENGTH);
    Thermostat {
        adc,
        dacs,
        pwms,
        filter0,
        filter1,
        settings: Settings::default(),
        telemetry: TelemetryBuffer::default(),
        pairer: SamplePairer::new(),
        poll_eth_task: PeriodicTask::new(start, ETH_P_PERIOD),
        tele_task: PeriodicTask::new(start, CYC_PER_S),
        blink_task: PeriodicTask::new(start, LED_PERIOD),
        led_on: false,
    }
}


} // verus!
