//! Orchestrator tests: scheduling, pairing, settings application and the
//! end-to-end control cycle.

use thermostat::net::{network_state, NetworkState};
use thermostat::net::TcpSocketStorage;
use thermostat::sched::PeriodicTask;
use thermostat::settings::{PidSettings, Q16_ONE, Settings};
use thermostat::thermostat::{setup, CYC_PER_S, ETH_P_PERIOD, LED_PERIOD};

fn engaged_settings() -> Settings {
    let mut s = Settings::default();
    s.engage_iir = [true, true];
    s
}

#[test]
fn rearm_is_drift_free_over_1000_periods() {
    let mut task = PeriodicTask::new(1000, 7);
    assert_eq!(task.deadline, 1007);
    for _ in 0..999 {
        // However late the task runs, the grid never shifts.
        task.rearm(0).unwrap();
    }
    assert_eq!(task.deadline, 1000 + 1000 * 7);
}

#[test]
fn rearm_rejects_a_deadline_already_passed() {
    let mut task = PeriodicTask::new(100, 5);
    let r = task.rearm(1000);
    assert!(r.is_err());
    assert_eq!(task.deadline, 105);
    // Exactly on time is still acceptable.
    assert!(task.rearm(110).is_ok());
    assert_eq!(task.deadline, 110);
}

#[test]
fn setup_arms_tasks_and_parks_outputs() {
    let t = setup(0, 10000);
    assert_eq!(t.dacs.val[0], 129988);
    assert_eq!(t.dacs.val[1], 129988);
    assert_eq!(t.poll_eth_task.deadline, ETH_P_PERIOD);
    assert_eq!(t.tele_task.deadline, CYC_PER_S);
    assert_eq!(t.blink_task.deadline, LED_PERIOD);
    assert!(!t.led_on);
    for ch in 0..6 {
        assert_eq!(t.pwms.duty[ch], 0);
    }
}

#[test]
fn default_settings_values() {
    let s = Settings::default();
    assert_eq!(s.telemetry_period, 1);
    assert!(!s.led);
    assert_eq!(s.dacs, [0, 0]);
    assert_eq!(s.engage_iir, [false, false]);
    assert_eq!(s.adcsettings.odr, 0x15);
    assert_eq!(s.adcsettings.order, 0);
    assert_eq!(s.adcsettings.enhfilt, 6);
    assert_eq!(s.adcsettings.enhfilten, 1);
    assert_eq!(s.max_v_tec, [1000, 1000]);
    let p = s.pidsettings[0];
    assert_eq!(p.pid, [Q16_ONE, 0, 0]);
    assert_eq!(p.target_offset, 8305552);
    assert_eq!(p.max_i_neg, 100);
    assert_eq!(p.max_i_pos, 100);
}

#[test]
fn settings_update_configures_everything() {
    let mut t = setup(0, 10000);
    let s = Settings::default();
    t.settings_update(&s);
    // ADC filter registers carry the packed word.
    assert_eq!(t.adc.read_reg(0x28, 2), 1813);
    assert_eq!(t.adc.read_reg(0x29, 2), 1813);
    // Current ceilings sit 150 mA above the 100 mA clamps; voltage
    // ceilings at 1 V of 5 V.
    assert_eq!(t.pwms.duty[0], 1999);
    assert_eq!(t.pwms.duty[1], 1999);
    for ch in 2..6 {
        assert_eq!(t.pwms.duty[ch], 833);
    }
    // Clamp bounds from the 100 mA limits around the zero-current code.
    assert_eq!(t.filter0.y_min, -4333);
    assert_eq!(t.filter0.y_max, 4333);
    assert_eq!(t.filter0.target_offset, 8305552);
    // Disengaged channels take the manual zero-current set point.
    assert_eq!(t.dacs.val[0], 129988);
    assert_eq!(t.dacs.val[1], 129988);
}

#[test]
fn manual_set_point_for_disengaged_channel() {
    let mut t = setup(0, 10000);
    let mut s = Settings::default();
    s.dacs = [100, -100];
    t.settings_update(&s);
    assert_eq!(t.dacs.val[0], 134321);
    assert_eq!(t.dacs.val[1], 125655);
}

#[test]
fn channel_pairing_swaps_and_buffers() {
    let mut t = setup(0, 10000);
    // Nothing pending: the poll sees the idle status byte.
    assert_eq!(t.poll_adc(), None);
    // Converter channel 1 is logical channel 0: it completes a round at
    // once, with the power-on zero for logical channel 1.
    t.adc.inject_sample(111, 1);
    assert_eq!(t.poll_adc(), Some([111, 0]));
    // Converter channel 0 is logical channel 1: buffered, no message.
    t.adc.inject_sample(222, 0);
    assert_eq!(t.poll_adc(), None);
    // The next round pairs the fresh logical 0 with the buffered 1.
    t.adc.inject_sample(333, 1);
    assert_eq!(t.poll_adc(), Some([333, 222]));
    t.adc.inject_sample(444, 0);
    assert_eq!(t.poll_adc(), None);
    t.adc.inject_sample(555, 1);
    assert_eq!(t.poll_adc(), Some([555, 444]));
}

#[test]
fn process_engaged_channel_drives_dac_at_set_point() {
    // The end-to-end scenario: gain-two proportional control toward the
    // set point; a sample equal to the set-point offset yields filter
    // output zero, so the engaged channel writes the zero-current code.
    let mut t = setup(0, 10000);
    let mut s = engaged_settings();
    s.pidsettings[0].pid = [2 * Q16_ONE, 0, 0];
    s.pidsettings[1].pid = [2 * Q16_ONE, 0, 0];
    t.settings_update(&s);
    t.process([8305552, 8305552]);
    assert_eq!(t.dacs.val[0], 129988);
    assert_eq!(t.dacs.val[1], 129988);
    assert_eq!(t.telemetry.adcs, [8305552, 8305552]);
    assert_eq!(t.telemetry.dacs, [129988, 129988]);
}

#[test]
fn process_clamps_error_to_current_limits() {
    // A sample far above the set point saturates at the y_max clamp.
    let mut t = setup(0, 10000);
    let s = engaged_settings();
    t.settings_update(&s);
    t.process([16000000, 8305552]);
    assert_eq!(t.dacs.val[0], 129988 + 4333);
    assert_eq!(t.dacs.val[1], 129988);
    // Far below: the y_min clamp.
    t.process([0, 8305552]);
    assert_eq!(t.dacs.val[0], 129988 - 4333);
}

#[test]
fn process_disengaged_channel_keeps_manual_code() {
    let mut t = setup(0, 10000);
    let s = Settings::default();
    t.settings_update(&s);
    t.process([8305552, 8305552]);
    // The filter ran (state warm) but the manual code still drives the
    // output.
    assert_eq!(t.dacs.val[0], 129988);
    assert_eq!(t.telemetry.dacs, [129988, 129988]);
}

#[test]
fn poll_eth_applies_changed_settings() {
    let mut t = setup(0, 10000);
    let mut s = Settings::default();
    s.telemetry_period = 5;
    let r = t.poll_eth_step(NetworkState::SettingsChanged, &s, 0);
    assert_eq!(r, Ok(true));
    assert_eq!(t.settings.telemetry_period, 5);
    assert_eq!(t.poll_eth_task.deadline, 2 * ETH_P_PERIOD);
    let r = t.poll_eth_step(NetworkState::NoChange, &s, 0);
    assert_eq!(r, Ok(false));
    let r = t.poll_eth_step(NetworkState::Updated, &s, 0);
    assert_eq!(r, Ok(false));
    assert_eq!(t.poll_eth_task.deadline, 4 * ETH_P_PERIOD);
}

#[test]
fn tele_step_snapshots_and_rearms_at_cadence() {
    let mut t = setup(0, 10000);
    let s = Settings::default();
    t.settings_update(&s);
    t.process([1000, 2000]);
    let snap = t.tele_step(0).unwrap();
    assert_eq!(snap.adcs, [1000, 2000]);
    assert_eq!(snap.dacs, [129988, 129988]);
    // Re-armed one telemetry period past the previous deadline.
    assert_eq!(t.tele_task.deadline, 2 * CYC_PER_S);
}

#[test]
fn blink_step_toggles_and_rearms() {
    let mut t = setup(0, 10000);
    assert_eq!(t.blink_step(0), Ok(true));
    assert_eq!(t.blink_step(0), Ok(false));
    assert_eq!(t.blink_task.deadline, 3 * LED_PERIOD);
    // Falling behind real time is fatal for the schedule.
    assert!(t.blink_step(u64::MAX / 2).is_err());
}

#[test]
fn network_state_prioritizes_settings() {
    assert!(matches!(network_state(true, false), NetworkState::SettingsChanged));
    assert!(matches!(network_state(true, true), NetworkState::SettingsChanged));
    assert!(matches!(network_state(false, true), NetworkState::Updated));
    assert!(matches!(network_state(false, false), NetworkState::NoChange));
}

#[test]
fn batch_pairing_collects_pairs() {
    let mut pairer = thermostat::pairing::SamplePairer::new();
    let events: Vec<(u32, u8)> = vec![(10, 1), (20, 0), (30, 1), (40, 0), (50, 1)];
    let pairs = pairer.process_events(&events);
    assert_eq!(pairs, vec![[10, 0], [30, 20], [50, 40]]);
}

#[test]
fn tcp_socket_storage_starts_zeroed() {
    let storage = TcpSocketStorage::new();
    assert!(storage.rx_storage.iter().all(|&b| b == 0));
    assert!(storage.tx_storage.iter().all(|&b| b == 0));
}

#[test]
fn pid_settings_copy_is_plain_data() {
    let p = PidSettings { pid: [1, 2, 3], target_offset: 4, max_i_neg: 5, max_i_pos: 6 };
    let q = p;
    assert_eq!(q.pid, [1, 2, 3]);
    assert_eq!(q.target_offset, 4);
    assert_eq!(q.max_i_neg, 5);
    assert_eq!(q.max_i_pos, 6);
}
