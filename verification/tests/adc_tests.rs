//! Register protocol and acquisition tests on the simulated bus.

use thermostat::adc::{Adc, SimBus, register_round_trip};
use thermostat::adc::{ADCMODE, CH0, CH1, FILTCON0, FILTCON1, IFMODE, SETUPCON0, SETUPCON1};
use thermostat::codec::{decode_be, encode_be};
use thermostat::settings::AdcFilterSettings;

fn fresh_adc() -> Adc {
    Adc::new(SimBus::new())
}

#[test]
fn be_codec_round_trip() {
    let bytes = encode_be(0x1234, 2);
    assert_eq!(bytes, vec![0x12, 0x34]);
    assert_eq!(decode_be(&bytes), 0x1234);
    let bytes = encode_be(0xAABBCCDD, 4);
    assert_eq!(bytes, vec![0xAA, 0xBB, 0xCC, 0xDD]);
    assert_eq!(decode_be(&bytes), 0xAABBCCDD);
    let bytes = encode_be(0x123456, 3);
    assert_eq!(bytes, vec![0x12, 0x34, 0x56]);
    assert_eq!(decode_be(&bytes), 0x123456);
    assert_eq!(decode_be(&encode_be(0x5A, 1)), 0x5A);
}

#[test]
fn register_round_trip_all_sizes() {
    let mut adc = fresh_adc();
    assert_eq!(register_round_trip(&mut adc, 0x30, 1, 0x5A), 0x5A);
    assert_eq!(register_round_trip(&mut adc, 0x30, 2, 0xABCD), 0xABCD);
    assert_eq!(register_round_trip(&mut adc, 0x31, 3, 0x123456), 0x123456);
    assert_eq!(register_round_trip(&mut adc, 0x38, 4, 0xDEADBEEF), 0xDEADBEEF);
}

#[test]
fn register_write_truncates_to_size() {
    let mut adc = fresh_adc();
    adc.write_reg(0x30, 2, 0x12345);
    assert_eq!(adc.read_reg(0x30, 2), 0x2345);
    adc.write_reg(0x31, 1, 0xABC);
    assert_eq!(adc.read_reg(0x31, 1), 0xBC);
}

#[test]
fn initialization_register_map() {
    let mut adc = fresh_adc();
    // Continuous conversion, internal reference and clock.
    assert_eq!(adc.read_reg(ADCMODE, 2), 0x8000);
    // Data-status append mode.
    assert_eq!(adc.read_reg(IFMODE, 2), 0x0040);
    // Channel multiplexers: input pair A on 0, pair B on 1.
    assert_eq!(adc.read_reg(CH0, 2), 0x8001);
    assert_eq!(adc.read_reg(CH1, 2), 0x9043);
    // Buffered bipolar setups.
    assert_eq!(adc.read_reg(SETUPCON0, 2), 0x0F00);
    assert_eq!(adc.read_reg(SETUPCON1, 2), 0x0F00);
    // Power-on filter word.
    assert_eq!(adc.read_reg(FILTCON0, 2), 0x0E13);
    assert_eq!(adc.read_reg(FILTCON1, 2), 0x0E13);
}

#[test]
fn status_poll_and_data_read() {
    let mut adc = fresh_adc();
    // Nothing pending: the status byte idles at all-ones, at any rate.
    assert_eq!(adc.get_status_reg(), 0xFF);
    assert_eq!(adc.get_status_reg(), 0xFF);
    // A finished conversion drives the channel id onto the status byte.
    adc.inject_sample(0x00ABCDEF, 1);
    assert_eq!(adc.get_status_reg(), 0x01);
    // Reading the data register returns sample and channel and consumes
    // the conversion.
    let (data, ch) = adc.read_data();
    assert_eq!(data, 0x00ABCDEF);
    assert_eq!(ch, 1);
    assert_eq!(adc.get_status_reg(), 0xFF);
}

#[test]
fn reset_leaves_registers_alone() {
    let mut adc = fresh_adc();
    adc.write_reg(0x30, 2, 0x1234);
    adc.reset();
    assert_eq!(adc.read_reg(0x30, 2), 0x1234);
}

#[test]
fn filter_settings_word_is_packed() {
    let set = AdcFilterSettings { odr: 0x15, order: 0, enhfilt: 6, enhfilten: 1 };
    // odr | order << 4 | enhfilt << 7 | enhfilten << 10
    assert_eq!(set.filtcon_word(), 0x15 | 6 << 7 | 1 << 10);
    assert_eq!(set.filtcon_word(), 1813);
}

#[test]
fn set_filters_writes_both_channels() {
    let mut adc = fresh_adc();
    let set = AdcFilterSettings { odr: 0x15, order: 0, enhfilt: 6, enhfilten: 1 };
    adc.set_filters(set);
    assert_eq!(adc.read_reg(FILTCON0, 2), 1813);
    assert_eq!(adc.read_reg(FILTCON1, 2), 1813);
}
