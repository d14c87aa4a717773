//! Real-time control core of a thermostat instrument.
//!
//! The library models the acquisition-filter-actuation pipeline of a
//! temperature controller: register-level access to a delta-sigma ADC over a
//! serial bus, framing for an 18-bit DAC, PWM-based analog output limits, a
//! fixed-point IIR/PID control filter with target tracking and anti-windup,
//! and the deadline arithmetic of the periodic tasks that tie the pipeline
//! together.  Hardware pin bring-up, the network stack and the
//! floating-point engineering-unit conversions are outside collaborators and
//! are not part of this crate.

pub mod adc;
pub mod codec;
pub mod conv;
pub mod dac;
pub mod iir;
pub mod net;
pub mod pairing;
pub mod sched;
pub mod settings;
pub mod telemetry;
pub mod thermostat;
