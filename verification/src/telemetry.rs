//! Telemetry buffer of the control loop.
//!
//! The compute task records the latest raw samples and DAC codes once per
//! control cycle; the publishing task reads the buffer once per telemetry
//! period.  No unit conversion happens here — converting raw codes to SI
//! units costs transcendental arithmetic and is deferred to the outside
//! reporting layer, keeping the control cycle cheap.

use vstd::prelude::*;

verus! {

/// Latest raw ADC samples and DAC codes, one slot per channel.
#[derive(Clone, Copy)]
pub struct TelemetryBuffer {
    pub adcs: [u32; 2],
    pub dacs: [u32; 2],
}

impl Default for TelemetryBuffer {
    /// An empty buffer: all channels read zero until the first control
    /// cycle fills them.
    fn default() -> (r: Self)
        ensures
            r.adcs[0] == 0 && r.adcs[1] == 0,
            r.dacs[0] == 0 && r.dacs[1] == 0,
    {
        TelemetryBuffer { adcs: [0, 0], dacs: [0, 0] }
    }
}

impl TelemetryBuffer {
    /// Record one control cycle: the sample pair just consumed and the
    /// codes now commanded.
    pub fn record(&mut self, adcs: [u32; 2], dacs: [u32; 2])
        ensures
            final(self).adcs == adcs,
            final(self).dacs == dacs,
    {
        self.adcs = adcs;
        self.dacs = dacs;
    }
}

} // verus!
