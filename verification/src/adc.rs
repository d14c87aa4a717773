//! ADC device protocol: register access and continuous-conversion retrieval.
//!
//! The converter sits behind a synchronous serial bus.  Every exchange is
//! bracketed by the chip-select line and starts with a command byte: the
//! register address in the low six bits, with bit 6 set for a read.  A data
//! phase of one to four big-endian payload bytes follows.  While the device
//! waits for a command it drives the status byte on the outgoing line, so a
//! one-byte exchange doubles as a non-blocking conversion poll.
//!
//! The bus and the device's register interface are modelled by [`SimBus`],
//! so the whole protocol — framing, byte order, status polling, the packed
//! data word and the fixed initialization order — is executable and
//! verified.  The hardware glue that moves the same frames over a real SPI
//! peripheral lives outside the library.

use vstd::prelude::*;

verus! {

use crate::codec::{
    be_bytes,
    be_val,
    decode_be,
    encode_be,
    lemma_be_bytes_len,
    lemma_be_round_trip,
    lemma_be_val_bound,
    pow256,
};
use crate::settings::AdcFilterSettings;

/// Command-byte flag selecting a register read.
pub const READ_BIT: u8 = 0x40;

/// Number of addressable registers (the command byte has six address bits).
pub const NUM_REGS: usize = 64;

// Register addresses.
pub const ADCMODE: u8 = 0x01;
pub const IFMODE: u8 = 0x02;
pub const DATA: u8 = 0x04;
pub const ID: u8 = 0x07;
pub const CH0: u8 = 0x10;
pub const CH1: u8 = 0x11;
pub const SETUPCON0: u8 = 0x20;
pub const SETUPCON1: u8 = 0x21;
pub const FILTCON0: u8 = 0x28;
pub const FILTCON1: u8 = 0x29;

/// Continuous conversion, internal reference, internal clock, no delay.
pub const ADCMODE_INIT: u32 = 0x8000;

/// Interface mode with only the data-status bit set, so every data-register
/// read carries the channel id.
pub const IFMODE_DATA_STAT: u32 = 0x0040;

/// Channel 0 enabled, input pair A (AIN0/AIN1), setup 0.
pub const CH0_INIT: u32 = 0x8001;

/// Channel 1 enabled, input pair B (AIN2/AIN3), setup 1.
pub const CH1_INIT: u32 = 0x9043;

/// Reference and input buffers enabled, bipolar coding, internal reference:
/// REFBUF+ (bit 11), REFBUF- (bit 10), AINBUF+ (bit 9), AINBUF- (bit 8).
pub const SETUPCON_INIT: u32 = 0x0F00;

/// Power-on filter word: 10 Hz data rate (0x13), sinc5+sinc1 order, 16.67
/// SPS post-filter (0b110 at bit 8) enabled (bit 11).
pub const FILTCON_INIT: u32 = 0x0E13;

/// Status byte the device drives when no conversion is waiting.
pub const STATUS_IDLE: u8 = 0xFF;

/// Simulated serial bus with the converter's register interface behind it.
///
/// The model is byte-accurate: a latched command byte, sixty-four register
/// payloads, and the conversion engine's output (a waiting sample sets the
/// status byte and fills the data register).
pub struct SimBus {
    /// Chip-select line; the device listens only while it is driven low.
    pub cs_low: bool,
    /// Command byte latched in the current chip-select frame, if any.
    pub cmd: Option<u8>,
    /// Payload bytes last written to each register.
    pub regs: Vec<Vec<u8>>,
    /// Whether a conversion result is waiting in the data register.
    pub sample_ready: bool,
    /// Channel id of the waiting conversion.
    pub sample_ch: u8,
}

impl SimBus {
    pub open spec fn wf(&self) -> bool {
        &&& self.regs@.len() == NUM_REGS
        &&& forall|i: int| 0 <= i < NUM_REGS ==> (#[trigger] self.regs@[i])@.len() <= 4
        &&& self.sample_ch < 4
    }

    /// The byte the device drives while it waits for a command: all-ones
    /// when no conversion is pending, otherwise the channel id.
    pub open spec fn status_byte(&self) -> u8 {
        if self.sample_ready {
            self.sample_ch
        } else {
            STATUS_IDLE
        }
    }

    /// What a read of `len` bytes from register `addr` clocks out: the
    /// stored payload, zero-padded.
    pub open spec fn read_window(&self, addr: int, len: nat) -> Seq<u8> {
        Seq::new(
            len,
            |i: int|
                if i < self.regs@[addr]@.len() {
                    self.regs@[addr]@[i]
                } else {
                    0u8
                },
        )
    }

    /// A fresh bus: deselected, no latched command, all registers empty, no
    /// conversion waiting.
    pub fn new() -> (r: SimBus)
        ensures
            r.wf(),
            !r.cs_low,
            r.cmd is None,
            !r.sample_ready,
            forall|i: int| 0 <= i < NUM_REGS ==> (#[trigger] r.regs@[i])@.len() == 0,
    {
        let mut regs: Vec<Vec<u8>> = Vec::new();
        let mut i: usize = 0;
        while i < NUM_REGS
            invariant
                regs@.len() == i,
                i <= NUM_REGS,
                forall|j: int| 0 <= j < i ==> (#[trigger] regs@[j])@.len() == 0,
            decreases NUM_REGS - i,
        {
            regs.push(Vec::new());
            i = i + 1;
        }
        SimBus { cs_low: false, cmd: None, regs, sample_ready: false, sample_ch: 0 }
    }

    /// Drive the chip-select line low, opening a frame.
    pub fn select(&mut self)
        ensures
            *final(self) == (SimBus { cs_low: true, ..*old(self) }),
    {
        self.cs_low = true;
    }

    /// Release the chip-select line; the device drops any half-received
    /// command, so the next frame starts clean.
    pub fn deselect(&mut self)
        ensures
            *final(self) == (SimBus { cs_low: false, cmd: None, ..*old(self) }),
    {
        self.cs_low = false;
        self.cmd = None;
    }

    /// One full-duplex exchange of `buf.len()` bytes.
    ///
    /// With no command latched the device drives the status byte first and
    /// idles high after it; a single-byte exchange latches its byte as the
    /// command.  A longer command-phase exchange (the all-ones reset frame)
    /// latches nothing.  With a read command latched the register payload is
    /// clocked out, zero-padded; reading the data register consumes the
    /// waiting conversion.  With a write command latched the incoming bytes
    /// replace the register payload.
    pub fn transfer(&mut self, buf: &mut Vec<u8>)
        requires
            old(self).wf(),
            old(self).cs_low,
            old(buf)@.len() >= 1,
            (match old(self).cmd {
                Some(c) => c & READ_BIT == 0 ==> old(buf)@.len() <= 4,
                None => true,
            }),
        ensures
            final(self).wf(),
            final(self).cs_low,
            final(self).sample_ch == old(self).sample_ch,
            final(buf)@.len() == old(buf)@.len(),
            match old(self).cmd {
                None => {
                    &&& final(self).regs@ == old(self).regs@
                    &&& final(self).sample_ready == old(self).sample_ready
                    &&& final(buf)@ == Seq::new(
                        old(buf)@.len(),
                        |i: int| if i == 0 { old(self).status_byte() } else { 0xFFu8 },
                    )
                    &&& final(self).cmd == (if old(buf)@.len() == 1 {
                        Some(old(buf)@[0])
                    } else {
                        None::<u8>
                    })
                },
                Some(c) => {
                    &&& final(self).cmd is None
                    &&& if c & READ_BIT != 0 {
                        &&& final(self).regs@ == old(self).regs@
                        &&& final(buf)@ == old(self).read_window(
                            (c & 0x3F) as int,
                            old(buf)@.len() as nat,
                        )
                        &&& final(self).sample_ready == (if c & 0x3F == DATA {
                            false
                        } else {
                            old(self).sample_ready
                        })
                    } else {
                        &&& final(self).regs@[(c & 0x3F) as int]@ == old(buf)@
                        &&& forall|i: int|
                            0 <= i < NUM_REGS && i != (c & 0x3F) as int
                                ==> final(self).regs@[i] == old(self).regs@[i]
                        &&& final(self).sample_ready == old(self).sample_ready
                        &&& final(buf)@ == old(buf)@
                    }
                },
            },
    {
        match self.cmd {
            None => {
                let first: u8 = buf[0];
                let status: u8 = if self.sample_ready {
                    self.sample_ch
                } else {
                    STATUS_IDLE
                };
                buf[0] = status;
                let mut i: usize = 1;
                while i < buf.len()
                    invariant
                        1 <= i <= buf@.len(),
                        buf@.len() == old(buf)@.len(),
                        buf@[0] == status,
                        forall|j: int| 1 <= j < i ==> buf@[j] == 0xFFu8,
                    decreases buf@.len() - i,
                {
                    buf[i] = 0xFF;
                    i = i + 1;
                }
                if buf.len() == 1 {
                    self.cmd = Some(first);
                }
                proof {
                    assert(buf@ =~= Seq::new(
                        old(buf)@.len(),
                        |i: int| if i == 0 { old(self).status_byte() } else { 0xFFu8 },
                    ));
                }
            },
            Some(c) => {
                let addr = (c & 0x3F) as usize;
                proof {
                    assert(c & 0x3F < 64) by (bit_vector);
                }
                if c & READ_BIT != 0 {
                    let n = buf.len();
                    let mut i: usize = 0;
                    while i < n
                        invariant
                            i <= n,
                            n == old(buf)@.len(),
                            buf@.len() == n,
                            *self == *old(self),
                            addr == (c & 0x3F) as usize,
                            addr < NUM_REGS,
                            old(self).wf(),
                            forall|j: int|
                                0 <= j < i ==> buf@[j] == old(self).read_window(
                                    addr as int,
                                    n as nat,
                                )[j],
                        decreases n - i,
                    {
                        let stored = &self.regs[addr];
                        let b: u8 = if i < stored.len() {
                            stored[i]
                        } else {
                            0
                        };
                        buf[i] = b;
                        i = i + 1;
                    }
                    if addr == DATA as usize {
                        self.sample_ready = false;
                    }
                    self.cmd = None;
                    proof {
                        assert(buf@ =~= old(self).read_window(
                            (c & 0x3F) as int,
                            old(buf)@.len() as nat,
                        ));
                    }
                } else {
                    let mut stored: Vec<u8> = Vec::new();
                    let mut i: usize = 0;
                    while i < buf.len()
                        invariant
                            i <= buf@.len(),
                            buf@ == old(buf)@,
                            *self == *old(self),
                            stored@ == buf@.take(i as int),
                        decreases buf@.len() - i,
                    {
                        stored.push(buf[i]);
                        i = i + 1;
                    }
                    proof {
                        assert(stored@ =~= old(buf)@);
                    }
                    self.regs[addr] = stored;
                    self.cmd = None;
                }
            },
        }
    }

    /// Load a finished conversion, as the device's continuous-conversion
    /// engine does: the 24-bit sample sits above the low byte of the 32-bit
    /// data word, the channel id in its low two bits.
    pub fn push_sample(&mut self, data: u32, ch: u8)
        requires
            old(self).wf(),
            ch < 4,
            data < 0x1000000,
        ensures
            final(self).wf(),
            final(self).sample_ready,
            final(self).sample_ch == ch,
            final(self).regs@[DATA as int]@ == be_bytes(data * 256 + ch, 4),
            forall|i: int|
                0 <= i < NUM_REGS && i != DATA as int
                    ==> final(self).regs@[i] == old(self).regs@[i],
            final(self).cs_low == old(self).cs_low,
            final(self).cmd == old(self).cmd,
    {
        let word: u32 = data * 256 + ch as u32;
        let bytes = encode_be(word, 4);
        proof {
            lemma_be_bytes_len(word as int, 4);
        }
        self.regs[DATA as usize] = bytes;
        self.sample_ready = true;
        self.sample_ch = ch;
    }
}

/// Driver for the delta-sigma converter: register-level access and
/// continuous-conversion sample retrieval over the simulated bus.
pub struct Adc {
    pub bus: SimBus,
}

impl Adc {
    /// Between operations the bus is deselected with no half-finished
    /// command, so no register exchange can be observed mid-frame.
    pub open spec fn wf(&self) -> bool {
        &&& self.bus.wf()
        &&& !self.bus.cs_low
        &&& self.bus.cmd is None
    }

    /// Payload a `size`-byte read of register `addr` returns.
    pub open spec fn reg_read(&self, addr: u8, size: nat) -> Seq<u8> {
        self.bus.read_window(addr as int, size)
    }

    /// Bring the converter up in the fixed initialization order: reset,
    /// identification read, continuous-conversion mode with internal
    /// reference and clock, data-status interface mode, channel
    /// multiplexers, input/reference buffers, filter configuration.
    pub fn new(bus: SimBus) -> (r: Adc)
        requires
            bus.wf(),
            !bus.cs_low,
            bus.cmd is None,
        ensures
            r.wf(),
            r.bus.regs@[ADCMODE as int]@ == be_bytes(ADCMODE_INIT as int, 2),
            r.bus.regs@[IFMODE as int]@ == be_bytes(IFMODE_DATA_STAT as int, 2),
            r.bus.regs@[CH0 as int]@ == be_bytes(CH0_INIT as int, 2),
            r.bus.regs@[CH1 as int]@ == be_bytes(CH1_INIT as int, 2),
            r.bus.regs@[SETUPCON0 as int]@ == be_bytes(SETUPCON_INIT as int, 2),
            r.bus.regs@[SETUPCON1 as int]@ == be_bytes(SETUPCON_INIT as int, 2),
            r.bus.regs@[FILTCON0 as int]@ == be_bytes(FILTCON_INIT as int, 2),
            r.bus.regs@[FILTCON1 as int]@ == be_bytes(FILTCON_INIT as int, 2),
            r.bus.sample_ready == bus.sample_ready,
            r.bus.sample_ch == bus.sample_ch,
    {
        let mut adc = Adc { bus };
        adc.reset();
        let _id: u32 = adc.read_reg(ID, 2);
        // Continuous conversion with the internal reference and clock.
        adc.write_reg(ADCMODE, 2, ADCMODE_INIT);
        // Append the channel id to every conversion read.
        adc.write_reg(IFMODE, 2, IFMODE_DATA_STAT);
        adc.setup_channels();
        adc
    }

    /// Drive a frame of all-ones bytes long enough to force the device's
    /// serial interface into a known state.  On real hardware a failed
    /// reset is recoverable at the call site; the simulated bus cannot
    /// fail, so the contract promises the clean interface outright.
    pub fn reset(&mut self)
        requires
            old(self).wf(),
        ensures
            final(self).wf(),
            final(self).bus.regs@ == old(self).bus.regs@,
            final(self).bus.sample_ready == old(self).bus.sample_ready,
            final(self).bus.sample_ch == old(self).bus.sample_ch,
    {
        let mut buf: Vec<u8> = vec![0xFF, 0xFF, 0xFF, 0xFF, 0xFF, 0xFF, 0xFF, 0xFF];
        self.bus.select();
        self.bus.transfer(&mut buf);
        self.bus.deselect();
    }

    /// Read a register: transmit the address with the read bit set, clock
    /// `size` bytes in, decode them big-endian.
    pub fn read_reg(&mut self, addr: u8, size: usize) -> (r: u32)
        requires
            old(self).wf(),
            addr < 0x40,
            1 <= size <= 4,
        ensures
            final(self).wf(),
            r == be_val(old(self).reg_read(addr, size as nat)),
            final(self).bus.regs@ == old(self).bus.regs@,
            final(self).bus.sample_ch == old(self).bus.sample_ch,
            final(self).bus.sample_ready == (if addr == DATA {
                false
            } else {
                old(self).bus.sample_ready
            }),
    {
        proof {
            assert((addr | 0x40) & 0x40 != 0 && (addr | 0x40) & 0x3F == addr) by (bit_vector)
                requires
                    addr < 0x40,
            ;
        }
        self.bus.select();
        let mut cmd_buf: Vec<u8> = vec![addr | READ_BIT];
        self.bus.transfer(&mut cmd_buf);
        let mut buf: Vec<u8> = Vec::new();
        let mut i: usize = 0;
        while i < size
            invariant
                buf@.len() == i,
                i <= size,
            decreases size - i,
        {
            buf.push(0);
            i = i + 1;
        }
        self.bus.transfer(&mut buf);
        self.bus.deselect();
        decode_be(&buf)
    }

    /// Write a register: transmit the address, then the big-endian encoding
    /// of `data` truncated to `size` bytes.
    pub fn write_reg(&mut self, addr: u8, size: usize, data: u32)
        requires
            old(self).wf(),
            addr < 0x40,
            1 <= size <= 4,
        ensures
            final(self).wf(),
            final(self).bus.regs@[addr as int]@ == be_bytes(data as int, size as nat),
            forall|i: int|
                0 <= i < NUM_REGS && i != addr as int
                    ==> final(self).bus.regs@[i] == old(self).bus.regs@[i],
            final(self).bus.sample_ready == old(self).bus.sample_ready,
            final(self).bus.sample_ch == old(self).bus.sample_ch,
    {
        proof {
            assert(addr & 0x40 == 0 && addr & 0x3F == addr) by (bit_vector)
                requires
                    addr < 0x40,
            ;
            lemma_be_bytes_len(data as int, size as nat);
        }
        self.bus.select();
        let mut cmd_buf: Vec<u8> = vec![addr];
        self.bus.transfer(&mut cmd_buf);
        let mut buf = encode_be(data, size);
        self.bus.transfer(&mut buf);
        self.bus.deselect();
    }

    /// Poll the status byte: a single-byte exchange while the device waits
    /// for a command.  All-ones means no new conversion; anything else is a
    /// pending conversion.  Safe to call at arbitrary frequency — nothing
    /// beyond the exchange itself happens.
    pub fn get_status_reg(&mut self) -> (r: u8)
        requires
            old(self).wf(),
        ensures
            final(self).wf(),
            r == old(self).bus.status_byte(),
            (r != STATUS_IDLE) <==> old(self).bus.sample_ready,
            final(self).bus.regs@ == old(self).bus.regs@,
            final(self).bus.sample_ready == old(self).bus.sample_ready,
            final(self).bus.sample_ch == old(self).bus.sample_ch,
    {
        self.bus.select();
        let mut buf: Vec<u8> = vec![0u8];
        self.bus.transfer(&mut buf);
        let r = buf[0];
        self.bus.deselect();
        r
    }

    /// Read the data register and split the packed word: the 24-bit sample
    /// sits above the low byte, the channel id in the low two bits.  The
    /// data-status interface mode must be on (`new` sets it once) for the
    /// channel id to be meaningful.  Consumes the waiting conversion.
    pub fn read_data(&mut self) -> (r: (u32, u8))
        requires
            old(self).wf(),
        ensures
            final(self).wf(),
            ({
                let w = be_val(old(self).reg_read(DATA, 4)) as u32;
                r.0 == w >> 8u32 && r.1 == (w & 3) as u8
            }),
            final(self).bus.regs@ == old(self).bus.regs@,
            !final(self).bus.sample_ready,
            final(self).bus.sample_ch == old(self).bus.sample_ch,
    {
        proof {
            lemma_be_val_bound(old(self).reg_read(DATA, 4));
            assert(pow256(0) == 1);
            assert(pow256(1) == 256);
            assert(pow256(2) == 65536);
            assert(pow256(3) == 16777216);
            assert(pow256(4) == 0x100000000);
        }
        let datach = self.read_reg(DATA, 4);
        let ch = (datach & 0x3) as u8;
        let data = datach >> 8u32;
        (data, ch)
    }

    /// Configure both channels' input multiplexers, reference/buffering
    /// setups and filter registers.
    fn setup_channels(&mut self)
        requires
            old(self).wf(),
        ensures
            final(self).wf(),
            final(self).bus.regs@[CH0 as int]@ == be_bytes(CH0_INIT as int, 2),
            final(self).bus.regs@[CH1 as int]@ == be_bytes(CH1_INIT as int, 2),
            final(self).bus.regs@[SETUPCON0 as int]@ == be_bytes(SETUPCON_INIT as int, 2),
            final(self).bus.regs@[SETUPCON1 as int]@ == be_bytes(SETUPCON_INIT as int, 2),
            final(self).bus.regs@[FILTCON0 as int]@ == be_bytes(FILTCON_INIT as int, 2),
            final(self).bus.regs@[FILTCON1 as int]@ == be_bytes(FILTCON_INIT as int, 2),
            forall|i: int|
                0 <= i < NUM_REGS && i != CH0 as int && i != CH1 as int
                    && i != SETUPCON0 as int && i != SETUPCON1 as int
                    && i != FILTCON0 as int && i != FILTCON1 as int
                    ==> final(self).bus.regs@[i] == old(self).bus.regs@[i],
            final(self).bus.sample_ready == old(self).bus.sample_ready,
            final(self).bus.sample_ch == old(self).bus.sample_ch,
    {
        // Enable channel 0 on input pair A, channel 1 on input pair B.
        self.write_reg(CH0, 2, CH0_INIT);
        self.write_reg(CH1, 2, CH1_INIT);
        // Reference and input buffers on, bipolar coding, for both setups.
        self.write_reg(SETUPCON0, 2, SETUPCON_INIT);
        self.write_reg(SETUPCON1, 2, SETUPCON_INIT);
        // 10 Hz data rate, sinc5+sinc1, 16.67 SPS post-filter.
        self.write_reg(FILTCON0, 2, FILTCON_INIT);
        self.write_reg(FILTCON1, 2, FILTCON_INIT);
    }

    /// Write the same filter configuration word to both channels' filter
    /// registers.
    pub fn set_filters(&mut self, set: AdcFilterSettings)
        requires
            old(self).wf(),
        ensures
            final(self).wf(),
            final(self).bus.regs@[FILTCON0 as int]@ == be_bytes(
                set.spec_filtcon_word() as int,
                2,
            ),
            final(self).bus.regs@[FILTCON1 as int]@ == be_bytes(
                set.spec_filtcon_word() as int,
                2,
            ),
            forall|i: int|
                0 <= i < NUM_REGS && i != FILTCON0 as int && i != FILTCON1 as int
                    ==> final(self).bus.regs@[i] == old(self).bus.regs@[i],
            final(self).bus.sample_ready == old(self).bus.sample_ready,
            final(self).bus.sample_ch == old(self).bus.sample_ch,
    {
        let reg: u32 = set.filtcon_word();
        self.write_reg(FILTCON0, 2, reg);
        self.write_reg(FILTCON1, 2, reg);
    }

    /// Load a finished conversion into the simulated device, standing in
    /// for the hardware's conversion engine.
    pub fn inject_sample(&mut self, data: u32, ch: u8)
        requires
            old(self).wf(),
            ch < 4,
            data < 0x1000000,
        ensures
            final(self).wf(),
            final(self).bus.sample_ready,
            final(self).bus.sample_ch == ch,
            final(self).bus.regs@[DATA as int]@ == be_bytes(data * 256 + ch, 4),
            forall|i: int|
                0 <= i < NUM_REGS && i != DATA as int
                    ==> final(self).bus.regs@[i] == old(self).bus.regs@[i],
    {
        self.bus.push_sample(data, ch);
    }
}

/// Register round trip: writing a register and reading it back through the
/// big-endian codec returns the written value, reduced modulo the register
/// width.  This holds for every address and every payload size the protocol
/// admits.
pub fn register_round_trip(adc: &mut Adc, addr: u8, size: usize, value: u32) -> (r: u32)
    requires
        old(adc).wf(),
        addr < 0x40,
        1 <= size <= 4,
    ensures
        final(adc).wf(),
        r as int == value as int % pow256(size as nat),
{
    adc.write_reg(addr, size, value);
    let r = adc.read_reg(addr, size);
    proof {
        lemma_be_bytes_len(value as int, size as nat);
        assert(adc.reg_read(addr, size as nat) =~= be_bytes(value as int, size as nat));
        lemma_be_round_trip(value as int, size as nat);
    }
    r
}

} // verus!
