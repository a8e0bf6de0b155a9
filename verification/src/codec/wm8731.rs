//! Register-bus codec, powered over the bus (WM8731).
//!
//! The chip is programmed over a two-wire control bus before the serial
//! clock starts. Each register write is a two-byte frame: 7 address bits
//! and 9 data bits. The construction phase walks the full wake and
//! routing program; the start phase switches the output stage on and
//! then starts the receiver, which is the clock master here.

use crate::audio::Fs;
use crate::audio::MasterClockDivider;
use crate::bus::CodecOp;
use crate::codec::CodecProgram;
use crate::sai::ClockStrobe;
use crate::sai::SaiConfig;
use crate::sai::SaiDir;
use crate::sai::SaiMode;
use crate::sai::SyncInput;
use vstd::prelude::*;

verus! {

/// Control-bus device address of the chip (with the select pin low).
pub const DEVICE_ADDR: u8 = 0x1a;

/// Settling delay after each register write, in microseconds.
pub const SETTLE_MICROS: u32 = 10;

/// Left line input register: gain and input mute.
pub const LEFT_LINE_IN_REG: u8 = 0;

/// Analog audio path register: source select, bypass, mic mute.
pub const ANALOG_PATH_REG: u8 = 4;

/// Digital audio path register: DAC mute, de-emphasis.
pub const DIGITAL_PATH_REG: u8 = 5;

/// Power-down control register.
pub const POWER_REG: u8 = 6;

/// Digital interface format register: justification, width, clock role.
pub const FORMAT_REG: u8 = 7;

/// Sampling control register: mode and base oversampling rate.
pub const SAMPLING_REG: u8 = 8;

/// Interface activation register.
pub const ACTIVE_REG: u8 = 9;

/// Reset register.
pub const RESET_REG: u8 = 15;

/// Writing zero resets the chip.
pub const RESET_ALL: u16 = 0x000;

/// Wake value: line input, ADC, DAC and the core powered on; oscillator,
/// clock output and mic kept off; the output stage still off until start.
pub const POWER_WAKE: u16 = 0x072;

/// Final power value: as the wake value, with the output stage on.
pub const POWER_ON: u16 = 0x062;

/// Line input unmuted at 0 dB, both channels loaded together.
pub const LINE_IN_0DB: u16 = 0x117;

/// Analog path: DAC selected, line input to ADC, mic muted, bypass and
/// sidetone off.
pub const ANALOG_DAC_FROM_LINE: u16 = 0x012;

/// Digital path: DAC unmuted, de-emphasis for the 48 kHz family.
pub const DIGITAL_DEEMPH_48K: u16 = 0x006;

/// Frame format: left justified, 24-bit words, chip as clock follower,
/// nothing inverted.
pub const FORMAT_LEFT_JUSTIFIED_24BIT: u16 = 0x009;

/// Sampling control: normal (non-USB) mode, 256 times oversampling, no
/// core clock division; the rate field keeps its reset value, since the
/// rate is carried by the master-clock divider.
pub const SAMPLING_NORMAL_256FS: u16 = 0x000;

/// Activates the digital interface.
pub const ACTIVE: u16 = 0x001;

/// Bring-up program for the chip.
pub struct Wm8731 {
    pub fs: Fs,
}

impl CodecProgram for Wm8731 {
    open spec fn spec_fs(&self) -> Fs {
        self.fs
    }

    open spec fn spec_bus_dev() -> u8 {
        DEVICE_ADDR
    }

    /// The receiver is the clock master: it owns the bit clock and
    /// drives frame sync outward.
    open spec fn spec_rx_config(div: MasterClockDivider) -> SaiConfig {
        SaiConfig {
            mode: SaiMode::Master,
            tx_rx: SaiDir::Receiver,
            sync_output: true,
            ..SaiConfig::spec_base(div)
        }
    }

    /// The transmitter follows the receiver's clock internally.
    open spec fn spec_tx_config(div: MasterClockDivider) -> SaiConfig {
        SaiConfig {
            mode: SaiMode::Slave,
            sync_input: SyncInput::Internal,
            clock_strobe: ClockStrobe::Rising,
            ..SaiConfig::spec_base(div)
        }
    }

    /// Reset, wake with the output stage off, unmute the line input,
    /// route line input to ADC and DAC to output, select the frame
    /// format, set the oversampling mode, activate — one settling delay
    /// after each write.
    open spec fn spec_setup_ops() -> Seq<CodecOp> {
        seq![
            CodecOp::DelayMicros(SETTLE_MICROS),
            CodecOp::WriteFramed { addr: RESET_REG, value: RESET_ALL },
            CodecOp::DelayMicros(SETTLE_MICROS),
            CodecOp::WriteFramed { addr: POWER_REG, value: POWER_WAKE },
            CodecOp::DelayMicros(SETTLE_MICROS),
            CodecOp::WriteFramed { addr: LEFT_LINE_IN_REG, value: LINE_IN_0DB },
            CodecOp::DelayMicros(SETTLE_MICROS),
            CodecOp::WriteFramed { addr: ANALOG_PATH_REG, value: ANALOG_DAC_FROM_LINE },
            CodecOp::DelayMicros(SETTLE_MICROS),
            CodecOp::WriteFramed { addr: DIGITAL_PATH_REG, value: DIGITAL_DEEMPH_48K },
            CodecOp::DelayMicros(SETTLE_MICROS),
            CodecOp::WriteFramed { addr: FORMAT_REG, value: FORMAT_LEFT_JUSTIFIED_24BIT },
            CodecOp::DelayMicros(SETTLE_MICROS),
            CodecOp::WriteFramed { addr: SAMPLING_REG, value: SAMPLING_NORMAL_256FS },
            CodecOp::DelayMicros(SETTLE_MICROS),
            CodecOp::WriteFramed { addr: ACTIVE_REG, value: ACTIVE },
            CodecOp::DelayMicros(SETTLE_MICROS),
        ]
    }

    /// Switch the output stage on, let it settle, then start the
    /// receiver; the transmitter runs off the receiver's clock and needs
    /// no kick.
    open spec fn spec_start_ops() -> Seq<CodecOp> {
        seq![
            CodecOp::WriteFramed { addr: POWER_REG, value: POWER_ON },
            CodecOp::DelayMicros(SETTLE_MICROS),
            CodecOp::RxStart,
        ]
    }

    fn for_rate(fs: Fs) -> (r: Self) {
        Wm8731 { fs }
    }

    fn bus_dev(&self) -> (r: u8) {
        DEVICE_ADDR
    }

    fn rx_config(&self, div: MasterClockDivider) -> (r: SaiConfig) {
        let mut c = SaiConfig::base(div);
        c.mode = SaiMode::Master;
        c.tx_rx = SaiDir::Receiver;
        c.sync_output = true;
        c
    }

    fn tx_config(&self, div: MasterClockDivider) -> (r: SaiConfig) {
        let mut c = SaiConfig::base(div);
        c.mode = SaiMode::Slave;
        c.sync_input = SyncInput::Internal;
        c.clock_strobe = ClockStrobe::Rising;
        c
    }

    fn setup_ops(&self) -> (r: Vec<CodecOp>) {
        let mut r: Vec<CodecOp> = Vec::new();
        r.push(CodecOp::DelayMicros(SETTLE_MICROS));
        r.push(CodecOp::WriteFramed { addr: RESET_REG, value: RESET_ALL });
        r.push(CodecOp::DelayMicros(SETTLE_MICROS));
        r.push(CodecOp::WriteFramed { addr: POWER_REG, value: POWER_WAKE });
        r.push(CodecOp::DelayMicros(SETTLE_MICROS));
        r.push(CodecOp::WriteFramed { addr: LEFT_LINE_IN_REG, value: LINE_IN_0DB });
        r.push(CodecOp::DelayMicros(SETTLE_MICROS));
        r.push(CodecOp::WriteFramed { addr: ANALOG_PATH_REG, value: ANALOG_DAC_FROM_LINE });
        r.push(CodecOp::DelayMicros(SETTLE_MICROS));
        r.push(CodecOp::WriteFramed { addr: DIGITAL_PATH_REG, value: DIGITAL_DEEMPH_48K });
        r.push(CodecOp::DelayMicros(SETTLE_MICROS));
        r.push(CodecOp::WriteFramed { addr: FORMAT_REG, value: FORMAT_LEFT_JUSTIFIED_24BIT });
        r.push(CodecOp::DelayMicros(SETTLE_MICROS));
        r.push(CodecOp::WriteFramed { addr: SAMPLING_REG, value: SAMPLING_NORMAL_256FS });
        r.push(CodecOp::DelayMicros(SETTLE_MICROS));
        r.push(CodecOp::WriteFramed { addr: ACTIVE_REG, value: ACTIVE });
        r.push(CodecOp::DelayMicros(SETTLE_MICROS));
        assert(r@ =~= Self::spec_setup_ops());
        r
    }

    fn start_ops(&self) -> (r: Vec<CodecOp>) {
        let mut r: Vec<CodecOp> = Vec::new();
        r.push(CodecOp::WriteFramed { addr: POWER_REG, value: POWER_ON });
        r.push(CodecOp::DelayMicros(SETTLE_MICROS));
        r.push(CodecOp::RxStart);
        assert(r@ =~= Self::spec_start_ops());
        r
    }

    proof fn lemma_configs_wf(div: MasterClockDivider) {
    }

    proof fn lemma_setup_touches_no_engine() {
    }

    proof fn lemma_start_ordering(div: MasterClockDivider) {
        assert(Self::spec_start_ops()[2] is RxStart);
    }
}

/// Every framed write of both phases fits the wire format — a 7-bit
/// register address and a 9-bit value — so the two packed bytes of each
/// write determine the register and the value (see
/// [`crate::bus::lemma_pack_frame_roundtrip`]).
pub proof fn lemma_frames_fit_wire_format()
    ensures
        forall|i: int|
            0 <= i < Wm8731::spec_setup_ops().len() ==> ((#[trigger] Wm8731::spec_setup_ops()[i])
                matches CodecOp::WriteFramed { addr, value } ==> addr < 128 && value < 512),
        forall|i: int|
            0 <= i < Wm8731::spec_start_ops().len() ==> ((#[trigger] Wm8731::spec_start_ops()[i])
                matches CodecOp::WriteFramed { addr, value } ==> addr < 128 && value < 512),
{
}

/// The codec driver for this chip.
pub type Codec = crate::codec::Codec<Wm8731>;

} // verus!
