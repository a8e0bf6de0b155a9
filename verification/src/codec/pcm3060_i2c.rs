//! Register-bus codec with a hardware-strapped default (PCM3060 over a
//! two-wire control bus).
//!
//! Construction clears the reset bits, selects the 24-bit left-justified
//! format on both converter halves, and clears the power-saving bits —
//! each step an independent read-modify-write on the control bus with a
//! settling delay. The receiver is the clock master for the serial side.

use crate::audio::Fs;
use crate::audio::MasterClockDivider;
use crate::bus::CodecOp;
use crate::codec::CodecProgram;
use crate::sai::ClockStrobe;
use crate::sai::ComplementFormat;
use crate::sai::SaiConfig;
use crate::sai::SaiDir;
use crate::sai::SaiMode;
use crate::sai::SlotSize;
use crate::sai::SyncInput;
use vstd::prelude::*;

verus! {

/// Control-bus device address of the chip.
pub const DEVICE_ADDR: u8 = 0x46;

/// Settling delay after each register write, in microseconds.
pub const SETTLE_MICROS: u32 = 10;

/// System control register: resets and power-saving bits.
pub const SYS_CTRL_REG: u8 = 0x40;

/// ADC control register holding the format field.
pub const ADC_CTRL1_REG: u8 = 0x48;

/// DAC control register holding the format field.
pub const DAC_CTRL1_REG: u8 = 0x43;

/// Mode reset bit.
pub const MRST_MASK: u8 = 0x80;

/// System reset bit.
pub const SRST_MASK: u8 = 0x40;

/// ADC power-saving bit.
pub const ADC_PSV_MASK: u8 = 0x20;

/// DAC power-saving bit.
pub const DAC_PSV_MASK: u8 = 0x10;

/// Format field: 24-bit left-justified when set.
pub const FMT_MASK: u8 = 0x01;

/// Bring-up program for the chip.
pub struct Pcm3060I2c {
    pub fs: Fs,
}

impl CodecProgram for Pcm3060I2c {
    open spec fn spec_fs(&self) -> Fs {
        self.fs
    }

    open spec fn spec_bus_dev() -> u8 {
        DEVICE_ADDR
    }

    /// The receiver is the clock master: it owns the bit clock and
    /// drives frame sync outward. Slots are padded to 32 bits.
    open spec fn spec_rx_config(div: MasterClockDivider) -> SaiConfig {
        SaiConfig {
            mode: SaiMode::Master,
            tx_rx: SaiDir::Receiver,
            sync_output: true,
            clock_strobe: ClockStrobe::Rising,
            slot_size: SlotSize::Channel32,
            complement_format: ComplementFormat::OnesComplement,
            ..SaiConfig::spec_base(div)
        }
    }

    /// The transmitter follows the receiver's clock internally.
    open spec fn spec_tx_config(div: MasterClockDivider) -> SaiConfig {
        SaiConfig {
            mode: SaiMode::Slave,
            sync_input: SyncInput::Internal,
            clock_strobe: ClockStrobe::Rising,
            slot_size: SlotSize::Channel32,
            complement_format: ComplementFormat::OnesComplement,
            ..SaiConfig::spec_base(div)
        }
    }

    /// Release both resets, set the format bit on ADC and DAC control,
    /// clear both power-saving bits — six read-modify-write steps, each
    /// with its settling delay.
    open spec fn spec_setup_ops() -> Seq<CodecOp> {
        seq![
            CodecOp::Rmw { reg: SYS_CTRL_REG, mask: MRST_MASK, set: false },
            CodecOp::DelayMicros(SETTLE_MICROS),
            CodecOp::Rmw { reg: SYS_CTRL_REG, mask: SRST_MASK, set: false },
            CodecOp::DelayMicros(SETTLE_MICROS),
            CodecOp::Rmw { reg: ADC_CTRL1_REG, mask: FMT_MASK, set: true },
            CodecOp::DelayMicros(SETTLE_MICROS),
            CodecOp::Rmw { reg: DAC_CTRL1_REG, mask: FMT_MASK, set: true },
            CodecOp::DelayMicros(SETTLE_MICROS),
            CodecOp::Rmw { reg: SYS_CTRL_REG, mask: ADC_PSV_MASK, set: false },
            CodecOp::DelayMicros(SETTLE_MICROS),
            CodecOp::Rmw { reg: SYS_CTRL_REG, mask: DAC_PSV_MASK, set: false },
            CodecOp::DelayMicros(SETTLE_MICROS),
        ]
    }

    /// The transmitter is written once to get the peripheral's master
    /// side going, then the receiver starts.
    open spec fn spec_start_ops() -> Seq<CodecOp> {
        seq![CodecOp::TxKick, CodecOp::RxStart]
    }

    fn for_rate(fs: Fs) -> (r: Self) {
        Pcm3060I2c { fs }
    }

    fn bus_dev(&self) -> (r: u8) {
        DEVICE_ADDR
    }

    fn rx_config(&self, div: MasterClockDivider) -> (r: SaiConfig) {
        let mut c = SaiConfig::base(div);
        c.mode = SaiMode::Master;
        c.tx_rx = SaiDir::Receiver;
        c.sync_output = true;
        c.clock_strobe = ClockStrobe::Rising;
        c.slot_size = SlotSize::Channel32;
        c.complement_format = ComplementFormat::OnesComplement;
        c
    }

    fn tx_config(&self, div: MasterClockDivider) -> (r: SaiConfig) {
        let mut c = SaiConfig::base(div);
        c.mode = SaiMode::Slave;
        c.sync_input = SyncInput::Internal;
        c.clock_strobe = ClockStrobe::Rising;
        c.slot_size = SlotSize::Channel32;
        c.complement_format = ComplementFormat::OnesComplement;
        c
    }

    fn setup_ops(&self) -> (r: Vec<CodecOp>) {
        let mut r: Vec<CodecOp> = Vec::new();
        r.push(CodecOp::Rmw { reg: SYS_CTRL_REG, mask: MRST_MASK, set: false });
        r.push(CodecOp::DelayMicros(SETTLE_MICROS));
        r.push(CodecOp::Rmw { reg: SYS_CTRL_REG, mask: SRST_MASK, set: false });
        r.push(CodecOp::DelayMicros(SETTLE_MICROS));
        r.push(CodecOp::Rmw { reg: ADC_CTRL1_REG, mask: FMT_MASK, set: true });
        r.push(CodecOp::DelayMicros(SETTLE_MICROS));
        r.push(CodecOp::Rmw { reg: DAC_CTRL1_REG, mask: FMT_MASK, set: true });
        r.push(CodecOp::DelayMicros(SETTLE_MICROS));
        r.push(CodecOp::Rmw { reg: SYS_CTRL_REG, mask: ADC_PSV_MASK, set: false });
        r.push(CodecOp::DelayMicros(SETTLE_MICROS));
        r.push(CodecOp::Rmw { reg: SYS_CTRL_REG, mask: DAC_PSV_MASK, set: false });
        r.push(CodecOp::DelayMicros(SETTLE_MICROS));
        assert(r@ =~= Self::spec_setup_ops());
        r
    }

    fn start_ops(&self) -> (r: Vec<CodecOp>) {
        let mut r: Vec<CodecOp> = Vec::new();
        r.push(CodecOp::TxKick);
        r.push(CodecOp::RxStart);
        assert(r@ =~= Self::spec_start_ops());
        r
    }

    proof fn lemma_configs_wf(div: MasterClockDivider) {
    }

    proof fn lemma_setup_touches_no_engine() {
    }

    proof fn lemma_start_ordering(div: MasterClockDivider) {
        assert(Self::spec_start_ops()[1] is RxStart);
        assert forall|j: int|
            0 <= j < Self::spec_start_ops().len() && (#[trigger] Self::spec_start_ops()[j])
                is RxStart implies exists|i: int|
            0 <= i < j && (#[trigger] Self::spec_start_ops()[i]) is TxKick by {
            assert(Self::spec_start_ops()[0] is TxKick);
        }
    }
}

/// The codec driver for this chip.
pub type Codec = crate::codec::Codec<Pcm3060I2c>;

} // verus!
