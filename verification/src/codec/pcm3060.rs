//! Hardware-configured codec, no register bus (PCM3060, strapped pins).
//!
//! The chip takes its format from strap pins, so construction programs
//! nothing. The transmitter is the clock master and the receiver follows
//! it internally; the start phase must therefore kick the transmitter
//! with one all-zero block before the receiver starts, or the receiver
//! would wait for frame-sync edges forever.

use crate::audio::Fs;
use crate::audio::MasterClockDivider;
use crate::bus::CodecOp;
use crate::codec::CodecProgram;
use crate::sai::ClockStrobe;
use crate::sai::SaiConfig;
use crate::sai::SaiDir;
use crate::sai::SaiMode;
use crate::sai::SyncInput;
use vstd::prelude::*;

verus! {

/// Bring-up program for the chip.
pub struct Pcm3060 {
    pub fs: Fs,
}

impl CodecProgram for Pcm3060 {
    open spec fn spec_fs(&self) -> Fs {
        self.fs
    }

    /// The chip has no control bus.
    open spec fn spec_bus_dev() -> u8 {
        0
    }

    /// The transmitter is the clock master: it owns the bit clock and
    /// drives frame sync outward.
    open spec fn spec_tx_config(div: MasterClockDivider) -> SaiConfig {
        SaiConfig { sync_output: true, ..SaiConfig::spec_base(div) }
    }

    /// The receiver follows the transmitter's clock internally.
    open spec fn spec_rx_config(div: MasterClockDivider) -> SaiConfig {
        SaiConfig {
            mode: SaiMode::Slave,
            tx_rx: SaiDir::Receiver,
            sync_input: SyncInput::Internal,
            clock_strobe: ClockStrobe::Rising,
            ..SaiConfig::spec_base(div)
        }
    }

    /// Nothing to program: the format is strapped in hardware.
    open spec fn spec_setup_ops() -> Seq<CodecOp> {
        Seq::empty()
    }

    /// The receiver runs as a follower, so the master transmitter is
    /// kicked first; only then is the receiver started.
    open spec fn spec_start_ops() -> Seq<CodecOp> {
        seq![CodecOp::TxKick, CodecOp::RxStart]
    }

    fn for_rate(fs: Fs) -> (r: Self) {
        Pcm3060 { fs }
    }

    fn bus_dev(&self) -> (r: u8) {
        0
    }

    fn tx_config(&self, div: MasterClockDivider) -> (r: SaiConfig) {
        let mut c = SaiConfig::base(div);
        c.sync_output = true;
        c
    }

    fn rx_config(&self, div: MasterClockDivider) -> (r: SaiConfig) {
        let mut c = SaiConfig::base(div);
        c.mode = SaiMode::Slave;
        c.tx_rx = SaiDir::Receiver;
        c.sync_input = SyncInput::Internal;
        c.clock_strobe = ClockStrobe::Rising;
        c
    }

    fn setup_ops(&self) -> (r: Vec<CodecOp>) {
        let r: Vec<CodecOp> = Vec::new();
        assert(r@ =~= Self::spec_setup_ops());
        r
    }

    fn start_ops(&self) -> (r: Vec<CodecOp>) {
        let mut r: Vec<CodecOp> = Vec::new();
        r.push(CodecOp::TxKick);
        r.push(CodecOp::RxStart);
        assert(r@ =~= Self::spec_start_ops());
        r
    }

    proof fn lemma_configs_wf(div: MasterClockDivider) {
    }

    proof fn lemma_setup_touches_no_engine() {
    }

    proof fn lemma_start_ordering(div: MasterClockDivider) {
        assert(Self::spec_start_ops()[1] is RxStart);
        assert forall|j: int|
            0 <= j < Self::spec_start_ops().len() && (#[trigger] Self::spec_start_ops()[j])
                is RxStart implies exists|i: int|
            0 <= i < j && (#[trigger] Self::spec_start_ops()[i]) is TxKick by {
            assert(Self::spec_start_ops()[0] is TxKick);
        }
    }
}

/// The codec driver for this chip.
pub type Codec = crate::codec::Codec<Pcm3060>;

} // verus!
