//! Sample rates, the master-clock divider, and its resolver.
//!
//! The resolver maps a kernel clock frequency and a target sample rate to
//! an enumerated divider in [1, 63], as the serial peripheral requires.

use crate::bus::io_step_of;
use crate::bus::op_fails;
use crate::bus::BringUpError;
use crate::bus::BusHandle;
use crate::bus::BusReply;
use crate::bus::IoStep;
use crate::codec::Codec;
use crate::codec::CodecProgram;
use crate::bus::op_is_bus;
use crate::bus::op_is_engine;
use crate::sai::engine_took_blocks;
use crate::sai::lemma_engine_took_blocks_push;
use crate::sai::rx_follows_tx;
use crate::sai::ReadOutcome;
use crate::sai::SaiConfig;
use crate::sai::SaiEngine;
use crate::sai::TransferError;
use crate::sai::WriteOutcome;
use crate::HALF_DMA_BUFFER_LENGTH;
use core::marker::PhantomData;
use vstd::prelude::*;

verus! {

/// The supported sample rates, in frames per second.
#[derive(Clone, Copy, Debug, PartialEq, Eq, Structural)]
pub enum Fs {
    Fs8000,
    Fs32000,
    Fs44100,
    Fs48000,
    Fs88200,
    Fs96000,
}

impl Fs {
    /// The sample rate in Hz that the variant stands for.
    pub open spec fn spec_rate_hz(self) -> u32 {
        match self {
            Fs::Fs8000 => 8000,
            Fs::Fs32000 => 32000,
            Fs::Fs44100 => 44100,
            Fs::Fs48000 => 48000,
            Fs::Fs88200 => 88200,
            Fs::Fs96000 => 96000,
        }
    }

    /// Runtime form of [`Self::spec_rate_hz`].
    pub fn rate_hz(self) -> (r: u32)
        ensures
            r == self.spec_rate_hz(),
    {
        match self {
            Fs::Fs8000 => 8000,
            Fs::Fs32000 => 32000,
            Fs::Fs44100 => 44100,
            Fs::Fs48000 => 48000,
            Fs::Fs88200 => 88200,
            Fs::Fs96000 => 96000,
        }
    }

    /// Resolves the master-clock divider for this sample rate from the
    /// kernel clock that feeds the serial audio peripheral.
    ///
    /// The divider is the quotient `kernel_clock_hz / (rate * 256)`,
    /// truncated; a remainder is permitted, matching the behaviour of the
    /// board this models. The call fails exactly when the truncated
    /// quotient falls outside the representable range [1, 63].
    pub fn into_clock_divider(self, kernel_clock_hz: u32) -> (r: Result<
        MasterClockDivider,
        DividerError,
    >)
        ensures
            ({
                let quot = kernel_clock_hz as int / (self.spec_rate_hz() * CLOCK_RATIO) as int;
                match r {
                    Ok(d) => 1 <= quot <= 63 && d.spec_factor() == quot,
                    Err(e) => (quot == 0 || quot > 63) && e == DividerError::OutOfRange,
                }
            }),
    {
        let fs = self.rate_hz();
        let mclk_div = kernel_clock_hz / (fs * CLOCK_RATIO);
        if 1 <= mclk_div && mclk_div <= 63 {
            Ok(mclk_div_from_u8(mclk_div as u8))
        } else {
            Err(DividerError::OutOfRange)
        }
    }
}

/// Fixed oversampling ratio between the master clock and the sample rate.
pub const CLOCK_RATIO: u32 = 256;

/// Failure of the clock-divider resolver.
#[derive(Clone, Copy, Debug, PartialEq, Eq, Structural)]
pub enum DividerError {
    /// No divider in [1, 63] realises the requested rate from the kernel clock.
    OutOfRange,
}

/// Audio configuration handed to the peripherals builder.
#[derive(Clone, Copy, Debug, PartialEq, Eq, Structural)]
pub struct AudioConfig {
    /// The target sample rate.
    pub fs: Fs,
}

impl Default for AudioConfig {
    /// The default configuration: 48000 Hz.
    fn default() -> (r: Self)
        ensures
            r.fs == Fs::Fs48000,
    {
        AudioConfig { fs: Fs::Fs48000 }
    }
}

/// Master-clock division factor of the serial audio peripheral.
/// One enumerated value for each divider the hardware can realise.
#[derive(Clone, Copy, Debug, PartialEq, Eq, Structural)]
pub enum MasterClockDivider {
    Div1,
    Div2,
    Div3,
    Div4,
    Div5,
    Div6,
    Div7,
    Div8,
    Div9,
    Div10,
    Div11,
    Div12,
    Div13,
    Div14,
    Div15,
    Div16,
    Div17,
    Div18,
    Div19,
    Div20,
    Div21,
    Div22,
    Div23,
    Div24,
    Div25,
    Div26,
    Div27,
    Div28,
    Div29,
    Div30,
    Div31,
    Div32,
    Div33,
    Div34,
    Div35,
    Div36,
    Div37,
    Div38,
    Div39,
    Div40,
    Div41,
    Div42,
    Div43,
    Div44,
    Div45,
    Div46,
    Div47,
    Div48,
    Div49,
    Div50,
    Div51,
    Div52,
    Div53,
    Div54,
    Div55,
    Div56,
    Div57,
    Div58,
    Div59,
    Div60,
    Div61,
    Div62,
    Div63,
}

impl MasterClockDivider {
    /// The integer division factor that the enumerated value stands for.
    pub open spec fn spec_factor(self) -> u8 {
        match self {
            MasterClockDivider::Div1 => 1,
            MasterClockDivider::Div2 => 2,
            MasterClockDivider::Div3 => 3,
            MasterClockDivider::Div4 => 4,
            MasterClockDivider::Div5 => 5,
            MasterClockDivider::Div6 => 6,
            MasterClockDivider::Div7 => 7,
            MasterClockDivider::Div8 => 8,
            MasterClockDivider::Div9 => 9,
            MasterClockDivider::Div10 => 10,
            MasterClockDivider::Div11 => 11,
            MasterClockDivider::Div12 => 12,
            MasterClockDivider::Div13 => 13,
            MasterClockDivider::Div14 => 14,
            MasterClockDivider::Div15 => 15,
            MasterClockDivider::Div16 => 16,
            MasterClockDivider::Div17 => 17,
            MasterClockDivider::Div18 => 18,
            MasterClockDivider::Div19 => 19,
            MasterClockDivider::Div20 => 20,
            MasterClockDivider::Div21 => 21,
            MasterClockDivider::Div22 => 22,
            MasterClockDivider::Div23 => 23,
            MasterClockDivider::Div24 => 24,
            MasterClockDivider::Div25 => 25,
            MasterClockDivider::Div26 => 26,
            MasterClockDivider::Div27 => 27,
            MasterClockDivider::Div28 => 28,
            MasterClockDivider::Div29 => 29,
            MasterClockDivider::Div30 => 30,
            MasterClockDivider::Div31 => 31,
            MasterClockDivider::Div32 => 32,
            MasterClockDivider::Div33 => 33,
            MasterClockDivider::Div34 => 34,
            MasterClockDivider::Div35 => 35,
            MasterClockDivider::Div36 => 36,
            MasterClockDivider::Div37 => 37,
            MasterClockDivider::Div38 => 38,
            MasterClockDivider::Div39 => 39,
            MasterClockDivider::Div40 => 40,
            MasterClockDivider::Div41 => 41,
            MasterClockDivider::Div42 => 42,
            MasterClockDivider::Div43 => 43,
            MasterClockDivider::Div44 => 44,
            MasterClockDivider::Div45 => 45,
            MasterClockDivider::Div46 => 46,
            MasterClockDivider::Div47 => 47,
            MasterClockDivider::Div48 => 48,
            MasterClockDivider::Div49 => 49,
            MasterClockDivider::Div50 => 50,
            MasterClockDivider::Div51 => 51,
            MasterClockDivider::Div52 => 52,
            MasterClockDivider::Div53 => 53,
            MasterClockDivider::Div54 => 54,
            MasterClockDivider::Div55 => 55,
            MasterClockDivider::Div56 => 56,
            MasterClockDivider::Div57 => 57,
            MasterClockDivider::Div58 => 58,
            MasterClockDivider::Div59 => 59,
            MasterClockDivider::Div60 => 60,
            MasterClockDivider::Div61 => 61,
            MasterClockDivider::Div62 => 62,
            MasterClockDivider::Div63 => 63,
        }
    }

    /// Runtime form of [`Self::spec_factor`].
    pub fn factor(self) -> (r: u8)
        ensures
            r == self.spec_factor(),
    {
        match self {
            MasterClockDivider::Div1 => 1,
            MasterClockDivider::Div2 => 2,
            MasterClockDivider::Div3 => 3,
            MasterClockDivider::Div4 => 4,
            MasterClockDivider::Div5 => 5,
            MasterClockDivider::Div6 => 6,
            MasterClockDivider::Div7 => 7,
            MasterClockDivider::Div8 => 8,
            MasterClockDivider::Div9 => 9,
            MasterClockDivider::Div10 => 10,
            MasterClockDivider::Div11 => 11,
            MasterClockDivider::Div12 => 12,
            MasterClockDivider::Div13 => 13,
            MasterClockDivider::Div14 => 14,
            MasterClockDivider::Div15 => 15,
            MasterClockDivider::Div16 => 16,
            MasterClockDivider::Div17 => 17,
            MasterClockDivider::Div18 => 18,
            MasterClockDivider::Div19 => 19,
            MasterClockDivider::Div20 => 20,
            MasterClockDivider::Div21 => 21,
            MasterClockDivider::Div22 => 22,
            MasterClockDivider::Div23 => 23,
            MasterClockDivider::Div24 => 24,
            MasterClockDivider::Div25 => 25,
            MasterClockDivider::Div26 => 26,
            MasterClockDivider::Div27 => 27,
            MasterClockDivider::Div28 => 28,
            MasterClockDivider::Div29 => 29,
            MasterClockDivider::Div30 => 30,
            MasterClockDivider::Div31 => 31,
            MasterClockDivider::Div32 => 32,
            MasterClockDivider::Div33 => 33,
            MasterClockDivider::Div34 => 34,
            MasterClockDivider::Div35 => 35,
            MasterClockDivider::Div36 => 36,
            MasterClockDivider::Div37 => 37,
            MasterClockDivider::Div38 => 38,
            MasterClockDivider::Div39 => 39,
            MasterClockDivider::Div40 => 40,
            MasterClockDivider::Div41 => 41,
            MasterClockDivider::Div42 => 42,
            MasterClockDivider::Div43 => 43,
            MasterClockDivider::Div44 => 44,
            MasterClockDivider::Div45 => 45,
            MasterClockDivider::Div46 => 46,
            MasterClockDivider::Div47 => 47,
            MasterClockDivider::Div48 => 48,
            MasterClockDivider::Div49 => 49,
            MasterClockDivider::Div50 => 50,
            MasterClockDivider::Div51 => 51,
            MasterClockDivider::Div52 => 52,
            MasterClockDivider::Div53 => 53,
            MasterClockDivider::Div54 => 54,
            MasterClockDivider::Div55 => 55,
            MasterClockDivider::Div56 => 56,
            MasterClockDivider::Div57 => 57,
            MasterClockDivider::Div58 => 58,
            MasterClockDivider::Div59 => 59,
            MasterClockDivider::Div60 => 60,
            MasterClockDivider::Div61 => 61,
            MasterClockDivider::Div62 => 62,
            MasterClockDivider::Div63 => 63,
        }
    }
}

/// Maps an integer division factor in [1, 63] to its enumerated divider.
pub fn mclk_div_from_u8(v: u8) -> (r: MasterClockDivider)
    requires
        1 <= v <= 63,
    ensures
        r.spec_factor() == v,
{
    match v {
        1 => MasterClockDivider::Div1,
        2 => MasterClockDivider::Div2,
        3 => MasterClockDivider::Div3,
        4 => MasterClockDivider::Div4,
        5 => MasterClockDivider::Div5,
        6 => MasterClockDivider::Div6,
        7 => MasterClockDivider::Div7,
        8 => MasterClockDivider::Div8,
        9 => MasterClockDivider::Div9,
        10 => MasterClockDivider::Div10,
        11 => MasterClockDivider::Div11,
        12 => MasterClockDivider::Div12,
        13 => MasterClockDivider::Div13,
        14 => MasterClockDivider::Div14,
        15 => MasterClockDivider::Div15,
        16 => MasterClockDivider::Div16,
        17 => MasterClockDivider::Div17,
        18 => MasterClockDivider::Div18,
        19 => MasterClockDivider::Div19,
        20 => MasterClockDivider::Div20,
        21 => MasterClockDivider::Div21,
        22 => MasterClockDivider::Div22,
        23 => MasterClockDivider::Div23,
        24 => MasterClockDivider::Div24,
        25 => MasterClockDivider::Div25,
        26 => MasterClockDivider::Div26,
        27 => MasterClockDivider::Div27,
        28 => MasterClockDivider::Div28,
        29 => MasterClockDivider::Div29,
        30 => MasterClockDivider::Div30,
        31 => MasterClockDivider::Div31,
        32 => MasterClockDivider::Div32,
        33 => MasterClockDivider::Div33,
        34 => MasterClockDivider::Div34,
        35 => MasterClockDivider::Div35,
        36 => MasterClockDivider::Div36,
        37 => MasterClockDivider::Div37,
        38 => MasterClockDivider::Div38,
        39 => MasterClockDivider::Div39,
        40 => MasterClockDivider::Div40,
        41 => MasterClockDivider::Div41,
        42 => MasterClockDivider::Div42,
        43 => MasterClockDivider::Div43,
        44 => MasterClockDivider::Div44,
        45 => MasterClockDivider::Div45,
        46 => MasterClockDivider::Div46,
        47 => MasterClockDivider::Div47,
        48 => MasterClockDivider::Div48,
        49 => MasterClockDivider::Div49,
        50 => MasterClockDivider::Div50,
        51 => MasterClockDivider::Div51,
        52 => MasterClockDivider::Div52,
        53 => MasterClockDivider::Div53,
        54 => MasterClockDivider::Div54,
        55 => MasterClockDivider::Div55,
        56 => MasterClockDivider::Div56,
        57 => MasterClockDivider::Div57,
        58 => MasterClockDivider::Div58,
        59 => MasterClockDivider::Div59,
        60 => MasterClockDivider::Div60,
        61 => MasterClockDivider::Div61,
        62 => MasterClockDivider::Div62,
        63 => MasterClockDivider::Div63,
        _ => MasterClockDivider::Div1,
    }
}

/// The interface is not transferring yet: engines configured, codec
/// programmed, nothing started.
pub struct Idle {}

/// The interface is transferring: the receiver runs and the callback
/// loop may be entered.
pub struct Running {}

/// The two protocol states of an [`Interface`].
pub trait InterfaceState {

}

impl InterfaceState for Idle {

}

impl InterfaceState for Running {

}

/// The audio interface: a codec driver behind a two-state protocol.
///
/// An `Interface<P, Idle>` comes only from the peripherals builder; the
/// block-transfer loop exists only on `Interface<P, Running>`, and the
/// only way to a `Running` interface consumes an `Idle` one through
/// [`Interface::start_interface`]. Entering the loop before bring-up is
/// therefore not expressible, without any runtime flag.
pub struct Interface<P: CodecProgram, S: InterfaceState> {
    codec: Codec<P>,
    state: PhantomData<S>,
}

impl<P: CodecProgram, S: InterfaceState> Interface<P, S> {
    /// The codec driver the interface wraps.
    pub closed spec fn codec(&self) -> Codec<P> {
        self.codec
    }

    /// The wrapped driver is well-formed.
    pub open spec fn wf(&self) -> bool {
        self.codec().wf()
    }

    /// The receive sub-block configuration in use.
    pub fn sai_rx_config(&self) -> (r: SaiConfig)
        ensures
            r == self.codec().sai_rx.config,
    {
        self.codec.sai_rx.config
    }

    /// The transmit sub-block configuration in use.
    pub fn sai_tx_config(&self) -> (r: SaiConfig)
        ensures
            r == self.codec().sai_tx.config,
    {
        self.codec.sai_tx.config
    }
}

/// Owner of the resources the audio interface is built from: here, the
/// kernel clock that feeds the serial audio peripheral.
pub struct AudioPeripherals {
    /// Kernel clock of the serial audio peripheral, in Hz.
    pub kernel_clock_hz: u32,
}

impl AudioPeripherals {
    /// Builds the interface in the `Idle` state: resolves the clock
    /// divider, binds zero-filled double buffers to the chip's engine
    /// configurations, and issues the chip's construction-phase register
    /// program against the reply script.
    ///
    /// The transcript of performed steps is returned beside the result;
    /// it never contains an engine start, so a bus fault during this
    /// phase leaves both engines untouched and never started. On a fault
    /// the build halts at the failing step and fails as a whole.
    pub fn prepare_interface<P: CodecProgram>(
        self,
        audio_config: AudioConfig,
        replies: &Vec<BusReply>,
    ) -> (r: (Result<Interface<P, Idle>, BringUpError>, Vec<IoStep>))
        requires
            replies@.len() >= P::spec_setup_ops().len(),
        ensures
            ({
                let (res, steps) = r;
                let quot = self.kernel_clock_hz as int / (audio_config.fs.spec_rate_hz()
                    * CLOCK_RATIO) as int;
                let ops = P::spec_setup_ops();
                let k = steps@.len() as int;
                &&& forall|j: int|
                    0 <= j < k ==> !(#[trigger] steps@[j] is KickedTx) && !(steps@[j] is StartedRx)
                &&& k <= ops.len()
                &&& forall|j: int| 0 <= j < k ==> !op_fails(ops[j], replies@[j])
                &&& forall|j: int|
                    0 <= j < k ==> steps@[j] == io_step_of(P::spec_bus_dev(), ops[j], replies@[j])
                &&& match res {
                    Ok(ifc) => {
                        &&& ifc.wf()
                        &&& ifc.codec().program.spec_fs() == audio_config.fs
                        &&& 1 <= quot <= 63
                        &&& ifc.codec().divider().spec_factor() == quot
                        &&& !ifc.codec().sai_tx.running
                        &&& !ifc.codec().sai_rx.running
                        &&& ifc.codec().sai_tx.next_half == false
                        &&& ifc.codec().sai_rx.next_half == false
                        &&& forall|i: int|
                            0 <= i < ifc.codec().sai_tx.buffer@.len()
                                ==> ifc.codec().sai_tx.buffer@[i] == 0u32
                        &&& forall|i: int|
                            0 <= i < ifc.codec().sai_rx.buffer@.len()
                                ==> ifc.codec().sai_rx.buffer@[i] == 0u32
                        &&& k == ops.len()
                    },
                    Err(BringUpError::DividerOutOfRange) => (quot == 0 || quot > 63) && k == 0,
                    Err(BringUpError::BusFault { step }) => 1 <= quot <= 63 && step == k && k
                        < ops.len() && op_fails(ops[k], replies@[k]),
                    Err(BringUpError::EngineFault { .. }) => false,
                }
            }),
    {
        let div = match audio_config.fs.into_clock_divider(self.kernel_clock_hz) {
            Ok(d) => d,
            Err(_) => {
                return (Err(BringUpError::DividerOutOfRange), Vec::new());
            },
        };
        let mut codec = Codec::<P>::new(audio_config.fs, div);
        let (steps, res) = codec.run_setup(replies);
        match res {
            Ok(()) => (Ok(Interface { codec, state: PhantomData }), steps),
            Err(e) => (Err(e), steps),
        }
    }
}

impl<P: CodecProgram> Interface<P, Idle> {
    /// Consumes the idle interface, performs the chip's start phase, and
    /// on success hands back the same driver in the `Running` state with
    /// the receiver running. On a fault the error is returned instead and
    /// the interface is gone either way: a restart goes back through the
    /// builder.
    ///
    /// This must run before the block-transfer loop; the `Running` type
    /// is the proof that it did.
    pub fn start_interface(self, replies: &Vec<BusReply>) -> (r: (
        Result<Interface<P, Running>, BringUpError>,
        Vec<IoStep>,
    ))
        requires
            self.wf(),
            replies@.len() >= P::spec_start_ops().len(),
        ensures
            ({
                let (res, steps) = r;
                let ops = P::spec_start_ops();
                let k = steps@.len() as int;
                &&& k <= ops.len()
                &&& forall|j: int| 0 <= j < k ==> !op_fails(ops[j], replies@[j])
                &&& forall|j: int|
                    0 <= j < k ==> steps@[j] == io_step_of(P::spec_bus_dev(), ops[j], replies@[j])
                &&& (rx_follows_tx(P::spec_tx_config(self.codec().divider()), P::spec_rx_config(
                    self.codec().divider(),
                )) ==> forall|j: int|
                    0 <= j < k && (#[trigger] steps@[j]) is StartedRx ==> exists|i: int|
                        0 <= i < j && (#[trigger] steps@[i]) is KickedTx)
                &&& match res {
                    Ok(run) => {
                        &&& run.wf()
                        &&& run.codec().program == self.codec().program
                        &&& run.codec().divider() == self.codec().divider()
                        &&& run.codec().sai_rx.running
                        &&& run.codec().sai_tx.running == (self.codec().sai_tx.running || exists|
                            j: int,
                        | 0 <= j < ops.len() && ops[j] is TxKick)
                        &&& run.codec().sai_tx.config == self.codec().sai_tx.config
                        &&& run.codec().sai_rx.config == self.codec().sai_rx.config
                        &&& run.codec().sai_tx.buffer == self.codec().sai_tx.buffer
                        &&& run.codec().sai_rx.buffer == self.codec().sai_rx.buffer
                        &&& run.codec().sai_tx.next_half == self.codec().sai_tx.next_half
                        &&& run.codec().sai_rx.next_half == self.codec().sai_rx.next_half
                        &&& k == ops.len()
                    },
                    Err(BringUpError::BusFault { step }) => step == k && k < ops.len()
                        && op_fails(ops[k], replies@[k]) && op_is_bus(ops[k]),
                    Err(BringUpError::EngineFault { step }) => step == k && k < ops.len()
                        && op_fails(ops[k], replies@[k]) && op_is_engine(ops[k]),
                    Err(BringUpError::DividerOutOfRange) => false,
                }
            }),
    {
        let mut this = self;
        let (steps, res) = this.codec.start(replies);
        proof {
            let div = self.codec().divider();
            if rx_follows_tx(P::spec_tx_config(div), P::spec_rx_config(div)) {
                P::lemma_start_ordering(div);
                let ops = P::spec_start_ops();
                assert forall|j: int|
                    0 <= j < steps@.len() && (#[trigger] steps@[j]) is StartedRx implies exists|
                    i: int,
                | 0 <= i < j && (#[trigger] steps@[i]) is KickedTx by {
                    assert(ops[j] is RxStart);
                    let i = choose|i: int| 0 <= i < j && (#[trigger] ops[i]) is TxKick;
                    assert(steps@[i] is KickedTx);
                }
            }
        }
        match res {
            Ok(()) => (Ok(Interface { codec: this.codec, state: PhantomData }), steps),
            Err(e) => (Err(e), steps),
        }
    }

    /// Brings the interface up as [`Self::start_interface`] does, then
    /// immediately tears the driver down, returning the transmit engine,
    /// the receive engine, and the control-bus handle for repurposing.
    /// Succeeds exactly when the start phase does: a fault-free reply
    /// script yields the released parts with the receiver running.
    pub fn setup_and_release(self, replies: &Vec<BusReply>) -> (r: (
        Result<(SaiEngine, SaiEngine, BusHandle), BringUpError>,
        Vec<IoStep>,
    ))
        requires
            self.wf(),
            replies@.len() >= P::spec_start_ops().len(),
        ensures
            ({
                let (res, steps) = r;
                let ops = P::spec_start_ops();
                let k = steps@.len() as int;
                &&& k <= ops.len()
                &&& forall|j: int| 0 <= j < k ==> !op_fails(ops[j], replies@[j])
                &&& forall|j: int|
                    0 <= j < k ==> steps@[j] == io_step_of(P::spec_bus_dev(), ops[j], replies@[j])
                &&& (rx_follows_tx(P::spec_tx_config(self.codec().divider()), P::spec_rx_config(
                    self.codec().divider(),
                )) ==> forall|j: int|
                    0 <= j < k && (#[trigger] steps@[j]) is StartedRx ==> exists|i: int|
                        0 <= i < j && (#[trigger] steps@[i]) is KickedTx)
                &&& match res {
                    Ok((tx, rx, bus)) => {
                        &&& k == ops.len()
                        &&& rx.running
                        &&& tx.running == (self.codec().sai_tx.running || exists|j: int|
                            0 <= j < ops.len() && ops[j] is TxKick)
                        &&& tx.config == self.codec().sai_tx.config
                        &&& rx.config == self.codec().sai_rx.config
                        &&& tx.buffer == self.codec().sai_tx.buffer
                        &&& rx.buffer == self.codec().sai_rx.buffer
                        &&& bus.device_addr == P::spec_bus_dev()
                    },
                    Err(BringUpError::BusFault { step }) => step == k && k < ops.len()
                        && op_fails(ops[k], replies@[k]) && op_is_bus(ops[k]),
                    Err(BringUpError::EngineFault { step }) => step == k && k < ops.len()
                        && op_fails(ops[k], replies@[k]) && op_is_engine(ops[k]),
                    Err(BringUpError::DividerOutOfRange) => false,
                }
            }),
    {
        let (res, steps) = self.start_interface(replies);
        match res {
            Ok(run) => {
                let (tx, rx, bus) = run.codec.release();
                (Ok((tx, rx, bus)), steps)
            },
            Err(e) => (Err(e), steps),
        }
    }
}

/// The views of the blocks the first `n` entries of a read script
/// delivered (all of them blocks).
pub open spec fn delivered_views(reads: Seq<ReadOutcome>, n: int) -> Seq<Seq<u32>> {
    Seq::new(n as nat, |j: int| reads[j]->Block_0@)
}

/// The views of a sequence of owned blocks.
pub open spec fn block_views(blocks: Seq<Vec<u32>>) -> Seq<Seq<u32>> {
    Seq::new(blocks.len(), |j: int| blocks[j]@)
}

impl<P: CodecProgram> Interface<P, Running> {
    /// The block-transfer loop: receive one block, hand it to the
    /// callback, transmit the callback's output block, and repeat. The
    /// first engine fault ends the loop and is returned, with the blocks
    /// the callback produced until then; nothing is retried here, since
    /// after a fault the buffered data may already be stale.
    ///
    /// `reads` and `writes` stand for what the engines did on each
    /// iteration; the loop is verified for every such script. A run over
    /// a fault-free script processes every delivered block in order.
    pub fn start_callback<F: Fn(Vec<u32>) -> Vec<u32>>(
        &mut self,
        reads: &Vec<ReadOutcome>,
        writes: &Vec<WriteOutcome>,
        callback: F,
    ) -> (r: (Vec<Vec<u32>>, Option<TransferError>))
        requires
            old(self).wf(),
            old(self).codec().sai_rx.running,
            writes@.len() >= reads@.len(),
            forall|i: int|
                0 <= i < reads@.len() ==> (#[trigger] reads@[i] matches ReadOutcome::Block(b)
                    ==> b@.len() == HALF_DMA_BUFFER_LENGTH),
            forall|b: Vec<u32>|
                b@.len() == HALF_DMA_BUFFER_LENGTH ==> callback.requires((b,)),
            forall|b: Vec<u32>, o: Vec<u32>|
                #[trigger] callback.ensures((b,), o) ==> o@.len() == HALF_DMA_BUFFER_LENGTH,
        ensures
            final(self).wf(),
            final(self).codec().program == old(self).codec().program,
            final(self).codec().divider() == old(self).codec().divider(),
            final(self).codec().sai_tx.config == old(self).codec().sai_tx.config,
            final(self).codec().sai_rx.config == old(self).codec().sai_rx.config,
            final(self).codec().sai_tx.running == old(self).codec().sai_tx.running,
            final(self).codec().sai_rx.running == old(self).codec().sai_rx.running,
            ({
                let (outputs, err) = r;
                let k = outputs@.len() as int;
                &&& k <= reads@.len()
                &&& forall|j: int|
                    0 <= j < k ==> (#[trigger] reads@[j] matches ReadOutcome::Block(b)
                        && exists|inb: Vec<u32>| inb@ == b@ && callback.ensures((inb,), outputs@[j]))
                &&& match err {
                    Option::None => k == reads@.len() && forall|j: int|
                        0 <= j < k ==> #[trigger] writes@[j] is Accepted,
                    Option::Some(e) => {
                        ||| (k < reads@.len() && (reads@[k] matches ReadOutcome::Fault(f) && e == f)
                            && (forall|j: int| 0 <= j < k ==> #[trigger] writes@[j] is Accepted))
                        ||| (k >= 1 && (writes@[k - 1] matches WriteOutcome::Fault(f) && e == f)
                            && reads@[k - 1] is Block && (forall|j: int|
                            0 <= j < k - 1 ==> #[trigger] writes@[j] is Accepted))
                    },
                }
                &&& engine_took_blocks(
                    old(self).codec().sai_rx,
                    final(self).codec().sai_rx,
                    delivered_views(reads@, k),
                )
                &&& ({
                    let written = if k >= 1 && writes@[k - 1] is Fault {
                        k - 1
                    } else {
                        k
                    };
                    engine_took_blocks(
                        old(self).codec().sai_tx,
                        final(self).codec().sai_tx,
                        block_views(outputs@.take(written)),
                    )
                })
            }),
    {
        let mut outputs: Vec<Vec<u32>> = Vec::new();
        let mut i: usize = 0;
        while i < reads.len()
            invariant
                self.wf(),
                self.codec().program == old(self).codec().program,
                self.codec().divider() == old(self).codec().divider(),
                self.codec().sai_tx.config == old(self).codec().sai_tx.config,
                self.codec().sai_rx.config == old(self).codec().sai_rx.config,
                self.codec().sai_tx.running == old(self).codec().sai_tx.running,
                self.codec().sai_rx.running == old(self).codec().sai_rx.running,
                i <= reads@.len(),
                writes@.len() >= reads@.len(),
                outputs@.len() == i,
                forall|j: int|
                    0 <= j < reads@.len() ==> (#[trigger] reads@[j] matches ReadOutcome::Block(b)
                        ==> b@.len() == HALF_DMA_BUFFER_LENGTH),
                forall|b: Vec<u32>|
                    b@.len() == HALF_DMA_BUFFER_LENGTH ==> callback.requires((b,)),
                forall|b: Vec<u32>, o: Vec<u32>|
                    #[trigger] callback.ensures((b,), o) ==> o@.len() == HALF_DMA_BUFFER_LENGTH,
                forall|j: int|
                    0 <= j < i ==> (#[trigger] reads@[j] matches ReadOutcome::Block(b)
                        && exists|inb: Vec<u32>| inb@ == b@ && callback.ensures((inb,), outputs@[j])),
                forall|j: int| 0 <= j < i ==> #[trigger] writes@[j] is Accepted,
                engine_took_blocks(
                    old(self).codec().sai_rx,
                    self.codec().sai_rx,
                    delivered_views(reads@, i as int),
                ),
                engine_took_blocks(
                    old(self).codec().sai_tx,
                    self.codec().sai_tx,
                    block_views(outputs@),
                ),
            decreases reads@.len() - i,
        {
            let ghost rx_before = self.codec().sai_rx;
            let outcome = &reads[i];
            let block = match self.codec.read(outcome) {
                Ok(b) => b,
                Err(e) => {
                    proof {
                        assert(block_views(outputs@.take(i as int)) =~= block_views(outputs@));
                    }
                    return (outputs, Some(e));
                },
            };
            proof {
                assert(reads@[i as int] matches ReadOutcome::Block(b) && block@ == b@);
                lemma_engine_took_blocks_push(
                    old(self).codec().sai_rx,
                    rx_before,
                    self.codec().sai_rx,
                    delivered_views(reads@, i as int),
                    block@,
                );
                assert(delivered_views(reads@, i as int).push(block@) =~= delivered_views(
                    reads@,
                    i as int + 1,
                ));
            }
            let ghost input_copy = block;
            let out = callback(block);
            let ghost tx_before = self.codec().sai_tx;
            let ghost outputs_before = outputs@;
            let res = self.codec.write(&out, writes[i]);
            proof {
                if res is Ok {
                    lemma_engine_took_blocks_push(
                        old(self).codec().sai_tx,
                        tx_before,
                        self.codec().sai_tx,
                        block_views(outputs_before),
                        out@,
                    );
                }
            }
            outputs.push(out);
            proof {
                assert(reads@[i as int] matches ReadOutcome::Block(b) && input_copy@ == b@
                    && callback.ensures((input_copy,), outputs@[i as int]));
                if res is Ok {
                    assert(block_views(outputs_before).push(out@) =~= block_views(outputs@));
                } else {
                    assert(block_views(outputs@.take(i as int)) =~= block_views(outputs_before));
                }
            }
            if let Err(e) = res {
                return (outputs, Some(e));
            }
            i += 1;
        }
        proof {
            assert(block_views(outputs@.take(outputs@.len() as int)) =~= block_views(outputs@));
        }
        (outputs, None)
    }
}

/// A callback that hands every block back unchanged turns the transfer
/// loop into a pass-through: each output block equals the block that was
/// delivered on the same iteration.
pub proof fn lemma_identity_callback_round_trip<F: Fn(Vec<u32>) -> Vec<u32>>(
    callback: F,
    reads: Seq<ReadOutcome>,
    outputs: Seq<Vec<u32>>,
)
    requires
        forall|b: Vec<u32>, o: Vec<u32>| #[trigger] callback.ensures((b,), o) ==> o@ == b@,
        forall|j: int|
            0 <= j < outputs.len() ==> (#[trigger] reads[j] matches ReadOutcome::Block(b)
                && exists|inb: Vec<u32>| inb@ == b@ && callback.ensures((inb,), outputs[j])),
    ensures
        forall|j: int| 0 <= j < outputs.len() ==> #[trigger] outputs[j]@ == reads[j]->Block_0@,
{
    assert forall|j: int| 0 <= j < outputs.len() implies #[trigger] outputs[j]@
        == reads[j]->Block_0@ by {
        assert(reads[j] matches ReadOutcome::Block(b) && exists|inb: Vec<u32>|
            inb@ == b@ && callback.ensures((inb,), outputs[j]));
        let inb = choose|inb: Vec<u32>|
            inb@ == reads[j]->Block_0@ && callback.ensures((inb,), outputs[j]);
        assert(outputs[j]@ == inb@);
    }
}

} // verus!
