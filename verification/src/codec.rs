//! Codec drivers: one pure bring-up program per supported chip, and a
//! generic handle that owns the two transfer engines and drives them.
//!
//! Each chip is a [`CodecProgram`]: its serial-frame configurations, its
//! control-bus device address, the register program its construction
//! issues, and the sequence its start phase performs. The programs also
//! carry the ordering laws the bring-up depends on: the construction
//! phase never touches a transfer engine, and where the receiver follows
//! the transmitter's clock, the start sequence kicks the transmitter
//! strictly before it starts the receiver.

pub mod ak4556;
pub mod pcm3060;
pub mod pcm3060_i2c;
pub mod wm8731;

use crate::audio::Fs;
use crate::audio::MasterClockDivider;
use crate::bus::kick_precedes_start;
use crate::bus::op_is_bus;
use crate::bus::op_is_engine;
use crate::bus::io_step_of;
use crate::bus::op_fails;
use crate::bus::run_ops;
use crate::bus::BringUpError;
use crate::bus::BusHandle;
use crate::bus::BusReply;
use crate::bus::CodecOp;
use crate::bus::IoStep;
use crate::sai::config_pair_wf;
use crate::sai::engine_took_block;
use crate::sai::rx_follows_tx;
use crate::sai::ReadOutcome;
use crate::sai::SaiConfig;
use crate::sai::SaiEngine;
use crate::sai::TransferError;
use crate::sai::WriteOutcome;
use crate::HALF_DMA_BUFFER_LENGTH;
use vstd::prelude::*;

verus! {

/// The device-specific part of a codec driver: frame configurations and
/// bring-up sequences, as pure data, together with the laws they obey.
pub trait CodecProgram: Sized {
    /// The sample rate the program was built for.
    spec fn spec_fs(&self) -> Fs;

    /// The control-bus device address the chip answers on (0 where the
    /// chip has no control bus).
    spec fn spec_bus_dev() -> u8;

    /// The transmit sub-block configuration for a given divider.
    spec fn spec_tx_config(div: MasterClockDivider) -> SaiConfig;

    /// The receive sub-block configuration for a given divider.
    spec fn spec_rx_config(div: MasterClockDivider) -> SaiConfig;

    /// The register program issued while the driver is constructed.
    spec fn spec_setup_ops() -> Seq<CodecOp>;

    /// The sequence the start phase performs.
    spec fn spec_start_ops() -> Seq<CodecOp>;

    /// Builds the program for one sample rate.
    fn for_rate(fs: Fs) -> (r: Self)
        ensures
            r.spec_fs() == fs;

    /// Runtime form of [`Self::spec_bus_dev`].
    fn bus_dev(&self) -> (r: u8)
        ensures
            r == Self::spec_bus_dev();

    /// Runtime form of [`Self::spec_tx_config`].
    fn tx_config(&self, div: MasterClockDivider) -> (r: SaiConfig)
        ensures
            r == Self::spec_tx_config(div);

    /// Runtime form of [`Self::spec_rx_config`].
    fn rx_config(&self, div: MasterClockDivider) -> (r: SaiConfig)
        ensures
            r == Self::spec_rx_config(div);

    /// Runtime form of [`Self::spec_setup_ops`].
    fn setup_ops(&self) -> (r: Vec<CodecOp>)
        ensures
            r@ == Self::spec_setup_ops();

    /// Runtime form of [`Self::spec_start_ops`].
    fn start_ops(&self) -> (r: Vec<CodecOp>)
        ensures
            r@ == Self::spec_start_ops();

    /// The two configurations form a well-formed pair, and the divider is
    /// taken over as given.
    proof fn lemma_configs_wf(div: MasterClockDivider)
        ensures
            config_pair_wf(Self::spec_tx_config(div), Self::spec_rx_config(div)),
            Self::spec_tx_config(div).master_clock_divider == div,
            Self::spec_rx_config(div).master_clock_divider == div,
    ;

    /// The construction-phase program speaks only to the control bus and
    /// the reset line: it never touches a transfer engine, so a fault in
    /// it halts the bring-up before any transfer could begin.
    proof fn lemma_setup_touches_no_engine()
        ensures
            forall|i: int|
                0 <= i < Self::spec_setup_ops().len() ==> !op_is_engine(
                    #[trigger] Self::spec_setup_ops()[i],
                ),
    ;

    /// The start phase starts the receiver, and where the receiver is a
    /// follower of the transmitter's clock, the transmitter kick comes
    /// strictly first — otherwise no frame-sync edge would ever arrive.
    proof fn lemma_start_ordering(div: MasterClockDivider)
        ensures
            exists|j: int|
                0 <= j < Self::spec_start_ops().len() && #[trigger] Self::spec_start_ops()[j]
                    is RxStart,
            rx_follows_tx(Self::spec_tx_config(div), Self::spec_rx_config(div))
                ==> kick_precedes_start(Self::spec_start_ops()),
    ;
}

/// A codec driver: the chip's program together with the two transfer
/// engines it owns. Created by the peripherals builder, started once,
/// then driven block by block.
pub struct Codec<P: CodecProgram> {
    pub program: P,
    pub sai_tx: SaiEngine,
    pub sai_rx: SaiEngine,
}

impl<P: CodecProgram> Codec<P> {
    /// The divider both engines were configured with.
    pub open spec fn divider(&self) -> MasterClockDivider {
        self.sai_tx.config.master_clock_divider
    }

    /// Engines sized and configured exactly as the program prescribes.
    pub open spec fn wf(&self) -> bool {
        &&& self.sai_tx.wf()
        &&& self.sai_rx.wf()
        &&& self.sai_tx.config == P::spec_tx_config(self.divider())
        &&& self.sai_rx.config == P::spec_rx_config(self.divider())
    }

    /// Binds fresh, zero-filled engines to the chip's configurations.
    /// Nothing is transferred until [`Self::start`].
    pub fn new(fs: Fs, div: MasterClockDivider) -> (r: Codec<P>)
        ensures
            r.wf(),
            r.program.spec_fs() == fs,
            r.divider() == div,
            !r.sai_tx.running,
            !r.sai_rx.running,
            r.sai_tx.next_half == false,
            r.sai_rx.next_half == false,
            forall|i: int| 0 <= i < r.sai_tx.buffer@.len() ==> r.sai_tx.buffer@[i] == 0u32,
            forall|i: int| 0 <= i < r.sai_rx.buffer@.len() ==> r.sai_rx.buffer@[i] == 0u32,
    {
        let program = P::for_rate(fs);
        let txc = program.tx_config(div);
        let rxc = program.rx_config(div);
        proof {
            P::lemma_configs_wf(div);
        }
        Codec { program, sai_tx: SaiEngine::new(txc), sai_rx: SaiEngine::new(rxc) }
    }

    /// Issues the construction-phase register program against a reply
    /// script. A control-bus fault is unrecoverable here: the run halts at
    /// the failing step, and since this phase never addresses an engine,
    /// the engines come out exactly as they went in, never started.
    pub fn run_setup(&mut self, replies: &Vec<BusReply>) -> (r: (
        Vec<IoStep>,
        Result<(), BringUpError>,
    ))
        requires
            old(self).wf(),
            replies@.len() >= P::spec_setup_ops().len(),
        ensures
            final(self).program == old(self).program,
            final(self).sai_tx == old(self).sai_tx,
            final(self).sai_rx == old(self).sai_rx,
            ({
                let (steps, res) = r;
                let ops = P::spec_setup_ops();
                let k = steps@.len() as int;
                &&& k <= ops.len()
                &&& forall|j: int| 0 <= j < k ==> !op_fails(ops[j], replies@[j])
                &&& forall|j: int|
                    0 <= j < k ==> steps@[j] == io_step_of(
                        P::spec_bus_dev(),
                        ops[j],
                        replies@[j],
                    )
                &&& forall|j: int|
                    0 <= j < k ==> !(#[trigger] steps@[j] is KickedTx) && !(steps@[j] is StartedRx)
                &&& match res {
                    Ok(()) => k == ops.len(),
                    Err(BringUpError::BusFault { step }) => step == k && k < ops.len()
                        && op_fails(ops[k], replies@[k]) && op_is_bus(ops[k]),
                    Err(_) => false,
                }
            }),
    {
        let ops = self.program.setup_ops();
        let dev = self.program.bus_dev();
        proof {
            P::lemma_setup_touches_no_engine();
        }
        let (steps, res) = run_ops(&ops, replies, dev, &mut self.sai_tx, &mut self.sai_rx);
        proof {
            let opsg = P::spec_setup_ops();
            assert forall|j: int| 0 <= j < steps@.len() implies !(#[trigger] steps@[j]
                is KickedTx) && !(steps@[j] is StartedRx) by {
                assert(!op_is_engine(opsg[j]));
                assert(steps@[j] == io_step_of(P::spec_bus_dev(), opsg[j], replies@[j]));
            }
        }
        (steps, res)
    }

    /// Performs the start phase: remaining register writes, the
    /// transmitter kick where the receiver follows the transmitter, and
    /// the receiver start. On success the receiver is running.
    pub fn start(&mut self, replies: &Vec<BusReply>) -> (r: (
        Vec<IoStep>,
        Result<(), BringUpError>,
    ))
        requires
            old(self).wf(),
            replies@.len() >= P::spec_start_ops().len(),
        ensures
            final(self).wf(),
            final(self).program == old(self).program,
            final(self).divider() == old(self).divider(),
            final(self).sai_tx.config == old(self).sai_tx.config,
            final(self).sai_tx.buffer == old(self).sai_tx.buffer,
            final(self).sai_tx.next_half == old(self).sai_tx.next_half,
            final(self).sai_rx.config == old(self).sai_rx.config,
            final(self).sai_rx.buffer == old(self).sai_rx.buffer,
            final(self).sai_rx.next_half == old(self).sai_rx.next_half,
            ({
                let (steps, res) = r;
                let ops = P::spec_start_ops();
                let k = steps@.len() as int;
                &&& k <= ops.len()
                &&& forall|j: int| 0 <= j < k ==> !op_fails(ops[j], replies@[j])
                &&& forall|j: int|
                    0 <= j < k ==> steps@[j] == io_step_of(
                        P::spec_bus_dev(),
                        ops[j],
                        replies@[j],
                    )
                &&& match res {
                    Ok(()) => k == ops.len(),
                    Err(BringUpError::BusFault { step }) => step == k && k < ops.len()
                        && op_fails(ops[k], replies@[k]) && op_is_bus(ops[k]),
                    Err(BringUpError::EngineFault { step }) => step == k && k < ops.len()
                        && op_fails(ops[k], replies@[k]) && op_is_engine(ops[k]),
                    Err(BringUpError::DividerOutOfRange) => false,
                }
                &&& final(self).sai_tx.running == (old(self).sai_tx.running || exists|j: int|
                    0 <= j < k && ops[j] is TxKick)
                &&& final(self).sai_rx.running == (old(self).sai_rx.running || exists|j: int|
                    0 <= j < k && ops[j] is RxStart)
                &&& res is Ok ==> final(self).sai_rx.running
            }),
    {
        let ops = self.program.start_ops();
        let dev = self.program.bus_dev();
        let (steps, res) = run_ops(&ops, replies, dev, &mut self.sai_tx, &mut self.sai_rx);
        proof {
            if res is Ok {
                P::lemma_start_ordering(old(self).divider());
            }
        }
        (steps, res)
    }

    /// One receive step: hands out the completed block the engine
    /// delivered, or the engine's fault, which is returned to the caller
    /// rather than retried — after a fault the buffered data may be stale.
    pub fn read(&mut self, outcome: &ReadOutcome) -> (r: Result<Vec<u32>, TransferError>)
        requires
            old(self).wf(),
            outcome matches ReadOutcome::Block(b) ==> b@.len() == HALF_DMA_BUFFER_LENGTH,
        ensures
            final(self).wf(),
            final(self).program == old(self).program,
            final(self).sai_tx == old(self).sai_tx,
            final(self).divider() == old(self).divider(),
            match *outcome {
                ReadOutcome::Block(b) => r matches Ok(out) && out@ == b@ && engine_took_block(
                    old(self).sai_rx,
                    final(self).sai_rx,
                    b@,
                ),
                ReadOutcome::Fault(e) => r == Err::<Vec<u32>, TransferError>(e) && final(self).sai_rx
                    == old(self).sai_rx,
            },
    {
        match outcome {
            ReadOutcome::Block(b) => Ok(self.sai_rx.deliver_block(b)),
            ReadOutcome::Fault(e) => Err(*e),
        }
    }

    /// One transmit step: queues the block into the half the next
    /// transfer uses, unless the engine faulted, in which case the block
    /// is not consumed and the fault is returned.
    pub fn write(&mut self, data: &Vec<u32>, outcome: WriteOutcome) -> (r: Result<
        (),
        TransferError,
    >)
        requires
            old(self).wf(),
            data@.len() == HALF_DMA_BUFFER_LENGTH,
        ensures
            final(self).wf(),
            final(self).program == old(self).program,
            final(self).sai_rx == old(self).sai_rx,
            final(self).divider() == old(self).divider(),
            match outcome {
                WriteOutcome::Accepted => r is Ok && engine_took_block(
                    old(self).sai_tx,
                    final(self).sai_tx,
                    data@,
                ),
                WriteOutcome::Fault(e) => r == Err::<(), TransferError>(e) && final(self).sai_tx
                    == old(self).sai_tx,
            },
    {
        match outcome {
            WriteOutcome::Accepted => {
                self.sai_tx.accept_block(data);
                Ok(())
            },
            WriteOutcome::Fault(e) => Err(e),
        }
    }

    /// Tears the driver down and returns its parts: the transmit engine,
    /// the receive engine, and the control-bus handle, for repurposing.
    /// The driver is gone afterwards.
    pub fn release(self) -> (r: (SaiEngine, SaiEngine, BusHandle))
        ensures
            r.0 == self.sai_tx,
            r.1 == self.sai_rx,
            r.2.device_addr == P::spec_bus_dev(),
    {
        let dev = self.program.bus_dev();
        (self.sai_tx, self.sai_rx, BusHandle { device_addr: dev })
    }
}

/// Where the receiver follows the transmitter's clock, a completed start
/// transcript kicks the transmitter strictly before it starts the
/// receiver: every receiver start in the transcript is preceded by a
/// transmitter kick.
pub proof fn lemma_transmitter_kicked_first<P: CodecProgram>(
    div: MasterClockDivider,
    dev: u8,
    steps: Seq<IoStep>,
    replies: Seq<BusReply>,
)
    requires
        rx_follows_tx(P::spec_tx_config(div), P::spec_rx_config(div)),
        steps.len() == P::spec_start_ops().len(),
        forall|j: int|
            0 <= j < steps.len() ==> steps[j] == io_step_of(
                dev,
                P::spec_start_ops()[j],
                replies[j],
            ),
    ensures
        forall|j: int|
            0 <= j < steps.len() && #[trigger] steps[j] is StartedRx ==> exists|i: int|
                0 <= i < j && #[trigger] steps[i] is KickedTx,
{
    P::lemma_start_ordering(div);
    let ops = P::spec_start_ops();
    assert forall|j: int| 0 <= j < steps.len() && #[trigger] steps[j] is StartedRx implies exists|
        i: int,
    | 0 <= i < j && #[trigger] steps[i] is KickedTx by {
        assert(ops[j] is RxStart);
        let i = choose|i: int| 0 <= i < j && #[trigger] ops[i] is TxKick;
        assert(steps[i] is KickedTx);
    }
}

} // verus!
