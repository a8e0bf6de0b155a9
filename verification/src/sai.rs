//! Model of the serial audio transfer engines.
//!
//! A [`SaiEngine`] stands for one sub-block (transmit or receive) of the
//! serial audio peripheral: its immutable frame configuration, its DMA
//! double buffer, which half the next transfer touches, and whether the
//! engine has been started. The application-visible block is always a
//! completed half; the half a transfer is about to use is never handed out.

use crate::audio::MasterClockDivider;
use crate::DMA_BUFFER_LENGTH;
use crate::HALF_DMA_BUFFER_LENGTH;
use vstd::prelude::*;

verus! {

/// Whether the sub-block generates the bit clock or follows it.
#[derive(Clone, Copy, Debug, PartialEq, Eq, Structural)]
pub enum SaiMode {
    Master,
    Slave,
}

/// Transfer direction of the sub-block.
#[derive(Clone, Copy, Debug, PartialEq, Eq, Structural)]
pub enum SaiDir {
    Transmitter,
    Receiver,
}

/// Clock edge on which data is strobed.
#[derive(Clone, Copy, Debug, PartialEq, Eq, Structural)]
pub enum ClockStrobe {
    Rising,
    Falling,
}

/// Where the sub-block takes its frame synchronisation from.
#[derive(Clone, Copy, Debug, PartialEq, Eq, Structural)]
pub enum SyncInput {
    /// The sub-block owns its synchronisation (or drives it outward).
    Independent,
    /// The sub-block follows the other sub-block of the same peripheral.
    Internal,
}

/// Bit ordering inside one data word on the wire.
#[derive(Clone, Copy, Debug, PartialEq, Eq, Structural)]
pub enum BitOrder {
    MsbFirst,
    LsbFirst,
}

/// Polarity of the frame-sync signal.
#[derive(Clone, Copy, Debug, PartialEq, Eq, Structural)]
pub enum FrameSyncPolarity {
    ActiveHigh,
    ActiveLow,
}

/// Offset of the frame-sync edge relative to the first data bit.
#[derive(Clone, Copy, Debug, PartialEq, Eq, Structural)]
pub enum FrameSyncOffset {
    OnFirstBit,
    BeforeFirstBit,
}

/// Channel arrangement of the stream.
#[derive(Clone, Copy, Debug, PartialEq, Eq, Structural)]
pub enum StereoMono {
    Stereo,
    Mono,
}

/// FIFO level at which the engine requests a transfer.
#[derive(Clone, Copy, Debug, PartialEq, Eq, Structural)]
pub enum FifoThreshold {
    Empty,
    Quarter,
    Half,
    ThreeQuarters,
    Full,
}

/// Width of one slot within the audio frame.
#[derive(Clone, Copy, Debug, PartialEq, Eq, Structural)]
pub enum SlotSize {
    /// The slot is exactly as wide as the data.
    DataSize,
    /// The slot is padded to 32 bits.
    Channel32,
}

/// Representation of negative samples on the wire.
#[derive(Clone, Copy, Debug, PartialEq, Eq, Structural)]
pub enum ComplementFormat {
    OnesComplement,
    TwosComplement,
}

/// Immutable frame configuration of one transfer engine.
#[derive(Clone, Copy, Debug, PartialEq, Eq, Structural)]
pub struct SaiConfig {
    pub mode: SaiMode,
    pub tx_rx: SaiDir,
    pub sync_output: bool,
    pub sync_input: SyncInput,
    pub clock_strobe: ClockStrobe,
    pub master_clock_divider: MasterClockDivider,
    pub stereo_mono: StereoMono,
    /// Sample width in bits.
    pub data_size: u8,
    pub bit_order: BitOrder,
    pub frame_sync_polarity: FrameSyncPolarity,
    pub frame_sync_offset: FrameSyncOffset,
    /// Length of one frame in bit clocks.
    pub frame_length: u8,
    /// Length of the active level of the frame sync, in bit clocks.
    pub frame_sync_active_level_length: u8,
    pub fifo_threshold: FifoThreshold,
    pub mute_detection_counter: u8,
    pub slot_size: SlotSize,
    pub complement_format: ComplementFormat,
}

impl SaiConfig {
    /// The neutral configuration from which every codec variant starts.
    pub open spec fn spec_base(div: MasterClockDivider) -> SaiConfig {
        SaiConfig {
            mode: SaiMode::Master,
            tx_rx: SaiDir::Transmitter,
            sync_output: false,
            sync_input: SyncInput::Independent,
            clock_strobe: ClockStrobe::Falling,
            master_clock_divider: div,
            stereo_mono: StereoMono::Stereo,
            data_size: 24,
            bit_order: BitOrder::MsbFirst,
            frame_sync_polarity: FrameSyncPolarity::ActiveHigh,
            frame_sync_offset: FrameSyncOffset::OnFirstBit,
            frame_length: 64,
            frame_sync_active_level_length: 32,
            fifo_threshold: FifoThreshold::Quarter,
            mute_detection_counter: 0,
            slot_size: SlotSize::DataSize,
            complement_format: ComplementFormat::TwosComplement,
        }
    }

    /// Runtime form of [`Self::spec_base`].
    pub fn base(div: MasterClockDivider) -> (r: SaiConfig)
        ensures
            r == Self::spec_base(div),
    {
        SaiConfig {
            mode: SaiMode::Master,
            tx_rx: SaiDir::Transmitter,
            sync_output: false,
            sync_input: SyncInput::Independent,
            clock_strobe: ClockStrobe::Falling,
            master_clock_divider: div,
            stereo_mono: StereoMono::Stereo,
            data_size: 24,
            bit_order: BitOrder::MsbFirst,
            frame_sync_polarity: FrameSyncPolarity::ActiveHigh,
            frame_sync_offset: FrameSyncOffset::OnFirstBit,
            frame_length: 64,
            frame_sync_active_level_length: 32,
            fifo_threshold: FifoThreshold::Quarter,
            mute_detection_counter: 0,
            slot_size: SlotSize::DataSize,
            complement_format: ComplementFormat::TwosComplement,
        }
    }
}

/// The transmit and receive configurations of one codec agree on the
/// frame geometry, and exactly one side generates clock and frame sync
/// while the other follows it internally.
pub open spec fn config_pair_wf(tx: SaiConfig, rx: SaiConfig) -> bool {
    &&& tx.tx_rx is Transmitter
    &&& rx.tx_rx is Receiver
    &&& tx.frame_length == rx.frame_length
    &&& tx.data_size == rx.data_size
    &&& tx.master_clock_divider == rx.master_clock_divider
    &&& tx.frame_sync_active_level_length == rx.frame_sync_active_level_length
    &&& (tx.mode is Master <==> !(rx.mode is Master))
    &&& (tx.mode is Master ==> tx.sync_output && !rx.sync_output && rx.sync_input is Internal)
    &&& (rx.mode is Master ==> rx.sync_output && !tx.sync_output && tx.sync_input is Internal)
}

/// The receiver runs in a follower role: its clock and frame sync are
/// derived from the transmitter's activity, so no frame arrives until
/// the transmitter has been kicked.
pub open spec fn rx_follows_tx(tx: SaiConfig, rx: SaiConfig) -> bool {
    rx.mode is Slave && rx.sync_input is Internal && tx.mode is Master
}

/// Fault reported by a transfer engine during start, read or write.
#[derive(Clone, Copy, Debug, PartialEq, Eq, Structural)]
pub enum TransferError {
    /// A receive half-transfer completed before the previous one was consumed.
    Overrun,
    /// The transmitter ran out of data before a new half was supplied.
    Underrun,
    /// The engine rejected its configuration or lost synchronisation.
    ConfigFault,
}

/// One transfer engine: configuration, DMA double buffer, the half the
/// next transfer uses, and whether the engine is running.
pub struct SaiEngine {
    pub config: SaiConfig,
    /// The double buffer; always `DMA_BUFFER_LENGTH` words long.
    pub buffer: Vec<u32>,
    /// Which half the next completed transfer touches.
    pub next_half: bool,
    /// Whether the engine has been started.
    pub running: bool,
}

/// Word offset of a buffer half.
pub open spec fn half_offset(h: bool) -> int {
    if h {
        HALF_DMA_BUFFER_LENGTH as int
    } else {
        0
    }
}

/// The double buffer with half `h` replaced by `data` and the other half kept.
pub open spec fn with_half(buf: Seq<u32>, h: bool, data: Seq<u32>) -> Seq<u32> {
    Seq::new(
        buf.len(),
        |i: int|
            if half_offset(h) <= i < half_offset(h) + HALF_DMA_BUFFER_LENGTH as int {
                data[i - half_offset(h)]
            } else {
                buf[i]
            },
    )
}

/// How an engine changes when one block passes through it: the block
/// lands in the half the next transfer uses, the engine advances to the
/// other half, and nothing else moves.
pub open spec fn engine_took_block(pre: SaiEngine, post: SaiEngine, data: Seq<u32>) -> bool {
    &&& post.buffer@ == with_half(pre.buffer@, pre.next_half, data)
    &&& post.next_half == !pre.next_half
    &&& post.config == pre.config
    &&& post.running == pre.running
}

/// The half in use after `n` further blocks have passed through an
/// engine: each block flips the half.
pub open spec fn flipped_half(h: bool, n: nat) -> bool {
    if n % 2 == 0 {
        h
    } else {
        !h
    }
}

/// The double buffer after a sequence of blocks has passed through the
/// engine, one after the other, starting at half `h`.
pub open spec fn buffer_after_blocks(buf: Seq<u32>, h: bool, blocks: Seq<Seq<u32>>) -> Seq<u32>
    decreases blocks.len(),
{
    if blocks.len() == 0 {
        buf
    } else {
        buffer_after_blocks(with_half(buf, h, blocks[0]), !h, blocks.drop_first())
    }
}

/// How an engine changes when a whole sequence of blocks passes through
/// it, in order: the buffer folds the blocks into alternating halves,
/// the half pointer ends on the matching parity, and nothing else moves.
pub open spec fn engine_took_blocks(pre: SaiEngine, post: SaiEngine, blocks: Seq<Seq<u32>>) -> bool {
    &&& post.buffer@ == buffer_after_blocks(pre.buffer@, pre.next_half, blocks)
    &&& post.next_half == flipped_half(pre.next_half, blocks.len())
    &&& post.config == pre.config
    &&& post.running == pre.running
}

/// Folding one more block: the buffer after `blocks.push(b)` is the
/// buffer after `blocks` with `b` stored in the half that is then in use.
pub proof fn lemma_buffer_after_blocks_push(buf: Seq<u32>, h: bool, blocks: Seq<Seq<u32>>, b: Seq<
    u32,
>)
    ensures
        buffer_after_blocks(buf, h, blocks.push(b)) == with_half(
            buffer_after_blocks(buf, h, blocks),
            flipped_half(h, blocks.len()),
            b,
        ),
    decreases blocks.len(),
{
    reveal_with_fuel(buffer_after_blocks, 3);
    if blocks.len() == 0 {
        assert(blocks.push(b)[0] == b);
        assert(blocks.push(b).drop_first() =~= Seq::<Seq<u32>>::empty());
    } else {
        assert(blocks.push(b)[0] == blocks[0]);
        assert(blocks.push(b).drop_first() =~= blocks.drop_first().push(b));
        lemma_buffer_after_blocks_push(with_half(buf, h, blocks[0]), !h, blocks.drop_first(), b);
        assert(buffer_after_blocks(buf, h, blocks.push(b)) == buffer_after_blocks(
            with_half(buf, h, blocks[0]),
            !h,
            blocks.drop_first().push(b),
        ));
        assert(blocks.drop_first().len() % 2 == 0 <==> blocks.len() % 2 == 1);
        assert(flipped_half(!h, blocks.drop_first().len()) == flipped_half(h, blocks.len()));
        assert(buffer_after_blocks(buf, h, blocks) == buffer_after_blocks(
            with_half(buf, h, blocks[0]),
            !h,
            blocks.drop_first(),
        ));
    }
}

/// An engine that took a block sequence and then one more block took the
/// extended sequence.
pub proof fn lemma_engine_took_blocks_push(
    pre: SaiEngine,
    mid: SaiEngine,
    post: SaiEngine,
    blocks: Seq<Seq<u32>>,
    b: Seq<u32>,
)
    requires
        engine_took_blocks(pre, mid, blocks),
        engine_took_block(mid, post, b),
    ensures
        engine_took_blocks(pre, post, blocks.push(b)),
{
    lemma_buffer_after_blocks_push(pre.buffer@, pre.next_half, blocks, b);
}

/// What the receive engine delivered for one loop iteration: a completed
/// block, or a fault.
pub enum ReadOutcome {
    Block(Vec<u32>),
    Fault(TransferError),
}

/// How the transmit engine answered one queued block.
#[derive(Clone, Copy, Debug, PartialEq, Eq, Structural)]
pub enum WriteOutcome {
    Accepted,
    Fault(TransferError),
}

impl SaiEngine {
    /// The double buffer has its fixed length.
    pub open spec fn wf(&self) -> bool {
        self.buffer@.len() == DMA_BUFFER_LENGTH
    }

    /// A fresh engine: configured, zero-filled buffer, not running.
    pub fn new(config: SaiConfig) -> (r: SaiEngine)
        ensures
            r.wf(),
            r.config == config,
            r.buffer@.len() == DMA_BUFFER_LENGTH,
            forall|i: int| 0 <= i < DMA_BUFFER_LENGTH ==> r.buffer@[i] == 0u32,
            r.next_half == false,
            r.running == false,
    {
        let mut buffer: Vec<u32> = Vec::new();
        let mut i: usize = 0;
        while i < DMA_BUFFER_LENGTH
            invariant
                i <= DMA_BUFFER_LENGTH,
                buffer@.len() == i,
                forall|j: int| 0 <= j < i ==> buffer@[j] == 0u32,
            decreases DMA_BUFFER_LENGTH - i,
        {
            buffer.push(0);
            i += 1;
        }
        SaiEngine { config, buffer, next_half: false, running: false }
    }

    /// A receive half-transfer completed with `data`: the engine stores it
    /// in the half the transfer used, advances to the other half, and the
    /// completed block is handed out. The in-flight half is never exposed.
    pub fn deliver_block(&mut self, data: &Vec<u32>) -> (r: Vec<u32>)
        requires
            old(self).wf(),
            data@.len() == HALF_DMA_BUFFER_LENGTH,
        ensures
            final(self).wf(),
            r@ == data@,
            engine_took_block(*old(self), *final(self), data@),
            final(self).buffer@ == with_half(old(self).buffer@, old(self).next_half, data@),
            final(self).next_half == !old(self).next_half,
            final(self).config == old(self).config,
            final(self).running == old(self).running,
    {
        self.store_half(data);
        let mut out: Vec<u32> = Vec::new();
        let mut i: usize = 0;
        while i < HALF_DMA_BUFFER_LENGTH
            invariant
                i <= HALF_DMA_BUFFER_LENGTH,
                data@.len() == HALF_DMA_BUFFER_LENGTH,
                out@.len() == i,
                forall|j: int| 0 <= j < i ==> out@[j] == data@[j],
            decreases HALF_DMA_BUFFER_LENGTH - i,
        {
            out.push(data[i]);
            i += 1;
        }
        assert(out@ =~= data@);
        out
    }

    /// A block was queued for transmission: it fills the half the next
    /// transmit transfer uses, and the engine advances to the other half.
    pub fn accept_block(&mut self, data: &Vec<u32>)
        requires
            old(self).wf(),
            data@.len() == HALF_DMA_BUFFER_LENGTH,
        ensures
            final(self).wf(),
            engine_took_block(*old(self), *final(self), data@),
            final(self).buffer@ == with_half(old(self).buffer@, old(self).next_half, data@),
            final(self).next_half == !old(self).next_half,
            final(self).config == old(self).config,
            final(self).running == old(self).running,
    {
        self.store_half(data);
    }

    /// Copies `data` into the half the next transfer uses and flips halves.
    fn store_half(&mut self, data: &Vec<u32>)
        requires
            old(self).wf(),
            data@.len() == HALF_DMA_BUFFER_LENGTH,
        ensures
            final(self).wf(),
            final(self).buffer@ == with_half(old(self).buffer@, old(self).next_half, data@),
            final(self).next_half == !old(self).next_half,
            final(self).config == old(self).config,
            final(self).running == old(self).running,
    {
        let off: usize = if self.next_half {
            HALF_DMA_BUFFER_LENGTH
        } else {
            0
        };
        let mut i: usize = 0;
        while i < HALF_DMA_BUFFER_LENGTH
            invariant
                i <= HALF_DMA_BUFFER_LENGTH,
                off == half_offset(old(self).next_half),
                data@.len() == HALF_DMA_BUFFER_LENGTH,
                self.wf(),
                self.next_half == old(self).next_half,
                self.config == old(self).config,
                self.running == old(self).running,
                forall|j: int| 0 <= j < i ==> self.buffer@[off + j] == data@[j],
                forall|j: int|
                    0 <= j < DMA_BUFFER_LENGTH && !(off <= j < off + i) ==> self.buffer@[j]
                        == old(self).buffer@[j],
            decreases HALF_DMA_BUFFER_LENGTH - i,
        {
            self.buffer[off + i] = data[i];
            i += 1;
        }
        assert(self.buffer@ =~= with_half(old(self).buffer@, old(self).next_half, data@));
        self.next_half = !self.next_half;
    }
}

} // verus!
