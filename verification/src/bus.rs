//! Bring-up steps, bus replies, and the step executor.
//!
//! A codec's bring-up is a list of [`CodecOp`] steps. A driver layer
//! performs each step against the hardware and reports what came back as
//! a [`BusReply`]; the executor here decides, for every possible reply
//! script, which steps run, what goes on the wire ([`IoStep`]), and when
//! the bring-up halts. Control-bus faults are unrecoverable within a
//! bring-up: no step after the first fault is ever performed.

use crate::sai::SaiEngine;
use vstd::prelude::*;

verus! {

/// One step of a codec bring-up or start sequence.
#[derive(Clone, Copy, Debug, PartialEq, Eq, Structural)]
pub enum CodecOp {
    /// Write one framed register value over the control bus: 7 address
    /// bits and 9 data bits packed into two bytes.
    WriteFramed { addr: u8, value: u16 },
    /// Read register `reg` over the control bus, apply `mask` according
    /// to `set`, and write the result back.
    Rmw { reg: u8, mask: u8, set: bool },
    /// Suspend for the given number of microseconds.
    DelayMicros(u32),
    /// Suspend for the given number of milliseconds.
    DelayMillis(u32),
    /// Drive the codec reset line high.
    ResetHigh,
    /// Drive the codec reset line low.
    ResetLow,
    /// Kick the transmitter by handing it one all-zero block.
    TxKick,
    /// Start the receive engine.
    RxStart,
}

/// What the hardware answered to one step. For a register read the byte
/// is the value read; for every other step it carries no information.
#[derive(Clone, Copy, Debug, PartialEq, Eq, Structural)]
pub enum BusReply {
    Done(u8),
    Fault,
}

/// One performed step, as it went on the wire.
#[derive(Clone, Copy, Debug, PartialEq, Eq, Structural)]
pub enum IoStep {
    /// Two bytes written to the control-bus device `dev`.
    WroteBus { dev: u8, byte1: u8, byte2: u8 },
    /// Register `reg` of device `dev` read as `read`, then rewritten as `wrote`.
    RmwBus { dev: u8, reg: u8, read: u8, wrote: u8 },
    WaitedMicros(u32),
    WaitedMillis(u32),
    SetReset(bool),
    KickedTx,
    StartedRx,
}

/// Failure of a bring-up or start sequence, with the step it stopped at.
#[derive(Clone, Copy, Debug, PartialEq, Eq, Structural)]
pub enum BringUpError {
    /// No master-clock divider in range realises the requested rate.
    DividerOutOfRange,
    /// A control-bus transaction failed; unrecoverable during bring-up.
    BusFault { step: usize },
    /// A transfer engine reported a fault during its kick or start.
    EngineFault { step: usize },
}

/// Ownership token for the control-bus connection to one codec chip.
/// Handed back by a driver's `release`, after which the driver is gone.
#[derive(Clone, Copy, Debug, PartialEq, Eq, Structural)]
pub struct BusHandle {
    /// The device address the codec answers on.
    pub device_addr: u8,
}

/// Every receiver start in the step list is preceded by a transmitter
/// kick. Required wherever the receiver's clock follows the transmitter:
/// a receiver started first would wait for frame-sync edges forever.
pub open spec fn kick_precedes_start(ops: Seq<CodecOp>) -> bool {
    forall|j: int|
        0 <= j < ops.len() && (#[trigger] ops[j]) is RxStart ==> exists|i: int|
            0 <= i < j && (#[trigger] ops[i]) is TxKick
}

/// High byte of a framed register write: the 7-bit register address
/// shifted left once, with the 9-bit value's high bit in the low bit.
pub open spec fn spec_pack_hi(addr: u8, value: u16) -> u8 {
    ((addr << 1) & 0xfe) | (((value >> 8) & 1) as u8)
}

/// Low byte of a framed register write: the low 8 bits of the value.
pub open spec fn spec_pack_lo(value: u16) -> u8 {
    (value & 0xff) as u8
}

/// Packs a 7-bit register address and a 9-bit value into the two-byte
/// frame the codec expects on the control bus.
pub fn pack_frame(addr: u8, value: u16) -> (r: (u8, u8))
    ensures
        r.0 == spec_pack_hi(addr, value),
        r.1 == spec_pack_lo(value),
{
    let byte1: u8 = ((addr << 1) & 0xfe) | (((value >> 8) & 1) as u8);
    let byte2: u8 = (value & 0xff) as u8;
    (byte1, byte2)
}

/// The register address a framed write addresses.
pub open spec fn spec_unpack_addr(byte1: u8) -> u8 {
    byte1 >> 1
}

/// The 9-bit value a framed write carries.
pub open spec fn spec_unpack_value(byte1: u8, byte2: u8) -> u16 {
    (((byte1 & 1) as u16) << 8) | (byte2 as u16)
}

/// Packing a 7-bit address and a 9-bit value into a frame loses nothing:
/// both can be recovered from the two bytes on the wire.
pub proof fn lemma_pack_frame_roundtrip(addr: u8, value: u16)
    requires
        addr < 128,
        value < 512,
    ensures
        spec_unpack_addr(spec_pack_hi(addr, value)) == addr,
        spec_unpack_value(spec_pack_hi(addr, value), spec_pack_lo(value)) == value,
{
    assert(addr < 128 ==> (((addr << 1) & 0xfe) | (((value >> 8) & 1) as u8)) >> 1 == addr)
        by (bit_vector);
    assert(value < 512 ==> ((((((addr << 1) & 0xfe) | (((value >> 8) & 1) as u8)) & 1) as u16)
        << 8) | ((value & 0xff) as u8) as u16 == value) by (bit_vector);
}

/// The value written back by a read-modify-write step: the byte read,
/// with the mask bits set or cleared.
pub open spec fn spec_rmw_value(current: u8, mask: u8, set: bool) -> u8 {
    if set {
        current | mask
    } else {
        current & !mask
    }
}

/// Runtime form of [`spec_rmw_value`].
pub fn rmw_value(current: u8, mask: u8, set: bool) -> (r: u8)
    ensures
        r == spec_rmw_value(current, mask, set),
{
    if set {
        current | mask
    } else {
        current & !mask
    }
}

/// A read-modify-write settles after one application: applying the same
/// mask again changes nothing.
pub proof fn lemma_rmw_value_idempotent(current: u8, mask: u8, set: bool)
    ensures
        spec_rmw_value(spec_rmw_value(current, mask, set), mask, set) == spec_rmw_value(
            current,
            mask,
            set,
        ),
{
    assert((current | mask) | mask == current | mask) by (bit_vector);
    assert((current & !mask) & !mask == current & !mask) by (bit_vector);
}

/// Whether a step can fail: control-bus transactions and engine
/// operations can; suspensions and the reset line cannot.
pub open spec fn op_fallible(op: CodecOp) -> bool {
    match op {
        CodecOp::WriteFramed { .. } => true,
        CodecOp::Rmw { .. } => true,
        CodecOp::TxKick => true,
        CodecOp::RxStart => true,
        _ => false,
    }
}

/// Whether a step is a control-bus transaction.
pub open spec fn op_is_bus(op: CodecOp) -> bool {
    op is WriteFramed || op is Rmw
}

/// Whether a step acts on a transfer engine.
pub open spec fn op_is_engine(op: CodecOp) -> bool {
    op is TxKick || op is RxStart
}

/// A step fails exactly when it is fallible and the hardware answered
/// with a fault.
pub open spec fn op_fails(op: CodecOp, reply: BusReply) -> bool {
    op_fallible(op) && reply is Fault
}

/// What one performed step put on the wire, given the hardware's reply.
pub open spec fn io_step_of(dev: u8, op: CodecOp, reply: BusReply) -> IoStep {
    match op {
        CodecOp::WriteFramed { addr, value } => IoStep::WroteBus {
            dev,
            byte1: spec_pack_hi(addr, value),
            byte2: spec_pack_lo(value),
        },
        CodecOp::Rmw { reg, mask, set } => {
            let read = reply->Done_0;
            IoStep::RmwBus { dev, reg, read, wrote: spec_rmw_value(read, mask, set) }
        },
        CodecOp::DelayMicros(n) => IoStep::WaitedMicros(n),
        CodecOp::DelayMillis(n) => IoStep::WaitedMillis(n),
        CodecOp::ResetHigh => IoStep::SetReset(true),
        CodecOp::ResetLow => IoStep::SetReset(false),
        CodecOp::TxKick => IoStep::KickedTx,
        CodecOp::RxStart => IoStep::StartedRx,
    }
}

/// Performs a step list against a reply script.
///
/// Steps run in order; `replies[j]` answers `ops[j]`. The first failing
/// step halts the run: it and everything after it stay unperformed, so a
/// fault during bring-up leaves the engines exactly as they were. The
/// returned transcript holds what went on the wire, one entry per
/// performed step. The engines change only through a performed `TxKick`
/// or `RxStart`, which mark them running; buffers and configurations are
/// never touched here.
pub fn run_ops(
    ops: &Vec<CodecOp>,
    replies: &Vec<BusReply>,
    dev: u8,
    tx: &mut SaiEngine,
    rx: &mut SaiEngine,
) -> (r: (Vec<IoStep>, Result<(), BringUpError>))
    requires
        replies@.len() >= ops@.len(),
    ensures
        ({
            let (steps, res) = r;
            let k = steps@.len() as int;
            &&& k <= ops@.len()
            &&& forall|j: int| 0 <= j < k ==> !op_fails(ops@[j], replies@[j])
            &&& forall|j: int|
                0 <= j < k ==> steps@[j] == io_step_of(dev, ops@[j], replies@[j])
            &&& match res {
                Ok(()) => k == ops@.len(),
                Err(BringUpError::BusFault { step }) => step == k && k < ops@.len() && op_fails(
                    ops@[k],
                    replies@[k],
                ) && op_is_bus(ops@[k]),
                Err(BringUpError::EngineFault { step }) => step == k && k < ops@.len()
                    && op_fails(ops@[k], replies@[k]) && op_is_engine(ops@[k]),
                Err(BringUpError::DividerOutOfRange) => false,
            }
            &&& final(tx).config == old(tx).config
            &&& final(tx).buffer == old(tx).buffer
            &&& final(tx).next_half == old(tx).next_half
            &&& final(tx).running == (old(tx).running || exists|j: int|
                0 <= j < k && ops@[j] is TxKick)
            &&& final(rx).config == old(rx).config
            &&& final(rx).buffer == old(rx).buffer
            &&& final(rx).next_half == old(rx).next_half
            &&& final(rx).running == (old(rx).running || exists|j: int|
                0 <= j < k && ops@[j] is RxStart)
        }),
{
    let mut steps: Vec<IoStep> = Vec::new();
    let mut j: usize = 0;
    while j < ops.len()
        invariant
            replies@.len() >= ops@.len(),
            j <= ops@.len(),
            steps@.len() == j,
            forall|i: int| 0 <= i < j ==> !op_fails(ops@[i], replies@[i]),
            forall|i: int| 0 <= i < j ==> steps@[i] == io_step_of(dev, ops@[i], replies@[i]),
            tx.config == old(tx).config,
            tx.buffer == old(tx).buffer,
            tx.next_half == old(tx).next_half,
            tx.running == (old(tx).running || exists|i: int| 0 <= i < j && ops@[i] is TxKick),
            rx.config == old(rx).config,
            rx.buffer == old(rx).buffer,
            rx.next_half == old(rx).next_half,
            rx.running == (old(rx).running || exists|i: int| 0 <= i < j && ops@[i] is RxStart),
        decreases ops@.len() - j,
    {
        let op = ops[j];
        let reply = replies[j];
        match op {
            CodecOp::WriteFramed { addr, value } => {
                if matches!(reply, BusReply::Fault) {
                    return (steps, Err(BringUpError::BusFault { step: j }));
                }
                let (byte1, byte2) = pack_frame(addr, value);
                steps.push(IoStep::WroteBus { dev, byte1, byte2 });
            },
            CodecOp::Rmw { reg, mask, set } => {
                match reply {
                    BusReply::Fault => {
                        return (steps, Err(BringUpError::BusFault { step: j }));
                    },
                    BusReply::Done(read) => {
                        let wrote = rmw_value(read, mask, set);
                        steps.push(IoStep::RmwBus { dev, reg, read, wrote });
                    },
                }
            },
            CodecOp::DelayMicros(n) => {
                steps.push(IoStep::WaitedMicros(n));
            },
            CodecOp::DelayMillis(n) => {
                steps.push(IoStep::WaitedMillis(n));
            },
            CodecOp::ResetHigh => {
                steps.push(IoStep::SetReset(true));
            },
            CodecOp::ResetLow => {
                steps.push(IoStep::SetReset(false));
            },
            CodecOp::TxKick => {
                if matches!(reply, BusReply::Fault) {
                    return (steps, Err(BringUpError::EngineFault { step: j }));
                }
                tx.running = true;
                steps.push(IoStep::KickedTx);
            },
            CodecOp::RxStart => {
                if matches!(reply, BusReply::Fault) {
                    return (steps, Err(BringUpError::EngineFault { step: j }));
                }
                rx.running = true;
                steps.push(IoStep::StartedRx);
            },
        }
        j += 1;
    }
    (steps, Ok(()))
}

} // verus!
