//! Audio data path of an embedded board-support package.
//!
//! The crate models the synchronous serial audio interface of the board:
//! a clock-divider resolver, codec bring-up programs for the supported
//! codec chips, a two-state (Idle/Running) interface around them, and the
//! double-buffered block-transfer loop. Every hardware interaction is
//! expressed as data: a bring-up step list (`bus::CodecOp`) that a driver
//! layer performs, and reply scripts (`bus::BusReply`) standing for what
//! the hardware answered, so that the decision logic is verified for
//! every possible answer.

pub mod audio;
pub mod bus;
pub mod codec;
pub mod flash;
pub mod sai;

use vstd::prelude::*;

verus! {

/// Number of samples per channel in one transferred block.
pub const BLOCK_LENGTH: usize = 32;

/// Length in words of one half of a double buffer: two interleaved channels.
pub const HALF_DMA_BUFFER_LENGTH: usize = BLOCK_LENGTH * 2;

/// Length in words of a whole double buffer: two halves.
pub const DMA_BUFFER_LENGTH: usize = HALF_DMA_BUFFER_LENGTH * 2;

} // verus!
