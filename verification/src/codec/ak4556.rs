//! Reset-line codec (AK4556): no register bus at all.
//!
//! Bring-up toggles the chip's reset line — high, low, high, with a
//! millisecond hold on each level — after which the chip runs with its
//! pin-strapped format.

use crate::bus::CodecOp;
use vstd::prelude::*;

verus! {

/// Hold time on each reset level, in milliseconds.
pub const RESET_HOLD_MILLIS: u32 = 1;

/// The chip's driver: bring-up is the reset pulse alone.
pub struct Codec {}

impl Codec {
    /// The reset pulse: high, hold, low, hold, high.
    pub open spec fn spec_setup_ops() -> Seq<CodecOp> {
        seq![
            CodecOp::ResetHigh,
            CodecOp::DelayMillis(RESET_HOLD_MILLIS),
            CodecOp::ResetLow,
            CodecOp::DelayMillis(RESET_HOLD_MILLIS),
            CodecOp::ResetHigh,
        ]
    }

    /// The bring-up steps for the chip's reset line.
    pub fn setup_ak4556() -> (r: Vec<CodecOp>)
        ensures
            r@ == Self::spec_setup_ops(),
    {
        let mut r: Vec<CodecOp> = Vec::new();
        r.push(CodecOp::ResetHigh);
        r.push(CodecOp::DelayMillis(RESET_HOLD_MILLIS));
        r.push(CodecOp::ResetLow);
        r.push(CodecOp::DelayMillis(RESET_HOLD_MILLIS));
        r.push(CodecOp::ResetHigh);
        assert(r@ =~= Self::spec_setup_ops());
        r
    }
}

} // verus!
