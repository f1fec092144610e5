//! Link transactions: the atomic operations the driver asks the hardware
//! shim to perform, in order.
//!
//! A `Command` or `Data` operation is one bus transaction bracketed by the
//! chip-select line (assert, set the command/data selector, transfer,
//! deassert); the shim performs the bracketing. The controller associates a
//! command's parameter bytes with the most recently latched command, so a
//! `Data` operation must follow its `Command` with no other command between
//! them; the driver emits them in that order and the shim must not reorder.
//! The line-level and delay operations stand on their own (the reset pulse
//! brackets chip-select explicitly around the whole pulse).

use vstd::prelude::*;

verus! {

/// One atomic operation on the physical link, in the order emitted.
#[derive(Debug, PartialEq, Eq)]
pub enum LinkOp {
    /// One command byte, sent as a single transaction with the
    /// command/data selector low.
    Command(u8),
    /// A data payload, sent as a single transaction with the
    /// command/data selector high.
    Data(Vec<u8>),
    /// Drive the chip-select line to the given level (low asserts).
    ChipSelect(bool),
    /// Drive the reset line to the given level (low asserts).
    ResetSignal(bool),
    /// Drive the backlight line to the given level (high turns it on).
    Backlight(bool),
    /// Wait the given number of milliseconds before the next operation.
    DelayMs(u32),
}

/// Mathematical image of one link operation.
pub enum LinkOpView {
    Command(u8),
    Data(Seq<u8>),
    ChipSelect(bool),
    ResetSignal(bool),
    Backlight(bool),
    DelayMs(u32),
}

impl View for LinkOp {
    type V = LinkOpView;

    open spec fn view(&self) -> LinkOpView {
        match self {
            LinkOp::Command(c) => LinkOpView::Command(*c),
            LinkOp::Data(bytes) => LinkOpView::Data(bytes@),
            LinkOp::ChipSelect(level) => LinkOpView::ChipSelect(*level),
            LinkOp::ResetSignal(level) => LinkOpView::ResetSignal(*level),
            LinkOp::Backlight(level) => LinkOpView::Backlight(*level),
            LinkOp::DelayMs(ms) => LinkOpView::DelayMs(*ms),
        }
    }
}

/// The transcript a sequence of link operations stands for.
pub open spec fn ops_view(ops: Seq<LinkOp>) -> Seq<LinkOpView> {
    ops.map_values(|op: LinkOp| op@)
}

/// Appending one operation appends its image to the transcript.
pub broadcast proof fn lemma_ops_view_push(ops: Seq<LinkOp>, op: LinkOp)
    ensures
        #[trigger] ops_view(ops.push(op)) == ops_view(ops).push(op@),
{
    assert(ops_view(ops.push(op)) =~= ops_view(ops).push(op@));
}

} // verus!
