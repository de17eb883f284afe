use vstd::prelude::*;

verus! {

/// The number of the register `rbp`.
pub const RBP: u8 = 5;

/// Where in the frame a register was saved.
#[derive(Clone, Copy, Debug, PartialEq, Eq)]
pub enum StackOffset {
    /// At this offset from `rsp`, taken after the fixed allocation.
    RSP(u32),
    /// At this offset from the frame register.
    FP(u32),
    /// The record gives no place.
    Unused,
}

/// What one unwind code says the prologue has done. Registers are given by
/// their number: `0` to `15` are the general purpose registers, `17` to `32`
/// are `xmm0` to `xmm15`.
#[derive(Clone, Copy, Debug, PartialEq, Eq)]
pub enum UnwindOp {
    /// A nonvolatile register was pushed.
    PushNonVolatile(u8),
    /// So many bytes were allocated on the stack.
    Alloc(u32),
    /// The frame register was set to `rsp` plus the record's frame register offset.
    SetFPRegister,
    /// A nonvolatile register was stored into the frame.
    SaveNonVolatile(u8, StackOffset),
    /// The low half of an XMM register was stored into the frame.
    SaveXMM(u8, StackOffset),
    /// An XMM register was stored into the frame.
    SaveXMM128(u8, StackOffset),
    /// The hardware pushed a machine frame, with an error code or without.
    PushMachineFrame(bool),
    /// A marker of an epilogue.
    Epilog,
    /// A reserved code.
    Noop,
}

/// An unwind operation with the offset into the prologue of the end of the
/// instruction that performs it.
#[derive(Clone, Copy, Debug, PartialEq, Eq)]
pub struct UnwindOpAt {
    pub code_offset: u8,
    pub operation: UnwindOp,
}

impl UnwindOp {
    /// Operations that say nothing of `rsp` or `rbp`.
    pub open spec fn is_ignored(self) -> bool {
        self is Noop || self is Epilog || self is SaveXMM || self is SaveXMM128
    }
}

} // verus!
