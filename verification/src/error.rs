use crate::seh::SehUnwinderError;
use vstd::prelude::*;
use vstd::std_specs::convert::FromSpecImpl;

verus! {

/// What can go wrong while an unwind rule is executed.
#[derive(Clone, Copy, Debug, PartialEq, Eq)]
pub enum Error {
    /// The stack reader refused the address.
    CouldNotReadStack(u64),
    /// A frame pointer walk would not have moved the stack pointer up.
    FramepointerUnwindingMovedBackwards,
    /// Neither the code address nor the stack pointer changed.
    DidNotAdvance,
    /// An address computation left the range of `u64`.
    IntegerOverflow,
    /// The return address is null.
    ReturnAddressIsNull,
}

/// Why DWARF call frame information gave no caller.
#[derive(Clone, Copy, Debug, PartialEq, Eq)]
pub enum DwarfUnwinderError {
    StackPointerMovedBackwards,
    DidNotAdvance,
    CouldNotRecoverCfa,
    CouldNotRecoverReturnAddress,
    CouldNotRecoverFramePointer,
}

/// Why compact unwind info gave no caller.
#[derive(Clone, Copy, Debug, PartialEq, Eq)]
pub enum CompactUnwindInfoUnwinderError {
    AddressOutsideRange(u32),
    CallerCannotBeFrameless,
    FunctionHasNoInfo,
    BpOffsetDoesNotFit,
    BadOpcodeKind(u8),
    /// The entry referred to DWARF call frame information, which failed.
    BadDwarfUnwinding(DwarfUnwinderError),
    NoTextBytesToLookUpIndirectStackOffset,
    StackSizeDoesNotFit,
}

/// Why no unwind rule was found for an address, whatever kind of unwind
/// data its module has.
#[derive(Clone, Copy, Debug, PartialEq, Eq)]
pub enum UnwinderError {
    /// Compact unwind info unwinding failed.
    CompactUnwindInfo(CompactUnwindInfoUnwinderError),
    /// DWARF unwinding failed.
    Dwarf(DwarfUnwinderError),
    /// SEH unwinding failed.
    Seh(SehUnwinderError),
    /// The compact unwind info referred to DWARF call frame information,
    /// and the module has none.
    NoDwarfData,
    /// The module that contains the address has no unwind data.
    NoModuleUnwindData,
    /// The search table of the call frame information did not have the address.
    EhFrameHdrCouldNotFindAddress,
    /// The index of the call frame information did not have the address.
    DwarfCfiIndexCouldNotFindAddress,
}

impl From<CompactUnwindInfoUnwinderError> for UnwinderError {
    /// A failure of the DWARF unwinding that compact unwind info led to
    /// counts as a DWARF failure.
    fn from(e: CompactUnwindInfoUnwinderError) -> (error: Self) {
        match e {
            CompactUnwindInfoUnwinderError::BadDwarfUnwinding(e) => UnwinderError::Dwarf(e),
            e => UnwinderError::CompactUnwindInfo(e),
        }
    }
}

impl FromSpecImpl<CompactUnwindInfoUnwinderError> for UnwinderError {
    open spec fn obeys_from_spec() -> bool {
        true
    }

    open spec fn from_spec(e: CompactUnwindInfoUnwinderError) -> Self {
        match e {
            CompactUnwindInfoUnwinderError::BadDwarfUnwinding(e) => UnwinderError::Dwarf(e),
            e => UnwinderError::CompactUnwindInfo(e),
        }
    }
}

impl From<DwarfUnwinderError> for UnwinderError {
    fn from(e: DwarfUnwinderError) -> (error: Self) {
        UnwinderError::Dwarf(e)
    }
}

impl FromSpecImpl<DwarfUnwinderError> for UnwinderError {
    open spec fn obeys_from_spec() -> bool {
        true
    }

    open spec fn from_spec(e: DwarfUnwinderError) -> Self {
        UnwinderError::Dwarf(e)
    }
}

impl From<SehUnwinderError> for UnwinderError {
    fn from(e: SehUnwinderError) -> (error: Self) {
        UnwinderError::Seh(e)
    }
}

impl FromSpecImpl<SehUnwinderError> for UnwinderError {
    open spec fn obeys_from_spec() -> bool {
        true
    }

    open spec fn from_spec(e: SehUnwinderError) -> Self {
        UnwinderError::Seh(e)
    }
}

} // verus!
