use vstd::prelude::*;

verus! {

/// An architecture: its unwind rules and the registers they work on.
pub trait Arch {
    type UnwindRule;

    type UnwindRegs;
}

} // verus!
