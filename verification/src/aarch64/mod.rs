pub mod seh;

use crate::arch::Arch;
use vstd::prelude::*;

verus! {

/// The AArch64 architecture.
pub struct ArchAarch64;

/// The registers that unwinding on AArch64 reads and writes.
#[derive(Clone, Copy, Debug, PartialEq, Eq)]
pub struct UnwindRegsAarch64 {
    pub lr: u64,
    pub sp: u64,
    pub fp: u64,
}

/// How to get from a frame's registers to its caller's.
#[derive(Clone, Copy, Debug, PartialEq, Eq)]
pub enum UnwindRuleAarch64 {
    /// (sp, fp, lr) = (sp, fp, lr): the function has saved nothing yet, and
    /// the return address is in lr.
    NoOp,
}

impl Arch for ArchAarch64 {
    type UnwindRule = UnwindRuleAarch64;

    type UnwindRegs = UnwindRegsAarch64;
}

} // verus!
