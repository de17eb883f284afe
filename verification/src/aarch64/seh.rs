use crate::aarch64::{ArchAarch64, UnwindRegsAarch64, UnwindRuleAarch64};
use crate::seh::{RvaMapper, SehUnwinderError, SehUnwinding};
use crate::unwind_result::UnwindResult;
use vstd::prelude::*;

verus! {

impl SehUnwinding for ArchAarch64 {
    /// The unwind data of AArch64 images is not read: no address is covered.
    open spec fn unwinds(
        exception_data: Seq<u8>,
        rel_lookup_address: u32,
        gives: spec_fn(u32, Option<Seq<u8>>) -> bool,
        result: Result<UnwindResult<UnwindRuleAarch64>, SehUnwinderError>,
    ) -> bool {
        result == Err::<UnwindResult<UnwindRuleAarch64>, SehUnwinderError>(
            SehUnwinderError::UnwindInfoForAddressFailed,
        )
    }

    open spec fn uncovered_rule() -> UnwindRuleAarch64 {
        UnwindRuleAarch64::NoOp
    }

    fn unwind_frame<'a, F, G>(
        _exception_data: &'a [u8],
        _rel_lookup_address: u32,
        _rva_mapper: &mut F,
        _regs: &mut UnwindRegsAarch64,
        _is_first_frame: bool,
        _read_stack: &mut G,
    ) -> (result: Result<UnwindResult<UnwindRuleAarch64>, SehUnwinderError>) where
        F: RvaMapper,
        G: FnMut(u64) -> Result<u64, ()>,
     {
        Err(SehUnwinderError::UnwindInfoForAddressFailed)
    }

    fn rule_if_uncovered_by_seh() -> (rule: UnwindRuleAarch64) {
        UnwindRuleAarch64::NoOp
    }
}

} // verus!
