//! Stack unwinding from Windows SEH metadata.
//!
//! A PE module carries, in `.pdata`, a sorted table of `RUNTIME_FUNCTION`
//! records and, in `.xdata`, the `UNWIND_INFO` records they point to. For a
//! code address inside the module this crate finds the covering table entry,
//! follows its (possibly chained) unwind info and folds the unwind codes into
//! one unwind rule. Executing a rule on the registers `(ip, sp, bp)` with a
//! callback that reads the stack yields the caller's registers.
//!
//! Callers hand in the code address relative to the module's base
//! (`rel_lookup_address`).

pub mod aarch64;
pub mod add_signed;
pub mod arch;
pub mod error;
pub mod seh;
pub mod unwind_result;
pub mod x86_64;

pub use aarch64::{ArchAarch64, UnwindRegsAarch64, UnwindRuleAarch64};
pub use arch::Arch;
pub use error::{CompactUnwindInfoUnwinderError, DwarfUnwinderError, Error, UnwinderError};
pub use seh::{RvaMapper, SehUnwinder, SehUnwinderError, SehUnwinding};
pub use unwind_result::UnwindResult;
pub use x86_64::{
    find_runtime_function, read_unwind_info, seh_to_unwind_rule, unwind_info_chain, unwind_info_chunks, ArchX86_64,
    RuntimeFunction, StackOffset, UnwindInfoChunk, UnwindInfoRecord, UnwindOp, UnwindOpAt, UnwindRegsX86_64,
    UnwindRuleX86_64, RBP,
};
