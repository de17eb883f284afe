pub mod runtime_function;
pub mod seh;
pub mod unwind_info;
pub mod unwind_op;
pub mod unwind_rule;
pub mod unwindregs;

pub use runtime_function::{find_runtime_function, RuntimeFunction};
pub use seh::{seh_to_unwind_rule, unwind_info_chunks, ArchX86_64, UnwindInfoChunk};
pub use unwind_info::{read_unwind_info, unwind_info_chain, UnwindInfoRecord};
pub use unwind_op::{StackOffset, UnwindOp, UnwindOpAt, RBP};
pub use unwind_rule::UnwindRuleX86_64;
pub use unwindregs::UnwindRegsX86_64;
