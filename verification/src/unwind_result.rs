use vstd::prelude::*;

verus! {

/// What unwinding one frame came to.
#[derive(Clone, Copy, Debug, PartialEq, Eq)]
pub enum UnwindResult<R> {
    /// The rule that leads from this frame to its caller. The same rule
    /// holds whenever the frame's code address is met again.
    ExecRule(R),
    /// The registers are the caller's already, and this is the return
    /// address; there is no rule to keep.
    Uncacheable(u64),
}

} // verus!
