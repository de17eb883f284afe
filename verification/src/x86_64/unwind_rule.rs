use crate::add_signed::{add_signed, checked_add_signed};
use crate::error::Error;
use crate::x86_64::unwindregs::UnwindRegsX86_64;
use vstd::prelude::*;

verus! {

/// How to get from a frame's registers to its caller's.
///
/// For all of these the return address is `*(new_sp - 8)`.
#[derive(Clone, Copy, Debug, PartialEq, Eq)]
pub enum UnwindRuleX86_64 {
    /// (sp, bp) = (sp + 8, bp)
    JustReturn,
    /// (sp, bp) = if is_first_frame (sp + 8, bp) else (bp + 16, *bp)
    JustReturnIfFirstFrameOtherwiseFp,
    /// (sp, bp) = (sp + 8x, bp)
    OffsetSp { sp_offset_by_8: u16 },
    /// (sp, bp) = (sp + 8x, *(sp + 8y))
    OffsetSpAndRestoreBp { sp_offset_by_8: u16, bp_storage_offset_from_sp_by_8: i16 },
    /// (sp, bp) = (bp + 16, *bp)
    UseFramePointer,
    /// (sp, bp) = (bp + 8x, *(bp + 8y))
    UseBasePointer { sp_offset_from_bp_by_8: u16, bp_storage_offset_from_bp_by_8: i16 },
}

/// Where a rule finds the caller's frame, once its address arithmetic has
/// gone through.
#[derive(Clone, Copy, Debug, PartialEq, Eq)]
pub struct CallerFrame {
    /// The caller's stack pointer.
    pub new_sp: u64,
    /// The stack slot that holds the caller's `bp`; `None` where `bp` stays.
    pub bp_slot: Option<u64>,
    /// Whether `bp` stays where the stack reader refuses `bp_slot`.
    pub lenient: bool,
}

/// What the address arithmetic of a rule comes to.
#[derive(Clone, Copy, Debug, PartialEq, Eq)]
pub enum Located {
    /// The frame pointer is null: the chain of frames ends here.
    ChainEnd,
    /// The arithmetic failed.
    Failed(Error),
    /// The caller's frame.
    Frame(CallerFrame),
}

/// `base + 8 * count`, where that is a `u64`.
pub open spec fn offset_by_8(base: u64, count: u16) -> Option<u64> {
    if base + 8 * count <= u64::MAX {
        Some((base + 8 * count) as u64)
    } else {
        None
    }
}

/// The caller's frame right above the return address at `sp`.
pub open spec fn just_return(regs: UnwindRegsX86_64) -> Located {
    match offset_by_8(regs.sp, 1) {
        Some(new_sp) => Located::Frame(CallerFrame { new_sp, bp_slot: None, lenient: false }),
        None => Located::Failed(Error::IntegerOverflow),
    }
}

/// One step of a frame pointer walk: `bp` points at the caller's `bp`, and
/// the return address lies above it.
pub open spec fn frame_pointer_step(regs: UnwindRegsX86_64) -> Located {
    if regs.bp == 0 {
        Located::ChainEnd
    } else {
        match offset_by_8(regs.bp, 2) {
            None => Located::Failed(Error::IntegerOverflow),
            Some(new_sp) => if new_sp <= regs.sp {
                Located::Failed(Error::FramepointerUnwindingMovedBackwards)
            } else {
                Located::Frame(CallerFrame { new_sp, bp_slot: Some(regs.bp), lenient: false })
            },
        }
    }
}

/// The caller's frame at `8 * sp_offset` above `base`, with the caller's `bp`
/// stored at `8 * bp_offset` from `base`. A slot below `sp` may be unreadable
/// in the first frame without harm.
pub open spec fn frame_at_offsets(
    base: u64,
    sp_offset: u16,
    bp_offset: i16,
    lenient_below: Option<u64>,
) -> Located {
    match (offset_by_8(base, sp_offset), add_signed(base, (8 * bp_offset) as i64)) {
        (Some(new_sp), Some(slot)) => Located::Frame(
            CallerFrame {
                new_sp,
                bp_slot: Some(slot),
                lenient: lenient_below matches Some(sp) && slot < sp,
            },
        ),
        _ => Located::Failed(Error::IntegerOverflow),
    }
}

/// The address arithmetic of `rule` on `regs`.
pub open spec fn locate(rule: UnwindRuleX86_64, is_first_frame: bool, regs: UnwindRegsX86_64) -> Located {
    match rule {
        UnwindRuleX86_64::JustReturn => just_return(regs),
        UnwindRuleX86_64::JustReturnIfFirstFrameOtherwiseFp => if is_first_frame {
            just_return(regs)
        } else {
            frame_pointer_step(regs)
        },
        UnwindRuleX86_64::OffsetSp { sp_offset_by_8 } => match offset_by_8(regs.sp, sp_offset_by_8) {
            Some(new_sp) => Located::Frame(CallerFrame { new_sp, bp_slot: None, lenient: false }),
            None => Located::Failed(Error::IntegerOverflow),
        },
        UnwindRuleX86_64::OffsetSpAndRestoreBp { sp_offset_by_8, bp_storage_offset_from_sp_by_8 } => {
            frame_at_offsets(
                regs.sp,
                sp_offset_by_8,
                bp_storage_offset_from_sp_by_8,
                if is_first_frame {
                    Some(regs.sp)
                } else {
                    None
                },
            )
        },
        UnwindRuleX86_64::UseFramePointer => frame_pointer_step(regs),
        UnwindRuleX86_64::UseBasePointer { sp_offset_from_bp_by_8, bp_storage_offset_from_bp_by_8 } => {
            frame_at_offsets(regs.bp, sp_offset_from_bp_by_8, bp_storage_offset_from_bp_by_8, None)
        },
    }
}

/// The caller's `bp`, given what the stack reader said of `frame.bp_slot`.
pub open spec fn caller_bp(frame: CallerFrame, regs: UnwindRegsX86_64, bp_read: Result<u64, ()>) -> Result<
    u64,
    Error,
> {
    match frame.bp_slot {
        None => Ok(regs.bp),
        Some(slot) => match bp_read {
            Ok(bp) => Ok(bp),
            Err(_) => if frame.lenient {
                Ok(regs.bp)
            } else {
                Err(Error::CouldNotReadStack(slot))
            },
        },
    }
}

/// The last steps of a rule: from the caller's frame and what the stack
/// reader said of the slot below `frame.new_sp` to the result and the
/// registers.
pub open spec fn arrive(
    frame: CallerFrame,
    regs: UnwindRegsX86_64,
    new_bp: u64,
    return_read: Result<u64, ()>,
) -> (Result<Option<u64>, Error>, UnwindRegsX86_64) {
    if frame.new_sp < 8 {
        (Err(Error::IntegerOverflow), regs)
    } else {
        match return_read {
            Err(_) => (Err(Error::CouldNotReadStack((frame.new_sp - 8) as u64)), regs),
            Ok(return_address) => if return_address == 0 {
                (Ok(None), regs)
            } else if frame.new_sp == regs.sp && return_address == regs.ip {
                (Err(Error::DidNotAdvance), regs)
            } else {
                (
                    Ok(Some(return_address)),
                    UnwindRegsX86_64 { ip: return_address, sp: frame.new_sp, bp: new_bp },
                )
            },
        }
    }
}

/// What executing `rule` on `regs` returns and leaves in the registers, where
/// the stack reader says `bp_read` of the slot of the caller's `bp` and
/// `return_read` of the slot of the return address.
pub open spec fn exec_outcome(
    rule: UnwindRuleX86_64,
    is_first_frame: bool,
    regs: UnwindRegsX86_64,
    bp_read: Result<u64, ()>,
    return_read: Result<u64, ()>,
) -> (Result<Option<u64>, Error>, UnwindRegsX86_64) {
    match locate(rule, is_first_frame, regs) {
        Located::ChainEnd => (Ok(None), regs),
        Located::Failed(e) => (Err(e), regs),
        Located::Frame(frame) => match caller_bp(frame, regs, bp_read) {
            Err(e) => (Err(e), regs),
            Ok(new_bp) => arrive(frame, regs, new_bp, return_read),
        },
    }
}

/// The address that the stack reader is asked for the caller's `bp`, if any.
pub open spec fn bp_slot_read(rule: UnwindRuleX86_64, is_first_frame: bool, regs: UnwindRegsX86_64) -> Option<
    u64,
> {
    match locate(rule, is_first_frame, regs) {
        Located::Frame(frame) => frame.bp_slot,
        _ => None,
    }
}

/// The address that the stack reader is asked for the return address, if the
/// rule gets that far.
pub open spec fn return_slot_read(
    rule: UnwindRuleX86_64,
    is_first_frame: bool,
    regs: UnwindRegsX86_64,
    bp_read: Result<u64, ()>,
) -> Option<u64> {
    match locate(rule, is_first_frame, regs) {
        Located::Frame(frame) => if caller_bp(frame, regs, bp_read) is Ok && frame.new_sp >= 8 {
            Some((frame.new_sp - 8) as u64)
        } else {
            None
        },
        _ => None,
    }
}

/// The stack reader may be asked for any address.
pub open spec fn reads_anywhere<F: FnMut(u64) -> Result<u64, ()>>(read_stack: F) -> bool {
    forall|addr: u64| #[trigger] call_requires::<(u64,), F>(read_stack, (addr,))
}

/// `value` is an answer of the stack reader for `slot`, where there is one.
pub open spec fn stack_gave<F: FnMut(u64) -> Result<u64, ()>>(
    read_stack: F,
    slot: Option<u64>,
    value: Result<u64, ()>,
) -> bool {
    slot matches Some(addr) ==> call_ensures::<(u64,), F>(read_stack, (addr,), value)
}

/// `result` and `regs_after` are what `rule` comes to on `regs` with the
/// answers `bp_read` and `return_read` of the stack reader.
pub open spec fn executes<F: FnMut(u64) -> Result<u64, ()>>(
    read_stack: F,
    rule: UnwindRuleX86_64,
    is_first_frame: bool,
    regs: UnwindRegsX86_64,
    bp_read: Result<u64, ()>,
    return_read: Result<u64, ()>,
    result: Result<Option<u64>, Error>,
    regs_after: UnwindRegsX86_64,
) -> bool {
    &&& stack_gave(read_stack, bp_slot_read(rule, is_first_frame, regs), bp_read)
    &&& stack_gave(read_stack, return_slot_read(rule, is_first_frame, regs, bp_read), return_read)
    &&& (result, regs_after) == exec_outcome(rule, is_first_frame, regs, bp_read, return_read)
}

impl UnwindRuleX86_64 {
    /// The rule for stubs, which have pushed nothing yet.
    pub fn rule_for_stub_functions() -> (rule: Self)
        ensures
            rule == UnwindRuleX86_64::JustReturn,
    {
        UnwindRuleX86_64::JustReturn
    }

    /// The rule at the first instruction of a function.
    pub fn rule_for_function_start() -> (rule: Self)
        ensures
            rule == UnwindRuleX86_64::JustReturn,
    {
        UnwindRuleX86_64::JustReturn
    }

    /// The rule where nothing is known of the function.
    pub fn fallback_rule() -> (rule: Self)
        ensures
            rule == UnwindRuleX86_64::UseFramePointer,
    {
        UnwindRuleX86_64::UseFramePointer
    }

    /// The address arithmetic of this rule: the caller's stack pointer and
    /// the slot of the caller's `bp`. Every sum is checked.
    pub fn locate(self, is_first_frame: bool, regs: &UnwindRegsX86_64) -> (located: Located)
        ensures
            located == locate(self, is_first_frame, *regs),
    {
        let sp = regs.sp();
        let bp = regs.bp();
        let (base, sp_offset_by_8, bp_offset_by_8, lenient_below) = match self {
            UnwindRuleX86_64::JustReturn => { return Self::just_return(sp); },
            UnwindRuleX86_64::JustReturnIfFirstFrameOtherwiseFp => {
                if is_first_frame {
                    return Self::just_return(sp);
                }
                return Self::frame_pointer_step(sp, bp);
            },
            UnwindRuleX86_64::UseFramePointer => { return Self::frame_pointer_step(sp, bp); },
            UnwindRuleX86_64::OffsetSp { sp_offset_by_8 } => {
                let sp_offset = sp_offset_by_8 as u64 * 8;
                return match sp.checked_add(sp_offset) {
                    Some(new_sp) => Located::Frame(
                        CallerFrame { new_sp, bp_slot: None, lenient: false },
                    ),
                    None => Located::Failed(Error::IntegerOverflow),
                };
            },
            UnwindRuleX86_64::OffsetSpAndRestoreBp {
                sp_offset_by_8,
                bp_storage_offset_from_sp_by_8,
            } => (sp, sp_offset_by_8, bp_storage_offset_from_sp_by_8, is_first_frame),
            UnwindRuleX86_64::UseBasePointer {
                sp_offset_from_bp_by_8,
                bp_storage_offset_from_bp_by_8,
            } => (bp, sp_offset_from_bp_by_8, bp_storage_offset_from_bp_by_8, false),
        };
        let sp_offset = sp_offset_by_8 as u64 * 8;
        let new_sp = match base.checked_add(sp_offset) {
            Some(new_sp) => new_sp,
            None => { return Located::Failed(Error::IntegerOverflow); },
        };
        let bp_offset = bp_offset_by_8 as i64 * 8;
        let bp_location = match checked_add_signed(base, bp_offset) {
            Some(bp_location) => bp_location,
            None => { return Located::Failed(Error::IntegerOverflow); },
        };
        // An unreadable slot below the stack pointer is passed over in the
        // first frame. Such offsets occur in epilogues, where registers have
        // been popped one after the other and the unwind information still
        // points at the slots they were popped from. A stack reader may
        // refuse those addresses, for example where the stack bytes were
        // captured from sp upwards.
        Located::Frame(
            CallerFrame {
                new_sp,
                bp_slot: Some(bp_location),
                lenient: lenient_below && bp_location < sp,
            },
        )
    }

    fn just_return(sp: u64) -> (located: Located)
        ensures
            located == just_return(UnwindRegsX86_64 { ip: 0, sp, bp: 0 }),
    {
        match sp.checked_add(8) {
            Some(new_sp) => Located::Frame(CallerFrame { new_sp, bp_slot: None, lenient: false }),
            None => Located::Failed(Error::IntegerOverflow),
        }
    }

    // Code that is compiled with frame pointers begins with
    //
    //     pushq  %rbp
    //     movq   %rsp, %rbp
    //
    // and the call itself has pushed the return address. So *rbp is the
    // caller's frame pointer and *(rbp + 8) is the return address: the frames
    // form a linked list on the stack, and rbp points at its head.
    //
    // The caller's rbp is taken as it is found: where the caller uses rbp as
    // a general purpose register, any value is a valid one.
    fn frame_pointer_step(sp: u64, bp: u64) -> (located: Located)
        ensures
            located == frame_pointer_step(UnwindRegsX86_64 { ip: 0, sp, bp }),
    {
        if bp == 0 {
            return Located::ChainEnd;
        }
        let new_sp = match bp.checked_add(16) {
            Some(new_sp) => new_sp,
            None => { return Located::Failed(Error::IntegerOverflow); },
        };
        if new_sp <= sp {
            return Located::Failed(Error::FramepointerUnwindingMovedBackwards);
        }
        Located::Frame(CallerFrame { new_sp, bp_slot: Some(bp), lenient: false })
    }

    /// Applies this rule to `regs`, reading the stack through `read_stack`.
    ///
    /// Returns the return address and leaves the caller's registers in
    /// `regs`; returns `None`, with `regs` as they were, where the chain of
    /// frames ends (a null frame pointer or a null return address). On an
    /// error `regs` are as they were.
    pub fn exec<F>(
        self,
        is_first_frame: bool,
        regs: &mut UnwindRegsX86_64,
        read_stack: &mut F,
    ) -> (result: Result<Option<u64>, Error>) where F: FnMut(u64) -> Result<u64, ()>
        requires
            reads_anywhere(*old(read_stack)),
        ensures
            exists|bp_read: Result<u64, ()>, return_read: Result<u64, ()>|
                executes(
                    *old(read_stack),
                    self,
                    is_first_frame,
                    *old(regs),
                    bp_read,
                    return_read,
                    result,
                    *final(regs),
                ),
            *final(read_stack) == *old(read_stack),
    {
        broadcast use vstd::function::group_function_axioms;

        let ghost regs_before = *regs;
        let ghost reader = *read_stack;
        let ghost unread: Result<u64, ()> = Err(());
        let frame = match self.locate(is_first_frame, regs) {
            Located::Frame(frame) => frame,
            Located::ChainEnd => {
                assert(executes(reader, self, is_first_frame, regs_before, unread, unread, Ok(None), *regs));
                return Ok(None);
            },
            Located::Failed(e) => {
                assert(executes(reader, self, is_first_frame, regs_before, unread, unread, Err(e), *regs));
                return Err(e);
            },
        };
        let ghost mut bp_read = unread;
        let new_bp = match frame.bp_slot {
            None => regs.bp(),
            Some(bp_location) => {
                let read = read_stack(bp_location);
                proof {
                    bp_read = read;
                }
                match read {
                    Ok(new_bp) => new_bp,
                    Err(_) => {
                        if frame.lenient {
                            regs.bp()
                        } else {
                            let e = Error::CouldNotReadStack(bp_location);
                            assert(executes(
                                reader,
                                self,
                                is_first_frame,
                                regs_before,
                                bp_read,
                                unread,
                                Err(e),
                                *regs,
                            ));
                            return Err(e);
                        }
                    },
                }
            },
        };
        let return_slot = match frame.new_sp.checked_sub(8) {
            Some(return_slot) => return_slot,
            None => {
                let e = Error::IntegerOverflow;
                assert(executes(reader, self, is_first_frame, regs_before, bp_read, unread, Err(e), *regs));
                return Err(e);
            },
        };
        let return_read = read_stack(return_slot);
        let result = match return_read {
            Err(_) => Err(Error::CouldNotReadStack(return_slot)),
            Ok(return_address) => {
                if return_address == 0 {
                    Ok(None)
                } else if frame.new_sp == regs.sp() && return_address == regs.ip() {
                    Err(Error::DidNotAdvance)
                } else {
                    regs.set_ip(return_address);
                    regs.set_sp(frame.new_sp);
                    regs.set_bp(new_bp);
                    Ok(Some(return_address))
                }
            },
        };
        assert(executes(reader, self, is_first_frame, regs_before, bp_read, return_read, result, *regs));
        result
    }
}

/// A sum of the rule's address arithmetic leaves the range of `u64`.
pub open spec fn overflows(rule: UnwindRuleX86_64, is_first_frame: bool, regs: UnwindRegsX86_64) -> bool {
    match rule {
        UnwindRuleX86_64::JustReturn => regs.sp + 8 > u64::MAX,
        UnwindRuleX86_64::JustReturnIfFirstFrameOtherwiseFp => if is_first_frame {
            regs.sp + 8 > u64::MAX
        } else {
            regs.bp != 0 && regs.bp + 16 > u64::MAX
        },
        UnwindRuleX86_64::OffsetSp { sp_offset_by_8 } => regs.sp + 8 * sp_offset_by_8 > u64::MAX,
        UnwindRuleX86_64::OffsetSpAndRestoreBp { sp_offset_by_8, bp_storage_offset_from_sp_by_8 } => {
            ||| regs.sp + 8 * sp_offset_by_8 > u64::MAX
            ||| !(0 <= regs.sp + 8 * bp_storage_offset_from_sp_by_8 <= u64::MAX)
        },
        UnwindRuleX86_64::UseFramePointer => regs.bp != 0 && regs.bp + 16 > u64::MAX,
        UnwindRuleX86_64::UseBasePointer { sp_offset_from_bp_by_8, bp_storage_offset_from_bp_by_8 } => {
            ||| regs.bp + 8 * sp_offset_from_bp_by_8 > u64::MAX
            ||| !(0 <= regs.bp + 8 * bp_storage_offset_from_bp_by_8 <= u64::MAX)
        },
    }
}

/// The caller's stack pointer as the rule gives it, where no sum overflows
/// and the chain does not end.
pub open spec fn new_sp(rule: UnwindRuleX86_64, is_first_frame: bool, regs: UnwindRegsX86_64) -> int {
    match rule {
        UnwindRuleX86_64::JustReturn => regs.sp + 8,
        UnwindRuleX86_64::JustReturnIfFirstFrameOtherwiseFp => if is_first_frame {
            regs.sp + 8
        } else {
            regs.bp + 16
        },
        UnwindRuleX86_64::OffsetSp { sp_offset_by_8 } => regs.sp + 8 * sp_offset_by_8,
        UnwindRuleX86_64::OffsetSpAndRestoreBp { sp_offset_by_8, .. } => regs.sp + 8 * sp_offset_by_8,
        UnwindRuleX86_64::UseFramePointer => regs.bp + 16,
        UnwindRuleX86_64::UseBasePointer { sp_offset_from_bp_by_8, .. } => regs.bp + 8 * sp_offset_from_bp_by_8,
    }
}

/// The return address is read from the slot right below the caller's stack
/// pointer, whatever the rule; and where a return address is returned, it is
/// what was read there, and the registers hold it with the caller's stack
/// pointer.
pub proof fn lemma_return_address_slot(
    rule: UnwindRuleX86_64,
    is_first_frame: bool,
    regs: UnwindRegsX86_64,
    bp_read: Result<u64, ()>,
    return_read: Result<u64, ()>,
)
    ensures
        return_slot_read(rule, is_first_frame, regs, bp_read) matches Some(slot) ==> slot == new_sp(
            rule,
            is_first_frame,
            regs,
        ) - 8,
        exec_outcome(rule, is_first_frame, regs, bp_read, return_read).0 matches Ok(Some(return_address)) ==> {
            let regs_after = exec_outcome(rule, is_first_frame, regs, bp_read, return_read).1;
            &&& return_slot_read(rule, is_first_frame, regs, bp_read) is Some
            &&& return_read == Ok::<u64, ()>(return_address)
            &&& regs_after.ip == return_address
            &&& regs_after.sp == new_sp(rule, is_first_frame, regs)
        },
{
}

/// A sum that leaves the range of `u64` is reported as `IntegerOverflow`,
/// whatever the stack holds; so is a return address slot below address 0.
pub proof fn lemma_overflow_is_reported(
    rule: UnwindRuleX86_64,
    is_first_frame: bool,
    regs: UnwindRegsX86_64,
    bp_read: Result<u64, ()>,
    return_read: Result<u64, ()>,
)
    ensures
        overflows(rule, is_first_frame, regs) <==> locate(rule, is_first_frame, regs) == Located::Failed(
            Error::IntegerOverflow,
        ),
        overflows(rule, is_first_frame, regs) ==> exec_outcome(rule, is_first_frame, regs, bp_read, return_read).0
            == Err::<Option<u64>, Error>(Error::IntegerOverflow),
        locate(rule, is_first_frame, regs) matches Located::Frame(frame) && caller_bp(frame, regs, bp_read) is Ok
            && frame.new_sp < 8 ==> exec_outcome(rule, is_first_frame, regs, bp_read, return_read).0 == Err::<
            Option<u64>,
            Error,
        >(Error::IntegerOverflow),
{
}

/// The registers change only where a return address is returned.
pub proof fn lemma_registers_stay_without_return_address(
    rule: UnwindRuleX86_64,
    is_first_frame: bool,
    regs: UnwindRegsX86_64,
    bp_read: Result<u64, ()>,
    return_read: Result<u64, ()>,
)
    ensures
        !(exec_outcome(rule, is_first_frame, regs, bp_read, return_read).0 matches Ok(Some(_))) ==> exec_outcome(
            rule,
            is_first_frame,
            regs,
            bp_read,
            return_read,
        ).1 == regs,
{
}

/// A rule that leaves the stack pointer where it is and reads the frame's
/// own code address as the return address is refused with `DidNotAdvance`,
/// unless that address is null, which ends the chain.
pub proof fn lemma_did_not_advance(
    rule: UnwindRuleX86_64,
    is_first_frame: bool,
    regs: UnwindRegsX86_64,
    bp_read: Result<u64, ()>,
    return_address: u64,
)
    requires
        locate(rule, is_first_frame, regs) matches Located::Frame(frame) && frame.new_sp == regs.sp && frame.new_sp
            >= 8 && caller_bp(frame, regs, bp_read) is Ok,
        return_address == regs.ip,
    ensures
        exec_outcome(rule, is_first_frame, regs, bp_read, Ok(return_address)).0 == if return_address == 0 {
            Ok::<Option<u64>, Error>(None)
        } else {
            Err::<Option<u64>, Error>(Error::DidNotAdvance)
        },
{
}

/// A frame pointer walk ends at a null frame pointer, and refuses a frame
/// pointer that would not move the stack pointer up.
pub proof fn lemma_frame_pointer_walk(
    is_first_frame: bool,
    regs: UnwindRegsX86_64,
    bp_read: Result<u64, ()>,
    return_read: Result<u64, ()>,
)
    ensures
        regs.bp == 0 ==> exec_outcome(
            UnwindRuleX86_64::UseFramePointer,
            is_first_frame,
            regs,
            bp_read,
            return_read,
        ).0 == Ok::<Option<u64>, Error>(None),
        regs.bp != 0 && regs.bp + 16 <= u64::MAX && regs.bp + 16 <= regs.sp ==> exec_outcome(
            UnwindRuleX86_64::UseFramePointer,
            is_first_frame,
            regs,
            bp_read,
            return_read,
        ).0 == Err::<Option<u64>, Error>(Error::FramepointerUnwindingMovedBackwards),
        exec_outcome(UnwindRuleX86_64::JustReturnIfFirstFrameOtherwiseFp, false, regs, bp_read, return_read)
            == exec_outcome(UnwindRuleX86_64::UseFramePointer, is_first_frame, regs, bp_read, return_read),
        exec_outcome(UnwindRuleX86_64::JustReturnIfFirstFrameOtherwiseFp, true, regs, bp_read, return_read)
            == exec_outcome(UnwindRuleX86_64::JustReturn, is_first_frame, regs, bp_read, return_read),
{
}

} // verus!
