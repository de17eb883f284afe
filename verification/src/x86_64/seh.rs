use crate::arch::Arch;
use crate::seh::{answers_of, RvaMapper, SehUnwinderError, SehUnwinding};
use crate::unwind_result::UnwindResult;
use crate::x86_64::runtime_function::{
    find_runtime_function, finds, lemma_lookup_is_determined, runtime_functions, sorted_by_begin, RuntimeFunction,
};
use crate::x86_64::unwind_info::{
    chain_of, chain_view, is_walk, lemma_walk_is_determined, record_views, single_valued, unwind_info_chain,
    RecordView, UnwindInfoRecord,
};
use crate::x86_64::unwind_op::{StackOffset, UnwindOp, UnwindOpAt, RBP};
use crate::x86_64::unwind_rule::{exec_outcome, UnwindRuleX86_64};
use crate::x86_64::unwindregs::UnwindRegsX86_64;
use vstd::prelude::*;

verus! {

const REG_SIZE: i32 = 8;

/// The unwind operations of one unwind info record that count at the code
/// address in question, with the record's frame register.
#[derive(Clone, Debug, PartialEq, Eq)]
pub struct UnwindInfoChunk {
    /// From the operation that the prologue performed last to its first.
    pub codes: Vec<UnwindOp>,
    /// The number of the frame register; `0` where the function has none.
    pub frame_register: u8,
    /// What the frame register holds above `rsp` once it is set.
    pub frame_register_offset: u32,
}

/// An `UnwindInfoChunk` as a value.
pub struct ChunkView {
    pub codes: Seq<UnwindOp>,
    pub frame_register: u8,
    pub frame_register_offset: u32,
}

impl View for UnwindInfoChunk {
    type V = ChunkView;

    open spec fn view(&self) -> ChunkView {
        ChunkView {
            codes: self.codes@,
            frame_register: self.frame_register,
            frame_register_offset: self.frame_register_offset,
        }
    }
}

/// The chunks as values, in their order.
pub open spec fn chunk_views(chunks: Seq<UnwindInfoChunk>) -> Seq<ChunkView> {
    Seq::new(chunks.len(), |i: int| chunks[i]@)
}

/// What the unwind operations read so far say of the frame.
#[derive(Clone, Copy, Debug, PartialEq, Eq)]
pub struct FrameState {
    /// Whether the frame register has been set: from then on the offsets
    /// count from `rbp`, before that from `rsp`.
    pub use_bp: bool,
    /// From `rsp` (or `rbp`) up to the slot of the return address.
    pub sp_offset: i32,
    /// From `rsp` (or `rbp`) to the slot that holds the caller's `rbp`.
    pub bp_offset: Option<i32>,
}

/// `x` is in the range of `i32`.
pub open spec fn fits_i32(x: int) -> bool {
    i32::MIN <= x <= i32::MAX
}

/// `x / 8`, rounded towards zero.
pub open spec fn div_8(x: int) -> int {
    if x >= 0 {
        x / 8
    } else {
        -((-x) / 8)
    }
}

/// The state after one more operation; `None` where an offset leaves the
/// range of `i32`, or where `rbp` was saved at an offset from the frame
/// register.
pub open spec fn step(state: FrameState, op: UnwindOp, frame_register_offset: u32) -> Option<FrameState> {
    match op {
        UnwindOp::PushNonVolatile(reg) => if fits_i32(state.sp_offset + 8) {
            Some(
                FrameState {
                    sp_offset: (state.sp_offset + 8) as i32,
                    bp_offset: if reg == RBP {
                        Some(state.sp_offset)
                    } else {
                        state.bp_offset
                    },
                    ..state
                },
            )
        } else {
            None
        },
        UnwindOp::Alloc(size) => if fits_i32(state.sp_offset + size) {
            Some(FrameState { sp_offset: (state.sp_offset + size) as i32, ..state })
        } else {
            None
        },
        UnwindOp::SetFPRegister => if fits_i32(-frame_register_offset) {
            Some(FrameState { use_bp: true, sp_offset: (-frame_register_offset) as i32, ..state })
        } else {
            None
        },
        UnwindOp::SaveNonVolatile(reg, offset) => if reg == RBP {
            match offset {
                StackOffset::RSP(offset) => if fits_i32(offset as int) {
                    Some(FrameState { bp_offset: Some(offset as i32), ..state })
                } else {
                    None
                },
                StackOffset::FP(_) => None,
                StackOffset::Unused => Some(state),
            }
        } else {
            Some(state)
        },
        UnwindOp::SaveXMM(_, _) => Some(state),
        UnwindOp::SaveXMM128(_, _) => Some(state),
        UnwindOp::PushMachineFrame(_) => Some(state),
        UnwindOp::Epilog => Some(state),
        UnwindOp::Noop => Some(state),
    }
}

/// The state after `ops`, taken from the front.
pub open spec fn run(state: FrameState, ops: Seq<UnwindOp>, frame_register_offset: u32) -> Option<FrameState>
    decreases ops.len(),
{
    if ops.len() == 0 {
        Some(state)
    } else {
        match step(state, ops[0], frame_register_offset) {
            Some(next) => run(next, ops.skip(1), frame_register_offset),
            None => None,
        }
    }
}

/// The frame register that the rules can follow: none, or `rbp`.
pub open spec fn frame_register_known(frame_register: u8) -> bool {
    frame_register == 0 || frame_register == RBP
}

/// The state after the chunks, taken from the front; `None` also where a
/// chunk names a frame register other than `rbp`.
pub open spec fn run_chunks(state: FrameState, chunks: Seq<ChunkView>) -> Option<FrameState>
    decreases chunks.len(),
{
    if chunks.len() == 0 {
        Some(state)
    } else if !frame_register_known(chunks[0].frame_register) {
        None
    } else {
        match run(state, chunks[0].codes, chunks[0].frame_register_offset) {
            Some(next) => run_chunks(next, chunks.skip(1)),
            None => None,
        }
    }
}

/// The rule for a frame in `state`: the return address takes 8 more bytes,
/// and the offsets are kept in units of 8, rounded towards zero. `None`
/// where that leaves the range of `i32` or of the rule's fields, or where the
/// frame register was set and the slot of `rbp` is not known.
pub open spec fn chosen_rule(state: FrameState) -> Option<UnwindRuleX86_64> {
    let sp_by_8 = div_8(state.sp_offset + 8);
    if !fits_i32(state.sp_offset + 8) || !(0 <= sp_by_8 <= u16::MAX) {
        None
    } else {
        match state.bp_offset {
            Some(bp_offset) => {
                let bp_by_8 = div_8(bp_offset as int);
                if !(i16::MIN <= bp_by_8 <= i16::MAX) {
                    None
                } else if state.use_bp {
                    Some(
                        UnwindRuleX86_64::UseBasePointer {
                            sp_offset_from_bp_by_8: sp_by_8 as u16,
                            bp_storage_offset_from_bp_by_8: bp_by_8 as i16,
                        },
                    )
                } else {
                    Some(
                        UnwindRuleX86_64::OffsetSpAndRestoreBp {
                            sp_offset_by_8: sp_by_8 as u16,
                            bp_storage_offset_from_sp_by_8: bp_by_8 as i16,
                        },
                    )
                }
            },
            None => if state.use_bp {
                None
            } else {
                Some(UnwindRuleX86_64::OffsetSp { sp_offset_by_8: sp_by_8 as u16 })
            },
        }
    }
}

/// The rule that the chunks of a chain of unwind info records come to.
pub open spec fn synthesized_rule(chunks: Seq<ChunkView>) -> Option<UnwindRuleX86_64> {
    match run_chunks(FrameState::start(), chunks) {
        Some(state) => chosen_rule(state),
        None => None,
    }
}

impl FrameState {
    /// Before any operation: the return address is at `rsp`.
    pub open spec fn start() -> FrameState {
        FrameState { use_bp: false, sp_offset: 0, bp_offset: None }
    }

    /// Takes one more operation into account.
    pub fn apply(self, op: UnwindOp, frame_register_offset: u32) -> (next: Option<FrameState>)
        ensures
            next == step(self, op, frame_register_offset),
    {
        let FrameState { mut use_bp, mut sp_offset, mut bp_offset } = self;
        match op {
            UnwindOp::PushNonVolatile(reg) => {
                if reg == RBP {
                    bp_offset = Some(sp_offset);
                }
                sp_offset = sp_offset.checked_add(REG_SIZE)?;
            },
            UnwindOp::Alloc(size) => {
                let sum = sp_offset as i64 + size as i64;
                if sum > i32::MAX as i64 {
                    return None;
                }
                sp_offset = sum as i32;
            },
            UnwindOp::SetFPRegister => {
                if frame_register_offset > 0x8000_0000 {
                    return None;
                }
                sp_offset = (-(frame_register_offset as i64)) as i32;
                use_bp = true;
            },
            UnwindOp::SaveNonVolatile(reg, offset) => {
                if reg == RBP {
                    match offset {
                        StackOffset::RSP(offset) => {
                            if offset > i32::MAX as u32 {
                                return None;
                            }
                            bp_offset = Some(offset as i32);
                        },
                        StackOffset::FP(_) => {
                            // The slot is given from the frame register as it
                            // was when the register was stored, which the
                            // rules cannot express.
                            return None;
                        },
                        StackOffset::Unused => {},
                    }
                }
            },
            UnwindOp::SaveXMM(_, _) => {},
            UnwindOp::SaveXMM128(_, _) => {},
            UnwindOp::PushMachineFrame(_) => {
                // The machine frame is not followed: the state stays.
            },
            UnwindOp::Epilog => {},
            UnwindOp::Noop => {},
        }
        Some(FrameState { use_bp, sp_offset, bp_offset })
    }

    /// The rule for a frame in this state.
    pub fn rule(self) -> (rule: Option<UnwindRuleX86_64>)
        ensures
            rule == chosen_rule(self),
    {
        // Final adjustment for the return address.
        let sp_offset = self.sp_offset.checked_add(REG_SIZE)?;
        let sp_by_8 = sp_offset / 8;
        if sp_by_8 < 0 || sp_by_8 > u16::MAX as i32 {
            return None;
        }
        let sp_by_8 = sp_by_8 as u16;
        match self.bp_offset {
            Some(bp_offset) => {
                let bp_by_8 = bp_offset / 8;
                if bp_by_8 < i16::MIN as i32 || bp_by_8 > i16::MAX as i32 {
                    return None;
                }
                let bp_by_8 = bp_by_8 as i16;
                Some(
                    if self.use_bp {
                        UnwindRuleX86_64::UseBasePointer {
                            sp_offset_from_bp_by_8: sp_by_8,
                            bp_storage_offset_from_bp_by_8: bp_by_8,
                        }
                    } else {
                        UnwindRuleX86_64::OffsetSpAndRestoreBp {
                            sp_offset_by_8: sp_by_8,
                            bp_storage_offset_from_sp_by_8: bp_by_8,
                        }
                    },
                )
            },
            None => if self.use_bp {
                None
            } else {
                Some(UnwindRuleX86_64::OffsetSp { sp_offset_by_8: sp_by_8 })
            },
        }
    }
}

/// Folds the unwind operations of a chain of unwind info records, the
/// function's own record first, into one unwind rule.
///
/// Fails with `ConversionError` where the operations do not come to a rule:
/// see `step`, `run_chunks` and `chosen_rule`.
pub fn seh_to_unwind_rule(chunks: &[UnwindInfoChunk]) -> (rule: Result<UnwindRuleX86_64, SehUnwinderError>)
    ensures
        rule == match synthesized_rule(chunk_views(chunks@)) {
            Some(rule) => Ok::<UnwindRuleX86_64, SehUnwinderError>(rule),
            None => Err(SehUnwinderError::ConversionError),
        },
{
    let ghost views = chunk_views(chunks@);
    let mut state = FrameState { use_bp: false, sp_offset: 0, bp_offset: None };
    let mut i: usize = 0;
    assert(views.skip(0) == views);
    while i < chunks.len()
        invariant
            i <= chunks.len(),
            views == chunk_views(chunks@),
            run_chunks(FrameState::start(), views) == run_chunks(state, views.skip(i as int)),
        decreases chunks.len() - i,
    {
        let chunk = &chunks[i];
        let ghost rest = views.skip(i as int);
        assert(rest[0] == chunk@);
        assert(rest.skip(1) == views.skip(i + 1));
        if chunk.frame_register != 0 && chunk.frame_register != RBP {
            return Err(SehUnwinderError::ConversionError);
        }
        let ghost before = state;
        let mut j: usize = 0;
        assert(chunk.codes@.skip(0) == chunk.codes@);
        while j < chunk.codes.len()
            invariant
                j <= chunk.codes.len(),
                views == chunk_views(chunks@),
                rest[0] == chunk@,
                frame_register_known(chunk.frame_register),
                rest.len() > 0,
                run_chunks(FrameState::start(), views) == run_chunks(before, rest),
                run(before, chunk.codes@, chunk.frame_register_offset) == run(
                    state,
                    chunk.codes@.skip(j as int),
                    chunk.frame_register_offset,
                ),
            decreases chunk.codes.len() - j,
        {
            assert(chunk.codes@.skip(j as int).skip(1) == chunk.codes@.skip(j + 1));
            assert(chunk.codes@.skip(j as int)[0] == chunk.codes@[j as int]);
            state = match state.apply(chunk.codes[j], chunk.frame_register_offset) {
                Some(next) => next,
                None => {
                    assert(run(state, chunk.codes@.skip(j as int), chunk.frame_register_offset) is None);
                    assert(run_chunks(before, rest) is None);
                    return Err(SehUnwinderError::ConversionError);
                },
            };
            j += 1;
        }
        i += 1;
    }
    match state.rule() {
        Some(rule) => Ok(rule),
        None => Err(SehUnwinderError::ConversionError),
    }
}

/// Unwind operations that say nothing of `rsp` or `rbp` may stand anywhere
/// among the others: with one more of them at any place, `ops` comes to the
/// same state.
pub proof fn lemma_run_with_ignored(
    state: FrameState,
    ops: Seq<UnwindOp>,
    at: int,
    op: UnwindOp,
    frame_register_offset: u32,
)
    requires
        0 <= at <= ops.len(),
        op.is_ignored(),
    ensures
        run(state, ops.insert(at, op), frame_register_offset) == run(state, ops, frame_register_offset),
    decreases at,
{
    let more = ops.insert(at, op);
    if at == 0 {
        assert(more.skip(1) == ops);
    } else {
        assert(more[0] == ops[0]);
        assert(more.skip(1) == ops.skip(1).insert(at - 1, op));
        match step(state, ops[0], frame_register_offset) {
            Some(next) => lemma_run_with_ignored(next, ops.skip(1), at - 1, op, frame_register_offset),
            None => {},
        }
    }
}

/// The synthesized rule does not change where a `Noop`, an `Epilog`, a
/// `SaveXMM` or a `SaveXMM128` is put into a chunk, at any place.
pub proof fn lemma_rule_with_ignored(chunks: Seq<ChunkView>, chunk: int, at: int, op: UnwindOp)
    requires
        0 <= chunk < chunks.len(),
        0 <= at <= chunks[chunk].codes.len(),
        op.is_ignored(),
    ensures
        synthesized_rule(
            chunks.update(chunk, ChunkView { codes: chunks[chunk].codes.insert(at, op), ..chunks[chunk] }),
        ) == synthesized_rule(chunks),
{
    lemma_run_chunks_with_ignored(FrameState::start(), chunks, chunk, at, op);
}

proof fn lemma_run_chunks_with_ignored(state: FrameState, chunks: Seq<ChunkView>, chunk: int, at: int, op: UnwindOp)
    requires
        0 <= chunk < chunks.len(),
        0 <= at <= chunks[chunk].codes.len(),
        op.is_ignored(),
    ensures
        run_chunks(
            state,
            chunks.update(chunk, ChunkView { codes: chunks[chunk].codes.insert(at, op), ..chunks[chunk] }),
        ) == run_chunks(state, chunks),
    decreases chunk,
{
    let changed = ChunkView { codes: chunks[chunk].codes.insert(at, op), ..chunks[chunk] };
    let more = chunks.update(chunk, changed);
    if chunk == 0 {
        assert(more.skip(1) == chunks.skip(1));
        lemma_run_with_ignored(state, chunks[0].codes, at, op, chunks[0].frame_register_offset);
    } else {
        assert(more[0] == chunks[0]);
        assert(more.skip(1) == chunks.skip(1).update(chunk - 1, changed));
        if frame_register_known(chunks[0].frame_register) {
            match run(state, chunks[0].codes, chunks[0].frame_register_offset) {
                Some(next) => lemma_run_chunks_with_ignored(next, chunks.skip(1), chunk - 1, at, op),
                None => {},
            }
        }
    }
}

/// The codes whose instruction ends at `func_offset` into the function or
/// before it: the others have not been performed yet.
pub open spec fn performed_at(func_offset: u32) -> spec_fn(UnwindOpAt) -> bool {
    |code: UnwindOpAt| code.code_offset <= func_offset
}

/// The operations of the codes, in their order.
pub open spec fn operations(codes: Seq<UnwindOpAt>) -> Seq<UnwindOp> {
    Seq::new(codes.len(), |i: int| codes[i].operation)
}

/// The codes that count at `func_offset` into the function: of the
/// function's own record those that have been performed, of a chained record
/// all.
pub open spec fn counting(codes: Seq<UnwindOpAt>, own: bool, func_offset: u32) -> Seq<UnwindOpAt> {
    if own {
        codes.filter(performed_at(func_offset))
    } else {
        codes
    }
}

/// The chunk of a record at `func_offset` into the function.
pub open spec fn chunk_of(record: RecordView, own: bool, func_offset: u32) -> ChunkView {
    ChunkView {
        codes: operations(counting(record.codes, own, func_offset)),
        frame_register: record.frame_register,
        frame_register_offset: record.frame_register_offset,
    }
}

/// The chunks of a chain of records, the function's own record first, at
/// `func_offset` into the function.
pub open spec fn chunks_of(records: Seq<RecordView>, func_offset: u32) -> Seq<ChunkView> {
    Seq::new(records.len(), |i: int| chunk_of(records[i], i == 0, func_offset))
}

/// Makes the chunks of a chain of records for a code address at
/// `func_offset` into the function.
pub fn unwind_info_chunks(records: &[UnwindInfoRecord], func_offset: u32) -> (chunks: Vec<UnwindInfoChunk>)
    ensures
        chunk_views(chunks@) == chunks_of(record_views(records@), func_offset),
{
    let ghost views = record_views(records@);
    let mut chunks: Vec<UnwindInfoChunk> = Vec::new();
    let mut i: usize = 0;
    while i < records.len()
        invariant
            i <= records.len(),
            views == record_views(records@),
            chunks@.len() == i,
            forall|k: int| 0 <= k < i ==> (#[trigger] chunks@[k])@ == chunks_of(views, func_offset)[k],
        decreases records.len() - i,
    {
        let record = &records[i];
        let own = i == 0;
        let mut codes: Vec<UnwindOp> = Vec::new();
        let mut j: usize = 0;
        proof {
            reveal(Seq::filter);
            assert(codes@ =~= operations(counting(record.codes@.take(0), own, func_offset)));
        }
        while j < record.codes.len()
            invariant
                j <= record.codes@.len(),
                codes@ == operations(counting(record.codes@.take(j as int), own, func_offset)),
            decreases record.codes.len() - j,
        {
            let code = record.codes[j];
            let ghost before = record.codes@.take(j as int);
            let ghost with_code = record.codes@.take(j + 1);
            proof {
                reveal(Seq::filter);
                assert(with_code.drop_last() == before);
                assert(with_code.last() == code);
            }
            if !own || code.code_offset as u32 <= func_offset {
                codes.push(code.operation);
                assert(counting(with_code, own, func_offset) == counting(before, own, func_offset).push(code));
            }
            assert(codes@ =~= operations(counting(with_code, own, func_offset)));
            j += 1;
        }
        assert(record.codes@.take(j as int) == record.codes@);
        let chunk = UnwindInfoChunk {
            codes,
            frame_register: record.frame_register,
            frame_register_offset: record.frame_register_offset,
        };
        assert(chunk@ == chunk_of(views[i as int], own, func_offset));
        chunks.push(chunk);
        i += 1;
    }
    assert(chunk_views(chunks@) =~= chunks_of(views, func_offset));
    chunks
}

/// The codes that count among `codes` with one more code at the place `at`
/// are those that count among `codes`, with that code at its place among
/// them if it counts.
proof fn lemma_counting_with_code(codes: Seq<UnwindOpAt>, at: int, code: UnwindOpAt, own: bool, func_offset: u32)
    requires
        0 <= at <= codes.len(),
    ensures
        counting(codes.take(at), own, func_offset).len() <= counting(codes, own, func_offset).len(),
        counting(codes.insert(at, code), own, func_offset) == if !own || code.code_offset <= func_offset {
            counting(codes, own, func_offset).insert(
                counting(codes.take(at), own, func_offset).len() as int,
                code,
            )
        } else {
            counting(codes, own, func_offset)
        },
{
    if own {
        let performed = performed_at(func_offset);
        let front = codes.take(at);
        let back = codes.skip(at);
        assert(codes =~= front + back);
        assert(codes.insert(at, code) =~= front + seq![code] + back);
        Seq::filter_distributes_over_add(front, back, performed);
        Seq::filter_distributes_over_add(front, seq![code], performed);
        Seq::filter_distributes_over_add(front + seq![code], back, performed);
        assert(seq![code].filter(performed) =~= if performed(code) {
            seq![code]
        } else {
            Seq::<UnwindOpAt>::empty()
        }) by {
            reveal_with_fuel(Seq::filter, 2);
            assert(seq![code].drop_last() =~= Seq::<UnwindOpAt>::empty());
        }
        assert((front.filter(performed) + back.filter(performed)).insert(front.filter(performed).len() as int, code)
            =~= front.filter(performed) + seq![code] + back.filter(performed));
    } else {
        assert(codes.take(at).len() == at);
    }
}

/// The synthesized rule does not change where a code whose operation is a
/// `Noop`, an `Epilog`, a `SaveXMM` or a `SaveXMM128` is put into a record of
/// the chain, at any place and with any offset into the prologue.
pub proof fn lemma_rule_with_ignored_code(
    records: Seq<RecordView>,
    record: int,
    at: int,
    code: UnwindOpAt,
    func_offset: u32,
)
    requires
        0 <= record < records.len(),
        0 <= at <= records[record].codes.len(),
        code.operation.is_ignored(),
    ensures
        synthesized_rule(
            chunks_of(
                records.update(record, RecordView { codes: records[record].codes.insert(at, code), ..records[record] }),
                func_offset,
            ),
        ) == synthesized_rule(chunks_of(records, func_offset)),
{
    let codes = records[record].codes;
    let own = record == 0;
    let changed = records.update(record, RecordView { codes: codes.insert(at, code), ..records[record] });
    let chunks = chunks_of(records, func_offset);
    lemma_counting_with_code(codes, at, code, own, func_offset);
    if !own || code.code_offset <= func_offset {
        let place = counting(codes.take(at), own, func_offset).len() as int;
        let counted = counting(codes, own, func_offset);
        assert(operations(counted.insert(place, code)) =~= operations(counted).insert(place, code.operation));
        assert(chunks_of(changed, func_offset) =~= chunks.update(
            record,
            ChunkView { codes: chunks[record].codes.insert(place, code.operation), ..chunks[record] },
        ));
        lemma_rule_with_ignored(chunks, record, place, code.operation);
    } else {
        assert(chunks_of(changed, func_offset) =~= chunks);
    }
}

/// What the chain of records that a walk came to means for the frame at `ip`
/// in `function`.
pub open spec fn frame_outcome(function: RuntimeFunction, ip: u32, answers: Seq<Option<Seq<u8>>>) -> Result<
    UnwindResult<UnwindRuleX86_64>,
    SehUnwinderError,
> {
    match chain_of(answers) {
        Err(e) => Err(e),
        Ok(records) => match synthesized_rule(chunks_of(records, (ip - function.begin_address) as u32)) {
            Some(rule) => Ok(UnwindResult::ExecRule(rule)),
            None => Err(SehUnwinderError::ConversionError),
        },
    }
}

/// `result` is what the unwind info of `function` may come to for the frame
/// at `ip`, with the answers that a mapper gives along its chain.
pub open spec fn unwinds_in(
    gives: spec_fn(u32, Option<Seq<u8>>) -> bool,
    function: RuntimeFunction,
    ip: u32,
    result: Result<UnwindResult<UnwindRuleX86_64>, SehUnwinderError>,
) -> bool {
    exists|answers: Seq<Option<Seq<u8>>>| #[trigger]
        is_walk(gives, function.unwind_info_address, answers) && result == frame_outcome(function, ip, answers)
}

/// The x86_64 architecture.
pub struct ArchX86_64;

impl Arch for ArchX86_64 {
    type UnwindRule = UnwindRuleX86_64;

    type UnwindRegs = UnwindRegsX86_64;
}

impl SehUnwinding for ArchX86_64 {
    /// An error of the lookup in the exception table is the result; where
    /// the lookup finds the function, the chain of its unwind info decides.
    open spec fn unwinds(
        exception_data: Seq<u8>,
        rel_lookup_address: u32,
        gives: spec_fn(u32, Option<Seq<u8>>) -> bool,
        result: Result<UnwindResult<UnwindRuleX86_64>, SehUnwinderError>,
    ) -> bool {
        exists|found: Result<RuntimeFunction, SehUnwinderError>| #[trigger]
            finds(exception_data, rel_lookup_address, found) && match found {
                Err(e) => result == Err::<UnwindResult<UnwindRuleX86_64>, SehUnwinderError>(e),
                Ok(function) => unwinds_in(gives, function, rel_lookup_address, result),
            }
    }

    open spec fn uncovered_rule() -> UnwindRuleX86_64 {
        UnwindRuleX86_64::JustReturn
    }

    fn unwind_frame<'a, F, G>(
        exception_data: &'a [u8],
        rel_lookup_address: u32,
        rva_mapper: &mut F,
        _regs: &mut UnwindRegsX86_64,
        _is_first_frame: bool,
        _read_stack: &mut G,
    ) -> (result: Result<UnwindResult<UnwindRuleX86_64>, SehUnwinderError>) where
        F: RvaMapper,
        G: FnMut(u64) -> Result<u64, ()>,
     {
        let ip = rel_lookup_address;
        let found = find_runtime_function(exception_data, ip);
        let func = match found {
            Ok(func) => func,
            Err(e) => { return Err(e); },
        };
        let func_offset = ip - func.begin_address;

        let chain = unwind_info_chain(&*rva_mapper, func.unwind_info_address);
        let ghost answers = choose|answers: Seq<Option<Seq<u8>>>| #[trigger]
            is_walk(answers_of(&*rva_mapper), func.unwind_info_address, answers) && chain_view(chain) == chain_of(
                answers,
            );
        let records = match chain {
            Ok(records) => records,
            Err(e) => {
                assert(unwinds_in(answers_of(&*rva_mapper), func, ip, Err(e)));
                return Err(e);
            },
        };
        let chunks = unwind_info_chunks(records.as_slice(), func_offset);
        let result = match seh_to_unwind_rule(chunks.as_slice()) {
            Ok(rule) => Ok(UnwindResult::ExecRule(rule)),
            Err(e) => Err(e),
        };
        assert(result == frame_outcome(func, ip, answers));
        assert(unwinds_in(answers_of(&*rva_mapper), func, ip, result));
        result
    }

    fn rule_if_uncovered_by_seh() -> (rule: UnwindRuleX86_64) {
        UnwindRuleX86_64::JustReturn
    }
}

/// With an exception table whose entries begin in ascending order and a
/// mapper that has one answer for each address, unwinding at an address has
/// one result.
pub proof fn lemma_unwinding_is_determined(
    exception_data: Seq<u8>,
    rel_lookup_address: u32,
    gives: spec_fn(u32, Option<Seq<u8>>) -> bool,
    first: Result<UnwindResult<UnwindRuleX86_64>, SehUnwinderError>,
    second: Result<UnwindResult<UnwindRuleX86_64>, SehUnwinderError>,
)
    requires
        sorted_by_begin(runtime_functions(exception_data)),
        single_valued(gives),
        ArchX86_64::unwinds(exception_data, rel_lookup_address, gives, first),
        ArchX86_64::unwinds(exception_data, rel_lookup_address, gives, second),
    ensures
        first == second,
{
    let found_first = choose|found: Result<RuntimeFunction, SehUnwinderError>| #[trigger]
        finds(exception_data, rel_lookup_address, found) && match found {
            Err(e) => first == Err::<UnwindResult<UnwindRuleX86_64>, SehUnwinderError>(e),
            Ok(function) => unwinds_in(gives, function, rel_lookup_address, first),
        };
    let found_second = choose|found: Result<RuntimeFunction, SehUnwinderError>| #[trigger]
        finds(exception_data, rel_lookup_address, found) && match found {
            Err(e) => second == Err::<UnwindResult<UnwindRuleX86_64>, SehUnwinderError>(e),
            Ok(function) => unwinds_in(gives, function, rel_lookup_address, second),
        };
    lemma_lookup_is_determined(exception_data, rel_lookup_address, found_first, found_second);
    if let Ok(function) = found_first {
        let root = function.unwind_info_address;
        let answers_first = choose|answers: Seq<Option<Seq<u8>>>| #[trigger]
            is_walk(gives, root, answers) && first == frame_outcome(function, rel_lookup_address, answers);
        let answers_second = choose|answers: Seq<Option<Seq<u8>>>| #[trigger]
            is_walk(gives, root, answers) && second == frame_outcome(function, rel_lookup_address, answers);
        lemma_walk_is_determined(gives, root, answers_first, answers_second);
    }
}

/// Unwinding goes by the code address. Once a rule has been executed, the
/// registers hold the return address as the code address of the caller's
/// frame; and with the same metadata, what the unwinder says of the caller's
/// frame is what it says of the return address, whatever the registers and
/// the stack are and wherever the frame stands in the chain. `relative` takes
/// a code address to the address that is looked up.
pub proof fn lemma_caller_is_unwound_at_return_address(
    rule: UnwindRuleX86_64,
    is_first_frame: bool,
    regs: UnwindRegsX86_64,
    bp_read: Result<u64, ()>,
    return_read: Result<u64, ()>,
    relative: spec_fn(u64) -> u32,
    exception_data: Seq<u8>,
    gives: spec_fn(u32, Option<Seq<u8>>) -> bool,
    at_caller: Result<UnwindResult<UnwindRuleX86_64>, SehUnwinderError>,
    at_return_address: Result<UnwindResult<UnwindRuleX86_64>, SehUnwinderError>,
)
    requires
        sorted_by_begin(runtime_functions(exception_data)),
        single_valued(gives),
        exec_outcome(rule, is_first_frame, regs, bp_read, return_read).0 matches Ok(Some(return_address))
            && ArchX86_64::unwinds(exception_data, relative(return_address), gives, at_return_address),
        ArchX86_64::unwinds(
            exception_data,
            relative(exec_outcome(rule, is_first_frame, regs, bp_read, return_read).1.ip),
            gives,
            at_caller,
        ),
    ensures
        at_caller == at_return_address,
{
    let caller = exec_outcome(rule, is_first_frame, regs, bp_read, return_read).1;
    lemma_unwinding_is_determined(exception_data, relative(caller.ip), gives, at_caller, at_return_address);
}

} // verus!
