use crate::seh::{answers_of, mapped, mapper_gave, RvaMapper, SehUnwinderError};
use crate::x86_64::unwind_op::{StackOffset, UnwindOp, UnwindOpAt};
use fallible_iterator::FallibleIterator;
use goblin::pe::exception::{Register, StackFrameOffset, UnwindCode, UnwindInfo, UnwindOperation};
use vstd::prelude::*;

verus! {

/// goblin's number of a register.
#[verifier::external_type_specification]
pub struct ExRegister(Register);

/// goblin's place of a saved register.
#[verifier::external_type_specification]
pub struct ExStackFrameOffset(StackFrameOffset);

/// goblin's unwind operation.
#[verifier::external_type_specification]
pub struct ExUnwindOperation(UnwindOperation);

/// goblin's unwind code: an operation with its offset into the prologue.
#[verifier::external_type_specification]
pub struct ExUnwindCode(UnwindCode);

/// goblin's parsed unwind info record. Its codes are kept as bytes and
/// decoded as they are asked for.
#[verifier::external_type_specification]
#[verifier::external_body]
pub struct ExUnwindInfo<'a>(UnwindInfo<'a>);

/// The unwind codes of an unwind info record that have not been handed out
/// yet: `fallible_iterator::Convert` around goblin's `UnwindCodeIterator`.
#[verifier::external_body]
pub struct UnwindCodes<'a> {
    inner: fallible_iterator::Convert<goblin::pe::exception::UnwindCodeIterator<'a>>,
}

/// What goblin reads in an unwind info record.
pub struct ParsedUnwindInfo {
    pub frame_register: u8,
    pub frame_register_offset: u32,
    /// Where the chained unwind info is, if the record names one.
    pub chained_info: Option<u32>,
    /// The unwind codes as they are decoded one after the other. Where a code
    /// cannot be decoded, an `Err` stands for it and all that follows.
    pub codes: Seq<Result<UnwindCode, ()>>,
}

/// What `goblin::pe::exception::UnwindInfo::parse` makes of `bytes`, read
/// from their start; `None` where it fails.
pub uninterp spec fn parsed_unwind_info(bytes: Seq<u8>) -> Option<ParsedUnwindInfo>;

/// What a parsed unwind info record holds.
pub uninterp spec fn unwind_info_contents(info: UnwindInfo) -> ParsedUnwindInfo;

/// The unwind codes that are still to come, with an `Err` at the place of the
/// first one that cannot be decoded.
pub uninterp spec fn codes_left(codes: UnwindCodes) -> Seq<Result<UnwindCode, ()>>;

/// Calls `goblin::pe::exception::UnwindInfo::parse` at offset 0. What the
/// record holds is the function's result on these bytes; an error becomes
/// `None`.
#[verifier::external_body]
fn parse_unwind_info<'a>(bytes: &'a [u8]) -> (info: Option<UnwindInfo<'a>>)
    ensures
        (match info {
            Some(info) => parsed_unwind_info(bytes@) == Some(unwind_info_contents(info)),
            None => parsed_unwind_info(bytes@) is None,
        }),
{
    UnwindInfo::parse(bytes, 0).ok()
}

/// The public fields `frame_register`, `frame_register_offset` and
/// `chained_info` of goblin's `UnwindInfo`; of the chained entry, the address
/// of its unwind info.
#[verifier::external_body]
fn unwind_info_frame(info: &UnwindInfo<'_>) -> (frame: (u8, u32, Option<u32>))
    ensures
        frame.0 == unwind_info_contents(*info).frame_register,
        frame.1 == unwind_info_contents(*info).frame_register_offset,
        frame.2 == unwind_info_contents(*info).chained_info,
{
    (
        info.frame_register.0,
        info.frame_register_offset,
        info.chained_info.map(|function| function.unwind_info_address),
    )
}

/// Calls `unwind_codes` of goblin's `UnwindInfo`, which starts at the
/// record's first code, and `fallible_iterator::convert` on the iterator.
#[verifier::external_body]
fn unwind_codes<'a>(info: &UnwindInfo<'a>) -> (codes: UnwindCodes<'a>)
    ensures
        codes_left(codes) == unwind_info_contents(*info).codes,
{
    UnwindCodes { inner: fallible_iterator::convert(info.unwind_codes()) }
}

/// Calls `next` of `fallible_iterator::Convert`, which calls `next` of
/// goblin's `UnwindCodeIterator`: at the end of the codes `Ok(None)`; where
/// the next code is decoded, that code, and the iterator moves past it; where
/// it cannot be decoded, the error, and the iterator stays.
#[verifier::external_body]
fn next_unwind_code(codes: &mut UnwindCodes<'_>) -> (next: Result<Option<UnwindCode>, ()>)
    ensures
        codes_left(*old(codes)).len() == 0 ==> next matches Ok(None),
        codes_left(*old(codes)).len() > 0 ==> (match codes_left(*old(codes))[0] {
            Ok(code) => next matches Ok(Some(handed)) && handed == code && codes_left(*final(codes))
                == codes_left(*old(codes)).skip(1),
            Err(_) => next is Err && codes_left(*final(codes)) == codes_left(*old(codes)),
        }),
{
    codes.inner.next().map_err(|_| ())
}

/// An unwind info record: the frame register, the unwind codes from the one
/// that the prologue performed last to its first, and the address of the
/// record that this one continues in, if any.
#[derive(Clone, Debug, PartialEq, Eq)]
pub struct UnwindInfoRecord {
    /// The number of the frame register; `0` where the function has none.
    pub frame_register: u8,
    /// What the frame register holds above `rsp` once it is set.
    pub frame_register_offset: u32,
    pub codes: Vec<UnwindOpAt>,
    /// The relative address of the chained unwind info.
    pub chained_info: Option<u32>,
}

/// An `UnwindInfoRecord` as a value.
pub struct RecordView {
    pub frame_register: u8,
    pub frame_register_offset: u32,
    pub codes: Seq<UnwindOpAt>,
    pub chained_info: Option<u32>,
}

impl View for UnwindInfoRecord {
    type V = RecordView;

    open spec fn view(&self) -> RecordView {
        RecordView {
            frame_register: self.frame_register,
            frame_register_offset: self.frame_register_offset,
            codes: self.codes@,
            chained_info: self.chained_info,
        }
    }
}

/// The place of a saved register in this crate's terms.
pub open spec fn stack_offset(offset: StackFrameOffset) -> StackOffset {
    match offset {
        StackFrameOffset::RSP(offset) => StackOffset::RSP(offset),
        StackFrameOffset::FP(offset) => StackOffset::FP(offset),
    }
}

/// The operation in this crate's terms; `None` for one that it does not
/// know.
pub open spec fn unwind_op(operation: UnwindOperation) -> Option<UnwindOp> {
    match operation {
        UnwindOperation::PushNonVolatile(register) => Some(UnwindOp::PushNonVolatile(register.0)),
        UnwindOperation::Alloc(size) => Some(UnwindOp::Alloc(size)),
        UnwindOperation::SetFPRegister => Some(UnwindOp::SetFPRegister),
        UnwindOperation::SaveNonVolatile(register, offset) => Some(
            UnwindOp::SaveNonVolatile(register.0, stack_offset(offset)),
        ),
        UnwindOperation::SaveXMM(register, offset) => Some(UnwindOp::SaveXMM(register.0, stack_offset(offset))),
        UnwindOperation::SaveXMM128(register, offset) => Some(
            UnwindOp::SaveXMM128(register.0, stack_offset(offset)),
        ),
        UnwindOperation::PushMachineFrame(error_code) => Some(UnwindOp::PushMachineFrame(error_code)),
        UnwindOperation::Epilog { .. } => Some(UnwindOp::Epilog),
        UnwindOperation::Noop => Some(UnwindOp::Noop),
        _ => None,
    }
}

/// The unwind code in this crate's terms.
pub open spec fn unwind_op_at(code: UnwindCode) -> Option<UnwindOpAt> {
    match unwind_op(code.operation) {
        Some(operation) => Some(UnwindOpAt { code_offset: code.code_offset, operation }),
        None => None,
    }
}

/// The code was decoded, and to an operation that this crate knows.
pub open spec fn readable(code: Result<UnwindCode, ()>) -> bool {
    code matches Ok(code) && unwind_op_at(code) is Some
}

/// The record that parsed unwind info comes to; `None` where the bytes were
/// not parsed or one of the codes is not readable.
pub open spec fn record_of(parsed: Option<ParsedUnwindInfo>) -> Option<RecordView> {
    match parsed {
        Some(parsed) => if forall|i: int| 0 <= i < parsed.codes.len() ==> readable(#[trigger] parsed.codes[i]) {
            Some(
                RecordView {
                    frame_register: parsed.frame_register,
                    frame_register_offset: parsed.frame_register_offset,
                    codes: Seq::new(parsed.codes.len(), |i: int| unwind_op_at(parsed.codes[i]->Ok_0)->Some_0),
                    chained_info: parsed.chained_info,
                },
            )
        } else {
            None
        },
        None => None,
    }
}

impl StackOffset {
    /// Takes over the place of a saved register as goblin decodes it.
    pub fn from_pe(offset: StackFrameOffset) -> (converted: StackOffset)
        ensures
            converted == stack_offset(offset),
    {
        match offset {
            StackFrameOffset::RSP(offset) => StackOffset::RSP(offset),
            StackFrameOffset::FP(offset) => StackOffset::FP(offset),
        }
    }
}

impl UnwindOp {
    /// Takes over an operation as goblin decodes it. An epilogue marker
    /// loses its fields.
    pub fn from_pe(operation: UnwindOperation) -> (converted: Option<UnwindOp>)
        ensures
            converted == unwind_op(operation),
    {
        Some(
            match operation {
                UnwindOperation::PushNonVolatile(register) => UnwindOp::PushNonVolatile(register.0),
                UnwindOperation::Alloc(size) => UnwindOp::Alloc(size),
                UnwindOperation::SetFPRegister => UnwindOp::SetFPRegister,
                UnwindOperation::SaveNonVolatile(register, offset) => UnwindOp::SaveNonVolatile(
                    register.0,
                    StackOffset::from_pe(offset),
                ),
                UnwindOperation::SaveXMM(register, offset) => UnwindOp::SaveXMM(
                    register.0,
                    StackOffset::from_pe(offset),
                ),
                UnwindOperation::SaveXMM128(register, offset) => UnwindOp::SaveXMM128(
                    register.0,
                    StackOffset::from_pe(offset),
                ),
                UnwindOperation::PushMachineFrame(error_code) => UnwindOp::PushMachineFrame(error_code),
                UnwindOperation::Epilog { .. } => UnwindOp::Epilog,
                UnwindOperation::Noop => UnwindOp::Noop,
                _ => { return None; },
            },
        )
    }
}

/// Reads the unwind info record at the start of `bytes`, with all of its
/// unwind codes.
///
/// Fails with `GoblinError` where the record cannot be parsed or one of its
/// codes cannot be decoded.
pub fn read_unwind_info(bytes: &[u8]) -> (read: Result<UnwindInfoRecord, SehUnwinderError>)
    ensures
        match read {
            Ok(record) => record_of(parsed_unwind_info(bytes@)) == Some(record@),
            Err(e) => e == SehUnwinderError::GoblinError && record_of(parsed_unwind_info(bytes@)) is None,
        },
{
    let info = match parse_unwind_info(bytes) {
        Some(info) => info,
        None => { return Err(SehUnwinderError::GoblinError); },
    };
    let ghost parsed = unwind_info_contents(info);
    let (frame_register, frame_register_offset, chained_info) = unwind_info_frame(&info);
    let mut codes = unwind_codes(&info);
    let mut read: Vec<UnwindOpAt> = Vec::new();
    assert(parsed.codes.skip(0) == parsed.codes);
    loop
        invariant
            parsed_unwind_info(bytes@) == Some(parsed),
            frame_register == parsed.frame_register,
            frame_register_offset == parsed.frame_register_offset,
            chained_info == parsed.chained_info,
            read@.len() <= parsed.codes.len(),
            codes_left(codes) == parsed.codes.skip(read@.len() as int),
            forall|i: int|
                0 <= i < read@.len() ==> readable(#[trigger] parsed.codes[i]) && unwind_op_at(parsed.codes[i]->Ok_0)
                    == Some(read@[i]),
        decreases parsed.codes.len() - read@.len(),
    {
        let ghost at = read@.len() as int;
        let code = match next_unwind_code(&mut codes) {
            Ok(Some(code)) => code,
            Ok(None) => {
                let ghost all = read@;
                let record = UnwindInfoRecord { frame_register, frame_register_offset, codes: read, chained_info };
                assert(all.len() == parsed.codes.len());
                assert(record_of(Some(parsed)) is Some);
                assert(record_of(Some(parsed))->Some_0.codes =~= record@.codes);
                assert(record_of(Some(parsed))->Some_0 == record@);
                return Ok(record);
            },
            Err(_) => {
                assert(!readable(parsed.codes[at]));
                return Err(SehUnwinderError::GoblinError);
            },
        };
        assert(parsed.codes[at] == Ok::<UnwindCode, ()>(code));
        assert(parsed.codes.skip(at).skip(1) == parsed.codes.skip(at + 1));
        let operation = match UnwindOp::from_pe(code.operation) {
            Some(operation) => operation,
            None => {
                assert(!readable(parsed.codes[at]));
                return Err(SehUnwinderError::GoblinError);
            },
        };
        read.push(UnwindOpAt { code_offset: code.code_offset, operation });
    }
}

/// The records as values, in their order.
pub open spec fn record_views(records: Seq<UnwindInfoRecord>) -> Seq<RecordView> {
    Seq::new(records.len(), |i: int| records[i]@)
}

/// The longest chain of unwind info records that is followed. A chain that
/// runs in a circle has no end.
pub const CHAIN_LIMIT: usize = 32;

/// The record in what the mapper answered, if it answered and the bytes hold
/// one.
pub open spec fn record_in(answer: Option<Seq<u8>>) -> Option<RecordView> {
    match answer {
        Some(bytes) => record_of(parsed_unwind_info(bytes)),
        None => None,
    }
}

/// The answer holds a record that continues in another.
pub open spec fn continues(answer: Option<Seq<u8>>) -> bool {
    record_in(answer) matches Some(record) && record.chained_info is Some
}

/// The address that the mapper is asked as the walk from `root` goes on
/// after `answers`: `root` at the start, then the address that the record in
/// the last answer names.
pub open spec fn asked_rva(root: u32, answers: Seq<Option<Seq<u8>>>) -> u32 {
    if answers.len() > 0 && continues(answers.last()) {
        record_in(answers.last())->Some_0.chained_info->Some_0
    } else {
        root
    }
}

/// `answers` are what a mapper with the answers `gives` said, one after the other, on a walk along
/// the chain of unwind info records that begins at `root`: each is its answer
/// for the address asked after those before it, and the walk went on as long
/// as the answer held a record that continues, up to `CHAIN_LIMIT` records.
pub open spec fn is_walk(
    gives: spec_fn(u32, Option<Seq<u8>>) -> bool,
    root: u32,
    answers: Seq<Option<Seq<u8>>>,
) -> bool {
    &&& 1 <= answers.len() <= CHAIN_LIMIT
    &&& forall|i: int| 0 <= i < answers.len() ==> gives(asked_rva(root, answers.take(i)), #[trigger] answers[i])
    &&& forall|i: int| 0 <= i < answers.len() - 1 ==> continues(#[trigger] answers[i])
    &&& continues(answers.last()) ==> answers.len() == CHAIN_LIMIT
}

/// The chain that a walk with these answers comes to.
///
/// An address that is not mapped is `UnwindRvaMappingFailed` for the
/// function's own record and `GoblinError` for a chained one; bytes that hold
/// no readable record are `GoblinError`; a chain that still continues after
/// `CHAIN_LIMIT` records is `ConversionError`.
pub open spec fn chain_of(answers: Seq<Option<Seq<u8>>>) -> Result<Seq<RecordView>, SehUnwinderError> {
    match answers.last() {
        None => Err(
            if answers.len() == 1 {
                SehUnwinderError::UnwindRvaMappingFailed
            } else {
                SehUnwinderError::GoblinError
            },
        ),
        Some(_) => match record_in(answers.last()) {
            None => Err(SehUnwinderError::GoblinError),
            Some(last) => if last.chained_info is Some {
                Err(SehUnwinderError::ConversionError)
            } else {
                Ok(Seq::new(answers.len(), |i: int| record_in(answers[i])->Some_0))
            },
        },
    }
}

/// A chain of records as values.
pub open spec fn chain_view(chain: Result<Vec<UnwindInfoRecord>, SehUnwinderError>) -> Result<
    Seq<RecordView>,
    SehUnwinderError,
> {
    match chain {
        Ok(records) => Ok(record_views(records@)),
        Err(e) => Err(e),
    }
}

/// Reads the chain of unwind info records that begins at the relative
/// address `root`: the function's own record first, then the one that it
/// names as its continuation, and so on.
pub fn unwind_info_chain<M: RvaMapper>(mapper: &M, root: u32) -> (chain: Result<
    Vec<UnwindInfoRecord>,
    SehUnwinderError,
>)
    ensures
        exists|answers: Seq<Option<Seq<u8>>>| #[trigger]
            is_walk(answers_of(mapper), root, answers) && chain_view(chain) == chain_of(answers),
{
    let mut records: Vec<UnwindInfoRecord> = Vec::new();
    let mut rva = root;
    let ghost mut answers: Seq<Option<Seq<u8>>> = Seq::empty();
    while records.len() < CHAIN_LIMIT
        invariant
            records@.len() == answers.len() <= CHAIN_LIMIT,
            rva == asked_rva(root, answers),
            forall|i: int|
                0 <= i < answers.len() ==> mapper_gave(
                    mapper,
                    asked_rva(root, answers.take(i)),
                    #[trigger] answers[i],
                ),
            forall|i: int|
                0 <= i < answers.len() ==> continues(#[trigger] answers[i]) && record_in(answers[i]) == Some(
                    records@[i]@,
                ),
        decreases CHAIN_LIMIT - records.len(),
    {
        let answer = mapper.map(rva);
        let ghost before = answers;
        proof {
            answers = before.push(mapped(answer));
            assert(answers.take(before.len() as int) == before);
            assert(mapper_gave(mapper, rva, mapped(answer)));
            assert forall|i: int| 0 <= i < answers.len() implies mapper_gave(
                mapper,
                asked_rva(root, answers.take(i)),
                #[trigger] answers[i],
            ) by {
                if i < before.len() {
                    assert(answers.take(i) == before.take(i));
                    assert(answers[i] == before[i]);
                }
            }
        }
        let bytes = match answer {
            Some(bytes) => bytes,
            None => {
                let e = if records.len() == 0 {
                    SehUnwinderError::UnwindRvaMappingFailed
                } else {
                    SehUnwinderError::GoblinError
                };
                assert(is_walk(answers_of(mapper), root, answers));
                return Err(e);
            },
        };
        let record = match read_unwind_info(bytes) {
            Ok(record) => record,
            Err(e) => {
                assert(is_walk(answers_of(mapper), root, answers));
                return Err(e);
            },
        };
        let chained_info = record.chained_info;
        records.push(record);
        match chained_info {
            Some(next) => {
                rva = next;
            },
            None => {
                assert(is_walk(answers_of(mapper), root, answers));
                assert(chain_of(answers)->Ok_0 =~= record_views(records@));
                return Ok(records);
            },
        }
    }
    assert(is_walk(answers_of(mapper), root, answers));
    Err(SehUnwinderError::ConversionError)
}

/// The mapper has one answer for each address.
pub open spec fn single_valued(gives: spec_fn(u32, Option<Seq<u8>>) -> bool) -> bool {
    forall|rva: u32, first: Option<Seq<u8>>, second: Option<Seq<u8>>|
        #[trigger] gives(rva, first) && #[trigger] gives(rva, second) ==> first == second
}

proof fn lemma_walks_begin_alike(
    gives: spec_fn(u32, Option<Seq<u8>>) -> bool,
    root: u32,
    first: Seq<Option<Seq<u8>>>,
    second: Seq<Option<Seq<u8>>>,
    upto: int,
)
    requires
        single_valued(gives),
        is_walk(gives, root, first),
        is_walk(gives, root, second),
        0 <= upto <= first.len(),
        upto <= second.len(),
    ensures
        first.take(upto) == second.take(upto),
    decreases upto,
{
    if upto == 0 {
        assert(first.take(0) =~= second.take(0));
    } else {
        lemma_walks_begin_alike(gives, root, first, second, upto - 1);
        let asked = asked_rva(root, first.take(upto - 1));
        assert(gives(asked, first[upto - 1]));
        assert(gives(asked, second[upto - 1]));
        assert(first.take(upto) =~= first.take(upto - 1).push(first[upto - 1]));
        assert(second.take(upto) =~= second.take(upto - 1).push(second[upto - 1]));
    }
}

/// With a mapper that has one answer for each address, the walk along a
/// chain of unwind info records is one walk.
pub proof fn lemma_walk_is_determined(
    gives: spec_fn(u32, Option<Seq<u8>>) -> bool,
    root: u32,
    first: Seq<Option<Seq<u8>>>,
    second: Seq<Option<Seq<u8>>>,
)
    requires
        single_valued(gives),
        is_walk(gives, root, first),
        is_walk(gives, root, second),
    ensures
        first == second,
{
    let shorter = if first.len() <= second.len() {
        first.len() as int
    } else {
        second.len() as int
    };
    lemma_walks_begin_alike(gives, root, first, second, shorter);
    assert(first.take(shorter)[shorter - 1] == second.take(shorter)[shorter - 1]);
    if first.len() < second.len() {
        assert(continues(second[shorter - 1]));
        assert(first.last() == second[shorter - 1]);
    } else if second.len() < first.len() {
        assert(continues(first[shorter - 1]));
        assert(second.last() == first[shorter - 1]);
    } else {
        assert(first.take(shorter) == first);
        assert(second.take(shorter) == second);
    }
}

} // verus!
