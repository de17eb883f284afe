use crate::arch::Arch;
use crate::unwind_result::UnwindResult;
use std::marker::PhantomData;
use vstd::prelude::*;

verus! {

/// Gives the bytes of a module's image by their relative virtual address.
pub trait RvaMapper {
    /// The bytes from `rva` on, as far as the mapper has them in one piece;
    /// `None` where it has nothing at that address.
    fn map(&self, rva: u32) -> Option<&[u8]>;
}

/// A mapper behind a reference answers as the mapper does.
impl<'a> RvaMapper for &'a (dyn RvaMapper + 'a) {
    /// An answer of the mapper behind the reference for `rva`.
    fn map(&self, rva: u32) -> (answer: Option<&[u8]>)
        ensures
            mapper_gave::<dyn RvaMapper + 'a>(&**self, rva, mapped(answer)),
    {
        ask::<dyn RvaMapper + 'a>(&**self, rva)
    }
}

/// Asks the mapper for the bytes at `rva`.
fn ask<M: RvaMapper + ?Sized>(mapper: &M, rva: u32) -> (answer: Option<&[u8]>)
    ensures
        mapper_gave(mapper, rva, mapped(answer)),
{
    mapper.map(rva)
}

/// What the mapper's answer holds.
pub open spec fn mapped(answer: Option<&[u8]>) -> Option<Seq<u8>> {
    match answer {
        Some(bytes) => Some(bytes@),
        None => None,
    }
}

/// `answer` is what a call of `mapper.map(rva)` may return.
pub open spec fn mapper_gave<M: RvaMapper + ?Sized>(mapper: &M, rva: u32, answer: Option<Seq<u8>>) -> bool {
    exists|returned: Option<&[u8]>| #[trigger]
        call_ensures(M::map, (mapper, rva), returned) && mapped(returned) == answer
}

/// The answers that the mapper may give, as a relation of the address asked
/// and the answer.
pub open spec fn answers_of<M: RvaMapper>(mapper: &M) -> spec_fn(u32, Option<Seq<u8>>) -> bool {
    |rva: u32, answer: Option<Seq<u8>>| mapper_gave(mapper, rva, answer)
}

/// Why the SEH metadata gave no unwind rule for an address.
#[derive(Clone, Copy, Debug, PartialEq, Eq)]
pub enum SehUnwinderError {
    /// The exception table is not a whole number of `RUNTIME_FUNCTION` records.
    InvalidRuntimeFunction,
    /// No `RUNTIME_FUNCTION` covers the address.
    UnwindInfoForAddressFailed,
    /// The RVA of the function's unwind info is not mapped.
    UnwindRvaMappingFailed,
    /// The unwind codes do not come to a rule.
    ConversionError,
    /// An unwind info record could not be parsed, or a chained one is not mapped.
    GoblinError,
}

/// An architecture whose SEH metadata can be followed.
pub trait SehUnwinding: Arch {
    /// `result` is what unwinding at `rel_lookup_address` may come to with
    /// this exception table and a mapper that gives these answers.
    spec fn unwinds(
        exception_data: Seq<u8>,
        rel_lookup_address: u32,
        gives: spec_fn(u32, Option<Seq<u8>>) -> bool,
        result: Result<UnwindResult<Self::UnwindRule>, SehUnwinderError>,
    ) -> bool;

    /// The rule for code that the exception table does not cover.
    spec fn uncovered_rule() -> Self::UnwindRule;

    /// Finds the unwind rule for the frame whose code address, relative to
    /// the module's base, is `rel_lookup_address`. The registers stay as
    /// they are.
    fn unwind_frame<'a, F, G>(
        exception_data: &'a [u8],
        rel_lookup_address: u32,
        rva_mapper: &mut F,
        regs: &mut Self::UnwindRegs,
        is_first_frame: bool,
        read_stack: &mut G,
    ) -> (result: Result<UnwindResult<Self::UnwindRule>, SehUnwinderError>) where
        F: RvaMapper,
        G: FnMut(u64) -> Result<u64, ()>,

        ensures
            Self::unwinds(exception_data@, rel_lookup_address, answers_of(&*old(rva_mapper)), result),
            *final(rva_mapper) == *old(rva_mapper),
            *final(regs) == *old(regs),
            *final(read_stack) == *old(read_stack),
    ;

    /// The rule for code that the exception table does not cover.
    fn rule_if_uncovered_by_seh() -> (rule: Self::UnwindRule)
        ensures
            rule == Self::uncovered_rule(),
    ;
}

/// The result with the fallback: code that the exception table does not
/// cover has pushed nothing that the table would have to tell of.
pub open spec fn or_uncovered<R>(
    result: Result<UnwindResult<R>, SehUnwinderError>,
    uncovered_rule: R,
) -> Result<UnwindResult<R>, SehUnwinderError> {
    match result {
        Err(SehUnwinderError::UnwindInfoForAddressFailed) => Ok(UnwindResult::ExecRule(uncovered_rule)),
        _ => result,
    }
}

/// The SEH metadata of one module: its exception table and the mapper that
/// gives the bytes of its unwind info.
pub struct SehUnwinder<'a, F: RvaMapper, A: SehUnwinding> {
    exception_data: &'a [u8],
    rva_mapper: F,
    _arch: PhantomData<A>,
}

impl<'a, F: RvaMapper, A: SehUnwinding> SehUnwinder<'a, F, A> {
    /// The bytes of the exception table.
    pub closed spec fn exception_data(&self) -> Seq<u8> {
        self.exception_data@
    }

    /// The mapper that is asked for the bytes of the unwind info.
    pub closed spec fn rva_mapper(&self) -> F {
        self.rva_mapper
    }

    /// An unwinder for the module with this exception table, whose unwind
    /// info is read through `rva_mapper`.
    pub fn new(exception_data: &'a [u8], rva_mapper: F) -> (unwinder: Self)
        ensures
            unwinder.exception_data() == exception_data@,
            unwinder.rva_mapper() == rva_mapper,
    {
        Self { exception_data, rva_mapper, _arch: PhantomData }
    }

    /// Finds the unwind rule for the frame whose code address, relative to
    /// the module's base, is `rel_lookup_address`. For an address that the
    /// exception table does not cover, that is the rule for uncovered code.
    pub fn unwind_frame(
        &mut self,
        regs: &mut A::UnwindRegs,
        rel_lookup_address: u32,
        is_first_frame: bool,
        mut read_stack: impl FnMut(u64) -> Result<u64, ()>,
    ) -> (result: Result<UnwindResult<A::UnwindRule>, SehUnwinderError>)
        ensures
            exists|inner: Result<UnwindResult<A::UnwindRule>, SehUnwinderError>| #[trigger]
                A::unwinds(
                    old(self).exception_data(),
                    rel_lookup_address,
                    answers_of(&old(self).rva_mapper()),
                    inner,
                )
                    && result == or_uncovered(inner, A::uncovered_rule()),
            final(self).exception_data() == old(self).exception_data(),
            final(self).rva_mapper() == old(self).rva_mapper(),
            *final(regs) == *old(regs),
    {
        let result = A::unwind_frame(
            self.exception_data,
            rel_lookup_address,
            &mut self.rva_mapper,
            regs,
            is_first_frame,
            &mut read_stack,
        );
        let with_fallback = if let Err(SehUnwinderError::UnwindInfoForAddressFailed) = result {
            Ok(UnwindResult::ExecRule(A::rule_if_uncovered_by_seh()))
        } else {
            result
        };
        assert(A::unwinds(
            old(self).exception_data(),
            rel_lookup_address,
            answers_of(&old(self).rva_mapper()),
            result,
        ));
        with_fallback
    }
}

} // verus!
