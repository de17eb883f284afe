use seh_unwind::add_signed::checked_add_signed;
use seh_unwind::{CompactUnwindInfoUnwinderError, DwarfUnwinderError, SehUnwinderError, UnwinderError};

#[test]
fn dwarf_failure_behind_compact_unwind_info_counts_as_dwarf() {
    assert_eq!(
        UnwinderError::from(CompactUnwindInfoUnwinderError::BadDwarfUnwinding(
            DwarfUnwinderError::CouldNotRecoverCfa
        )),
        UnwinderError::Dwarf(DwarfUnwinderError::CouldNotRecoverCfa)
    );
    assert_eq!(
        UnwinderError::from(CompactUnwindInfoUnwinderError::BadOpcodeKind(7)),
        UnwinderError::CompactUnwindInfo(CompactUnwindInfoUnwinderError::BadOpcodeKind(7))
    );
    assert_eq!(
        UnwinderError::from(CompactUnwindInfoUnwinderError::FunctionHasNoInfo),
        UnwinderError::CompactUnwindInfo(CompactUnwindInfoUnwinderError::FunctionHasNoInfo)
    );
}

#[test]
fn failures_of_one_kind_of_unwind_data_are_wrapped() {
    assert_eq!(
        UnwinderError::from(DwarfUnwinderError::DidNotAdvance),
        UnwinderError::Dwarf(DwarfUnwinderError::DidNotAdvance)
    );
    assert_eq!(
        UnwinderError::from(SehUnwinderError::ConversionError),
        UnwinderError::Seh(SehUnwinderError::ConversionError)
    );
    let converted: UnwinderError = SehUnwinderError::GoblinError.into();
    assert_eq!(converted, UnwinderError::Seh(SehUnwinderError::GoblinError));
}

#[test]
fn signed_offsets_are_added_within_u64() {
    assert_eq!(checked_add_signed(0x10, 8), Some(0x18));
    assert_eq!(checked_add_signed(0x10, -8), Some(0x8));
    assert_eq!(checked_add_signed(0x10, -0x10), Some(0));
    assert_eq!(checked_add_signed(0x10, -0x11), None);
    assert_eq!(checked_add_signed(0, i64::MIN), None);
    assert_eq!(checked_add_signed(1 << 63, i64::MIN), Some(0));
    assert_eq!(checked_add_signed(u64::MAX, i64::MIN), Some((1 << 63) - 1));
    assert_eq!(checked_add_signed(u64::MAX, 0), Some(u64::MAX));
    assert_eq!(checked_add_signed(u64::MAX, 1), None);
    assert_eq!(checked_add_signed(u64::MAX - 5, 5), Some(u64::MAX));
    assert_eq!(checked_add_signed(1, i64::MAX), Some(1 << 63));
    assert_eq!(checked_add_signed(u64::MAX, -1), Some(u64::MAX - 1));
}
