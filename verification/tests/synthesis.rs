use seh_unwind::{
    seh_to_unwind_rule, SehUnwinderError, StackOffset, UnwindInfoChunk, UnwindOp, UnwindRuleX86_64,
};

fn chunk(codes: Vec<UnwindOp>, frame_register: u8, frame_register_offset: u32) -> UnwindInfoChunk {
    UnwindInfoChunk { codes, frame_register, frame_register_offset }
}

#[test]
fn with_sp() {
    let codes = vec![
        // 0x3B: SAVE_NONVOL reg=R13, offset=0x50
        // 0x36: SAVE_NONVOL reg=R12, offset=0x48
        // 0x31: SAVE_NONVOL reg=RDI, offset=0x40
        // 0x08: ALLOC_SMALL size=32
        // 0x04: PUSH_NONVOL reg=RSI
        // 0x03: PUSH_NONVOL reg=RBP
        // 0x02: PUSH_NONVOL reg=RBX
        UnwindOp::SaveNonVolatile(13, StackOffset::RSP(0x50)),
        UnwindOp::SaveNonVolatile(12, StackOffset::RSP(0x48)),
        UnwindOp::SaveNonVolatile(7, StackOffset::RSP(0x40)),
        UnwindOp::Alloc(32),
        UnwindOp::PushNonVolatile(6),
        UnwindOp::PushNonVolatile(5),
        UnwindOp::PushNonVolatile(3),
    ];
    let rule = seh_to_unwind_rule(&[UnwindInfoChunk {
        codes,
        frame_register: 0,
        frame_register_offset: 0,
    }])
    .unwrap();
    assert_eq!(
        rule,
        UnwindRuleX86_64::OffsetSpAndRestoreBp {
            sp_offset_by_8: 8,
            bp_storage_offset_from_sp_by_8: 5,
        }
    );
}

#[test]
fn with_bp() {
    let codes = vec![
        // 0x16: ALLOC_LARGE size=152
        // 0x0F: PUSH_NONVOL reg=RBX
        // 0x0E: PUSH_NONVOL reg=RSI
        // 0x0D: PUSH_NONVOL reg=RDI
        // 0x0C: PUSH_NONVOL reg=R12
        // 0x0A: PUSH_NONVOL reg=R13
        // 0x08: PUSH_NONVOL reg=R14
        // 0x06: PUSH_NONVOL reg=R15
        // 0x04: SET_FPREG reg=RBP, offset=0x0
        // 0x01: PUSH_NONVOL reg=RBP
        UnwindOp::Alloc(152),
        UnwindOp::PushNonVolatile(3),
        UnwindOp::PushNonVolatile(6),
        UnwindOp::PushNonVolatile(7),
        UnwindOp::PushNonVolatile(12),
        UnwindOp::PushNonVolatile(13),
        UnwindOp::PushNonVolatile(14),
        UnwindOp::PushNonVolatile(15),
        UnwindOp::SetFPRegister,
        UnwindOp::PushNonVolatile(5),
    ];
    let rule = seh_to_unwind_rule(&[UnwindInfoChunk {
        codes,
        frame_register: 5,
        frame_register_offset: 0,
    }])
    .unwrap();
    assert_eq!(
        rule,
        UnwindRuleX86_64::UseBasePointer {
            sp_offset_from_bp_by_8: 2,
            bp_storage_offset_from_bp_by_8: 0,
        }
    );
}

#[test]
fn midstack_bp() {
    // 0x25: SAVE_NONVOL reg=RDI, offset=0x80
    // 0x1E: SAVE_NONVOL reg=RSI, offset=0x78
    // 0x17: SAVE_NONVOL reg=RBX, offset=0x70
    // 0x13: SET_FPREG reg=RBP, offset=0x30
    // 0x0E: ALLOC_SMALL size=64
    // 0x0A: PUSH_NONVOL reg=R15
    // 0x08: PUSH_NONVOL reg=R14
    // 0x06: PUSH_NONVOL reg=R13
    // 0x04: PUSH_NONVOL reg=R12
    // 0x02: PUSH_NONVOL reg=RBP
    let codes = vec![
        UnwindOp::SaveNonVolatile(7, StackOffset::RSP(0x80)),
        UnwindOp::SaveNonVolatile(6, StackOffset::RSP(0x78)),
        UnwindOp::SaveNonVolatile(3, StackOffset::RSP(0x70)),
        UnwindOp::SetFPRegister,
        UnwindOp::Alloc(64),
        UnwindOp::PushNonVolatile(15),
        UnwindOp::PushNonVolatile(14),
        UnwindOp::PushNonVolatile(13),
        UnwindOp::PushNonVolatile(12),
        UnwindOp::PushNonVolatile(5),
    ];
    let rule = seh_to_unwind_rule(&[UnwindInfoChunk {
        codes,
        frame_register: 5,
        frame_register_offset: 0x30,
    }])
    .unwrap();
    assert_eq!(
        rule,
        UnwindRuleX86_64::UseBasePointer {
            sp_offset_from_bp_by_8: 8,
            bp_storage_offset_from_bp_by_8: 6,
        }
    );
}

#[test]
fn no_operation_just_returns() {
    assert_eq!(seh_to_unwind_rule(&[]), Ok(UnwindRuleX86_64::OffsetSp { sp_offset_by_8: 1 }));
    assert_eq!(
        seh_to_unwind_rule(&[chunk(vec![], 0, 0)]),
        Ok(UnwindRuleX86_64::OffsetSp { sp_offset_by_8: 1 })
    );
}

#[test]
fn chained_chunks_add_up() {
    let rule = seh_to_unwind_rule(&[
        chunk(vec![UnwindOp::Alloc(0x20)], 0, 0),
        chunk(vec![UnwindOp::PushNonVolatile(5), UnwindOp::PushNonVolatile(3)], 0, 0),
    ]);
    assert_eq!(
        rule,
        Ok(UnwindRuleX86_64::OffsetSpAndRestoreBp {
            sp_offset_by_8: 7,
            bp_storage_offset_from_sp_by_8: 4,
        })
    );
}

#[test]
fn saved_rbp_is_found_at_its_rsp_offset() {
    let rule = seh_to_unwind_rule(&[chunk(
        vec![UnwindOp::SaveNonVolatile(5, StackOffset::RSP(0x28)), UnwindOp::Alloc(0x40)],
        0,
        0,
    )]);
    assert_eq!(
        rule,
        Ok(UnwindRuleX86_64::OffsetSpAndRestoreBp {
            sp_offset_by_8: 9,
            bp_storage_offset_from_sp_by_8: 5,
        })
    );
    // a slot that names no place says nothing
    let rule = seh_to_unwind_rule(&[chunk(
        vec![UnwindOp::SaveNonVolatile(5, StackOffset::Unused), UnwindOp::Alloc(0x40)],
        0,
        0,
    )]);
    assert_eq!(rule, Ok(UnwindRuleX86_64::OffsetSp { sp_offset_by_8: 9 }));
}

#[test]
fn offsets_are_kept_in_units_of_eight_rounded_towards_zero() {
    let rule = seh_to_unwind_rule(&[chunk(vec![UnwindOp::Alloc(12)], 0, 0)]);
    assert_eq!(rule, Ok(UnwindRuleX86_64::OffsetSp { sp_offset_by_8: 2 }));
    // sp_offset = -12 + 8 = -4, which rounds up to 0; the slot of rbp at -12 rounds to -1
    let rule = seh_to_unwind_rule(&[chunk(vec![UnwindOp::SetFPRegister, UnwindOp::PushNonVolatile(5)], 5, 12)]);
    assert_eq!(
        rule,
        Ok(UnwindRuleX86_64::UseBasePointer {
            sp_offset_from_bp_by_8: 0,
            bp_storage_offset_from_bp_by_8: -1,
        })
    );
}

#[test]
fn ignored_operations_change_nothing() {
    let plain = vec![UnwindOp::Alloc(32), UnwindOp::PushNonVolatile(5), UnwindOp::PushNonVolatile(3)];
    let expected = seh_to_unwind_rule(&[chunk(plain.clone(), 0, 0)]);
    assert_eq!(
        expected,
        Ok(UnwindRuleX86_64::OffsetSpAndRestoreBp {
            sp_offset_by_8: 7,
            bp_storage_offset_from_sp_by_8: 4,
        })
    );
    let ignored = [
        UnwindOp::Noop,
        UnwindOp::Epilog,
        UnwindOp::SaveXMM(17, StackOffset::RSP(0x10)),
        UnwindOp::SaveXMM128(23, StackOffset::FP(0x20)),
        UnwindOp::PushMachineFrame(true),
        UnwindOp::SaveNonVolatile(12, StackOffset::FP(8)),
    ];
    for op in ignored {
        for at in 0..=plain.len() {
            let mut codes = plain.clone();
            codes.insert(at, op);
            assert_eq!(seh_to_unwind_rule(&[chunk(codes, 0, 0)]), expected);
        }
    }
}

#[test]
fn what_comes_to_no_rule_is_a_conversion_error() {
    let failed = Err(SehUnwinderError::ConversionError);
    // the frame register is neither absent nor rbp
    assert_eq!(seh_to_unwind_rule(&[chunk(vec![], 13, 0)]), failed);
    assert_eq!(seh_to_unwind_rule(&[chunk(vec![], 0, 0), chunk(vec![], 4, 0)]), failed);
    // rbp saved at an offset from the frame register
    assert_eq!(
        seh_to_unwind_rule(&[chunk(vec![UnwindOp::SaveNonVolatile(5, StackOffset::FP(8))], 5, 0)]),
        failed
    );
    // the frame register is set and rbp is nowhere
    assert_eq!(seh_to_unwind_rule(&[chunk(vec![UnwindOp::SetFPRegister], 5, 0)]), failed);
    // the offset does not fit the rule: 8 * 0xffff is the most
    assert_eq!(
        seh_to_unwind_rule(&[chunk(vec![UnwindOp::Alloc(8 * 0xffff - 8)], 0, 0)]),
        Ok(UnwindRuleX86_64::OffsetSp { sp_offset_by_8: 0xffff })
    );
    assert_eq!(seh_to_unwind_rule(&[chunk(vec![UnwindOp::Alloc(8 * 0xffff)], 0, 0)]), failed);
    // the slot of rbp does not fit the rule
    assert_eq!(
        seh_to_unwind_rule(&[chunk(vec![UnwindOp::SaveNonVolatile(5, StackOffset::RSP(8 * 0x8000))], 0, 0)]),
        failed
    );
    assert_eq!(
        seh_to_unwind_rule(&[chunk(vec![UnwindOp::SaveNonVolatile(5, StackOffset::RSP(u32::MAX))], 0, 0)]),
        failed
    );
    // the offset leaves the range of i32
    assert_eq!(
        seh_to_unwind_rule(&[chunk(vec![UnwindOp::Alloc(0x7fff_fff8), UnwindOp::PushNonVolatile(3)], 0, 0)]),
        failed
    );
    assert_eq!(seh_to_unwind_rule(&[chunk(vec![UnwindOp::Alloc(u32::MAX)], 0, 0)]), failed);
    assert_eq!(seh_to_unwind_rule(&[chunk(vec![UnwindOp::Alloc(0x7fff_fff8)], 0, 0)]), failed);
    assert_eq!(seh_to_unwind_rule(&[chunk(vec![UnwindOp::SetFPRegister], 5, 0x8000_0001)]), failed);
    // a negative offset to the return address fits no rule
    assert_eq!(
        seh_to_unwind_rule(&[chunk(vec![UnwindOp::SetFPRegister, UnwindOp::PushNonVolatile(5)], 5, 0x20)]),
        failed
    );
}
