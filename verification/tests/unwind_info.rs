use goblin::pe::exception::{Register, StackFrameOffset, UnwindOperation};
use seh_unwind::{
    read_unwind_info, unwind_info_chain, unwind_info_chunks, RvaMapper, SehUnwinderError, StackOffset,
    UnwindInfoChunk, UnwindInfoRecord, UnwindOp, UnwindOpAt,
};

fn at(code_offset: u8, operation: UnwindOp) -> UnwindOpAt {
    UnwindOpAt { code_offset, operation }
}

/// sub rsp, 40; push rbp; push rbx, seen from the end of the prologue
const PLAIN: [u8; 12] = [0x01, 0x08, 0x03, 0x00, 0x08, 0x42, 0x04, 0x50, 0x02, 0x30, 0x00, 0x00];

fn plain_record() -> UnwindInfoRecord {
    UnwindInfoRecord {
        frame_register: 0,
        frame_register_offset: 0,
        codes: vec![
            at(8, UnwindOp::Alloc(40)),
            at(4, UnwindOp::PushNonVolatile(5)),
            at(2, UnwindOp::PushNonVolatile(3)),
        ],
        chained_info: None,
    }
}

#[test]
fn record_is_read_with_its_codes() {
    assert_eq!(read_unwind_info(&PLAIN), Ok(plain_record()));
    // what follows the record is not looked at
    let mut longer = PLAIN.to_vec();
    longer.extend_from_slice(&[0xff; 5]);
    assert_eq!(read_unwind_info(&longer), Ok(plain_record()));
}

#[test]
fn frame_register_and_its_offset_are_read() {
    // frame register rbp, set at rsp + 0x30
    let bytes = [0x01, 0x06, 0x02, 0x35, 0x06, 0x03, 0x01, 0x50];
    assert_eq!(
        read_unwind_info(&bytes),
        Ok(UnwindInfoRecord {
            frame_register: 5,
            frame_register_offset: 0x30,
            codes: vec![at(6, UnwindOp::SetFPRegister), at(1, UnwindOp::PushNonVolatile(5))],
            chained_info: None,
        })
    );
}

#[test]
fn codes_of_every_kind_are_read() {
    let bytes = [
        0x01, 0x40, 0x13, 0x00, // version 1, 19 slots
        0x40, 0x01, 0x13, 0x00, // ALLOC_LARGE, 0x13 * 8
        0x38, 0x11, 0x78, 0x56, 0x34, 0x12, // ALLOC_LARGE with the size in 32 bits
        0x30, 0x54, 0x05, 0x00, // SAVE_NONVOL rbp at 5 * 8
        0x28, 0xc5, 0x00, 0x00, 0x01, 0x00, // SAVE_NONVOL_FAR r12 at 0x10000
        0x20, 0x68, 0x02, 0x00, // SAVE_XMM128 xmm6 at 2 * 16
        0x18, 0x79, 0x00, 0x10, 0x00, 0x00, // SAVE_XMM128_FAR xmm7 at 0x1000
        0x10, 0x1a, // PUSH_MACHFRAME with an error code
        0x08, 0x0a, // PUSH_MACHFRAME without
        0x04, 0x26, 0x03, 0x00, // SAVE_XMM xmm2 at 3 * 16
        0x00, 0x00, // the slot that fills up to an even number
    ];
    let read = read_unwind_info(&bytes).unwrap();
    assert_eq!(
        read.codes,
        vec![
            at(0x40, UnwindOp::Alloc(0x98)),
            at(0x38, UnwindOp::Alloc(0x1234_5678)),
            at(0x30, UnwindOp::SaveNonVolatile(5, StackOffset::RSP(0x28))),
            at(0x28, UnwindOp::SaveNonVolatile(12, StackOffset::RSP(0x10000))),
            at(0x20, UnwindOp::SaveXMM128(23, StackOffset::RSP(0x20))),
            at(0x18, UnwindOp::SaveXMM128(24, StackOffset::RSP(0x1000))),
            at(0x10, UnwindOp::PushMachineFrame(true)),
            at(0x08, UnwindOp::PushMachineFrame(false)),
            at(0x04, UnwindOp::SaveXMM(19, StackOffset::RSP(0x30))),
        ]
    );
}

#[test]
fn saves_count_from_the_frame_register_where_there_is_one() {
    let bytes = [0x01, 0x08, 0x02, 0x05, 0x08, 0x54, 0x05, 0x00];
    assert_eq!(
        read_unwind_info(&bytes).unwrap().codes,
        vec![at(8, UnwindOp::SaveNonVolatile(5, StackOffset::FP(0x28)))]
    );
}

#[test]
fn epilogue_markers_of_version_two_are_read() {
    let bytes = [0x02, 0x04, 0x03, 0x00, 0x10, 0x16, 0x00, 0x06, 0x04, 0x50, 0x00, 0x00];
    assert_eq!(
        read_unwind_info(&bytes).unwrap().codes,
        vec![at(0x10, UnwindOp::Epilog), at(0, UnwindOp::Epilog), at(4, UnwindOp::PushNonVolatile(5))]
    );
}

#[test]
fn chained_record_names_its_continuation() {
    let bytes = [
        0x21, 0x04, 0x01, 0x00, 0x04, 0x02, 0x00, 0x00, // one code and the slot that fills up
        0x00, 0x10, 0x00, 0x00, 0x80, 0x10, 0x00, 0x00, 0x44, 0x33, 0x22, 0x11,
    ];
    assert_eq!(
        read_unwind_info(&bytes),
        Ok(UnwindInfoRecord {
            frame_register: 0,
            frame_register_offset: 0,
            codes: vec![at(4, UnwindOp::Alloc(8))],
            chained_info: Some(0x1122_3344),
        })
    );
}

#[test]
fn what_cannot_be_parsed_is_refused() {
    let failed = Err(SehUnwinderError::GoblinError);
    assert_eq!(read_unwind_info(&[]), failed);
    assert_eq!(read_unwind_info(&PLAIN[..3]), failed);
    // fewer codes than the record counts
    assert_eq!(read_unwind_info(&PLAIN[..9]), failed);
    // version 0 and version 3
    assert_eq!(read_unwind_info(&[0x00, 0x00, 0x00, 0x00]), failed);
    assert_eq!(read_unwind_info(&[0x03, 0x00, 0x00, 0x00]), failed);
    // the chained entry is cut off
    assert_eq!(read_unwind_info(&[0x21, 0x00, 0x00, 0x00, 0x00, 0x10, 0x00, 0x00]), failed);
    // a code that does not exist
    assert_eq!(read_unwind_info(&[0x01, 0x02, 0x01, 0x00, 0x02, 0x0b]), failed);
    // after codes that do
    assert_eq!(read_unwind_info(&[0x01, 0x02, 0x02, 0x00, 0x02, 0x50, 0x01, 0x0f]), failed);
    // a code that is cut off
    assert_eq!(read_unwind_info(&[0x01, 0x02, 0x01, 0x00, 0x02, 0x01]), failed);
    // a machine frame that is neither with nor without error code
    assert_eq!(read_unwind_info(&[0x01, 0x02, 0x01, 0x00, 0x02, 0x2a]), failed);
}

#[test]
fn record_without_codes_is_read() {
    assert_eq!(
        read_unwind_info(&[0x01, 0x00, 0x00, 0x00]),
        Ok(UnwindInfoRecord { frame_register: 0, frame_register_offset: 0, codes: vec![], chained_info: None })
    );
}

#[test]
fn operations_are_taken_over_one_for_one() {
    assert_eq!(
        UnwindOp::from_pe(UnwindOperation::PushNonVolatile(Register(5))),
        Some(UnwindOp::PushNonVolatile(5))
    );
    assert_eq!(UnwindOp::from_pe(UnwindOperation::Alloc(0x1238)), Some(UnwindOp::Alloc(0x1238)));
    assert_eq!(UnwindOp::from_pe(UnwindOperation::SetFPRegister), Some(UnwindOp::SetFPRegister));
    assert_eq!(
        UnwindOp::from_pe(UnwindOperation::SaveNonVolatile(Register(12), StackFrameOffset::RSP(0x48))),
        Some(UnwindOp::SaveNonVolatile(12, StackOffset::RSP(0x48)))
    );
    assert_eq!(
        UnwindOp::from_pe(UnwindOperation::SaveNonVolatile(Register(12), StackFrameOffset::FP(0x48))),
        Some(UnwindOp::SaveNonVolatile(12, StackOffset::FP(0x48)))
    );
    assert_eq!(
        UnwindOp::from_pe(UnwindOperation::SaveXMM(Register(17), StackFrameOffset::RSP(0x10))),
        Some(UnwindOp::SaveXMM(17, StackOffset::RSP(0x10)))
    );
    assert_eq!(
        UnwindOp::from_pe(UnwindOperation::SaveXMM128(Register(32), StackFrameOffset::FP(0x20))),
        Some(UnwindOp::SaveXMM128(32, StackOffset::FP(0x20)))
    );
    assert_eq!(
        UnwindOp::from_pe(UnwindOperation::PushMachineFrame(true)),
        Some(UnwindOp::PushMachineFrame(true))
    );
    assert_eq!(
        UnwindOp::from_pe(UnwindOperation::Epilog { offset_low_or_size: 7, offset_high_or_flags: 1 }),
        Some(UnwindOp::Epilog)
    );
    assert_eq!(UnwindOp::from_pe(UnwindOperation::Noop), Some(UnwindOp::Noop));
    assert_eq!(StackOffset::from_pe(StackFrameOffset::RSP(8)), StackOffset::RSP(8));
    assert_eq!(StackOffset::from_pe(StackFrameOffset::FP(8)), StackOffset::FP(8));
}

/// An image with unwind info at given addresses.
struct Image {
    records: Vec<(u32, Vec<u8>)>,
}

impl RvaMapper for Image {
    fn map(&self, rva: u32) -> Option<&[u8]> {
        self.records.iter().find(|(at, _)| *at == rva).map(|(_, bytes)| bytes.as_slice())
    }
}

fn chained(code: [u8; 2], next: u32) -> Vec<u8> {
    let mut bytes = vec![0x21, 0x04, 0x01, 0x00, code[0], code[1], 0x00, 0x00];
    bytes.extend_from_slice(&[0; 8]);
    bytes.extend_from_slice(&next.to_le_bytes());
    bytes
}

#[test]
fn chain_of_one_record() {
    let image = Image { records: vec![(0x2000, PLAIN.to_vec())] };
    assert_eq!(unwind_info_chain(&image, 0x2000), Ok(vec![plain_record()]));
}

#[test]
fn chain_is_followed_to_its_end() {
    let image = Image {
        records: vec![
            (0x2000, PLAIN.to_vec()),
            (0x2100, chained([0x04, 0x02], 0x2200)),
            (0x2200, chained([0x02, 0x60], 0x2000)),
        ],
    };
    let chain = unwind_info_chain(&image, 0x2100).unwrap();
    assert_eq!(chain.len(), 3);
    assert_eq!(chain[0].codes, vec![at(4, UnwindOp::Alloc(8))]);
    assert_eq!(chain[0].chained_info, Some(0x2200));
    assert_eq!(chain[1].codes, vec![at(2, UnwindOp::PushNonVolatile(6))]);
    assert_eq!(chain[1].chained_info, Some(0x2000));
    assert_eq!(chain[2], plain_record());
}

#[test]
fn unmapped_record_fails_by_its_place_in_the_chain() {
    let image = Image { records: vec![(0x2100, chained([0x04, 0x02], 0x2200))] };
    assert_eq!(unwind_info_chain(&image, 0x2000), Err(SehUnwinderError::UnwindRvaMappingFailed));
    assert_eq!(unwind_info_chain(&image, 0x2100), Err(SehUnwinderError::GoblinError));
}

#[test]
fn unreadable_record_in_the_chain_fails() {
    let image = Image {
        records: vec![(0x2100, chained([0x04, 0x02], 0x2200)), (0x2200, vec![0x00, 0x00, 0x00, 0x00])],
    };
    assert_eq!(unwind_info_chain(&image, 0x2200), Err(SehUnwinderError::GoblinError));
    assert_eq!(unwind_info_chain(&image, 0x2100), Err(SehUnwinderError::GoblinError));
}

#[test]
fn chain_in_a_circle_is_given_up() {
    let image = Image {
        records: vec![(0x2100, chained([0x04, 0x02], 0x2200)), (0x2200, chained([0x04, 0x02], 0x2100))],
    };
    assert_eq!(unwind_info_chain(&image, 0x2100), Err(SehUnwinderError::ConversionError));
}

#[test]
fn chain_of_thirty_two_records_is_the_longest() {
    let mut records: Vec<(u32, Vec<u8>)> = (0..40).map(|i| (i, chained([0x04, 0x02], i + 1))).collect();
    records.push((40, PLAIN.to_vec()));
    let image = Image { records };
    assert_eq!(unwind_info_chain(&image, 9).map(|chain| chain.len()), Ok(32));
    assert_eq!(unwind_info_chain(&image, 8), Err(SehUnwinderError::ConversionError));
}

#[test]
fn pending_codes_of_the_first_record_are_left_out() {
    let records = [plain_record(), plain_record()];
    let all = vec![UnwindOp::Alloc(40), UnwindOp::PushNonVolatile(5), UnwindOp::PushNonVolatile(3)];
    let whole = UnwindInfoChunk { codes: all.clone(), frame_register: 0, frame_register_offset: 0 };
    let first = |codes: &[UnwindOp]| UnwindInfoChunk {
        codes: codes.to_vec(),
        frame_register: 0,
        frame_register_offset: 0,
    };
    assert_eq!(unwind_info_chunks(&records, 0x100), vec![whole.clone(), whole.clone()]);
    assert_eq!(unwind_info_chunks(&records, 8), vec![whole.clone(), whole.clone()]);
    assert_eq!(unwind_info_chunks(&records, 7), vec![first(&all[1..]), whole.clone()]);
    assert_eq!(unwind_info_chunks(&records, 4), vec![first(&all[1..]), whole.clone()]);
    assert_eq!(unwind_info_chunks(&records, 3), vec![first(&all[2..]), whole.clone()]);
    assert_eq!(unwind_info_chunks(&records, 1), vec![first(&[]), whole.clone()]);
    assert_eq!(unwind_info_chunks(&[], 1), vec![]);
}

#[test]
fn pending_codes_are_left_out_wherever_they_stand() {
    // out of order: a pending code stands behind one that has been performed
    let record = UnwindInfoRecord {
        frame_register: 5,
        frame_register_offset: 0x10,
        codes: vec![at(9, UnwindOp::Alloc(8)), at(2, UnwindOp::Noop), at(9, UnwindOp::SetFPRegister)],
        chained_info: None,
    };
    let chunk = |codes: Vec<UnwindOp>| UnwindInfoChunk { codes, frame_register: 5, frame_register_offset: 0x10 };
    assert_eq!(unwind_info_chunks(&[record.clone()], 5), vec![chunk(vec![UnwindOp::Noop])]);
    assert_eq!(
        unwind_info_chunks(&[record.clone()], 9),
        vec![chunk(vec![UnwindOp::Alloc(8), UnwindOp::Noop, UnwindOp::SetFPRegister])]
    );
    // the markers of epilogues at the front of a record do not end the prologue
    let record = UnwindInfoRecord {
        frame_register: 0,
        frame_register_offset: 0,
        codes: vec![
            at(0x10, UnwindOp::Epilog),
            at(0, UnwindOp::Epilog),
            at(8, UnwindOp::Alloc(40)),
            at(4, UnwindOp::PushNonVolatile(5)),
        ],
        chained_info: None,
    };
    let chunk = |codes: Vec<UnwindOp>| UnwindInfoChunk { codes, frame_register: 0, frame_register_offset: 0 };
    assert_eq!(
        unwind_info_chunks(&[record], 4),
        vec![chunk(vec![UnwindOp::Epilog, UnwindOp::PushNonVolatile(5)])]
    );
}
