use stackwalk::error::CompactUnwindInfoUnwinderError;
use stackwalk::macho::CompactOpcode;
use stackwalk::macho::InstructionAnalysis;
use stackwalk::macho::CuiUnwindResult;
use stackwalk::macho::TextBytes;
use stackwalk::macho::unwind_frame_compact;
use stackwalk::macho::unwind_frame_compact_with_analysis;
use stackwalk::macho::unwind_frame_with_opcode;
use stackwalk::unwind_rule::UnwindRuleX86_64;

/// A minimal `__unwind_info` section: one regular page with one function at
/// relative address 0x1000 carrying `opcode`, and the sentinel page at
/// 0x2000.
fn simple_unwind_info(opcode: u32) -> Vec<u8> {
    let mut v = Vec::new();
    // Header.
    v.extend_from_slice(&1u32.to_le_bytes()); // version
    v.extend_from_slice(&28u32.to_le_bytes()); // global opcodes offset
    v.extend_from_slice(&0u32.to_le_bytes()); // global opcodes count
    v.extend_from_slice(&28u32.to_le_bytes()); // personalities offset
    v.extend_from_slice(&0u32.to_le_bytes()); // personalities count
    v.extend_from_slice(&28u32.to_le_bytes()); // pages offset
    v.extend_from_slice(&2u32.to_le_bytes()); // pages count
    // Page entry 0: starts at 0x1000, regular page at offset 52.
    v.extend_from_slice(&0x1000u32.to_le_bytes());
    v.extend_from_slice(&52u32.to_le_bytes());
    v.extend_from_slice(&0u32.to_le_bytes());
    // Page entry 1 (sentinel): marks the end of the covered range.
    v.extend_from_slice(&0x2000u32.to_le_bytes());
    v.extend_from_slice(&0u32.to_le_bytes());
    v.extend_from_slice(&0u32.to_le_bytes());
    // Regular page at 52: kind 2, one function entry at page offset 8.
    v.extend_from_slice(&2u32.to_le_bytes());
    v.extend_from_slice(&8u16.to_le_bytes());
    v.extend_from_slice(&1u16.to_le_bytes());
    // The function entry.
    v.extend_from_slice(&0x1000u32.to_le_bytes());
    v.extend_from_slice(&opcode.to_le_bytes());
    v
}

#[test]
fn frame_based_function_unwinds_by_frame_pointer() {
    // Opcode kind 1: frame-based.
    let section = simple_unwind_info(0x0100_0000);
    let r = unwind_frame_compact(&section, None, (0, 0), (0, 0), 0x1234, false, None);
    assert_eq!(
        r,
        Ok(CuiUnwindResult::ExecRule(UnwindRuleX86_64::UseFramePointer))
    );
}

#[test]
fn dwarf_opcode_hands_off_the_fde_offset() {
    // Opcode kind 4: DWARF, with FDE offset 0x123 in the low bits.
    let section = simple_unwind_info(0x0400_0123);
    let r = unwind_frame_compact(&section, None, (0, 0), (0, 0), 0x1234, false, None);
    assert_eq!(r, Ok(CuiUnwindResult::NeedDwarf(0x123)));
}

#[test]
fn address_outside_the_tables_finds_no_function() {
    let section = simple_unwind_info(0x0100_0000);
    let r = unwind_frame_compact(&section, None, (0, 0), (0, 0), 0x2500, false, None);
    assert_eq!(
        r,
        Err(CompactUnwindInfoUnwinderError::CouldNotFindFunctionForAddress)
    );
}

#[test]
fn stub_addresses_just_return() {
    let section = simple_unwind_info(0x0100_0000);
    let r = unwind_frame_compact(&section, None, (0x1100, 0x1200), (0, 0), 0x1150, false, None);
    assert_eq!(r, Ok(CuiUnwindResult::ExecRule(UnwindRuleX86_64::JustReturn)));
    let r = unwind_frame_compact(&section, None, (0, 0), (0x1100, 0x1200), 0x1150, true, None);
    assert_eq!(r, Ok(CuiUnwindResult::ExecRule(UnwindRuleX86_64::JustReturn)));
}

#[test]
fn analysis_rule_wins_on_the_first_frame() {
    let section = simple_unwind_info(0x0100_0000);
    let text = vec![0u8; 0x2000];
    let text_bytes = TextBytes { offset_from_base: 0, bytes: &text };
    let rule = UnwindRuleX86_64::OffsetSp { sp_offset_by_8: 9 };
    let r = unwind_frame_compact(
        &section,
        Some(text_bytes),
        (0, 0),
        (0, 0),
        0x1234,
        true,
        Some(rule),
    );
    assert_eq!(r, Ok(CuiUnwindResult::ExecRule(rule)));
}

#[test]
fn null_opcode_with_fp_prologue_uses_frame_pointer_on_first_frame() {
    let mut bytes = vec![0x55, 0x48, 0x89, 0xe5];
    bytes.resize(0x20, 0x90);
    let r = unwind_frame_with_opcode(&CompactOpcode::Null, true, Some(&bytes), None);
    assert_eq!(
        r,
        Ok(CuiUnwindResult::ExecRule(UnwindRuleX86_64::UseFramePointer))
    );
    // The same function not at the first frame carries no information.
    let r = unwind_frame_with_opcode(&CompactOpcode::Null, false, Some(&bytes), None);
    assert_eq!(r, Err(CompactUnwindInfoUnwinderError::FunctionHasNoInfo));
}

#[test]
fn null_opcode_on_first_frame_without_prologue_just_returns() {
    let bytes = vec![0x90u8; 0x20];
    let r = unwind_frame_with_opcode(&CompactOpcode::Null, true, Some(&bytes), None);
    assert_eq!(r, Ok(CuiUnwindResult::ExecRule(UnwindRuleX86_64::JustReturn)));
    let r = unwind_frame_with_opcode(&CompactOpcode::Null, true, None, None);
    assert_eq!(r, Ok(CuiUnwindResult::ExecRule(UnwindRuleX86_64::JustReturn)));
}

#[test]
fn frameless_indirect_reads_the_sub_immediate() {
    // Four bytes at offset 0x10 encode the little-endian u32 0x100; with a
    // stack adjustment of 0x20 the stack is 0x120 bytes, 0x24 words.
    let mut bytes = vec![0u8; 0x20];
    bytes[0x10] = 0x00;
    bytes[0x11] = 0x01;
    let opcode = CompactOpcode::FramelessIndirect {
        immediate_offset_from_function_start: 0x10,
        stack_adjust_in_bytes: 0x20,
        saved_regs: [None; 6],
    };
    let r = unwind_frame_with_opcode(&opcode, false, Some(&bytes), None);
    assert_eq!(
        r,
        Ok(CuiUnwindResult::ExecRule(UnwindRuleX86_64::OffsetSp {
            sp_offset_by_8: 0x24
        }))
    );
}

#[test]
fn frameless_indirect_error_cases() {
    let opcode = CompactOpcode::FramelessIndirect {
        immediate_offset_from_function_start: 0x10,
        stack_adjust_in_bytes: 0x20,
        saved_regs: [None; 6],
    };
    let r = unwind_frame_with_opcode(&opcode, false, None, None);
    assert_eq!(
        r,
        Err(CompactUnwindInfoUnwinderError::NoTextBytesToLookUpIndirectStackOffset)
    );
    let short = vec![0u8; 0x12];
    let r = unwind_frame_with_opcode(&opcode, false, Some(&short), None);
    assert_eq!(
        r,
        Err(CompactUnwindInfoUnwinderError::IndirectStackOffsetOutOfBounds)
    );
    // The immediate is u32::MAX; adding any adjustment overflows.
    let mut bytes = vec![0u8; 0x20];
    for b in &mut bytes[0x10..0x14] {
        *b = 0xff;
    }
    let r = unwind_frame_with_opcode(&opcode, false, Some(&bytes), None);
    assert_eq!(r, Err(CompactUnwindInfoUnwinderError::StackAdjustOverflow));
    // A stack of 0x80000 bytes has too many words for the rule encoding.
    let mut bytes = vec![0u8; 0x20];
    bytes[0x12] = 0x08;
    let r = unwind_frame_with_opcode(&opcode, false, Some(&bytes), None);
    assert_eq!(r, Err(CompactUnwindInfoUnwinderError::StackSizeDoesNotFit));
}

#[test]
fn frameless_immediate_cases() {
    // A stack of exactly one word is just the return address.
    let opcode = CompactOpcode::FramelessImmediate {
        stack_size_in_bytes: 8,
        saved_regs: [None; 6],
    };
    let r = unwind_frame_with_opcode(&opcode, false, None, None);
    assert_eq!(r, Ok(CuiUnwindResult::ExecRule(UnwindRuleX86_64::JustReturn)));

    // No saved frame pointer: only the stack pointer moves.
    let opcode = CompactOpcode::FramelessImmediate {
        stack_size_in_bytes: 0x40,
        saved_regs: [None; 6],
    };
    let r = unwind_frame_with_opcode(&opcode, false, None, None);
    assert_eq!(
        r,
        Ok(CuiUnwindResult::ExecRule(UnwindRuleX86_64::OffsetSp {
            sp_offset_by_8: 8
        }))
    );

    // rbp (register code 5) saved outermost: restored from sp + 0x30.
    let opcode = CompactOpcode::FramelessImmediate {
        stack_size_in_bytes: 0x40,
        saved_regs: [None, None, None, None, None, Some(5)],
    };
    let r = unwind_frame_with_opcode(&opcode, false, None, None);
    assert_eq!(
        r,
        Ok(CuiUnwindResult::ExecRule(
            UnwindRuleX86_64::OffsetSpAndRestoreBp {
                sp_offset_by_8: 8,
                bp_storage_offset_from_sp_by_8: 6,
            }
        ))
    );

    // rbp saved one register deeper (one other register outside it):
    // its slot is at sp + (0x40 - 16 - 8) == sp + 0x28.
    let opcode = CompactOpcode::FramelessImmediate {
        stack_size_in_bytes: 0x40,
        saved_regs: [Some(5), None, None, None, None, Some(1)],
    };
    let r = unwind_frame_with_opcode(&opcode, false, None, None);
    assert_eq!(
        r,
        Ok(CuiUnwindResult::ExecRule(
            UnwindRuleX86_64::OffsetSpAndRestoreBp {
                sp_offset_by_8: 8,
                bp_storage_offset_from_sp_by_8: 5,
            }
        ))
    );
}

#[test]
fn bad_opcodes_are_reported() {
    let r = unwind_frame_with_opcode(&CompactOpcode::UnrecognizedKind(9), false, None, None);
    assert_eq!(r, Err(CompactUnwindInfoUnwinderError::BadOpcodeKind(9)));
    let r = unwind_frame_with_opcode(&CompactOpcode::InvalidFrameless, false, None, None);
    assert_eq!(r, Err(CompactUnwindInfoUnwinderError::InvalidFrameless));
}

#[test]
fn frameless_immediate_opcode_from_the_tables() {
    // Opcode kind 2 with stack size byte 3 (24 bytes) and no registers.
    let section = simple_unwind_info(0x0203_0000);
    let r = unwind_frame_compact(&section, None, (0, 0), (0, 0), 0x1234, false, None);
    assert_eq!(
        r,
        Ok(CuiUnwindResult::ExecRule(UnwindRuleX86_64::OffsetSp {
            sp_offset_by_8: 3
        }))
    );
}

#[test]
fn frameless_indirect_bp_slot_can_be_too_far_for_the_rule() {
    // A 0x48000-byte stack keeps the word count in range, but the saved
    // frame pointer's slot offset no longer fits the rule encoding.
    let mut bytes = vec![0u8; 0x20];
    bytes[0x11] = 0x80;
    bytes[0x12] = 0x04;
    let opcode = CompactOpcode::FramelessIndirect {
        immediate_offset_from_function_start: 0x10,
        stack_adjust_in_bytes: 0,
        saved_regs: [None, None, None, None, None, Some(5)],
    };
    let r = unwind_frame_with_opcode(&opcode, false, Some(&bytes), None);
    assert_eq!(r, Err(CompactUnwindInfoUnwinderError::BpOffsetDoesNotFit));
}

/// A `__unwind_info` section with one compressed page at 0x1000 holding one
/// function at relative address 0 within the page, whose opcode index picks
/// from the local palette (`opcode_index` 0 with an empty global palette).
fn compressed_unwind_info(opcode_index: u32, local_opcode: u32) -> Vec<u8> {
    let mut v = Vec::new();
    // Header.
    v.extend_from_slice(&1u32.to_le_bytes()); // version
    v.extend_from_slice(&28u32.to_le_bytes()); // global opcodes offset
    v.extend_from_slice(&0u32.to_le_bytes()); // global opcodes count
    v.extend_from_slice(&28u32.to_le_bytes()); // personalities offset
    v.extend_from_slice(&0u32.to_le_bytes()); // personalities count
    v.extend_from_slice(&28u32.to_le_bytes()); // pages offset
    v.extend_from_slice(&2u32.to_le_bytes()); // pages count
    // Page entry 0: starts at 0x1000, compressed page at offset 52.
    v.extend_from_slice(&0x1000u32.to_le_bytes());
    v.extend_from_slice(&52u32.to_le_bytes());
    v.extend_from_slice(&0u32.to_le_bytes());
    // Page entry 1 (sentinel).
    v.extend_from_slice(&0x2000u32.to_le_bytes());
    v.extend_from_slice(&0u32.to_le_bytes());
    v.extend_from_slice(&0u32.to_le_bytes());
    // Compressed page at 52: kind 3, entries at page offset 12, one local
    // opcode at page offset 16.
    v.extend_from_slice(&3u32.to_le_bytes());
    v.extend_from_slice(&12u16.to_le_bytes());
    v.extend_from_slice(&1u16.to_le_bytes());
    v.extend_from_slice(&16u16.to_le_bytes());
    v.extend_from_slice(&1u16.to_le_bytes());
    // The packed entry: opcode index in the high 8 bits, relative address 0.
    v.extend_from_slice(&(opcode_index << 24).to_le_bytes());
    // The local opcode palette.
    v.extend_from_slice(&local_opcode.to_le_bytes());
    v
}

#[test]
fn compressed_page_resolves_through_the_local_palette() {
    // Opcode index 0 with an empty global palette picks local opcode 0,
    // a frame-based opcode.
    let section = compressed_unwind_info(0, 0x0100_0000);
    let r = unwind_frame_compact(&section, None, (0, 0), (0, 0), 0x1234, false, None);
    assert_eq!(
        r,
        Ok(CuiUnwindResult::ExecRule(UnwindRuleX86_64::UseFramePointer))
    );
}

#[test]
fn compressed_page_with_an_opcode_index_past_the_palettes_misses() {
    // The entry's opcode index leaves both palettes; the lookup must miss
    // rather than abort on the malformed section.
    let section = compressed_unwind_info(5, 0x0100_0000);
    let r = unwind_frame_compact(&section, None, (0, 0), (0, 0), 0x1234, false, None);
    assert_eq!(
        r,
        Err(CompactUnwindInfoUnwinderError::CouldNotFindFunctionForAddress)
    );
}

/// An analysis that recognises exactly one prologue offset.
struct OffsetFourIsPrologue;

impl InstructionAnalysis for OffsetFourIsPrologue {
    fn rule_from_instruction_analysis(
        &self,
        _function_bytes: &[u8],
        offset_within_function: usize,
    ) -> Option<UnwindRuleX86_64> {
        if offset_within_function == 4 {
            Some(UnwindRuleX86_64::OffsetSp { sp_offset_by_8: 7 })
        } else {
            None
        }
    }
}

#[test]
fn instruction_analysis_wins_on_the_first_frame() {
    // The function's opcode is frame-based, but at offset 4 the analysis
    // recognises a prologue and its rule wins; elsewhere the opcode holds.
    let section = simple_unwind_info(0x0100_0000);
    let text = vec![0x90u8; 0x2000];
    let analysis = OffsetFourIsPrologue;
    let text_bytes = TextBytes { offset_from_base: 0, bytes: &text };
    let r = unwind_frame_compact_with_analysis(
        &section,
        Some(text_bytes),
        (0, 0),
        (0, 0),
        0x1004,
        true,
        &analysis,
    );
    assert_eq!(
        r,
        Ok(CuiUnwindResult::ExecRule(UnwindRuleX86_64::OffsetSp {
            sp_offset_by_8: 7
        }))
    );
    let text_bytes = TextBytes { offset_from_base: 0, bytes: &text };
    let r = unwind_frame_compact_with_analysis(
        &section,
        Some(text_bytes),
        (0, 0),
        (0, 0),
        0x1008,
        true,
        &analysis,
    );
    assert_eq!(
        r,
        Ok(CuiUnwindResult::ExecRule(UnwindRuleX86_64::UseFramePointer))
    );
    // Past the first frame the analysis is not consulted.
    let text_bytes = TextBytes { offset_from_base: 0, bytes: &text };
    let r = unwind_frame_compact_with_analysis(
        &section,
        Some(text_bytes),
        (0, 0),
        (0, 0),
        0x1004,
        false,
        &analysis,
    );
    assert_eq!(
        r,
        Ok(CuiUnwindResult::ExecRule(UnwindRuleX86_64::UseFramePointer))
    );
}
