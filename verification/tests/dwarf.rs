use stackwalk::ReadStack;
use stackwalk::UnwindResult;
use stackwalk::cfi_index::DwarfCfiIndex;
use stackwalk::dwarf::CfaRuleSpec;
use stackwalk::dwarf::CfiRow;
use stackwalk::dwarf::DWARF_REG_RBP;
use stackwalk::dwarf::DWARF_REG_RSP;
use stackwalk::dwarf::RegisterRuleSpec;
use stackwalk::dwarf::SectionBases;
use stackwalk::dwarf::commit_recovered_frame;
use stackwalk::dwarf::eh_frame_hdr_fde_offset;
use stackwalk::dwarf::exec_cfi_row;
use stackwalk::dwarf::translate_into_unwind_rule;
use stackwalk::dwarf::unwind_frame_with_fde;
use stackwalk::error::DwarfUnwinderError;
use stackwalk::unwind_regs::UnwindRegsX86_64;
use stackwalk::unwind_rule::UnwindRuleX86_64;

struct StackReader {
    words: Vec<u64>,
}

impl ReadStack for StackReader {
    fn read_u64(&mut self, addr: u64) -> Result<u64, ()> {
        let i = (addr / 8) as usize;
        if addr % 8 == 0 && i < self.words.len() {
            Ok(self.words[i])
        } else {
            Err(())
        }
    }
}

/// A minimal `.eh_frame`: one CIE (CFA = rsp + 8, return address at
/// CFA - 8) and one FDE for `[0x1000, 0x1020)` that moves the CFA to
/// rsp + 16 from 0x1004 on. The FDE sits at section offset 24.
fn simple_eh_frame() -> Vec<u8> {
    let mut v = Vec::new();
    // CIE.
    v.extend_from_slice(&20u32.to_le_bytes()); // length
    v.extend_from_slice(&0u32.to_le_bytes()); // CIE id
    v.push(1); // version
    v.extend_from_slice(b"zR\0"); // augmentation
    v.push(1); // code alignment factor
    v.push(0x78); // data alignment factor: -8
    v.push(16); // return address register
    v.push(1); // augmentation data length
    v.push(0x00); // FDE pointer encoding: absolute
    v.extend_from_slice(&[0x0c, 0x07, 0x08]); // def_cfa rsp + 8
    v.extend_from_slice(&[0x90, 0x01]); // ra at cfa - 8
    v.extend_from_slice(&[0x00, 0x00]); // padding
    // FDE at offset 24.
    v.extend_from_slice(&24u32.to_le_bytes()); // length
    v.extend_from_slice(&28u32.to_le_bytes()); // CIE pointer (back to 0)
    v.extend_from_slice(&0x1000u64.to_le_bytes()); // initial location
    v.extend_from_slice(&0x20u64.to_le_bytes()); // address range
    v.push(0); // augmentation data length
    v.extend_from_slice(&[0x44, 0x0e, 0x10]); // advance 4; def_cfa_offset 16
    // Terminator.
    v.extend_from_slice(&0u32.to_le_bytes());
    v
}

/// The same function described in a minimal `.debug_frame`. The FDE sits at
/// section offset 20.
fn simple_debug_frame() -> Vec<u8> {
    let mut v = Vec::new();
    // CIE.
    v.extend_from_slice(&16u32.to_le_bytes()); // length
    v.extend_from_slice(&0xffff_ffffu32.to_le_bytes()); // CIE id
    v.push(3); // version
    v.push(0); // augmentation: empty
    v.push(1); // code alignment factor
    v.push(0x78); // data alignment factor: -8
    v.push(16); // return address register
    v.extend_from_slice(&[0x0c, 0x07, 0x08]); // def_cfa rsp + 8
    v.extend_from_slice(&[0x90, 0x01]); // ra at cfa - 8
    v.extend_from_slice(&[0x00, 0x00]); // padding
    // FDE at offset 20.
    v.extend_from_slice(&24u32.to_le_bytes()); // length
    v.extend_from_slice(&0u32.to_le_bytes()); // CIE pointer: section offset 0
    v.extend_from_slice(&0x1000u64.to_le_bytes()); // initial location
    v.extend_from_slice(&0x20u64.to_le_bytes()); // address range
    v.extend_from_slice(&[0x44, 0x0e, 0x10]); // advance 4; def_cfa_offset 16
    v.push(0x00); // padding
    v
}

fn zero_bases() -> SectionBases {
    SectionBases { eh_frame_hdr_svma: 0, eh_frame_svma: 0, text_svma: 0, got_svma: 0 }
}

#[test]
fn eh_frame_walk_finds_the_fde() {
    let section = simple_eh_frame();
    let index = DwarfCfiIndex::try_new_eh_frame(&section, &zero_bases(), 0).unwrap();
    assert_eq!(index.fde_offset_for_relative_address(0x1000), Some(24));
    assert_eq!(index.fde_offset_for_relative_address(0x101f), Some(24));
    assert_eq!(index.fde_offset_for_relative_address(0xfff), None);
}

#[test]
fn garbage_eh_frame_yields_no_index() {
    let section = vec![0xffu8; 10];
    assert!(DwarfCfiIndex::try_new_eh_frame(&section, &zero_bases(), 0).is_none());
}

#[test]
fn debug_frame_walk_finds_the_fde() {
    let section = simple_debug_frame();
    let index = DwarfCfiIndex::try_new_debug_frame(&section, &zero_bases(), 0).unwrap();
    assert_eq!(index.fde_offset_for_relative_address(0x1000), Some(20));
    assert_eq!(index.fde_offset_for_relative_address(0x1010), Some(20));
}

#[test]
fn eh_frame_row_translates_to_a_cacheable_rule() {
    let section = simple_eh_frame();
    let mut regs = UnwindRegsX86_64::new(0x1000, 0x10, 0x20);
    let mut reader = StackReader { words: Vec::new() };
    // At the function start the CFA is rsp + 8.
    let r = unwind_frame_with_fde(&section, false, &zero_bases(), 0, &mut regs, 0x1000, 24, &mut reader);
    assert_eq!(
        r,
        Ok(UnwindResult::ExecRule(UnwindRuleX86_64::OffsetSp {
            sp_offset_by_8: 1
        }))
    );
    // Past the advance the CFA is rsp + 16.
    let r = unwind_frame_with_fde(&section, false, &zero_bases(), 0, &mut regs, 0x1008, 24, &mut reader);
    assert_eq!(
        r,
        Ok(UnwindResult::ExecRule(UnwindRuleX86_64::OffsetSp {
            sp_offset_by_8: 2
        }))
    );
    // The registers were not touched: the rule is executed by the caller.
    assert_eq!(regs.sp(), 0x10);
}

#[test]
fn debug_frame_row_translates_to_a_cacheable_rule() {
    let section = simple_debug_frame();
    let mut regs = UnwindRegsX86_64::new(0x1000, 0x10, 0x20);
    let mut reader = StackReader { words: Vec::new() };
    let r = unwind_frame_with_fde(&section, true, &zero_bases(), 0, &mut regs, 0x1004, 20, &mut reader);
    assert_eq!(
        r,
        Ok(UnwindResult::ExecRule(UnwindRuleX86_64::OffsetSp {
            sp_offset_by_8: 2
        }))
    );
}

#[test]
fn bad_fde_offset_fails_the_row_lookup() {
    let section = simple_eh_frame();
    let mut regs = UnwindRegsX86_64::new(0x1000, 0x10, 0x20);
    let mut reader = StackReader { words: Vec::new() };
    let r = unwind_frame_with_fde(&section, false, &zero_bases(), 0, &mut regs, 0x1000, 3, &mut reader);
    assert_eq!(r, Err(DwarfUnwinderError::RowLookupFailed));
    // An address past the FDE's range has no row either.
    let r = unwind_frame_with_fde(&section, false, &zero_bases(), 0, &mut regs, 0x1040, 24, &mut reader);
    assert_eq!(r, Err(DwarfUnwinderError::RowLookupFailed));
}

#[test]
fn eh_frame_hdr_table_resolves_the_fde_offset() {
    // The .eh_frame is stated at 0x2000, its FDE at 0x2000 + 24; the table
    // maps the function start 0x1000 to that FDE.
    let mut hdr = vec![1u8, 0x04, 0x04, 0x04];
    hdr.extend_from_slice(&0x2000u64.to_le_bytes()); // eh_frame pointer
    hdr.extend_from_slice(&1u64.to_le_bytes()); // fde count
    hdr.extend_from_slice(&0x1000u64.to_le_bytes()); // initial location
    hdr.extend_from_slice(&0x2018u64.to_le_bytes()); // fde address
    let bases = SectionBases {
        eh_frame_hdr_svma: 0x3000,
        eh_frame_svma: 0x2000,
        text_svma: 0,
        got_svma: 0,
    };
    assert_eq!(eh_frame_hdr_fde_offset(&hdr, &bases, 0, 0x1000), Some(24));
    assert_eq!(eh_frame_hdr_fde_offset(&hdr, &bases, 0, 0x101f), Some(24));
    // A malformed header finds nothing.
    assert_eq!(eh_frame_hdr_fde_offset(&[9u8, 9, 9], &bases, 0, 0x1000), None);
}

#[test]
fn translate_accepts_exactly_the_rule_shaped_rows() {
    // CFA at rsp + 16, frame pointer untouched: move the stack pointer.
    let row = CfiRow {
        cfa: CfaRuleSpec::RegisterAndOffset { register: DWARF_REG_RSP, offset: 16 },
        bp: RegisterRuleSpec::SameValue,
        ra: RegisterRuleSpec::Offset(-8),
    };
    assert_eq!(
        translate_into_unwind_rule(&row),
        Some(UnwindRuleX86_64::OffsetSp { sp_offset_by_8: 2 })
    );
    // Frame pointer saved at CFA - 16: restore it from sp + 16.
    let row = CfiRow {
        cfa: CfaRuleSpec::RegisterAndOffset { register: DWARF_REG_RSP, offset: 32 },
        bp: RegisterRuleSpec::Offset(-16),
        ra: RegisterRuleSpec::Offset(-8),
    };
    assert_eq!(
        translate_into_unwind_rule(&row),
        Some(UnwindRuleX86_64::OffsetSpAndRestoreBp {
            sp_offset_by_8: 4,
            bp_storage_offset_from_sp_by_8: 2,
        })
    );
    // The classic frame-pointer chain.
    let row = CfiRow {
        cfa: CfaRuleSpec::RegisterAndOffset { register: DWARF_REG_RBP, offset: 16 },
        bp: RegisterRuleSpec::Offset(-16),
        ra: RegisterRuleSpec::Offset(-8),
    };
    assert_eq!(
        translate_into_unwind_rule(&row),
        Some(UnwindRuleX86_64::UseFramePointer)
    );
    // The return address must sit in the conventional slot.
    let row = CfiRow {
        cfa: CfaRuleSpec::RegisterAndOffset { register: DWARF_REG_RSP, offset: 16 },
        bp: RegisterRuleSpec::SameValue,
        ra: RegisterRuleSpec::Offset(-16),
    };
    assert_eq!(translate_into_unwind_rule(&row), None);
    // An unsupported CFA form is not cacheable.
    let row = CfiRow {
        cfa: CfaRuleSpec::Unsupported,
        bp: RegisterRuleSpec::SameValue,
        ra: RegisterRuleSpec::Offset(-8),
    };
    assert_eq!(translate_into_unwind_rule(&row), None);
}

#[test]
fn direct_recovery_commits_the_row() {
    // CFA = rbp + 32 is no cacheable pattern (only +16 is); recover
    // directly: ra from cfa - 8, bp from cfa - 24.
    let row = CfiRow {
        cfa: CfaRuleSpec::RegisterAndOffset { register: DWARF_REG_RBP, offset: 32 },
        bp: RegisterRuleSpec::Offset(-24),
        ra: RegisterRuleSpec::Offset(-8),
    };
    assert_eq!(translate_into_unwind_rule(&row), None);
    let mut words = vec![0u64; 16];
    words[7] = 0x100700; // ra at 0x20 + 32 - 8 == 0x38
    words[5] = 0x7777; // bp at 0x20 + 32 - 24 == 0x28
    let mut reader = StackReader { words };
    let mut regs = UnwindRegsX86_64::new(0x1000, 0x10, 0x20);
    let r = exec_cfi_row(&row, &mut regs, &mut reader);
    assert_eq!(r, Ok(0x100700));
    assert_eq!(regs.ip(), 0x100700);
    assert_eq!(regs.sp(), 0x40);
    assert_eq!(regs.bp(), 0x7777);
}

#[test]
fn direct_recovery_error_cases() {
    let mut reader = StackReader { words: Vec::new() };
    let mut regs = UnwindRegsX86_64::new(0x1000, 0x10, 0x20);
    let row = CfiRow {
        cfa: CfaRuleSpec::Unsupported,
        bp: RegisterRuleSpec::SameValue,
        ra: RegisterRuleSpec::Offset(-8),
    };
    assert_eq!(
        exec_cfi_row(&row, &mut regs, &mut reader),
        Err(DwarfUnwinderError::UnsupportedCfaRule)
    );
    let row = CfiRow {
        cfa: CfaRuleSpec::RegisterAndOffset { register: 3, offset: 8 },
        bp: RegisterRuleSpec::SameValue,
        ra: RegisterRuleSpec::Offset(-8),
    };
    assert_eq!(
        exec_cfi_row(&row, &mut regs, &mut reader),
        Err(DwarfUnwinderError::UnsupportedCfaRule)
    );
    let row = CfiRow {
        cfa: CfaRuleSpec::RegisterAndOffset { register: DWARF_REG_RSP, offset: 8 },
        bp: RegisterRuleSpec::SameValue,
        ra: RegisterRuleSpec::Unsupported,
    };
    assert_eq!(
        exec_cfi_row(&row, &mut regs, &mut reader),
        Err(DwarfUnwinderError::UnsupportedRegisterRule)
    );
    let row = CfiRow {
        cfa: CfaRuleSpec::RegisterAndOffset { register: DWARF_REG_RSP, offset: -64 },
        bp: RegisterRuleSpec::SameValue,
        ra: RegisterRuleSpec::Offset(-8),
    };
    assert_eq!(
        exec_cfi_row(&row, &mut regs, &mut reader),
        Err(DwarfUnwinderError::CfaComputationOverflow)
    );
    let row = CfiRow {
        cfa: CfaRuleSpec::RegisterAndOffset { register: DWARF_REG_RSP, offset: 0x100 },
        bp: RegisterRuleSpec::SameValue,
        ra: RegisterRuleSpec::Offset(-8),
    };
    assert_eq!(
        exec_cfi_row(&row, &mut regs, &mut reader),
        Err(DwarfUnwinderError::CouldNotReadStack)
    );
    // Errors leave the registers untouched.
    assert_eq!(regs.ip(), 0x1000);
    assert_eq!(regs.sp(), 0x10);
    assert_eq!(regs.bp(), 0x20);
}

#[test]
fn lookup_address_overflow_is_reported() {
    let section = simple_eh_frame();
    let mut regs = UnwindRegsX86_64::new(0x1000, 0x10, 0x20);
    let mut reader = StackReader { words: Vec::new() };
    // A stated base at the top of the address space pushes the lookup
    // address past it.
    let r = unwind_frame_with_fde(
        &section,
        false,
        &zero_bases(),
        u64::MAX,
        &mut regs,
        0x1000,
        24,
        &mut reader,
    );
    assert_eq!(r, Err(DwarfUnwinderError::LookupAddressOverflow));
}

#[test]
fn recovered_frames_commit_even_a_zero_return_address() {
    // Direct recovery returns the read value as it was; a zero is committed
    // too, and the walker turns it into ReturnAddressIsNull.
    let mut regs = UnwindRegsX86_64::new(0x100400, 0x10, 0x20);
    assert_eq!(commit_recovered_frame(&mut regs, 0x30, 0x40, 0), 0);
    assert_eq!(regs.ip(), 0);
    assert_eq!(regs.sp(), 0x30);
    assert_eq!(regs.bp(), 0x40);
    assert_eq!(commit_recovered_frame(&mut regs, 0x50, 0x60, 0x100300), 0x100300);
    assert_eq!(regs.ip(), 0x100300);
}
