use stackwalk::ReadStack;
use stackwalk::error::Error;
use stackwalk::unwind_regs::UnwindRegsX86_64;
use stackwalk::unwind_rule::UnwindRuleX86_64;
use stackwalk::unwind_rule::checked_add_signed;
use stackwalk::unwind_rule::commit_frame;
use stackwalk::unwind_rule::wrapping_add_signed;

struct StackReader {
    words: Vec<u64>,
}

impl ReadStack for StackReader {
    fn read_u64(&mut self, addr: u64) -> Result<u64, ()> {
        let i = (addr / 8) as usize;
        if addr % 8 == 0 && i < self.words.len() {
            Ok(self.words[i])
        } else {
            Err(())
        }
    }
}

struct CountingReader {
    calls: usize,
}

impl ReadStack for CountingReader {
    fn read_u64(&mut self, _addr: u64) -> Result<u64, ()> {
        self.calls += 1;
        Err(())
    }
}

#[test]
fn test_basic() {
    let stack = vec![
        1, 2, 0x100300, 4, 0x40, 0x100200, 5, 6, 0x70, 0x100100, 7, 8, 9, 10, 0x0, 0x0,
    ];
    let mut read_stack = StackReader { words: stack };
    let mut regs = UnwindRegsX86_64::new(0x100400, 0x10, 0x20);
    let res = UnwindRuleX86_64::OffsetSp { sp_offset_by_8: 1 }.exec(&mut regs, &mut read_stack);
    assert_eq!(res, Ok(Some(0x100300)));
    assert_eq!(regs.ip(), 0x100300);
    assert_eq!(regs.sp(), 0x18);
    assert_eq!(regs.bp(), 0x20);
    let res = UnwindRuleX86_64::UseFramePointer.exec(&mut regs, &mut read_stack);
    assert_eq!(res, Ok(Some(0x100200)));
    assert_eq!(regs.ip(), 0x100200);
    assert_eq!(regs.sp(), 0x30);
    assert_eq!(regs.bp(), 0x40);
    let res = UnwindRuleX86_64::UseFramePointer.exec(&mut regs, &mut read_stack);
    assert_eq!(res, Ok(Some(0x100100)));
    assert_eq!(regs.ip(), 0x100100);
    assert_eq!(regs.sp(), 0x50);
    assert_eq!(regs.bp(), 0x70);
    let res = UnwindRuleX86_64::UseFramePointer.exec(&mut regs, &mut read_stack);
    assert_eq!(res, Ok(None));
}

#[test]
fn test_overflow() {
    // Make sure that pathological register values do not panic: bp may hold
    // u64::MAX when a function uses it as a general-purpose register.
    let stack = vec![
        1, 2, 0x100300, 4, 0x40, 0x100200, 5, 6, 0x70, 0x100100, 7, 8, 9, 10, 0x0, 0x0,
    ];
    let mut read_stack = StackReader { words: stack };
    let mut regs = UnwindRegsX86_64::new(0x100400, u64::MAX / 8 * 8, u64::MAX);
    let res = UnwindRuleX86_64::JustReturn.exec(&mut regs, &mut read_stack);
    assert_eq!(res, Err(Error::IntegerOverflow));
    let res = UnwindRuleX86_64::OffsetSp { sp_offset_by_8: 1 }.exec(&mut regs, &mut read_stack);
    assert_eq!(res, Err(Error::IntegerOverflow));
    let res = UnwindRuleX86_64::OffsetSpAndRestoreBp {
        sp_offset_by_8: 1,
        bp_storage_offset_from_sp_by_8: 2,
    }
    .exec(&mut regs, &mut read_stack);
    assert_eq!(res, Err(Error::IntegerOverflow));
    let res = UnwindRuleX86_64::UseFramePointer.exec(&mut regs, &mut read_stack);
    assert_eq!(res, Err(Error::IntegerOverflow));
}

#[test]
fn use_frame_pointer_zero_bp_is_root_without_reading() {
    let mut reader = CountingReader { calls: 0 };
    let mut regs = UnwindRegsX86_64::new(0x100400, 0x10, 0);
    let res = UnwindRuleX86_64::UseFramePointer.exec(&mut regs, &mut reader);
    assert_eq!(res, Ok(None));
    assert_eq!(reader.calls, 0);
    assert_eq!(regs.ip(), 0x100400);
    assert_eq!(regs.sp(), 0x10);
    assert_eq!(regs.bp(), 0);
}

#[test]
fn use_frame_pointer_moving_backwards_fails() {
    let mut reader = CountingReader { calls: 0 };
    // bp + 16 == sp: not strictly forward.
    let mut regs = UnwindRegsX86_64::new(0x100400, 0x30, 0x20);
    let res = UnwindRuleX86_64::UseFramePointer.exec(&mut regs, &mut reader);
    assert_eq!(res, Err(Error::FramepointerUnwindingMovedBackwards));
    assert_eq!(reader.calls, 0);
    // bp + 16 < sp.
    let mut regs = UnwindRegsX86_64::new(0x100400, 0x100, 0x20);
    let res = UnwindRuleX86_64::UseFramePointer.exec(&mut regs, &mut reader);
    assert_eq!(res, Err(Error::FramepointerUnwindingMovedBackwards));
    // bp + 16 > sp: proceeds to the read.
    let mut regs = UnwindRegsX86_64::new(0x100400, 0x28, 0x20);
    let res = UnwindRuleX86_64::UseFramePointer.exec(&mut regs, &mut reader);
    assert_eq!(res, Err(Error::CouldNotReadStack(0x20)));
    assert!(reader.calls > 0);
}

#[test]
fn failed_read_names_the_address() {
    let mut reader = CountingReader { calls: 0 };
    let mut regs = UnwindRegsX86_64::new(0x100400, 0x10, 0x20);
    let res = UnwindRuleX86_64::JustReturn.exec(&mut regs, &mut reader);
    // JustReturn reads the return address at (sp + 8) - 8 == sp.
    assert_eq!(res, Err(Error::CouldNotReadStack(0x10)));
    assert_eq!(regs.sp(), 0x10);
}

#[test]
fn offset_sp_and_restore_bp_restores_bp() {
    let mut reader = StackReader { words: vec![0, 0, 0x4444, 0x100500] };
    let mut regs = UnwindRegsX86_64::new(0x100400, 0x10, 0x20);
    let rule = UnwindRuleX86_64::OffsetSpAndRestoreBp {
        sp_offset_by_8: 2,
        bp_storage_offset_from_sp_by_8: 0,
    };
    let res = rule.exec(&mut regs, &mut reader);
    assert_eq!(res, Ok(Some(0x100500)));
    assert_eq!(regs.ip(), 0x100500);
    assert_eq!(regs.sp(), 0x20);
    assert_eq!(regs.bp(), 0x4444);
}

#[test]
fn zero_return_address_ends_the_stack_cleanly() {
    let mut reader = StackReader { words: vec![0, 0] };
    let mut regs = UnwindRegsX86_64::new(0x100400, 0x0, 0x20);
    let res = UnwindRuleX86_64::JustReturn.exec(&mut regs, &mut reader);
    assert_eq!(res, Ok(None));
    // The registers stay as they were.
    assert_eq!(regs.ip(), 0x100400);
    assert_eq!(regs.sp(), 0x0);
    assert_eq!(regs.bp(), 0x20);
}

#[test]
fn helper_rules_are_fixed() {
    assert_eq!(
        UnwindRuleX86_64::rule_for_stub_functions(),
        UnwindRuleX86_64::JustReturn
    );
    assert_eq!(
        UnwindRuleX86_64::rule_for_function_start(),
        UnwindRuleX86_64::JustReturn
    );
    assert_eq!(
        UnwindRuleX86_64::fallback_rule(),
        UnwindRuleX86_64::UseFramePointer
    );
}

#[test]
fn signed_addition_helpers() {
    assert_eq!(wrapping_add_signed(10, -3), 7);
    assert_eq!(wrapping_add_signed(0, -1), u64::MAX);
    assert_eq!(wrapping_add_signed(u64::MAX, 1), 0);
    assert_eq!(checked_add_signed(10, -3), Some(7));
    assert_eq!(checked_add_signed(0, -1), None);
    assert_eq!(checked_add_signed(u64::MAX, 1), None);
    assert_eq!(checked_add_signed(u64::MAX, -1), Some(u64::MAX - 1));
    assert_eq!(checked_add_signed(5, i64::MIN), None);
}

#[test]
fn commit_frame_decides_on_the_read_return_address() {
    // A zero read ends the stack and changes nothing.
    let mut regs = UnwindRegsX86_64::new(0x100400, 0x10, 0x20);
    assert_eq!(commit_frame(&mut regs, 0x30, 0x40, 0), None);
    assert_eq!(regs.ip(), 0x100400);
    assert_eq!(regs.sp(), 0x10);
    assert_eq!(regs.bp(), 0x20);
    // Any other read is committed and returned.
    assert_eq!(commit_frame(&mut regs, 0x30, 0x40, 0x100200), Some(0x100200));
    assert_eq!(regs.ip(), 0x100200);
    assert_eq!(regs.sp(), 0x30);
    assert_eq!(regs.bp(), 0x40);
}
