//! The closed set of x86-64 unwind rules and their executor.
//!
//! A rule describes how to recover the caller's stack pointer and frame
//! pointer from the current register state; every rule then reads the return
//! address from the word just below the recovered stack pointer. The set is
//! deliberately tiny so that rules are plain-copy values and can be cached
//! per address.

use vstd::prelude::*;

use crate::ReadStack;
use crate::unwind_regs::UnwindRegsX86_64;
use crate::error::Error;

verus! {

/// One x86-64 unwind rule. For all variants the return address is read from
/// `*(new_sp - 8)`.
#[derive(Clone, Copy, Debug, PartialEq, Eq, Structural)]
pub enum UnwindRuleX86_64 {
    /// `(sp, bp) = (sp + 8, bp)`
    JustReturn,
    /// `(sp, bp) = (sp + 8x, bp)`
    OffsetSp { sp_offset_by_8: u16 },
    /// `(sp, bp) = (sp + 8x, *(sp + 8y))`
    OffsetSpAndRestoreBp { sp_offset_by_8: u16, bp_storage_offset_from_sp_by_8: i16 },
    /// `(sp, bp) = (bp + 16, *bp)`
    UseFramePointer,
}

/// `lhs + rhs` modulo 2^64.
pub fn wrapping_add_signed(lhs: u64, rhs: i64) -> (r: u64)
    ensures
        lhs + rhs >= 0 && lhs + rhs <= u64::MAX ==> r == lhs + rhs,
        lhs + rhs < 0 ==> r == lhs + rhs + 0x1_0000_0000_0000_0000,
        lhs + rhs > u64::MAX ==> r == lhs + rhs - 0x1_0000_0000_0000_0000,
{
    lhs.wrapping_add_signed(rhs)
}

/// `lhs + rhs` if it fits a `u64`, else `None`.
pub fn checked_add_signed(lhs: u64, rhs: i64) -> (r: Option<u64>)
    ensures
        r matches Some(v) ==> v == lhs + rhs,
        r is Some <==> 0 <= lhs + rhs <= u64::MAX,
{
    let res = wrapping_add_signed(lhs, rhs);
    if (rhs >= 0 && res >= lhs) || (rhs < 0 && res < lhs) {
        Some(res)
    } else {
        None
    }
}

/// The caller state that committing one frame yields, given the values the
/// stack reads produced: a zero return address ends the stack and changes
/// nothing; a nonzero one becomes the new instruction pointer, with the
/// rule's recovered stack pointer and frame pointer.
pub open spec fn spec_commit(
    o: UnwindRegsX86_64,
    new_sp: u64,
    new_bp: u64,
    return_address: u64,
    n: UnwindRegsX86_64,
    r: Option<u64>,
) -> bool {
    if return_address == 0 {
        r is None && n == o
    } else {
        r == Some(return_address) && n.ip() == return_address && n.sp() == new_sp && n.bp()
            == new_bp
    }
}

/// Commit one recovered frame from the values read off the stack. This is
/// the decision every rule ends in: a zero return address is the stack's
/// clean end and leaves the registers as they are; any other value is
/// committed and returned.
pub fn commit_frame(
    regs: &mut UnwindRegsX86_64,
    new_sp: u64,
    new_bp: u64,
    return_address: u64,
) -> (r: Option<u64>)
    ensures
        spec_commit(*old(regs), new_sp, new_bp, return_address, *final(regs), r),
        return_address == 0 ==> r is None && *final(regs) == *old(regs),
        return_address != 0 ==> r == Some(return_address) && final(regs).ip() == return_address
            && final(regs).sp() == new_sp && final(regs).bp() == new_bp,
{
    if return_address == 0 {
        return None;
    }
    regs.set_ip(return_address);
    regs.set_sp(new_sp);
    regs.set_bp(new_bp);
    Some(return_address)
}

impl UnwindRuleX86_64 {
    /// The stack pointer after this rule, before bounds checking.
    pub open spec fn spec_new_sp(self, sp: int, bp: int) -> int {
        match self {
            UnwindRuleX86_64::JustReturn => sp + 8,
            UnwindRuleX86_64::OffsetSp { sp_offset_by_8 } => sp + 8 * (sp_offset_by_8 as int),
            UnwindRuleX86_64::OffsetSpAndRestoreBp { sp_offset_by_8, .. } => sp + 8 * (
            sp_offset_by_8 as int),
            UnwindRuleX86_64::UseFramePointer => bp + 16,
        }
    }

    /// The address from which this rule recovers the caller's frame pointer,
    /// for the rules that read one.
    pub open spec fn spec_bp_read_addr(self, sp: int, bp: int) -> int {
        match self {
            UnwindRuleX86_64::OffsetSpAndRestoreBp { bp_storage_offset_from_sp_by_8, .. } => sp + 8
                * (bp_storage_offset_from_sp_by_8 as int),
            UnwindRuleX86_64::UseFramePointer => bp,
            _ => 0,
        }
    }

    /// Whether executing this rule on the given registers leaves the 64-bit
    /// address space. The return-address slot `new_sp - 8` must be an address
    /// too, so a new stack pointer below 8 counts as overflow.
    pub open spec fn spec_overflows(self, sp: int, bp: int) -> bool {
        match self {
            UnwindRuleX86_64::JustReturn => sp + 8 > u64::MAX,
            UnwindRuleX86_64::OffsetSp { .. } => self.spec_new_sp(sp, bp) > u64::MAX
                || self.spec_new_sp(sp, bp) < 8,
            UnwindRuleX86_64::OffsetSpAndRestoreBp { .. } => self.spec_new_sp(sp, bp) > u64::MAX
                || self.spec_new_sp(sp, bp) < 8 || self.spec_bp_read_addr(sp, bp) < 0
                || self.spec_bp_read_addr(sp, bp) > u64::MAX,
            UnwindRuleX86_64::UseFramePointer => bp != 0 && bp + 16 > u64::MAX,
        }
    }

    /// The rule for Mach-O `__stubs` functions, which do not build a frame.
    pub fn rule_for_stub_functions() -> (r: Self)
        ensures
            r == UnwindRuleX86_64::JustReturn,
    {
        UnwindRuleX86_64::JustReturn
    }

    /// The rule used when the lookup address is a function's first byte:
    /// nothing has been pushed yet.
    pub fn rule_for_function_start() -> (r: Self)
        ensures
            r == UnwindRuleX86_64::JustReturn,
    {
        UnwindRuleX86_64::JustReturn
    }

    /// The rule used when no unwind information is available: walk the frame
    /// pointers.
    pub fn fallback_rule() -> (r: Self)
        ensures
            r == UnwindRuleX86_64::UseFramePointer,
    {
        UnwindRuleX86_64::UseFramePointer
    }

    /// Execute this rule against the register state, reading stack memory
    /// through `read_stack`.
    ///
    /// `Ok(Some(ra))` recovers the caller's frame and commits the new register
    /// values; `Ok(None)` means the clean end of the stack was found (a zero
    /// return address, or a zero frame pointer under `UseFramePointer`); an
    /// error leaves the registers untouched. Execution is verified to return
    /// for every rule, every register state and every reader behaviour. The
    /// decision on the read return address — zero ends the stack, anything
    /// else is committed — stands in [`commit_frame`], whose contract pins
    /// it for every read value; this contract quantifies over every reader
    /// and therefore cannot pin which value was read.
    pub fn exec<R: ReadStack>(self, regs: &mut UnwindRegsX86_64, read_stack: &mut R) -> (r: Result<
        Option<u64>,
        Error,
    >)
        ensures
            // The arithmetic is checked, and overflow is reported exactly when
            // the rule's address computations leave the address space.
            r == Err::<Option<u64>, Error>(Error::IntegerOverflow) <==> self.spec_overflows(
                old(regs).sp() as int,
                old(regs).bp() as int,
            ),
            self.spec_overflows(old(regs).sp() as int, old(regs).bp() as int) ==> *final(regs)
                == *old(regs) && *final(read_stack) == *old(read_stack),
            // A zero frame pointer under `UseFramePointer` is the stack's root:
            // no memory is read and the registers stay as they are.
            self == UnwindRuleX86_64::UseFramePointer && old(regs).bp() == 0 ==> r == Ok::<
                Option<u64>,
                Error,
            >(None) && *final(read_stack) == *old(read_stack),
            // Frame-pointer unwinding must move the stack pointer strictly
            // forward; it fails exactly when the recovered stack pointer would
            // not advance.
            r == Err::<Option<u64>, Error>(Error::FramepointerUnwindingMovedBackwards) <==> self
                == UnwindRuleX86_64::UseFramePointer && old(regs).bp() != 0 && old(regs).bp() + 16
                <= u64::MAX && old(regs).bp() + 16 <= old(regs).sp(),
            r == Err::<Option<u64>, Error>(Error::FramepointerUnwindingMovedBackwards)
                ==> *final(regs) == *old(regs) && *final(read_stack) == *old(read_stack),
            // A recovered frame commits exactly the rule's register changes.
            r matches Ok(Some(ra)) ==> ra != 0 && final(regs).ip() == ra && final(regs).sp() as int
                == self.spec_new_sp(old(regs).sp() as int, old(regs).bp() as int),
            r matches Ok(Some(ra)) && (self is JustReturn || self is OffsetSp) ==> final(regs).bp()
                == old(regs).bp(),
            // A recovered frame is exactly a commit of the two read values:
            // the rule's new stack pointer and the read return address, with
            // the frame pointer that was read or kept. The zero-read half of
            // [`spec_commit`] is verified on [`commit_frame`], which every
            // rule ends in; at this boundary the reader's outputs themselves
            // cannot be named.
            r matches Ok(Some(ra)) ==> spec_commit(
                *old(regs),
                self.spec_new_sp(old(regs).sp() as int, old(regs).bp() as int) as u64,
                final(regs).bp(),
                ra,
                *final(regs),
                Some(ra),
            ),
            // The end of the stack leaves the registers untouched.
            r == Ok::<Option<u64>, Error>(None) ==> *final(regs) == *old(regs),
            // A failed read names the address that could not be read, which is
            // one of the rule's two read locations.
            r matches Err(Error::CouldNotReadStack(a)) ==> *final(regs) == *old(regs) && (a as int == self.spec_new_sp(old(regs).sp() as int, old(regs).bp() as int) - 8 || (
            self is OffsetSpAndRestoreBp || self is UseFramePointer) && a as int
                == self.spec_bp_read_addr(old(regs).sp() as int, old(regs).bp() as int)),
            r != Err::<Option<u64>, Error>(Error::ReturnAddressIsNull),
    {
        let sp = regs.sp();
        let (new_sp, new_bp): (u64, u64) = match self {
            UnwindRuleX86_64::JustReturn => {
                let new_sp = match sp.checked_add(8) {
                    Some(x) => x,
                    None => {
                        return Err(Error::IntegerOverflow);
                    },
                };
                (new_sp, regs.bp())
            },
            UnwindRuleX86_64::OffsetSp { sp_offset_by_8 } => {
                let sp_offset: u64 = (sp_offset_by_8 as u64) * 8;
                let new_sp = match sp.checked_add(sp_offset) {
                    Some(x) => x,
                    None => {
                        return Err(Error::IntegerOverflow);
                    },
                };
                if new_sp < 8 {
                    return Err(Error::IntegerOverflow);
                }
                (new_sp, regs.bp())
            },
            UnwindRuleX86_64::OffsetSpAndRestoreBp {
                sp_offset_by_8,
                bp_storage_offset_from_sp_by_8,
            } => {
                let sp_offset: u64 = (sp_offset_by_8 as u64) * 8;
                let new_sp = match sp.checked_add(sp_offset) {
                    Some(x) => x,
                    None => {
                        return Err(Error::IntegerOverflow);
                    },
                };
                if new_sp < 8 {
                    return Err(Error::IntegerOverflow);
                }
                let bp_storage_offset_from_sp: i64 = (bp_storage_offset_from_sp_by_8 as i64) * 8;
                let bp_location = match checked_add_signed(sp, bp_storage_offset_from_sp) {
                    Some(x) => x,
                    None => {
                        return Err(Error::IntegerOverflow);
                    },
                };
                let new_bp = match read_stack.read_u64(bp_location) {
                    Ok(v) => v,
                    Err(_) => {
                        return Err(Error::CouldNotReadStack(bp_location));
                    },
                };
                (new_sp, new_bp)
            },
            UnwindRuleX86_64::UseFramePointer => {
                // Walk the linked list of saved frame pointers: `*bp` is the
                // caller's frame pointer and `*(bp + 8)` the return address.
                let bp = regs.bp();
                if bp == 0 {
                    return Ok(None);
                }
                let new_sp = match bp.checked_add(16) {
                    Some(x) => x,
                    None => {
                        return Err(Error::IntegerOverflow);
                    },
                };
                if new_sp <= sp {
                    return Err(Error::FramepointerUnwindingMovedBackwards);
                }
                let new_bp = match read_stack.read_u64(bp) {
                    Ok(v) => v,
                    Err(_) => {
                        return Err(Error::CouldNotReadStack(bp));
                    },
                };
                (new_sp, new_bp)
            },
        };
        let return_address = match read_stack.read_u64(new_sp - 8) {
            Ok(v) => v,
            Err(_) => {
                return Err(Error::CouldNotReadStack(new_sp - 8));
            },
        };
        Ok(commit_frame(regs, new_sp, new_bp, return_address))
    }
}

} // verus!
