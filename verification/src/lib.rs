//! A post-mortem stack unwinder core.
//!
//! Given the loaded modules of a profiled process (with their unwind metadata)
//! and a snapshot of a suspended thread's registers, this library walks the
//! call chain frame by frame. Stack memory is read through a caller-supplied
//! [`ReadStack`] implementation, so the target process can be inspected
//! out-of-process.

use vstd::prelude::*;

pub mod cfi_index;
pub mod dwarf;
pub mod error;
pub mod macho;
pub mod rule_cache;
pub mod unwind_regs;
pub mod unwinder;
pub mod unwind_rule;

verus! {

/// What an unwind-information adapter produced for one frame: either a
/// cacheable rule to execute, or a concrete return address that came out of
/// a recovery with side effects no rule can express and that therefore must
/// not enter the cache.
#[derive(Clone, Copy, Debug, PartialEq, Eq, Structural)]
pub enum UnwindResult {
    /// Execute (and cache) this rule.
    ExecRule(crate::unwind_rule::UnwindRuleX86_64),
    /// The caller registers were already recovered; this is the return
    /// address. It may be zero, which the iterator surfaces as an error.
    Uncacheable(u64),
}

/// How a frame's address was obtained. The innermost frame is described by the
/// live instruction pointer; every outer frame by a return address that was
/// read from the stack. A few unwind rules treat the innermost frame
/// differently, because its instruction pointer may sit inside a prologue or
/// epilogue.
///
/// A return address of zero is not representable: it marks the end of the
/// stack and [`FrameAddress::from_return_address`] refuses it.
#[derive(Clone, Copy, Debug, PartialEq, Eq, Structural)]
pub struct FrameAddress {
    is_return: bool,
    addr: u64,
}

impl FrameAddress {
    /// The raw address of this frame.
    pub closed spec fn addr_spec(self) -> u64 {
        self.addr
    }

    /// Whether this frame's address is a return address.
    pub closed spec fn is_return_spec(self) -> bool {
        self.is_return
    }

    /// A return address is never zero.
    pub open spec fn wf(self) -> bool {
        self.is_return_spec() ==> self.addr_spec() != 0
    }

    /// The address at which unwind information is looked up: the instruction
    /// pointer itself for the innermost frame, and the byte before the return
    /// address for outer frames, so that the lookup lands inside the calling
    /// instruction.
    pub open spec fn lookup_address_spec(self) -> u64 {
        if self.is_return_spec() {
            (self.addr_spec() - 1) as u64
        } else {
            self.addr_spec()
        }
    }

    /// Describe the innermost frame by the thread's live instruction pointer.
    pub fn from_instruction_pointer(pc: u64) -> (r: Self)
        ensures
            !r.is_return_spec(),
            r.addr_spec() == pc,
            r.wf(),
    {
        FrameAddress { is_return: false, addr: pc }
    }

    /// Describe an outer frame by a return address read from the stack.
    /// A zero return address is not a frame; it signals the stack's end.
    pub fn from_return_address(ra: u64) -> (r: Option<Self>)
        ensures
            ra == 0 ==> r is None,
            ra != 0 ==> (r matches Some(f) && f.is_return_spec() && f.addr_spec() == ra && f.wf()),
    {
        if ra == 0 {
            None
        } else {
            Some(FrameAddress { is_return: true, addr: ra })
        }
    }

    /// The raw address of this frame.
    pub fn address(&self) -> (r: u64)
        ensures
            r == self.addr_spec(),
    {
        self.addr
    }

    /// Whether this frame's address is a return address (that is, whether this
    /// is not the innermost frame).
    pub fn is_return_address(&self) -> (r: bool)
        ensures
            r == self.is_return_spec(),
    {
        self.is_return
    }

    /// The address at which unwind information is looked up; see
    /// [`Self::lookup_address_spec`].
    pub fn address_for_lookup(&self) -> (r: u64)
        requires
            self.wf(),
        ensures
            r == self.lookup_address_spec(),
    {
        if self.is_return {
            self.addr - 1
        } else {
            self.addr
        }
    }
}

/// The port through which the unwinder reads the suspended thread's stack.
///
/// An implementation reads exactly eight bytes at the given address and
/// returns them as an unsigned integer in the target's byte order; it returns
/// `Err(())` where the address cannot be read. Implementations typically read
/// from a captured stack buffer, a core dump, or another process's memory.
///
/// No contract constrains the result: the unwinder is verified for every
/// possible behaviour of the reader.
pub trait ReadStack {
    fn read_u64(&mut self, addr: u64) -> Result<u64, ()>;
}

} // verus!
