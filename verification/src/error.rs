//! The error taxonomy, in two layers.
//!
//! [`Error`] is surfaced to callers of the unwinder. [`UnwinderError`] and the
//! adapter errors nested in it stay internal: the dispatcher recovers from
//! them by substituting the architecture's fallback rule.

use vstd::prelude::*;

verus! {

/// An error surfaced by unwinding a frame. A clean end of the stack is not an
/// error; it is reported as `Ok(None)`.
#[derive(Clone, Copy, Debug, PartialEq, Eq, Structural)]
pub enum Error {
    /// The stack-read callback failed at the given address.
    CouldNotReadStack(u64),
    /// Frame-pointer unwinding would have moved the stack pointer backwards,
    /// which means the frame-pointer register held garbage.
    FramepointerUnwindingMovedBackwards,
    /// An address computation overflowed; the rule or the registers were
    /// pathological.
    IntegerOverflow,
    /// A zero return address was produced mid-walk where a frame was expected.
    ReturnAddressIsNull,
}

/// An internal failure of an unwind-information adapter. These are recovered
/// locally: the dispatcher substitutes the fallback rule and continues.
#[derive(Clone, Copy, Debug, PartialEq, Eq, Structural)]
pub enum UnwinderError {
    /// Compact unwind info unwinding failed.
    CompactUnwindInfo(CompactUnwindInfoUnwinderError),
    /// DWARF CFI unwinding failed.
    Dwarf(DwarfUnwinderError),
    /// Compact unwind info referred to a DWARF FDE but the module carries no
    /// `__eh_frame` data.
    NoDwarfData,
    /// The module carries no unwind data at all.
    NoUnwindData,
    /// The `.eh_frame_hdr` table lookup did not find the address.
    EhFrameHdrCouldNotFindAddress,
    /// The FDE index lookup did not find the address.
    DwarfCfiIndexCouldNotFindAddress,
}

/// A failure of the compact-unwind-info adapter.
#[derive(Clone, Copy, Debug, PartialEq, Eq, Structural)]
pub enum CompactUnwindInfoUnwinderError {
    /// No function entry covers the lookup address.
    CouldNotFindFunctionForAddress,
    /// The function's opcode is the null opcode and carries no information.
    FunctionHasNoInfo,
    /// The opcode kind is not one the adapter recognises.
    BadOpcodeKind(u8),
    /// A frameless opcode's register permutation was invalid.
    InvalidFrameless,
    /// The frame-pointer storage offset does not fit the rule encoding.
    BpOffsetDoesNotFit,
    /// Adding the stack adjustment to the indirect stack size overflowed.
    StackAdjustOverflow,
    /// The stack size does not fit the rule encoding.
    StackSizeDoesNotFit,
    /// A frameless-indirect opcode needs the function's instruction bytes,
    /// which were not supplied.
    NoTextBytesToLookUpIndirectStackOffset,
    /// The frameless-indirect immediate lies outside the supplied bytes.
    IndirectStackOffsetOutOfBounds,
    /// The DWARF unwinding the opcode delegated to failed.
    BadDwarfUnwinding(DwarfUnwinderError),
}

/// A failure of the DWARF CFI adapter.
#[derive(Clone, Copy, Debug, PartialEq, Eq, Structural)]
pub enum DwarfUnwinderError {
    /// The FDE could not be parsed or no CFI row covers the address.
    RowLookupFailed,
    /// The row's CFA rule is not a supported register-plus-offset form.
    UnsupportedCfaRule,
    /// The row's rule for a tracked register is not a supported form.
    UnsupportedRegisterRule,
    /// Evaluating the CFA left the 64-bit address space.
    CfaComputationOverflow,
    /// A register recovery read failed.
    CouldNotReadStack,
    /// The lookup address left the 64-bit address space.
    LookupAddressOverflow,
}

impl UnwinderError {
    /// Wrap a compact-unwind-info failure, unwrapping a nested DWARF failure
    /// to the DWARF layer.
    pub fn from_compact_unwind_info_error(e: CompactUnwindInfoUnwinderError) -> (r: Self)
        ensures
            r == (match e {
                CompactUnwindInfoUnwinderError::BadDwarfUnwinding(d) => UnwinderError::Dwarf(d),
                _ => UnwinderError::CompactUnwindInfo(e),
            }),
    {
        match e {
            CompactUnwindInfoUnwinderError::BadDwarfUnwinding(d) => UnwinderError::Dwarf(d),
            _ => UnwinderError::CompactUnwindInfo(e),
        }
    }
}

} // verus!
