//! The DWARF CFI adapter.
//!
//! The CFI evaluator itself is the `gimli` crate: it parses the section,
//! runs the CFI program for a frame's address and yields an abstract row
//! saying where the canonical frame address (CFA), the frame pointer and the
//! return address of the caller live. That evaluation is trusted. Everything
//! after the row is verified library code: deciding whether the row fits one
//! of the small cacheable unwind rules, and otherwise recovering the caller
//! registers directly from the row.

use vstd::prelude::*;

use gimli::CfaRule;
use gimli::RegisterRule;
use gimli::UnwindSection;

use crate::ReadStack;
use crate::UnwindResult;
use crate::error::DwarfUnwinderError;
use crate::unwind_regs::UnwindRegsX86_64;
use crate::unwind_rule::UnwindRuleX86_64;
use crate::unwind_rule::checked_add_signed;

verus! {

/// The DWARF number of the x86-64 frame pointer register.
pub const DWARF_REG_RBP: u16 = 6;

/// The DWARF number of the x86-64 stack pointer register.
pub const DWARF_REG_RSP: u16 = 7;

/// The DWARF number of the x86-64 return-address pseudo register.
pub const DWARF_REG_RA: u16 = 16;

/// A CFI row's rule for the canonical frame address, reduced to what the
/// adapter can execute: a register plus an offset. Every other form (a DWARF
/// expression) is `Unsupported` and makes the dispatcher fall back.
#[derive(Clone, Copy, Debug, PartialEq, Eq, Structural)]
pub enum CfaRuleSpec {
    RegisterAndOffset { register: u16, offset: i64 },
    Unsupported,
}

/// A CFI row's rule for recovering one register, reduced to what the adapter
/// can execute: unmentioned, unchanged, or stored at an offset from the CFA.
/// Every other form is `Unsupported`.
#[derive(Clone, Copy, Debug, PartialEq, Eq, Structural)]
pub enum RegisterRuleSpec {
    Undefined,
    SameValue,
    Offset(i64),
    Unsupported,
}

/// The outcome of evaluating a CFI program up to a frame's address: where the
/// caller's canonical frame address, frame pointer and return address live.
#[derive(Clone, Copy, Debug, PartialEq, Eq, Structural)]
pub struct CfiRow {
    pub cfa: CfaRuleSpec,
    pub bp: RegisterRuleSpec,
    pub ra: RegisterRuleSpec,
}

/// The stated (pre-relocation) addresses of the sections that DWARF pointer
/// encodings may be relative to. A section the module does not have is
/// recorded as 0; a malformed section that actually uses such a base fails
/// to parse and the dispatcher falls back to frame-pointer unwinding.
#[derive(Clone, Copy, Debug, PartialEq, Eq, Structural)]
pub struct SectionBases {
    pub eh_frame_hdr_svma: u64,
    pub eh_frame_svma: u64,
    pub text_svma: u64,
    pub got_svma: u64,
}

/// The FDE list that one walk over an `.eh_frame` section yields: each FDE's
/// initial location and section offset, in section order, or nothing for a
/// malformed section. The list is a function of the bytes and bases alone.
pub uninterp spec fn eh_frame_fde_pairs(
    section: Seq<u8>,
    eh_frame_hdr_svma: u64,
    eh_frame_svma: u64,
    text_svma: u64,
    got_svma: u64,
) -> Option<Seq<(u64, u64)>>;

/// The FDE list that one walk over a `.debug_frame` section yields, as
/// [`eh_frame_fde_pairs`] for `.eh_frame`.
pub uninterp spec fn debug_frame_fde_pairs(
    section: Seq<u8>,
    eh_frame_hdr_svma: u64,
    eh_frame_svma: u64,
    text_svma: u64,
    got_svma: u64,
) -> Option<Seq<(u64, u64)>>;

/// Relies on gimli's `EhFrame` and `CfiEntriesIter`: one pass over the CIEs
/// and FDEs of an `.eh_frame` section, yielding each FDE's initial location
/// and section offset. An FDE whose CIE cannot be resolved is skipped; a
/// section whose entry chain is malformed yields `None`. The walk is a pure
/// function of the section bytes and the bases.
#[verifier::external_body]
pub(crate) fn collect_eh_frame_fdes(section: &[u8], bases: &SectionBases) -> (r: Option<
    Vec<(u64, u64)>,
>)
    ensures
        r is Some <==> eh_frame_fde_pairs(
            section@,
            bases.eh_frame_hdr_svma,
            bases.eh_frame_svma,
            bases.text_svma,
            bases.got_svma,
        ) is Some,
        r matches Some(v) ==> eh_frame_fde_pairs(
            section@,
            bases.eh_frame_hdr_svma,
            bases.eh_frame_svma,
            bases.text_svma,
            bases.got_svma,
        ) == Some(v@),
{
    let mut sec = gimli::EhFrame::new(section, gimli::LittleEndian);
    sec.set_address_size(8);
    let b = make_bases(bases);
    let mut iter = sec.entries(&b);
    let mut v: Vec<(u64, u64)> = Vec::new();
    loop {
        match iter.next() {
            Ok(None) => return Some(v),
            Ok(Some(gimli::CieOrFde::Cie(_))) => {},
            Ok(Some(gimli::CieOrFde::Fde(p))) => if let Ok(f) = p.parse(UnwindSection::cie_from_offset) { v.push((f.initial_address(), f.offset() as u64)) },
            Err(_) => return None,
        }
    }
}

/// Relies on gimli's `DebugFrame` and `CfiEntriesIter`, exactly as
/// [`collect_eh_frame_fdes`] relies on `EhFrame`.
#[verifier::external_body]
pub(crate) fn collect_debug_frame_fdes(section: &[u8], bases: &SectionBases) -> (r: Option<
    Vec<(u64, u64)>,
>)
    ensures
        r is Some <==> debug_frame_fde_pairs(
            section@,
            bases.eh_frame_hdr_svma,
            bases.eh_frame_svma,
            bases.text_svma,
            bases.got_svma,
        ) is Some,
        r matches Some(v) ==> debug_frame_fde_pairs(
            section@,
            bases.eh_frame_hdr_svma,
            bases.eh_frame_svma,
            bases.text_svma,
            bases.got_svma,
        ) == Some(v@),
{
    let mut sec = gimli::DebugFrame::new(section, gimli::LittleEndian);
    sec.set_address_size(8);
    let b = make_bases(bases);
    let mut iter = sec.entries(&b);
    let mut v: Vec<(u64, u64)> = Vec::new();
    loop {
        match iter.next() {
            Ok(None) => return Some(v),
            Ok(Some(gimli::CieOrFde::Cie(_))) => {},
            Ok(Some(gimli::CieOrFde::Fde(p))) => if let Ok(f) = p.parse(UnwindSection::cie_from_offset) { v.push((f.initial_address(), f.offset() as u64)) },
            Err(_) => return None,
        }
    }
}

/// The `(initial_location, fde_address)` pairs of an `.eh_frame_hdr` search
/// table, in table order, both as stated addresses; nothing when the header
/// is absent, malformed, or carries no table. Entries whose pointers are
/// not direct are left out. A function of the bytes and bases alone.
pub uninterp spec fn eh_frame_hdr_entries(
    hdr: Seq<u8>,
    eh_frame_hdr_svma: u64,
    eh_frame_svma: u64,
    text_svma: u64,
    got_svma: u64,
) -> Option<Seq<(u64, u64)>>;

/// Relies on gimli's `EhFrameHdr` and `EhHdrTable::iter`: parse the header
/// and walk its search table once, carrying each entry's two direct
/// pointers over. The walk is bounded by the header's bytes; the searching
/// over the entries is done by this library, in verified code.
#[verifier::external_body]
fn collect_eh_frame_hdr_entries(hdr: &[u8], bases: &SectionBases) -> (r: Option<Vec<(u64, u64)>>)
    ensures
        r is Some <==> eh_frame_hdr_entries(
            hdr@,
            bases.eh_frame_hdr_svma,
            bases.eh_frame_svma,
            bases.text_svma,
            bases.got_svma,
        ) is Some,
        r matches Some(v) ==> eh_frame_hdr_entries(
            hdr@,
            bases.eh_frame_hdr_svma,
            bases.eh_frame_svma,
            bases.text_svma,
            bases.got_svma,
        ) == Some(v@),
{
    let h = gimli::EhFrameHdr::new(hdr, gimli::LittleEndian);
    let b = make_bases(bases);
    let parsed = match h.parse(&b, 8) { Ok(p) => p, Err(_) => return None };
    let table = match parsed.table() { Some(t) => t, None => return None };
    let mut iter = table.iter(&b);
    let mut v: Vec<(u64, u64)> = Vec::new();
    loop {
        match iter.next() {
            Ok(None) => return Some(v),
            Ok(Some((gimli::Pointer::Direct(loc), gimli::Pointer::Direct(fde)))) => v.push((loc, fde)),
            Ok(Some(_)) => {},
            Err(_) => return None,
        }
    }
}

#[verifier::external_type_specification]
#[verifier::external_body]
pub struct ExBaseAddresses(gimli::BaseAddresses);

/// Relies on gimli::BaseAddresses: record the four section base addresses
/// for DWARF pointer decoding.
#[verifier::external_body]
fn make_bases(bases: &SectionBases) -> gimli::BaseAddresses {
    gimli::BaseAddresses::default().set_eh_frame_hdr(bases.eh_frame_hdr_svma).set_eh_frame(bases.eh_frame_svma).set_text(bases.text_svma).set_got(bases.got_svma)
}

/// The CFA rule of the CFI row that evaluating an `.eh_frame` FDE up to a
/// lookup address yields, reduced to the supported forms; nothing when the
/// FDE does not parse or no row covers the address. A function of the bytes,
/// bases, offset and address alone.
pub uninterp spec fn eh_frame_cfi_cfa(
    section: Seq<u8>,
    eh_frame_hdr_svma: u64,
    eh_frame_svma: u64,
    text_svma: u64,
    got_svma: u64,
    fde_offset: u32,
    pc_svma: u64,
) -> Option<CfaRuleSpec>;

/// The rule of the same CFI row for one DWARF-numbered register, reduced to
/// the supported forms.
pub uninterp spec fn eh_frame_cfi_register(
    section: Seq<u8>,
    eh_frame_hdr_svma: u64,
    eh_frame_svma: u64,
    text_svma: u64,
    got_svma: u64,
    fde_offset: u32,
    pc_svma: u64,
    reg: u16,
) -> Option<RegisterRuleSpec>;

/// As [`eh_frame_cfi_cfa`], for a `.debug_frame` section.
pub uninterp spec fn debug_frame_cfi_cfa(
    section: Seq<u8>,
    eh_frame_hdr_svma: u64,
    eh_frame_svma: u64,
    text_svma: u64,
    got_svma: u64,
    fde_offset: u32,
    pc_svma: u64,
) -> Option<CfaRuleSpec>;

/// As [`eh_frame_cfi_register`], for a `.debug_frame` section.
pub uninterp spec fn debug_frame_cfi_register(
    section: Seq<u8>,
    eh_frame_hdr_svma: u64,
    eh_frame_svma: u64,
    text_svma: u64,
    got_svma: u64,
    fde_offset: u32,
    pc_svma: u64,
    reg: u16,
) -> Option<RegisterRuleSpec>;

/// Relies on gimli's `fde_from_offset` and `unwind_info_for_address`: parse
/// the FDE of an `.eh_frame` section at the given offset, run its CFI
/// program up to the lookup address, and carry the row's CFA rule over, one
/// variant for one variant.
#[verifier::external_body]
fn fetch_eh_frame_cfi_cfa(section: &[u8], bases: &SectionBases, fde_offset: u32, pc_svma: u64) -> (r: Option<CfaRuleSpec>)
    ensures
        r == eh_frame_cfi_cfa(
            section@,
            bases.eh_frame_hdr_svma,
            bases.eh_frame_svma,
            bases.text_svma,
            bases.got_svma,
            fde_offset,
            pc_svma,
        ),
{
    let mut sec = gimli::EhFrame::new(section, gimli::LittleEndian);
    sec.set_address_size(8);
    let b = make_bases(bases);
    let off = gimli::EhFrameOffset(fde_offset as usize);
    let fde = match sec.fde_from_offset(&b, off, UnwindSection::cie_from_offset) { Ok(f) => f, Err(_) => return None };
    let mut ctx = Box::new(gimli::UnwindContext::new());
    let row = match fde.unwind_info_for_address(&sec, &b, &mut ctx, pc_svma) { Ok(r) => r, Err(_) => return None };
    match row.cfa() {
        CfaRule::RegisterAndOffset { register, offset } => Some(CfaRuleSpec::RegisterAndOffset { register: register.0, offset: *offset }),
        CfaRule::Expression(_) => Some(CfaRuleSpec::Unsupported),
    }
}

/// Relies on gimli's `fde_from_offset` and `unwind_info_for_address`: as
/// [`fetch_eh_frame_cfi_cfa`], carrying over the row's rule for one
/// DWARF-numbered register instead.
#[verifier::external_body]
fn fetch_eh_frame_cfi_register(section: &[u8], bases: &SectionBases, fde_offset: u32, pc_svma: u64, reg: u16) -> (r: Option<RegisterRuleSpec>)
    ensures
        r == eh_frame_cfi_register(
            section@,
            bases.eh_frame_hdr_svma,
            bases.eh_frame_svma,
            bases.text_svma,
            bases.got_svma,
            fde_offset,
            pc_svma,
            reg,
        ),
{
    let mut sec = gimli::EhFrame::new(section, gimli::LittleEndian);
    sec.set_address_size(8);
    let b = make_bases(bases);
    let off = gimli::EhFrameOffset(fde_offset as usize);
    let fde = match sec.fde_from_offset(&b, off, UnwindSection::cie_from_offset) { Ok(f) => f, Err(_) => return None };
    let mut ctx = Box::new(gimli::UnwindContext::new());
    let row = match fde.unwind_info_for_address(&sec, &b, &mut ctx, pc_svma) { Ok(r) => r, Err(_) => return None };
    match row.register(gimli::Register(reg)) {
        RegisterRule::Undefined => Some(RegisterRuleSpec::Undefined),
        RegisterRule::SameValue => Some(RegisterRuleSpec::SameValue),
        RegisterRule::Offset(o) => Some(RegisterRuleSpec::Offset(o)),
        _ => Some(RegisterRuleSpec::Unsupported),
    }
}

/// Relies on gimli's `fde_from_offset` and `unwind_info_for_address` for
/// `.debug_frame`, as [`fetch_eh_frame_cfi_cfa`] does for `.eh_frame`.
#[verifier::external_body]
fn fetch_debug_frame_cfi_cfa(section: &[u8], bases: &SectionBases, fde_offset: u32, pc_svma: u64) -> (r: Option<CfaRuleSpec>)
    ensures
        r == debug_frame_cfi_cfa(
            section@,
            bases.eh_frame_hdr_svma,
            bases.eh_frame_svma,
            bases.text_svma,
            bases.got_svma,
            fde_offset,
            pc_svma,
        ),
{
    let mut sec = gimli::DebugFrame::new(section, gimli::LittleEndian);
    sec.set_address_size(8);
    let b = make_bases(bases);
    let off = gimli::DebugFrameOffset(fde_offset as usize);
    let fde = match sec.fde_from_offset(&b, off, UnwindSection::cie_from_offset) { Ok(f) => f, Err(_) => return None };
    let mut ctx = Box::new(gimli::UnwindContext::new());
    let row = match fde.unwind_info_for_address(&sec, &b, &mut ctx, pc_svma) { Ok(r) => r, Err(_) => return None };
    match row.cfa() {
        CfaRule::RegisterAndOffset { register, offset } => Some(CfaRuleSpec::RegisterAndOffset { register: register.0, offset: *offset }),
        CfaRule::Expression(_) => Some(CfaRuleSpec::Unsupported),
    }
}

/// Relies on gimli's `fde_from_offset` and `unwind_info_for_address` for
/// `.debug_frame`, as [`fetch_eh_frame_cfi_register`] does for `.eh_frame`.
#[verifier::external_body]
fn fetch_debug_frame_cfi_register(section: &[u8], bases: &SectionBases, fde_offset: u32, pc_svma: u64, reg: u16) -> (r: Option<RegisterRuleSpec>)
    ensures
        r == debug_frame_cfi_register(
            section@,
            bases.eh_frame_hdr_svma,
            bases.eh_frame_svma,
            bases.text_svma,
            bases.got_svma,
            fde_offset,
            pc_svma,
            reg,
        ),
{
    let mut sec = gimli::DebugFrame::new(section, gimli::LittleEndian);
    sec.set_address_size(8);
    let b = make_bases(bases);
    let off = gimli::DebugFrameOffset(fde_offset as usize);
    let fde = match sec.fde_from_offset(&b, off, UnwindSection::cie_from_offset) { Ok(f) => f, Err(_) => return None };
    let mut ctx = Box::new(gimli::UnwindContext::new());
    let row = match fde.unwind_info_for_address(&sec, &b, &mut ctx, pc_svma) { Ok(r) => r, Err(_) => return None };
    match row.register(gimli::Register(reg)) {
        RegisterRule::Undefined => Some(RegisterRuleSpec::Undefined),
        RegisterRule::SameValue => Some(RegisterRuleSpec::SameValue),
        RegisterRule::Offset(o) => Some(RegisterRuleSpec::Offset(o)),
        _ => Some(RegisterRuleSpec::Unsupported),
    }
}

/// The CFI row that evaluating an `.eh_frame` FDE up to a lookup address
/// yields: present exactly when the FDE parses and a row covers the address.
pub open spec fn eh_frame_cfi_row(
    section: Seq<u8>,
    eh_frame_hdr_svma: u64,
    eh_frame_svma: u64,
    text_svma: u64,
    got_svma: u64,
    fde_offset: u32,
    pc_svma: u64,
) -> Option<CfiRow> {
    match (
        eh_frame_cfi_cfa(section, eh_frame_hdr_svma, eh_frame_svma, text_svma, got_svma, fde_offset, pc_svma),
        eh_frame_cfi_register(section, eh_frame_hdr_svma, eh_frame_svma, text_svma, got_svma, fde_offset, pc_svma, DWARF_REG_RBP),
        eh_frame_cfi_register(section, eh_frame_hdr_svma, eh_frame_svma, text_svma, got_svma, fde_offset, pc_svma, DWARF_REG_RA),
    ) {
        (Some(cfa), Some(bp), Some(ra)) => Some(CfiRow { cfa, bp, ra }),
        _ => None,
    }
}

/// The CFI row for a `.debug_frame` FDE, as [`eh_frame_cfi_row`] for
/// `.eh_frame`.
pub open spec fn debug_frame_cfi_row(
    section: Seq<u8>,
    eh_frame_hdr_svma: u64,
    eh_frame_svma: u64,
    text_svma: u64,
    got_svma: u64,
    fde_offset: u32,
    pc_svma: u64,
) -> Option<CfiRow> {
    match (
        debug_frame_cfi_cfa(section, eh_frame_hdr_svma, eh_frame_svma, text_svma, got_svma, fde_offset, pc_svma),
        debug_frame_cfi_register(section, eh_frame_hdr_svma, eh_frame_svma, text_svma, got_svma, fde_offset, pc_svma, DWARF_REG_RBP),
        debug_frame_cfi_register(section, eh_frame_hdr_svma, eh_frame_svma, text_svma, got_svma, fde_offset, pc_svma, DWARF_REG_RA),
    ) {
        (Some(cfa), Some(bp), Some(ra)) => Some(CfiRow { cfa, bp, ra }),
        _ => None,
    }
}

/// Fetch the CFI row for a frame, from whichever section kind the module
/// carries.
fn fetch_cfi_row(
    section: &[u8],
    is_debug_frame: bool,
    bases: &SectionBases,
    fde_offset: u32,
    pc_svma: u64,
) -> (r: Option<CfiRow>)
    ensures
        r == if is_debug_frame {
            debug_frame_cfi_row(
                section@,
                bases.eh_frame_hdr_svma,
                bases.eh_frame_svma,
                bases.text_svma,
                bases.got_svma,
                fde_offset,
                pc_svma,
            )
        } else {
            eh_frame_cfi_row(
                section@,
                bases.eh_frame_hdr_svma,
                bases.eh_frame_svma,
                bases.text_svma,
                bases.got_svma,
                fde_offset,
                pc_svma,
            )
        },
{
    let (cfa, bp, ra) = if is_debug_frame {
        (
            fetch_debug_frame_cfi_cfa(section, bases, fde_offset, pc_svma),
            fetch_debug_frame_cfi_register(section, bases, fde_offset, pc_svma, DWARF_REG_RBP),
            fetch_debug_frame_cfi_register(section, bases, fde_offset, pc_svma, DWARF_REG_RA),
        )
    } else {
        (
            fetch_eh_frame_cfi_cfa(section, bases, fde_offset, pc_svma),
            fetch_eh_frame_cfi_register(section, bases, fde_offset, pc_svma, DWARF_REG_RBP),
            fetch_eh_frame_cfi_register(section, bases, fde_offset, pc_svma, DWARF_REG_RA),
        )
    };
    match (cfa, bp, ra) {
        (Some(cfa), Some(bp), Some(ra)) => Some(CfiRow { cfa, bp, ra }),
        _ => None,
    }
}

/// Whether a row can be turned into one of the small cacheable unwind rules,
/// and into which. The patterns are exactly the frame shapes the rules can
/// express: a CFA at a fixed offset from the stack pointer (with the frame
/// pointer untouched or saved at a fixed slot), or the classic frame-pointer
/// chain; in either case the return address must sit in the conventional
/// slot just below the CFA.
pub open spec fn spec_translate(row: CfiRow) -> Option<UnwindRuleX86_64> {
    match row.cfa {
        CfaRuleSpec::RegisterAndOffset { register, offset } => {
            if row.ra != RegisterRuleSpec::Offset(-8i64) {
                None
            } else if register == DWARF_REG_RSP {
                if 8 <= offset && offset % 8 == 0 && offset / 8 <= u16::MAX {
                    match row.bp {
                        RegisterRuleSpec::Undefined => Some(
                            UnwindRuleX86_64::OffsetSp { sp_offset_by_8: (offset / 8) as u16 },
                        ),
                        RegisterRuleSpec::SameValue => Some(
                            UnwindRuleX86_64::OffsetSp { sp_offset_by_8: (offset / 8) as u16 },
                        ),
                        RegisterRuleSpec::Offset(bp_off) => {
                            let storage = offset + bp_off;
                            if storage % 8 == 0 && i16::MIN <= storage / 8 <= i16::MAX {
                                Some(
                                    UnwindRuleX86_64::OffsetSpAndRestoreBp {
                                        sp_offset_by_8: (offset / 8) as u16,
                                        bp_storage_offset_from_sp_by_8: (storage / 8) as i16,
                                    },
                                )
                            } else {
                                None
                            }
                        },
                        RegisterRuleSpec::Unsupported => None,
                    }
                } else {
                    None
                }
            } else if register == DWARF_REG_RBP {
                if offset == 16 && row.bp == RegisterRuleSpec::Offset(-16i64) {
                    Some(UnwindRuleX86_64::UseFramePointer)
                } else {
                    None
                }
            } else {
                None
            }
        },
        CfaRuleSpec::Unsupported => None,
    }
}

/// Reduce a row to a cacheable unwind rule where one expresses it; see
/// [`spec_translate`] for the accepted patterns.
pub fn translate_into_unwind_rule(row: &CfiRow) -> (r: Option<UnwindRuleX86_64>)
    ensures
        r == spec_translate(*row),
{
    let (register, offset) = match row.cfa {
        CfaRuleSpec::RegisterAndOffset { register, offset } => (register, offset),
        CfaRuleSpec::Unsupported => return None,
    };
    if row.ra != (RegisterRuleSpec::Offset(-8)) {
        return None;
    }
    if register == DWARF_REG_RSP {
        if !(8 <= offset && offset % 8 == 0 && offset / 8 <= u16::MAX as i64) {
            return None;
        }
        let sp_offset_by_8: u16 = (offset / 8) as u16;
        match row.bp {
            RegisterRuleSpec::Undefined => Some(UnwindRuleX86_64::OffsetSp { sp_offset_by_8 }),
            RegisterRuleSpec::SameValue => Some(UnwindRuleX86_64::OffsetSp { sp_offset_by_8 }),
            RegisterRuleSpec::Offset(bp_off) => {
                if !(i64::MIN / 2 <= bp_off && bp_off <= i64::MAX / 2) {
                    return None;
                }
                let storage: i64 = offset + bp_off;
                if storage % 8 == 0 && i16::MIN as i64 <= storage / 8 && storage / 8
                    <= i16::MAX as i64 {
                    Some(
                        UnwindRuleX86_64::OffsetSpAndRestoreBp {
                            sp_offset_by_8,
                            bp_storage_offset_from_sp_by_8: (storage / 8) as i16,
                        },
                    )
                } else {
                    None
                }
            },
            RegisterRuleSpec::Unsupported => None,
        }
    } else if register == DWARF_REG_RBP {
        if offset == 16 && row.bp == (RegisterRuleSpec::Offset(-16)) {
            Some(UnwindRuleX86_64::UseFramePointer)
        } else {
            None
        }
    } else {
        None
    }
}

/// The caller's canonical frame address under a row, before range checking:
/// the base register's value plus the rule's offset, or nothing when the row
/// does not give the CFA as a supported register plus offset.
pub open spec fn spec_cfa_value(row: CfiRow, sp: u64, bp: u64) -> Option<int> {
    match row.cfa {
        CfaRuleSpec::RegisterAndOffset { register, offset } => if register == DWARF_REG_RSP {
            Some(sp + offset)
        } else if register == DWARF_REG_RBP {
            Some(bp + offset)
        } else {
            None
        },
        CfaRuleSpec::Unsupported => None,
    }
}

/// Whether the row gives the CFA as an offset from a register the adapter
/// tracks.
pub open spec fn spec_cfa_shape_ok(row: CfiRow) -> bool {
    match row.cfa {
        CfaRuleSpec::RegisterAndOffset { register, .. } => register == DWARF_REG_RSP || register
            == DWARF_REG_RBP,
        CfaRuleSpec::Unsupported => false,
    }
}

/// Whether a row's rules are all of forms the adapter can execute directly.
pub open spec fn spec_row_executable(row: CfiRow) -> bool {
    &&& spec_cfa_shape_ok(row)
    &&& row.ra is Offset
    &&& !(row.bp is Unsupported)
}

/// Whether every address an executable row makes the adapter compute — the
/// CFA itself, the return-address slot, and the frame-pointer slot where
/// one is read — stays inside the 64-bit address space.
pub open spec fn spec_row_addresses_ok(row: CfiRow, sp: u64, bp: u64) -> bool {
    match spec_cfa_value(row, sp, bp) {
        Some(cfa) => {
            &&& 0 <= cfa <= u64::MAX
            &&& (row.ra matches RegisterRuleSpec::Offset(o) ==> 0 <= cfa + o <= u64::MAX)
            &&& (row.bp matches RegisterRuleSpec::Offset(o) ==> 0 <= cfa + o <= u64::MAX)
        },
        None => false,
    }
}

/// Commit a directly recovered frame from the values read off the stack:
/// the stack pointer becomes the row's CFA and the read return address is
/// committed and returned as it was read — a zero included, which the
/// walker surfaces as `ReturnAddressIsNull` rather than as a clean root.
pub fn commit_recovered_frame(
    regs: &mut UnwindRegsX86_64,
    new_sp: u64,
    new_bp: u64,
    return_address: u64,
) -> (r: u64)
    ensures
        r == return_address,
        final(regs).ip() == return_address,
        final(regs).sp() == new_sp,
        final(regs).bp() == new_bp,
{
    regs.set_ip(return_address);
    regs.set_sp(new_sp);
    regs.set_bp(new_bp);
    return_address
}

/// Recover the caller's registers directly from a row that no cacheable rule
/// expresses: compute the CFA, read the return address from its slot, read
/// or keep the frame pointer, and commit. The result is the recovered return
/// address, which may be zero; the iterator surfaces a zero as
/// `ReturnAddressIsNull`.
pub fn exec_cfi_row<R: ReadStack>(
    row: &CfiRow,
    regs: &mut UnwindRegsX86_64,
    read_stack: &mut R,
) -> (r: Result<u64, DwarfUnwinderError>)
    ensures
            // Each row-shape and range error occurs exactly on its inputs,
            // before anything is read.
            r == Err::<u64, DwarfUnwinderError>(DwarfUnwinderError::UnsupportedCfaRule)
                <==> !spec_cfa_shape_ok(*row),
            r == Err::<u64, DwarfUnwinderError>(DwarfUnwinderError::UnsupportedRegisterRule)
                <==> spec_cfa_shape_ok(*row) && (!(row.ra is Offset) || row.bp is Unsupported),
            r == Err::<u64, DwarfUnwinderError>(DwarfUnwinderError::CfaComputationOverflow)
                <==> spec_row_executable(*row) && !spec_row_addresses_ok(
                *row,
                old(regs).sp(),
                old(regs).bp(),
            ),
            !(spec_row_executable(*row) && spec_row_addresses_ok(
                *row,
                old(regs).sp(),
                old(regs).bp(),
            )) ==> r is Err && *final(read_stack) == *old(read_stack),
            // Errors leave the registers untouched, and only the four
            // failures of direct recovery occur here.
            r is Err ==> *final(regs) == *old(regs),
            r is Err ==> r == Err::<u64, DwarfUnwinderError>(DwarfUnwinderError::UnsupportedCfaRule)
                || r == Err::<u64, DwarfUnwinderError>(DwarfUnwinderError::UnsupportedRegisterRule)
                || r == Err::<u64, DwarfUnwinderError>(DwarfUnwinderError::CfaComputationOverflow)
                || r == Err::<u64, DwarfUnwinderError>(DwarfUnwinderError::CouldNotReadStack),
            // Success commits exactly the row's recovery: the stack pointer
            // becomes the CFA, the instruction pointer the read return
            // address (committed through [`commit_recovered_frame`]), and
            // the frame pointer is kept unless the row restores it from
            // memory.
            r matches Ok(ra) ==> spec_row_executable(*row) && spec_row_addresses_ok(
                *row,
                old(regs).sp(),
                old(regs).bp(),
            ) && (spec_cfa_value(*row, old(regs).sp(), old(regs).bp()) matches Some(cfa)
                && final(regs).sp() as int == cfa && final(regs).ip() == ra && ((row.bp is SameValue
                || row.bp is Undefined) ==> final(regs).bp() == old(regs).bp())),
{
    let (cfa_register, cfa_offset) = match row.cfa {
        CfaRuleSpec::RegisterAndOffset { register, offset } => (register, offset),
        CfaRuleSpec::Unsupported => {
            return Err(DwarfUnwinderError::UnsupportedCfaRule);
        },
    };
    let base: u64 = if cfa_register == DWARF_REG_RSP {
        regs.sp()
    } else if cfa_register == DWARF_REG_RBP {
        regs.bp()
    } else {
        return Err(DwarfUnwinderError::UnsupportedCfaRule);
    };
    let ra_offset = match row.ra {
        RegisterRuleSpec::Offset(o) => o,
        _ => {
            return Err(DwarfUnwinderError::UnsupportedRegisterRule);
        },
    };
    if row.bp == (RegisterRuleSpec::Unsupported) {
        return Err(DwarfUnwinderError::UnsupportedRegisterRule);
    }
    let cfa = match checked_add_signed(base, cfa_offset) {
        Some(v) => v,
        None => {
            return Err(DwarfUnwinderError::CfaComputationOverflow);
        },
    };
    let ra_addr = match checked_add_signed(cfa, ra_offset) {
        Some(v) => v,
        None => {
            return Err(DwarfUnwinderError::CfaComputationOverflow);
        },
    };
    let new_bp: u64 = match row.bp {
        RegisterRuleSpec::Offset(o) => {
            let bp_addr = match checked_add_signed(cfa, o) {
                Some(v) => v,
                None => {
                    return Err(DwarfUnwinderError::CfaComputationOverflow);
                },
            };
            match read_stack.read_u64(bp_addr) {
                Ok(v) => v,
                Err(_) => {
                    return Err(DwarfUnwinderError::CouldNotReadStack);
                },
            }
        },
        _ => regs.bp(),
    };
    let return_address = match read_stack.read_u64(ra_addr) {
        Ok(v) => v,
        Err(_) => {
            return Err(DwarfUnwinderError::CouldNotReadStack);
        },
    };
    Ok(commit_recovered_frame(regs, cfa, new_bp, return_address))
}

/// The table entry that decides a lookup: the one with the greatest
/// initial location at or before the address; among equals, the later
/// entry. On a sorted table — the format requires one — this is what the
/// table's binary search would find.
pub open spec fn spec_best_hdr_entry(entries: Seq<(u64, u64)>, pc_svma: u64) -> Option<(u64, u64)>
    decreases entries.len(),
{
    if entries.len() == 0 {
        None
    } else {
        let rest = spec_best_hdr_entry(entries.drop_last(), pc_svma);
        if entries.last().0 <= pc_svma && (match rest {
            Some(e) => e.0 <= entries.last().0,
            None => true,
        }) {
            Some(entries.last())
        } else {
            rest
        }
    }
}

/// The FDE offset an `.eh_frame_hdr` table search resolves a relative
/// address to: the deciding entry's FDE pointer, rebased from a stated
/// address to a section offset. Nothing when the address leaves the address
/// space, the table is missing or finds nothing, or the pointer lies
/// outside the section's 32-bit offset range.
pub open spec fn spec_eh_frame_hdr_fde_offset(
    hdr: Seq<u8>,
    bases: SectionBases,
    base_svma: u64,
    rel_pc: u32,
) -> Option<u32> {
    if base_svma + rel_pc > u64::MAX {
        None
    } else {
        match eh_frame_hdr_entries(
            hdr,
            bases.eh_frame_hdr_svma,
            bases.eh_frame_svma,
            bases.text_svma,
            bases.got_svma,
        ) {
            Some(entries) => match spec_best_hdr_entry(entries, (base_svma + rel_pc) as u64) {
                Some(e) => if e.1 >= bases.eh_frame_svma && e.1 - bases.eh_frame_svma <= u32::MAX {
                    Some((e.1 - bases.eh_frame_svma) as u32)
                } else {
                    None
                },
                None => None,
            },
            None => None,
        }
    }
}

/// Resolve a relative lookup address to an FDE offset through the module's
/// `.eh_frame_hdr` table; see [`spec_eh_frame_hdr_fde_offset`]. The table
/// is decoded and scanned on each call; the dispatcher reaches here only on
/// a cache miss.
/// The table entries are ordered by initial location, as the format
/// requires of the search table.
pub open spec fn spec_hdr_sorted(s: Seq<(u64, u64)>) -> bool {
    forall|i: int, j: int| 0 <= i < j < s.len() ==> s[i].0 <= s[j].0
}

/// On a sorted table, the deciding entry is the one just before the first
/// entry past the address — what a binary search finds.
proof fn lemma_best_on_sorted(s: Seq<(u64, u64)>, pc_svma: u64, ub: int)
    requires
        spec_hdr_sorted(s),
        0 <= ub <= s.len(),
        forall|i: int| 0 <= i < ub ==> s[i].0 <= pc_svma,
        forall|i: int| ub <= i < s.len() ==> s[i].0 > pc_svma,
    ensures
        spec_best_hdr_entry(s, pc_svma) == (if ub == 0 {
            None::<(u64, u64)>
        } else {
            Some(s[ub - 1])
        }),
    decreases s.len(),
{
    if s.len() > 0 {
        if ub == s.len() {
            lemma_best_on_sorted(s.drop_last(), pc_svma, ub - 1);
        } else {
            lemma_best_on_sorted(s.drop_last(), pc_svma, ub);
        }
    }
}

/// Whether the collected table entries are sorted by initial location.
fn hdr_entries_sorted(entries: &Vec<(u64, u64)>) -> (r: bool)
    ensures
        r == spec_hdr_sorted(entries@),
{
    let mut i: usize = 1;
    while i < entries.len()
        invariant
            1 <= i,
            i <= entries@.len() || entries@.len() < 1,
            forall|a: int, b: int| 0 <= a < b < i && b < entries@.len() ==> entries@[a].0
                <= entries@[b].0,
        decreases entries@.len() - i,
    {
        if entries[i - 1].0 > entries[i].0 {
            return false;
        }
        i += 1;
    }
    true
}

/// The first index whose entry starts above `pc_svma`, on a sorted table.
fn hdr_upper_bound(entries: &Vec<(u64, u64)>, pc_svma: u64) -> (r: usize)
    requires
        spec_hdr_sorted(entries@),
    ensures
        r <= entries@.len(),
        forall|i: int| 0 <= i < r ==> entries@[i].0 <= pc_svma,
        forall|i: int| r <= i < entries@.len() ==> entries@[i].0 > pc_svma,
{
    let mut lo: usize = 0;
    let mut hi: usize = entries.len();
    while lo < hi
        invariant
            lo <= hi <= entries@.len(),
            spec_hdr_sorted(entries@),
            forall|i: int| 0 <= i < lo ==> entries@[i].0 <= pc_svma,
            forall|i: int| hi <= i < entries@.len() ==> entries@[i].0 > pc_svma,
        decreases hi - lo,
    {
        let mid = lo + (hi - lo) / 2;
        if entries[mid].0 <= pc_svma {
            lo = mid + 1;
        } else {
            hi = mid;
        }
    }
    lo
}

pub fn eh_frame_hdr_fde_offset(
    hdr: &[u8],
    bases: &SectionBases,
    base_svma: u64,
    rel_pc: u32,
) -> (r: Option<u32>)
    ensures
        r == spec_eh_frame_hdr_fde_offset(hdr@, *bases, base_svma, rel_pc),
{
    let pc_svma = match base_svma.checked_add(rel_pc as u64) {
        Some(v) => v,
        None => {
            return None;
        },
    };
    let entries = match collect_eh_frame_hdr_entries(hdr, bases) {
        Some(entries) => entries,
        None => {
            return None;
        },
    };
    let best: Option<(u64, u64)> = if hdr_entries_sorted(&entries) {
        // The table is sorted, as the format requires: binary-search it.
        let ub = hdr_upper_bound(&entries, pc_svma);
        proof {
            lemma_best_on_sorted(entries@, pc_svma, ub as int);
        }
        if ub == 0 {
            None
        } else {
            Some(entries[ub - 1])
        }
    } else {
        // A malformed, unsorted table: fall back to scanning it whole, so
        // the deciding entry stays the one the specification names.
        let mut best: Option<(u64, u64)> = None;
        let mut i: usize = 0;
        while i < entries.len()
            invariant
                i <= entries@.len(),
                best == spec_best_hdr_entry(entries@.take(i as int), pc_svma),
            decreases entries@.len() - i,
        {
            let e = entries[i];
            proof {
                assert(entries@.take(i as int + 1).drop_last() =~= entries@.take(i as int));
                assert(entries@.take(i as int + 1).last() == entries@[i as int]);
            }
            match best {
                Some(b) => {
                    if e.0 <= pc_svma && b.0 <= e.0 {
                        best = Some(e);
                    }
                },
                None => {
                    if e.0 <= pc_svma {
                        best = Some(e);
                    }
                },
            }
            i += 1;
        }
        proof {
            assert(entries@.take(entries@.len() as int) =~= entries@);
        }
        best
    };
    match best {
        Some(e) => {
            if e.1 >= bases.eh_frame_svma && e.1 - bases.eh_frame_svma <= u32::MAX as u64 {
                Some((e.1 - bases.eh_frame_svma) as u32)
            } else {
                None
            }
        },
        None => None,
    }
}

/// What a module's unwind data decides for a frame, as far as the decision
/// is a function of the module's bytes and the lookup address alone: a
/// cacheable rule, a failure (the dispatcher substitutes the fallback
/// rule), or a hand-off to direct recovery of the carried row, whose
/// outcome alone depends on the stack reads.
#[derive(Clone, Copy, Debug, PartialEq, Eq, Structural)]
pub enum AdapterOutcome {
    /// Execute (and cache) this rule.
    Rule(UnwindRuleX86_64),
    /// The adapter fails on this frame; the fallback rule takes over.
    Failed,
    /// This row is recovered directly; the result depends on the reads.
    DirectRecovery(CfiRow),
}

/// The outcome of the DWARF adapter for one FDE and lookup address; see
/// [`unwind_frame_with_fde`].
pub open spec fn spec_dwarf_outcome(
    section: Seq<u8>,
    is_debug_frame: bool,
    bases: SectionBases,
    base_svma: u64,
    rel_pc: u32,
    fde_offset: u32,
) -> AdapterOutcome {
    if base_svma + rel_pc > u64::MAX {
        AdapterOutcome::Failed
    } else {
        let row_opt = if is_debug_frame {
            debug_frame_cfi_row(
                section,
                bases.eh_frame_hdr_svma,
                bases.eh_frame_svma,
                bases.text_svma,
                bases.got_svma,
                fde_offset,
                (base_svma + rel_pc) as u64,
            )
        } else {
            eh_frame_cfi_row(
                section,
                bases.eh_frame_hdr_svma,
                bases.eh_frame_svma,
                bases.text_svma,
                bases.got_svma,
                fde_offset,
                (base_svma + rel_pc) as u64,
            )
        };
        match row_opt {
            None => AdapterOutcome::Failed,
            Some(row) => match spec_translate(row) {
                Some(rule) => AdapterOutcome::Rule(rule),
                None => AdapterOutcome::DirectRecovery(row),
            },
        }
    }
}

/// Evaluate the CFI of the FDE at `fde_offset` up to the frame's relative
/// address and unwind one frame with the result: a row that one of the small
/// rules expresses is returned for caching and execution, any other row is
/// executed directly and yields an uncacheable concrete return address.
pub fn unwind_frame_with_fde<R: ReadStack>(
    section: &[u8],
    is_debug_frame: bool,
    bases: &SectionBases,
    base_svma: u64,
    regs: &mut UnwindRegsX86_64,
    rel_pc: u32,
    fde_offset: u32,
    read_stack: &mut R,
) -> (r: Result<UnwindResult, DwarfUnwinderError>)
    ensures
        // The two failures that are not the row's own are named exactly.
        base_svma + rel_pc > u64::MAX <==> r == Err::<UnwindResult, DwarfUnwinderError>(
            DwarfUnwinderError::LookupAddressOverflow,
        ),
        r == Err::<UnwindResult, DwarfUnwinderError>(DwarfUnwinderError::RowLookupFailed)
            <==> base_svma + rel_pc <= u64::MAX && (if is_debug_frame {
            debug_frame_cfi_row(
                section@,
                bases.eh_frame_hdr_svma,
                bases.eh_frame_svma,
                bases.text_svma,
                bases.got_svma,
                fde_offset,
                (base_svma + rel_pc) as u64,
            )
        } else {
            eh_frame_cfi_row(
                section@,
                bases.eh_frame_hdr_svma,
                bases.eh_frame_svma,
                bases.text_svma,
                bases.got_svma,
                fde_offset,
                (base_svma + rel_pc) as u64,
            )
        }) is None,
        // The result follows the outcome the section dictates.
        ({
            let outcome = spec_dwarf_outcome(
                section@,
                is_debug_frame,
                *bases,
                base_svma,
                rel_pc,
                fde_offset,
            );
            &&& (match outcome {
                AdapterOutcome::Rule(rule) => r == Ok::<UnwindResult, DwarfUnwinderError>(
                    UnwindResult::ExecRule(rule),
                ) && *final(regs) == *old(regs) && *final(read_stack) == *old(read_stack),
                AdapterOutcome::Failed => r is Err && *final(regs) == *old(regs)
                    && *final(read_stack) == *old(read_stack),
                AdapterOutcome::DirectRecovery(row) => {
                    &&& (r matches Ok(u) ==> u is Uncacheable)
                    &&& (r matches Ok(UnwindResult::Uncacheable(ra)) ==> spec_row_executable(row)
                        && spec_row_addresses_ok(row, old(regs).sp(), old(regs).bp()) && (
                    spec_cfa_value(row, old(regs).sp(), old(regs).bp()) matches Some(cfa)
                        && final(regs).sp() as int == cfa && final(regs).ip() == ra && ((row.bp is SameValue
                        || row.bp is Undefined) ==> final(regs).bp() == old(regs).bp())))
                    &&& (r is Err ==> *final(regs) == *old(regs))
                },
            })
        }),
{
    let pc_svma = match base_svma.checked_add(rel_pc as u64) {
        Some(v) => v,
        None => {
            return Err(DwarfUnwinderError::LookupAddressOverflow);
        },
    };
    let row_opt = fetch_cfi_row(section, is_debug_frame, bases, fde_offset, pc_svma);
    let row = match row_opt {
        Some(row) => row,
        None => {
            return Err(DwarfUnwinderError::RowLookupFailed);
        },
    };
    match translate_into_unwind_rule(&row) {
        Some(rule) => Ok(UnwindResult::ExecRule(rule)),
        None => {
            let ra = exec_cfi_row(&row, regs, read_stack)?;
            Ok(UnwindResult::Uncacheable(ra))
        },
    }
}

} // verus!
