//! The Apple Compact Unwind Info adapter (Mach-O path).
//!
//! The `__unwind_info` section maps each function to one fixed-width opcode
//! summarising its prologue. The table lookup and the bit-level opcode
//! decoding are the `macho_unwind_info` crate's work and are trusted;
//! turning a decoded opcode into an unwind rule — including the first-frame
//! heuristics for prologues and epilogues the format ignores — is verified
//! library code.

use vstd::prelude::*;

use macho_unwind_info::opcodes::OpcodeX86_64;

use crate::error::CompactUnwindInfoUnwinderError;
use crate::unwind_rule::UnwindRuleX86_64;

verus! {

/// The register code for `rbp` in a decoded opcode's saved-register list.
/// The codes are the declaration order of the decoder's register names.
pub const COMPACT_REG_RBP: u8 = 5;

/// One function's entry in the `__unwind_info` tables.
#[derive(Clone, Copy, Debug, PartialEq, Eq, Structural)]
pub struct FunctionEntry {
    /// The relative address where the function starts.
    pub start_address: u32,
    /// The relative address where the function ends (the next function's
    /// start, including padding).
    pub end_address: u32,
    /// The function's raw compact unwind opcode.
    pub opcode: u32,
}

/// A decoded x86-64 compact unwind opcode. Saved registers are given as
/// codes, [`COMPACT_REG_RBP`] being the frame pointer; a list may have
/// leading `None`s.
#[allow(inconsistent_fields)]
#[derive(Clone, Copy, Debug, PartialEq, Eq)]
pub enum CompactOpcode {
    /// The function has no unwind information.
    Null,
    /// The function builds a frame with `rbp`.
    FrameBased { stack_offset_in_bytes: u16, saved_regs: [Option<u8>; 5] },
    /// The function keeps a fixed-size frame without `rbp`; the size is in
    /// the opcode.
    FramelessImmediate { stack_size_in_bytes: u16, saved_regs: [Option<u8>; 6] },
    /// The function keeps a fixed-size frame without `rbp`; the size sits in
    /// a `sub` instruction's immediate inside the function's code.
    FramelessIndirect {
        immediate_offset_from_function_start: u8,
        stack_adjust_in_bytes: u8,
        saved_regs: [Option<u8>; 6],
    },
    /// The unwind information is the DWARF FDE at this `__eh_frame` offset.
    Dwarf { eh_frame_fde: u32 },
    /// The frameless opcode's register permutation was invalid.
    InvalidFrameless,
    /// An opcode kind the decoder does not know.
    UnrecognizedKind(u8),
}

/// What the compact-unwind adapter produced for a frame: a rule to execute,
/// or a hand-off to the DWARF adapter at the given FDE offset.
#[derive(Clone, Copy, Debug, PartialEq, Eq, Structural)]
pub enum CuiUnwindResult {
    ExecRule(UnwindRuleX86_64),
    NeedDwarf(u32),
}

/// The page kind of a regular second-level page.
pub const PAGE_KIND_REGULAR: u32 = 2;

/// The page kind of a compressed second-level page.
pub const PAGE_KIND_COMPRESSED: u32 = 3;

/// The first-level table of a `__unwind_info` section: the page entries as
/// `(first_address, page_offset)` pairs — the last entry is the sentinel
/// that only bounds the covered range — and the global opcode palette.
/// Nothing when the header or a table lies outside the section. A function
/// of the bytes alone.
pub uninterp spec fn unwind_info_pages_of(data: Seq<u8>) -> Option<(Seq<(u32, u32)>, Seq<u32>)>;

/// The kind word of the second-level page at the given offset; nothing when
/// it lies outside the section.
pub uninterp spec fn page_kind_of(data: Seq<u8>, page_offset: u32) -> Option<u32>;

/// A regular page's function entries as `(address, opcode)` pairs; nothing
/// when the page or its table lies outside the section.
pub uninterp spec fn regular_functions_of(data: Seq<u8>, page_offset: u32) -> Option<
    Seq<(u32, u32)>,
>;

/// A compressed page's packed function entries and its local opcode
/// palette; nothing when the page or a table lies outside the section.
pub uninterp spec fn compressed_page_of(data: Seq<u8>, page_offset: u32) -> Option<
    (Seq<u32>, Seq<u32>),
>;

/// Relies on `macho_unwind_info::raw`'s `CompactUnwindInfoHeader` accessors:
/// bounds-checked reads of the page table and the global opcode palette.
#[verifier::external_body]
fn collect_unwind_info_pages(data: &[u8]) -> (r: Option<(Vec<(u32, u32)>, Vec<u32>)>)
    ensures
        r is Some <==> unwind_info_pages_of(data@) is Some,
        r matches Some(v) ==> unwind_info_pages_of(data@) == Some((v.0@, v.1@)),
{
    let header = match macho_unwind_info::raw::CompactUnwindInfoHeader::parse(data) { Ok(h) => h, Err(_) => return None };
    let pages = match header.pages(data) { Ok(p) => p, Err(_) => return None };
    let opcodes = match header.global_opcodes(data) { Ok(o) => o, Err(_) => return None };
    let mut ps: Vec<(u32, u32)> = Vec::new();
    for p in pages {
        ps.push((p.first_address(), p.page_offset()));
    }
    let mut os: Vec<u32> = Vec::new();
    for o in opcodes {
        os.push(o.opcode());
    }
    Some((ps, os))
}

/// Relies on `macho_unwind_info::raw::RegularPage::parse`: a bounds-checked
/// read of the page header, whose first word is the kind in both page
/// layouts.
#[verifier::external_body]
fn fetch_page_kind(data: &[u8], page_offset: u32) -> (r: Option<u32>)
    ensures
        r == page_kind_of(data@, page_offset),
{
    let page = match macho_unwind_info::raw::RegularPage::parse(data, page_offset as u64) { Ok(p) => p, Err(_) => return None };
    let kind: u32 = page.kind.into();
    Some(kind)
}

/// Relies on `macho_unwind_info::raw::RegularPage`'s accessors:
/// bounds-checked reads of a regular page's function entries.
#[verifier::external_body]
fn collect_regular_functions(data: &[u8], page_offset: u32) -> (r: Option<Vec<(u32, u32)>>)
    ensures
        r is Some <==> regular_functions_of(data@, page_offset) is Some,
        r matches Some(v) ==> regular_functions_of(data@, page_offset) == Some(v@),
{
    let page = match macho_unwind_info::raw::RegularPage::parse(data, page_offset as u64) { Ok(p) => p, Err(_) => return None };
    let functions = match page.functions(data, page_offset) { Ok(f) => f, Err(_) => return None };
    let mut v: Vec<(u32, u32)> = Vec::new();
    for f in functions {
        v.push((f.address(), f.opcode()));
    }
    Some(v)
}

/// Relies on `macho_unwind_info::raw::CompressedPage`'s accessors:
/// bounds-checked reads of a compressed page's packed entries and local
/// opcode palette.
#[verifier::external_body]
fn collect_compressed_page(data: &[u8], page_offset: u32) -> (r: Option<(Vec<u32>, Vec<u32>)>)
    ensures
        r is Some <==> compressed_page_of(data@, page_offset) is Some,
        r matches Some(v) ==> compressed_page_of(data@, page_offset) == Some((v.0@, v.1@)),
{
    let page = match macho_unwind_info::raw::CompressedPage::parse(data, page_offset as u64) { Ok(p) => p, Err(_) => return None };
    let functions = match page.functions(data, page_offset) { Ok(f) => f, Err(_) => return None };
    let locals = match page.local_opcodes(data, page_offset) { Ok(o) => o, Err(_) => return None };
    let mut fs: Vec<u32> = Vec::new();
    for f in functions {
        fs.push((*f).into());
    }
    let mut ls: Vec<u32> = Vec::new();
    for o in locals {
        ls.push(o.opcode());
    }
    Some((fs, ls))
}

/// The index of the last entry whose first component is at or before `key`;
/// in the sorted tables of a well-formed section this is what the format's
/// binary search finds.
pub open spec fn spec_last_le(s: Seq<(u32, u32)>, key: u32) -> Option<int>
    decreases s.len(),
{
    if s.len() == 0 {
        None
    } else if s.last().0 <= key {
        Some(s.len() - 1)
    } else {
        spec_last_le(s.drop_last(), key)
    }
}

/// A compressed page's entries unpacked: the low 24 bits are the function's
/// address relative to the page, the high 8 bits index the opcode palettes.
pub open spec fn spec_keyed_entries(entries: Seq<u32>) -> Seq<(u32, u32)> {
    Seq::new(entries.len(), |i: int| (entries[i] & 0xffffff, entries[i] >> 24))
}

/// The entry of a regular page for `pc`; the entry's end is the next
/// function's start, or the next page's first address for the last one.
pub open spec fn spec_regular_entry(
    functions: Seq<(u32, u32)>,
    pc: u32,
    next_first: u32,
) -> Option<FunctionEntry> {
    match spec_last_le(functions, pc) {
        None => None,
        Some(fi) => Some(
            FunctionEntry {
                start_address: functions[fi].0,
                end_address: if fi + 1 < functions.len() {
                    functions[fi + 1].0
                } else {
                    next_first
                },
                opcode: functions[fi].1,
            },
        ),
    }
}

/// The entry of a compressed page for `pc`: the packed entries are searched
/// by relative address, and the opcode index picks from the global palette
/// first, then the page's local palette; an index past both, or an address
/// leaving 32 bits, is a miss.
pub open spec fn spec_compressed_entry(
    entries: Seq<u32>,
    locals: Seq<u32>,
    globals: Seq<u32>,
    page_address: u32,
    pc: u32,
    next_first: u32,
) -> Option<FunctionEntry> {
    if pc < page_address {
        None
    } else {
        let keyed = spec_keyed_entries(entries);
        match spec_last_le(keyed, (pc - page_address) as u32) {
            None => None,
            Some(fi) => {
                if page_address + keyed[fi].0 > u32::MAX {
                    None
                } else if fi + 1 < keyed.len() && page_address + keyed[fi + 1].0 > u32::MAX {
                    None
                } else {
                    let start = (page_address + keyed[fi].0) as u32;
                    let end = if fi + 1 < keyed.len() {
                        (page_address + keyed[fi + 1].0) as u32
                    } else {
                        next_first
                    };
                    let oi = keyed[fi].1;
                    if oi < globals.len() {
                        Some(
                            FunctionEntry {
                                start_address: start,
                                end_address: end,
                                opcode: globals[oi as int],
                            },
                        )
                    } else if oi - globals.len() < locals.len() {
                        Some(
                            FunctionEntry {
                                start_address: start,
                                end_address: end,
                                opcode: locals[oi - globals.len()],
                            },
                        )
                    } else {
                        None
                    }
                }
            },
        }
    }
}

/// The function entry that a `__unwind_info` lookup yields for a relative
/// address: the covering page's entry for the address, or nothing when the
/// section is malformed or no entry covers the address. The search is over
/// the tables the trusted collectors hand out; see [`lookup_function`].
pub open spec fn function_entry_of(data: Seq<u8>, pc: u32) -> Option<FunctionEntry> {
    match unwind_info_pages_of(data) {
        None => None,
        Some((pages, globals)) => match spec_last_le(pages, pc) {
            None => None,
            Some(pi) => {
                if pi + 1 >= pages.len() {
                    None
                } else {
                    let page_address = pages[pi].0;
                    let page_offset = pages[pi].1;
                    let next_first = pages[pi + 1].0;
                    match page_kind_of(data, page_offset) {
                        None => None,
                        Some(kind) => {
                            if kind == PAGE_KIND_REGULAR {
                                match regular_functions_of(data, page_offset) {
                                    None => None,
                                    Some(functions) => spec_regular_entry(
                                        functions,
                                        pc,
                                        next_first,
                                    ),
                                }
                            } else if kind == PAGE_KIND_COMPRESSED {
                                match compressed_page_of(data, page_offset) {
                                    None => None,
                                    Some((entries, locals)) => spec_compressed_entry(
                                        entries,
                                        locals,
                                        globals,
                                        page_address,
                                        pc,
                                        next_first,
                                    ),
                                }
                            } else {
                                None
                            }
                        },
                    }
                }
            },
        },
    }
}

/// The index of the last entry starting at or before `key`, scanning from
/// the table's end; see [`spec_last_le`].
fn last_le_pair(v: &Vec<(u32, u32)>, key: u32) -> (r: Option<usize>)
    ensures
        (match r {
            Some(i) => i < v@.len() && spec_last_le(v@, key) == Some(i as int),
            None => spec_last_le(v@, key) is None,
        }),
{
    proof {
        assert(v@.take(v@.len() as int) =~= v@);
    }
    let mut i: usize = v.len();
    while i > 0
        invariant
            i <= v@.len(),
            spec_last_le(v@, key) == spec_last_le(v@.take(i as int), key),
        decreases i,
    {
        i -= 1;
        proof {
            assert(v@.take(i as int + 1).drop_last() =~= v@.take(i as int));
            assert(v@.take(i as int + 1).last() == v@[i as int]);
        }
        if v[i].0 <= key {
            return Some(i);
        }
    }
    None
}

/// Unpack a compressed page's entries; see [`spec_keyed_entries`].
fn keyed_entries(entries: &Vec<u32>) -> (r: Vec<(u32, u32)>)
    ensures
        r@ == spec_keyed_entries(entries@),
{
    let mut v: Vec<(u32, u32)> = Vec::new();
    let mut i: usize = 0;
    while i < entries.len()
        invariant
            i <= entries@.len(),
            v@.len() == i,
            forall|k: int|
                0 <= k < i ==> v@[k] == (entries@[k] & 0xffffff, entries@[k] >> 24),
        decreases entries@.len() - i,
    {
        let e = entries[i];
        v.push((e & 0xffffff, e >> 24));
        i += 1;
    }
    proof {
        assert(v@ =~= spec_keyed_entries(entries@));
    }
    v
}

/// Look up the function entry covering a relative address in the
/// `__unwind_info` tables: find the covering page, then the covering entry
/// within it, resolving compressed opcodes through the palettes. The tables
/// are handed out by the trusted collectors with bounds-checked reads, and
/// the searches and palette indexing are verified here, so no section —
/// however malformed — can make the lookup abort; every failure is a miss.
/// The tables are scanned on each call; the dispatcher reaches here only on
/// a cache miss.
fn lookup_function(unwind_info: &[u8], pc: u32) -> (r: Option<FunctionEntry>)
    ensures
        r == function_entry_of(unwind_info@, pc),
{
    let (pages, globals) = match collect_unwind_info_pages(unwind_info) {
        Some(v) => v,
        None => {
            return None;
        },
    };
    let pi = match last_le_pair(&pages, pc) {
        Some(i) => i,
        None => {
            return None;
        },
    };
    if pi + 1 >= pages.len() {
        return None;
    }
    let (page_address, page_offset) = pages[pi];
    let next_first = pages[pi + 1].0;
    let kind = match fetch_page_kind(unwind_info, page_offset) {
        Some(k) => k,
        None => {
            return None;
        },
    };
    if kind == PAGE_KIND_REGULAR {
        let functions = match collect_regular_functions(unwind_info, page_offset) {
            Some(f) => f,
            None => {
                return None;
            },
        };
        let fi = match last_le_pair(&functions, pc) {
            Some(i) => i,
            None => {
                return None;
            },
        };
        let end = if fi + 1 < functions.len() {
            functions[fi + 1].0
        } else {
            next_first
        };
        Some(
            FunctionEntry {
                start_address: functions[fi].0,
                end_address: end,
                opcode: functions[fi].1,
            },
        )
    } else if kind == PAGE_KIND_COMPRESSED {
        let (entries, locals) = match collect_compressed_page(unwind_info, page_offset) {
            Some(v) => v,
            None => {
                return None;
            },
        };
        if pc < page_address {
            return None;
        }
        let keyed = keyed_entries(&entries);
        let fi = match last_le_pair(&keyed, pc - page_address) {
            Some(i) => i,
            None => {
                return None;
            },
        };
        let start = match page_address.checked_add(keyed[fi].0) {
            Some(v) => v,
            None => {
                return None;
            },
        };
        let end = if fi + 1 < keyed.len() {
            match page_address.checked_add(keyed[fi + 1].0) {
                Some(v) => v,
                None => {
                    return None;
                },
            }
        } else {
            next_first
        };
        let oi = keyed[fi].1 as usize;
        let opcode = if oi < globals.len() {
            globals[oi]
        } else if oi - globals.len() < locals.len() {
            locals[oi - globals.len()]
        } else {
            return None;
        };
        Some(FunctionEntry { start_address: start, end_address: end, opcode })
    } else {
        None
    }
}

/// The decoded form of a raw x86-64 compact unwind opcode: a function of the
/// 32 opcode bits alone.
pub uninterp spec fn opcode_of(opcode: u32) -> CompactOpcode;

/// Relies on `macho_unwind_info::opcodes::OpcodeX86_64::parse`: decode one
/// opcode. Each variant is carried over one for one, with register names
/// turned into their declaration-order codes.
#[verifier::external_body]
fn parse_opcode(opcode: u32) -> (r: CompactOpcode)
    ensures
        r == opcode_of(opcode),
{
    match OpcodeX86_64::parse(opcode) {
        OpcodeX86_64::Null => CompactOpcode::Null,
        OpcodeX86_64::FrameBased { stack_offset_in_bytes, saved_regs } => CompactOpcode::FrameBased { stack_offset_in_bytes, saved_regs: saved_regs.map(|o| o.map(|r| r as u8)) },
        OpcodeX86_64::FramelessImmediate { stack_size_in_bytes, saved_regs } => CompactOpcode::FramelessImmediate { stack_size_in_bytes, saved_regs: saved_regs.map(|o| o.map(|r| r as u8)) },
        OpcodeX86_64::FramelessIndirect { immediate_offset_from_function_start, stack_adjust_in_bytes, saved_regs } => CompactOpcode::FramelessIndirect { immediate_offset_from_function_start, stack_adjust_in_bytes, saved_regs: saved_regs.map(|o| o.map(|r| r as u8)) },
        OpcodeX86_64::Dwarf { eh_frame_fde } => CompactOpcode::Dwarf { eh_frame_fde },
        OpcodeX86_64::InvalidFrameless => CompactOpcode::InvalidFrameless,
        OpcodeX86_64::UnrecognizedKind(kind) => CompactOpcode::UnrecognizedKind(kind),
    }
}

/// Where `rbp` sits in a saved-register list, counted from the outside of
/// the frame: scan the list from its end toward its start, skipping empty
/// slots, and count the filled slots passed before `rbp` is found.
pub open spec fn spec_bp_position_from_outside(regs: Seq<Option<u8>>, i: int, count: int) -> Option<
    int,
>
    decreases i,
{
    if i <= 0 {
        None
    } else {
        match regs[i - 1] {
            Some(r) => if r == COMPACT_REG_RBP {
                Some(count)
            } else {
                spec_bp_position_from_outside(regs, i - 1, count + 1)
            },
            None => spec_bp_position_from_outside(regs, i - 1, count),
        }
    }
}

/// `x / 8`, rounded toward zero, as the executable division does it.
pub open spec fn spec_div8_trunc(x: int) -> int {
    if x >= 0 {
        x / 8
    } else {
        -((-x) / 8)
    }
}

/// The rule for a frameless function of the given stack size: restore `rbp`
/// from its saved slot when the list names it, else only move the stack
/// pointer.
pub open spec fn spec_frameless_rule(stack_size_in_bytes: int, regs: Seq<Option<u8>>) -> Result<
    CuiUnwindResult,
    CompactUnwindInfoUnwinderError,
> {
    match spec_bp_position_from_outside(regs, regs.len() as int, 0) {
        Some(pos) => {
            let bp_offset_from_sp = stack_size_in_bytes - 16 - 8 * pos;
            if i16::MIN <= spec_div8_trunc(bp_offset_from_sp) <= i16::MAX {
                Ok(
                    CuiUnwindResult::ExecRule(
                        UnwindRuleX86_64::OffsetSpAndRestoreBp {
                            sp_offset_by_8: (stack_size_in_bytes / 8) as u16,
                            bp_storage_offset_from_sp_by_8: spec_div8_trunc(
                                bp_offset_from_sp,
                            ) as i16,
                        },
                    ),
                )
            } else {
                Err(CompactUnwindInfoUnwinderError::BpOffsetDoesNotFit)
            }
        },
        None => Ok(
            CuiUnwindResult::ExecRule(
                UnwindRuleX86_64::OffsetSp { sp_offset_by_8: (stack_size_in_bytes / 8) as u16 },
            ),
        ),
    }
}

/// A little-endian 32-bit integer read from four bytes.
pub open spec fn spec_u32_le(b0: u8, b1: u8, b2: u8, b3: u8) -> int {
    b0 + 0x100 * b1 + 0x1_0000 * b2 + 0x100_0000 * b3
}

/// The canonical x86-64 frame prologue `push rbp; mov rbp, rsp`.
pub open spec fn spec_starts_with_fp_prologue(bytes: Seq<u8>) -> bool {
    bytes.len() >= 4 && bytes[0] == 0x55 && bytes[1] == 0x48 && bytes[2] == 0x89 && bytes[3] == 0xe5
}

/// What the adapter decides for a decoded opcode; see
/// [`unwind_frame_with_opcode`].
pub open spec fn spec_cui_result(
    opcode: CompactOpcode,
    is_first_frame: bool,
    function_bytes: Option<Seq<u8>>,
    analysis_rule: Option<UnwindRuleX86_64>,
) -> Result<CuiUnwindResult, CompactUnwindInfoUnwinderError> {
    if is_first_frame && function_bytes is Some && analysis_rule is Some {
        Ok(CuiUnwindResult::ExecRule(analysis_rule->Some_0))
    } else if is_first_frame && opcode is Null && function_bytes is Some
        && spec_starts_with_fp_prologue(function_bytes->Some_0) {
        Ok(CuiUnwindResult::ExecRule(UnwindRuleX86_64::UseFramePointer))
    } else if is_first_frame && opcode is Null {
        Ok(CuiUnwindResult::ExecRule(UnwindRuleX86_64::JustReturn))
    } else {
        match opcode {
            CompactOpcode::Null => Err(CompactUnwindInfoUnwinderError::FunctionHasNoInfo),
            CompactOpcode::FrameBased { .. } => Ok(
                CuiUnwindResult::ExecRule(UnwindRuleX86_64::UseFramePointer),
            ),
            CompactOpcode::FramelessImmediate { stack_size_in_bytes, saved_regs } => {
                if stack_size_in_bytes == 8 {
                    Ok(CuiUnwindResult::ExecRule(UnwindRuleX86_64::JustReturn))
                } else {
                    spec_frameless_rule(stack_size_in_bytes as int, saved_regs@)
                }
            },
            CompactOpcode::FramelessIndirect {
                immediate_offset_from_function_start,
                stack_adjust_in_bytes,
                saved_regs,
            } => {
                match function_bytes {
                    None => Err(
                        CompactUnwindInfoUnwinderError::NoTextBytesToLookUpIndirectStackOffset,
                    ),
                    Some(b) => {
                        if immediate_offset_from_function_start + 4 > b.len() {
                            Err(CompactUnwindInfoUnwinderError::IndirectStackOffsetOutOfBounds)
                        } else {
                            let off = immediate_offset_from_function_start as int;
                            let sub_immediate = spec_u32_le(
                                b[off],
                                b[off + 1],
                                b[off + 2],
                                b[off + 3],
                            );
                            if sub_immediate + stack_adjust_in_bytes > u32::MAX {
                                Err(CompactUnwindInfoUnwinderError::StackAdjustOverflow)
                            } else {
                                let stack_size = sub_immediate + stack_adjust_in_bytes;
                                if stack_size / 8 > u16::MAX {
                                    Err(CompactUnwindInfoUnwinderError::StackSizeDoesNotFit)
                                } else {
                                    spec_frameless_rule(stack_size, saved_regs@)
                                }
                            }
                        }
                    },
                }
            },
            CompactOpcode::Dwarf { eh_frame_fde } => Ok(CuiUnwindResult::NeedDwarf(eh_frame_fde)),
            CompactOpcode::InvalidFrameless => Err(
                CompactUnwindInfoUnwinderError::InvalidFrameless,
            ),
            CompactOpcode::UnrecognizedKind(kind) => Err(
                CompactUnwindInfoUnwinderError::BadOpcodeKind(kind),
            ),
        }
    }
}

/// Where `rbp` sits in the saved-register list, counted from the outside of
/// the frame.
fn bp_position_from_outside(saved_regs: &[Option<u8>; 6]) -> (r: Option<u32>)
    ensures
        spec_bp_position_from_outside(saved_regs@, 6, 0) matches Some(p) ==> 0 <= p < 6 && r
            == Some(p as u32),
        spec_bp_position_from_outside(saved_regs@, 6, 0) is None ==> r is None,
{
    let mut i: usize = 6;
    let mut count: u32 = 0;
    while i > 0
        invariant
            i <= 6,
            count <= 6 - i,
            saved_regs@.len() == 6,
            spec_bp_position_from_outside(saved_regs@, 6, 0) == (
            match spec_bp_position_from_outside(saved_regs@, i as int, count as int) {
                Some(p) => Some(p),
                None => None::<int>,
            }),
        decreases i,
    {
        i -= 1;
        match saved_regs[i] {
            Some(r) => {
                if r == COMPACT_REG_RBP {
                    proof {
                        assert(spec_bp_position_from_outside(saved_regs@, i + 1, count as int)
                            == Some(count as int));
                    }
                    return Some(count);
                }
                count += 1;
            },
            None => {},
        }
    }
    None
}

/// Turn a function's decoded opcode into an unwind rule or a DWARF hand-off.
///
/// On the innermost frame the instruction pointer may sit in a prologue or
/// epilogue, which the opcode ignores; a rule recovered by instruction
/// analysis of the function's bytes — supplied by the caller, the analysis
/// itself is outside this library — wins over the opcode, an uncovered
/// function that begins with the canonical frame prologue is unwound by
/// frame pointer, and an uncovered address is taken to be a function start.
pub fn unwind_frame_with_opcode(
    opcode: &CompactOpcode,
    is_first_frame: bool,
    function_bytes: Option<&[u8]>,
    analysis_rule: Option<UnwindRuleX86_64>,
) -> (r: Result<CuiUnwindResult, CompactUnwindInfoUnwinderError>)
    ensures
        r == spec_cui_result(
            *opcode,
            is_first_frame,
            match function_bytes {
                Some(b) => Some(b@),
                None => None::<Seq<u8>>,
            },
            analysis_rule,
        ),
{
    if is_first_frame {
        if let Some(bytes) = function_bytes {
            if let Some(rule) = analysis_rule {
                return Ok(CuiUnwindResult::ExecRule(rule));
            }
            if matches!(opcode, CompactOpcode::Null) && bytes.len() >= 4 && bytes[0] == 0x55
                && bytes[1] == 0x48 && bytes[2] == 0x89 && bytes[3] == 0xe5 {
                return Ok(CuiUnwindResult::ExecRule(UnwindRuleX86_64::UseFramePointer));
            }
        }
        if matches!(opcode, CompactOpcode::Null) {
            return Ok(CuiUnwindResult::ExecRule(UnwindRuleX86_64::JustReturn));
        }
    }
    match opcode {
        CompactOpcode::Null => Err(CompactUnwindInfoUnwinderError::FunctionHasNoInfo),
        CompactOpcode::FrameBased { .. } => Ok(
            CuiUnwindResult::ExecRule(UnwindRuleX86_64::UseFramePointer),
        ),
        CompactOpcode::FramelessImmediate { stack_size_in_bytes, saved_regs } => {
            if *stack_size_in_bytes == 8 {
                Ok(CuiUnwindResult::ExecRule(UnwindRuleX86_64::JustReturn))
            } else {
                frameless_rule(*stack_size_in_bytes as u32, saved_regs)
            }
        },
        CompactOpcode::FramelessIndirect {
            immediate_offset_from_function_start,
            stack_adjust_in_bytes,
            saved_regs,
        } => {
            let bytes = match function_bytes {
                Some(b) => b,
                None => {
                    return Err(
                        CompactUnwindInfoUnwinderError::NoTextBytesToLookUpIndirectStackOffset,
                    );
                },
            };
            let off = *immediate_offset_from_function_start as usize;
            if off + 4 > bytes.len() {
                return Err(CompactUnwindInfoUnwinderError::IndirectStackOffsetOutOfBounds);
            }
            let sub_immediate: u32 = (bytes[off] as u32) + 0x100 * (bytes[off + 1] as u32)
                + 0x1_0000 * (bytes[off + 2] as u32) + 0x100_0000 * (bytes[off + 3] as u32);
            let stack_size = match sub_immediate.checked_add(*stack_adjust_in_bytes as u32) {
                Some(v) => v,
                None => {
                    return Err(CompactUnwindInfoUnwinderError::StackAdjustOverflow);
                },
            };
            if stack_size / 8 > u16::MAX as u32 {
                return Err(CompactUnwindInfoUnwinderError::StackSizeDoesNotFit);
            }
            frameless_rule(stack_size, saved_regs)
        },
        CompactOpcode::Dwarf { eh_frame_fde } => Ok(CuiUnwindResult::NeedDwarf(*eh_frame_fde)),
        CompactOpcode::InvalidFrameless => Err(CompactUnwindInfoUnwinderError::InvalidFrameless),
        CompactOpcode::UnrecognizedKind(kind) => Err(
            CompactUnwindInfoUnwinderError::BadOpcodeKind(*kind),
        ),
    }
}

/// Unwind one frame through the `__unwind_info` tables, running the given
/// prologue and epilogue analysis on the innermost frame; the analysis sees
/// the covering function's bytes and the lookup offset within the function.
/// Apart from where the first-frame hint comes from, this decides exactly
/// as [`unwind_frame_compact`] does.
pub fn unwind_frame_compact_with_analysis<A: InstructionAnalysis>(
    unwind_info: &[u8],
    text_bytes: Option<TextBytes<'_>>,
    stubs: (u32, u32),
    stub_helper: (u32, u32),
    rel_pc: u32,
    is_first_frame: bool,
    analysis: &A,
) -> (r: Result<CuiUnwindResult, CompactUnwindInfoUnwinderError>)
    ensures
        // The analysis carries no contract, so its contribution is
        // quantified: the result is the adapter's decision for some
        // first-frame hint. With no analysis in play the hint is fixed at
        // nothing; see [`unwind_frame_compact`] for that exact form.
        exists|hint: Option<UnwindRuleX86_64>|
            r == #[trigger] spec_compact_unwind(
                unwind_info@,
                spec_text_view(text_bytes),
                stubs,
                stub_helper,
                rel_pc,
                is_first_frame,
                hint,
            ),
{
    let ghost text_g: Option<(u32, Seq<u8>)> = spec_text_view(text_bytes);
    if (stubs.0 <= rel_pc && rel_pc < stubs.1) || (stub_helper.0 <= rel_pc && rel_pc
        < stub_helper.1) {
        let result = Ok(CuiUnwindResult::ExecRule(UnwindRuleX86_64::rule_for_stub_functions()));
        proof {
            assert(result == spec_compact_unwind(
                unwind_info@,
                text_g,
                stubs,
                stub_helper,
                rel_pc,
                is_first_frame,
                None,
            ));
        }
        return result;
    }
    let f = match lookup_function(unwind_info, rel_pc) {
        Some(f) => f,
        None => {
            let result = Err(CompactUnwindInfoUnwinderError::CouldNotFindFunctionForAddress);
            proof {
                assert(result == spec_compact_unwind(
                    unwind_info@,
                    text_g,
                    stubs,
                    stub_helper,
                    rel_pc,
                    is_first_frame,
                    None,
                ));
            }
            return result;
        },
    };
    let function_bytes: Option<&[u8]> = match &text_bytes {
        Some(t) => {
            if f.start_address >= t.offset_from_base && f.start_address <= f.end_address && ((
            f.end_address - t.offset_from_base) as usize) <= t.bytes.len() {
                Some(
                    &t.bytes[(f.start_address - t.offset_from_base) as usize..(f.end_address
                        - t.offset_from_base) as usize],
                )
            } else {
                None
            }
        },
        None => None,
    };
    let analysis_rule: Option<UnwindRuleX86_64> = if is_first_frame {
        match function_bytes {
            Some(bytes) => {
                let offset_within_function: u32 = if rel_pc >= f.start_address {
                    rel_pc - f.start_address
                } else {
                    0
                };
                analysis.rule_from_instruction_analysis(bytes, offset_within_function as usize)
            },
            None => None,
        }
    } else {
        None
    };
    let opcode = parse_opcode(f.opcode);
    let result = unwind_frame_with_opcode(&opcode, is_first_frame, function_bytes, analysis_rule);
    proof {
        assert(result == spec_compact_unwind(
            unwind_info@,
            text_g,
            stubs,
            stub_helper,
            rel_pc,
            is_first_frame,
            analysis_rule,
        ));
    }
    result
}

/// The rule for a frameless function; see [`spec_frameless_rule`].
fn frameless_rule(stack_size_in_bytes: u32, saved_regs: &[Option<u8>; 6]) -> (r: Result<
    CuiUnwindResult,
    CompactUnwindInfoUnwinderError,
>)
    requires
        stack_size_in_bytes / 8 <= u16::MAX,
    ensures
        r == spec_frameless_rule(stack_size_in_bytes as int, saved_regs@),
{
    let sp_offset_by_8: u16 = (stack_size_in_bytes / 8) as u16;
    match bp_position_from_outside(saved_regs) {
        Some(pos) => {
            let bp_offset_from_sp: i64 = stack_size_in_bytes as i64 - 16 - (pos as i64) * 8;
            let q: i64 = if bp_offset_from_sp >= 0 {
                bp_offset_from_sp / 8
            } else {
                -((-bp_offset_from_sp) / 8)
            };
            if i16::MIN as i64 <= q && q <= i16::MAX as i64 {
                Ok(
                    CuiUnwindResult::ExecRule(
                        UnwindRuleX86_64::OffsetSpAndRestoreBp {
                            sp_offset_by_8,
                            bp_storage_offset_from_sp_by_8: q as i16,
                        },
                    ),
                )
            } else {
                Err(CompactUnwindInfoUnwinderError::BpOffsetDoesNotFit)
            }
        },
        None => Ok(CuiUnwindResult::ExecRule(UnwindRuleX86_64::OffsetSp { sp_offset_by_8 })),
    }
}

/// Raw instruction bytes of (a part of) the module's text, with the relative
/// address their first byte sits at. Supplied so that the adapter can apply
/// first-frame heuristics and read frameless-indirect immediates.
pub struct TextBytes<'a> {
    /// The relative address of `bytes[0]`.
    pub offset_from_base: u32,
    /// The raw instruction bytes.
    pub bytes: &'a [u8],
}

/// The supplied text bytes as a plain value: the starting relative address
/// and the byte sequence.
pub open spec fn spec_text_view(text_bytes: Option<TextBytes<'_>>) -> Option<(u32, Seq<u8>)> {
    match text_bytes {
        Some(t) => Some((t.offset_from_base, t.bytes@)),
        None => None,
    }
}

/// The bytes of the function an entry covers, cut from the module's text:
/// present exactly when the text range covers the whole function.
pub open spec fn spec_function_bytes(text: Option<(u32, Seq<u8>)>, f: FunctionEntry) -> Option<
    Seq<u8>,
> {
    match text {
        None => None,
        Some((base, bytes)) => if f.start_address >= base && f.start_address <= f.end_address
            && f.end_address - base <= bytes.len() {
            Some(bytes.subrange(f.start_address - base, f.end_address - base))
        } else {
            None
        },
    }
}

pub open spec fn spec_in_range(range: (u32, u32), pc: u32) -> bool {
    range.0 <= pc < range.1
}

/// What the compact-unwind adapter decides for a frame; see
/// [`unwind_frame_compact`].
pub open spec fn spec_compact_unwind(
    unwind_info: Seq<u8>,
    text: Option<(u32, Seq<u8>)>,
    stubs: (u32, u32),
    stub_helper: (u32, u32),
    rel_pc: u32,
    is_first_frame: bool,
    analysis_rule: Option<UnwindRuleX86_64>,
) -> Result<CuiUnwindResult, CompactUnwindInfoUnwinderError> {
    if spec_in_range(stubs, rel_pc) || spec_in_range(stub_helper, rel_pc) {
        Ok(CuiUnwindResult::ExecRule(UnwindRuleX86_64::JustReturn))
    } else {
        match function_entry_of(unwind_info, rel_pc) {
            None => Err(CompactUnwindInfoUnwinderError::CouldNotFindFunctionForAddress),
            Some(f) => spec_cui_result(
                opcode_of(f.opcode),
                is_first_frame,
                spec_function_bytes(text, f),
                analysis_rule,
            ),
        }
    }
}

/// The prologue and epilogue analysis the innermost frame may call on:
/// given a function's instruction bytes and the lookup offset within them,
/// decide whether the address sits in a prologue or epilogue and give the
/// rule that unwinds it there, or nothing for an address in the function
/// body. The analysis itself lives outside this library and carries no
/// contract, like [`crate::ReadStack`]: the unwinder is verified for every
/// answer an implementation may give, and the contracts of the
/// analysis-taking entry points quantify over the contributed rule.
pub trait InstructionAnalysis {
    /// Detect a prologue or epilogue at the offset and give the rule that
    /// unwinds it, or nothing for an address in the function body.
    fn rule_from_instruction_analysis(
        &self,
        function_bytes: &[u8],
        offset_within_function: usize,
    ) -> Option<UnwindRuleX86_64>;
}

/// The analysis that never recognises anything: unwinding then follows the
/// opcodes alone.
pub struct NoInstructionAnalysis;

impl InstructionAnalysis for NoInstructionAnalysis {
    fn rule_from_instruction_analysis(
        &self,
        _function_bytes: &[u8],
        _offset_within_function: usize,
    ) -> Option<UnwindRuleX86_64> {
        None
    }
}

/// Unwind one frame through the `__unwind_info` tables.
///
/// An address in the `__stubs` or `__stub_helper` ranges belongs to a stub
/// that builds no frame and is unwound by a plain return. Otherwise the
/// function entry covering the address is looked up, its opcode decoded, and
/// [`unwind_frame_with_opcode`] decides the rule, seeing the function's
/// instruction bytes when the supplied text range covers them. The
/// `analysis_rule` is an already-computed first-frame hint; to have an
/// [`InstructionAnalysis`] compute it from the function's own bytes, call
/// [`unwind_frame_compact_with_analysis`] instead.
pub fn unwind_frame_compact(
    unwind_info: &[u8],
    text_bytes: Option<TextBytes<'_>>,
    stubs: (u32, u32),
    stub_helper: (u32, u32),
    rel_pc: u32,
    is_first_frame: bool,
    analysis_rule: Option<UnwindRuleX86_64>,
) -> (r: Result<CuiUnwindResult, CompactUnwindInfoUnwinderError>)
    ensures
        r == spec_compact_unwind(
            unwind_info@,
            match text_bytes {
                Some(t) => Some((t.offset_from_base, t.bytes@)),
                None => None::<(u32, Seq<u8>)>,
            },
            stubs,
            stub_helper,
            rel_pc,
            is_first_frame,
            analysis_rule,
        ),
{
    if (stubs.0 <= rel_pc && rel_pc < stubs.1) || (stub_helper.0 <= rel_pc && rel_pc
        < stub_helper.1) {
        return Ok(CuiUnwindResult::ExecRule(UnwindRuleX86_64::rule_for_stub_functions()));
    }
    let f = match lookup_function(unwind_info, rel_pc) {
        Some(f) => f,
        None => {
            return Err(CompactUnwindInfoUnwinderError::CouldNotFindFunctionForAddress);
        },
    };
    let function_bytes: Option<&[u8]> = match &text_bytes {
        Some(t) => {
            if f.start_address >= t.offset_from_base && f.start_address <= f.end_address && ((
            f.end_address - t.offset_from_base) as usize) <= t.bytes.len() {
                Some(
                    &t.bytes[(f.start_address - t.offset_from_base) as usize..(f.end_address
                        - t.offset_from_base) as usize],
                )
            } else {
                None
            }
        },
        None => None,
    };
    let opcode = parse_opcode(f.opcode);
    unwind_frame_with_opcode(&opcode, is_first_frame, function_bytes, analysis_rule)
}

} // verus!
