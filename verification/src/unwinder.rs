//! The module registry, the per-frame dispatcher and the frame iterator.
//!
//! The registry keeps the loaded modules sorted by start address and tags
//! every mutation with a fresh generation, so that rules cached under an
//! older module list are recognised as stale. The dispatcher consults the
//! rule cache, locates the module for a frame, asks the module's
//! unwind-data adapter for a rule, caches it and executes it; adapter
//! failures fall back to frame-pointer unwinding and are never surfaced.

use vstd::prelude::*;

use core::ops::Range;

use crate::FrameAddress;
use crate::ReadStack;
use crate::UnwindResult;
use crate::cfi_index::DwarfCfiIndex;
use crate::dwarf::SectionBases;
use crate::error::Error;
use crate::error::UnwinderError;
use crate::dwarf::AdapterOutcome;
use crate::macho::CuiUnwindResult;
use crate::macho::InstructionAnalysis;
use crate::macho::NoInstructionAnalysis;
use crate::macho::TextBytes;
use crate::rule_cache::CacheEntry;
use crate::rule_cache::CacheResult;
use crate::rule_cache::RuleCache;
use crate::rule_cache::spec_lookup;
use crate::rule_cache::spec_slot;
use crate::unwind_regs::UnwindRegsX86_64;
use crate::unwind_rule::UnwindRuleX86_64;

verus! {

/// Raw instruction bytes of the module's text, with the range they occupy;
/// the range's start doubles as the relative address of the first byte.
pub(crate) struct TextByteData {
    pub bytes: Vec<u8>,
    pub range: (u64, u64),
}

/// The unwind data found in a module at construction, one variant per
/// supported combination of sections. Selection is by priority, first match
/// wins: `__unwind_info`, then `.eh_frame_hdr` with `.eh_frame`, then
/// `.eh_frame` alone (an index is built), then `.debug_frame` (likewise),
/// then nothing.
#[allow(inconsistent_fields)]
pub(crate) enum ModuleUnwindDataInternal {
    /// Mach-O: compact unwind info, possibly supplemented by DWARF CFI.
    CompactUnwindInfoAndEhFrame {
        unwind_info: Vec<u8>,
        eh_frame: Option<Vec<u8>>,
        stubs_svma: Option<(u64, u64)>,
        stub_helper_svma: Option<(u64, u64)>,
        bases: SectionBases,
        text_data: Option<TextByteData>,
    },
    /// ELF: the on-disk binary-search table over DWARF CFI.
    EhFrameHdrAndEhFrame { eh_frame_hdr: Vec<u8>, eh_frame: Vec<u8>, bases: SectionBases },
    /// ELF without `.eh_frame_hdr`: DWARF CFI with a freshly built index.
    DwarfCfiIndexAndEhFrame { index: DwarfCfiIndex, eh_frame: Vec<u8>, bases: SectionBases },
    /// `.debug_frame` with a freshly built index.
    DwarfCfiIndexAndDebugFrame { index: DwarfCfiIndex, debug_frame: Vec<u8>, bases: SectionBases },
    /// No unwind information: the fallback rule does the unwinding.
    NoData,
}

impl ModuleUnwindDataInternal {
    /// Any index carried by the unwind data is sorted.
    pub(crate) open spec fn wf(&self) -> bool {
        match self {
            ModuleUnwindDataInternal::DwarfCfiIndexAndEhFrame { index, .. } => index.wf(),
            ModuleUnwindDataInternal::DwarfCfiIndexAndDebugFrame { index, .. } => index.wf(),
            _ => true,
        }
    }
}

/// The text bytes handed to the compact-unwind adapter: the raw bytes with
/// their starting relative address, present when the range's start fits it.
pub(crate) open spec fn spec_text_tuple(text_data: Option<TextByteData>) -> Option<(u32, Seq<u8>)> {
    match text_data {
        Some(d) => if d.range.0 <= u32::MAX {
            Some((d.range.0 as u32, d.bytes@))
        } else {
            None
        },
        None => None,
    }
}

/// A stated address range rebased to relative addresses; a missing range, or
/// one outside the 32-bit relative space, is the empty range.
pub(crate) open spec fn spec_rel_range(range: Option<(u64, u64)>, base_svma: u64) -> (u32, u32) {
    match range {
        Some((start, end)) => if start >= base_svma && end >= base_svma && end - base_svma
            <= u32::MAX {
            ((start - base_svma) as u32, (end - base_svma) as u32)
        } else {
            (0u32, 0u32)
        },
        None => (0u32, 0u32),
    }
}

/// What a module's binary format exposes to the unwinder: the stated base
/// address and the module's sections and segments by name. Implemented by
/// the code that parses the binary, outside this library; no contract
/// constrains the answers, and the unwinder is verified for every possible
/// behaviour of an implementation.
pub trait ModuleSectionInfo {
    /// The base address stated in the module (the `__TEXT` vmaddr for
    /// Mach-O, zero for ELF, the image base for PE). Relative addresses are
    /// stated addresses minus this base.
    fn base_svma(&self) -> u64;

    /// The given section's stated address range.
    fn section_svma_range(&self, name: &str) -> Option<Range<u64>>;

    /// The given section's file range.
    fn section_file_range(&self, name: &str) -> Option<Range<u64>>;

    /// The given section's bytes.
    fn section_data(&self, name: &str) -> Option<Vec<u8>>;

    /// The given segment's file range.
    fn segment_file_range(&self, name: &str) -> Option<Range<u64>>;

    /// The given segment's bytes.
    fn segment_data(&self, name: &str) -> Option<Vec<u8>>;
}

/// The section base addresses used for DWARF pointer decoding, gathered from
/// the module; absent sections are recorded as 0.
fn bases_for_sections(section_info: &impl ModuleSectionInfo) -> SectionBases {
    let eh_frame_hdr_svma = match section_info.section_svma_range(".eh_frame_hdr") {
        Some(range) => range.start,
        None => 0,
    };
    let eh_frame_svma = match section_info.section_svma_range(".eh_frame") {
        Some(range) => range.start,
        None => {
            match section_info.section_svma_range("__eh_frame") {
                Some(range) => range.start,
                None => 0,
            }
        },
    };
    let text_svma = match section_info.section_svma_range(".text") {
        Some(range) => range.start,
        None => {
            match section_info.section_svma_range("__text") {
                Some(range) => range.start,
                None => 0,
            }
        },
    };
    let got_svma = match section_info.section_svma_range(".got") {
        Some(range) => range.start,
        None => 0,
    };
    SectionBases { eh_frame_hdr_svma, eh_frame_svma, text_svma, got_svma }
}

/// Everything probed from a module's sections before the unwind data is
/// selected: plain values, so that the selection itself has an exact
/// contract even though the probing trait does not.
pub(crate) struct GatheredSections {
    pub unwind_info: Option<Vec<u8>>,
    /// The Mach-O `__eh_frame` section, supplementing compact unwind info.
    pub eh_frame_macho: Option<Vec<u8>>,
    pub eh_frame: Option<Vec<u8>>,
    pub eh_frame_hdr: Option<Vec<u8>>,
    pub debug_frame: Option<Vec<u8>>,
    pub stubs_svma: Option<(u64, u64)>,
    pub stub_helper_svma: Option<(u64, u64)>,
    pub bases: SectionBases,
    pub text_data: Option<TextByteData>,
}

/// Probe every section the unwinder may use.
fn gather_sections(section_info: &impl ModuleSectionInfo) -> GatheredSections {
    let stubs_svma = match section_info.section_svma_range("__stubs") {
        Some(r) => Some((r.start, r.end)),
        None => None,
    };
    let stub_helper_svma = match section_info.section_svma_range("__stub_helper") {
        Some(r) => Some((r.start, r.end)),
        None => None,
    };
    GatheredSections {
        unwind_info: section_info.section_data("__unwind_info"),
        eh_frame_macho: section_info.section_data("__eh_frame"),
        eh_frame: section_info.section_data(".eh_frame"),
        eh_frame_hdr: section_info.section_data(".eh_frame_hdr"),
        debug_frame: section_info.section_data(".debug_frame"),
        stubs_svma,
        stub_helper_svma,
        bases: bases_for_sections(section_info),
        text_data: gather_text_data(section_info),
    }
}

/// Select the unwind data from the gathered sections, by priority, first
/// match wins: `__unwind_info`; `.eh_frame_hdr` with `.eh_frame`;
/// `.eh_frame` alone, with an index built over its FDEs; `.debug_frame`,
/// likewise; else nothing. An index that cannot be built (a malformed
/// section) leaves the module without unwind data.
fn select_unwind_data(g: GatheredSections, base_svma: u64) -> (r: ModuleUnwindDataInternal)
    ensures
        r.wf(),
        g.unwind_info matches Some(ui) ==> r == (
        ModuleUnwindDataInternal::CompactUnwindInfoAndEhFrame {
            unwind_info: ui,
            eh_frame: g.eh_frame_macho,
            stubs_svma: g.stubs_svma,
            stub_helper_svma: g.stub_helper_svma,
            bases: g.bases,
            text_data: g.text_data,
        }),
        g.unwind_info is None && g.eh_frame_hdr is Some ==> (g.eh_frame matches Some(ef)
            ==> r == (ModuleUnwindDataInternal::EhFrameHdrAndEhFrame {
            eh_frame_hdr: g.eh_frame_hdr->Some_0,
            eh_frame: ef,
            bases: g.bases,
        })),
        g.unwind_info is None && g.eh_frame_hdr is None ==> (g.eh_frame matches Some(ef) ==> (
        match crate::dwarf::eh_frame_fde_pairs(
            ef@,
            g.bases.eh_frame_hdr_svma,
            g.bases.eh_frame_svma,
            g.bases.text_svma,
            g.bases.got_svma,
        ) {
            Some(pairs) => r matches ModuleUnwindDataInternal::DwarfCfiIndexAndEhFrame {
                index,
                eh_frame,
                bases,
            } && eh_frame == ef && bases == g.bases && crate::cfi_index::spec_indexes_pairs(
                index.entries_view(),
                pairs,
                base_svma,
            ),
            None => r is NoData,
        })),
        g.unwind_info is None && g.eh_frame is None ==> (g.debug_frame matches Some(df) ==> (
        match crate::dwarf::debug_frame_fde_pairs(
            df@,
            g.bases.eh_frame_hdr_svma,
            g.bases.eh_frame_svma,
            g.bases.text_svma,
            g.bases.got_svma,
        ) {
            Some(pairs) => r matches ModuleUnwindDataInternal::DwarfCfiIndexAndDebugFrame {
                index,
                debug_frame,
                bases,
            } && debug_frame == df && bases == g.bases && crate::cfi_index::spec_indexes_pairs(
                index.entries_view(),
                pairs,
                base_svma,
            ),
            None => r is NoData,
        })),
        g.unwind_info is None && g.eh_frame is None && g.debug_frame is None ==> r is NoData,
{
    let GatheredSections {
        unwind_info,
        eh_frame_macho,
        eh_frame,
        eh_frame_hdr,
        debug_frame,
        stubs_svma,
        stub_helper_svma,
        bases,
        text_data,
    } = g;
    if let Some(unwind_info) = unwind_info {
        ModuleUnwindDataInternal::CompactUnwindInfoAndEhFrame {
            unwind_info,
            eh_frame: eh_frame_macho,
            stubs_svma,
            stub_helper_svma,
            bases,
            text_data,
        }
    } else if let Some(eh_frame) = eh_frame {
        if let Some(eh_frame_hdr) = eh_frame_hdr {
            ModuleUnwindDataInternal::EhFrameHdrAndEhFrame { eh_frame_hdr, eh_frame, bases }
        } else {
            match DwarfCfiIndex::try_new_eh_frame(eh_frame.as_slice(), &bases, base_svma) {
                Some(index) => ModuleUnwindDataInternal::DwarfCfiIndexAndEhFrame {
                    index,
                    eh_frame,
                    bases,
                },
                None => ModuleUnwindDataInternal::NoData,
            }
        }
    } else if let Some(debug_frame) = debug_frame {
        match DwarfCfiIndex::try_new_debug_frame(debug_frame.as_slice(), &bases, base_svma) {
            Some(index) => ModuleUnwindDataInternal::DwarfCfiIndexAndDebugFrame {
                index,
                debug_frame,
                bases,
            },
            None => ModuleUnwindDataInternal::NoData,
        }
    } else {
        ModuleUnwindDataInternal::NoData
    }
}

impl ModuleUnwindDataInternal {
    /// Probe the module's sections and pick the unwind data; the selection
    /// and its priority are specified on [`select_unwind_data`]. The
    /// answers of `section_info` are outside any contract, so this
    /// constructor itself promises only a well-formed result.
    pub(crate) fn new(section_info: &impl ModuleSectionInfo, base_svma: u64) -> (r: Self)
        ensures
            r.wf(),
    {
        let g = gather_sections(section_info);
        select_unwind_data(g, base_svma)
    }
}

/// The module's raw instruction bytes, from the `__TEXT` segment where the
/// format has one, else from the text section, together with their file
/// range.
fn gather_text_data(section_info: &impl ModuleSectionInfo) -> Option<TextByteData> {
    if let Some(bytes) = section_info.segment_data("__TEXT") {
        if let Some(range) = section_info.segment_file_range("__TEXT") {
            return Some(TextByteData { bytes, range: (range.start, range.end) });
        }
    }
    if let Some(bytes) = section_info.section_data("__text") {
        if let Some(range) = section_info.section_file_range("__text") {
            return Some(TextByteData { bytes, range: (range.start, range.end) });
        }
    }
    if let Some(bytes) = section_info.section_data(".text") {
        if let Some(range) = section_info.section_file_range(".text") {
            return Some(TextByteData { bytes, range: (range.start, range.end) });
        }
    }
    None
}

/// One module (shared library, binary image, dynamic shared object) loaded
/// in the profiled process: its mapped address range, its stated base, and
/// the unwind data probed from its sections at construction.
pub struct Module {
    /// The name or path of the module; kept for debugging only.
    #[allow(unused)]
    name: String,
    avma_start: u64,
    avma_end: u64,
    base_avma: u64,
    base_svma: u64,
    unwind_data: ModuleUnwindDataInternal,
}

impl Module {
    /// The start of the mapped range.
    pub closed spec fn spec_avma_start(&self) -> u64 {
        self.avma_start
    }

    /// The end of the mapped range.
    pub closed spec fn spec_avma_end(&self) -> u64 {
        self.avma_end
    }

    /// The base address in the process's address space.
    pub closed spec fn spec_base_avma(&self) -> u64 {
        self.base_avma
    }

    /// The base address stated by the module itself.
    pub closed spec fn spec_base_svma(&self) -> u64 {
        self.base_svma
    }

    /// Any index carried by the unwind data is sorted.
    pub closed spec fn wf(&self) -> bool {
        self.unwind_data.wf()
    }

    /// What this module's unwind data decides for a frame at the given
    /// relative address, given the first-frame rule an instruction
    /// analysis contributed, as far as the decision is a function of the
    /// module and that hint alone: the cacheable rule it produces, a
    /// failure (the dispatcher substitutes the fallback rule), or a
    /// hand-off to direct DWARF recovery of the carried row, whose outcome
    /// alone depends on the stack reads. The composition mirrors
    /// [`UnwinderInternal`]'s dispatch; its exactness is enforced by
    /// `unwind_frame_impl`'s contract.
    pub closed spec fn spec_adapter_outcome_hint(
        &self,
        rel_pc: u32,
        is_first_frame: bool,
        analysis_hint: Option<UnwindRuleX86_64>,
    ) -> AdapterOutcome {
        match self.unwind_data {
            ModuleUnwindDataInternal::CompactUnwindInfoAndEhFrame {
                unwind_info,
                eh_frame,
                stubs_svma,
                stub_helper_svma,
                bases,
                text_data,
            } => {
                match crate::macho::spec_compact_unwind(
                    unwind_info@,
                    spec_text_tuple(text_data),
                    spec_rel_range(stubs_svma, self.base_svma),
                    spec_rel_range(stub_helper_svma, self.base_svma),
                    rel_pc,
                    is_first_frame,
                    analysis_hint,
                ) {
                    Err(_) => AdapterOutcome::Failed,
                    Ok(CuiUnwindResult::ExecRule(rule)) => AdapterOutcome::Rule(rule),
                    Ok(CuiUnwindResult::NeedDwarf(fde_offset)) => match eh_frame {
                        None => AdapterOutcome::Failed,
                        Some(ef) => crate::dwarf::spec_dwarf_outcome(
                            ef@,
                            false,
                            bases,
                            self.base_svma,
                            rel_pc,
                            fde_offset,
                        ),
                    },
                }
            },
            ModuleUnwindDataInternal::EhFrameHdrAndEhFrame { eh_frame_hdr, eh_frame, bases } => {
                match crate::dwarf::spec_eh_frame_hdr_fde_offset(
                    eh_frame_hdr@,
                    bases,
                    self.base_svma,
                    rel_pc,
                ) {
                    None => AdapterOutcome::Failed,
                    Some(fde_offset) => crate::dwarf::spec_dwarf_outcome(
                        eh_frame@,
                        false,
                        bases,
                        self.base_svma,
                        rel_pc,
                        fde_offset,
                    ),
                }
            },
            ModuleUnwindDataInternal::DwarfCfiIndexAndEhFrame { index, eh_frame, bases } => {
                match crate::cfi_index::spec_lookup(index.entries_view(), rel_pc) {
                    None => AdapterOutcome::Failed,
                    Some(fde_offset) => crate::dwarf::spec_dwarf_outcome(
                        eh_frame@,
                        false,
                        bases,
                        self.base_svma,
                        rel_pc,
                        fde_offset,
                    ),
                }
            },
            ModuleUnwindDataInternal::DwarfCfiIndexAndDebugFrame { index, debug_frame, bases } => {
                match crate::cfi_index::spec_lookup(index.entries_view(), rel_pc) {
                    None => AdapterOutcome::Failed,
                    Some(fde_offset) => crate::dwarf::spec_dwarf_outcome(
                        debug_frame@,
                        true,
                        bases,
                        self.base_svma,
                        rel_pc,
                        fde_offset,
                    ),
                }
            },
            ModuleUnwindDataInternal::NoData => AdapterOutcome::Failed,
        }
    }

    /// The outcome with no analysis-contributed rule; see
    /// [`Self::spec_adapter_outcome_hint`].
    pub closed spec fn spec_adapter_outcome(&self, rel_pc: u32, is_first_frame: bool) -> AdapterOutcome {
        self.spec_adapter_outcome_hint(rel_pc, is_first_frame, None)
    }

    /// Describe a module: where it is mapped (`avma_range`), its base
    /// address in the process (`base_avma`, sometimes different from the
    /// range's start), and a view of its binary from which the unwind data
    /// and the stated base are probed once.
    pub fn new(
        name: String,
        avma_range: Range<u64>,
        base_avma: u64,
        section_info: impl ModuleSectionInfo,
    ) -> (r: Self)
        ensures
            r.spec_avma_start() == avma_range.start,
            r.spec_avma_end() == avma_range.end,
            r.spec_base_avma() == base_avma,
            r.wf(),
    {
        let base_svma = section_info.base_svma();
        let unwind_data = ModuleUnwindDataInternal::new(&section_info, base_svma);
        Module {
            name,
            avma_start: avma_range.start,
            avma_end: avma_range.end,
            base_avma,
            base_svma,
            unwind_data,
        }
    }
}

/// The modules are strictly ordered by start address: sorted, with no two
/// modules sharing a start.
pub open spec fn spec_modules_sorted(s: Seq<Module>) -> bool {
    forall|i: int, j: int|
        0 <= i < j < s.len() ==> s[i].spec_avma_start() < s[j].spec_avma_start()
}

pub open spec fn spec_modules_wf(s: Seq<Module>) -> bool {
    spec_modules_sorted(s) && (forall|i: int| 0 <= i < s.len() ==> (#[trigger] s[i]).wf())
}

/// How many modules start below `start`. In a sorted list this is where a
/// module with that start address belongs.
pub open spec fn spec_count_lt(s: Seq<Module>, start: u64) -> int
    decreases s.len(),
{
    if s.len() == 0 {
        0
    } else {
        spec_count_lt(s.drop_last(), start) + if s.last().spec_avma_start() < start {
            1int
        } else {
            0int
        }
    }
}

/// Whether a module is responsible for an address: the address lies in the
/// mapped range, at or above the base address, and its relative form fits 32
/// bits (wider modules are not supported and miss).
pub open spec fn spec_module_covers(m: Module, address: u64) -> bool {
    &&& m.spec_avma_start() <= address < m.spec_avma_end()
    &&& address >= m.spec_base_avma()
    &&& address - m.spec_base_avma() <= u32::MAX
}

/// What a module lookup returns: the index of the last module starting at
/// or before the address, and the address's relative form, provided that
/// module covers the address.
pub open spec fn spec_find_module(s: Seq<Module>, address: u64) -> Option<(int, u32)>
    decreases s.len(),
{
    if s.len() == 0 {
        None
    } else if s.last().spec_avma_start() <= address {
        if spec_module_covers(s.last(), address) {
            Some(((s.len() - 1) as int, (address - s.last().spec_base_avma()) as u32))
        } else {
            None
        }
    } else {
        spec_find_module(s.drop_last(), address)
    }
}

/// The modules generation after one mutation.
pub open spec fn spec_next_generation(g: u16) -> u16 {
    if g == u16::MAX {
        0
    } else {
        (g + 1) as u16
    }
}

/// In a sorted module list split at `r` (all below start below the key, all
/// at or above `r` not), exactly `r` modules start below the key.
proof fn lemma_count_lt(s: Seq<Module>, start: u64, r: int)
    requires
        0 <= r <= s.len(),
        forall|i: int| 0 <= i < r ==> s[i].spec_avma_start() < start,
        forall|i: int| r <= i < s.len() ==> s[i].spec_avma_start() >= start,
    ensures
        spec_count_lt(s, start) == r,
    decreases s.len(),
{
    if s.len() > 0 {
        if r == s.len() {
            lemma_count_lt(s.drop_last(), start, r - 1);
        } else {
            lemma_count_lt(s.drop_last(), start, r);
        }
    }
}

/// A module lookup is decided at the last module starting at or before the
/// address.
proof fn lemma_find_module_char(s: Seq<Module>, address: u64, j: int)
    requires
        spec_modules_sorted(s),
        0 <= j < s.len(),
        s[j].spec_avma_start() <= address,
        forall|i: int| j < i < s.len() ==> s[i].spec_avma_start() > address,
    ensures
        spec_find_module(s, address) == (if spec_module_covers(s[j], address) {
            Some((j, (address - s[j].spec_base_avma()) as u32))
        } else {
            None::<(int, u32)>
        }),
    decreases s.len(),
{
    if j < s.len() - 1 {
        lemma_find_module_char(s.drop_last(), address, j);
    }
}

/// When every module starts above the address, a lookup finds nothing.
proof fn lemma_find_module_none(s: Seq<Module>, address: u64)
    requires
        forall|i: int| 0 <= i < s.len() ==> s[i].spec_avma_start() > address,
    ensures
        spec_find_module(s, address) is None,
    decreases s.len(),
{
    if s.len() > 0 {
        lemma_find_module_none(s.drop_last(), address);
    }
}

/// Law: with modules whose ranges do not overlap, the registry finds a
/// module for an address exactly when the address lies in the module's
/// `[avma_start, avma_end)`, at or above its `base_avma`, with the relative
/// address fitting 32 bits. This direction: a covering module is found,
/// under its own index.
pub proof fn lemma_find_module_covering(s: Seq<Module>, address: u64, i: int)
    requires
        spec_modules_sorted(s),
        forall|k: int| 0 <= k < s.len() - 1 ==> (#[trigger] s[k]).spec_avma_end() <= s[k
            + 1].spec_avma_start(),
        0 <= i < s.len(),
        spec_module_covers(s[i], address),
    ensures
        spec_find_module(s, address) == Some((i, (address - s[i].spec_base_avma()) as u32)),
{
    assert forall|j: int| i < j < s.len() implies s[j].spec_avma_start() > address by {
        assert(s[i].spec_avma_end() <= s[i + 1].spec_avma_start());
        if j > i + 1 {
            assert(s[i + 1].spec_avma_start() < s[j].spec_avma_start());
        }
    }
    lemma_find_module_char(s, address, i);
}

/// Law, the other direction: whatever the registry finds covers the address.
pub proof fn lemma_find_module_is_covering(s: Seq<Module>, address: u64)
    requires
        spec_modules_sorted(s),
    ensures
        spec_find_module(s, address) matches Some((i, rel)) ==> 0 <= i < s.len()
            && spec_module_covers(s[i], address) && rel == (address - s[i].spec_base_avma()) as u32,
    decreases s.len(),
{
    if s.len() > 0 {
        lemma_find_module_is_covering(s.drop_last(), address);
    }
}

/// The relation between the register state, the result and the final
/// register state that executing a rule guarantees; the executable
/// counterpart is [`UnwindRuleX86_64::exec`], whose contract also covers
/// the reader.
pub open spec fn spec_exec_post(
    rule: UnwindRuleX86_64,
    o: UnwindRegsX86_64,
    n: UnwindRegsX86_64,
    r: Result<Option<u64>, Error>,
) -> bool {
    &&& (r == Err::<Option<u64>, Error>(Error::IntegerOverflow) <==> rule.spec_overflows(
        o.sp() as int,
        o.bp() as int,
    ))
    &&& (rule == UnwindRuleX86_64::UseFramePointer && o.bp() == 0 ==> r == Ok::<
        Option<u64>,
        Error,
    >(None))
    &&& (r == Err::<Option<u64>, Error>(Error::FramepointerUnwindingMovedBackwards) <==> rule
        == UnwindRuleX86_64::UseFramePointer && o.bp() != 0 && o.bp() + 16 <= u64::MAX && o.bp()
        + 16 <= o.sp())
    &&& (r matches Ok(Some(ra)) ==> ra != 0 && n.ip() == ra && n.sp() as int == rule.spec_new_sp(
        o.sp() as int,
        o.bp() as int,
    ) && crate::unwind_rule::spec_commit(
        o,
        rule.spec_new_sp(o.sp() as int, o.bp() as int) as u64,
        n.bp(),
        ra,
        n,
        Some(ra),
    ))
    &&& (r matches Ok(Some(ra)) && (rule is JustReturn || rule is OffsetSp) ==> n.bp() == o.bp())
    &&& (r == Ok::<Option<u64>, Error>(None) ==> n == o)
    &&& (r is Err ==> n == o)
    &&& r != Err::<Option<u64>, Error>(Error::ReturnAddressIsNull)
}

/// One rule cached and executed for a frame: the miss handle's slot now
/// holds the rule under the lookup address and generation, and the result
/// and registers follow the rule's execution.
pub open spec fn spec_cached_and_executed(
    old_entries: Seq<Option<CacheEntry>>,
    new_entries: Seq<Option<CacheEntry>>,
    la: u64,
    generation: u16,
    rule: UnwindRuleX86_64,
    old_regs: UnwindRegsX86_64,
    new_regs: UnwindRegsX86_64,
    r: Result<Option<u64>, Error>,
) -> bool {
    &&& new_entries == old_entries.update(
        spec_slot(la),
        Some(CacheEntry { address: la, modules_generation: generation, unwind_rule: rule }),
    )
    &&& spec_exec_post(rule, old_regs, new_regs, r)
}

/// How an adapter's result corresponds to the outcome its module dictates:
/// a rule comes back exactly, a failure is an error, and only direct
/// recovery touches the reader; a recovered frame commits the row's
/// registers.
pub open spec fn spec_adapter_result<R>(
    outcome: AdapterOutcome,
    old_regs: UnwindRegsX86_64,
    new_regs: UnwindRegsX86_64,
    old_reader: R,
    new_reader: R,
    r: Result<UnwindResult, UnwinderError>,
) -> bool {
    match outcome {
        AdapterOutcome::Rule(rule) => r == Ok::<UnwindResult, UnwinderError>(
            UnwindResult::ExecRule(rule),
        ) && new_reader == old_reader,
        AdapterOutcome::Failed => r is Err && new_reader == old_reader,
        AdapterOutcome::DirectRecovery(row) => {
            &&& (r matches Ok(u) ==> u is Uncacheable)
            &&& (r matches Ok(UnwindResult::Uncacheable(ra))
                ==> crate::dwarf::spec_row_executable(row) && crate::dwarf::spec_row_addresses_ok(
                row,
                old_regs.sp(),
                old_regs.bp(),
            ) && (crate::dwarf::spec_cfa_value(row, old_regs.sp(), old_regs.bp()) matches Some(cfa)
                && new_regs.sp() as int == cfa && new_regs.ip() == ra && ((row.bp is SameValue
                || row.bp is Undefined) ==> new_regs.bp() == old_regs.bp())))
        },
    }
}

/// Everything the dispatcher guarantees for one frame; see
/// [`UnwinderInternal::unwind_frame`].
///
/// The lookup's statistics are booked exactly once. On a cache hit the
/// cached rule is executed and the cache entries stay as they are. On a
/// miss, the rule dictated by the covering module's unwind data — the
/// fallback rule when no module covers the address or its adapter fails —
/// is cached and executed; a direct DWARF recovery instead either returns
/// its concrete return address uncacheable, with the entries unchanged and
/// the registers committed per the row, or fails and falls back like an
/// adapter failure.
pub open spec fn spec_unwind_frame_post_hint(
    modules: Seq<Module>,
    generation: u16,
    address: FrameAddress,
    old_regs: UnwindRegsX86_64,
    new_regs: UnwindRegsX86_64,
    old_cache: RuleCache,
    new_cache: RuleCache,
    analysis_hint: Option<UnwindRuleX86_64>,
    r: Result<Option<u64>, Error>,
) -> bool {
    let la = address.lookup_address_spec();
    let old_entries = old_cache.entries_view();
    let new_entries = new_cache.entries_view();
    &&& new_cache.stats_view() == crate::rule_cache::spec_lookup_stats(
        old_entries,
        la,
        generation,
        old_cache.stats_view(),
    )
    &&& (match spec_lookup(old_entries, la, generation) {
        Some(rule) => new_entries == old_entries && spec_exec_post(rule, old_regs, new_regs, r),
        None => {
            match spec_find_module(modules, la) {
                None => spec_cached_and_executed(
                    old_entries,
                    new_entries,
                    la,
                    generation,
                    UnwindRuleX86_64::UseFramePointer,
                    old_regs,
                    new_regs,
                    r,
                ),
                Some((i, rel)) => {
                    match modules[i].spec_adapter_outcome_hint(
                        rel,
                        !address.is_return_spec(),
                        analysis_hint,
                    ) {
                        AdapterOutcome::Rule(rule) => spec_cached_and_executed(
                            old_entries,
                            new_entries,
                            la,
                            generation,
                            rule,
                            old_regs,
                            new_regs,
                            r,
                        ),
                        AdapterOutcome::Failed => spec_cached_and_executed(
                            old_entries,
                            new_entries,
                            la,
                            generation,
                            UnwindRuleX86_64::UseFramePointer,
                            old_regs,
                            new_regs,
                            r,
                        ),
                        AdapterOutcome::DirectRecovery(row) => {
                            ||| (new_entries == old_entries && (match r {
                                Ok(Some(ra)) => crate::dwarf::spec_row_executable(row) && (
                                crate::dwarf::spec_cfa_value(row, old_regs.sp(), old_regs.bp())
                                    matches Some(cfa) && new_regs.sp() as int == cfa
                                    && new_regs.ip() == ra),
                                _ => false,
                            }))
                            ||| spec_cached_and_executed(
                                old_entries,
                                new_entries,
                                la,
                                generation,
                                UnwindRuleX86_64::UseFramePointer,
                                old_regs,
                                new_regs,
                                r,
                            )
                        },
                    }
                },
            }
        },
    })
}

/// The dispatcher's guarantee with no analysis-contributed rule; see
/// [`spec_unwind_frame_post_hint`].
pub open spec fn spec_unwind_frame_post(
    modules: Seq<Module>,
    generation: u16,
    address: FrameAddress,
    old_regs: UnwindRegsX86_64,
    new_regs: UnwindRegsX86_64,
    old_cache: RuleCache,
    new_cache: RuleCache,
    r: Result<Option<u64>, Error>,
) -> bool {
    spec_unwind_frame_post_hint(
        modules,
        generation,
        address,
        old_regs,
        new_regs,
        old_cache,
        new_cache,
        None,
        r,
    )
}

/// What the dispatcher guarantees when an uncontracted instruction
/// analysis is in play: the statistics and the hit path are as exact as
/// ever, and a miss either caches and executes some rule — the fallback
/// exactly when no module covers the address — or returns an uncacheable
/// direct recovery. Which rule an analysis-influenced adapter produced
/// cannot be pinned, because the analysis itself promises nothing; without
/// an analysis, [`spec_unwind_frame_post`] pins it.
pub open spec fn spec_unwind_frame_post_weak(
    modules: Seq<Module>,
    generation: u16,
    address: FrameAddress,
    old_regs: UnwindRegsX86_64,
    new_regs: UnwindRegsX86_64,
    old_cache: RuleCache,
    new_cache: RuleCache,
    r: Result<Option<u64>, Error>,
) -> bool {
    let la = address.lookup_address_spec();
    let old_entries = old_cache.entries_view();
    let new_entries = new_cache.entries_view();
    &&& new_cache.stats_view() == crate::rule_cache::spec_lookup_stats(
        old_entries,
        la,
        generation,
        old_cache.stats_view(),
    )
    &&& (match spec_lookup(old_entries, la, generation) {
        Some(rule) => new_entries == old_entries && spec_exec_post(rule, old_regs, new_regs, r),
        None => {
            ||| (exists|rule: UnwindRuleX86_64|
                #![auto]
                spec_cached_and_executed(
                    old_entries,
                    new_entries,
                    la,
                    generation,
                    rule,
                    old_regs,
                    new_regs,
                    r,
                ) && (spec_find_module(modules, la) is None ==> rule
                    == UnwindRuleX86_64::UseFramePointer))
            ||| (new_entries == old_entries && (r matches Ok(Some(_))) && spec_find_module(
                modules,
                la,
            ) is Some)
        },
    })
}

/// The architecture-independent unwinder: the sorted module registry, its
/// generation, and the per-frame dispatcher.
pub struct UnwinderInternal {
    /// Sorted by `avma_start`.
    modules: Vec<Module>,
    /// Advanced on every module mutation, so that cached rules from an
    /// older module list show up as misses.
    modules_generation: u16,
}

impl UnwinderInternal {
    pub closed spec fn modules_view(&self) -> Seq<Module> {
        self.modules@
    }

    pub closed spec fn generation(&self) -> u16 {
        self.modules_generation
    }

    pub open spec fn wf(&self) -> bool {
        spec_modules_wf(self.modules_view())
    }

    /// A fresh unwinder with no modules. Its generation counts from zero
    /// and advances on every mutation, wrapping after 2^16 mutations; a
    /// wrap-around can make a stale cache entry look current again, which
    /// is accepted as a rare source of wrong rules. Each unwinder counts
    /// for itself, so a cache shared among several unwinders can also
    /// confuse their entries; give each unwinder its own cache unless the
    /// module lists are mutated in step.
    pub fn new() -> (r: Self)
        ensures
            r.wf(),
            r.modules_view().len() == 0,
            r.generation() == 0,
    {
        UnwinderInternal { modules: Vec::new(), modules_generation: 0 }
    }

    /// Register a loaded module. The module is placed at its position in
    /// start-address order; a module with the same start address is
    /// replaced. Every call advances the generation.
    pub fn add_module(&mut self, module: Module)
        requires
            old(self).wf(),
            module.wf(),
        ensures
            final(self).wf(),
            final(self).generation() == spec_next_generation(old(self).generation()),
            ({
                let s = old(self).modules_view();
                let p = spec_count_lt(s, module.spec_avma_start());
                if p < s.len() && s[p].spec_avma_start() == module.spec_avma_start() {
                    final(self).modules_view() == s.update(p, module)
                } else {
                    final(self).modules_view() == s.insert(p, module)
                }
            }),
    {
        let start = module.avma_start;
        let pos = module_lower_bound(&self.modules, start);
        let ghost s = self.modules@;
        proof {
            lemma_count_lt(s, start, pos as int);
        }
        if pos < self.modules.len() && self.modules[pos].avma_start == start {
            self.modules[pos] = module;
            proof {
                assert forall|i: int, j: int|
                    0 <= i < j < self.modules@.len() implies self.modules@[i].spec_avma_start()
                    < self.modules@[j].spec_avma_start() by {
                    if i != pos as int && j != pos as int {
                        assert(self.modules@[i] == s[i] && self.modules@[j] == s[j]);
                    }
                }
            }
        } else {
            self.modules.insert(pos, module);
            proof {
                let t = self.modules@;
                assert forall|i: int, j: int|
                    0 <= i < j < t.len() implies t[i].spec_avma_start()
                    < t[j].spec_avma_start() by {
                    if i < pos as int {
                        assert(t[i] == s[i]);
                    } else if i > pos as int {
                        assert(t[i] == s[i - 1]);
                    }
                    if j < pos as int {
                        assert(t[j] == s[j]);
                    } else if j > pos as int {
                        assert(t[j] == s[j - 1]);
                    }
                }
                assert forall|i: int| 0 <= i < t.len() implies (#[trigger] t[i]).wf() by {
                    if i < pos as int {
                        assert(t[i] == s[i]);
                    } else if i > pos as int {
                        assert(t[i] == s[i - 1]);
                    }
                }
            }
        }
        self.modules_generation = self.modules_generation.wrapping_add(1);
    }

    /// Unregister the module that starts at the given address, if any. Only
    /// an actual removal advances the generation.
    pub fn remove_module(&mut self, module_address_range_start: u64)
        requires
            old(self).wf(),
        ensures
            final(self).wf(),
            ({
                let s = old(self).modules_view();
                let p = spec_count_lt(s, module_address_range_start);
                if p < s.len() && s[p].spec_avma_start() == module_address_range_start {
                    final(self).modules_view() == s.remove(p) && final(self).generation()
                        == spec_next_generation(old(self).generation())
                } else {
                    *final(self) == *old(self)
                }
            }),
    {
        let pos = module_lower_bound(&self.modules, module_address_range_start);
        let ghost s = self.modules@;
        proof {
            lemma_count_lt(s, module_address_range_start, pos as int);
        }
        if pos < self.modules.len() && self.modules[pos].avma_start == module_address_range_start {
            self.modules.remove(pos);
            proof {
                let t = self.modules@;
                assert forall|i: int, j: int|
                    0 <= i < j < t.len() implies t[i].spec_avma_start()
                    < t[j].spec_avma_start() by {
                    if i < pos as int {
                        assert(t[i] == s[i]);
                    } else {
                        assert(t[i] == s[i + 1]);
                    }
                    if j < pos as int {
                        assert(t[j] == s[j]);
                    } else {
                        assert(t[j] == s[j + 1]);
                    }
                }
                assert forall|i: int| 0 <= i < t.len() implies (#[trigger] t[i]).wf() by {
                    if i < pos as int {
                        assert(t[i] == s[i]);
                    } else {
                        assert(t[i] == s[i + 1]);
                    }
                }
            }
            self.modules_generation = self.modules_generation.wrapping_add(1);
        }
    }

    /// The highest code address known from the module ranges, or 0 with no
    /// modules. Useful as a heuristic bound on code addresses.
    pub fn max_known_code_address(&self) -> (r: u64)
        requires
            self.wf(),
        ensures
            r == (if self.modules_view().len() == 0 {
                0u64
            } else {
                self.modules_view().last().spec_avma_end()
            }),
    {
        if self.modules.len() == 0 {
            0
        } else {
            self.modules[self.modules.len() - 1].avma_end
        }
    }

    /// Locate the module covering an address and the address's 32-bit
    /// relative form; see [`spec_find_module`] for exactly when this
    /// succeeds, and the two covering laws for what success means.
    pub fn find_module_for_address(&self, address: u64) -> (r: Option<(usize, u32)>)
        requires
            self.wf(),
        ensures
            r matches Some((i, rel)) ==> spec_find_module(self.modules_view(), address) == Some(
                (i as int, rel),
            ),
            r is None ==> spec_find_module(self.modules_view(), address) is None,
    {
        let ub = module_upper_bound(&self.modules, address);
        if ub == 0 {
            proof {
                lemma_find_module_none(self.modules@, address);
            }
            return None;
        }
        let i = ub - 1;
        let module = &self.modules[i];
        proof {
            lemma_find_module_char(self.modules@, address, i as int);
        }
        if address < module.avma_end && address >= module.base_avma && address - module.base_avma
            <= u32::MAX as u64 {
            Some((i, (address - module.base_avma) as u32))
        } else {
            None
        }
    }

    /// Unwind a single frame: recover the return address and the caller's
    /// register values.
    ///
    /// The rule cache is consulted first; on a miss the covering module's
    /// unwind data produces a rule, which is cached and executed. An address
    /// outside every module, and every adapter failure, falls back to
    /// frame-pointer unwinding — such failures are never surfaced; only rule
    /// execution itself can fail. A DWARF recovery that no rule expresses
    /// returns its concrete return address without touching the cache.
    /// No prologue and epilogue analysis runs on this path; see
    /// [`Self::unwind_frame_with_analysis`] to supply one.
    pub fn unwind_frame<R: ReadStack>(
        &self,
        address: FrameAddress,
        regs: &mut UnwindRegsX86_64,
        cache: &mut RuleCache,
        read_stack: &mut R,
    ) -> (r: Result<Option<u64>, Error>)
        requires
            self.wf(),
            old(cache).wf(),
            address.wf(),
        ensures
            final(cache).wf(),
            spec_unwind_frame_post(
                self.modules_view(),
                self.generation(),
                address,
                *old(regs),
                *final(regs),
                *old(cache),
                *final(cache),
                r,
            ),
    {
        self.unwind_frame_opt::<R, NoInstructionAnalysis>(address, regs, cache, read_stack, None)
    }

    /// Unwind a single frame as [`Self::unwind_frame`] does, additionally
    /// running the given prologue and epilogue analysis on the innermost
    /// frame of modules with compact unwind info. The analysis carries no
    /// contract, so the guarantee quantifies over the rule it contributed.
    pub fn unwind_frame_with_analysis<R: ReadStack, A: InstructionAnalysis>(
        &self,
        address: FrameAddress,
        regs: &mut UnwindRegsX86_64,
        cache: &mut RuleCache,
        read_stack: &mut R,
        analysis: &A,
    ) -> (r: Result<Option<u64>, Error>)
        requires
            self.wf(),
            old(cache).wf(),
            address.wf(),
        ensures
            final(cache).wf(),
            spec_unwind_frame_post_weak(
                self.modules_view(),
                self.generation(),
                address,
                *old(regs),
                *final(regs),
                *old(cache),
                *final(cache),
                r,
            ),
    {
        self.unwind_frame_opt(address, regs, cache, read_stack, Some(analysis))
    }

    /// The one dispatcher both entry points share.
    fn unwind_frame_opt<R: ReadStack, A: InstructionAnalysis>(
        &self,
        address: FrameAddress,
        regs: &mut UnwindRegsX86_64,
        cache: &mut RuleCache,
        read_stack: &mut R,
        analysis: Option<&A>,
    ) -> (r: Result<Option<u64>, Error>)
        requires
            self.wf(),
            old(cache).wf(),
            address.wf(),
        ensures
            final(cache).wf(),
            analysis is None ==> spec_unwind_frame_post(
                self.modules_view(),
                self.generation(),
                address,
                *old(regs),
                *final(regs),
                *old(cache),
                *final(cache),
                r,
            ),
            spec_unwind_frame_post_weak(
                self.modules_view(),
                self.generation(),
                address,
                *old(regs),
                *final(regs),
                *old(cache),
                *final(cache),
                r,
            ),
    {
        let lookup_address = address.address_for_lookup();
        let handle = match cache.lookup(lookup_address, self.modules_generation) {
            CacheResult::Hit(unwind_rule) => {
                let result = unwind_rule.exec(regs, read_stack);
                proof {
                    assert(spec_exec_post(unwind_rule, *old(regs), *final(regs), result));
                }
                return result;
            },
            CacheResult::Miss(handle) => handle,
        };
        let unwind_rule = match self.find_module_for_address(lookup_address) {
            None => UnwindRuleX86_64::fallback_rule(),
            Some((module_index, relative_lookup_address)) => {
                proof {
                    lemma_find_module_is_covering(self.modules_view(), lookup_address);
                }
                let module = &self.modules[module_index];
                match Self::unwind_frame_impl(
                    module,
                    address,
                    relative_lookup_address,
                    regs,
                    read_stack,
                    analysis,
                ) {
                    Ok(UnwindResult::ExecRule(rule)) => rule,
                    Ok(UnwindResult::Uncacheable(return_address)) => {
                        return Ok(Some(return_address));
                    },
                    Err(_) => UnwindRuleX86_64::fallback_rule(),
                }
            },
        };
        cache.insert(handle, unwind_rule);
        let result = unwind_rule.exec(regs, read_stack);
        proof {
            let la = address.lookup_address_spec();
            let entry = CacheEntry {
                address: la,
                modules_generation: self.generation(),
                unwind_rule,
            };
            assert(final(cache).entries_view() == old(cache).entries_view().update(
                spec_slot(la),
                Some(entry),
            ));
            assert(spec_exec_post(unwind_rule, *old(regs), *final(regs), result));
            assert(spec_cached_and_executed(
                old(cache).entries_view(),
                final(cache).entries_view(),
                la,
                self.generation(),
                unwind_rule,
                *old(regs),
                *final(regs),
                result,
            ));
        }
        result
    }

    /// Produce one frame's unwind result from the covering module's unwind
    /// data, running the given prologue and epilogue analysis on the
    /// innermost frame. Errors are reported to the dispatcher, which falls
    /// back; they never reach the caller.
    fn unwind_frame_impl<R: ReadStack, A: InstructionAnalysis>(
        module: &Module,
        address: FrameAddress,
        rel_lookup_address: u32,
        regs: &mut UnwindRegsX86_64,
        read_stack: &mut R,
        analysis: Option<&A>,
    ) -> (r: Result<UnwindResult, UnwinderError>)
        requires
            module.wf(),
            address.wf(),
        ensures
            r is Err ==> *final(regs) == *old(regs),
            r matches Ok(UnwindResult::ExecRule(_)) ==> *final(regs) == *old(regs),
            module.unwind_data is NoData <==> r == Err::<UnwindResult, UnwinderError>(
                UnwinderError::NoUnwindData,
            ),
            // With no analysis, the result corresponds exactly to the
            // outcome the module's unwind data dictates.
            analysis is None ==> spec_adapter_result(
                module.spec_adapter_outcome(rel_lookup_address, !address.is_return_spec()),
                *old(regs),
                *final(regs),
                *old(read_stack),
                *final(read_stack),
                r,
            ),
    {
        let is_first_frame = !address.is_return_address();
        match &module.unwind_data {
            ModuleUnwindDataInternal::CompactUnwindInfoAndEhFrame {
                unwind_info,
                eh_frame,
                stubs_svma,
                stub_helper_svma,
                bases,
                text_data,
            } => {
                let text_bytes = match text_data {
                    Some(data) => {
                        if data.range.0 <= u32::MAX as u64 {
                            Some(
                                TextBytes {
                                    offset_from_base: data.range.0 as u32,
                                    bytes: data.bytes.as_slice(),
                                },
                            )
                        } else {
                            None
                        }
                    },
                    None => None,
                };
                let stubs = rel_range_or_empty(*stubs_svma, module.base_svma);
                let stub_helper = rel_range_or_empty(*stub_helper_svma, module.base_svma);
                let cui = match analysis {
                    Some(a) => crate::macho::unwind_frame_compact_with_analysis(
                        unwind_info.as_slice(),
                        text_bytes,
                        stubs,
                        stub_helper,
                        rel_lookup_address,
                        is_first_frame,
                        a,
                    ),
                    None => crate::macho::unwind_frame_compact(
                        unwind_info.as_slice(),
                        text_bytes,
                        stubs,
                        stub_helper,
                        rel_lookup_address,
                        is_first_frame,
                        None,
                    ),
                };
                let cui_result = match cui {
                    Ok(v) => v,
                    Err(e) => {
                        return Err(UnwinderError::from_compact_unwind_info_error(e));
                    },
                };
                match cui_result {
                    CuiUnwindResult::ExecRule(rule) => Ok(UnwindResult::ExecRule(rule)),
                    CuiUnwindResult::NeedDwarf(fde_offset) => {
                        let eh_frame_data = match eh_frame {
                            Some(data) => data.as_slice(),
                            None => {
                                return Err(UnwinderError::NoDwarfData);
                            },
                        };
                        match crate::dwarf::unwind_frame_with_fde(
                            eh_frame_data,
                            false,
                            bases,
                            module.base_svma,
                            regs,
                            rel_lookup_address,
                            fde_offset,
                            read_stack,
                        ) {
                            Ok(v) => Ok(v),
                            Err(e) => Err(UnwinderError::Dwarf(e)),
                        }
                    },
                }
            },
            ModuleUnwindDataInternal::EhFrameHdrAndEhFrame { eh_frame_hdr, eh_frame, bases } => {
                let fde_offset = match crate::dwarf::eh_frame_hdr_fde_offset(
                    eh_frame_hdr.as_slice(),
                    bases,
                    module.base_svma,
                    rel_lookup_address,
                ) {
                    Some(offset) => offset,
                    None => {
                        return Err(UnwinderError::EhFrameHdrCouldNotFindAddress);
                    },
                };
                match crate::dwarf::unwind_frame_with_fde(
                    eh_frame.as_slice(),
                    false,
                    bases,
                    module.base_svma,
                    regs,
                    rel_lookup_address,
                    fde_offset,
                    read_stack,
                ) {
                    Ok(v) => Ok(v),
                    Err(e) => Err(UnwinderError::Dwarf(e)),
                }
            },
            ModuleUnwindDataInternal::DwarfCfiIndexAndEhFrame { index, eh_frame, bases } => {
                let fde_offset = match index.fde_offset_for_relative_address(rel_lookup_address) {
                    Some(offset) => offset,
                    None => {
                        return Err(UnwinderError::DwarfCfiIndexCouldNotFindAddress);
                    },
                };
                match crate::dwarf::unwind_frame_with_fde(
                    eh_frame.as_slice(),
                    false,
                    bases,
                    module.base_svma,
                    regs,
                    rel_lookup_address,
                    fde_offset,
                    read_stack,
                ) {
                    Ok(v) => Ok(v),
                    Err(e) => Err(UnwinderError::Dwarf(e)),
                }
            },
            ModuleUnwindDataInternal::DwarfCfiIndexAndDebugFrame { index, debug_frame, bases } => {
                let fde_offset = match index.fde_offset_for_relative_address(rel_lookup_address) {
                    Some(offset) => offset,
                    None => {
                        return Err(UnwinderError::DwarfCfiIndexCouldNotFindAddress);
                    },
                };
                match crate::dwarf::unwind_frame_with_fde(
                    debug_frame.as_slice(),
                    true,
                    bases,
                    module.base_svma,
                    regs,
                    rel_lookup_address,
                    fde_offset,
                    read_stack,
                ) {
                    Ok(v) => Ok(v),
                    Err(e) => Err(UnwinderError::Dwarf(e)),
                }
            },
            ModuleUnwindDataInternal::NoData => Err(UnwinderError::NoUnwindData),
        }
    }
}

/// A stated address range rebased to relative addresses; a missing range, or
/// one outside the 32-bit relative space, becomes the empty range.
fn rel_range_or_empty(range: Option<(u64, u64)>, base_svma: u64) -> (r: (u32, u32))
    ensures
        r == spec_rel_range(range, base_svma),
{
    match range {
        Some((start, end)) => {
            if start >= base_svma && end >= base_svma && end - base_svma <= u32::MAX as u64 {
                ((start - base_svma) as u32, (end - base_svma) as u32)
            } else {
                (0, 0)
            }
        },
        None => (0, 0),
    }
}

/// The first index whose module starts above `key`.
fn module_upper_bound(modules: &Vec<Module>, key: u64) -> (r: usize)
    requires
        spec_modules_sorted(modules@),
    ensures
        r <= modules@.len(),
        forall|i: int| 0 <= i < r ==> modules@[i].spec_avma_start() <= key,
        forall|i: int| r <= i < modules@.len() ==> modules@[i].spec_avma_start() > key,
{
    let mut lo: usize = 0;
    let mut hi: usize = modules.len();
    while lo < hi
        invariant
            lo <= hi <= modules@.len(),
            spec_modules_sorted(modules@),
            forall|i: int| 0 <= i < lo ==> modules@[i].spec_avma_start() <= key,
            forall|i: int| hi <= i < modules@.len() ==> modules@[i].spec_avma_start() > key,
        decreases hi - lo,
    {
        let mid = lo + (hi - lo) / 2;
        if modules[mid].avma_start <= key {
            lo = mid + 1;
        } else {
            hi = mid;
        }
    }
    lo
}

/// The first index whose module starts at or above `key`.
fn module_lower_bound(modules: &Vec<Module>, key: u64) -> (r: usize)
    requires
        spec_modules_sorted(modules@),
    ensures
        r <= modules@.len(),
        forall|i: int| 0 <= i < r ==> modules@[i].spec_avma_start() < key,
        forall|i: int| r <= i < modules@.len() ==> modules@[i].spec_avma_start() >= key,
{
    let mut lo: usize = 0;
    let mut hi: usize = modules.len();
    while lo < hi
        invariant
            lo <= hi <= modules@.len(),
            spec_modules_sorted(modules@),
            forall|i: int| 0 <= i < lo ==> modules@[i].spec_avma_start() < key,
            forall|i: int| hi <= i < modules@.len() ==> modules@[i].spec_avma_start() >= key,
        decreases hi - lo,
    {
        let mid = lo + (hi - lo) / 2;
        if modules[mid].avma_start < key {
            lo = mid + 1;
        } else {
            hi = mid;
        }
    }
    lo
}

/// Where a stack walk stands: before the first frame, at a frame, or past
/// the root.
#[derive(Clone, Copy, Debug, PartialEq, Eq, Structural)]
pub enum UnwindIteratorState {
    /// The walk has not started; the thread's instruction pointer is next.
    Initial(u64),
    /// The walk stands at this frame; the dispatcher produces the next one.
    Unwinding(FrameAddress),
    /// The root was found; nothing follows.
    Done,
}

/// A stateful walker that produces the stack's frames one by one: first the
/// instruction pointer, then one return address per caller.
///
/// The walker holds the evolving register state; the unwinder, the cache
/// and the stack reader are handed to each [`Self::next`] call. A clean
/// root ends the walk with `Ok(None)`; an error leaves the walker where it
/// stands, so a caller that retries reads the same frame again. Root
/// detection is heuristic — callers should keep the frames collected so far
/// even when the walk ends in an error.
pub struct UnwindIterator {
    state: UnwindIteratorState,
    regs: UnwindRegsX86_64,
}

impl UnwindIterator {
    pub closed spec fn state_view(&self) -> UnwindIteratorState {
        self.state
    }

    /// The evolving register state, for specification purposes.
    pub closed spec fn regs_view(&self) -> UnwindRegsX86_64 {
        self.regs
    }

    pub open spec fn wf(&self) -> bool {
        self.state_view() matches UnwindIteratorState::Unwinding(a) ==> a.wf()
    }

    /// Start a walk at the thread's instruction pointer and register state.
    pub fn new(pc: u64, regs: UnwindRegsX86_64) -> (r: Self)
        ensures
            r.state_view() == UnwindIteratorState::Initial(pc),
            r.wf(),
    {
        UnwindIterator { state: UnwindIteratorState::Initial(pc), regs }
    }

    /// Yield the next frame of the stack.
    ///
    /// The first frame is the instruction pointer; every further frame is a
    /// return address, never zero. `Ok(None)` means the root was reached
    /// (and is repeated thereafter); an error is surfaced as it happened,
    /// with one exception: a zero return address produced mid-walk becomes
    /// [`Error::ReturnAddressIsNull`].
    pub fn next<R: ReadStack>(
        &mut self,
        unwinder: &UnwinderInternal,
        cache: &mut RuleCache,
        read_stack: &mut R,
    ) -> (r: Result<Option<FrameAddress>, Error>)
        requires
            old(self).wf(),
            unwinder.wf(),
            old(cache).wf(),
        ensures
            final(self).wf(),
            final(cache).wf(),
            // Before the first frame and past the root, nothing runs: the
            // cache (entries and statistics alike), the reader and the
            // registers stay exactly as they are.
            old(self).state_view() matches UnwindIteratorState::Initial(pc) ==> (r matches Ok(
                Some(f),
            ) && !f.is_return_spec() && f.addr_spec() == pc && final(self).state_view()
                == UnwindIteratorState::Unwinding(f)),
            !(old(self).state_view() is Unwinding) ==> *final(cache) == *old(cache)
                && *final(read_stack) == *old(read_stack) && final(self).regs_view() == old(
                self,
            ).regs_view(),
            old(self).state_view() is Done ==> r == Ok::<Option<FrameAddress>, Error>(None)
                && *final(self) == *old(self),
            r matches Ok(Some(f)) ==> f.wf() && final(self).state_view()
                == UnwindIteratorState::Unwinding(f),
            old(self).state_view() is Unwinding ==> (r matches Ok(Some(f))
                ==> f.is_return_spec() && f.addr_spec() != 0),
            r == Ok::<Option<FrameAddress>, Error>(None) && old(self).state_view() is Unwinding
                ==> final(self).state_view() is Done,
            r is Err ==> final(self).state_view() == old(self).state_view(),
            // A step from a frame carries the dispatcher's full guarantee,
            // with a zero return address folded back out of the error.
            old(self).state_view() matches UnwindIteratorState::Unwinding(a)
                ==> spec_unwind_frame_post(
                unwinder.modules_view(),
                unwinder.generation(),
                a,
                old(self).regs_view(),
                final(self).regs_view(),
                *old(cache),
                *final(cache),
                (match r {
                    Ok(Some(f)) => Ok(Some(f.addr_spec())),
                    Ok(None) => Ok(None),
                    Err(Error::ReturnAddressIsNull) => Ok(Some(0)),
                    Err(e) => Err(e),
                }),
            ),
    {
        let st = self.state;
        let next = match st {
            UnwindIteratorState::Initial(pc) => {
                let f = FrameAddress::from_instruction_pointer(pc);
                self.state = UnwindIteratorState::Unwinding(f);
                return Ok(Some(f));
            },
            UnwindIteratorState::Unwinding(address) => {
                match unwinder.unwind_frame(address, &mut self.regs, cache, read_stack) {
                    Ok(v) => v,
                    Err(e) => {
                        return Err(e);
                    },
                }
            },
            UnwindIteratorState::Done => {
                return Ok(None);
            },
        };
        match next {
            Some(return_address) => {
                match FrameAddress::from_return_address(return_address) {
                    Some(f) => {
                        self.state = UnwindIteratorState::Unwinding(f);
                        Ok(Some(f))
                    },
                    None => Err(Error::ReturnAddressIsNull),
                }
            },
            None => {
                self.state = UnwindIteratorState::Done;
                Ok(None)
            },
        }
    }

    /// Yield the next frame as [`Self::next`] does, additionally running
    /// the given prologue and epilogue analysis on the innermost frame of
    /// modules with compact unwind info.
    pub fn next_with_analysis<R: ReadStack, A: InstructionAnalysis>(
        &mut self,
        unwinder: &UnwinderInternal,
        cache: &mut RuleCache,
        read_stack: &mut R,
        analysis: &A,
    ) -> (r: Result<Option<FrameAddress>, Error>)
        requires
            old(self).wf(),
            unwinder.wf(),
            old(cache).wf(),
        ensures
            final(self).wf(),
            final(cache).wf(),
            // Before the first frame and past the root, nothing runs: the
            // cache (entries and statistics alike), the reader and the
            // registers stay exactly as they are.
            old(self).state_view() matches UnwindIteratorState::Initial(pc) ==> (r matches Ok(
                Some(f),
            ) && !f.is_return_spec() && f.addr_spec() == pc && final(self).state_view()
                == UnwindIteratorState::Unwinding(f)),
            !(old(self).state_view() is Unwinding) ==> *final(cache) == *old(cache)
                && *final(read_stack) == *old(read_stack) && final(self).regs_view() == old(
                self,
            ).regs_view(),
            old(self).state_view() is Done ==> r == Ok::<Option<FrameAddress>, Error>(None)
                && *final(self) == *old(self),
            r matches Ok(Some(f)) ==> f.wf() && final(self).state_view()
                == UnwindIteratorState::Unwinding(f),
            old(self).state_view() is Unwinding ==> (r matches Ok(Some(f))
                ==> f.is_return_spec() && f.addr_spec() != 0),
            r == Ok::<Option<FrameAddress>, Error>(None) && old(self).state_view() is Unwinding
                ==> final(self).state_view() is Done,
            r is Err ==> final(self).state_view() == old(self).state_view(),
            // A step from a frame carries the dispatcher's full guarantee,
            // with a zero return address folded back out of the error.
            old(self).state_view() matches UnwindIteratorState::Unwinding(a)
                ==> spec_unwind_frame_post_weak(
                unwinder.modules_view(),
                unwinder.generation(),
                a,
                old(self).regs_view(),
                final(self).regs_view(),
                *old(cache),
                *final(cache),
                (match r {
                    Ok(Some(f)) => Ok(Some(f.addr_spec())),
                    Ok(None) => Ok(None),
                    Err(Error::ReturnAddressIsNull) => Ok(Some(0)),
                    Err(e) => Err(e),
                }),
            ),
    {
        let st = self.state;
        let next = match st {
            UnwindIteratorState::Initial(pc) => {
                let f = FrameAddress::from_instruction_pointer(pc);
                self.state = UnwindIteratorState::Unwinding(f);
                return Ok(Some(f));
            },
            UnwindIteratorState::Unwinding(address) => {
                match unwinder.unwind_frame_with_analysis(
                    address,
                    &mut self.regs,
                    cache,
                    read_stack,
                    analysis,
                ) {
                    Ok(v) => v,
                    Err(e) => {
                        return Err(e);
                    },
                }
            },
            UnwindIteratorState::Done => {
                return Ok(None);
            },
        };
        match next {
            Some(return_address) => {
                match FrameAddress::from_return_address(return_address) {
                    Some(f) => {
                        self.state = UnwindIteratorState::Unwinding(f);
                        Ok(Some(f))
                    },
                    None => Err(Error::ReturnAddressIsNull),
                }
            },
            None => {
                self.state = UnwindIteratorState::Done;
                Ok(None)
            },
        }
    }
}

/// The x86-64 unwinder: the module registry and dispatcher specialised to
/// the x86-64 register set and rules.
pub struct UnwinderX86_64 {
    inner: UnwinderInternal,
}

impl UnwinderX86_64 {
    pub closed spec fn modules_view(&self) -> Seq<Module> {
        self.inner.modules_view()
    }

    pub closed spec fn generation(&self) -> u16 {
        self.inner.generation()
    }

    pub open spec fn wf(&self) -> bool {
        spec_modules_wf(self.modules_view())
    }

    /// A fresh unwinder with no modules.
    pub fn new() -> (r: Self)
        ensures
            r.wf(),
            r.modules_view().len() == 0,
            r.generation() == 0,
    {
        UnwinderX86_64 { inner: UnwinderInternal::new() }
    }

    /// Register a loaded module; see [`UnwinderInternal::add_module`].
    pub fn add_module(&mut self, module: Module)
        requires
            old(self).wf(),
            module.wf(),
        ensures
            final(self).wf(),
            final(self).generation() == spec_next_generation(old(self).generation()),
            ({
                let s = old(self).modules_view();
                let p = spec_count_lt(s, module.spec_avma_start());
                if p < s.len() && s[p].spec_avma_start() == module.spec_avma_start() {
                    final(self).modules_view() == s.update(p, module)
                } else {
                    final(self).modules_view() == s.insert(p, module)
                }
            }),
    {
        self.inner.add_module(module);
    }

    /// Unregister a module by its range's start address; see
    /// [`UnwinderInternal::remove_module`].
    pub fn remove_module(&mut self, module_address_range_start: u64)
        requires
            old(self).wf(),
        ensures
            final(self).wf(),
            ({
                let s = old(self).modules_view();
                let p = spec_count_lt(s, module_address_range_start);
                if p < s.len() && s[p].spec_avma_start() == module_address_range_start {
                    final(self).modules_view() == s.remove(p) && final(self).generation()
                        == spec_next_generation(old(self).generation())
                } else {
                    final(self).modules_view() == s && final(self).generation() == old(
                        self,
                    ).generation()
                }
            }),
    {
        self.inner.remove_module(module_address_range_start);
    }

    /// The highest code address known from the module ranges, or 0.
    pub fn max_known_code_address(&self) -> (r: u64)
        requires
            self.wf(),
        ensures
            r == (if self.modules_view().len() == 0 {
                0u64
            } else {
                self.modules_view().last().spec_avma_end()
            }),
    {
        self.inner.max_known_code_address()
    }

    /// Unwind a single frame; see [`UnwinderInternal::unwind_frame`].
    pub fn unwind_frame<R: ReadStack>(
        &self,
        address: FrameAddress,
        regs: &mut UnwindRegsX86_64,
        cache: &mut RuleCache,
        read_stack: &mut R,
    ) -> (r: Result<Option<u64>, Error>)
        requires
            self.wf(),
            old(cache).wf(),
            address.wf(),
        ensures
            final(cache).wf(),
            spec_unwind_frame_post(
                self.modules_view(),
                self.generation(),
                address,
                *old(regs),
                *final(regs),
                *old(cache),
                *final(cache),
                r,
            ),
    {
        self.inner.unwind_frame(address, regs, cache, read_stack)
    }

    /// Unwind a single frame as [`Self::unwind_frame`] does, additionally
    /// running the given prologue and epilogue analysis on the innermost
    /// frame of modules with compact unwind info.
    pub fn unwind_frame_with_analysis<R: ReadStack, A: InstructionAnalysis>(
        &self,
        address: FrameAddress,
        regs: &mut UnwindRegsX86_64,
        cache: &mut RuleCache,
        read_stack: &mut R,
        analysis: &A,
    ) -> (r: Result<Option<u64>, Error>)
        requires
            self.wf(),
            old(cache).wf(),
            address.wf(),
        ensures
            final(cache).wf(),
            spec_unwind_frame_post_weak(
                self.modules_view(),
                self.generation(),
                address,
                *old(regs),
                *final(regs),
                *old(cache),
                *final(cache),
                r,
            ),
    {
        self.inner.unwind_frame_with_analysis(address, regs, cache, read_stack, analysis)
    }

    /// Start a frame-by-frame walk of the whole stack; drive it with
    /// [`UnwindIterator::next`], handing it this unwinder's registry.
    pub fn iter_frames(&self, pc: u64, regs: UnwindRegsX86_64) -> (r: UnwindIterator)
        ensures
            r.state_view() == UnwindIteratorState::Initial(pc),
            r.wf(),
    {
        UnwindIterator::new(pc, regs)
    }

    /// Borrow the registry for an [`UnwindIterator::next`] call.
    pub fn internal(&self) -> (r: &UnwinderInternal)
        ensures
            r.modules_view() == self.modules_view(),
            r.generation() == self.generation(),
    {
        &self.inner
    }
}

/// The operations every architecture's unwinder offers. The concrete types
/// carry the full contracts on their inherent methods; the trait states the
/// invariants that every operation preserves, so that code generic over the
/// architecture can keep calling.
pub trait Unwinder {
    /// The register record of the architecture.
    type UnwindRegs;

    /// The cache of unwind rules for the architecture.
    type Cache;

    /// The module type.
    type Module;

    /// The unwinder's invariant; its constructor establishes it and every
    /// operation keeps it.
    spec fn inv(&self) -> bool;

    /// The cache's invariant.
    spec fn cache_inv(cache: &Self::Cache) -> bool;

    /// The module type's invariant.
    spec fn module_inv(module: &Self::Module) -> bool;

    /// Register a module loaded in the profiled process.
    fn add_module(&mut self, module: Self::Module)
        requires
            old(self).inv(),
            Self::module_inv(&module),
        ensures
            final(self).inv(),
    ;

    /// Unregister the module that starts at the given address, if any.
    fn remove_module(&mut self, module_avma_range_start: u64)
        requires
            old(self).inv(),
        ensures
            final(self).inv(),
    ;

    /// The highest code address known from the module ranges, or 0.
    fn max_known_code_address(&self) -> u64
        requires
            self.inv(),
    ;

    /// Unwind a single frame.
    fn unwind_frame<R: ReadStack>(
        &self,
        address: FrameAddress,
        regs: &mut Self::UnwindRegs,
        cache: &mut Self::Cache,
        read_stack: &mut R,
    ) -> (r: Result<Option<u64>, Error>)
        requires
            self.inv(),
            Self::cache_inv(old(cache)),
            address.wf(),
        ensures
            Self::cache_inv(final(cache)),
    ;
}

impl Unwinder for UnwinderX86_64 {
    type UnwindRegs = UnwindRegsX86_64;

    type Cache = RuleCache;

    type Module = Module;

    open spec fn inv(&self) -> bool {
        self.wf()
    }

    open spec fn cache_inv(cache: &RuleCache) -> bool {
        cache.wf()
    }

    open spec fn module_inv(module: &Module) -> bool {
        module.wf()
    }

    fn add_module(&mut self, module: Module) {
        self.inner.add_module(module);
    }

    fn remove_module(&mut self, module_address_range_start: u64) {
        self.inner.remove_module(module_address_range_start);
    }

    fn max_known_code_address(&self) -> u64 {
        self.inner.max_known_code_address()
    }

    fn unwind_frame<R: ReadStack>(
        &self,
        address: FrameAddress,
        regs: &mut UnwindRegsX86_64,
        cache: &mut RuleCache,
        read_stack: &mut R,
    ) -> Result<Option<u64>, Error> {
        self.inner.unwind_frame(address, regs, cache, read_stack)
    }
}

} // verus!
