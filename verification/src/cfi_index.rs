//! A one-shot index over a DWARF CFI section.
//!
//! When a module has `.eh_frame` without `.eh_frame_hdr`, or `.debug_frame`,
//! there is no lookup table on disk. At module registration the section is
//! walked once and every FDE's `(initial_location - base_svma, section
//! offset)` pair is recorded, sorted by start address. A frame lookup then
//! binary-searches for the greatest start address not above the lookup
//! address. The index does not check the FDE's extent: an address past the
//! last covered instruction still resolves to the nearest FDE, and the CFI
//! evaluation surfaces the miss.

use vstd::prelude::*;

use crate::dwarf::SectionBases;
use crate::dwarf::collect_debug_frame_fdes;
use crate::dwarf::collect_eh_frame_fdes;
use crate::dwarf::debug_frame_fde_pairs;
use crate::dwarf::eh_frame_fde_pairs;

verus! {

/// One FDE of the indexed section: where its function starts, in relative
/// addresses, and where the FDE sits in the section.
#[derive(Clone, Copy, Debug, PartialEq, Eq, Structural)]
pub struct FdeIndexEntry {
    /// `initial_location - base_svma` of the FDE.
    pub pc_start: u32,
    /// Byte offset of the FDE within its section.
    pub fde_offset: u32,
}

/// The entries are ordered by start address.
pub open spec fn spec_sorted(s: Seq<FdeIndexEntry>) -> bool {
    forall|i: int, j: int| 0 <= i < j < s.len() ==> s[i].pc_start <= s[j].pc_start
}

/// Whether a raw `(initial_location, fde_offset)` pair can be indexed: the
/// start must lie at or above the module's stated base and both fields must
/// fit 32 bits. Pairs outside this range are left out of the index.
pub open spec fn spec_admissible(pair: (u64, u64), base_svma: u64) -> bool {
    &&& pair.0 >= base_svma
    &&& pair.0 - base_svma <= u32::MAX
    &&& pair.1 <= u32::MAX
}

/// The index entry an admissible raw pair becomes.
pub open spec fn spec_entry_for(pair: (u64, u64), base_svma: u64) -> FdeIndexEntry {
    FdeIndexEntry { pc_start: (pair.0 - base_svma) as u32, fde_offset: pair.1 as u32 }
}

pub open spec fn spec_contains(s: Seq<FdeIndexEntry>, e: FdeIndexEntry) -> bool {
    exists|i: int| 0 <= i < s.len() && s[i] == e
}

/// Entry `j` of the index stems from an admissible pair of the walked list.
pub open spec fn spec_from_pairs(
    s: Seq<FdeIndexEntry>,
    j: int,
    pairs: Seq<(u64, u64)>,
    base_svma: u64,
) -> bool {
    exists|k: int|
        0 <= k < pairs.len() && #[trigger] spec_admissible(pairs[k], base_svma) && s[j]
            == spec_entry_for(pairs[k], base_svma)
}

/// The index holds exactly the admissible pairs of the walked FDE list:
/// every admissible pair appears as an entry, and every entry stems from
/// one.
pub open spec fn spec_indexes_pairs(
    s: Seq<FdeIndexEntry>,
    pairs: Seq<(u64, u64)>,
    base_svma: u64,
) -> bool {
    &&& (forall|k: int|
        0 <= k < pairs.len() && spec_admissible(pairs[k], base_svma) ==> spec_contains(
            s,
            spec_entry_for(pairs[k], base_svma),
        ))
    &&& (forall|j: int| 0 <= j < s.len() ==> spec_from_pairs(s, j, pairs, base_svma))
}

/// What a lookup returns: the offset of the last entry whose start address is
/// not above `pc`, or nothing when every entry starts above `pc`.
pub open spec fn spec_lookup(s: Seq<FdeIndexEntry>, pc: u32) -> Option<u32>
    decreases s.len(),
{
    if s.len() == 0 {
        None
    } else if s.last().pc_start <= pc {
        Some(s.last().fde_offset)
    } else {
        spec_lookup(s.drop_last(), pc)
    }
}

/// A sorted index of the FDEs of one CFI section.
pub struct DwarfCfiIndex {
    entries: Vec<FdeIndexEntry>,
}

impl DwarfCfiIndex {
    /// The entries, for specification purposes.
    pub closed spec fn entries_view(&self) -> Seq<FdeIndexEntry> {
        self.entries@
    }

    pub open spec fn wf(&self) -> bool {
        spec_sorted(self.entries_view())
    }

    /// Build the index from the raw `(initial_location, fde_offset)` pairs of
    /// one walk over the section. Exactly the admissible pairs end up in the
    /// index, sorted by relative start address.
    pub fn build(pairs: &Vec<(u64, u64)>, base_svma: u64) -> (r: Self)
        ensures
            r.wf(),
            spec_indexes_pairs(r.entries_view(), pairs@, base_svma),
    {
        let mut entries: Vec<FdeIndexEntry> = Vec::new();
        let mut k: usize = 0;
        while k < pairs.len()
            invariant
                k <= pairs@.len(),
                spec_sorted(entries@),
                forall|k2: int|
                    0 <= k2 < k && spec_admissible(pairs@[k2], base_svma) ==> spec_contains(
                        entries@,
                        spec_entry_for(pairs@[k2], base_svma),
                    ),
                forall|j: int|
                    0 <= j < entries@.len() ==> spec_from_pairs(entries@, j, pairs@.take(k as int), base_svma),
            decreases pairs@.len() - k,
        {
            let (initial_location, fde_offset) = pairs[k];
            if initial_location >= base_svma && initial_location - base_svma <= u32::MAX as u64
                && fde_offset <= u32::MAX as u64 {
                let e = FdeIndexEntry {
                    pc_start: (initial_location - base_svma) as u32,
                    fde_offset: fde_offset as u32,
                };
                let pos = upper_bound(&entries, e.pc_start);
                let ghost old_entries = entries@;
                entries.insert(pos, e);
                proof {
                    assert forall|i: int, j: int|
                        0 <= i < j < entries@.len() implies entries@[i].pc_start
                        <= entries@[j].pc_start by {
                        if i < pos as int {
                            assert(entries@[i] == old_entries[i]);
                        } else if i == pos as int {
                            assert(entries@[i] == e);
                        } else {
                            assert(entries@[i] == old_entries[i - 1]);
                        }
                        if j < pos as int {
                            assert(entries@[j] == old_entries[j]);
                        } else if j == pos as int {
                            assert(entries@[j] == e);
                        } else {
                            assert(entries@[j] == old_entries[j - 1]);
                        }
                    }
                    assert forall|k2: int|
                        0 <= k2 < k + 1 && spec_admissible(pairs@[k2], base_svma) implies
                        spec_contains(entries@, spec_entry_for(pairs@[k2], base_svma)) by {
                        let target = spec_entry_for(pairs@[k2], base_svma);
                        if k2 == k {
                            assert(entries@[pos as int] == e);
                        } else {
                            let j = choose|j: int| 0 <= j < old_entries.len() && old_entries[j]
                                == target;
                            if j < pos as int {
                                assert(entries@[j] == target);
                            } else {
                                assert(entries@[j + 1] == target);
                            }
                        }
                    }
                    assert forall|j: int| 0 <= j < entries@.len() implies #[trigger] spec_from_pairs(
                        entries@,
                        j,
                        pairs@.take(k as int + 1),
                        base_svma,
                    ) by {
                        let taken = pairs@.take(k as int + 1);
                        if j < pos as int {
                            assert(entries@[j] == old_entries[j]);
                            assert(spec_from_pairs(old_entries, j, pairs@.take(k as int), base_svma));
                            let k2 = choose|k2: int|
                                0 <= k2 < pairs@.take(k as int).len() && #[trigger] spec_admissible(
                                    pairs@.take(k as int)[k2],
                                    base_svma,
                                ) && old_entries[j] == spec_entry_for(
                                    pairs@.take(k as int)[k2],
                                    base_svma,
                                );
                            assert(taken[k2] == pairs@.take(k as int)[k2]);
                            assert(spec_admissible(taken[k2], base_svma));
                        } else if j == pos as int {
                            assert(entries@[j] == e);
                            assert(taken[k as int] == pairs@[k as int]);
                            assert(spec_admissible(taken[k as int], base_svma));
                            assert(entries@[j] == spec_entry_for(taken[k as int], base_svma));
                        } else {
                            assert(entries@[j] == old_entries[j - 1]);
                            assert(spec_from_pairs(
                                old_entries,
                                j - 1,
                                pairs@.take(k as int),
                                base_svma,
                            ));
                            let k2 = choose|k2: int|
                                0 <= k2 < pairs@.take(k as int).len() && #[trigger] spec_admissible(
                                    pairs@.take(k as int)[k2],
                                    base_svma,
                                ) && old_entries[j - 1] == spec_entry_for(
                                    pairs@.take(k as int)[k2],
                                    base_svma,
                                );
                            assert(taken[k2] == pairs@.take(k as int)[k2]);
                            assert(spec_admissible(taken[k2], base_svma));
                        }
                    }
                }
            } else {
                proof {
                    assert forall|j: int| 0 <= j < entries@.len() implies #[trigger] spec_from_pairs(
                        entries@,
                        j,
                        pairs@.take(k as int + 1),
                        base_svma,
                    ) by {
                        assert(spec_from_pairs(entries@, j, pairs@.take(k as int), base_svma));
                        let k2 = choose|k2: int|
                            0 <= k2 < pairs@.take(k as int).len() && #[trigger] spec_admissible(
                                pairs@.take(k as int)[k2],
                                base_svma,
                            ) && entries@[j] == spec_entry_for(pairs@.take(k as int)[k2], base_svma);
                        assert(pairs@.take(k as int + 1)[k2] == pairs@.take(k as int)[k2]);
                        assert(spec_admissible(pairs@.take(k as int + 1)[k2], base_svma));
                    }
                }
            }
            k += 1;
        }
        proof {
            assert(pairs@.take(pairs@.len() as int) =~= pairs@);
        }
        DwarfCfiIndex { entries }
    }

    /// Build the index for an `.eh_frame` section: walk the section once
    /// through the CFI parser, then index the admissible FDEs. A malformed
    /// section yields `None` and the module falls back to no unwind data.
    pub fn try_new_eh_frame(eh_frame: &[u8], bases: &SectionBases, base_svma: u64) -> (r: Option<
        Self,
    >)
        ensures
            r is Some <==> eh_frame_fde_pairs(
                eh_frame@,
                bases.eh_frame_hdr_svma,
                bases.eh_frame_svma,
                bases.text_svma,
                bases.got_svma,
            ) is Some,
            r matches Some(idx) ==> idx.wf() && (eh_frame_fde_pairs(
                eh_frame@,
                bases.eh_frame_hdr_svma,
                bases.eh_frame_svma,
                bases.text_svma,
                bases.got_svma,
            ) matches Some(pairs) && spec_indexes_pairs(idx.entries_view(), pairs, base_svma)),
    {
        match collect_eh_frame_fdes(eh_frame, bases) {
            Some(pairs) => Some(Self::build(&pairs, base_svma)),
            None => None,
        }
    }

    /// Build the index for a `.debug_frame` section, as
    /// [`Self::try_new_eh_frame`] does for `.eh_frame`.
    pub fn try_new_debug_frame(debug_frame: &[u8], bases: &SectionBases, base_svma: u64) -> (r:
        Option<Self>)
        ensures
            r is Some <==> debug_frame_fde_pairs(
                debug_frame@,
                bases.eh_frame_hdr_svma,
                bases.eh_frame_svma,
                bases.text_svma,
                bases.got_svma,
            ) is Some,
            r matches Some(idx) ==> idx.wf() && (debug_frame_fde_pairs(
                debug_frame@,
                bases.eh_frame_hdr_svma,
                bases.eh_frame_svma,
                bases.text_svma,
                bases.got_svma,
            ) matches Some(pairs) && spec_indexes_pairs(idx.entries_view(), pairs, base_svma)),
    {
        match collect_debug_frame_fdes(debug_frame, bases) {
            Some(pairs) => Some(Self::build(&pairs, base_svma)),
            None => None,
        }
    }

    /// Resolve a relative address to the offset of the FDE whose function
    /// starts last at or before it.
    pub fn fde_offset_for_relative_address(&self, rel_pc: u32) -> (r: Option<u32>)
        requires
            self.wf(),
        ensures
            r == spec_lookup(self.entries_view(), rel_pc),
    {
        let ub = upper_bound(&self.entries, rel_pc);
        if ub == 0 {
            proof {
                lemma_lookup_none(self.entries_view(), rel_pc);
            }
            None
        } else {
            proof {
                lemma_lookup_char(self.entries_view(), rel_pc, ub - 1);
            }
            Some(self.entries[ub - 1].fde_offset)
        }
    }
}

/// The first index whose entry starts above `pc`; every entry before it
/// starts at or before `pc`.
fn upper_bound(entries: &Vec<FdeIndexEntry>, pc: u32) -> (r: usize)
    requires
        spec_sorted(entries@),
    ensures
        r <= entries@.len(),
        forall|i: int| 0 <= i < r ==> entries@[i].pc_start <= pc,
        forall|i: int| r <= i < entries@.len() ==> entries@[i].pc_start > pc,
{
    let mut lo: usize = 0;
    let mut hi: usize = entries.len();
    while lo < hi
        invariant
            lo <= hi <= entries@.len(),
            spec_sorted(entries@),
            forall|i: int| 0 <= i < lo ==> entries@[i].pc_start <= pc,
            forall|i: int| hi <= i < entries@.len() ==> entries@[i].pc_start > pc,
        decreases hi - lo,
    {
        let mid = lo + (hi - lo) / 2;
        if entries[mid].pc_start <= pc {
            lo = mid + 1;
        } else {
            hi = mid;
        }
    }
    lo
}

/// When every entry starts above `pc`, a lookup finds nothing.
proof fn lemma_lookup_none(s: Seq<FdeIndexEntry>, pc: u32)
    requires
        forall|i: int| 0 <= i < s.len() ==> s[i].pc_start > pc,
    ensures
        spec_lookup(s, pc) is None,
    decreases s.len(),
{
    if s.len() > 0 {
        lemma_lookup_none(s.drop_last(), pc);
    }
}

/// A lookup returns the entry at the greatest index whose start is at or
/// before `pc`.
proof fn lemma_lookup_char(s: Seq<FdeIndexEntry>, pc: u32, j: int)
    requires
        spec_sorted(s),
        0 <= j < s.len(),
        s[j].pc_start <= pc,
        forall|i: int| j < i < s.len() ==> s[i].pc_start > pc,
    ensures
        spec_lookup(s, pc) == Some(s[j].fde_offset),
    decreases s.len(),
{
    if j == s.len() - 1 {
    } else {
        assert(s.last().pc_start > pc);
        lemma_lookup_char(s.drop_last(), pc, j);
    }
}

/// Law: resolving the relative start address of an FDE in the index returns
/// that FDE's own offset, for every index whose start addresses are pairwise
/// distinct, as they are in a well-formed section.
pub proof fn lemma_fde_index_round_trip(s: Seq<FdeIndexEntry>, i: int)
    requires
        spec_sorted(s),
        forall|a: int, b: int| 0 <= a < b < s.len() ==> s[a].pc_start != s[b].pc_start,
        0 <= i < s.len(),
    ensures
        spec_lookup(s, s[i].pc_start) == Some(s[i].fde_offset),
{
    assert forall|k: int| i < k < s.len() implies s[k].pc_start > s[i].pc_start by {
        assert(s[i].pc_start <= s[k].pc_start);
        assert(s[i].pc_start != s[k].pc_start);
    }
    lemma_lookup_char(s, s[i].pc_start, i);
}

} // verus!
