//! A direct-mapped cache from code address to unwind rule.
//!
//! The cache has exactly [`CACHE_SLOT_COUNT`] slots (a prime, to mix address
//! bits); an address maps to slot `address % CACHE_SLOT_COUNT`. Entries are
//! tagged with the modules generation current at lookup time, so that a rule
//! cached under an older module list of the same unwinder shows up as a
//! miss, never as a wrong rule for the same generation. Unwinders count
//! their generations independently (see `UnwinderInternal::new`), so a
//! cache is best given to one unwinder at a time.

use vstd::prelude::*;

use crate::unwind_rule::UnwindRuleX86_64;

verus! {

/// The number of slots in the cache.
pub const CACHE_SLOT_COUNT: usize = 509;

/// One filled cache slot.
#[derive(Clone, Copy, Debug, PartialEq, Eq, Structural)]
pub struct CacheEntry {
    /// The lookup address the rule was stored for.
    pub address: u64,
    /// The modules generation seen by the lookup that missed.
    pub modules_generation: u16,
    /// The cached rule.
    pub unwind_rule: UnwindRuleX86_64,
}

/// The slot an address maps to.
pub open spec fn spec_slot(address: u64) -> int {
    address as int % (CACHE_SLOT_COUNT as int)
}

/// What a lookup finds in the given slots: the stored rule when the slot for
/// the address holds that address under the same generation, nothing
/// otherwise.
pub open spec fn spec_lookup(
    entries: Seq<Option<CacheEntry>>,
    address: u64,
    modules_generation: u16,
) -> Option<UnwindRuleX86_64> {
    match entries[spec_slot(address)] {
        Some(e) => if e.modules_generation == modules_generation && e.address == address {
            Some(e.unwind_rule)
        } else {
            None
        },
        None => None,
    }
}

/// A token returned by a cache miss. It records the slot, the queried address
/// and the generation seen during the lookup, so that the rule computed for
/// the miss is inserted under exactly those parameters and a concurrent
/// module mutation cannot poison the cache.
#[derive(Clone, Copy, Debug)]
pub struct CacheHandle {
    slot: u16,
    address: u64,
    modules_generation: u16,
}

impl CacheHandle {
    pub closed spec fn spec_slot(&self) -> int {
        self.slot as int
    }

    pub closed spec fn spec_address(&self) -> u64 {
        self.address
    }

    pub closed spec fn spec_generation(&self) -> u16 {
        self.modules_generation
    }

    /// A handle always points at the slot of its address.
    pub open spec fn wf(&self) -> bool {
        self.spec_slot() == spec_slot(self.spec_address())
    }
}

/// The result of a cache lookup.
pub enum CacheResult {
    /// The cache had no matching rule; insert the computed rule through the
    /// handle.
    Miss(CacheHandle),
    /// The cached rule for the address and generation.
    Hit(UnwindRuleX86_64),
}

/// Statistics about the effectiveness of the rule cache. Counters saturate at
/// `u64::MAX` instead of wrapping.
#[derive(Clone, Copy, Debug, PartialEq, Eq, Structural)]
pub struct CacheStats {
    /// The number of successful cache hits.
    pub hit_count: u64,
    /// The number of cache misses that were due to an empty slot.
    pub miss_empty_slot_count: u64,
    /// The number of cache misses that were due to a filled slot whose
    /// modules generation did not match the current one: either the modules
    /// changed since the slot was filled, or several unwinders share the
    /// cache.
    pub miss_wrong_modules_count: u64,
    /// The number of cache misses that were due to a different address
    /// mapping to the same slot.
    pub miss_wrong_address_count: u64,
}

/// `x + 1`, stopping at `u64::MAX`.
pub open spec fn spec_saturating_inc(x: u64) -> u64 {
    if x == u64::MAX {
        x
    } else {
        (x + 1) as u64
    }
}

/// The statistics after one lookup: exactly one counter advances, matching
/// the kind of outcome the slots dictate for the address and generation.
pub open spec fn spec_lookup_stats(
    entries: Seq<Option<CacheEntry>>,
    address: u64,
    modules_generation: u16,
    stats: CacheStats,
) -> CacheStats {
    match entries[spec_slot(address)] {
        None => CacheStats {
            miss_empty_slot_count: spec_saturating_inc(stats.miss_empty_slot_count),
            ..stats
        },
        Some(e) => if e.modules_generation != modules_generation {
            CacheStats {
                miss_wrong_modules_count: spec_saturating_inc(stats.miss_wrong_modules_count),
                ..stats
            }
        } else if e.address != address {
            CacheStats {
                miss_wrong_address_count: spec_saturating_inc(stats.miss_wrong_address_count),
                ..stats
            }
        } else {
            CacheStats { hit_count: spec_saturating_inc(stats.hit_count), ..stats }
        },
    }
}

impl CacheStats {
    /// Create a new instance with all counters at zero.
    pub fn new() -> (r: Self)
        ensures
            r == (CacheStats {
                hit_count: 0,
                miss_empty_slot_count: 0,
                miss_wrong_modules_count: 0,
                miss_wrong_address_count: 0,
            }),
    {
        CacheStats {
            hit_count: 0,
            miss_empty_slot_count: 0,
            miss_wrong_modules_count: 0,
            miss_wrong_address_count: 0,
        }
    }

    /// The number of total lookups, saturating at `u64::MAX`.
    pub fn total(&self) -> (r: u64)
        ensures
            self.hit_count + self.miss_empty_slot_count + self.miss_wrong_modules_count
                + self.miss_wrong_address_count <= u64::MAX ==> r == self.hit_count
                + self.miss_empty_slot_count + self.miss_wrong_modules_count
                + self.miss_wrong_address_count,
    {
        self.hits().saturating_add(self.misses())
    }

    /// The number of total hits.
    pub fn hits(&self) -> (r: u64)
        ensures
            r == self.hit_count,
    {
        self.hit_count
    }

    /// The number of total misses, saturating at `u64::MAX`.
    pub fn misses(&self) -> (r: u64)
        ensures
            self.miss_empty_slot_count + self.miss_wrong_modules_count
                + self.miss_wrong_address_count <= u64::MAX ==> r == self.miss_empty_slot_count
                + self.miss_wrong_modules_count + self.miss_wrong_address_count,
    {
        self.miss_empty_slot_count.saturating_add(self.miss_wrong_modules_count).saturating_add(
            self.miss_wrong_address_count,
        )
    }
}

impl Default for CacheStats {
    fn default() -> (r: Self)
        ensures
            r == (CacheStats {
                hit_count: 0,
                miss_empty_slot_count: 0,
                miss_wrong_modules_count: 0,
                miss_wrong_address_count: 0,
            }),
    {
        CacheStats::new()
    }
}

/// The direct-mapped rule cache.
pub struct RuleCache {
    entries: Vec<Option<CacheEntry>>,
    stats: CacheStats,
}

impl RuleCache {
    /// The slots, for specification purposes.
    pub closed spec fn entries_view(&self) -> Seq<Option<CacheEntry>> {
        self.entries@
    }

    /// The statistics, for specification purposes.
    pub closed spec fn stats_view(&self) -> CacheStats {
        self.stats
    }

    /// The cache always holds exactly [`CACHE_SLOT_COUNT`] slots.
    pub open spec fn wf(&self) -> bool {
        self.entries_view().len() == CACHE_SLOT_COUNT
    }

    /// Create an empty cache. All slots start out empty and all statistics at
    /// zero.
    pub fn new() -> (r: Self)
        ensures
            r.wf(),
            forall|i: int| 0 <= i < CACHE_SLOT_COUNT ==> r.entries_view()[i] is None,
            r.stats_view() == (CacheStats {
                hit_count: 0,
                miss_empty_slot_count: 0,
                miss_wrong_modules_count: 0,
                miss_wrong_address_count: 0,
            }),
    {
        let mut entries: Vec<Option<CacheEntry>> = Vec::new();
        let mut i: usize = 0;
        while i < CACHE_SLOT_COUNT
            invariant
                i == entries@.len(),
                i <= CACHE_SLOT_COUNT,
                forall|j: int| 0 <= j < i ==> entries@[j] is None,
            decreases CACHE_SLOT_COUNT - i,
        {
            entries.push(None);
            i += 1;
        }
        RuleCache { entries, stats: CacheStats::new() }
    }

    /// Look up the rule cached for `address` under `modules_generation`.
    ///
    /// A hit requires the slot to hold exactly this address under exactly
    /// this generation. Anything else is a miss carrying a handle for the
    /// slot; the three kinds of miss bump three separate counters.
    pub fn lookup(&mut self, address: u64, modules_generation: u16) -> (r: CacheResult)
        requires
            old(self).wf(),
        ensures
            final(self).wf(),
            final(self).entries_view() == old(self).entries_view(),
            match spec_lookup(old(self).entries_view(), address, modules_generation) {
                Some(rule) => r matches CacheResult::Hit(got) && got == rule,
                None => r matches CacheResult::Miss(h) && h.wf() && h.spec_address() == address
                    && h.spec_generation() == modules_generation,
            },
            // Exactly one counter advances, matching the kind of outcome.
            final(self).stats_view() == spec_lookup_stats(
                old(self).entries_view(),
                address,
                modules_generation,
                old(self).stats_view(),
            ),
    {
        let slot: u16 = (address % (CACHE_SLOT_COUNT as u64)) as u16;
        match &self.entries[slot as usize] {
            None => {
                self.stats.miss_empty_slot_count = self.stats.miss_empty_slot_count.saturating_add(
                    1,
                );
            },
            Some(entry) => {
                if entry.modules_generation == modules_generation {
                    if entry.address == address {
                        let rule = entry.unwind_rule;
                        self.stats.hit_count = self.stats.hit_count.saturating_add(1);
                        return CacheResult::Hit(rule);
                    } else {
                        self.stats.miss_wrong_address_count =
                            self.stats.miss_wrong_address_count.saturating_add(1);
                    }
                } else {
                    self.stats.miss_wrong_modules_count =
                        self.stats.miss_wrong_modules_count.saturating_add(1);
                }
            },
        }
        CacheResult::Miss(CacheHandle { slot, address, modules_generation })
    }

    /// Store `unwind_rule` in the slot the handle points at, under the
    /// handle's address and generation. The slot is overwritten
    /// unconditionally; a handle whose generation is stale is still honoured,
    /// because the next lookup under the current generation will miss on it.
    pub fn insert(&mut self, handle: CacheHandle, unwind_rule: UnwindRuleX86_64)
        requires
            old(self).wf(),
            handle.wf(),
        ensures
            final(self).wf(),
            final(self).entries_view() == old(self).entries_view().update(
                handle.spec_slot(),
                Some(
                    CacheEntry {
                        address: handle.spec_address(),
                        modules_generation: handle.spec_generation(),
                        unwind_rule,
                    },
                ),
            ),
            final(self).stats_view() == old(self).stats_view(),
    {
        let CacheHandle { slot, address, modules_generation } = handle;
        proof {
            assert(spec_slot(address) < CACHE_SLOT_COUNT as int);
        }
        self.entries.set(
            slot as usize,
            Some(CacheEntry { address, modules_generation, unwind_rule }),
        );
    }

    /// Returns a snapshot of the cache usage statistics.
    pub fn stats(&self) -> (r: CacheStats)
        ensures
            r == self.stats_view(),
    {
        self.stats
    }
}

/// Law: a lookup immediately after an insert through a handle derived from
/// the same address and generation is a hit that returns the inserted rule.
pub proof fn lemma_insert_then_lookup(
    entries: Seq<Option<CacheEntry>>,
    address: u64,
    modules_generation: u16,
    unwind_rule: UnwindRuleX86_64,
)
    requires
        entries.len() == CACHE_SLOT_COUNT,
    ensures
        spec_lookup(
            entries.update(
                spec_slot(address),
                Some(CacheEntry { address, modules_generation, unwind_rule }),
            ),
            address,
            modules_generation,
        ) == Some(unwind_rule),
{
}

} // verus!
