//! The translation table region and the routine that fills it.
//!
//! The region holds a Level-0 table, whose entries each reach one gigabyte,
//! and a Level-1 table, whose entries each map a block of two megabytes onto
//! itself. Together they map all of physical memory once: a low range as
//! normal memory, the range from the device boundary on as device memory.

use vstd::prelude::*;
use crate::descriptor::{
    block_address_of, block_descriptor, block_entry, is_table_address, kind_of,
    lemma_block_entry_maps, lemma_table_entry_refers, maps_block, refers_to_table,
    table_descriptor, table_entry, top_bit_of, DescriptorKind, BLOCK_SIZE, LEVEL1_ENTRIES,
};

verus! {

/// Entries of the Level-0 table.
pub const LEVEL0_ENTRIES: usize = 512;

/// Index of the Level-1 entry at which the table that the second Level-0 entry
/// refers to begins: the nominal end of the Level-1 table, which is why that
/// table is one entry longer.
pub const LEVEL1_UPPER_INDEX: usize = 512;

/// The first address that the Level-1 table does not map.
pub const MAPPED_END: u64 = 0x4020_0000;

/// The translation table region. It must lie at an address aligned to 4096
/// bytes and stay in place for as long as translation is enabled.
pub struct MmuConfig {
    /// Level-0 translation table: each entry covers 1 GB of memory.
    pub ttlb_lvl0: [u64; LEVEL0_ENTRIES],
    /// Level-1 translation table: each entry covers 2 MB of memory.
    pub ttlb_lvl1: [u64; LEVEL1_ENTRIES],
}

/// The Level-0 table after it was built over `before`, for Level-1 tables at
/// `lower` and `upper`: the first two entries refer to them, the others are
/// as they were.
pub open spec fn built_level0(before: Seq<u64>, lower: u64, upper: u64) -> Seq<u64> {
    before.update(0, table_entry(lower)).update(1, table_entry(upper))
}

/// The Level-1 table once built: entry `i` maps block `i`.
pub open spec fn built_level1() -> Seq<u64> {
    Seq::new(LEVEL1_ENTRIES as nat, |i: int| block_entry(i))
}

/// The index of the block in which the address `addr` lies.
pub open spec fn block_index(addr: u64) -> int {
    addr as int / BLOCK_SIZE as int
}

/// The physical address that a Level-1 table gives for the address `addr`:
/// the block address held by the entry of the block in which `addr` lies,
/// plus the offset of `addr` within that block.
pub open spec fn resolve(level1: Seq<u64>, addr: u64) -> int {
    block_address_of(level1[block_index(addr)]) + addr as int % BLOCK_SIZE as int
}

impl MmuConfig {
    /// A region in which nothing is mapped: every entry is zero.
    pub fn new() -> (config: MmuConfig)
        ensures
            forall|i: int| 0 <= i < LEVEL0_ENTRIES ==> config.ttlb_lvl0@[i] == 0,
            forall|i: int| 0 <= i < LEVEL1_ENTRIES ==> config.ttlb_lvl1@[i] == 0,
    {
        MmuConfig { ttlb_lvl0: [0u64; LEVEL0_ENTRIES], ttlb_lvl1: [0u64; LEVEL1_ENTRIES] }
    }
}

/// Fills the translation tables.
///
/// `level1_lower` is the address of the first Level-1 entry and `level1_upper`
/// that of the Level-1 entry with index `LEVEL1_UPPER_INDEX`. The first two
/// Level-0 entries are made to refer to the tables at these addresses; the
/// other Level-0 entries are left as they are. Every Level-1 entry is written:
/// entry `i` maps the block at `i * BLOCK_SIZE` onto itself, as write-back
/// normal memory below the device boundary and as device memory from it on.
///
/// To be called with translation disabled, by one core only. The caller makes
/// the writes visible to the table walker afterwards (a store barrier and an
/// invalidation of the translation lookaside buffer).
pub fn setup_page_tables(config: &mut MmuConfig, level1_lower: u64, level1_upper: u64)
    ensures
        final(config).ttlb_lvl0@ == built_level0(
            old(config).ttlb_lvl0@,
            level1_lower,
            level1_upper,
        ),
        final(config).ttlb_lvl1@ == built_level1(),
        kind_of(final(config).ttlb_lvl0@[0]) == DescriptorKind::Table,
        kind_of(final(config).ttlb_lvl0@[1]) == DescriptorKind::Table,
        top_bit_of(final(config).ttlb_lvl0@[0]),
        top_bit_of(final(config).ttlb_lvl0@[1]),
        is_table_address(level1_lower) ==> refers_to_table(
            final(config).ttlb_lvl0@[0],
            level1_lower,
        ),
        is_table_address(level1_upper) ==> refers_to_table(
            final(config).ttlb_lvl0@[1],
            level1_upper,
        ),
        forall|i: int|
            0 <= i < LEVEL1_ENTRIES ==> maps_block(#[trigger] final(config).ttlb_lvl1@[i], i),
{
    config.ttlb_lvl0[0] = table_descriptor(level1_lower);
    config.ttlb_lvl0[1] = table_descriptor(level1_upper);

    let mut i: usize = 0;
    while i < LEVEL1_ENTRIES
        invariant
            i <= LEVEL1_ENTRIES,
            config.ttlb_lvl0@ == built_level0(old(config).ttlb_lvl0@, level1_lower, level1_upper),
            forall|j: int| 0 <= j < i ==> #[trigger] config.ttlb_lvl1@[j] == block_entry(j),
            forall|j: int| 0 <= j < i ==> maps_block(#[trigger] config.ttlb_lvl1@[j], j),
        decreases LEVEL1_ENTRIES - i,
    {
        config.ttlb_lvl1[i] = block_descriptor(i);
        i += 1;
    }
}

/// Building the tables again, for the same addresses, changes nothing.
pub proof fn lemma_build_idempotent(level0: Seq<u64>, lower: u64, upper: u64)
    requires
        level0.len() == LEVEL0_ENTRIES,
    ensures
        built_level0(built_level0(level0, lower, upper), lower, upper) == built_level0(
            level0,
            lower,
            upper,
        ),
{
    assert(built_level0(built_level0(level0, lower, upper), lower, upper) =~= built_level0(
        level0,
        lower,
        upper,
    ));
}

/// The built tables refer to the Level-1 tables they were built for, wherever
/// the address of such a table is one that a table descriptor can hold, and
/// every Level-1 entry maps its block.
pub proof fn lemma_built_tables(level0: Seq<u64>, lower: u64, upper: u64)
    requires
        level0.len() == LEVEL0_ENTRIES,
    ensures
        kind_of(built_level0(level0, lower, upper)[0]) == DescriptorKind::Table,
        kind_of(built_level0(level0, lower, upper)[1]) == DescriptorKind::Table,
        is_table_address(lower) ==> refers_to_table(built_level0(level0, lower, upper)[0], lower),
        is_table_address(upper) ==> refers_to_table(built_level0(level0, lower, upper)[1], upper),
        forall|i: int|
            2 <= i < LEVEL0_ENTRIES ==> built_level0(level0, lower, upper)[i] == level0[i],
        forall|i: int| 0 <= i < LEVEL1_ENTRIES ==> maps_block(#[trigger] built_level1()[i], i),
{
    lemma_table_entry_refers(lower);
    lemma_table_entry_refers(upper);
    assert forall|i: int| 0 <= i < LEVEL1_ENTRIES implies maps_block(
        #[trigger] built_level1()[i],
        i,
    ) by {
        lemma_block_entry_maps(i);
    }
}

/// The built Level-1 table maps every address below `MAPPED_END` onto itself,
/// through the entry of the block in which the address lies.
pub proof fn lemma_identity_mapping(addr: u64)
    requires
        addr < MAPPED_END,
    ensures
        MAPPED_END == LEVEL1_ENTRIES * BLOCK_SIZE,
        0 <= block_index(addr) < LEVEL1_ENTRIES,
        maps_block(built_level1()[block_index(addr)], block_index(addr)),
        resolve(built_level1(), addr) == addr,
{
    lemma_block_entry_maps(block_index(addr));
}

} // verus!
