//! Translation table descriptors.
//!
//! A descriptor is one 64-bit entry of a translation table. A Level-0 entry
//! refers to a Level-1 table; a Level-1 entry maps one block of physical
//! memory and carries the attributes of that block. This module says how the
//! bits of a descriptor are read and builds the two forms that the tables hold.

use vstd::prelude::*;

verus! {

/// Bytes of physical memory that one Level-1 entry maps.
pub const BLOCK_SIZE: u64 = 0x20_0000;

/// Entries of the Level-1 table: the nominal 512 and one more, so that the
/// entry at the nominal boundary can be addressed.
pub const LEVEL1_ENTRIES: usize = 513;

/// Index of the first Level-1 entry that maps device memory. The entries below
/// it map normal memory.
pub const FIRST_DEVICE_BLOCK: usize = 504;

/// Physical address at which device memory begins.
pub const DEVICE_BASE: u64 = 0x3F00_0000;

/// Bit 10 of a block descriptor: the access flag.
pub const ACCESS_FLAG: u64 = 0x400;

/// Bit 63 of a table descriptor.
pub const TABLE_TOP_BIT: u64 = 0x8000_0000_0000_0000;

/// Bits 47 to 12 of a table descriptor: the address of the next table.
pub const TABLE_ADDRESS_MASK: u64 = 0x0000_FFFF_FFFF_F000;

/// Bits 47 to 21 of a block descriptor: the address of the block.
pub const BLOCK_ADDRESS_MASK: u64 = 0x0000_FFFF_FFE0_0000;

/// What the two low bits of a descriptor say that it is.
#[derive(Clone, Copy, Debug, PartialEq, Eq)]
pub enum DescriptorKind {
    /// Bit 0 is clear: nothing is mapped.
    Invalid,
    /// Low bits `01`: the entry maps a block of memory directly.
    Block,
    /// Low bits `11`: the entry refers to a table of the next level.
    Table,
}

/// The memory attribute profiles. A descriptor names a profile by its index;
/// the memory attribute register binds each index to an encoding.
#[derive(Clone, Copy, Debug, PartialEq, Eq)]
pub enum MemoryAttribute {
    /// Device memory: no gathering, no reordering, no early write acknowledge.
    DeviceNGnRnE,
    /// Device memory: no gathering, no reordering, early write acknowledge.
    DeviceNGnRE,
    /// Device memory: gathering, reordering, early write acknowledge.
    DeviceGRE,
    /// Normal memory, not cacheable.
    NormalNonCacheable,
    /// Normal memory, write-back cacheable.
    NormalWriteBack,
}

/// With whom the accesses to a block are kept coherent.
#[derive(Clone, Copy, Debug, PartialEq, Eq)]
pub enum Shareability {
    /// With no other observer.
    NonShareable,
    /// With the observers of the outer shareable domain.
    OuterShareable,
    /// With the observers of the inner shareable domain.
    InnerShareable,
}

impl MemoryAttribute {
    /// The index by which descriptors name this profile.
    pub open spec fn index_of(self) -> u64 {
        match self {
            MemoryAttribute::DeviceNGnRnE => 0,
            MemoryAttribute::DeviceNGnRE => 1,
            MemoryAttribute::DeviceGRE => 2,
            MemoryAttribute::NormalNonCacheable => 3,
            MemoryAttribute::NormalWriteBack => 4,
        }
    }

    /// The eight bits that describe this profile to the hardware.
    pub open spec fn encoding_of(self) -> u64 {
        match self {
            MemoryAttribute::DeviceNGnRnE => 0x00,
            MemoryAttribute::DeviceNGnRE => 0x04,
            MemoryAttribute::DeviceGRE => 0x0C,
            MemoryAttribute::NormalNonCacheable => 0x44,
            MemoryAttribute::NormalWriteBack => 0xFF,
        }
    }

    #[verifier::when_used_as_spec(index_of)]
    pub fn index(self) -> (i: u64)
        ensures
            i == self.index_of(),
            i < 5,
    {
        match self {
            MemoryAttribute::DeviceNGnRnE => 0,
            MemoryAttribute::DeviceNGnRE => 1,
            MemoryAttribute::DeviceGRE => 2,
            MemoryAttribute::NormalNonCacheable => 3,
            MemoryAttribute::NormalWriteBack => 4,
        }
    }

    #[verifier::when_used_as_spec(encoding_of)]
    pub fn encoding(self) -> (e: u64)
        ensures
            e == self.encoding_of(),
            e <= 0xFF,
    {
        match self {
            MemoryAttribute::DeviceNGnRnE => 0x00,
            MemoryAttribute::DeviceNGnRE => 0x04,
            MemoryAttribute::DeviceGRE => 0x0C,
            MemoryAttribute::NormalNonCacheable => 0x44,
            MemoryAttribute::NormalWriteBack => 0xFF,
        }
    }
}

impl Shareability {
    /// The two bits that stand for this setting in a descriptor.
    pub open spec fn bits_of(self) -> u64 {
        match self {
            Shareability::NonShareable => 0,
            Shareability::OuterShareable => 2,
            Shareability::InnerShareable => 3,
        }
    }

    #[verifier::when_used_as_spec(bits_of)]
    pub fn bits(self) -> (b: u64)
        ensures
            b == self.bits_of(),
            b < 4,
    {
        match self {
            Shareability::NonShareable => 0,
            Shareability::OuterShareable => 2,
            Shareability::InnerShareable => 3,
        }
    }
}

/// What kind of entry `descriptor` is.
pub open spec fn kind_of(descriptor: u64) -> DescriptorKind {
    if descriptor & 1 == 0 {
        DescriptorKind::Invalid
    } else if descriptor & 2 == 0 {
        DescriptorKind::Block
    } else {
        DescriptorKind::Table
    }
}

/// The address of the next-level table that a table descriptor holds.
pub open spec fn table_address_of(descriptor: u64) -> u64 {
    descriptor & TABLE_ADDRESS_MASK
}

/// The physical address of the block that a block descriptor maps.
pub open spec fn block_address_of(descriptor: u64) -> u64 {
    descriptor & BLOCK_ADDRESS_MASK
}

/// The index of the memory attribute profile that a block descriptor names.
pub open spec fn attribute_index_of(descriptor: u64) -> u64 {
    (descriptor >> 2) & 0x7
}

/// The shareability bits of a block descriptor.
pub open spec fn shareability_of(descriptor: u64) -> u64 {
    (descriptor >> 8) & 0x3
}

/// Whether the access flag of a block descriptor is set.
pub open spec fn access_flag_of(descriptor: u64) -> bool {
    descriptor & ACCESS_FLAG != 0
}

/// Whether the top bit of a table descriptor is set.
pub open spec fn top_bit_of(descriptor: u64) -> bool {
    descriptor & TABLE_TOP_BIT != 0
}

/// An address that the address field of a table descriptor can hold exactly:
/// aligned to 4096 bytes and below 2^48.
pub open spec fn is_table_address(addr: u64) -> bool {
    addr & TABLE_ADDRESS_MASK == addr
}

/// `descriptor` refers to the table at `addr`: it is a table descriptor, its
/// address field is `addr`, and its top bit is set.
pub open spec fn refers_to_table(descriptor: u64, addr: u64) -> bool {
    &&& kind_of(descriptor) == DescriptorKind::Table
    &&& table_address_of(descriptor) == addr
    &&& top_bit_of(descriptor)
}

/// The memory attribute profile of the block with Level-1 index `index`:
/// write-back normal memory below the device boundary, strongly ordered device
/// memory from it on.
pub open spec fn block_attribute(index: int) -> MemoryAttribute {
    if index < FIRST_DEVICE_BLOCK {
        MemoryAttribute::NormalWriteBack
    } else {
        MemoryAttribute::DeviceNGnRnE
    }
}

/// The shareability of the block with Level-1 index `index`: inner shareable
/// below the device boundary, non-shareable from it on.
pub open spec fn block_shareability(index: int) -> Shareability {
    if index < FIRST_DEVICE_BLOCK {
        Shareability::InnerShareable
    } else {
        Shareability::NonShareable
    }
}

/// `descriptor` maps the block with Level-1 index `index` onto itself: it is a
/// block descriptor whose address is `index * BLOCK_SIZE`, with the access
/// flag set and the attribute profile and shareability of that block.
pub open spec fn maps_block(descriptor: u64, index: int) -> bool {
    &&& kind_of(descriptor) == DescriptorKind::Block
    &&& block_address_of(descriptor) == index * BLOCK_SIZE
    &&& access_flag_of(descriptor)
    &&& attribute_index_of(descriptor) == block_attribute(index).index_of()
    &&& shareability_of(descriptor) == block_shareability(index).bits_of()
}

/// The Level-0 entry for the Level-1 table at `addr`.
pub open spec fn table_entry(addr: u64) -> u64 {
    TABLE_TOP_BIT | addr | 0b11
}

/// The attribute bits of a block descriptor: access flag, shareability and
/// attribute index, each in its place.
pub open spec fn block_attribute_bits(attribute: MemoryAttribute, shareability: Shareability) -> u64 {
    ACCESS_FLAG | (shareability.bits_of() << 8) | (attribute.index_of() << 2)
}

/// The Level-1 entry for the block with index `index`.
pub open spec fn block_entry(index: int) -> u64 {
    ((index * BLOCK_SIZE) as u64) | block_attribute_bits(
        block_attribute(index),
        block_shareability(index),
    ) | 0b01
}

/// Reads the kind of a descriptor from its two low bits.
pub fn kind(descriptor: u64) -> (k: DescriptorKind)
    ensures
        k == kind_of(descriptor),
{
    if descriptor & 1 == 0 {
        DescriptorKind::Invalid
    } else if descriptor & 2 == 0 {
        DescriptorKind::Block
    } else {
        DescriptorKind::Table
    }
}

/// Reads the address of the next-level table from a table descriptor.
pub fn table_address(descriptor: u64) -> (addr: u64)
    ensures
        addr == table_address_of(descriptor),
{
    descriptor & TABLE_ADDRESS_MASK
}

/// Reads the address of the mapped block from a block descriptor.
pub fn block_address(descriptor: u64) -> (addr: u64)
    ensures
        addr == block_address_of(descriptor),
{
    descriptor & BLOCK_ADDRESS_MASK
}

/// Reads the attribute index from a block descriptor.
pub fn attribute_index(descriptor: u64) -> (index: u64)
    ensures
        index == attribute_index_of(descriptor),
{
    (descriptor >> 2) & 0x7
}

/// Reads the shareability bits from a block descriptor.
pub fn shareability(descriptor: u64) -> (bits: u64)
    ensures
        bits == shareability_of(descriptor),
{
    (descriptor >> 8) & 0x3
}

/// Reads the access flag from a block descriptor.
pub fn access_flag(descriptor: u64) -> (set: bool)
    ensures
        set == access_flag_of(descriptor),
{
    descriptor & ACCESS_FLAG != 0
}

/// Builds the Level-0 entry that refers to the Level-1 table at `addr`: the
/// address, tagged as a table, with the top bit set.
pub fn table_descriptor(addr: u64) -> (d: u64)
    ensures
        d == table_entry(addr),
        kind_of(d) == DescriptorKind::Table,
        top_bit_of(d),
        is_table_address(addr) ==> refers_to_table(d, addr),
{
    proof {
        lemma_table_entry_refers(addr);
    }
    TABLE_TOP_BIT | addr | 0b11
}

/// Builds the Level-1 entry that maps the block with index `index` onto
/// itself, as normal memory below the device boundary and as device memory
/// from it on.
pub fn block_descriptor(index: usize) -> (d: u64)
    requires
        index < LEVEL1_ENTRIES,
    ensures
        d == block_entry(index as int),
        maps_block(d, index as int),
{
    let (attribute, shareability) = if index < FIRST_DEVICE_BLOCK {
        (MemoryAttribute::NormalWriteBack, Shareability::InnerShareable)
    } else {
        (MemoryAttribute::DeviceNGnRnE, Shareability::NonShareable)
    };
    let address: u64 = index as u64 * BLOCK_SIZE;
    let attributes: u64 = ACCESS_FLAG | (shareability.bits() << 8) | (attribute.index() << 2);
    proof {
        lemma_block_entry_maps(index as int);
    }
    address | attributes | 0b01
}

/// A table descriptor built for an address that its address field can hold
/// decodes to that address, and is tagged as a table, never as a block.
pub proof fn lemma_table_entry_refers(addr: u64)
    ensures
        kind_of(table_entry(addr)) == DescriptorKind::Table,
        top_bit_of(table_entry(addr)),
        is_table_address(addr) ==> table_address_of(table_entry(addr)) == addr,
{
    let d: u64 = table_entry(addr);
    assert(d & 1 != 0 && d & 2 != 0 && d & 0x8000_0000_0000_0000 != 0) by (bit_vector)
        requires
            d == 0x8000_0000_0000_0000u64 | addr | 0b11,
    ;
    assert(addr & 0x0000_FFFF_FFFF_F000 == addr ==> d & 0x0000_FFFF_FFFF_F000 == addr)
        by (bit_vector)
        requires
            d == 0x8000_0000_0000_0000u64 | addr | 0b11,
    ;
}

/// Every Level-1 entry decodes to the block it stands for: the address is the
/// index times the block size, the access flag is set, and the attribute index
/// and shareability are those of normal memory below the device boundary and
/// those of device memory from it on.
pub proof fn lemma_block_entry_maps(index: int)
    requires
        0 <= index < LEVEL1_ENTRIES,
    ensures
        maps_block(block_entry(index), index),
        block_entry(index) == if index < FIRST_DEVICE_BLOCK {
            (index * BLOCK_SIZE) as u64 | 0x710 | 0b01
        } else {
            (index * BLOCK_SIZE) as u64 | 0x400 | 0b01
        },
{
    let i: u64 = index as u64;
    let address: u64 = (index * BLOCK_SIZE) as u64;
    assert(0x400u64 | (3u64 << 8) | (4u64 << 2) == 0x710) by (bit_vector);
    assert(0x400u64 | (0u64 << 8) | (0u64 << 2) == 0x400) by (bit_vector);
    let d: u64 = block_entry(index);
    if index < FIRST_DEVICE_BLOCK {
        assert({
            &&& d & 1 != 0
            &&& d & 2 == 0
            &&& d & 0x0000_FFFF_FFE0_0000 == address
            &&& d & 0x400 != 0
            &&& (d >> 2) & 0x7 == 4
            &&& (d >> 8) & 0x3 == 3
        }) by (bit_vector)
            requires
                i < 513,
                address == i * 0x20_0000,
                d == address | 0x710 | 0b01,
        ;
    } else {
        assert({
            &&& d & 1 != 0
            &&& d & 2 == 0
            &&& d & 0x0000_FFFF_FFE0_0000 == address
            &&& d & 0x400 != 0
            &&& (d >> 2) & 0x7 == 0
            &&& (d >> 8) & 0x3 == 0
        }) by (bit_vector)
            requires
                i < 513,
                address == i * 0x20_0000,
                d == address | 0x400 | 0b01,
        ;
    }
}

/// The device boundary is the start of the first device block: the normal
/// range ends, and the device range begins, at `FIRST_DEVICE_BLOCK *
/// BLOCK_SIZE`, which is `0x3F00_0000`. A block lies below the boundary exactly
/// when it is mapped as normal memory.
pub proof fn lemma_device_boundary(index: int)
    requires
        0 <= index < LEVEL1_ENTRIES,
    ensures
        DEVICE_BASE == FIRST_DEVICE_BLOCK * BLOCK_SIZE,
        DEVICE_BASE == 0x3F00_0000,
        index * BLOCK_SIZE < DEVICE_BASE <==> block_attribute(index)
            == MemoryAttribute::NormalWriteBack,
        index * BLOCK_SIZE >= DEVICE_BASE <==> block_attribute(index)
            == MemoryAttribute::DeviceNGnRnE,
{
}

} // verus!
