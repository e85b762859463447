//! The system registers that the setup programs, and the values it gives them.
//!
//! A register is programmed by fields: a write names some fields with their
//! values and leaves the other bits of the register as they are. The values
//! are composed with the field arithmetic of `ruspiro_register`.

use vstd::prelude::*;
use ruspiro_register::{RegisterField, RegisterFieldValue};
use crate::descriptor::MemoryAttribute;

verus! {

/// The system registers of exception level 2 that take part in the setup.
#[derive(Clone, Copy, Debug, PartialEq, Eq)]
pub enum Register {
    /// System control register: the switch for translation and the caches.
    SctlrEl2,
    /// Memory attribute indirection register: binds attribute indices to
    /// attribute encodings.
    MairEl2,
    /// Translation table base register: where the table walk starts.
    Ttbr0El2,
    /// Translation control register: how the tables are walked.
    TcrEl2,
    /// Hypervisor configuration register.
    HcrEl2,
}

/// Values for some fields of a register, each already at its place in the
/// register: `mask` has the bits of the named fields, `bits` their values.
#[derive(Clone, Copy, Debug, PartialEq, Eq)]
pub struct FieldValue {
    pub mask: u64,
    pub bits: u64,
}

/// The bits in a register of a field `width_mask` wide that starts at bit
/// `offset`.
pub open spec fn field_mask(width_mask: u64, offset: u64) -> u64 {
    width_mask << offset
}

/// `value`, cut to the width of the field and moved to the field's place.
pub open spec fn field_bits(width_mask: u64, offset: u64, value: u64) -> u64 {
    (value & width_mask) << offset
}

impl FieldValue {
    /// The register value that a write of these fields leaves behind, where
    /// the register held `current`: the named fields take their new values,
    /// all other bits stay.
    pub open spec fn merged(self, current: u64) -> u64 {
        (current & !self.mask) | self.bits
    }

    /// The values lie within the named fields.
    pub open spec fn well_formed(self) -> bool {
        self.bits & !self.mask == 0
    }

    /// Whether a register that holds `value` has these fields at these values.
    pub open spec fn holds_in(self, value: u64) -> bool {
        value & self.mask == self.bits
    }

    /// Computes the value to write to a register that holds `current`, so
    /// that the named fields take their values and nothing else changes.
    pub fn merge(self, current: u64) -> (value: u64)
        ensures
            value == self.merged(current),
    {
        (current & !self.mask) | self.bits
    }
}

/// The mask and the value of one register field, each at the field's place
/// in the register, as `ruspiro_register` computes them.
///
/// Not verified. The body makes the field with `RegisterField::<u64>::new`
/// and the field value with `RegisterFieldValue::<u64>::new`, which cuts
/// `value` to `width_mask`, and reads the result with
/// `RegisterFieldValue::mask` and `RegisterFieldValue::raw_value`. For an
/// offset below 64 these shift the field's mask and the stored value left by
/// the offset; bits that leave the register are dropped.
#[verifier::external_body]
fn field_value(width_mask: u64, offset: u64, value: u64) -> (fv: FieldValue)
    requires
        offset < 64,
    ensures
        fv.mask == field_mask(width_mask, offset),
        fv.bits == field_bits(width_mask, offset, value),
{
    let v = RegisterFieldValue::<u64>::new(RegisterField::<u64>::new(width_mask, offset), value);
    FieldValue { mask: v.mask(), bits: v.raw_value() }
}

/// The fields of `a` and of `b` together, as `ruspiro_register` joins them.
///
/// Not verified. The body hands both values to the `|` of
/// `RegisterFieldValue<u64>`, each as a field value with its mask at offset
/// zero, so that `RegisterFieldValue::<u64>::new` cuts its bits to its mask.
/// The `|` unites the masks and unites the values; the result is read with
/// `RegisterFieldValue::mask` and `RegisterFieldValue::raw_value`.
#[verifier::external_body]
fn join(a: FieldValue, b: FieldValue) -> (fv: FieldValue)
    ensures
        fv.mask == a.mask | b.mask,
        fv.bits == (a.bits & a.mask) | (b.bits & b.mask),
{
    let x = RegisterFieldValue::<u64>::new(RegisterField::<u64>::new(a.mask, 0), a.bits);
    let y = RegisterFieldValue::<u64>::new(RegisterField::<u64>::new(b.mask, 0), b.bits);
    let v = x | y;
    FieldValue { mask: v.mask(), bits: v.raw_value() }
}

/// System control fields with translation, data cache and instruction cache
/// switched off.
pub open spec fn sctlr_off() -> FieldValue {
    FieldValue { mask: 0x1005, bits: 0 }
}

/// System control fields with translation and the data cache switched on, and
/// alignment checking, stack alignment checking and the instruction cache
/// switched off.
pub open spec fn sctlr_on() -> FieldValue {
    FieldValue { mask: 0x100F, bits: 0x5 }
}

/// Memory attribute fields: attribute index `i` is bound to the encoding of
/// the profile with that index, for each of the five profiles.
pub open spec fn mair_profiles() -> FieldValue {
    FieldValue { mask: 0xFF_FFFF_FFFF, bits: 0xFF_440C_0400 }
}

/// Translation table base field: the low 48 bits of `level0_addr`.
pub open spec fn ttbr0_base(level0_addr: u64) -> FieldValue {
    FieldValue { mask: 0xFFFF_FFFF_FFFF, bits: level0_addr & 0xFFFF_FFFF_FFFF }
}

/// Translation control fields: 39 bits of input address (T0SZ = 25), table
/// walks inner and outer write-back cacheable and inner shareable, granules
/// of 4 KB, 32 bits of physical address, top byte ignored.
pub open spec fn tcr_walk() -> FieldValue {
    FieldValue { mask: 0x17_FF3F, bits: 0x10_3519 }
}

/// Hypervisor configuration fields: second stage translation and default
/// cacheability switched off.
pub open spec fn hcr_direct() -> FieldValue {
    FieldValue { mask: 0x1001, bits: 0 }
}

/// Whether a system control value has translation switched on.
pub open spec fn translation_enabled(sctlr: u64) -> bool {
    sctlr & 1 != 0
}

/// Whether a register that holds `mair` binds the index of `attribute` to the
/// encoding of `attribute`.
pub open spec fn binds_attribute(mair: u64, attribute: MemoryAttribute) -> bool {
    (mair >> (8 * attribute.index_of()) as u64) & 0xFF == attribute.encoding_of()
}

/// Starts a register value with one field: `width_mask` wide, at bit
/// `offset`, holding `value` cut to that width.
fn first_field(width_mask: u64, offset: u64, value: u64) -> (fv: FieldValue)
    requires
        offset < 64,
    ensures
        fv.mask == field_mask(width_mask, offset),
        fv.bits == field_bits(width_mask, offset, value),
        fv.well_formed(),
{
    let fv = field_value(width_mask, offset, value);
    assert(((value & width_mask) << offset) & !(width_mask << offset) == 0) by (bit_vector);
    fv
}

/// Adds one more field to a register value.
fn with_field(acc: FieldValue, width_mask: u64, offset: u64, value: u64) -> (fv: FieldValue)
    requires
        offset < 64,
        acc.well_formed(),
    ensures
        fv.mask == acc.mask | field_mask(width_mask, offset),
        fv.bits == acc.bits | field_bits(width_mask, offset, value),
        fv.well_formed(),
{
    let next = field_value(width_mask, offset, value);
    let fv = join(acc, next);
    proof {
        let am: u64 = acc.mask;
        let ab: u64 = acc.bits;
        let nm: u64 = next.mask;
        let nb: u64 = next.bits;
        assert(((value & width_mask) << offset) & (width_mask << offset) == (value & width_mask)
            << offset) by (bit_vector);
        assert(ab & am == ab && ((ab | nb) & !(am | nm) == 0)) by (bit_vector)
            requires
                ab & !am == 0,
                nb & nm == nb,
        ;
    }
    fv
}

/// The field of the memory attribute register that binds the index of
/// `attribute`: eight bits at eight times the index.
fn attribute_offset(attribute: MemoryAttribute) -> (offset: u64)
    ensures
        offset == 8 * attribute.index_of(),
        offset < 64,
{
    8 * attribute.index()
}

/// The fields that switch translation, the data cache and the instruction
/// cache off.
pub fn sctlr_disable_fields() -> (fv: FieldValue)
    ensures
        fv == sctlr_off(),
{
    // M: translation off
    let fv = first_field(0x1, 0, 0);
    // C: data cache off
    let fv = with_field(fv, 0x1, 2, 0);
    // I: instruction cache off
    let fv = with_field(fv, 0x1, 12, 0);
    proof {
        let mask: u64 = fv.mask;
        let bits: u64 = fv.bits;
        assert(mask == 0x1005 && bits == 0) by (bit_vector)
            requires
                mask == field_mask(1, 0) | field_mask(1, 2) | field_mask(1, 12),
                bits == field_bits(1, 0, 0) | field_bits(1, 2, 0) | field_bits(1, 12, 0),
        ;
    }
    fv
}

/// The fields that switch translation and the data cache on, and leave
/// alignment checking, stack alignment checking and the instruction cache off.
/// Writing them is what activates translation.
pub fn sctlr_enable_fields() -> (fv: FieldValue)
    ensures
        fv == sctlr_on(),
{
    // M: translation on
    let fv = first_field(0x1, 0, 1);
    // A: alignment fault checking off
    let fv = with_field(fv, 0x1, 1, 0);
    // C: data cache on
    let fv = with_field(fv, 0x1, 2, 1);
    // SA: stack alignment checking off
    let fv = with_field(fv, 0x1, 3, 0);
    // I: instruction cache off
    let fv = with_field(fv, 0x1, 12, 0);
    proof {
        let mask: u64 = fv.mask;
        let bits: u64 = fv.bits;
        assert(mask == 0x100F && bits == 0x5) by (bit_vector)
            requires
                mask == field_mask(1, 0) | field_mask(1, 1) | field_mask(1, 2) | field_mask(1, 3)
                    | field_mask(1, 12),
                bits == field_bits(1, 0, 1) | field_bits(1, 1, 0) | field_bits(1, 2, 1)
                    | field_bits(1, 3, 0) | field_bits(1, 12, 0),
        ;
    }
    fv
}

/// The fields that bind each of the five attribute indices to the encoding of
/// its profile.
pub fn mair_fields() -> (fv: FieldValue)
    ensures
        fv == mair_profiles(),
{
    let a0 = MemoryAttribute::DeviceNGnRnE;
    let a1 = MemoryAttribute::DeviceNGnRE;
    let a2 = MemoryAttribute::DeviceGRE;
    let a3 = MemoryAttribute::NormalNonCacheable;
    let a4 = MemoryAttribute::NormalWriteBack;
    let fv = first_field(0xFF, attribute_offset(a0), a0.encoding());
    let fv = with_field(fv, 0xFF, attribute_offset(a1), a1.encoding());
    let fv = with_field(fv, 0xFF, attribute_offset(a2), a2.encoding());
    let fv = with_field(fv, 0xFF, attribute_offset(a3), a3.encoding());
    let fv = with_field(fv, 0xFF, attribute_offset(a4), a4.encoding());
    proof {
        let mask: u64 = fv.mask;
        let bits: u64 = fv.bits;
        assert(mask == 0xFF_FFFF_FFFF && bits == 0xFF_440C_0400) by (bit_vector)
            requires
                mask == field_mask(0xFF, 0) | field_mask(0xFF, 8) | field_mask(0xFF, 16)
                    | field_mask(0xFF, 24) | field_mask(0xFF, 32),
                bits == field_bits(0xFF, 0, 0x00) | field_bits(0xFF, 8, 0x04) | field_bits(
                    0xFF,
                    16,
                    0x0C,
                ) | field_bits(0xFF, 24, 0x44) | field_bits(0xFF, 32, 0xFF),
        ;
    }
    fv
}

/// The field that holds the base address of the Level-0 table: the low 48
/// bits of the register take the low 48 bits of `level0_addr`.
pub fn ttbr0_fields(level0_addr: u64) -> (fv: FieldValue)
    ensures
        fv == ttbr0_base(level0_addr),
{
    // BADDR
    let fv = first_field(0xFFFF_FFFF_FFFF, 0, level0_addr);
    proof {
        let mask: u64 = fv.mask;
        let bits: u64 = fv.bits;
        assert(mask == 0xFFFF_FFFF_FFFF && bits == level0_addr & 0xFFFF_FFFF_FFFF)
            by (bit_vector)
            requires
                mask == field_mask(0xFFFF_FFFF_FFFF, 0),
                bits == field_bits(0xFFFF_FFFF_FFFF, 0, level0_addr),
        ;
    }
    fv
}

/// The fields that say how the tables are walked.
pub fn tcr_fields() -> (fv: FieldValue)
    ensures
        fv == tcr_walk(),
{
    // T0SZ: the input address space has 2^(64 - 25) bytes
    let fv = first_field(0x3F, 0, 25);
    // IRGN0: walks are inner write-back, read-allocate, write-allocate cacheable
    let fv = with_field(fv, 0x3, 8, 0b01);
    // ORGN0: walks are outer write-back, read-allocate, write-allocate cacheable
    let fv = with_field(fv, 0x3, 10, 0b01);
    // SH0: walks are inner shareable
    let fv = with_field(fv, 0x3, 12, 0b11);
    // TG0: granules of 4 KB
    let fv = with_field(fv, 0x3, 14, 0b00);
    // PS: 32 bits of physical address
    let fv = with_field(fv, 0x7, 16, 0b000);
    // TBI: the top byte of an address is ignored
    let fv = with_field(fv, 0x1, 20, 1);
    proof {
        let mask: u64 = fv.mask;
        let bits: u64 = fv.bits;
        assert(mask == 0x17_FF3F && bits == 0x10_3519) by (bit_vector)
            requires
                mask == field_mask(0x3F, 0) | field_mask(0x3, 8) | field_mask(0x3, 10)
                    | field_mask(0x3, 12) | field_mask(0x3, 14) | field_mask(0x7, 16)
                    | field_mask(0x1, 20),
                bits == field_bits(0x3F, 0, 25) | field_bits(0x3, 8, 0b01) | field_bits(
                    0x3,
                    10,
                    0b01,
                ) | field_bits(0x3, 12, 0b11) | field_bits(0x3, 14, 0b00) | field_bits(
                    0x7,
                    16,
                    0b000,
                ) | field_bits(0x1, 20, 1),
        ;
    }
    fv
}

/// The fields that rule out any redirection past the tables: default
/// cacheability and the second stage are switched off.
pub fn hcr_fields() -> (fv: FieldValue)
    ensures
        fv == hcr_direct(),
{
    // DC: default cacheable off
    let fv = first_field(0x1, 12, 0);
    // VM: second stage of translation off
    let fv = with_field(fv, 0x1, 0, 0);
    proof {
        let mask: u64 = fv.mask;
        let bits: u64 = fv.bits;
        assert(mask == 0x1001 && bits == 0) by (bit_vector)
            requires
                mask == field_mask(1, 12) | field_mask(1, 0),
                bits == field_bits(1, 12, 0) | field_bits(1, 0, 0),
        ;
    }
    fv
}

/// Writing the same fields twice leaves a register as writing them once.
pub proof fn lemma_merge_idempotent(fields: FieldValue, current: u64)
    ensures
        fields.merged(fields.merged(current)) == fields.merged(current),
{
    let m: u64 = fields.mask;
    let b: u64 = fields.bits;
    assert((((current & !m) | b) & !m) | b == (current & !m) | b) by (bit_vector);
}

/// A write of fields whose values lie within them changes no bit outside the
/// fields and gives the fields their values.
pub proof fn lemma_merge_sets_fields(fields: FieldValue, current: u64)
    requires
        fields.well_formed(),
    ensures
        fields.merged(current) & !fields.mask == current & !fields.mask,
        fields.holds_in(fields.merged(current)),
{
    let m: u64 = fields.mask;
    let b: u64 = fields.bits;
    assert(b & !m == 0 ==> ((current & !m) | b) & m == b && ((current & !m) | b) & !m == current
        & !m) by (bit_vector);
}

/// In each of the values that the setup writes, the bits lie within the named
/// fields.
pub proof fn lemma_values_well_formed(level0_addr: u64)
    ensures
        sctlr_off().well_formed(),
        sctlr_on().well_formed(),
        mair_profiles().well_formed(),
        ttbr0_base(level0_addr).well_formed(),
        tcr_walk().well_formed(),
        hcr_direct().well_formed(),
{
    assert({
        &&& 0u64 & !0x1005u64 == 0
        &&& 0x5u64 & !0x100Fu64 == 0
        &&& 0xFF_440C_0400u64 & !0xFF_FFFF_FFFFu64 == 0
        &&& (level0_addr & 0xFFFF_FFFF_FFFF) & !0xFFFF_FFFF_FFFFu64 == 0
        &&& 0x10_3519u64 & !0x17_FF3Fu64 == 0
        &&& 0u64 & !0x1001u64 == 0
    }) by (bit_vector);
}

/// The memory attribute fields bind every profile's index to that profile's
/// encoding, whatever the register held before.
pub proof fn lemma_mair_binds(attribute: MemoryAttribute, current: u64)
    ensures
        binds_attribute(mair_profiles().merged(current), attribute),
{
    let v: u64 = mair_profiles().merged(current);
    assert({
        &&& (v >> 0) & 0xFF == 0x00
        &&& (v >> 8) & 0xFF == 0x04
        &&& (v >> 16) & 0xFF == 0x0C
        &&& (v >> 24) & 0xFF == 0x44
        &&& (v >> 32) & 0xFF == 0xFF
    }) by (bit_vector)
        requires
            v == (current & !0xFF_FFFF_FFFFu64) | 0xFF_440C_0400,
    ;
}

/// After the enabling write the system control register has translation and
/// the data cache on; after the disabling write it has translation off.
pub proof fn lemma_sctlr_switch(current: u64)
    ensures
        translation_enabled(sctlr_on().merged(current)),
        !translation_enabled(sctlr_off().merged(current)),
        sctlr_on().holds_in(sctlr_on().merged(current)),
        sctlr_off().holds_in(sctlr_off().merged(current)),
{
    assert((((current & !0x100Fu64) | 0x5) & 1 != 0) && (((current & !0x100Fu64) | 0x5) & 0x100F
        == 0x5)) by (bit_vector);
    assert((((current & !0x1005u64) | 0) & 1 == 0) && (((current & !0x1005u64) | 0) & 0x1005
        == 0)) by (bit_vector);
}

} // verus!
