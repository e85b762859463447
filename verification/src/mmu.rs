//! The order in which the memory management unit is switched off and on.
//!
//! The hardware is changed by a strict sequence of operations: writes to
//! system registers, settle delays, barriers, and once, on one core, the
//! building of the translation tables. This module decides which operations
//! are made and in what order. A `Sequencer` hands them out one at a time; its
//! caller performs each on the hardware before it asks for the next.

use vstd::prelude::*;
use crate::descriptor::is_table_address;
use crate::tables::LEVEL1_UPPER_INDEX;
use crate::registers::{
    hcr_direct, hcr_fields, mair_fields, mair_profiles, sctlr_disable_fields,
    sctlr_enable_fields, sctlr_off, sctlr_on, tcr_fields, tcr_walk, ttbr0_base, ttbr0_fields,
    FieldValue, Register,
};

verus! {

/// The core that builds the translation tables, which all cores then share.
pub const DESIGNATED_CORE: u32 = 0;

/// Operations of the disabling sequence.
pub const DISABLE_STEPS: usize = 5;

/// Operations by which the tables are built and made visible.
pub const BUILD_STEPS: usize = 3;

/// Operations that program the registers and switch translation on.
pub const ENABLE_STEPS: usize = 7;

/// Where the translation tables lie in physical memory.
#[derive(Clone, Copy, Debug, PartialEq, Eq)]
pub struct TableAddresses {
    /// Address of the first entry of the Level-0 table.
    pub level0: u64,
    /// Address of the first entry of the Level-1 table.
    pub level1_lower: u64,
    /// Address of the Level-1 entry with index `LEVEL1_UPPER_INDEX`.
    pub level1_upper: u64,
}

impl TableAddresses {
    /// The addresses are such as the table walker can follow: each is aligned
    /// to 4096 bytes and below 2^48, and the upper Level-1 address lies
    /// `LEVEL1_UPPER_INDEX` entries of eight bytes above the lower.
    pub open spec fn well_placed(self) -> bool {
        &&& is_table_address(self.level0)
        &&& is_table_address(self.level1_lower)
        &&& is_table_address(self.level1_upper)
        &&& self.level1_upper == self.level1_lower + 8 * LEVEL1_UPPER_INDEX
    }
}

/// One step of a sequence, to be performed on the hardware.
#[derive(Clone, Copy, Debug, PartialEq, Eq)]
pub enum Operation {
    /// Give the named fields of `register` their values and leave its other
    /// bits as they are: read the register, `merge`, write it back.
    WriteFields { register: Register, fields: FieldValue },
    /// Let one cycle pass (`nop`).
    Nop,
    /// Wait until all memory accesses before this point are complete
    /// (`dsb sy`).
    DataSynchronizationBarrier,
    /// Discard what the core has fetched ahead (`isb`).
    InstructionSynchronizationBarrier,
    /// Fill the translation tables, with `setup_page_tables`.
    BuildTables { level1_lower: u64, level1_upper: u64 },
    /// Wait until the stores to the tables are visible to the table walker
    /// (`dsb ishst`).
    StoreBarrier,
    /// Drop every cached translation of this exception level on all cores
    /// (`tlbi alle2is`).
    InvalidateTlb,
}

/// The operations that switch translation off: the system control write that
/// clears translation and both caches, two cycles to settle, then a data and
/// an instruction synchronization barrier.
pub open spec fn disable_program() -> Seq<Operation> {
    seq![
        Operation::WriteFields { register: Register::SctlrEl2, fields: sctlr_off() },
        Operation::Nop,
        Operation::Nop,
        Operation::DataSynchronizationBarrier,
        Operation::InstructionSynchronizationBarrier,
    ]
}

/// The operations by which the designated core fills the tables and makes
/// them visible to the table walker.
pub open spec fn build_program(addresses: TableAddresses) -> Seq<Operation> {
    seq![
        Operation::BuildTables {
            level1_lower: addresses.level1_lower,
            level1_upper: addresses.level1_upper,
        },
        Operation::StoreBarrier,
        Operation::InvalidateTlb,
    ]
}

/// The operations that program the registers and switch translation on:
/// memory attributes, table base, translation control, hypervisor
/// configuration, then the system control write that activates translation,
/// and two cycles to settle.
pub open spec fn enable_program(level0: u64) -> Seq<Operation> {
    seq![
        Operation::WriteFields { register: Register::MairEl2, fields: mair_profiles() },
        Operation::WriteFields { register: Register::Ttbr0El2, fields: ttbr0_base(level0) },
        Operation::WriteFields { register: Register::TcrEl2, fields: tcr_walk() },
        Operation::WriteFields { register: Register::HcrEl2, fields: hcr_direct() },
        Operation::WriteFields { register: Register::SctlrEl2, fields: sctlr_on() },
        Operation::Nop,
        Operation::Nop,
    ]
}

/// The whole sequence that brings up translation on `core`: switch it off,
/// build the tables if `core` is the designated core, program the registers
/// and switch it on.
pub open spec fn initialize_program(core: u32, addresses: TableAddresses) -> Seq<Operation> {
    disable_program() + (if core == DESIGNATED_CORE {
        build_program(addresses)
    } else {
        Seq::empty()
    }) + enable_program(addresses.level0)
}

/// A sequence that is under way: the operations that are still to be
/// performed, in order.
#[derive(Clone, Copy, Debug)]
pub struct Sequencer {
    enable: bool,
    build: bool,
    addresses: TableAddresses,
    position: usize,
}

fn disable_operation(index: usize) -> (op: Operation)
    requires
        index < DISABLE_STEPS,
    ensures
        op == disable_program()[index as int],
{
    if index == 0 {
        Operation::WriteFields { register: Register::SctlrEl2, fields: sctlr_disable_fields() }
    } else if index <= 2 {
        Operation::Nop
    } else if index == 3 {
        Operation::DataSynchronizationBarrier
    } else {
        Operation::InstructionSynchronizationBarrier
    }
}

fn build_operation(index: usize, addresses: TableAddresses) -> (op: Operation)
    requires
        index < BUILD_STEPS,
    ensures
        op == build_program(addresses)[index as int],
{
    if index == 0 {
        Operation::BuildTables {
            level1_lower: addresses.level1_lower,
            level1_upper: addresses.level1_upper,
        }
    } else if index == 1 {
        Operation::StoreBarrier
    } else {
        Operation::InvalidateTlb
    }
}

fn enable_operation(index: usize, level0: u64) -> (op: Operation)
    requires
        index < ENABLE_STEPS,
    ensures
        op == enable_program(level0)[index as int],
{
    if index == 0 {
        Operation::WriteFields { register: Register::MairEl2, fields: mair_fields() }
    } else if index == 1 {
        Operation::WriteFields { register: Register::Ttbr0El2, fields: ttbr0_fields(level0) }
    } else if index == 2 {
        Operation::WriteFields { register: Register::TcrEl2, fields: tcr_fields() }
    } else if index == 3 {
        Operation::WriteFields { register: Register::HcrEl2, fields: hcr_fields() }
    } else if index == 4 {
        Operation::WriteFields { register: Register::SctlrEl2, fields: sctlr_enable_fields() }
    } else {
        Operation::Nop
    }
}

impl Sequencer {
    /// The whole sequence, from its first operation.
    pub closed spec fn program(self) -> Seq<Operation> {
        disable_program() + (if self.enable {
            (if self.build {
                build_program(self.addresses)
            } else {
                Seq::empty()
            }) + enable_program(self.addresses.level0)
        } else {
            Seq::empty()
        })
    }

    /// The operations that have not been handed out yet.
    pub closed spec fn remaining(self) -> Seq<Operation> {
        if self.position < self.program().len() {
            self.program().skip(self.position as int)
        } else {
            Seq::empty()
        }
    }

    /// Hands out the next operation of the sequence, or `None` when the
    /// sequence is complete. The caller performs the operation before it asks
    /// for the next.
    pub fn step(&mut self) -> (next: Option<Operation>)
        ensures
            final(self).program() == old(self).program(),
            old(self).remaining().len() == 0 ==> next is None && *final(self) == *old(self),
            old(self).remaining().len() > 0 ==> next == Some(old(self).remaining()[0])
                && final(self).remaining() == old(self).remaining().drop_first(),
    {
        let p: usize = self.position;
        let next = if p < DISABLE_STEPS {
            Some(disable_operation(p))
        } else if !self.enable {
            None
        } else {
            let built: usize = if self.build {
                BUILD_STEPS
            } else {
                0
            };
            let q: usize = p - DISABLE_STEPS;
            if q < built {
                Some(build_operation(q, self.addresses))
            } else if q - built < ENABLE_STEPS {
                Some(enable_operation(q - built, self.addresses.level0))
            } else {
                None
            }
        };
        if next.is_some() {
            self.position = p + 1;
        }
        next
    }
}

/// Begins the sequence that switches translation, the data cache and the
/// instruction cache off. It may be run at any time, also before translation
/// was ever switched on.
pub fn disable_mmu() -> (sequencer: Sequencer)
    ensures
        sequencer.program() == disable_program(),
        sequencer.remaining() == disable_program(),
{
    let sequencer = Sequencer {
        enable: false,
        build: false,
        addresses: TableAddresses { level0: 0, level1_lower: 0, level1_upper: 0 },
        position: 0,
    };
    sequencer
}

/// Begins the sequence that brings up translation on the core `core`, with
/// the translation tables at `addresses`. Translation is switched off first;
/// the tables are built only where `core` is the designated core; then the
/// registers are programmed and translation is switched on.
///
/// All cores share the tables. The designated core must have completed its
/// sequence before any other core begins one; nothing here enforces that.
pub fn initialize_mmu(core: u32, addresses: TableAddresses) -> (sequencer: Sequencer)
    ensures
        sequencer.program() == initialize_program(core, addresses),
        sequencer.remaining() == initialize_program(core, addresses),
{
    let sequencer = Sequencer {
        enable: true,
        build: core == DESIGNATED_CORE,
        addresses,
        position: 0,
    };
    sequencer
}

} // verus!
